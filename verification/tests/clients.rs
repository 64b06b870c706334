use vantis::clients::{
    drive_file_from_fields, drive_files_from_items, ClientError, DriveFileFields, DropboxClient, FilmwebClient,
    GoogleDriveClient, GoogleDriveCredentials, IntegrationManager, PodcastClient, SpotifyClient, SpotifyCredentials,
    TMDBClient, TraktClient, YouTubeClient, YouTubeCredentials,
};
use vantis::clients::DropboxCredentials;
use vantis::cloud_storage::{dropbox_files_from_entries, DropboxConfig, DropboxEntryFields, GoogleDriveConfig};
use vantis::integrations::{ConnectionStatus, IntegrationManagerBuilder, IntegrationProvider};
use vantis::podcast::{ITunesPodcast, PodcastConfig, RSSChannel, RSSItem};
use vantis::podcast_feeds::{
    best_image, episodes_from_channel, feeds_from_itunes, parse_rss_date, top_podcasts_from_entries, PodcastFeed,
    TopPodcastEntry, TopPodcastImage,
};
use vantis::spotify::SpotifyConfig;
use vantis::urls::{i32_text, join_strings};
use vantis::youtube::{
    youtube_channels_from_items, youtube_playlists_from_items, youtube_videos_from_items, YouTubeChannelFields,
    YouTubeConfig, YouTubeItemFields, YouTubePlaylistFields,
};

fn spotify_creds(expires_at: i64) -> SpotifyCredentials {
    SpotifyCredentials {
        access_token: "tok".to_string(),
        refresh_token: None,
        expires_at,
        token_type: "Bearer".to_string(),
        scope: None,
    }
}

#[test]
fn spotify_auth_url_encodes_values() {
    let mut config = SpotifyConfig::default();
    config.oauth.client_id = "my id".to_string();
    config.oauth.scopes = vec!["user-read-private".to_string(), "user-read-email".to_string()];
    let client = SpotifyClient::new(config);
    assert_eq!(
        client.get_auth_url("s/1"),
        "https://accounts.spotify.com/authorize?client_id=my%20id&response_type=code\
&redirect_uri=http%3A%2F%2Flocalhost%3A8080%2Fcallback%2Fspotify&scope=user-read-private%20user-read-email&state=s%2F1"
    );
}

#[test]
fn spotify_search_needs_credentials() {
    let mut client = SpotifyClient::new(SpotifyConfig::default());
    assert_eq!(client.search_tracks_url("a b", 10, 0), Err(ClientError::NotAuthenticated));
    assert_eq!(ClientError::NotAuthenticated.message(), "Not authenticated");
    assert!(client.get_credentials().is_none());
    client.set_credentials(spotify_creds(100));
    assert_eq!(
        client.search_tracks_url("a b", 10, 5).unwrap(),
        "https://api.spotify.com/v1/search?q=a%20b&type=track&limit=10&offset=5"
    );
    assert_eq!(client.get_credentials().unwrap().access_token, "tok");
}

#[test]
fn credentials_expiry() {
    let c = spotify_creds(100);
    assert!(c.is_expired_at(100));
    assert!(c.is_expired_at(101));
    assert!(!c.is_expired_at(99));
    assert!(spotify_creds(0).is_expired());
    assert!(!spotify_creds(i64::MAX).is_expired());
}

#[test]
fn youtube_urls() {
    let mut client = YouTubeClient::new(YouTubeConfig::default());
    assert_eq!(
        client.get_auth_url("x"),
        "https://accounts.google.com/o/oauth2/v2/auth?client_id=&redirect_uri=http%3A%2F%2Flocalhost%3A8080%2Fcallback%2Fyoutube\
&response_type=code&scope=https%3A%2F%2Fwww.googleapis.com%2Fauth%2Fyoutube.readonly%20https%3A%2F%2Fwww.googleapis.com%2Fauth%2Fyoutubepartner\
&state=x&access_type=offline&prompt=consent"
    );
    assert!(client.search_videos_url("cats", 5).is_err());
    client.set_credentials(YouTubeCredentials {
        access_token: "t".to_string(),
        refresh_token: None,
        expires_at: 0,
        token_type: "Bearer".to_string(),
        scope: None,
    });
    assert_eq!(
        client.search_videos_url("cats & dogs", 5).unwrap(),
        "https://www.googleapis.com/youtube/v3/search?part=snippet&q=cats%20%26%20dogs&type=video&maxResults=5"
    );
}

#[test]
fn drive_urls() {
    let mut client = GoogleDriveClient::new(GoogleDriveConfig::default());
    assert_eq!(client.list_files_url(None, None), Err(ClientError::NotAuthenticated));
    assert_eq!(client.get_download_url("f1"), None);
    client.set_credentials(GoogleDriveCredentials { access_token: "a+b".to_string(), refresh_token: None, expires_at: 0 });
    let fields = "&fields=files(id,name,mimeType,size,createdTime,modifiedTime,parents,thumbnailLink,webViewLink)";
    assert_eq!(
        client.list_files_url(None, None).unwrap(),
        format!("https://www.googleapis.com/drive/v3/files?pageSize=100&q=%27root%27%20in%20parents%20and%20trashed%20%3D%20false{}", fields)
    );
    assert_eq!(
        client.list_files_url(Some("abc"), Some(-5)).unwrap(),
        format!("https://www.googleapis.com/drive/v3/files?pageSize=-5&q=%27abc%27%20in%20parents%20and%20trashed%20%3D%20false{}", fields)
    );
    assert_eq!(
        client.search_files_url("x", None, Some(10)).unwrap(),
        format!("https://www.googleapis.com/drive/v3/files?pageSize=10&q=name%20contains%20%27x%27%20and%20trashed%20%3D%20false{}", fields)
    );
    let mimes: [&str; 2] = ["video/", "audio/"];
    assert_eq!(
        client.search_files_url("x", Some(&mimes[..]), Some(10)).unwrap(),
        format!(
            "https://www.googleapis.com/drive/v3/files?pageSize=10&q=name%20contains%20%27x%27%20and%20trashed%20%3D%20false\
%20and%20%28mimeType%20contains%20%27video%2F%27%20or%20mimeType%20contains%20%27audio%2F%27%29{}",
            fields
        )
    );
    assert_eq!(
        client.get_download_url("f1").unwrap(),
        "https://www.googleapis.com/drive/v3/files/f1?alt=media&access_token=a%2Bb"
    );
}

fn entry(id: Option<&str>, name: Option<&str>, mime: Option<&str>, size: Option<&str>) -> DriveFileFields {
    DriveFileFields {
        id: id.map(|s| s.to_string()),
        name: name.map(|s| s.to_string()),
        mime_type: mime.map(|s| s.to_string()),
        size: size.map(|s| s.to_string()),
        created_time: Some("2024-01-01".to_string()),
        modified_time: None,
        first_parent: Some("root".to_string()),
        thumbnail_link: None,
        web_view_link: Some("https://drive/x".to_string()),
    }
}

#[test]
fn drive_entries_read_as_files() {
    let folder = drive_file_from_fields(&entry(Some("1"), Some("Movies"), Some("application/vnd.google-apps.folder"), None))
        .unwrap();
    assert!(folder.is_folder);
    assert_eq!(folder.size, None);
    assert_eq!(folder.parent_id.as_deref(), Some("root"));
    assert_eq!(folder.created_time.as_deref(), Some("2024-01-01"));
    assert_eq!(folder.web_view_link.as_deref(), Some("https://drive/x"));
    assert_eq!(folder.download_url, None);
    let file = drive_file_from_fields(&entry(Some("2"), Some("a.mp4"), None, Some("1234"))).unwrap();
    assert!(!file.is_folder);
    assert_eq!(file.mime_type.as_deref(), Some(""));
    assert_eq!(file.size, Some(1234));
    assert!(drive_file_from_fields(&entry(None, Some("x"), None, None)).is_none());
    assert!(drive_file_from_fields(&entry(Some("3"), None, None, None)).is_none());
    let items = vec![
        entry(Some("1"), Some("a"), None, Some("big")),
        entry(None, Some("b"), None, None),
        entry(Some("3"), Some("c"), None, None),
    ];
    let files = drive_files_from_items(&items);
    assert_eq!(files.len(), 2);
    assert_eq!(files[0].id, "1");
    assert_eq!(files[0].size, None);
    assert_eq!(files[1].id, "3");
}

#[test]
fn dropbox_and_catalog_urls() {
    let mut config = DropboxConfig::default();
    config.oauth.client_id = "app".to_string();
    let client = DropboxClient::new(config);
    assert_eq!(
        client.get_auth_url("st"),
        "https://www.dropbox.com/oauth2/authorize?client_id=app&redirect_uri=http%3A%2F%2Flocalhost%3A8080%2Fcallback%2Fdropbox\
&response_type=code&state=st"
    );
    let tmdb = TMDBClient::new("KEY");
    assert_eq!(tmdb.search_movie_url("Blade Runner"), "https://api.themoviedb.org/3/search/movie?api_key=KEY&query=Blade%20Runner");
    assert_eq!(tmdb.movie_url(78), "https://api.themoviedb.org/3/movie/78?api_key=KEY");
    assert_eq!(tmdb.cast_url(78), "https://api.themoviedb.org/3/movie/78/credits?api_key=KEY");
    let filmweb = FilmwebClient::new();
    assert_eq!(filmweb.search_movie_url("Miś"), "https://www.filmweb.pl/search?q=Mi%C5%9B");
    let mut trakt = TraktClient::new("id", "secret");
    assert_eq!(trakt.token_url(), "https://api.trakt.tv/oauth/token");
    assert_eq!(trakt.history_request(), Err(ClientError::NotAuthenticated));
    trakt.access_token = Some("t0".to_string());
    assert_eq!(
        trakt.history_request().unwrap(),
        ("https://api.trakt.tv/sync/history".to_string(), "Bearer t0".to_string())
    );
}

#[test]
fn podcast_urls() {
    let client = PodcastClient::new(PodcastConfig::default());
    assert_eq!(
        client.search_podcasts_url("true crime", 20),
        "https://itunes.apple.com/search?term=true%20crime&media=podcast&entity=podcast&limit=20"
    );
    assert_eq!(client.podcast_lookup_url("123"), "https://itunes.apple.com/lookup?id=123&entity=podcast");
    assert_eq!(client.top_podcasts_url(25), "https://itunes.apple.com/us/rss/toppodcasts/limit=25/explicit=true/json");
    let cats = client.get_categories();
    assert_eq!(cats.len(), 12);
    let shape: Vec<(u64, &str, usize)> = cats.iter().map(|c| (c.id, c.name.as_str(), c.subcategories.len())).collect();
    assert_eq!(
        shape,
        vec![
            (1301, "Arts", 3),
            (1321, "Business", 3),
            (1303, "Comedy", 0),
            (1304, "Education", 2),
            (1305, "Health & Fitness", 2),
            (1307, "Music", 0),
            (1309, "News", 2),
            (1311, "Science", 0),
            (1313, "Society & Culture", 0),
            (1314, "Sports", 0),
            (1315, "Technology", 0),
            (1316, "True Crime", 0),
        ]
    );
    assert!(cats.iter().all(|c| c.subcategories.iter().all(|s| s.subcategories.is_empty())));
}

#[test]
fn manager_status_by_credentials() {
    let mut m = IntegrationManager::new();
    assert_eq!(m.get_status_at(IntegrationProvider::Spotify, 0), ConnectionStatus::Disconnected);
    assert!(!m.is_connected(IntegrationProvider::TMDB));
    m.init_tmdb("k");
    assert_eq!(m.get_status_at(IntegrationProvider::TMDB, 0), ConnectionStatus::Connected);
    assert!(m.is_connected(IntegrationProvider::TMDB));
    m.init_spotify(SpotifyConfig::default());
    assert_eq!(m.get_status_at(IntegrationProvider::Spotify, 0), ConnectionStatus::Disconnected);
    assert!(!m.is_connected(IntegrationProvider::Spotify));
    m.spotify.as_mut().unwrap().set_credentials(spotify_creds(100));
    assert_eq!(m.get_status_at(IntegrationProvider::Spotify, 50), ConnectionStatus::Connected);
    assert_eq!(m.get_status_at(IntegrationProvider::Spotify, 100), ConnectionStatus::Expired);
    assert!(m.is_connected(IntegrationProvider::Spotify));
    assert_eq!(m.get_status(IntegrationProvider::Spotify), ConnectionStatus::Expired);
    m.init_dropbox(DropboxConfig::default());
    assert_eq!(m.get_status_at(IntegrationProvider::Dropbox, 0), ConnectionStatus::Disconnected);
    assert_eq!(m.get_status_at(IntegrationProvider::ITunes, 0), ConnectionStatus::Disconnected);
}

#[test]
fn test_integration_manager_creation() {
    let manager = IntegrationManagerBuilder::new().with_tmdb("test_key".to_string()).with_filmweb().build();
    assert!(manager.is_connected(IntegrationProvider::TMDB));
    assert!(manager.is_connected(IntegrationProvider::Filmweb));
    assert!(!manager.is_connected(IntegrationProvider::Trakt));
}

#[test]
fn builder_sets_up_what_was_asked() {
    let m = IntegrationManagerBuilder::new()
        .with_trakt("cid".to_string(), None)
        .with_ipc()
        .with_podcast(PodcastConfig::default())
        .build();
    assert_eq!(m.trakt.as_ref().unwrap().client_secret, "");
    assert!(m.ipc_guard.is_some());
    assert!(m.tmdb.is_none());
    assert_eq!(m.get_status_at(IntegrationProvider::ITunes, 0), ConnectionStatus::Connected);
    assert_eq!(m.get_status_at(IntegrationProvider::Trakt, 0), ConnectionStatus::Connected);
}

#[test]
fn url_text_helpers() {
    assert_eq!(i32_text(-2147483648), "-2147483648");
    assert_eq!(i32_text(0), "0");
    assert_eq!(join_strings(&vec!["a".to_string(), "b".to_string(), "c".to_string()], ", "), "a, b, c");
    assert_eq!(join_strings(&vec![], ", "), "");
}

fn itunes(id: u64, a600: Option<&str>, a100: Option<&str>, a60: Option<&str>) -> ITunesPodcast {
    ITunesPodcast {
        collection_id: id,
        collection_name: "Show".to_string(),
        artist_name: "Host".to_string(),
        feed_url: Some("https://feed".to_string()),
        artwork_url_30: Some("30.png".to_string()),
        artwork_url_60: a60.map(|s| s.to_string()),
        artwork_url_100: a100.map(|s| s.to_string()),
        artwork_url_600: a600.map(|s| s.to_string()),
        primary_genre_name: Some("Comedy".to_string()),
        track_count: Some(12),
    }
}

#[test]
fn feeds_from_search_results() {
    let feed = PodcastFeed::from_itunes(&itunes(1200, None, Some("100.png"), Some("60.png")));
    assert_eq!(feed.id, "1200");
    assert_eq!(feed.title, "Show");
    assert_eq!(feed.author.as_deref(), Some("Host"));
    assert_eq!(feed.artwork_url.as_deref(), Some("100.png"));
    assert_eq!(feed.category.as_deref(), Some("Comedy"));
    assert_eq!(feed.episode_count, Some(12));
    assert_eq!(feed.description, None);
    let feeds = feeds_from_itunes(&vec![itunes(1, Some("600.png"), None, None), itunes(2, None, None, None)]);
    assert_eq!(feeds.len(), 2);
    assert_eq!(feeds[0].artwork_url.as_deref(), Some("600.png"));
    assert_eq!(feeds[1].artwork_url, None);
    assert_eq!(feeds[1].id, "2");
}

fn img(label: &str, height: &str) -> TopPodcastImage {
    TopPodcastImage { label: label.to_string(), height: height.to_string() }
}

#[test]
fn top_chart_picks_largest_image() {
    assert_eq!(best_image(&vec![img("a", "55"), img("b", "170"), img("c", "60")]), Some(1));
    assert_eq!(best_image(&vec![img("a", "170"), img("b", "170")]), Some(1));
    assert_eq!(best_image(&vec![img("a", "x"), img("b", "0")]), Some(1));
    assert_eq!(best_image(&vec![]), None);
    let entries = vec![TopPodcastEntry {
        name: "N".to_string(),
        artist: "A".to_string(),
        id: "99".to_string(),
        images: vec![img("small", "55"), img("big", "170")],
    }];
    let feeds = top_podcasts_from_entries(&entries);
    assert_eq!(feeds[0].id, "99");
    assert_eq!(feeds[0].title, "N");
    assert_eq!(feeds[0].author.as_deref(), Some("A"));
    assert_eq!(feeds[0].artwork_url.as_deref(), Some("big"));
}

fn item(title: Option<&str>, guid: Option<&str>, date: Option<&str>, duration: Option<&str>) -> RSSItem {
    RSSItem {
        title: title.map(|s| s.to_string()),
        link: None,
        description: Some("d".to_string()),
        author: None,
        enclosure_url: Some("https://a.mp3".to_string()),
        enclosure_length: None,
        enclosure_type: None,
        guid: guid.map(|s| s.to_string()),
        pub_date: date.map(|s| s.to_string()),
        duration: duration.map(|s| s.to_string()),
        image_url: None,
        episode: Some(3),
        season: None,
    }
}

#[test]
fn episodes_from_feed_items() {
    let channel = RSSChannel {
        title: "T".to_string(),
        link: None,
        description: None,
        language: None,
        image_url: None,
        categories: vec![],
        explicit: None,
        author: None,
        episodes: vec![
            item(Some("One"), Some("g1"), Some("Mon, 01 Jan 2024 10:00:00 +0000"), Some("1:00")),
            item(None, None, Some("not a date"), None),
            item(Some("Three"), None, None, None),
        ],
    };
    let eps = episodes_from_channel(&channel, "https://x.com/feed", 2);
    assert_eq!(eps.len(), 2);
    assert_eq!(eps[0].id, "g1");
    assert_eq!(eps[0].feed_id, "https%3A%2F%2Fx.com%2Ffeed");
    assert_eq!(eps[0].title, "One");
    assert_eq!(eps[0].pub_date, Some(1704103200));
    assert_eq!(eps[0].duration_seconds, Some(60));
    assert_eq!(eps[0].audio_url.as_deref(), Some("https://a.mp3"));
    assert_eq!(eps[0].episode_number, Some(3));
    assert_eq!(eps[1].id, "https%3A%2F%2Fx.com%2Ffeed-1");
    assert_eq!(eps[1].title, "Untitled");
    assert_eq!(eps[1].pub_date, None);
    assert_eq!(episodes_from_channel(&channel, "f", 10).len(), 3);
}

#[test]
fn rss_dates() {
    assert_eq!(parse_rss_date("Mon, 01 Jan 2024 10:00:00 +0000"), Some(1704103200));
    assert_eq!(parse_rss_date("2024-01-01T10:00:00+01:00"), Some(1704099600));
    assert_eq!(parse_rss_date("2024-01-01T10:00:00Z"), Some(1704103200));
    assert_eq!(parse_rss_date("yesterday"), None);
}

fn some(s: &str) -> Option<String> {
    Some(s.to_string())
}

#[test]
fn youtube_responses_read_as_videos_playlists_and_channels() {
    let video = |id: Option<String>, title: Option<String>| YouTubeItemFields {
        video_id: id,
        title,
        description: some("d"),
        thumbnail_url: None,
        channel_title: some("c"),
        channel_id: some("ci"),
        published_at: some("2024"),
    };
    let videos = youtube_videos_from_items(&vec![
        video(some("v1"), some("One")),
        video(None, some("No id")),
        video(some("v3"), None),
        video(some("v4"), some("Four")),
    ]);
    assert_eq!(videos.len(), 2);
    assert_eq!((videos[0].id.as_str(), videos[0].title.as_str()), ("v1", "One"));
    assert_eq!(videos[1].id, "v4");
    assert_eq!(videos[0].description.as_deref(), Some("d"));
    assert_eq!(videos[0].channel_id.as_deref(), Some("ci"));
    assert!(videos[0].duration.is_none() && videos[0].view_count.is_none() && videos[0].like_count.is_none());

    let playlists = youtube_playlists_from_items(&vec![
        YouTubePlaylistFields {
            id: some("p1"),
            title: some("Mix"),
            description: None,
            thumbnail_url: some("t"),
            channel_title: None,
            item_count: Some(4294967297),
            privacy_status: some("public"),
        },
        YouTubePlaylistFields {
            id: None,
            title: some("x"),
            description: None,
            thumbnail_url: None,
            channel_title: None,
            item_count: None,
            privacy_status: None,
        },
    ]);
    assert_eq!(playlists.len(), 1);
    assert_eq!(playlists[0].item_count, Some(1));
    assert_eq!(playlists[0].privacy_status.as_deref(), Some("public"));

    let channels = youtube_channels_from_items(&vec![
        YouTubeChannelFields { channel_id: some("UC1"), title: some("Chan"), description: None, thumbnail_url: some("u") },
        YouTubeChannelFields { channel_id: some("UC2"), title: None, description: None, thumbnail_url: None },
    ]);
    assert_eq!(channels.len(), 1);
    assert_eq!((channels[0].id.as_str(), channels[0].title.as_str()), ("UC1", "Chan"));
    assert!(channels[0].subscriber_count.is_none() && channels[0].video_count.is_none());
}

#[test]
fn youtube_request_urls() {
    let mut client = YouTubeClient::new(YouTubeConfig::default());
    assert_eq!(client.playlists_url(5), Err(ClientError::NotAuthenticated));
    client.set_credentials(YouTubeCredentials {
        access_token: "t".to_string(),
        refresh_token: None,
        expires_at: 0,
        token_type: "Bearer".to_string(),
        scope: None,
    });
    assert_eq!(
        client.playlists_url(5).unwrap(),
        "https://www.googleapis.com/youtube/v3/playlists?part=snippet,contentDetails,status&mine=true&maxResults=5"
    );
    assert_eq!(
        client.playlist_items_url("PL9", 10).unwrap(),
        "https://www.googleapis.com/youtube/v3/playlistItems?part=snippet,contentDetails&playlistId=PL9&maxResults=10"
    );
    assert_eq!(
        client.subscriptions_url(50).unwrap(),
        "https://www.googleapis.com/youtube/v3/subscriptions?part=snippet&mine=true&maxResults=50"
    );
}

#[test]
fn dropbox_entries_read_as_files() {
    let entry = |tag: Option<&str>, id: Option<&str>, name: Option<&str>, path: Option<&str>| DropboxEntryFields {
        tag: tag.map(|t| t.to_string()),
        id: id.map(|t| t.to_string()),
        name: name.map(|t| t.to_string()),
        path_display: path.map(|t| t.to_string()),
        size: Some(12),
        server_modified: some("2024-01-01"),
    };
    let files = dropbox_files_from_entries(&vec![
        entry(Some("folder"), Some("id:1"), Some("Docs"), Some("/Docs")),
        entry(None, None, Some("a.txt"), None),
        entry(Some("file"), Some("id:3"), None, Some("/x")),
    ]);
    assert_eq!(files.len(), 2);
    assert!(files[0].is_folder);
    assert_eq!((files[0].id.as_str(), files[0].path.as_str()), ("id:1", "/Docs"));
    assert!(!files[1].is_folder);
    assert_eq!((files[1].id.as_str(), files[1].path.as_str(), files[1].name.as_str()), ("", "", "a.txt"));
    assert_eq!(files[1].size, Some(12));
    assert!(files[1].download_url.is_none());

    let mut client = DropboxClient::new(DropboxConfig::default());
    assert_eq!(client.list_files_url(), Err(ClientError::NotAuthenticated));
    client.set_credentials(DropboxCredentials { access_token: "t".to_string(), refresh_token: None, expires_at: 0 });
    assert_eq!(client.list_files_url().unwrap(), "https://api.dropboxapi.com/2/files/list_folder");
    assert_eq!(client.search_files_url().unwrap(), "https://api.dropboxapi.com/2/files/search_v2");
}
