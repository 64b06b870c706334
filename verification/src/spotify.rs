//! Spotify settings and the values the Spotify Web API describes: profiles,
//! tracks, artists, albums, playlists and playback devices.

use vstd::prelude::*;

use crate::performance::texts_of;
use crate::text::owned;

verus! {

/// Spotify OAuth2 configuration.
#[derive(Debug, Clone)]
pub struct SpotifyOAuthConfig {
    pub client_id: String,
    pub client_secret: String,
    pub redirect_uri: String,
    pub scopes: Vec<String>,
}

/// The scopes Spotify access is asked for by default.
pub open spec fn default_spotify_scopes() -> Seq<Seq<char>> {
    seq![
        "user-read-private"@,
        "user-read-email"@,
        "user-library-read"@,
        "user-library-modify"@,
        "playlist-read-private"@,
        "playlist-read-collaborative"@,
        "playlist-modify-public"@,
        "playlist-modify-private"@,
        "user-read-playback-state"@,
        "user-modify-playback-state"@,
        "user-read-currently-playing"@,
    ]
}

impl Default for SpotifyOAuthConfig {
    fn default() -> (c: SpotifyOAuthConfig)
        ensures
            c.client_id@.len() == 0,
            c.client_secret@.len() == 0,
            c.redirect_uri@ == "http://localhost:8080/callback/spotify"@,
            texts_of(c.scopes@) == default_spotify_scopes(),
    {
        let mut scopes: Vec<String> = Vec::new();
        scopes.push(owned("user-read-private"));
        scopes.push(owned("user-read-email"));
        scopes.push(owned("user-library-read"));
        scopes.push(owned("user-library-modify"));
        scopes.push(owned("playlist-read-private"));
        scopes.push(owned("playlist-read-collaborative"));
        scopes.push(owned("playlist-modify-public"));
        scopes.push(owned("playlist-modify-private"));
        scopes.push(owned("user-read-playback-state"));
        scopes.push(owned("user-modify-playback-state"));
        scopes.push(owned("user-read-currently-playing"));
        assert(texts_of(scopes@) =~= default_spotify_scopes());
        SpotifyOAuthConfig {
            client_id: String::new(),
            client_secret: String::new(),
            redirect_uri: owned("http://localhost:8080/callback/spotify"),
            scopes,
        }
    }
}

/// Spotify API client configuration.
#[derive(Debug, Clone)]
pub struct SpotifyConfig {
    pub oauth: SpotifyOAuthConfig,
    pub api_base_url: String,
    pub accounts_url: String,
    pub timeout_seconds: u64,
}

impl Default for SpotifyConfig {
    fn default() -> (c: SpotifyConfig)
        ensures
            c.oauth.redirect_uri@ == "http://localhost:8080/callback/spotify"@,
            texts_of(c.oauth.scopes@) == default_spotify_scopes(),
            c.api_base_url@ == "https://api.spotify.com/v1"@,
            c.accounts_url@ == "https://accounts.spotify.com"@,
            c.timeout_seconds == 30,
    {
        SpotifyConfig {
            oauth: SpotifyOAuthConfig::default(),
            api_base_url: owned("https://api.spotify.com/v1"),
            accounts_url: owned("https://accounts.spotify.com"),
            timeout_seconds: 30,
        }
    }
}

/// Spotify user profile
#[derive(Debug, Clone)]
pub struct SpotifyProfile {
    pub id: String,
    pub display_name: Option<String>,
    pub email: Option<String>,
    pub country: Option<String>,
    pub product: Option<String>,
    pub images: Vec<SpotifyImage>,
    pub followers: Option<SpotifyFollowers>,
}

/// An image of a Spotify profile, artist, album or playlist.
#[derive(Debug, Clone)]
pub struct SpotifyImage {
    pub url: String,
    pub height: Option<u32>,
    pub width: Option<u32>,
}

/// Follower count of a Spotify profile.
#[derive(Debug, Clone)]
pub struct SpotifyFollowers {
    pub total: Option<u32>,
}

/// Spotify track
#[derive(Debug, Clone)]
pub struct SpotifyTrack {
    pub id: String,
    pub name: String,
    pub artists: Vec<SpotifyArtist>,
    pub album: Option<SpotifyAlbum>,
    pub duration_ms: u32,
    pub track_number: Option<u32>,
    pub disc_number: Option<u32>,
    pub explicit: bool,
    pub preview_url: Option<String>,
    pub external_urls: Option<SpotifyExternalUrls>,
}

/// A Spotify artist.
#[derive(Debug, Clone)]
pub struct SpotifyArtist {
    pub id: String,
    pub name: String,
    pub genres: Option<Vec<String>>,
    pub images: Option<Vec<SpotifyImage>>,
}

/// A Spotify album.
#[derive(Debug, Clone)]
pub struct SpotifyAlbum {
    pub id: String,
    pub name: String,
    pub album_type: Option<String>,
    pub artists: Vec<SpotifyArtist>,
    pub images: Vec<SpotifyImage>,
    pub release_date: Option<String>,
    pub total_tracks: Option<u32>,
}

/// Links to an item on the Spotify site.
#[derive(Debug, Clone)]
pub struct SpotifyExternalUrls {
    pub spotify: Option<String>,
}

/// Spotify playlist
#[derive(Debug, Clone)]
pub struct SpotifyPlaylist {
    pub id: String,
    pub name: String,
    pub description: Option<String>,
    pub owner: SpotifyOwner,
    pub images: Vec<SpotifyImage>,
    pub tracks: SpotifyPlaylistTracks,
    pub public: Option<bool>,
    pub collaborative: Option<bool>,
}

/// Owner of a Spotify playlist.
#[derive(Debug, Clone)]
pub struct SpotifyOwner {
    pub id: String,
    pub display_name: Option<String>,
}

/// Where a playlist's tracks are listed, and how many there are.
#[derive(Debug, Clone)]
pub struct SpotifyPlaylistTracks {
    pub total: u32,
    pub href: Option<String>,
}

/// A device Spotify can play on.
#[derive(Debug, Clone)]
pub struct SpotifyDevice {
    pub id: String,
    pub is_active: bool,
    pub is_restricted: bool,
    pub name: String,
    pub device_type: String,
    pub volume_percent: Option<u32>,
}


} // verus!
