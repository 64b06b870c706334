//! YouTube settings, the values the YouTube Data API describes, and the
//! reading of its ISO 8601 video durations.

use vstd::prelude::*;

use crate::performance::texts_of;
use crate::text::{copy_opt_string, is_digit, owned, parse_u32, parse_u32_spec, str_chars};

verus! {

/// YouTube OAuth2 configuration.
#[derive(Debug, Clone)]
pub struct YouTubeOAuthConfig {
    pub client_id: String,
    pub client_secret: String,
    pub redirect_uri: String,
    pub scopes: Vec<String>,
}

impl Default for YouTubeOAuthConfig {
    fn default() -> (c: YouTubeOAuthConfig)
        ensures
            c.client_id@.len() == 0,
            c.client_secret@.len() == 0,
            c.redirect_uri@ == "http://localhost:8080/callback/youtube"@,
            texts_of(c.scopes@) == seq![
                "https://www.googleapis.com/auth/youtube.readonly"@,
                "https://www.googleapis.com/auth/youtubepartner"@,
            ],
    {
        let mut scopes: Vec<String> = Vec::new();
        scopes.push(owned("https://www.googleapis.com/auth/youtube.readonly"));
        scopes.push(owned("https://www.googleapis.com/auth/youtubepartner"));
        assert(texts_of(scopes@) =~= seq![
            "https://www.googleapis.com/auth/youtube.readonly"@,
            "https://www.googleapis.com/auth/youtubepartner"@,
        ]);
        YouTubeOAuthConfig {
            client_id: String::new(),
            client_secret: String::new(),
            redirect_uri: owned("http://localhost:8080/callback/youtube"),
            scopes,
        }
    }
}

/// YouTube API client configuration.
#[derive(Debug, Clone)]
pub struct YouTubeConfig {
    pub oauth: YouTubeOAuthConfig,
    pub api_key: Option<String>,
    pub api_base_url: String,
    pub timeout_seconds: u64,
}

impl Default for YouTubeConfig {
    fn default() -> (c: YouTubeConfig)
        ensures
            c.oauth.redirect_uri@ == "http://localhost:8080/callback/youtube"@,
            c.api_key is None,
            c.api_base_url@ == "https://www.googleapis.com/youtube/v3"@,
            c.timeout_seconds == 30,
    {
        YouTubeConfig {
            oauth: YouTubeOAuthConfig::default(),
            api_key: None,
            api_base_url: owned("https://www.googleapis.com/youtube/v3"),
            timeout_seconds: 30,
        }
    }
}

/// YouTube video
#[derive(Debug, Clone)]
pub struct YouTubeVideo {
    pub id: String,
    pub title: String,
    pub description: Option<String>,
    pub thumbnail_url: Option<String>,
    pub channel_title: Option<String>,
    pub channel_id: Option<String>,
    pub published_at: Option<String>,
    pub duration: Option<String>,
    pub duration_seconds: Option<u32>,
    pub view_count: Option<u64>,
    pub like_count: Option<u64>,
}

/// YouTube playlist
#[derive(Debug, Clone)]
pub struct YouTubePlaylist {
    pub id: String,
    pub title: String,
    pub description: Option<String>,
    pub thumbnail_url: Option<String>,
    pub channel_title: Option<String>,
    pub item_count: Option<u32>,
    pub privacy_status: Option<String>,
}

/// YouTube channel
#[derive(Debug, Clone)]
pub struct YouTubeChannel {
    pub id: String,
    pub title: String,
    pub description: Option<String>,
    pub thumbnail_url: Option<String>,
    pub subscriber_count: Option<u64>,
    pub video_count: Option<u64>,
}


/// The fields of a video entry of a YouTube response, as far as they are
/// present and are strings: a search result, or an item of a playlist.
#[derive(Debug, Clone)]
pub struct YouTubeItemFields {
    pub video_id: Option<String>,
    pub title: Option<String>,
    pub description: Option<String>,
    pub thumbnail_url: Option<String>,
    pub channel_title: Option<String>,
    pub channel_id: Option<String>,
    pub published_at: Option<String>,
}

/// The fields of a playlist entry of a YouTube response.
#[derive(Debug, Clone)]
pub struct YouTubePlaylistFields {
    pub id: Option<String>,
    pub title: Option<String>,
    pub description: Option<String>,
    pub thumbnail_url: Option<String>,
    pub channel_title: Option<String>,
    pub item_count: Option<u64>,
    pub privacy_status: Option<String>,
}

/// The fields of a subscription entry of a YouTube response: the channel
/// subscribed to.
#[derive(Debug, Clone)]
pub struct YouTubeChannelFields {
    pub channel_id: Option<String>,
    pub title: Option<String>,
    pub description: Option<String>,
    pub thumbnail_url: Option<String>,
}

/// A video entry is read when it has a video identifier and a title.
pub open spec fn video_kept(f: YouTubeItemFields) -> bool {
    f.video_id is Some && f.title is Some
}

/// `v` is the video the entry `f` reads as: its fields copied, and no
/// duration or counts.
pub open spec fn video_from(f: YouTubeItemFields, v: YouTubeVideo) -> bool {
    &&& f.video_id == Some(v.id)
    &&& f.title == Some(v.title)
    &&& v.description == f.description
    &&& v.thumbnail_url == f.thumbnail_url
    &&& v.channel_title == f.channel_title
    &&& v.channel_id == f.channel_id
    &&& v.published_at == f.published_at
    &&& v.duration is None
    &&& v.duration_seconds is None
    &&& v.view_count is None
    &&& v.like_count is None
}

/// The video entries that are read, in order.
pub open spec fn kept_videos(items: Seq<YouTubeItemFields>) -> Seq<YouTubeItemFields>
    decreases items.len(),
{
    if items.len() == 0 {
        Seq::empty()
    } else if video_kept(items.last()) {
        kept_videos(items.drop_last()).push(items.last())
    } else {
        kept_videos(items.drop_last())
    }
}

/// A playlist entry is read when it has an identifier and a title.
pub open spec fn playlist_kept(f: YouTubePlaylistFields) -> bool {
    f.id is Some && f.title is Some
}

/// `p` is the playlist the entry `f` reads as; the item count is cut to
/// 32 bits.
pub open spec fn playlist_from(f: YouTubePlaylistFields, p: YouTubePlaylist) -> bool {
    &&& f.id == Some(p.id)
    &&& f.title == Some(p.title)
    &&& p.description == f.description
    &&& p.thumbnail_url == f.thumbnail_url
    &&& p.channel_title == f.channel_title
    &&& p.item_count == match f.item_count {
        Some(n) => Some(n as u32),
        None => None,
    }
    &&& p.privacy_status == f.privacy_status
}

/// The playlist entries that are read, in order.
pub open spec fn kept_playlists(items: Seq<YouTubePlaylistFields>) -> Seq<YouTubePlaylistFields>
    decreases items.len(),
{
    if items.len() == 0 {
        Seq::empty()
    } else if playlist_kept(items.last()) {
        kept_playlists(items.drop_last()).push(items.last())
    } else {
        kept_playlists(items.drop_last())
    }
}

/// A subscription entry is read when it has a channel identifier and a
/// title.
pub open spec fn channel_kept(f: YouTubeChannelFields) -> bool {
    f.channel_id is Some && f.title is Some
}

/// `c` is the channel the entry `f` reads as, with no counts.
pub open spec fn channel_from(f: YouTubeChannelFields, c: YouTubeChannel) -> bool {
    &&& f.channel_id == Some(c.id)
    &&& f.title == Some(c.title)
    &&& c.description == f.description
    &&& c.thumbnail_url == f.thumbnail_url
    &&& c.subscriber_count is None
    &&& c.video_count is None
}

/// The subscription entries that are read, in order.
pub open spec fn kept_channels(items: Seq<YouTubeChannelFields>) -> Seq<YouTubeChannelFields>
    decreases items.len(),
{
    if items.len() == 0 {
        Seq::empty()
    } else if channel_kept(items.last()) {
        kept_channels(items.drop_last()).push(items.last())
    } else {
        kept_channels(items.drop_last())
    }
}

/// The video an entry reads as, where it has an identifier and a title.
fn video_from_fields(f: &YouTubeItemFields) -> (r: Option<YouTubeVideo>)
    ensures
        match r {
            Some(v) => video_from(*f, v),
            None => !video_kept(*f),
        },
{
    let id = match &f.video_id {
        Some(x) => x.clone(),
        None => {
            return None;
        },
    };
    let title = match &f.title {
        Some(x) => x.clone(),
        None => {
            return None;
        },
    };
    Some(
        YouTubeVideo {
            id,
            title,
            description: copy_opt_string(&f.description),
            thumbnail_url: copy_opt_string(&f.thumbnail_url),
            channel_title: copy_opt_string(&f.channel_title),
            channel_id: copy_opt_string(&f.channel_id),
            published_at: copy_opt_string(&f.published_at),
            duration: None,
            duration_seconds: None,
            view_count: None,
            like_count: None,
        },
    )
}

/// The videos of a search or playlist response: each entry with a video
/// identifier and a title, in order.
pub fn youtube_videos_from_items(items: &Vec<YouTubeItemFields>) -> (r: Vec<YouTubeVideo>)
    ensures
        r@.len() == kept_videos(items@).len(),
        forall|i: int| 0 <= i < r@.len() ==> video_from(#[trigger] kept_videos(items@)[i], r@[i]),
{
    let mut out: Vec<YouTubeVideo> = Vec::new();
    let mut i: usize = 0;
    assert(items@.take(0) =~= Seq::<YouTubeItemFields>::empty());
    while i < items.len()
        invariant
            i <= items.len(),
            out@.len() == kept_videos(items@.take(i as int)).len(),
            forall|j: int|
                0 <= j < out@.len() ==> video_from(#[trigger] kept_videos(items@.take(i as int))[j], out@[j]),
        decreases items.len() - i,
    {
        assert(items@.take(i + 1).drop_last() =~= items@.take(i as int));
        assert(items@.take(i + 1).last() == items@[i as int]);
        match video_from_fields(&items[i]) {
            Some(v) => {
                out.push(v);
            },
            None => {},
        }
        i = i + 1;
    }
    assert(items@.take(items@.len() as int) =~= items@);
    out
}

/// The playlist an entry reads as, where it has an identifier and a title.
fn playlist_from_fields(f: &YouTubePlaylistFields) -> (r: Option<YouTubePlaylist>)
    ensures
        match r {
            Some(p) => playlist_from(*f, p),
            None => !playlist_kept(*f),
        },
{
    let id = match &f.id {
        Some(x) => x.clone(),
        None => {
            return None;
        },
    };
    let title = match &f.title {
        Some(x) => x.clone(),
        None => {
            return None;
        },
    };
    let item_count: Option<u32> = match f.item_count {
        Some(n) => Some(n as u32),
        None => None,
    };
    Some(
        YouTubePlaylist {
            id,
            title,
            description: copy_opt_string(&f.description),
            thumbnail_url: copy_opt_string(&f.thumbnail_url),
            channel_title: copy_opt_string(&f.channel_title),
            item_count,
            privacy_status: copy_opt_string(&f.privacy_status),
        },
    )
}

/// The playlists of a response: each entry with an identifier and a
/// title, in order.
pub fn youtube_playlists_from_items(items: &Vec<YouTubePlaylistFields>) -> (r: Vec<YouTubePlaylist>)
    ensures
        r@.len() == kept_playlists(items@).len(),
        forall|i: int| 0 <= i < r@.len() ==> playlist_from(#[trigger] kept_playlists(items@)[i], r@[i]),
{
    let mut out: Vec<YouTubePlaylist> = Vec::new();
    let mut i: usize = 0;
    assert(items@.take(0) =~= Seq::<YouTubePlaylistFields>::empty());
    while i < items.len()
        invariant
            i <= items.len(),
            out@.len() == kept_playlists(items@.take(i as int)).len(),
            forall|j: int|
                0 <= j < out@.len() ==> playlist_from(#[trigger] kept_playlists(items@.take(i as int))[j], out@[j]),
        decreases items.len() - i,
    {
        assert(items@.take(i + 1).drop_last() =~= items@.take(i as int));
        assert(items@.take(i + 1).last() == items@[i as int]);
        match playlist_from_fields(&items[i]) {
            Some(p) => {
                out.push(p);
            },
            None => {},
        }
        i = i + 1;
    }
    assert(items@.take(items@.len() as int) =~= items@);
    out
}

/// The channel a subscription entry reads as, where it has a channel
/// identifier and a title.
fn channel_from_fields(f: &YouTubeChannelFields) -> (r: Option<YouTubeChannel>)
    ensures
        match r {
            Some(c) => channel_from(*f, c),
            None => !channel_kept(*f),
        },
{
    let id = match &f.channel_id {
        Some(x) => x.clone(),
        None => {
            return None;
        },
    };
    let title = match &f.title {
        Some(x) => x.clone(),
        None => {
            return None;
        },
    };
    Some(
        YouTubeChannel {
            id,
            title,
            description: copy_opt_string(&f.description),
            thumbnail_url: copy_opt_string(&f.thumbnail_url),
            subscriber_count: None,
            video_count: None,
        },
    )
}

/// The channels of a subscriptions response: each entry with a channel
/// identifier and a title, in order.
pub fn youtube_channels_from_items(items: &Vec<YouTubeChannelFields>) -> (r: Vec<YouTubeChannel>)
    ensures
        r@.len() == kept_channels(items@).len(),
        forall|i: int| 0 <= i < r@.len() ==> channel_from(#[trigger] kept_channels(items@)[i], r@[i]),
{
    let mut out: Vec<YouTubeChannel> = Vec::new();
    let mut i: usize = 0;
    assert(items@.take(0) =~= Seq::<YouTubeChannelFields>::empty());
    while i < items.len()
        invariant
            i <= items.len(),
            out@.len() == kept_channels(items@.take(i as int)).len(),
            forall|j: int|
                0 <= j < out@.len() ==> channel_from(#[trigger] kept_channels(items@.take(i as int))[j], out@[j]),
        decreases items.len() - i,
    {
        assert(items@.take(i + 1).drop_last() =~= items@.take(i as int));
        assert(items@.take(i + 1).last() == items@[i as int]);
        match channel_from_fields(&items[i]) {
            Some(c) => {
                out.push(c);
            },
            None => {},
        }
        i = i + 1;
    }
    assert(items@.take(items@.len() as int) =~= items@);
    out
}

/// A run of digits as `str::parse::<u32>` reads it; 0 when it cannot be
/// read (empty, or too large).
pub open spec fn number_or_zero(digits: Seq<char>) -> int {
    match parse_u32_spec(digits) {
        Some(v) => v as int,
        None => 0,
    }
}

/// What has been read of an ISO 8601 duration after some characters: the
/// seconds counted so far and the digits not yet given a unit. Digits
/// gather; `H`, `M` and `S` add the gathered number as hours, minutes or
/// seconds; every other character is skipped.
pub open spec fn duration_state(s: Seq<char>) -> (int, Seq<char>)
    decreases s.len(),
{
    if s.len() == 0 {
        (0, Seq::empty())
    } else {
        let prev = duration_state(s.drop_last());
        let c = s.last();
        if is_digit(c) {
            (prev.0, prev.1.push(c))
        } else if c == 'H' {
            (prev.0 + number_or_zero(prev.1) * 3600, Seq::empty())
        } else if c == 'M' {
            (prev.0 + number_or_zero(prev.1) * 60, Seq::empty())
        } else if c == 'S' {
            (prev.0 + number_or_zero(prev.1), Seq::empty())
        } else {
            prev
        }
    }
}

/// Total seconds of an ISO 8601 duration such as `PT1H2M3S`.
pub open spec fn duration_seconds(s: Seq<char>) -> int {
    duration_state(s).0
}

/// The seconds counted never decrease as more characters are read.
proof fn lemma_duration_monotone(s: Seq<char>, i: int)
    requires
        0 <= i <= s.len(),
    ensures
        duration_seconds(s.take(i)) <= duration_seconds(s),
        duration_seconds(s.take(i)) >= 0,
    decreases s.len() - i,
{
    if i < s.len() {
        lemma_duration_monotone(s, i + 1);
        assert(s.take(i + 1).drop_last() =~= s.take(i));
        lemma_duration_nonneg(s.take(i));
    } else {
        assert(s.take(i) =~= s);
        lemma_duration_nonneg(s);
    }
}

/// The seconds counted are never negative.
proof fn lemma_duration_nonneg(s: Seq<char>)
    ensures
        duration_seconds(s) >= 0,
    decreases s.len(),
{
    if s.len() > 0 {
        lemma_duration_nonneg(s.drop_last());
    }
}

/// Reads an ISO 8601 duration such as `PT1H2M3S` as a number of seconds;
/// `None` when it comes to zero seconds.
pub fn parse_youtube_duration(duration: &str) -> (r: Option<u32>)
    requires
        duration_seconds(duration@) <= u32::MAX,
    ensures
        r == (if duration_seconds(duration@) > 0 {
            Some(duration_seconds(duration@) as u32)
        } else {
            None::<u32>
        }),
{
    let chars = str_chars(duration);
    let ghost s = chars@;
    let mut total: u32 = 0;
    let mut current: Vec<char> = Vec::new();
    let mut i: usize = 0;
    while i < chars.len()
        invariant
            s == chars@,
            s == duration@,
            i <= s.len(),
            duration_seconds(s) <= u32::MAX,
            (total as int, current@) == duration_state(s.take(i as int)),
        decreases s.len() - i,
    {
        let c = chars[i];
        proof {
            assert(s.take(i + 1).drop_last() =~= s.take(i as int));
            assert(s.take(i + 1).last() == c);
            lemma_duration_monotone(s, i + 1);
            lemma_duration_nonneg(s.take(i as int));
        }
        if '0' <= c && c <= '9' {
            current.push(c);
        } else if c == 'H' || c == 'M' || c == 'S' {
            let unit: u32 = if c == 'H' { 3600 } else if c == 'M' { 60 } else { 1 };
            match parse_u32(current.as_slice()) {
                Some(v) => {
                    assert(v * unit <= u32::MAX) by (nonlinear_arith)
                        requires
                            total + v * unit <= u32::MAX,
                            total >= 0,
                    ;
                    total = total + v * unit;
                },
                None => {},
            }
            current = Vec::new();
        }
        i = i + 1;
    }
    proof {
        assert(s.take(s.len() as int) =~= s);
    }
    if total > 0 {
        Some(total)
    } else {
        None
    }
}

} // verus!
