//! Core media types of the player: formats recognised by file extension,
//! metadata, playback states, the player's settings sections, UI state,
//! errors, and the playlist with its history.

use vstd::prelude::*;

use crate::text::{owned, string_equals_str, strings_equal};

verus! {

/// What `str::to_lowercase` makes of a text.
pub uninterp spec fn lowercased(text: Seq<char>) -> Seq<char>;

/// Lowercases a text with `str::to_lowercase`. The contract only names the
/// outcome: Unicode's lowercase mapping is not restated here.
#[verifier::external_body]
pub(crate) fn lowercase(text: &str) -> (r: String)
    ensures
        r@ == lowercased(text@),
{
    text.to_lowercase()
}

/// Media formats the player knows.
#[derive(Debug, Clone, Copy, PartialEq, Eq, Structural)]
pub enum MediaFormat {
    Mp4,
    Mkv,
    WebM,
    Avi,
    Mov,
    Mp3,
    Flac,
    Wav,
    Ogg,
    Aac,
    Hls,
    Dash,
    Rtsp,
    Unknown,
}

/// The format a lowercase file extension stands for.
pub open spec fn format_for(ext: Seq<char>) -> MediaFormat {
    if ext == "mp4"@ || ext == "m4v"@ {
        MediaFormat::Mp4
    } else if ext == "mkv"@ {
        MediaFormat::Mkv
    } else if ext == "webm"@ {
        MediaFormat::WebM
    } else if ext == "avi"@ {
        MediaFormat::Avi
    } else if ext == "mov"@ || ext == "qt"@ {
        MediaFormat::Mov
    } else if ext == "mp3"@ {
        MediaFormat::Mp3
    } else if ext == "flac"@ {
        MediaFormat::Flac
    } else if ext == "wav"@ || ext == "wave"@ {
        MediaFormat::Wav
    } else if ext == "ogg"@ || ext == "oga"@ {
        MediaFormat::Ogg
    } else if ext == "aac"@ || ext == "m4a"@ {
        MediaFormat::Aac
    } else if ext == "m3u8"@ {
        MediaFormat::Hls
    } else if ext == "mpd"@ {
        MediaFormat::Dash
    } else if ext == "rtsp"@ || ext == "rts"@ {
        MediaFormat::Rtsp
    } else {
        MediaFormat::Unknown
    }
}

/// Whether a format is a video format.
pub open spec fn is_video_format(f: MediaFormat) -> bool {
    f == MediaFormat::Mp4 || f == MediaFormat::Mkv || f == MediaFormat::WebM || f == MediaFormat::Avi
        || f == MediaFormat::Mov
}

/// Whether a format is an audio format.
pub open spec fn is_audio_format(f: MediaFormat) -> bool {
    f == MediaFormat::Mp3 || f == MediaFormat::Flac || f == MediaFormat::Wav || f == MediaFormat::Ogg
        || f == MediaFormat::Aac
}

/// Whether a format is a streaming format.
pub open spec fn is_streaming_format(f: MediaFormat) -> bool {
    f == MediaFormat::Hls || f == MediaFormat::Dash || f == MediaFormat::Rtsp
}

impl MediaFormat {
    /// The format a lowercase file extension stands for.
    pub fn from_lowercase_extension(ext: &str) -> (f: MediaFormat)
        ensures
            f == format_for(ext@),
    {
        if string_equals_str(&owned(ext), "mp4") || string_equals_str(&owned(ext), "m4v") {
            MediaFormat::Mp4
        } else if string_equals_str(&owned(ext), "mkv") {
            MediaFormat::Mkv
        } else if string_equals_str(&owned(ext), "webm") {
            MediaFormat::WebM
        } else if string_equals_str(&owned(ext), "avi") {
            MediaFormat::Avi
        } else if string_equals_str(&owned(ext), "mov") || string_equals_str(&owned(ext), "qt") {
            MediaFormat::Mov
        } else if string_equals_str(&owned(ext), "mp3") {
            MediaFormat::Mp3
        } else if string_equals_str(&owned(ext), "flac") {
            MediaFormat::Flac
        } else if string_equals_str(&owned(ext), "wav") || string_equals_str(&owned(ext), "wave") {
            MediaFormat::Wav
        } else if string_equals_str(&owned(ext), "ogg") || string_equals_str(&owned(ext), "oga") {
            MediaFormat::Ogg
        } else if string_equals_str(&owned(ext), "aac") || string_equals_str(&owned(ext), "m4a") {
            MediaFormat::Aac
        } else if string_equals_str(&owned(ext), "m3u8") {
            MediaFormat::Hls
        } else if string_equals_str(&owned(ext), "mpd") {
            MediaFormat::Dash
        } else if string_equals_str(&owned(ext), "rtsp") || string_equals_str(&owned(ext), "rts") {
            MediaFormat::Rtsp
        } else {
            MediaFormat::Unknown
        }
    }

    /// The format a file extension stands for, in any case.
    pub fn from_extension(ext: &str) -> (f: MediaFormat)
        ensures
            f == format_for(lowercased(ext@)),
    {
        let lower = lowercase(ext);
        MediaFormat::from_lowercase_extension(lower.as_str())
    }

    /// Whether this is a video format.
    pub fn is_video(&self) -> (r: bool)
        ensures
            r == is_video_format(*self),
    {
        matches!(self, MediaFormat::Mp4 | MediaFormat::Mkv | MediaFormat::WebM | MediaFormat::Avi | MediaFormat::Mov)
    }

    /// Whether this is an audio format.
    pub fn is_audio(&self) -> (r: bool)
        ensures
            r == is_audio_format(*self),
    {
        matches!(self, MediaFormat::Mp3 | MediaFormat::Flac | MediaFormat::Wav | MediaFormat::Ogg | MediaFormat::Aac)
    }

    /// Whether this is a streaming format.
    pub fn is_streaming(&self) -> (r: bool)
        ensures
            r == is_streaming_format(*self),
    {
        matches!(self, MediaFormat::Hls | MediaFormat::Dash | MediaFormat::Rtsp)
    }
}

/// A format is at most one of video, audio and streaming.
pub proof fn law_format_kinds_exclusive(f: MediaFormat)
    ensures
        !(is_video_format(f) && is_audio_format(f)),
        !(is_video_format(f) && is_streaming_format(f)),
        !(is_audio_format(f) && is_streaming_format(f)),
        f == MediaFormat::Unknown ==> !is_video_format(f) && !is_audio_format(f) && !is_streaming_format(f),
{
}

/// Tags of a media file.
#[derive(Debug, Clone)]
pub struct MediaMetadata {
    pub artist: Option<String>,
    pub album: Option<String>,
    pub year: Option<u32>,
    pub track: Option<u32>,
    pub genre: Option<String>,
    pub comment: Option<String>,
    pub cover_art: Option<Vec<u8>>,
}

impl Default for MediaMetadata {
    fn default() -> (m: MediaMetadata)
        ensures
            m.artist is None && m.album is None && m.year is None && m.track is None,
            m.genre is None && m.comment is None && m.cover_art is None,
    {
        MediaMetadata { artist: None, album: None, year: None, track: None, genre: None, comment: None, cover_art: None }
    }
}

/// What the player is doing.
#[derive(Debug, Clone, Copy, PartialEq, Eq, Structural)]
pub enum PlaybackState {
    Stopped,
    Playing,
    Paused,
    Buffering,
    Error,
}

impl Default for PlaybackState {
    fn default() -> (s: PlaybackState)
        ensures
            s == PlaybackState::Stopped,
    {
        PlaybackState::Stopped
    }
}

/// General settings.
#[derive(Debug, Clone)]
pub struct GeneralConfig {
    pub language: String,
    pub theme: String,
    pub check_updates: bool,
    pub send_analytics: bool,
    pub start_minimized: bool,
}

impl Default for GeneralConfig {
    fn default() -> (c: GeneralConfig)
        ensures
            c.language@ == "en"@,
            c.theme@ == "dark"@,
            c.check_updates,
            !c.send_analytics,
            !c.start_minimized,
    {
        GeneralConfig {
            language: owned("en"),
            theme: owned("dark"),
            check_updates: true,
            send_analytics: false,
            start_minimized: false,
        }
    }
}

/// How playback repeats.
#[derive(Debug, Clone, Copy, PartialEq, Eq, Structural)]
pub enum LoopMode {
    /// No repeat.
    NoLoop,
    Single,
    All,
}

/// How the picture is cropped.
#[derive(Debug, Clone, Copy, PartialEq, Eq, Structural)]
pub enum CropMode {
    /// No cropping.
    NoCrop,
    Detect,
    Custom(u32, u32, u32, u32),
}

/// User interface settings.
#[derive(Debug, Clone, Copy, PartialEq, Eq, Structural)]
pub struct UiConfig {
    pub show_toolbar: bool,
    pub show_sidebar: bool,
    pub show_statusbar: bool,
    pub compact_mode: bool,
    pub notifications: bool,
}

impl Default for UiConfig {
    fn default() -> (c: UiConfig)
        ensures
            c == (UiConfig {
                show_toolbar: true,
                show_sidebar: true,
                show_statusbar: true,
                compact_mode: false,
                notifications: true,
            }),
    {
        UiConfig { show_toolbar: true, show_sidebar: true, show_statusbar: true, compact_mode: false, notifications: true }
    }
}

/// Network settings.
#[derive(Debug, Clone)]
pub struct NetworkConfig {
    pub proxy: Option<String>,
    pub cache_size_mb: u32,
    pub buffer_seconds: u32,
    pub user_agent: Option<String>,
}

impl Default for NetworkConfig {
    fn default() -> (c: NetworkConfig)
        ensures
            c.proxy is None,
            c.cache_size_mb == 500,
            c.buffer_seconds == 10,
            c.user_agent is None,
    {
        NetworkConfig { proxy: None, cache_size_mb: 500, buffer_seconds: 10, user_agent: None }
    }
}

/// Which windows of the user interface are showing.
#[derive(Debug, Clone, Copy, PartialEq, Eq, Structural)]
pub struct UiState {
    pub fullscreen: bool,
    pub sidebar_visible: bool,
    pub settings_open: bool,
    pub about_open: bool,
}

impl Default for UiState {
    fn default() -> (s: UiState)
        ensures
            s == (UiState { fullscreen: false, sidebar_visible: false, settings_open: false, about_open: false }),
    {
        UiState { fullscreen: false, sidebar_visible: false, settings_open: false, about_open: false }
    }
}

/// Errors of the player's core.
#[derive(Debug, Clone, PartialEq, Eq)]
pub enum VantisError {
    /// An input/output failure, by its message.
    Io(String),
    Config(String),
    Media(String),
    Plugin(String),
    Network(String),
    Playback(String),
    Decode(String),
    Encode(String),
    State(String),
    Unknown(String),
}

/// How many media items the history remembers.
pub const MAX_HISTORY: usize = 100;

/// The playlist: media items by their identifiers, which one is current,
/// and the most recently added items, newest first.
pub struct PlaylistState {
    items: Vec<String>,
    current_index: Option<usize>,
    history: Vec<String>,
}

impl PlaylistState {
    /// The items, by identifier.
    pub closed spec fn item_ids(&self) -> Seq<Seq<char>> {
        self.items@.map_values(|s: String| s@)
    }

    /// Position of the current item, if any.
    pub closed spec fn current_position(&self) -> Option<usize> {
        self.current_index
    }

    /// Identifiers of recently added items, newest first.
    pub closed spec fn recent(&self) -> Seq<Seq<char>> {
        self.history@.map_values(|s: String| s@)
    }

    /// Internal consistency: the current position is within the items, there
    /// is a current item whenever there are items, and the history is bounded.
    pub closed spec fn wf(&self) -> bool {
        &&& match self.current_index {
            Some(i) => i < self.items@.len(),
            None => self.items@.len() == 0,
        }
        &&& self.history@.len() <= MAX_HISTORY
    }

    /// An empty playlist.
    pub fn new() -> (p: PlaylistState)
        ensures
            p.wf(),
            p.item_ids().len() == 0,
            p.current_position() is None,
            p.recent().len() == 0,
    {
        let p = PlaylistState { items: Vec::new(), current_index: None, history: Vec::new() };
        assert(p.item_ids() =~= Seq::<Seq<char>>::empty());
        assert(p.recent() =~= Seq::<Seq<char>>::empty());
        p
    }

    /// The identifier of the current item, if any.
    pub fn current(&self) -> (r: Option<&String>)
        requires
            self.wf(),
        ensures
            match self.current_position() {
                Some(i) => r matches Some(s) && s@ == self.item_ids()[i as int],
                None => r is None,
            },
    {
        match self.current_index {
            Some(i) => Some(&self.items[i]),
            None => None,
        }
    }

    /// Moves to the next item and returns it; at the last item (or with no
    /// items) nothing moves and `None` comes back.
    pub fn next(&mut self) -> (r: Option<&String>)
        requires
            old(self).wf(),
        ensures
            final(self).wf(),
            final(self).item_ids() == old(self).item_ids(),
            final(self).recent() == old(self).recent(),
            match old(self).current_position() {
                Some(i) => if i + 1 < old(self).item_ids().len() {
                    final(self).current_position() == Some((i + 1) as usize)
                        && (r matches Some(s) && s@ == old(self).item_ids()[i + 1])
                } else {
                    final(self).current_position() == old(self).current_position() && r is None
                },
                None => final(self).current_position() is None && r is None,
            },
    {
        match self.current_index {
            Some(i) => {
                let n = self.items.len();
                if i + 1 < n {
                    self.current_index = Some(i + 1);
                    Some(&self.items[i + 1])
                } else {
                    None
                }
            },
            None => None,
        }
    }

    /// Moves to the previous item and returns it; at the first item (or with
    /// no items) nothing moves and `None` comes back.
    pub fn previous(&mut self) -> (r: Option<&String>)
        requires
            old(self).wf(),
        ensures
            final(self).wf(),
            final(self).item_ids() == old(self).item_ids(),
            final(self).recent() == old(self).recent(),
            match old(self).current_position() {
                Some(i) => if i > 0 {
                    final(self).current_position() == Some((i - 1) as usize)
                        && (r matches Some(s) && s@ == old(self).item_ids()[i - 1])
                } else {
                    final(self).current_position() == old(self).current_position() && r is None
                },
                None => final(self).current_position() is None && r is None,
            },
    {
        match self.current_index {
            Some(i) => {
                if i > 0 {
                    self.current_index = Some(i - 1);
                    Some(&self.items[i - 1])
                } else {
                    None
                }
            },
            None => None,
        }
    }

    /// Adds an item at the end; it becomes current when there was none, and
    /// it is remembered first in the history, which forgets its oldest entry
    /// beyond the limit.
    pub fn add(&mut self, id: String)
        requires
            old(self).wf(),
        ensures
            final(self).wf(),
            final(self).item_ids() == old(self).item_ids().push(id@),
            final(self).current_position() == match old(self).current_position() {
                Some(i) => Some(i),
                None => Some(0usize),
            },
            final(self).recent() == if old(self).recent().len() < MAX_HISTORY {
                seq![id@] + old(self).recent()
            } else {
                (seq![id@] + old(self).recent()).drop_last()
            },
    {
        let copy = id.clone();
        let ghost items0 = self.items@;
        let ghost hist0 = self.history@;
        self.items.push(id);
        if self.current_index.is_none() {
            self.current_index = Some(0);
        }
        self.history.insert(0, copy);
        if self.history.len() > MAX_HISTORY {
            self.history.pop();
        }
        proof {
            assert(self.items@.map_values(|s: String| s@) =~= items0.map_values(|s: String| s@).push(id@));
            let h = hist0.map_values(|s: String| s@);
            if hist0.len() < MAX_HISTORY {
                assert(self.history@.map_values(|s: String| s@) =~= seq![id@] + h);
            } else {
                assert(self.history@.map_values(|s: String| s@) =~= (seq![id@] + h).drop_last());
            }
        }
    }

    /// Removes every item and history entry with the given identifier; the
    /// current position moves to the last item when it falls off the end.
    pub fn remove(&mut self, id: &str)
        requires
            old(self).wf(),
        ensures
            final(self).wf(),
            final(self).item_ids() == old(self).item_ids().filter(|s: Seq<char>| s != id@),
            final(self).recent() == old(self).recent().filter(|s: Seq<char>| s != id@),
            final(self).current_position() == match old(self).current_position() {
                Some(i) => if i < final(self).item_ids().len() {
                    Some(i)
                } else if final(self).item_ids().len() == 0 {
                    None
                } else {
                    Some((final(self).item_ids().len() - 1) as usize)
                },
                None => None::<usize>,
            },
    {
        let items = keep_other(&self.items, id);
        let history = keep_other(&self.history, id);
        proof {
            let h0 = self.history@.map_values(|s: String| s@);
            h0.lemma_filter_len(|s: Seq<char>| s != id@);
        }
        self.items = items;
        self.history = history;
        match self.current_index {
            Some(i) => {
                if i >= self.items.len() {
                    if self.items.len() == 0 {
                        self.current_index = None;
                    } else {
                        self.current_index = Some(self.items.len() - 1);
                    }
                }
            },
            None => {
                proof {
                    let i0 = old(self).items@.map_values(|s: String| s@);
                    i0.lemma_filter_len(|s: Seq<char>| s != id@);
                }
            },
        }
    }

    /// Empties the playlist; the history stays.
    pub fn clear(&mut self)
        requires
            old(self).wf(),
        ensures
            final(self).wf(),
            final(self).item_ids().len() == 0,
            final(self).current_position() is None,
            final(self).recent() == old(self).recent(),
    {
        self.items = Vec::new();
        self.current_index = None;
        assert(self.items@.map_values(|s: String| s@) =~= Seq::<Seq<char>>::empty());
    }
}

/// The identifiers of a list other than `id`, in order.
fn keep_other(v: &Vec<String>, id: &str) -> (r: Vec<String>)
    ensures
        r@.map_values(|s: String| s@) == v@.map_values(|s: String| s@).filter(|s: Seq<char>| s != id@),
{
    let ghost pred = |s: Seq<char>| s != id@;
    let ghost t = v@.map_values(|s: String| s@);
    let mut r: Vec<String> = Vec::new();
    let mut i: usize = 0;
    while i < v.len()
        invariant
            i <= v@.len(),
            t == v@.map_values(|s: String| s@),
            pred == (|s: Seq<char>| s != id@),
            r@.map_values(|s: String| s@) == t.take(i as int).filter(pred),
        decreases v@.len() - i,
    {
        proof {
            assert(t.take(i + 1).drop_last() =~= t.take(i as int));
            reveal(Seq::filter);
        }
        if !string_equals_str(&v[i], id) {
            let ghost before = r@;
            r.push(v[i].clone());
            assert(r@.map_values(|s: String| s@) =~= before.map_values(|s: String| s@).push(t[i as int]));
        }
        i = i + 1;
    }
    assert(t.take(t.len() as int) =~= t);
    r
}

/// After any sequence of playlist operations the current item stays within
/// the playlist and the history within its limit: each operation keeps the
/// consistency that `new` establishes.
pub proof fn law_playlist_wf_preserved(p: PlaylistState)
    requires
        p.wf(),
    ensures
        match p.current_position() {
            Some(i) => i < p.item_ids().len(),
            None => p.item_ids().len() == 0,
        },
        p.recent().len() <= MAX_HISTORY,
{
}

} // verus!
