//! Recording sessions of the screen recorder and their life: created idle,
//! started, paused and resumed, stopped into an output file, or deleted.
//!
//! At most one session is the active one: the one last started, until it
//! is stopped. Times are seconds since the Unix epoch; the text stamps in
//! file names are written from a local date and time the caller reads.

use vstd::prelude::*;
use vstd::string::StrSliceExecFns;

use crate::plugin_error::{text2, text3};
use crate::screen_recording::ScreenRecordingError;
use crate::screen_types::{
    CaptureSource, OutputFormat, RecordingConfig, RecordingMetadata, RecordingStatus,
};
use crate::clock::utc_now_seconds;
use crate::plugin::{new_v4_value, uuid_hyphenated, uuid_text, v4_bits};
use crate::text::{decimal, owned, push_all, push_decimal, string_from_chars};
use crate::urls::u64_text;

verus! {

/// `n` in decimal, with leading zeros up to `width` characters.
pub open spec fn padded(n: nat, width: nat) -> Seq<char> {
    let d = decimal(n);
    if d.len() >= width {
        d
    } else {
        Seq::new((width - d.len()) as nat, |i: int| '0') + d
    }
}

/// The year as a stamp writes it: four digits up to 9999, and a `+` sign
/// before larger years.
pub open spec fn stamp_year(year: u32) -> Seq<char> {
    if year <= 9999 {
        padded(year as nat, 4)
    } else {
        seq!['+'] + decimal(year as nat)
    }
}

/// The `YYYYmmdd_HHMMSS` stamp of a local date and time, as file names
/// carry it: each part zero-padded to its width.
pub open spec fn stamp_spec(year: u32, month: u32, day: u32, hour: u32, minute: u32, second: u32) -> Seq<char> {
    stamp_year(year) + padded(month as nat, 2) + padded(day as nat, 2) + seq!['_'] + padded(hour as nat, 2)
        + padded(minute as nat, 2) + padded(second as nat, 2)
}

/// Appends `n` in decimal, zero-padded to `width` characters.
fn push_padded(out: &mut Vec<char>, n: u32, width: usize)
    ensures
        final(out)@ == old(out)@ + padded(n as nat, width as nat),
{
    let mut d: Vec<char> = Vec::new();
    push_decimal(&mut d, n);
    assert(d@ =~= decimal(n as nat));
    let ghost before = out@;
    if d.len() < width {
        let mut k: usize = 0;
        let pad = width - d.len();
        while k < pad
            invariant
                k <= pad,
                out@ == before + Seq::new(k as nat, |i: int| '0'),
            decreases pad - k,
        {
            out.push('0');
            k = k + 1;
            assert(out@ =~= before + Seq::new(k as nat, |i: int| '0'));
        }
    }
    push_all(out, d.as_slice());
    assert(out@ =~= before + padded(n as nat, width as nat));
}

/// The `YYYYmmdd_HHMMSS` stamp of a local date and time.
pub fn stamp_text(year: u32, month: u32, day: u32, hour: u32, minute: u32, second: u32) -> (s: String)
    ensures
        s@ == stamp_spec(year, month, day, hour, minute, second),
{
    let mut out: Vec<char> = Vec::new();
    if year <= 9999 {
        push_padded(&mut out, year, 4);
    } else {
        out.push('+');
        push_decimal(&mut out, year);
    }
    assert(out@ =~= stamp_year(year));
    push_padded(&mut out, month, 2);
    push_padded(&mut out, day, 2);
    out.push('_');
    push_padded(&mut out, hour, 2);
    push_padded(&mut out, minute, 2);
    push_padded(&mut out, second, 2);
    assert(out@ =~= stamp_spec(year, month, day, hour, minute, second));
    string_from_chars(out.as_slice())
}

/// Identifier of a recording session, by its 128-bit value.
#[derive(Debug, Clone, Copy, PartialEq, Eq, Hash, Structural)]
pub struct RecordingId(pub u128);

impl RecordingId {
    /// A fresh random identifier.
    pub fn new() -> (id: RecordingId)
        ensures
            v4_bits(id.0),
    {
        RecordingId(new_v4_value())
    }
}

impl Default for RecordingId {
    fn default() -> (id: RecordingId)
        ensures
            v4_bits(id.0),
    {
        RecordingId::new()
    }
}

/// The message that names an identifier: `RecordingId(` and its
/// hyphenated text.
pub open spec fn id_debug_text(id: RecordingId) -> Seq<char> {
    "RecordingId("@ + uuid_hyphenated(id.0) + ")"@
}

/// The error for a session that is not there.
pub open spec fn is_session_missing(e: ScreenRecordingError, id: RecordingId) -> bool {
    e matches ScreenRecordingError::RecordingNotFound(t) && t@ == id_debug_text(id)
}

/// The error for a session that is not there.
fn session_missing(id: RecordingId) -> (e: ScreenRecordingError)
    ensures
        is_session_missing(e, id),
{
    let t = uuid_text(id.0);
    ScreenRecordingError::RecordingNotFound(text3("RecordingId(", t.as_str(), ")"))
}

/// Counters of a recording.
#[derive(Debug, Clone, Copy, PartialEq, Eq, Structural)]
pub struct RecordingStats {
    pub frames_captured: u64,
    pub frames_dropped: u64,
    pub current_bitrate: u64,
    /// File size in bytes
    pub file_size: u64,
    pub disk_write_speed: u64,
    /// Memory usage in MB
    pub memory_usage: u64,
}

impl Default for RecordingStats {
    fn default() -> (s: RecordingStats)
        ensures
            s == (RecordingStats {
                frames_captured: 0,
                frames_dropped: 0,
                current_bitrate: 0,
                file_size: 0,
                disk_write_speed: 0,
                memory_usage: 0,
            }),
    {
        RecordingStats {
            frames_captured: 0,
            frames_dropped: 0,
            current_bitrate: 0,
            file_size: 0,
            disk_write_speed: 0,
            memory_usage: 0,
        }
    }
}

/// A recording session.
#[derive(Debug, Clone)]
pub struct RecordingSession {
    pub id: RecordingId,
    pub name: String,
    pub created_at: i64,
    pub started_at: Option<i64>,
    pub ended_at: Option<i64>,
    pub status: RecordingStatus,
    pub config: RecordingConfig,
    pub stats: RecordingStats,
    pub output_path: Option<String>,
    pub metadata: RecordingMetadata,
}

/// `s` is a session just created under `id` at `now`: idle, with no
/// counts, no output and no metadata.
pub open spec fn is_new_session(s: RecordingSession, id: RecordingId, name: Seq<char>, config: RecordingConfig, now: i64) -> bool {
    &&& s.id == id
    &&& s.name@ == name
    &&& s.created_at == now
    &&& s.started_at is None
    &&& s.ended_at is None
    &&& s.status == RecordingStatus::Idle
    &&& s.config == config
    &&& s.stats == RecordingStats::default_spec()
    &&& s.output_path is None
    &&& s.metadata.tags@.len() == 0 && s.metadata.description is None && s.metadata.custom@.len() == 0
}

impl RecordingStats {
    /// All counters at zero.
    pub open spec fn default_spec() -> RecordingStats {
        RecordingStats {
            frames_captured: 0,
            frames_dropped: 0,
            current_bitrate: 0,
            file_size: 0,
            disk_write_speed: 0,
            memory_usage: 0,
        }
    }
}

impl RecordingSession {
    /// A session created at `now` under `id`.
    pub fn new_at(name: &str, config: RecordingConfig, id: RecordingId, now: i64) -> (s: RecordingSession)
        ensures
            is_new_session(s, id, name@, config, now),
    {
        RecordingSession {
            id,
            name: owned(name),
            created_at: now,
            started_at: None,
            ended_at: None,
            status: RecordingStatus::Idle,
            config,
            stats: RecordingStats::default(),
            output_path: None,
            metadata: RecordingMetadata::default(),
        }
    }

    /// A session created now under a fresh random identifier.
    pub fn new(name: &str, config: RecordingConfig) -> (s: RecordingSession)
        ensures
            exists|id: RecordingId, now: i64| is_new_session(s, id, name@, config, now),
    {
        let id = RecordingId::new();
        let now = utc_now_seconds();
        RecordingSession::new_at(name, config, id, now)
    }

    /// How long the session has recorded, in seconds, at `now`: from its
    /// start to its end, or to `now` while it has not ended; `None` before
    /// it started.
    pub fn duration_at(&self, now: i64) -> (d: Option<i128>)
        ensures
            d == match (self.started_at, self.ended_at) {
                (Some(start), Some(end)) => Some((end - start) as i128),
                (Some(start), None) => Some((now - start) as i128),
                _ => None::<i128>,
            },
    {
        match (self.started_at, self.ended_at) {
            (Some(start), Some(end)) => Some(end as i128 - start as i128),
            (Some(start), None) => Some(now as i128 - start as i128),
            _ => None,
        }
    }
}

/// Why a capture source cannot be recorded, if it cannot: a screen or
/// webcam beyond the tenth, or a window without an identifier.
pub open spec fn source_problem(source: CaptureSource) -> Option<ScreenRecordingError> {
    match source {
        CaptureSource::Screen { screen_index } => if screen_index > 10 {
            Some(ScreenRecordingError::ScreenNotFound(arbitrary()))
        } else {
            None
        },
        CaptureSource::Window { window_id, .. } => if window_id == 0 {
            Some(ScreenRecordingError::WindowNotFound(arbitrary()))
        } else {
            None
        },
        CaptureSource::Webcam { device_index } => if device_index > 10 {
            Some(ScreenRecordingError::WebcamNotFound(arbitrary()))
        } else {
            None
        },
        _ => None,
    }
}

/// The error a source problem is reported with, message included.
pub open spec fn is_source_error(e: ScreenRecordingError, source: CaptureSource) -> bool {
    match source {
        CaptureSource::Screen { screen_index } => e matches ScreenRecordingError::ScreenNotFound(t) && t@ == "Screen "@
            + decimal(screen_index as nat),
        CaptureSource::Window { .. } => e matches ScreenRecordingError::WindowNotFound(t) && t@ == "Invalid window ID"@,
        CaptureSource::Webcam { device_index } => e matches ScreenRecordingError::WebcamNotFound(t) && t@ == "Device "@
            + decimal(device_index as nat),
        _ => false,
    }
}

/// Checks that a capture source can be recorded.
fn validate_source(source: &CaptureSource) -> (r: Result<(), ScreenRecordingError>)
    ensures
        match source_problem(*source) {
            None => r is Ok,
            Some(_) => r matches Err(e) && is_source_error(e, *source),
        },
{
    match source {
        CaptureSource::Screen { screen_index } => {
            if *screen_index > 10 {
                let n = u64_text(*screen_index as u64);
                return Err(ScreenRecordingError::ScreenNotFound(text2("Screen ", n.as_str())));
            }
        },
        CaptureSource::Window { window_id, .. } => {
            if *window_id == 0 {
                return Err(ScreenRecordingError::WindowNotFound(owned("Invalid window ID")));
            }
        },
        CaptureSource::Webcam { device_index } => {
            if *device_index > 10 {
                let n = u64_text(*device_index as u64);
                return Err(ScreenRecordingError::WebcamNotFound(text2("Device ", n.as_str())));
            }
        },
        _ => {},
    }
    Ok(())
}

/// The file extension of an output format.
pub open spec fn extension_of(f: OutputFormat) -> Seq<char> {
    match f {
        OutputFormat::Mp4 => "mp4"@,
        OutputFormat::Mkv => "mkv"@,
        OutputFormat::Mov => "mov"@,
        OutputFormat::Webm => "webm"@,
        OutputFormat::Gif => "gif"@,
    }
}

/// The file extension of an output format.
fn extension(f: OutputFormat) -> (e: &'static str)
    ensures
        e@ == extension_of(f),
{
    match f {
        OutputFormat::Mp4 => "mp4",
        OutputFormat::Mkv => "mkv",
        OutputFormat::Mov => "mov",
        OutputFormat::Webm => "webm",
        OutputFormat::Gif => "gif",
    }
}

/// Where a stopped session's recording is written: in its output
/// directory, its name, then the stamp where file names count, then the
/// format's extension.
pub open spec fn output_path_of(s: RecordingSession, stamp: Seq<char>) -> Seq<char> {
    let file = if s.config.output.naming.include_counter {
        s.name@ + "_"@ + stamp + "."@ + extension_of(s.config.output.format)
    } else {
        s.name@ + "."@ + extension_of(s.config.output.format)
    };
    s.config.output.path_pattern@ + "/"@ + file
}

/// Where a screenshot of a session is written.
pub open spec fn screenshot_path_of(s: RecordingSession, stamp: Seq<char>) -> Seq<char> {
    s.config.output.path_pattern@ + "/screenshot_"@ + stamp + ".png"@
}

/// The first session with this identifier.
pub open spec fn session_index(s: Seq<RecordingSession>, id: RecordingId) -> Option<int>
    decreases s.len(),
{
    if s.len() == 0 {
        None
    } else if s[0].id == id {
        Some(0)
    } else {
        match session_index(s.drop_first(), id) {
            Some(i) => Some(i + 1),
            None => None,
        }
    }
}

/// The first session with an identifier comes before any other with it.
pub proof fn lemma_session_index(s: Seq<RecordingSession>, id: RecordingId)
    ensures
        match session_index(s, id) {
            Some(i) => 0 <= i < s.len() && s[i].id == id && forall|j: int| 0 <= j < i ==> s[j].id != id,
            None => forall|j: int| 0 <= j < s.len() ==> s[j].id != id,
        },
    decreases s.len(),
{
    if s.len() > 0 && s[0].id != id {
        lemma_session_index(s.drop_first(), id);
        assert forall|j: int| 1 <= j < s.len() implies s[j] == s.drop_first()[j - 1] by {}
    }
}

/// A session with the identifier, none before it with it: it is the first.
pub proof fn lemma_session_index_at(s: Seq<RecordingSession>, id: RecordingId, i: int)
    requires
        0 <= i < s.len(),
        s[i].id == id,
        forall|j: int| 0 <= j < i ==> s[j].id != id,
    ensures
        session_index(s, id) == Some(i),
{
    lemma_session_index(s, id);
    match session_index(s, id) {
        Some(k) => {
            if k < i {
                assert(s[k].id != id);
            }
        },
        None => {
            assert(s[i].id != id);
        },
    }
}

/// The session found by an identifier.
pub open spec fn session_of(s: Seq<RecordingSession>, id: RecordingId) -> Option<RecordingSession> {
    match session_index(s, id) {
        Some(i) => Some(s[i]),
        None => None,
    }
}

/// The position of the session with this identifier.
fn find_session(v: &Vec<RecordingSession>, id: RecordingId) -> (r: Option<usize>)
    ensures
        match r {
            Some(i) => session_index(v@, id) == Some(i as int) && i < v@.len(),
            None => session_index(v@, id) is None,
        },
{
    let mut i: usize = 0;
    while i < v.len()
        invariant
            i <= v@.len(),
            forall|j: int| 0 <= j < i ==> v@[j].id != id,
        decreases v.len() - i,
    {
        if v[i].id == id {
            proof {
                lemma_session_index(v@, id);
                if session_index(v@, id) != Some(i as int) {
                    match session_index(v@, id) {
                        Some(k) => {
                            assert(k > i);
                        },
                        None => {},
                    }
                }
            }
            return Some(i);
        }
        i = i + 1;
    }
    proof {
        lemma_session_index(v@, id);
    }
    None
}

/// The sessions after the one with this identifier is replaced by `s`.
pub open spec fn with_session(v: Seq<RecordingSession>, id: RecordingId, s: RecordingSession) -> Seq<RecordingSession> {
    match session_index(v, id) {
        Some(i) => v.update(i, s),
        None => v.push(s),
    }
}

/// The recording service: the sessions, in the order created, and the
/// active one.
pub struct DefaultRecordingService {
    sessions: Vec<RecordingSession>,
    active_session: Option<RecordingId>,
}

impl DefaultRecordingService {
    /// The sessions, in the order created.
    pub closed spec fn session_list(&self) -> Seq<RecordingSession> {
        self.sessions@
    }

    /// The active session: the one last started, until it is stopped.
    pub closed spec fn active(&self) -> Option<RecordingId> {
        self.active_session
    }

    /// How start recording ends from this state to `after` with the result `r`.
    pub open spec fn started_outcome(&self, after: DefaultRecordingService, recording_id: RecordingId, now: i64, r: Result<(), ScreenRecordingError>) -> bool {
        match session_index(self.session_list(), recording_id) {
            None => (r matches Err(e) && is_session_missing(e, recording_id)) && after == *self,
            Some(i) => {
                let s = self.session_list()[i];
                if self.active() == Some(recording_id) && s.status == RecordingStatus::Recording {
                    r == Err::<(), ScreenRecordingError>(ScreenRecordingError::AlreadyRecording) && after
                        == *self
                } else if source_problem(s.config.video.source) is Some {
                    (r matches Err(e) && is_source_error(e, s.config.video.source)) && after == *self
                } else if s.config.output.path_pattern@.len() == 0 {
                    (r matches Err(e) && e matches ScreenRecordingError::OutputDirectoryNotFound(t) && t@
                        == "Path is empty"@) && after == *self
                } else {
                    &&& r is Ok
                    &&& after.session_list() == self.session_list().update(
                        i,
                        RecordingSession { status: RecordingStatus::Recording, started_at: Some(now), ..s },
                    )
                    &&& after.active() == Some(recording_id)
                }
            },
        }
    }

    /// How stop recording ends from this state to `after` with the result `r`.
    pub open spec fn stopped_outcome(&self, after: DefaultRecordingService, recording_id: RecordingId, now: i64, stamp: Seq<char>, r: Result<String, ScreenRecordingError>) -> bool {
        match session_index(self.session_list(), recording_id) {
            None => (r matches Err(e) && is_session_missing(e, recording_id)) && after == *self,
            Some(i) => {
                let s = self.session_list()[i];
                if s.status != RecordingStatus::Recording && s.status != RecordingStatus::Paused {
                    r == Err::<String, ScreenRecordingError>(ScreenRecordingError::NotRecording) && after
                        == *self
                } else {
                    &&& r matches Ok(p) && p@ == output_path_of(s, stamp)
                    &&& after.session_list()[i].output_path matches Some(q) && q@ == output_path_of(
                        s,
                        stamp,
                    )
                    &&& after.session_list() == self.session_list().update(
                        i,
                        RecordingSession {
                            status: RecordingStatus::Completed,
                            ended_at: Some(now),
                            output_path: after.session_list()[i].output_path,
                            ..s
                        },
                    )
                    &&& after.active() is None
                }
            },
        }
    }

    /// A service with no session.
    pub fn new() -> (s: DefaultRecordingService)
        ensures
            s.session_list().len() == 0,
            s.active() is None,
    {
        DefaultRecordingService { sessions: Vec::new(), active_session: None }
    }

    /// Replaces the session at `i` by `s`.
    fn put_session(&mut self, i: usize, s: RecordingSession)
        requires
            i < old(self).sessions@.len(),
        ensures
            final(self).sessions@ == old(self).sessions@.update(i as int, s),
            final(self).active_session == old(self).active_session,
    {
        let ghost before = self.sessions@;
        let _ = self.sessions.remove(i);
        self.sessions.insert(i, s);
        assert(self.sessions@ =~= before.update(i as int, s));
    }

    /// Creates an idle session at `now` under `id`, in place of one with the
    /// same identifier.
    pub fn create_session_at(&mut self, name: &str, config: RecordingConfig, id: RecordingId, now: i64) -> (r: RecordingId)
        ensures
            r == id,
            session_of(final(self).session_list(), id) matches Some(s) && is_new_session(s, id, name@, config, now),
            exists|s: RecordingSession| #[trigger] is_new_session(s, id, name@, config, now) && final(self).session_list() == with_session(
                old(self).session_list(),
                id,
                s,
            ),
            final(self).active() == old(self).active(),
    {
        let s = RecordingSession::new_at(name, config, id, now);
        let ghost sv = s;
        proof {
            lemma_session_index(old(self).sessions@, id);
        }
        match find_session(&self.sessions, id) {
            Some(i) => {
                self.put_session(i, s);
                proof {
                    lemma_session_index_at(self.sessions@, id, i as int);
                }
            },
            None => {
                self.sessions.push(s);
                proof {
                    lemma_session_index_at(self.sessions@, id, old(self).sessions@.len() as int);
                }
            },
        }
        assert(is_new_session(sv, id, name@, config, now));
        id
    }

    /// Creates an idle session now under a fresh random identifier.
    pub fn create_session(&mut self, name: &str, config: RecordingConfig) -> (r: RecordingId)
        ensures
            session_of(final(self).session_list(), r) matches Some(s) && s.name@ == name@ && s.status
                == RecordingStatus::Idle && s.config == config,
            final(self).active() == old(self).active(),
    {
        let id = RecordingId::new();
        let now = utc_now_seconds();
        self.create_session_at(name, config, id, now)
    }

    /// A session.
    pub fn get_session(&self, recording_id: RecordingId) -> (r: Result<&RecordingSession, ScreenRecordingError>)
        ensures
            match session_of(self.session_list(), recording_id) {
                Some(s) => r == Ok::<&RecordingSession, ScreenRecordingError>(&s),
                None => r matches Err(e) && is_session_missing(e, recording_id),
            },
    {
        match find_session(&self.sessions, recording_id) {
            Some(i) => Ok(&self.sessions[i]),
            None => Err(session_missing(recording_id)),
        }
    }

    /// Every session, in the order created.
    pub fn list_sessions(&self) -> (r: Result<Vec<&RecordingSession>, ScreenRecordingError>)
        ensures
            r matches Ok(v) && v@.map_values(|x: &RecordingSession| *x) == self.session_list(),
    {
        let mut out: Vec<&RecordingSession> = Vec::new();
        let mut i: usize = 0;
        while i < self.sessions.len()
            invariant
                i <= self.sessions@.len(),
                out@.map_values(|x: &RecordingSession| *x) == self.sessions@.take(i as int),
            decreases self.sessions.len() - i,
        {
            let ghost prev = out@.map_values(|x: &RecordingSession| *x);
            out.push(&self.sessions[i]);
            assert(out@.map_values(|x: &RecordingSession| *x) =~= prev.push(self.sessions@[i as int]));
            assert(self.sessions@.take(i + 1) =~= self.sessions@.take(i as int).push(self.sessions@[i as int]));
            i = i + 1;
        }
        assert(self.sessions@.take(i as int) =~= self.sessions@);
        Ok(out)
    }

    /// A session's counters.
    pub fn get_stats(&self, recording_id: RecordingId) -> (r: Result<RecordingStats, ScreenRecordingError>)
        ensures
            match session_of(self.session_list(), recording_id) {
                Some(s) => r == Ok::<RecordingStats, ScreenRecordingError>(s.stats),
                None => r matches Err(e) && is_session_missing(e, recording_id),
            },
    {
        match find_session(&self.sessions, recording_id) {
            Some(i) => Ok(self.sessions[i].stats),
            None => Err(session_missing(recording_id)),
        }
    }

    /// Deletes a session.
    pub fn delete_session(&mut self, recording_id: RecordingId) -> (r: Result<(), ScreenRecordingError>)
        ensures
            match session_index(old(self).session_list(), recording_id) {
                Some(i) => r is Ok && final(self).session_list() == old(self).session_list().remove(i),
                None => (r matches Err(e) && is_session_missing(e, recording_id)) && final(self).session_list() == old(
                    self,
                ).session_list(),
            },
            final(self).active() == old(self).active(),
    {
        match find_session(&self.sessions, recording_id) {
            Some(i) => {
                let _ = self.sessions.remove(i);
                Ok(())
            },
            None => Err(session_missing(recording_id)),
        }
    }

    /// Starts a session at `now`: it records from then on and becomes the
    /// active one. A session already recording as the active one, a source
    /// that cannot be recorded and an empty output directory are refused.
    pub fn start_recording_at(&mut self, recording_id: RecordingId, now: i64) -> (r: Result<(), ScreenRecordingError>)
        ensures
            old(self).started_outcome(*final(self), recording_id, now, r),
    {
        let i = match find_session(&self.sessions, recording_id) {
            Some(i) => i,
            None => {
                return Err(session_missing(recording_id));
            },
        };
        if let Some(active_id) = self.active_session {
            if active_id == recording_id && self.sessions[i].status == RecordingStatus::Recording {
                return Err(ScreenRecordingError::AlreadyRecording);
            }
        }
        match validate_source(&self.sessions[i].config.video.source) {
            Err(e) => {
                return Err(e);
            },
            Ok(()) => {},
        }
        if self.sessions[i].config.output.path_pattern.as_str().unicode_len() == 0 {
            return Err(ScreenRecordingError::OutputDirectoryNotFound(owned("Path is empty")));
        }
        let ghost before = self.sessions@;
        let mut s = self.sessions.remove(i);
        s.status = RecordingStatus::Recording;
        s.started_at = Some(now);
        self.sessions.insert(i, s);
        assert(self.sessions@ =~= before.update(i as int, s));
        self.active_session = Some(recording_id);
        Ok(())
    }

    /// Starts a session now (see `start_recording_at`).
    pub fn start_recording(&mut self, recording_id: RecordingId) -> (r: Result<(), ScreenRecordingError>)
        ensures
            exists|now: i64| #[trigger] old(self).started_outcome(*final(self), recording_id, now, r),
    {
        let now = utc_now_seconds();
        let r = self.start_recording_at(recording_id, now);
        assert(old(self).started_outcome(*self, recording_id, now, r));
        r
    }

    /// Stops a recording or paused session at `now`, with `stamp` as the
    /// local time text of its file name; it completes with its output path,
    /// which is returned, and no session stays active.
    pub fn stop_recording_at(&mut self, recording_id: RecordingId, now: i64, stamp: &str) -> (r: Result<
        String,
        ScreenRecordingError,
    >)
        ensures
            old(self).stopped_outcome(*final(self), recording_id, now, stamp@, r),
    {
        let i = match find_session(&self.sessions, recording_id) {
            Some(i) => i,
            None => {
                return Err(session_missing(recording_id));
            },
        };
        let status = self.sessions[i].status;
        if status != RecordingStatus::Recording && status != RecordingStatus::Paused {
            return Err(ScreenRecordingError::NotRecording);
        }
        let path = self.output_path(i, stamp);
        let ghost before = self.sessions@;
        let mut s = self.sessions.remove(i);
        s.status = RecordingStatus::Completed;
        s.ended_at = Some(now);
        s.output_path = Some(path.clone());
        self.sessions.insert(i, s);
        assert(self.sessions@ =~= before.update(i as int, s));
        self.active_session = None;
        Ok(path)
    }

    /// The output path of the session at `i`.
    fn output_path(&self, i: usize, stamp: &str) -> (p: String)
        requires
            i < self.sessions@.len(),
        ensures
            p@ == output_path_of(self.sessions@[i as int], stamp@),
    {
        let s = &self.sessions[i];
        let ext = extension(s.config.output.format);
        let file = if s.config.output.naming.include_counter {
            let a = text3(s.name.as_str(), "_", stamp);
            let b = text3(a.as_str(), ".", ext);
            b
        } else {
            text3(s.name.as_str(), ".", ext)
        };
        text3(s.config.output.path_pattern.as_str(), "/", file.as_str())
    }

    /// Pauses a recording session.
    pub fn pause_recording(&mut self, recording_id: RecordingId) -> (r: Result<(), ScreenRecordingError>)
        ensures
            match session_index(old(self).session_list(), recording_id) {
                None => (r matches Err(e) && is_session_missing(e, recording_id)) && *final(self) == *old(self),
                Some(i) => {
                    let s = old(self).session_list()[i];
                    if s.status != RecordingStatus::Recording {
                        r == Err::<(), ScreenRecordingError>(ScreenRecordingError::NotRecording) && *final(self)
                            == *old(self)
                    } else {
                        r is Ok && final(self).session_list() == old(self).session_list().update(
                            i,
                            RecordingSession { status: RecordingStatus::Paused, ..s },
                        ) && final(self).active() == old(self).active()
                    }
                },
            },
    {
        self.switch_status(recording_id, RecordingStatus::Recording, RecordingStatus::Paused)
    }

    /// Resumes a paused session.
    pub fn resume_recording(&mut self, recording_id: RecordingId) -> (r: Result<(), ScreenRecordingError>)
        ensures
            match session_index(old(self).session_list(), recording_id) {
                None => (r matches Err(e) && is_session_missing(e, recording_id)) && *final(self) == *old(self),
                Some(i) => {
                    let s = old(self).session_list()[i];
                    if s.status != RecordingStatus::Paused {
                        r == Err::<(), ScreenRecordingError>(ScreenRecordingError::NotRecording) && *final(self)
                            == *old(self)
                    } else {
                        r is Ok && final(self).session_list() == old(self).session_list().update(
                            i,
                            RecordingSession { status: RecordingStatus::Recording, ..s },
                        ) && final(self).active() == old(self).active()
                    }
                },
            },
    {
        self.switch_status(recording_id, RecordingStatus::Paused, RecordingStatus::Recording)
    }

    /// Moves a session from the status `from` to `to`.
    fn switch_status(&mut self, recording_id: RecordingId, from: RecordingStatus, to: RecordingStatus) -> (r: Result<
        (),
        ScreenRecordingError,
    >)
        ensures
            match session_index(old(self).session_list(), recording_id) {
                None => (r matches Err(e) && is_session_missing(e, recording_id)) && *final(self) == *old(self),
                Some(i) => {
                    let s = old(self).session_list()[i];
                    if s.status != from {
                        r == Err::<(), ScreenRecordingError>(ScreenRecordingError::NotRecording) && *final(self)
                            == *old(self)
                    } else {
                        r is Ok && final(self).session_list() == old(self).session_list().update(
                            i,
                            RecordingSession { status: to, ..s },
                        ) && final(self).active() == old(self).active()
                    }
                },
            },
    {
        let i = match find_session(&self.sessions, recording_id) {
            Some(i) => i,
            None => {
                return Err(session_missing(recording_id));
            },
        };
        if self.sessions[i].status != from {
            return Err(ScreenRecordingError::NotRecording);
        }
        let ghost before = self.sessions@;
        let mut s = self.sessions.remove(i);
        s.status = to;
        self.sessions.insert(i, s);
        assert(self.sessions@ =~= before.update(i as int, s));
        Ok(())
    }

    /// The path of a screenshot of a recording session, with `stamp` as the
    /// local time text of its file name.
    pub fn take_screenshot_at(&self, recording_id: RecordingId, stamp: &str) -> (r: Result<String, ScreenRecordingError>)
        ensures
            match session_of(self.session_list(), recording_id) {
                None => r matches Err(e) && is_session_missing(e, recording_id),
                Some(s) => if s.status != RecordingStatus::Recording {
                    r == Err::<String, ScreenRecordingError>(ScreenRecordingError::NotRecording)
                } else {
                    r matches Ok(p) && p@ == screenshot_path_of(s, stamp@)
                },
            },
    {
        let i = match find_session(&self.sessions, recording_id) {
            Some(i) => i,
            None => {
                return Err(session_missing(recording_id));
            },
        };
        let s = &self.sessions[i];
        if s.status != RecordingStatus::Recording {
            return Err(ScreenRecordingError::NotRecording);
        }
        let a = text3(s.config.output.path_pattern.as_str(), "/screenshot_", stamp);
        Ok(text2(a.as_str(), ".png"))
    }
}

impl Default for DefaultRecordingService {
    fn default() -> (s: DefaultRecordingService)
        ensures
            s.session_list().len() == 0,
            s.active() is None,
    {
        DefaultRecordingService::new()
    }
}

/// Pausing a recording session and resuming it gives back the sessions as
/// they were.
pub proof fn law_pause_then_resume_restores(v: Seq<RecordingSession>, i: int)
    requires
        0 <= i < v.len(),
        v[i].status == RecordingStatus::Recording,
    ensures
        ({
            let paused = v.update(i, RecordingSession { status: RecordingStatus::Paused, ..v[i] });
            paused.update(i, RecordingSession { status: RecordingStatus::Recording, ..paused[i] }) == v
        }),
{
    let paused = v.update(i, RecordingSession { status: RecordingStatus::Paused, ..v[i] });
    assert(paused.update(i, RecordingSession { status: RecordingStatus::Recording, ..paused[i] }) =~= v);
}

} // verus!
