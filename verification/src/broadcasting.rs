//! The broadcaster service: broadcaster profiles with their stream keys,
//! and the streams they create, start and end.
//!
//! Profiles and streams are kept in creation order and found by their
//! identifiers; a broadcaster's streams are its streams in that order.

use vstd::prelude::*;
use vstd::string::StringExecFns;

use crate::clock::utc_now_seconds;
use crate::live_streaming::{LiveStreamingError, ProfileUpdate, StreamInfoUpdate};
use crate::market::{first_index, keys_of, lemma_first_index, position, record_of, Keyed};
use crate::plugin::{random_uuid_simple, random_uuid_text, v4_hyphenated_shape};
use crate::stream_types::{
    AudioCodec, BroadcasterSettings, IngestionEndpoint, IngestionProtocol, LatencyMode, Resolution, StreamCategory,
    StreamStatus, StreamVisibility, VideoCodec,
};
use crate::text::{decimal, owned, strings_equal};
use crate::urls::u32_text;

verus! {

/// Identifier of a stream.
#[derive(Debug, Clone, PartialEq, Eq, Hash)]
pub struct StreamId(pub String);

impl StreamId {
    /// A fresh random identifier.
    pub fn new() -> (id: StreamId)
        ensures
            v4_hyphenated_shape(id.0@),
    {
        StreamId(random_uuid_text())
    }
}

/// Identifier of a broadcaster.
#[derive(Debug, Clone, PartialEq, Eq, Hash)]
pub struct BroadcasterId(pub String);

impl BroadcasterId {
    /// A fresh random identifier.
    pub fn new() -> (id: BroadcasterId)
        ensures
            v4_hyphenated_shape(id.0@),
    {
        BroadcasterId(random_uuid_text())
    }
}

/// Video settings of a stream.
#[derive(Debug, Clone, Copy, PartialEq, Eq, Structural)]
pub struct VideoConfig {
    pub resolution: Resolution,
    pub frame_rate: u32,
    pub bitrate_kbps: u32,
    pub codec: VideoCodec,
    pub keyframe_interval_seconds: u32,
}

impl Default for VideoConfig {
    fn default() -> (c: VideoConfig)
        ensures
            c == (VideoConfig {
                resolution: Resolution::FullHD,
                frame_rate: 60,
                bitrate_kbps: 6000,
                codec: VideoCodec::H264,
                keyframe_interval_seconds: 2,
            }),
    {
        VideoConfig {
            resolution: Resolution::FullHD,
            frame_rate: 60,
            bitrate_kbps: 6000,
            codec: VideoCodec::H264,
            keyframe_interval_seconds: 2,
        }
    }
}

/// Audio settings of a stream.
#[derive(Debug, Clone, Copy, PartialEq, Eq, Structural)]
pub struct AudioConfig {
    pub sample_rate: u32,
    pub channels: u32,
    pub bitrate_kbps: u32,
    pub codec: AudioCodec,
}

impl Default for AudioConfig {
    fn default() -> (c: AudioConfig)
        ensures
            c == (AudioConfig { sample_rate: 48000, channels: 2, bitrate_kbps: 192, codec: AudioCodec::AAC }),
    {
        AudioConfig { sample_rate: 48000, channels: 2, bitrate_kbps: 192, codec: AudioCodec::AAC }
    }
}

/// Settings of a stream.
#[derive(Debug, Clone, Copy, PartialEq, Eq, Structural)]
pub struct StreamConfig {
    pub video: VideoConfig,
    pub audio: AudioConfig,
    pub latency_mode: LatencyMode,
    pub dvr_enabled: bool,
    pub chat_enabled: bool,
    pub chat_delay_seconds: u32,
    pub max_duration_minutes: Option<u32>,
    pub allow_rewind: bool,
    pub record_vod: bool,
}

/// The default settings of a stream.
pub open spec fn default_stream_config() -> StreamConfig {
    StreamConfig {
        video: VideoConfig {
            resolution: Resolution::FullHD,
            frame_rate: 60,
            bitrate_kbps: 6000,
            codec: VideoCodec::H264,
            keyframe_interval_seconds: 2,
        },
        audio: AudioConfig { sample_rate: 48000, channels: 2, bitrate_kbps: 192, codec: AudioCodec::AAC },
        latency_mode: LatencyMode::LowLatency,
        dvr_enabled: true,
        chat_enabled: true,
        chat_delay_seconds: 0,
        max_duration_minutes: None,
        allow_rewind: true,
        record_vod: true,
    }
}

impl Default for StreamConfig {
    fn default() -> (c: StreamConfig)
        ensures
            c == default_stream_config(),
    {
        StreamConfig {
            video: VideoConfig::default(),
            audio: AudioConfig::default(),
            latency_mode: LatencyMode::LowLatency,
            dvr_enabled: true,
            chat_enabled: true,
            chat_delay_seconds: 0,
            max_duration_minutes: None,
            allow_rewind: true,
            record_vod: true,
        }
    }
}

/// A live stream.
#[derive(Debug, Clone)]
pub struct LiveStream {
    pub id: StreamId,
    pub broadcaster_id: BroadcasterId,
    pub title: String,
    pub description: Option<String>,
    pub category: StreamCategory,
    pub tags: Vec<String>,
    pub thumbnail_url: Option<String>,
    pub status: StreamStatus,
    pub visibility: StreamVisibility,
    /// Seconds since the Unix epoch
    pub created_at: i64,
    /// Seconds since the Unix epoch
    pub started_at: Option<i64>,
    /// Seconds since the Unix epoch
    pub ended_at: Option<i64>,
    pub viewer_count: u64,
    pub peak_viewer_count: u64,
    pub total_views: u64,
    pub duration_seconds: u64,
    pub language: String,
    pub is_mature: bool,
    pub config: StreamConfig,
}

/// `s` is a stream just created with the given identity, title and
/// category at the time `now`.
pub open spec fn fresh_stream(s: LiveStream, id: StreamId, broadcaster_id: BroadcasterId, title: Seq<char>, category: StreamCategory, now: i64) -> bool {
    &&& s.id == id
    &&& s.broadcaster_id == broadcaster_id
    &&& s.title@ == title
    &&& s.description is None
    &&& s.category == category
    &&& s.tags@.len() == 0
    &&& s.thumbnail_url is None
    &&& s.status == StreamStatus::Created
    &&& s.visibility == StreamVisibility::Public
    &&& s.created_at == now
    &&& s.started_at is None
    &&& s.ended_at is None
    &&& s.viewer_count == 0
    &&& s.peak_viewer_count == 0
    &&& s.total_views == 0
    &&& s.duration_seconds == 0
    &&& s.language@ == "en"@
    &&& !s.is_mature
    &&& s.config == default_stream_config()
}

impl LiveStream {
    /// A stream created at the time `now` with the given identifier.
    pub fn new_at(broadcaster_id: BroadcasterId, title: String, category: StreamCategory, id: StreamId, now: i64) -> (s: LiveStream)
        ensures
            fresh_stream(s, id, broadcaster_id, title@, category, now),
    {
        LiveStream {
            id,
            broadcaster_id,
            title,
            description: None,
            category,
            tags: Vec::new(),
            thumbnail_url: None,
            status: StreamStatus::Created,
            visibility: StreamVisibility::Public,
            created_at: now,
            started_at: None,
            ended_at: None,
            viewer_count: 0,
            peak_viewer_count: 0,
            total_views: 0,
            duration_seconds: 0,
            language: owned("en"),
            is_mature: false,
            config: StreamConfig::default(),
        }
    }

    /// A stream created now, with a fresh identifier.
    pub fn new(broadcaster_id: BroadcasterId, title: String, category: StreamCategory) -> (s: LiveStream)
        ensures
            exists|id: StreamId, now: i64| fresh_stream(s, id, broadcaster_id, title@, category, now),
    {
        let id = StreamId::new();
        let now = utc_now_seconds();
        LiveStream::new_at(broadcaster_id, title, category, id, now)
    }
}

/// A broadcaster's profile.
#[derive(Debug, Clone)]
pub struct BroadcasterProfile {
    pub id: BroadcasterId,
    pub username: String,
    pub display_name: String,
    pub avatar_url: Option<String>,
    pub bio: Option<String>,
    pub follower_count: u64,
    pub subscriber_count: u64,
    pub total_views: u64,
    pub is_partner: bool,
    pub is_verified: bool,
    /// Seconds since the Unix epoch
    pub created_at: i64,
    pub stream_key: Option<String>,
    pub ingestion_endpoint: Option<String>,
    pub settings: BroadcasterSettings,
}

impl Keyed for BroadcasterProfile {
    open spec fn key_view(&self) -> Seq<char> {
        self.id.0@
    }

    fn key(&self) -> (k: &String) {
        &self.id.0
    }
}

impl Keyed for LiveStream {
    open spec fn key_view(&self) -> Seq<char> {
        self.id.0@
    }

    fn key(&self) -> (k: &String) {
        &self.id.0
    }
}

/// A server that takes in streams.
#[derive(Debug, Clone)]
pub struct IngestionServer {
    pub server: String,
    pub rtmp_port: u16,
    pub region: String,
    /// Relative load; the least loaded server is preferred
    pub load: u32,
}

/// The URL of an ingestion server.
pub open spec fn server_url(s: IngestionServer) -> Seq<char> {
    "rtmp://"@ + s.server@ + ":"@ + decimal(s.rtmp_port as nat)
}

/// The index of the least loaded server, the first of equals.
pub open spec fn least_loaded(servers: Seq<IngestionServer>) -> int
    decreases servers.len(),
{
    if servers.len() <= 1 {
        0
    } else {
        let j = least_loaded(servers.drop_last());
        if servers.last().load < servers[j].load {
            servers.len() - 1
        } else {
            j
        }
    }
}

/// The usernames of a list of profiles.
pub open spec fn usernames(s: Seq<BroadcasterProfile>) -> Seq<Seq<char>> {
    s.map_values(|p: BroadcasterProfile| p.username@)
}

/// The index of the first live stream of a broadcaster.
pub open spec fn first_live(s: Seq<LiveStream>, b: Seq<char>) -> Option<int>
    decreases s.len(),
{
    if s.len() == 0 {
        None
    } else if s[0].broadcaster_id.0@ == b && s[0].status == StreamStatus::Live {
        Some(0)
    } else {
        match first_live(s.drop_first(), b) {
            Some(i) => Some(i + 1),
            None => None,
        }
    }
}

/// When a past stream is ordered by: its end, or its creation when it has
/// no end.
pub open spec fn past_key(s: LiveStream) -> i64 {
    match s.ended_at {
        Some(t) => t,
        None => s.created_at,
    }
}

/// A stream of the broadcaster `b` that has ended or is archived.
pub open spec fn is_past(s: LiveStream, b: Seq<char>) -> bool {
    s.broadcaster_id.0@ == b && (s.status == StreamStatus::Ended || s.status == StreamStatus::Archived)
}

/// The streams of `b` in `s`, in order.
pub open spec fn streams_of(s: Seq<LiveStream>, b: Seq<char>) -> Seq<LiveStream>
    decreases s.len(),
{
    if s.len() == 0 {
        Seq::empty()
    } else if s.last().broadcaster_id.0@ == b {
        streams_of(s.drop_last(), b).push(s.last())
    } else {
        streams_of(s.drop_last(), b)
    }
}

/// The past streams of `b` in `s`, in order.
pub open spec fn past_of(s: Seq<LiveStream>, b: Seq<char>) -> Seq<LiveStream>
    decreases s.len(),
{
    if s.len() == 0 {
        Seq::empty()
    } else if is_past(s.last(), b) {
        past_of(s.drop_last(), b).push(s.last())
    } else {
        past_of(s.drop_last(), b)
    }
}

/// The position where a stream with key `k` goes in a list ordered from
/// latest to earliest: after every stream with a key of at least `k`.
pub open spec fn first_lower(sorted: Seq<LiveStream>, k: i64) -> int
    decreases sorted.len(),
{
    if sorted.len() == 0 {
        0
    } else if past_key(sorted[0]) < k {
        0
    } else {
        first_lower(sorted.drop_first(), k) + 1
    }
}

/// Streams ordered from the latest to the earliest end, those with equal
/// ends in their original order (the stable sort by end, latest first).
pub open spec fn sort_by_end(s: Seq<LiveStream>) -> Seq<LiveStream>
    decreases s.len(),
{
    if s.len() == 0 {
        Seq::empty()
    } else {
        let sorted = sort_by_end(s.drop_last());
        sorted.insert(first_lower(sorted, past_key(s.last())), s.last())
    }
}

/// When a past stream is ordered by.
fn end_key(s: &LiveStream) -> (k: i64)
    ensures
        k == past_key(*s),
{
    match s.ended_at {
        Some(t) => t,
        None => s.created_at,
    }
}

/// The page of `s` after skipping `offset` items, of at most `limit`.
pub open spec fn page_of(s: Seq<LiveStream>, offset: int, limit: int) -> Seq<LiveStream> {
    let start = if offset < s.len() {
        offset
    } else {
        s.len() as int
    };
    let end = if start + limit < s.len() {
        start + limit
    } else {
        s.len() as int
    };
    s.subrange(start, end)
}

/// The insertion position lies within the list, and the keys before it
/// are at least `k`, the one after it below `k`.
pub proof fn lemma_first_lower(sorted: Seq<LiveStream>, k: i64)
    ensures
        0 <= first_lower(sorted, k) <= sorted.len(),
        forall|j: int| 0 <= j < first_lower(sorted, k) ==> past_key(#[trigger] sorted[j]) >= k,
        first_lower(sorted, k) < sorted.len() ==> past_key(sorted[first_lower(sorted, k)]) < k,
    decreases sorted.len(),
{
    if sorted.len() > 0 && past_key(sorted[0]) >= k {
        lemma_first_lower(sorted.drop_first(), k);
        assert forall|j: int| 1 <= j < sorted.len() implies sorted[j] == sorted.drop_first()[j - 1] by {}
    }
}

/// The ordering is from the latest to the earliest end, and keeps every
/// stream.
pub proof fn law_sort_by_end_sorted(s: Seq<LiveStream>)
    ensures
        sort_by_end(s).len() == s.len(),
        forall|i: int, j: int| 0 <= i < j < s.len() ==> past_key(#[trigger] sort_by_end(s)[i]) >= past_key(#[trigger] sort_by_end(s)[j]),
    decreases s.len(),
{
    if s.len() > 0 {
        let sorted = sort_by_end(s.drop_last());
        law_sort_by_end_sorted(s.drop_last());
        let k = past_key(s.last());
        let p = first_lower(sorted, k);
        lemma_first_lower(sorted, k);
        let r = sorted.insert(p, s.last());
        assert forall|i: int, j: int| 0 <= i < j < s.len() implies past_key(#[trigger] r[i]) >= past_key(#[trigger] r[j]) by {
            if j < p {
            } else if j == p {
            } else if i < p {
                assert(r[j] == sorted[j - 1]);
                if p < sorted.len() {
                    assert(past_key(sorted[p]) < k);
                }
            } else if i == p {
                assert(r[j] == sorted[j - 1]);
                if p < sorted.len() {
                    assert(past_key(sorted[p]) < k);
                    if j - 1 > p {
                        assert(past_key(sorted[p]) >= past_key(sorted[j - 1]));
                    }
                }
            } else {
                assert(r[i] == sorted[i - 1]);
                assert(r[j] == sorted[j - 1]);
            }
        }
    }
}

/// Sums of durations and views are never negative.
pub proof fn lemma_sums_nonneg(s: Seq<LiveStream>)
    ensures
        duration_sum(s) >= 0,
        views_sum(s) >= 0,
    decreases s.len(),
{
    if s.len() > 0 {
        lemma_sums_nonneg(s.drop_last());
    }
}

/// The streams of `b` among the first `i` streams have sums no larger
/// than those among all of them.
pub proof fn lemma_streams_of_prefix(s: Seq<LiveStream>, b: Seq<char>, i: int)
    requires
        0 <= i <= s.len(),
    ensures
        duration_sum(streams_of(s.take(i), b)) <= duration_sum(streams_of(s, b)),
        views_sum(streams_of(s.take(i), b)) <= views_sum(streams_of(s, b)),
    decreases s.len() - i,
{
    if i < s.len() {
        lemma_streams_of_prefix(s, b, i + 1);
        let t = s.take(i + 1);
        assert(t.drop_last() =~= s.take(i));
        let w = streams_of(s.take(i), b);
        if t.last().broadcaster_id.0@ == b {
            assert(w.push(t.last()).drop_last() =~= w);
        }
    } else {
        assert(s.take(i) =~= s);
    }
}

/// Figures of a broadcaster's streams. The stream time is kept in
/// seconds: in hours it is `total_stream_seconds / 3600`.
#[derive(Debug, Clone, Copy, PartialEq, Eq, Structural)]
pub struct BroadcasterStats {
    pub total_streams: u64,
    pub total_stream_seconds: u64,
    pub total_views: u64,
    pub peak_viewers: u64,
    pub followers_gained: u64,
    pub subscribers_gained: u64,
    pub total_chat_messages: u64,
}

/// The total duration of streams.
pub open spec fn duration_sum(s: Seq<LiveStream>) -> int
    decreases s.len(),
{
    if s.len() == 0 {
        0
    } else {
        duration_sum(s.drop_last()) + s.last().duration_seconds
    }
}

/// The total views of streams.
pub open spec fn views_sum(s: Seq<LiveStream>) -> int
    decreases s.len(),
{
    if s.len() == 0 {
        0
    } else {
        views_sum(s.drop_last()) + s.last().total_views
    }
}

/// The greatest peak viewer count of streams (zero for none).
pub open spec fn peak_max(s: Seq<LiveStream>) -> u64
    decreases s.len(),
{
    if s.len() == 0 {
        0
    } else if s.last().peak_viewer_count > peak_max(s.drop_last()) {
        s.last().peak_viewer_count
    } else {
        peak_max(s.drop_last())
    }
}

/// Sums of a growing prefix never exceed the sum of the whole.
pub proof fn lemma_sums_grow(s: Seq<LiveStream>, i: int)
    requires
        0 <= i <= s.len(),
    ensures
        duration_sum(s.take(i)) <= duration_sum(s),
        views_sum(s.take(i)) <= views_sum(s),
    decreases s.len() - i,
{
    if i < s.len() {
        lemma_sums_grow(s, i + 1);
        assert(s.take(i + 1).drop_last() =~= s.take(i));
    } else {
        assert(s.take(i) =~= s);
    }
}

/// The streams after the one found by `id` went live at `now`.
pub open spec fn started_list(streams: Seq<LiveStream>, id: Seq<char>, now: i64) -> Seq<LiveStream> {
    match first_index(keys_of(streams), id) {
        Some(i) => streams.update(i, LiveStream { status: StreamStatus::Live, started_at: Some(now), ..streams[i] }),
        None => streams,
    }
}

/// The streams after the one found by `id` ended at `now`: it lasted the
/// seconds since its start, where it started.
pub open spec fn ended_list(streams: Seq<LiveStream>, id: Seq<char>, now: i64) -> Seq<LiveStream> {
    match first_index(keys_of(streams), id) {
        Some(i) => streams.update(
            i,
            LiveStream {
                status: StreamStatus::Ended,
                ended_at: Some(now),
                duration_seconds: match streams[i].started_at {
                    Some(st) => (now - st) as u64,
                    None => streams[i].duration_seconds,
                },
                ..streams[i]
            },
        ),
        None => streams,
    }
}

/// The broadcaster service.
pub struct DefaultBroadcasterService {
    broadcasters: Vec<BroadcasterProfile>,
    streams: Vec<LiveStream>,
    ingestion_servers: [IngestionServer; 3],
}

/// A profile with its key replaced.
fn with_key(p: BroadcasterProfile, key: String) -> (r: BroadcasterProfile)
    ensures
        r == (BroadcasterProfile { stream_key: Some(key), ..p }),
{
    let mut q = p;
    q.stream_key = Some(key);
    q
}

impl DefaultBroadcasterService {
    /// The profiles, in creation order.
    pub closed spec fn profiles(&self) -> Seq<BroadcasterProfile> {
        self.broadcasters@
    }

    /// The streams, in creation order.
    pub closed spec fn stream_list(&self) -> Seq<LiveStream> {
        self.streams@
    }

    /// The ingestion servers.
    pub closed spec fn servers(&self) -> Seq<IngestionServer> {
        self.ingestion_servers@
    }

    /// The server streams are sent to: the least loaded one.
    pub open spec fn best_server(&self) -> IngestionServer {
        self.servers()[least_loaded(self.servers())]
    }

    /// A service with no broadcaster, no stream, and the three ingestion
    /// servers (global, Europe, Asia) unloaded.
    pub fn new() -> (s: DefaultBroadcasterService)
        ensures
            s.profiles().len() == 0,
            s.stream_list().len() == 0,
            s.servers().len() == 3,
            s.servers()[0].server@ == "ingest.vantis.media"@ && s.servers()[0].region@ == "global"@,
            s.servers()[1].server@ == "ingest-eu.vantis.media"@ && s.servers()[1].region@ == "europe"@,
            s.servers()[2].server@ == "ingest-as.vantis.media"@ && s.servers()[2].region@ == "asia"@,
            forall|i: int| 0 <= i < 3 ==> s.servers()[i].rtmp_port == 1935 && s.servers()[i].load == 0,
    {
        DefaultBroadcasterService {
            broadcasters: Vec::new(),
            streams: Vec::new(),
            ingestion_servers: [
                IngestionServer { server: owned("ingest.vantis.media"), rtmp_port: 1935, region: owned("global"), load: 0 },
                IngestionServer { server: owned("ingest-eu.vantis.media"), rtmp_port: 1935, region: owned("europe"), load: 0 },
                IngestionServer { server: owned("ingest-as.vantis.media"), rtmp_port: 1935, region: owned("asia"), load: 0 },
            ],
        }
    }

    /// The index of the least loaded ingestion server.
    fn best_server_index(&self) -> (i: usize)
        ensures
            i as int == least_loaded(self.servers()),
            i < 3,
    {
        let mut best: usize = 0;
        let mut k: usize = 1;
        assert(self.ingestion_servers@.len() == 3);
        while k < 3
            invariant
                1 <= k <= 3,
                self.ingestion_servers@.len() == 3,
                best as int == least_loaded(self.ingestion_servers@.take(k as int)),
                best < k,
            decreases 3 - k,
        {
            let ghost t = self.ingestion_servers@.take(k + 1);
            assert(t.drop_last() =~= self.ingestion_servers@.take(k as int));
            assert(t.last() == self.ingestion_servers@[k as int]);
            assert(t[best as int] == self.ingestion_servers@[best as int]);
            if self.ingestion_servers[k].load < self.ingestion_servers[best].load {
                best = k;
            }
            k = k + 1;
        }
        assert(self.ingestion_servers@.take(3) =~= self.ingestion_servers@);
        best
    }

    /// The URL of an ingestion server.
    fn url_of(server: &IngestionServer) -> (u: String)
        ensures
            u@ == server_url(*server),
    {
        let mut u = owned("rtmp://");
        u.append(server.server.as_str());
        u.append(":");
        u.append(u32_text(server.rtmp_port as u32).as_str());
        u
    }

    /// Opens a broadcaster account at the time `now` with the given
    /// identifier and stream key; refused when the username is taken.
    pub fn create_broadcaster_at(&mut self, username: String, display_name: String, id: BroadcasterId, key: String, now: i64) -> (r: Result<BroadcasterId, LiveStreamingError>)
        ensures
            match r {
                Err(e) => first_index(usernames(old(self).profiles()), username@) is Some && e
                    == LiveStreamingError::InternalError(e->InternalError_0) && e->InternalError_0@
                    == "Username already taken"@ && *final(self) == *old(self),
                Ok(rid) => {
                    &&& first_index(usernames(old(self).profiles()), username@) is None
                    &&& rid == id
                    &&& final(self).stream_list() == old(self).stream_list()
                    &&& final(self).servers() == old(self).servers()
                    &&& final(self).profiles().len() == old(self).profiles().len() + 1
                    &&& final(self).profiles().drop_last() == old(self).profiles()
                    &&& {
                        let p = final(self).profiles().last();
                        &&& p.id == id
                        &&& p.username@ == username@
                        &&& p.display_name@ == display_name@
                        &&& p.avatar_url is None
                        &&& p.bio is None
                        &&& p.follower_count == 0
                        &&& p.subscriber_count == 0
                        &&& p.total_views == 0
                        &&& !p.is_partner
                        &&& !p.is_verified
                        &&& p.created_at == now
                        &&& p.stream_key == Some(key)
                        &&& p.ingestion_endpoint matches Some(u) && u@ == server_url(old(self).best_server())
                        &&& p.settings.default_title is None && p.settings.chat_enabled
                    }
                },
            },
    {
        let mut i: usize = 0;
        while i < self.broadcasters.len()
            invariant
                i <= self.broadcasters@.len(),
                forall|j: int| 0 <= j < i ==> usernames(self.broadcasters@)[j] != username@,
            decreases self.broadcasters.len() - i,
        {
            if strings_equal(&self.broadcasters[i].username, &username) {
                proof {
                    assert(usernames(self.broadcasters@)[i as int] == username@);
                    lemma_first_index(usernames(self.broadcasters@), username@);
                }
                return Err(LiveStreamingError::InternalError(owned("Username already taken")));
            }
            i = i + 1;
        }
        proof {
            lemma_first_index(usernames(self.broadcasters@), username@);
        }
        let b = self.best_server_index();
        let endpoint = DefaultBroadcasterService::url_of(&self.ingestion_servers[b]);
        let returned = BroadcasterId(id.0.clone());
        let profile = BroadcasterProfile {
            id,
            username,
            display_name,
            avatar_url: None,
            bio: None,
            follower_count: 0,
            subscriber_count: 0,
            total_views: 0,
            is_partner: false,
            is_verified: false,
            created_at: now,
            stream_key: Some(key),
            ingestion_endpoint: Some(endpoint),
            settings: BroadcasterSettings::default(),
        };
        let ghost before = self.broadcasters@;
        self.broadcasters.push(profile);
        assert(self.broadcasters@.drop_last() =~= before);
        Ok(returned)
    }

    /// Opens a broadcaster account now, with a fresh identifier and the
    /// stream key `live_` followed by a fresh simple identifier.
    pub fn create_broadcaster(&mut self, username: String, display_name: String) -> (r: Result<BroadcasterId, LiveStreamingError>)
        ensures
            r is Err <==> first_index(usernames(old(self).profiles()), username@) is Some,
            r is Err ==> *final(self) == *old(self),
            r matches Ok(id) ==> {
                &&& final(self).profiles().drop_last() == old(self).profiles()
                &&& final(self).profiles().last().id == id
                &&& final(self).profiles().last().username@ == username@
                &&& final(self).profiles().last().stream_key matches Some(k)
                &&& final(self).profiles().last().stream_key->0@.len() == 37
                &&& final(self).profiles().last().stream_key->0@.subrange(0, 5) == "live_"@
            },
    {
        let id = BroadcasterId::new();
        let suffix = random_uuid_simple();
        let mut key = owned("live_");
        key.append(suffix.as_str());
        proof {
            reveal_strlit("live_");
            assert(key@.subrange(0, 5) =~= "live_"@);
        }
        let now = utc_now_seconds();
        self.create_broadcaster_at(username, display_name, id, key, now)
    }

    /// The profile of a broadcaster.
    pub fn get_broadcaster(&self, broadcaster_id: &BroadcasterId) -> (r: Result<&BroadcasterProfile, LiveStreamingError>)
        ensures
            match r {
                Ok(p) => record_of(self.profiles(), broadcaster_id.0@) == Some(*p),
                Err(e) => record_of(self.profiles(), broadcaster_id.0@) is None && e
                    == LiveStreamingError::BroadcasterNotFound(e->BroadcasterNotFound_0) && e->BroadcasterNotFound_0@
                    == broadcaster_id.0@,
            },
    {
        match position(&self.broadcasters, broadcaster_id.0.as_str()) {
            Some(i) => Ok(&self.broadcasters[i]),
            None => Err(LiveStreamingError::BroadcasterNotFound(broadcaster_id.0.clone())),
        }
    }

    /// The profile of the broadcaster with a username.
    pub fn get_broadcaster_by_username(&self, username: &str) -> (r: Result<&BroadcasterProfile, LiveStreamingError>)
        ensures
            match r {
                Ok(p) => first_index(usernames(self.profiles()), username@) matches Some(i) && *p == self.profiles()[i],
                Err(e) => first_index(usernames(self.profiles()), username@) is None && e
                    == LiveStreamingError::BroadcasterNotFound(e->BroadcasterNotFound_0) && e->BroadcasterNotFound_0@
                    == username@,
            },
    {
        let mut i: usize = 0;
        while i < self.broadcasters.len()
            invariant
                i <= self.broadcasters@.len(),
                forall|j: int| 0 <= j < i ==> usernames(self.broadcasters@)[j] != username@,
            decreases self.broadcasters.len() - i,
        {
            if crate::text::string_equals_str(&self.broadcasters[i].username, username) {
                proof {
                    crate::market::lemma_first_index_at(usernames(self.broadcasters@), username@, i as int);
                }
                return Ok(&self.broadcasters[i]);
            }
            i = i + 1;
        }
        proof {
            lemma_first_index(usernames(self.broadcasters@), username@);
        }
        Err(LiveStreamingError::BroadcasterNotFound(owned(username)))
    }

    /// Creates a stream for a broadcaster at the time `now` with the given
    /// identifier; refused for an unknown broadcaster.
    pub fn create_stream_at(&mut self, broadcaster_id: &BroadcasterId, title: String, category: StreamCategory, id: StreamId, now: i64) -> (r: Result<StreamId, LiveStreamingError>)
        ensures
            match r {
                Err(e) => record_of(old(self).profiles(), broadcaster_id.0@) is None && e
                    == LiveStreamingError::BroadcasterNotFound(e->BroadcasterNotFound_0) && e->BroadcasterNotFound_0@
                    == broadcaster_id.0@ && *final(self) == *old(self),
                Ok(rid) => {
                    &&& record_of(old(self).profiles(), broadcaster_id.0@) is Some
                    &&& rid == id
                    &&& final(self).profiles() == old(self).profiles()
                    &&& final(self).servers() == old(self).servers()
                    &&& final(self).stream_list().drop_last() == old(self).stream_list()
                    &&& final(self).stream_list().len() == old(self).stream_list().len() + 1
                    &&& fresh_stream(final(self).stream_list().last(), id, *broadcaster_id, title@, category, now)
                },
            },
    {
        if position(&self.broadcasters, broadcaster_id.0.as_str()).is_none() {
            return Err(LiveStreamingError::BroadcasterNotFound(broadcaster_id.0.clone()));
        }
        let returned = StreamId(id.0.clone());
        let stream = LiveStream::new_at(BroadcasterId(broadcaster_id.0.clone()), title, category, id, now);
        let ghost before = self.streams@;
        self.streams.push(stream);
        assert(self.streams@.drop_last() =~= before);
        Ok(returned)
    }

    /// Creates a stream for a broadcaster now, with a fresh identifier.
    pub fn create_stream(&mut self, broadcaster_id: &BroadcasterId, title: String, category: StreamCategory) -> (r: Result<StreamId, LiveStreamingError>)
        ensures
            r is Err <==> record_of(old(self).profiles(), broadcaster_id.0@) is None,
            r is Err ==> *final(self) == *old(self),
            r matches Ok(id) ==> final(self).stream_list().drop_last() == old(self).stream_list() && exists|now: i64|
                fresh_stream(final(self).stream_list().last(), id, *broadcaster_id, title@, category, now),
    {
        let id = StreamId::new();
        let now = utc_now_seconds();
        self.create_stream_at(broadcaster_id, title, category, id, now)
    }

    /// A stream.
    pub fn get_stream(&self, stream_id: &StreamId) -> (r: Result<&LiveStream, LiveStreamingError>)
        ensures
            match r {
                Ok(s) => record_of(self.stream_list(), stream_id.0@) == Some(*s),
                Err(e) => record_of(self.stream_list(), stream_id.0@) is None && e
                    == LiveStreamingError::StreamNotFound(e->StreamNotFound_0) && e->StreamNotFound_0@ == stream_id.0@,
            },
    {
        match position(&self.streams, stream_id.0.as_str()) {
            Some(i) => Ok(&self.streams[i]),
            None => Err(LiveStreamingError::StreamNotFound(stream_id.0.clone())),
        }
    }

    /// Starts a stream at the time `now`, given its broadcaster's stream
    /// key. Refused for an unknown stream or broadcaster, a broadcaster
    /// without a key or with another key, and a stream already live.
    pub fn start_stream_at(&mut self, stream_id: &StreamId, stream_key: &str, now: i64) -> (r: Result<(), LiveStreamingError>)
        ensures
            match record_of(old(self).stream_list(), stream_id.0@) {
                None => r matches Err(e) && e == LiveStreamingError::StreamNotFound(e->StreamNotFound_0)
                    && e->StreamNotFound_0@ == stream_id.0@,
                Some(s) => match record_of(old(self).profiles(), s.broadcaster_id.0@) {
                    None => r matches Err(e) && e == LiveStreamingError::BroadcasterNotFound(e->BroadcasterNotFound_0)
                        && e->BroadcasterNotFound_0@ == s.broadcaster_id.0@,
                    Some(p) => if !(p.stream_key matches Some(k) && k@ == stream_key@) {
                        r == Err::<(), LiveStreamingError>(LiveStreamingError::InvalidStreamKey)
                    } else if s.status == StreamStatus::Live {
                        r == Err::<(), LiveStreamingError>(LiveStreamingError::StreamAlreadyLive)
                    } else {
                        r is Ok
                    },
                },
            },
            r is Err ==> *final(self) == *old(self),
            r is Ok ==> {
                &&& final(self).profiles() == old(self).profiles()
                &&& final(self).servers() == old(self).servers()
                &&& first_index(keys_of(old(self).stream_list()), stream_id.0@) matches Some(i) && final(self).stream_list() == old(self).stream_list().update( i, LiveStream { status: StreamStatus::Live, started_at: Some(now), ..old(self).stream_list()[i] }, )
            },
    {
        let i = match position(&self.streams, stream_id.0.as_str()) {
            Some(i) => i,
            None => {
                return Err(LiveStreamingError::StreamNotFound(stream_id.0.clone()));
            },
        };
        let j = match position(&self.broadcasters, self.streams[i].broadcaster_id.0.as_str()) {
            Some(j) => j,
            None => {
                return Err(LiveStreamingError::BroadcasterNotFound(self.streams[i].broadcaster_id.0.clone()));
            },
        };
        match &self.broadcasters[j].stream_key {
            None => {
                return Err(LiveStreamingError::InvalidStreamKey);
            },
            Some(expected) => {
                if !crate::text::string_equals_str(expected, stream_key) {
                    return Err(LiveStreamingError::InvalidStreamKey);
                }
            },
        }
        if self.streams[i].status == StreamStatus::Live {
            return Err(LiveStreamingError::StreamAlreadyLive);
        }
        let ghost before = self.streams@;
        let mut stream = self.streams.remove(i);
        stream.status = StreamStatus::Live;
        stream.started_at = Some(now);
        self.streams.insert(i, stream);
        assert(self.streams@ =~= before.update(i as int, stream));
        Ok(())
    }

    /// Starts a stream now.
    pub fn start_stream(&mut self, stream_id: &StreamId, stream_key: &str) -> (r: Result<(), LiveStreamingError>)
        ensures
            match record_of(old(self).stream_list(), stream_id.0@) {
                None => r matches Err(e) && e == LiveStreamingError::StreamNotFound(e->StreamNotFound_0)
                    && e->StreamNotFound_0@ == stream_id.0@,
                Some(s) => match record_of(old(self).profiles(), s.broadcaster_id.0@) {
                    None => r matches Err(e) && e == LiveStreamingError::BroadcasterNotFound(e->BroadcasterNotFound_0)
                        && e->BroadcasterNotFound_0@ == s.broadcaster_id.0@,
                    Some(p) => if !(p.stream_key matches Some(k) && k@ == stream_key@) {
                        r == Err::<(), LiveStreamingError>(LiveStreamingError::InvalidStreamKey)
                    } else if s.status == StreamStatus::Live {
                        r == Err::<(), LiveStreamingError>(LiveStreamingError::StreamAlreadyLive)
                    } else {
                        r is Ok
                    },
                },
            },
            r is Err ==> *final(self) == *old(self),
            r is Ok ==> {
                &&& final(self).profiles() == old(self).profiles()
                &&& final(self).servers() == old(self).servers()
                &&& first_index(keys_of(old(self).stream_list()), stream_id.0@) is Some
                &&& exists|now: i64| final(self).stream_list() == #[trigger] started_list(old(self).stream_list(), stream_id.0@, now)
            },
    {
        let now = utc_now_seconds();
        proof {
            lemma_first_index(keys_of(self.stream_list()), stream_id.0@);
        }
        let r = self.start_stream_at(stream_id, stream_key, now);
        assert(r is Ok ==> self.stream_list() == started_list(old(self).stream_list(), stream_id.0@, now));
        r
    }

    /// Ends a live stream at the time `now`: it is ended at `now` and, when
    /// it had started, lasted the seconds since then (as an unsigned count).
    /// Refused for an unknown stream and one that is not live.
    pub fn end_stream_at(&mut self, stream_id: &StreamId, now: i64) -> (r: Result<(), LiveStreamingError>)
        ensures
            match record_of(old(self).stream_list(), stream_id.0@) {
                None => r matches Err(e) && e == LiveStreamingError::StreamNotFound(e->StreamNotFound_0)
                    && e->StreamNotFound_0@ == stream_id.0@,
                Some(s) => if s.status != StreamStatus::Live {
                    r == Err::<(), LiveStreamingError>(LiveStreamingError::StreamNotLive)
                } else {
                    r is Ok
                },
            },
            r is Err ==> *final(self) == *old(self),
            r is Ok ==> {
                &&& final(self).profiles() == old(self).profiles()
                &&& final(self).servers() == old(self).servers()
                &&& first_index(keys_of(old(self).stream_list()), stream_id.0@) matches Some(i) && final(self).stream_list() == old(self).stream_list().update( i, LiveStream { status: StreamStatus::Ended, ended_at: Some(now), duration_seconds: match old(self).stream_list()[i].started_at { Some(st) => (now - st) as u64, None => old(self).stream_list()[i].duration_seconds, }, ..old(self).stream_list()[i] }, )
            },
    {
        let i = match position(&self.streams, stream_id.0.as_str()) {
            Some(i) => i,
            None => {
                return Err(LiveStreamingError::StreamNotFound(stream_id.0.clone()));
            },
        };
        if self.streams[i].status != StreamStatus::Live {
            return Err(LiveStreamingError::StreamNotLive);
        }
        let ghost before = self.streams@;
        let mut stream = self.streams.remove(i);
        stream.status = StreamStatus::Ended;
        stream.ended_at = Some(now);
        if let Some(started) = stream.started_at {
            let d: i128 = (now as i128) - (started as i128);
            stream.duration_seconds = d as u64;
        }
        self.streams.insert(i, stream);
        assert(self.streams@ =~= before.update(i as int, stream));
        Ok(())
    }

    /// Ends a live stream now.
    pub fn end_stream(&mut self, stream_id: &StreamId) -> (r: Result<(), LiveStreamingError>)
        ensures
            match record_of(old(self).stream_list(), stream_id.0@) {
                None => r matches Err(e) && e == LiveStreamingError::StreamNotFound(e->StreamNotFound_0)
                    && e->StreamNotFound_0@ == stream_id.0@,
                Some(s) => if s.status != StreamStatus::Live {
                    r == Err::<(), LiveStreamingError>(LiveStreamingError::StreamNotLive)
                } else {
                    r is Ok
                },
            },
            r is Err ==> *final(self) == *old(self),
            r is Ok ==> {
                &&& final(self).profiles() == old(self).profiles()
                &&& final(self).servers() == old(self).servers()
                &&& first_index(keys_of(old(self).stream_list()), stream_id.0@) is Some
                &&& exists|now: i64| final(self).stream_list() == #[trigger] ended_list(old(self).stream_list(), stream_id.0@, now)
            },
    {
        let now = utc_now_seconds();
        proof {
            lemma_first_index(keys_of(self.stream_list()), stream_id.0@);
        }
        let r = self.end_stream_at(stream_id, now);
        assert(r is Ok ==> self.stream_list() == ended_list(old(self).stream_list(), stream_id.0@, now));
        r
    }

    /// The first live stream of a broadcaster, if any.
    pub fn get_active_stream(&self, broadcaster_id: &BroadcasterId) -> (r: Result<Option<&LiveStream>, LiveStreamingError>)
        ensures
            match r {
                Ok(Some(s)) => first_live(self.stream_list(), broadcaster_id.0@) matches Some(i) && *s
                    == self.stream_list()[i],
                Ok(None) => first_live(self.stream_list(), broadcaster_id.0@) is None,
                Err(_) => false,
            },
    {
        let mut i: usize = 0;
        assert(self.streams@.skip(0) =~= self.streams@);
        while i < self.streams.len()
            invariant
                i <= self.streams@.len(),
                first_live(self.streams@, broadcaster_id.0@) == match first_live(self.streams@.skip(i as int), broadcaster_id.0@) {
                    Some(k) => Some(k + i),
                    None => None::<int>,
                },
            decreases self.streams.len() - i,
        {
            let ghost t = self.streams@.skip(i as int);
            assert(t.drop_first() =~= self.streams@.skip(i + 1));
            assert(t[0] == self.streams@[i as int]);
            if strings_equal(&self.streams[i].broadcaster_id.0, &broadcaster_id.0) && self.streams[i].status == StreamStatus::Live {
                return Ok(Some(&self.streams[i]));
            }
            i = i + 1;
        }
        assert(self.streams@.skip(i as int) =~= Seq::<LiveStream>::empty());
        Ok(None)
    }

    /// Changes what a profile update gives; refused for an unknown
    /// broadcaster.
    pub fn update_profile(&mut self, broadcaster_id: &BroadcasterId, updates: ProfileUpdate) -> (r: Result<(), LiveStreamingError>)
        ensures
            r is Err <==> record_of(old(self).profiles(), broadcaster_id.0@) is None,
            r is Err ==> *final(self) == *old(self),
            r is Ok ==> {
                &&& final(self).stream_list() == old(self).stream_list()
                &&& final(self).servers() == old(self).servers()
                &&& first_index(keys_of(old(self).profiles()), broadcaster_id.0@) matches Some(i) && { let p = old(self).profiles()[i]; final(self).profiles() == old(self).profiles().update( i, BroadcasterProfile { display_name: match updates.display_name { Some(n) => n, None => p.display_name, }, avatar_url: match updates.avatar_url { Some(a) => Some(a), None => p.avatar_url, }, bio: match updates.bio { Some(b) => Some(b), None => p.bio, }, ..p }, ) }
            },
    {
        let i = match position(&self.broadcasters, broadcaster_id.0.as_str()) {
            Some(i) => i,
            None => {
                return Err(LiveStreamingError::BroadcasterNotFound(broadcaster_id.0.clone()));
            },
        };
        let ghost before = self.broadcasters@;
        let mut p = self.broadcasters.remove(i);
        if let Some(n) = updates.display_name {
            p.display_name = n;
        }
        if let Some(a) = updates.avatar_url {
            p.avatar_url = Some(a);
        }
        if let Some(b) = updates.bio {
            p.bio = Some(b);
        }
        self.broadcasters.insert(i, p);
        assert(self.broadcasters@ =~= before.update(i as int, p));
        Ok(())
    }

    /// Replaces a broadcaster's settings; refused for an unknown
    /// broadcaster.
    pub fn update_settings(&mut self, broadcaster_id: &BroadcasterId, settings: BroadcasterSettings) -> (r: Result<(), LiveStreamingError>)
        ensures
            r is Err <==> record_of(old(self).profiles(), broadcaster_id.0@) is None,
            r is Err ==> *final(self) == *old(self),
            r is Ok ==> {
                &&& final(self).stream_list() == old(self).stream_list()
                &&& final(self).servers() == old(self).servers()
                &&& first_index(keys_of(old(self).profiles()), broadcaster_id.0@) matches Some(i) && final(self).profiles() == old(self).profiles().update( i, BroadcasterProfile { settings: settings, ..old(self).profiles()[i] }, )
            },
    {
        let i = match position(&self.broadcasters, broadcaster_id.0.as_str()) {
            Some(i) => i,
            None => {
                return Err(LiveStreamingError::BroadcasterNotFound(broadcaster_id.0.clone()));
            },
        };
        let ghost before = self.broadcasters@;
        let mut p = self.broadcasters.remove(i);
        p.settings = settings;
        self.broadcasters.insert(i, p);
        assert(self.broadcasters@ =~= before.update(i as int, p));
        Ok(())
    }

    /// Gives a broadcaster the stream key `key`; refused for an unknown
    /// broadcaster.
    pub fn set_stream_key(&mut self, broadcaster_id: &BroadcasterId, key: String) -> (r: Result<String, LiveStreamingError>)
        ensures
            r is Err <==> record_of(old(self).profiles(), broadcaster_id.0@) is None,
            r is Err ==> *final(self) == *old(self),
            r matches Ok(k) ==> {
                &&& k@ == key@
                &&& final(self).stream_list() == old(self).stream_list()
                &&& final(self).servers() == old(self).servers()
                &&& first_index(keys_of(old(self).profiles()), broadcaster_id.0@) matches Some(i) && final(self).profiles() == old(self).profiles().update( i, BroadcasterProfile { stream_key: Some(key), ..old(self).profiles()[i] }, )
            },
    {
        let i = match position(&self.broadcasters, broadcaster_id.0.as_str()) {
            Some(i) => i,
            None => {
                return Err(LiveStreamingError::BroadcasterNotFound(broadcaster_id.0.clone()));
            },
        };
        let returned = key.clone();
        let ghost before = self.broadcasters@;
        let p = with_key(self.broadcasters.remove(i), key);
        self.broadcasters.insert(i, p);
        assert(self.broadcasters@ =~= before.update(i as int, p));
        Ok(returned)
    }

    /// Gives a broadcaster a fresh stream key, `live_` followed by a fresh
    /// simple identifier; refused for an unknown broadcaster.
    pub fn regenerate_stream_key(&mut self, broadcaster_id: &BroadcasterId) -> (r: Result<String, LiveStreamingError>)
        ensures
            r is Err <==> record_of(old(self).profiles(), broadcaster_id.0@) is None,
            r is Err ==> *final(self) == *old(self),
            r matches Ok(k) ==> {
                &&& k@.len() == 37
                &&& first_index(keys_of(old(self).profiles()), broadcaster_id.0@) matches Some(i) && final(self).profiles()[i].stream_key matches Some(sk) && sk@ == k@
            },
    {
        let suffix = random_uuid_simple();
        let mut key = owned("live_");
        key.append(suffix.as_str());
        proof {
            reveal_strlit("live_");
            lemma_first_index(keys_of(self.profiles()), broadcaster_id.0@);
        }
        self.set_stream_key(broadcaster_id, key)
    }

    /// Where a broadcaster sends the stream: the least loaded server, with
    /// the others as backups. Refused for an unknown broadcaster and for
    /// one without a stream key.
    pub fn get_ingestion_endpoint(&self, broadcaster_id: &BroadcasterId) -> (r: Result<IngestionEndpoint, LiveStreamingError>)
        ensures
            match record_of(self.profiles(), broadcaster_id.0@) {
                None => r matches Err(e) && e == LiveStreamingError::BroadcasterNotFound(e->BroadcasterNotFound_0)
                    && e->BroadcasterNotFound_0@ == broadcaster_id.0@,
                Some(p) => match p.stream_key {
                    None => r == Err::<IngestionEndpoint, LiveStreamingError>(LiveStreamingError::InvalidStreamKey),
                    Some(k) => r matches Ok(ep) && ep.url@ == server_url(self.best_server()) && ep.stream_key@ == k@
                        && ep.server@ == self.best_server().server@ && ep.rtmp_port == self.best_server().rtmp_port
                        && ep.protocol == IngestionProtocol::RTMPS && ep.backup_servers@.len() == 2
                        && ep.backup_servers@[0]@ == self.servers()[1].server@ && ep.backup_servers@[1]@
                        == self.servers()[2].server@,
                },
            },
    {
        let i = match position(&self.broadcasters, broadcaster_id.0.as_str()) {
            Some(i) => i,
            None => {
                return Err(LiveStreamingError::BroadcasterNotFound(broadcaster_id.0.clone()));
            },
        };
        let key = match &self.broadcasters[i].stream_key {
            Some(k) => k.clone(),
            None => {
                return Err(LiveStreamingError::InvalidStreamKey);
            },
        };
        let b = self.best_server_index();
        let mut backups: Vec<String> = Vec::new();
        backups.push(self.ingestion_servers[1].server.clone());
        backups.push(self.ingestion_servers[2].server.clone());
        Ok(
            IngestionEndpoint {
                url: DefaultBroadcasterService::url_of(&self.ingestion_servers[b]),
                stream_key: key,
                server: self.ingestion_servers[b].server.clone(),
                rtmp_port: self.ingestion_servers[b].rtmp_port,
                protocol: IngestionProtocol::RTMPS,
                backup_servers: backups,
            },
        )
    }

    /// Changes what a stream information update gives; refused for an
    /// unknown stream.
    pub fn update_stream_info(&mut self, stream_id: &StreamId, updates: StreamInfoUpdate) -> (r: Result<(), LiveStreamingError>)
        ensures
            r is Err <==> record_of(old(self).stream_list(), stream_id.0@) is None,
            r is Err ==> *final(self) == *old(self),
            r is Ok ==> {
                &&& final(self).profiles() == old(self).profiles()
                &&& final(self).servers() == old(self).servers()
                &&& first_index(keys_of(old(self).stream_list()), stream_id.0@) matches Some(i) && { let s = old(self).stream_list()[i]; final(self).stream_list() == old(self).stream_list().update( i, LiveStream { title: match updates.title { Some(t) => t, None => s.title, }, description: match updates.description { Some(d) => Some(d), None => s.description, }, category: match updates.category { Some(c) => c, None => s.category, }, tags: match updates.tags { Some(t) => t, None => s.tags, }, language: match updates.language { Some(l) => l, None => s.language, }, is_mature: match updates.is_mature { Some(m) => m, None => s.is_mature, }, ..s }, ) }
            },
    {
        let i = match position(&self.streams, stream_id.0.as_str()) {
            Some(i) => i,
            None => {
                return Err(LiveStreamingError::StreamNotFound(stream_id.0.clone()));
            },
        };
        let ghost before = self.streams@;
        let mut s = self.streams.remove(i);
        if let Some(t) = updates.title {
            s.title = t;
        }
        if let Some(d) = updates.description {
            s.description = Some(d);
        }
        if let Some(c) = updates.category {
            s.category = c;
        }
        if let Some(t) = updates.tags {
            s.tags = t;
        }
        if let Some(l) = updates.language {
            s.language = l;
        }
        if let Some(m) = updates.is_mature {
            s.is_mature = m;
        }
        self.streams.insert(i, s);
        assert(self.streams@ =~= before.update(i as int, s));
        Ok(())
    }

    /// The ended and archived streams of a broadcaster, from the latest to
    /// the earliest end (creation for a stream without an end), the page
    /// after `offset` of at most `limit`.
    pub fn get_past_streams(&self, broadcaster_id: &BroadcasterId, limit: usize, offset: usize) -> (r: Result<Vec<&LiveStream>, LiveStreamingError>)
        ensures
            r matches Ok(v) && v@.map_values(|x: &LiveStream| *x) == page_of(
                sort_by_end(past_of(self.stream_list(), broadcaster_id.0@)),
                offset as int,
                limit as int,
            ),
    {
        let mut sorted: Vec<&LiveStream> = Vec::new();
        let mut i: usize = 0;
        while i < self.streams.len()
            invariant
                i <= self.streams@.len(),
                sorted@.map_values(|x: &LiveStream| *x) == sort_by_end(past_of(self.streams@.take(i as int), broadcaster_id.0@)),
            decreases self.streams.len() - i,
        {
            let ghost before = sorted@.map_values(|x: &LiveStream| *x);
            assert(self.streams@.take(i + 1).drop_last() =~= self.streams@.take(i as int));
            assert(self.streams@.take(i + 1).last() == self.streams@[i as int]);
            let s = &self.streams[i];
            if strings_equal(&s.broadcaster_id.0, &broadcaster_id.0) && (s.status == StreamStatus::Ended || s.status
                == StreamStatus::Archived) {
                let k = end_key(s);
                let mut j: usize = 0;
                assert(before.skip(0) =~= before);
                while j < sorted.len() && end_key(sorted[j]) >= k
                    invariant
                        j <= sorted@.len(),
                        before == sorted@.map_values(|x: &LiveStream| *x),
                        first_lower(before, k) == first_lower(before.skip(j as int), k) + j,
                    decreases sorted.len() - j,
                {
                    assert(before.skip(j as int).drop_first() =~= before.skip(j + 1));
                    assert(before.skip(j as int)[0] == before[j as int]);
                    j = j + 1;
                }
                proof {
                    if j < sorted@.len() {
                        assert(before.skip(j as int)[0] == before[j as int]);
                    } else {
                        assert(before.skip(j as int) =~= Seq::<LiveStream>::empty());
                    }
                }
                sorted.insert(j, s);
                assert(sorted@.map_values(|x: &LiveStream| *x) =~= before.insert(j as int, *s));
                proof {
                    let p = past_of(self.streams@.take(i as int), broadcaster_id.0@);
                    assert(p.push(*s).drop_last() =~= p);
                    assert(past_of(self.streams@.take(i + 1), broadcaster_id.0@) == p.push(*s));
                }
            }
            i = i + 1;
        }
        assert(self.streams@.take(self.streams@.len() as int) =~= self.streams@);
        let ghost all = sorted@.map_values(|x: &LiveStream| *x);
        let start: usize = if offset < sorted.len() {
            offset
        } else {
            sorted.len()
        };
        let end: usize = if limit < sorted.len() - start {
            start + limit
        } else {
            sorted.len()
        };
        let mut out: Vec<&LiveStream> = Vec::new();
        let mut k: usize = start;
        while k < end
            invariant
                start <= k <= end <= sorted@.len(),
                all == sorted@.map_values(|x: &LiveStream| *x),
                out@.map_values(|x: &LiveStream| *x) == all.subrange(start as int, k as int),
            decreases end - k,
        {
            let ghost prev = out@.map_values(|x: &LiveStream| *x);
            out.push(sorted[k]);
            assert(out@.map_values(|x: &LiveStream| *x) =~= prev.push(all[k as int]));
            assert(all.subrange(start as int, k + 1) =~= all.subrange(start as int, k as int).push(all[k as int]));
            k = k + 1;
        }
        Ok(out)
    }

    /// Figures of a broadcaster's streams: how many, their total time and
    /// views, and the greatest peak of viewers.
    pub fn get_broadcaster_stats(&self, broadcaster_id: &BroadcasterId) -> (r: Result<BroadcasterStats, LiveStreamingError>)
        requires
            duration_sum(streams_of(self.stream_list(), broadcaster_id.0@)) <= u64::MAX,
            views_sum(streams_of(self.stream_list(), broadcaster_id.0@)) <= u64::MAX,
        ensures
            r == Ok::<BroadcasterStats, LiveStreamingError>(
                BroadcasterStats {
                    total_streams: streams_of(self.stream_list(), broadcaster_id.0@).len() as u64,
                    total_stream_seconds: duration_sum(streams_of(self.stream_list(), broadcaster_id.0@)) as u64,
                    total_views: views_sum(streams_of(self.stream_list(), broadcaster_id.0@)) as u64,
                    peak_viewers: peak_max(streams_of(self.stream_list(), broadcaster_id.0@)),
                    followers_gained: 0,
                    subscribers_gained: 0,
                    total_chat_messages: 0,
                },
            ),
    {
        let ghost all = streams_of(self.streams@, broadcaster_id.0@);
        let mut stats = BroadcasterStats {
            total_streams: 0,
            total_stream_seconds: 0,
            total_views: 0,
            peak_viewers: 0,
            followers_gained: 0,
            subscribers_gained: 0,
            total_chat_messages: 0,
        };
        let mut i: usize = 0;
        proof {
            lemma_streams_of_prefix(self.streams@, broadcaster_id.0@, 0);
        }
        while i < self.streams.len()
            invariant
                i <= self.streams@.len(),
                all == streams_of(self.streams@, broadcaster_id.0@),
                duration_sum(all) <= u64::MAX,
                views_sum(all) <= u64::MAX,
                streams_of(self.streams@.take(i as int), broadcaster_id.0@).len() <= i,
                stats == (BroadcasterStats {
                    total_streams: streams_of(self.streams@.take(i as int), broadcaster_id.0@).len() as u64,
                    total_stream_seconds: duration_sum(streams_of(self.streams@.take(i as int), broadcaster_id.0@)) as u64,
                    total_views: views_sum(streams_of(self.streams@.take(i as int), broadcaster_id.0@)) as u64,
                    peak_viewers: peak_max(streams_of(self.streams@.take(i as int), broadcaster_id.0@)),
                    followers_gained: 0,
                    subscribers_gained: 0,
                    total_chat_messages: 0,
                }),
                duration_sum(streams_of(self.streams@.take(i as int), broadcaster_id.0@)) <= duration_sum(all),
                views_sum(streams_of(self.streams@.take(i as int), broadcaster_id.0@)) <= views_sum(all),
            decreases self.streams.len() - i,
        {
            assert(self.streams@.take(i + 1).drop_last() =~= self.streams@.take(i as int));
            assert(self.streams@.take(i + 1).last() == self.streams@[i as int]);
            proof {
                lemma_streams_of_prefix(self.streams@, broadcaster_id.0@, i + 1);
            }
            let s = &self.streams[i];
            let ghost w = streams_of(self.streams@.take(i as int), broadcaster_id.0@);
            if strings_equal(&s.broadcaster_id.0, &broadcaster_id.0) {
                assert(w.push(*s).drop_last() =~= w);
                assert(streams_of(self.streams@.take(i + 1), broadcaster_id.0@) == w.push(*s));
                proof {
                    lemma_sums_nonneg(w);
                }
                stats.total_streams = stats.total_streams + 1;
                stats.total_stream_seconds = stats.total_stream_seconds + s.duration_seconds;
                stats.total_views = stats.total_views + s.total_views;
                if s.peak_viewer_count > stats.peak_viewers {
                    stats.peak_viewers = s.peak_viewer_count;
                }
            }
            i = i + 1;
        }
        assert(self.streams@.take(self.streams@.len() as int) =~= self.streams@);
        Ok(stats)
    }
}

} // verus!
