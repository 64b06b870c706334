//! Value types of live streaming: streams, their encodings, chat, and the
//! interactive features around a broadcast.

use vstd::prelude::*;

use crate::text::owned;

verus! {

/// Where a stream is in its life.
#[derive(Debug, Clone, Copy, PartialEq, Eq, Structural)]
pub enum StreamStatus {
    Created,
    Preparing,
    Live,
    Ending,
    Ended,
    Archived,
}

/// Who may watch a stream.
#[derive(Debug, Clone, Copy, PartialEq, Eq, Structural)]
pub enum StreamVisibility {
    Public,
    Unlisted,
    Private,
    FollowersOnly,
    SubscribersOnly,
}

/// A category streams are filed under.
#[derive(Debug, Clone, PartialEq, Eq)]
pub struct StreamCategory {
    pub id: String,
    pub name: String,
    pub parent_id: Option<String>,
    pub tags: Vec<String>,
}

impl StreamCategory {
    /// A top-level category without tags.
    pub fn new(id: &str, name: &str) -> (c: StreamCategory)
        ensures
            c.id@ == id@,
            c.name@ == name@,
            c.parent_id is None,
            c.tags@.len() == 0,
    {
        StreamCategory { id: owned(id), name: owned(name), parent_id: None, tags: Vec::new() }
    }
}

/// Video resolution of a stream.
#[derive(Debug, Clone, Copy, PartialEq, Eq, Structural)]
pub enum Resolution {
    /// 480p
    SD,
    /// 720p
    HD,
    /// 1080p
    FullHD,
    /// 1440p
    QHD,
    /// 4K
    UHD,
    Custom { width: u32, height: u32 },
}

/// Width and height of a resolution.
pub open spec fn resolution_size(r: Resolution) -> (u32, u32) {
    match r {
        Resolution::SD => (854, 480),
        Resolution::HD => (1280, 720),
        Resolution::FullHD => (1920, 1080),
        Resolution::QHD => (2560, 1440),
        Resolution::UHD => (3840, 2160),
        Resolution::Custom { width, height } => (width, height),
    }
}

impl Resolution {
    /// Width and height in pixels.
    pub fn dimensions(&self) -> (d: (u32, u32))
        ensures
            d == resolution_size(*self),
    {
        match self {
            Resolution::SD => (854, 480),
            Resolution::HD => (1280, 720),
            Resolution::FullHD => (1920, 1080),
            Resolution::QHD => (2560, 1440),
            Resolution::UHD => (3840, 2160),
            Resolution::Custom { width, height } => (*width, *height),
        }
    }
}

/// Video codecs of a stream.
#[derive(Debug, Clone, Copy, PartialEq, Eq, Structural)]
pub enum VideoCodec {
    H264,
    H265,
    VP8,
    VP9,
    AV1,
}

/// Audio codecs of a stream.
#[derive(Debug, Clone, Copy, PartialEq, Eq, Structural)]
pub enum AudioCodec {
    AAC,
    MP3,
    Opus,
    FLAC,
}

/// Trade-off between delay and quality.
#[derive(Debug, Clone, Copy, PartialEq, Eq, Structural)]
pub enum LatencyMode {
    /// About one second.
    RealTime,
    /// About five seconds.
    LowLatency,
    /// Ten to fifteen seconds.
    Normal,
    /// Thirty seconds or more.
    HighQuality,
}

/// Settings a broadcaster applies to each stream.
#[derive(Debug, Clone)]
pub struct BroadcasterSettings {
    pub default_title: Option<String>,
    pub default_category: Option<StreamCategory>,
    pub default_tags: Vec<String>,
    pub chat_enabled: bool,
    pub chat_subscribers_only: bool,
    pub chat_followers_only: bool,
    pub chat_min_follow_time_minutes: u32,
    pub slow_mode_enabled: bool,
    pub slow_mode_delay_seconds: u32,
    pub emote_only_mode: bool,
    pub r9k_mode: bool,
}

impl Default for BroadcasterSettings {
    fn default() -> (s: BroadcasterSettings)
        ensures
            s.default_title is None,
            s.default_category is None,
            s.default_tags@.len() == 0,
            s.chat_enabled,
            !s.chat_subscribers_only,
            !s.chat_followers_only,
            s.chat_min_follow_time_minutes == 0,
            !s.slow_mode_enabled,
            s.slow_mode_delay_seconds == 30,
            !s.emote_only_mode,
            !s.r9k_mode,
    {
        BroadcasterSettings {
            default_title: None,
            default_category: None,
            default_tags: Vec::new(),
            chat_enabled: true,
            chat_subscribers_only: false,
            chat_followers_only: false,
            chat_min_follow_time_minutes: 0,
            slow_mode_enabled: false,
            slow_mode_delay_seconds: 30,
            emote_only_mode: false,
            r9k_mode: false,
        }
    }
}

/// A badge shown beside a chatter's name.
#[derive(Debug, Clone, PartialEq, Eq)]
pub struct ChatBadge {
    pub id: String,
    pub name: String,
    pub icon_url: String,
}

/// Kinds of chat message.
#[derive(Debug, Clone, Copy, PartialEq, Eq, Structural)]
pub enum ChatMessageType {
    Text,
    System,
    Announcement,
    Subscription,
    Donation,
    Raid,
    Ban,
    Timeout,
    Clear,
}

/// Where an emote stands in a message.
#[derive(Debug, Clone)]
pub struct EmotePosition {
    pub emote_id: String,
    pub emote_name: String,
    pub start_index: usize,
    pub end_index: usize,
}

/// Where a broadcaster sends the stream.
#[derive(Debug, Clone)]
pub struct IngestionEndpoint {
    pub url: String,
    pub stream_key: String,
    pub server: String,
    pub rtmp_port: u16,
    pub protocol: IngestionProtocol,
    pub backup_servers: Vec<String>,
}

/// Protocols of stream ingestion.
#[derive(Debug, Clone, Copy, PartialEq, Eq, Structural)]
pub enum IngestionProtocol {
    RTMP,
    RTMPS,
    SRT,
    RIST,
    WebRTC,
}

/// A playback URL of one quality.
#[derive(Debug, Clone)]
pub struct QualityPlaybackUrl {
    pub quality: Resolution,
    pub url: String,
    pub bandwidth: u32,
    pub codecs: String,
}

/// Where viewers play a stream from.
#[derive(Debug, Clone)]
pub struct PlaybackUrls {
    pub hls: Option<String>,
    pub dash: Option<String>,
    pub webrtc: Option<String>,
    pub ll_hls: Option<String>,
    pub qualities: Vec<QualityPlaybackUrl>,
}

/// Events of a stream.
#[derive(Debug, Clone, Copy, PartialEq, Eq, Structural)]
pub enum StreamEventType {
    StreamStarted,
    StreamStopped,
    StreamCrashed,
    ViewerJoined,
    ViewerLeft,
    ChatMessage,
    ChatCleared,
    UserBanned,
    UserUnbanned,
    UserTimeout,
    NewFollower,
    NewSubscriber,
    Donation,
    RaidIncoming,
    RaidOutgoing,
    PollStarted,
    PollEnded,
    PredictionStarted,
    PredictionEnded,
    HypeTrainStarted,
    HypeTrainEnded,
    GoalProgress,
}

/// What a moderator does.
#[derive(Debug, Clone, Copy, PartialEq, Eq, Structural)]
pub enum ModerationActionType {
    Ban,
    Unban,
    Timeout,
    Untimeout,
    Delete,
    SlowMode,
    SlowModeOff,
    FollowersOnly,
    FollowersOnlyOff,
    SubscribersOnly,
    SubscribersOnlyOff,
    EmoteOnly,
    EmoteOnlyOff,
    ClearChat,
    Vip,
    Unvip,
    Mod,
    Unmod,
}

/// How often a scheduled stream repeats.
#[derive(Debug, Clone, Copy, PartialEq, Eq, Structural)]
pub enum RecurrenceFrequency {
    Daily,
    Weekly,
    Monthly,
}

/// Days of the week.
#[derive(Debug, Clone, Copy, PartialEq, Eq, Structural)]
pub enum WeekDay {
    Monday,
    Tuesday,
    Wednesday,
    Thursday,
    Friday,
    Saturday,
    Sunday,
}

/// Kinds of on-stream alert.
#[derive(Debug, Clone, Copy, PartialEq, Eq, Structural)]
pub enum AlertType {
    Follow,
    Subscription,
    Donation,
    Raid,
    Host,
    Bits,
    PointsRedemption,
    GoalReached,
    Custom,
}

/// States of a poll.
#[derive(Debug, Clone, Copy, PartialEq, Eq, Structural)]
pub enum PollStatus {
    Active,
    Completed,
    Cancelled,
    Archived,
}

/// States of a prediction.
#[derive(Debug, Clone, Copy, PartialEq, Eq, Structural)]
pub enum PredictionStatus {
    Active,
    Locked,
    Resolved,
    Cancelled,
}

/// Ways a viewer contributes to a hype train.
#[derive(Debug, Clone, Copy, PartialEq, Eq, Structural)]
pub enum ContributionType {
    Bits,
    Subscription,
    Donation,
    GiftSub,
}

/// What a stream goal counts.
#[derive(Debug, Clone, Copy, PartialEq, Eq, Structural)]
pub enum GoalType {
    Followers,
    Subscribers,
    Bits,
    Donations,
    ViewerTime,
    NewViewers,
    Custom,
}

/// A stretch of a recorded stream whose audio is muted.
#[derive(Debug, Clone)]
pub struct MutedSegment {
    pub start_offset: u64,
    pub duration_seconds: u64,
    pub reason: String,
}

/// Image URLs of an emote at three sizes.
#[derive(Debug, Clone)]
pub struct EmoteImages {
    pub url_1x: String,
    pub url_2x: String,
    pub url_3x: String,
}

/// Where an emote may be used.
#[derive(Debug, Clone, Copy, PartialEq, Eq, Structural)]
pub enum EmoteType {
    Global,
    Subscriber,
    Custom,
    Follower,
    BitsTier,
    Smilies,
    ChannelPoints,
}

/// An emote of the chat.
#[derive(Debug, Clone)]
pub struct ChatEmote {
    pub id: String,
    pub name: String,
    pub images: EmoteImages,
    pub tier: Option<String>,
    pub emote_type: EmoteType,
    pub is_animated: bool,
}

/// States of a watch party.
#[derive(Debug, Clone, Copy, PartialEq, Eq, Structural)]
pub enum WatchPartyStatus {
    Waiting,
    Active,
    Paused,
    Ended,
}

} // verus!
