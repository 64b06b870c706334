//! Settings, statistics and health of the live streaming services, the
//! builder that adjusts the settings, and the requests and errors of the
//! streaming services.

use vstd::prelude::*;

use crate::live_services::LiveStreamingServices;
use crate::stream_types::{LatencyMode, StreamCategory};

verus! {

/// Settings of the live streaming module.
#[derive(Debug, Clone, Copy, PartialEq, Eq, Structural)]
pub struct LiveStreamingConfig {
    /// Maximum concurrent streams per broadcaster
    pub max_streams_per_broadcaster: usize,
    /// Maximum viewers per stream
    pub max_viewers_per_stream: usize,
    /// Chat message rate limit (messages per minute)
    pub chat_rate_limit: u32,
    /// Maximum chat message length
    pub max_chat_message_length: usize,
    /// Enable hype train feature
    pub enable_hype_train: bool,
    /// Enable predictions feature
    pub enable_predictions: bool,
    /// Enable polls feature
    pub enable_polls: bool,
    /// Default stream latency mode
    pub default_latency_mode: LatencyMode,
    /// VOD retention period in days
    pub vod_retention_days: u32,
}

/// The default settings.
pub open spec fn default_live_config() -> LiveStreamingConfig {
    LiveStreamingConfig {
        max_streams_per_broadcaster: 1,
        max_viewers_per_stream: 100_000,
        chat_rate_limit: 100,
        max_chat_message_length: 500,
        enable_hype_train: true,
        enable_predictions: true,
        enable_polls: true,
        default_latency_mode: LatencyMode::LowLatency,
        vod_retention_days: 60,
    }
}

impl Default for LiveStreamingConfig {
    fn default() -> (c: LiveStreamingConfig)
        ensures
            c == default_live_config(),
    {
        LiveStreamingConfig {
            max_streams_per_broadcaster: 1,
            max_viewers_per_stream: 100_000,
            chat_rate_limit: 100,
            max_chat_message_length: 500,
            enable_hype_train: true,
            enable_predictions: true,
            enable_polls: true,
            default_latency_mode: LatencyMode::LowLatency,
            vod_retention_days: 60,
        }
    }
}

/// Counters of the live streaming service.
#[derive(Debug, Clone, Copy, PartialEq, Eq, Structural)]
pub struct StreamingStats {
    /// Total active streams
    pub active_streams: u64,
    /// Total active viewers across all streams
    pub total_viewers: u64,
    /// Total broadcasters
    pub total_broadcasters: u64,
    /// Total chat messages sent today
    pub chat_messages_today: u64,
    /// Peak concurrent viewers today
    pub peak_viewers_today: u64,
}

impl Default for StreamingStats {
    fn default() -> (s: StreamingStats)
        ensures
            s == (StreamingStats {
                active_streams: 0,
                total_viewers: 0,
                total_broadcasters: 0,
                chat_messages_today: 0,
                peak_viewers_today: 0,
            }),
    {
        StreamingStats {
            active_streams: 0,
            total_viewers: 0,
            total_broadcasters: 0,
            chat_messages_today: 0,
            peak_viewers_today: 0,
        }
    }
}

/// Which optional features are switched on.
#[derive(Debug, Clone, Copy, PartialEq, Eq, Structural)]
pub struct FeaturesEnabled {
    pub hype_train: bool,
    pub predictions: bool,
    pub polls: bool,
}

/// Health of the live streaming services.
#[derive(Debug, Clone, Copy, PartialEq, Eq, Structural)]
pub struct HealthStatus {
    /// Whether the service is healthy
    pub healthy: bool,
    /// Number of active streams
    pub active_streams: u64,
    /// Total viewers across all streams
    pub total_viewers: u64,
    /// Enabled features
    pub features_enabled: FeaturesEnabled,
}

impl HealthStatus {
    /// The health report for the given counters and settings: healthy, with
    /// the active streams and viewers counted and the features as configured.
    pub fn report(stats: &StreamingStats, config: &LiveStreamingConfig) -> (h: HealthStatus)
        ensures
            h.healthy,
            h.active_streams == stats.active_streams,
            h.total_viewers == stats.total_viewers,
            h.features_enabled == (FeaturesEnabled {
                hype_train: config.enable_hype_train,
                predictions: config.enable_predictions,
                polls: config.enable_polls,
            }),
    {
        HealthStatus {
            healthy: true,
            active_streams: stats.active_streams,
            total_viewers: stats.total_viewers,
            features_enabled: FeaturesEnabled {
                hype_train: config.enable_hype_train,
                predictions: config.enable_predictions,
                polls: config.enable_polls,
            },
        }
    }
}

/// Builds the settings of the live streaming services step by step.
pub struct LiveStreamingServicesBuilder {
    config: LiveStreamingConfig,
}

impl LiveStreamingServicesBuilder {
    /// The settings built so far.
    pub closed spec fn settings(&self) -> LiveStreamingConfig {
        self.config
    }

    /// A builder that starts from the default settings.
    pub fn new() -> (b: LiveStreamingServicesBuilder)
        ensures
            b.settings() == default_live_config(),
    {
        LiveStreamingServicesBuilder { config: LiveStreamingConfig::default() }
    }

    /// Sets how many streams a broadcaster may run at once.
    pub fn max_streams_per_broadcaster(self, max: usize) -> (b: LiveStreamingServicesBuilder)
        ensures
            b.settings() == (LiveStreamingConfig { max_streams_per_broadcaster: max, ..self.settings() }),
    {
        let mut s = self;
        s.config.max_streams_per_broadcaster = max;
        s
    }

    /// Sets how many viewers a stream may have.
    pub fn max_viewers_per_stream(self, max: usize) -> (b: LiveStreamingServicesBuilder)
        ensures
            b.settings() == (LiveStreamingConfig { max_viewers_per_stream: max, ..self.settings() }),
    {
        let mut s = self;
        s.config.max_viewers_per_stream = max;
        s
    }

    /// Sets the chat rate limit, in messages per minute.
    pub fn chat_rate_limit(self, limit: u32) -> (b: LiveStreamingServicesBuilder)
        ensures
            b.settings() == (LiveStreamingConfig { chat_rate_limit: limit, ..self.settings() }),
    {
        let mut s = self;
        s.config.chat_rate_limit = limit;
        s
    }

    /// Switches hype trains on or off.
    pub fn enable_hype_train(self, enable: bool) -> (b: LiveStreamingServicesBuilder)
        ensures
            b.settings() == (LiveStreamingConfig { enable_hype_train: enable, ..self.settings() }),
    {
        let mut s = self;
        s.config.enable_hype_train = enable;
        s
    }

    /// Switches predictions on or off.
    pub fn enable_predictions(self, enable: bool) -> (b: LiveStreamingServicesBuilder)
        ensures
            b.settings() == (LiveStreamingConfig { enable_predictions: enable, ..self.settings() }),
    {
        let mut s = self;
        s.config.enable_predictions = enable;
        s
    }

    /// Switches polls on or off.
    pub fn enable_polls(self, enable: bool) -> (b: LiveStreamingServicesBuilder)
        ensures
            b.settings() == (LiveStreamingConfig { enable_polls: enable, ..self.settings() }),
    {
        let mut s = self;
        s.config.enable_polls = enable;
        s
    }

    /// Sets the latency mode new streams start with.
    pub fn default_latency_mode(self, mode: LatencyMode) -> (b: LiveStreamingServicesBuilder)
        ensures
            b.settings() == (LiveStreamingConfig { default_latency_mode: mode, ..self.settings() }),
    {
        let mut s = self;
        s.config.default_latency_mode = mode;
        s
    }

    /// Finishes the builder: services that run with its settings, with
    /// every counter at zero.
    pub fn build(self) -> (s: LiveStreamingServices)
        ensures
            s.settings() == self.settings(),
            s.counters() == StreamingStats::zero(),
    {
        LiveStreamingServices::new(self.config)
    }
}

impl Default for LiveStreamingServicesBuilder {
    fn default() -> (b: LiveStreamingServicesBuilder)
        ensures
            b.settings() == default_live_config(),
    {
        LiveStreamingServicesBuilder::new()
    }
}

/// A request to change a broadcaster's profile; `None` leaves a field as it is.
#[derive(Debug, Clone)]
pub struct ProfileUpdate {
    pub display_name: Option<String>,
    pub avatar_url: Option<String>,
    pub bio: Option<String>,
}

impl Default for ProfileUpdate {
    fn default() -> (u: ProfileUpdate)
        ensures
            u.display_name is None,
            u.avatar_url is None,
            u.bio is None,
    {
        ProfileUpdate { display_name: None, avatar_url: None, bio: None }
    }
}

/// A request to change a stream's information; `None` leaves a field as it is.
#[derive(Debug, Clone)]
pub struct StreamInfoUpdate {
    pub title: Option<String>,
    pub description: Option<String>,
    pub category: Option<StreamCategory>,
    pub tags: Option<Vec<String>>,
    pub language: Option<String>,
    pub is_mature: Option<bool>,
}

impl Default for StreamInfoUpdate {
    fn default() -> (u: StreamInfoUpdate)
        ensures
            u.title is None,
            u.description is None,
            u.category is None,
            u.tags is None,
            u.language is None,
            u.is_mature is None,
    {
        StreamInfoUpdate {
            title: None,
            description: None,
            category: None,
            tags: None,
            language: None,
            is_mature: None,
        }
    }
}

/// Errors of the live streaming services.
#[derive(Debug, Clone, PartialEq, Eq)]
pub enum LiveStreamingError {
    StreamNotFound(String),
    BroadcasterNotFound(String),
    ViewerNotFound(String),
    InvalidStreamKey,
    StreamNotLive,
    StreamAlreadyLive,
    StreamEnded,
    EncodingError(String),
    IngestionError(String),
    NetworkError(String),
    ChatDisabled,
    UserBanned,
    UserTimeout(u32),
    MessageTooLong { max: usize },
    RateLimitExceeded,
    SlowModeActive(u32),
    FollowersOnlyMode,
    SubscribersOnlyMode,
    EmoteOnlyMode,
    Unauthorized(String),
    InsufficientPermissions,
    PollNotFound,
    PollNotActive,
    PredictionNotFound,
    PredictionNotActive,
    InvalidPollChoice,
    InvalidPredictionOutcome,
    InsufficientPoints { required: u64, have: u64 },
    HypeTrainNotActive,
    GoalNotFound,
    ClipCreationFailed(String),
    VodNotFound,
    VodProcessing,
    RaidInProgress,
    InternalError(String),
    ServiceUnavailable(String),
}

} // verus!
