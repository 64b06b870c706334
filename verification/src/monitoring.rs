//! Monitoring: telemetry events and settings, when queued telemetry is sent,
//! the counters the player keeps, and the categories profiling reports use.

use vstd::prelude::*;

use crate::plugin::{random_uuid_text, v4_hyphenated_shape};

verus! {

/// Events telemetry reports.
#[derive(Debug, Clone)]
pub enum TelemetryEvent {
    /// Application started
    AppStarted { version: String, platform: String, architecture: String },
    /// Media file opened
    MediaOpened { format: String, duration_ms: Option<u64>, has_subtitles: bool },
    /// Feature used, with context pairs.
    FeatureUsed { feature: String, context: Vec<(String, String)> },
    /// Performance metric
    Performance { operation: String, duration_ms: u64, success: bool },
    /// Error occurred
    ErrorOccurred { error_type: String, component: String },
}

/// Telemetry settings.
#[derive(Debug, Clone)]
pub struct TelemetryConfig {
    pub enabled: bool,
    /// Anonymous user ID
    pub user_id: String,
    pub session_id: String,
    pub endpoint: String,
}

impl Default for TelemetryConfig {
    /// Telemetry off, with fresh random user and session identifiers.
    fn default() -> (c: TelemetryConfig)
        ensures
            !c.enabled,
            v4_hyphenated_shape(c.user_id@),
            v4_hyphenated_shape(c.session_id@),
            c.endpoint@.len() == 0,
    {
        TelemetryConfig {
            enabled: false,
            user_id: random_uuid_text(),
            session_id: random_uuid_text(),
            endpoint: String::new(),
        }
    }
}

/// Queued events are sent once thirty seconds have passed since the last
/// sending, or once a hundred events wait.
pub open spec fn flush_due(queued: nat, since_flush_ms: u64) -> bool {
    since_flush_ms > 30_000 || queued >= 100
}

/// Events waiting to be sent.
pub struct TelemetryQueue {
    enabled: bool,
    events: Vec<TelemetryEvent>,
}

impl TelemetryQueue {
    /// The events waiting.
    pub closed spec fn waiting(&self) -> Seq<TelemetryEvent> {
        self.events@
    }

    /// Whether events are recorded.
    pub closed spec fn is_on(&self) -> bool {
        self.enabled
    }

    /// An empty queue for the given settings.
    pub fn new(config: &TelemetryConfig) -> (q: TelemetryQueue)
        ensures
            q.waiting().len() == 0,
            q.is_on() == config.enabled,
    {
        TelemetryQueue { enabled: config.enabled, events: Vec::new() }
    }

    /// Records an event unless telemetry is off; returns whether the queue
    /// is due to be sent, given the milliseconds since it was last sent.
    pub fn track(&mut self, event: TelemetryEvent, since_flush_ms: u64) -> (due: bool)
        ensures
            final(self).is_on() == old(self).is_on(),
            !old(self).is_on() ==> final(self).waiting() == old(self).waiting() && !due,
            old(self).is_on() ==> final(self).waiting() == old(self).waiting().push(event)
                && due == flush_due(final(self).waiting().len(), since_flush_ms),
    {
        if !self.enabled {
            return false;
        }
        self.events.push(event);
        since_flush_ms > 30_000 || self.events.len() >= 100
    }

    /// Hands out the waiting events and empties the queue.
    pub fn take_events(&mut self) -> (events: Vec<TelemetryEvent>)
        ensures
            events@ == old(self).waiting(),
            final(self).waiting().len() == 0,
            final(self).is_on() == old(self).is_on(),
    {
        let mut out: Vec<TelemetryEvent> = Vec::new();
        core::mem::swap(&mut out, &mut self.events);
        out
    }
}

/// Counters the player keeps.
#[derive(Debug, Clone, Copy, PartialEq, Eq, Structural)]
pub enum Counter {
    MediaPlayed,
    Errors,
    PluginsLoaded,
    Crashes,
}

/// Categories of profiled operations.
#[derive(Debug, Clone, Copy, PartialEq, Eq, Structural)]
pub enum OperationCategory {
    Rendering,
    AudioProcessing,
    VideoDecoding,
    IoOperation,
    NetworkRequest,
    PluginExecution,
    MemoryOperation,
    UserInteraction,
    SystemCall,
    Custom,
}

/// What a profile sample measures.
#[derive(Debug, Clone, PartialEq, Eq)]
pub enum SampleType {
    CpuTime,
    GpuTime,
    MemoryUsage,
    FrameTime,
    Custom(String),
}

/// Profiling settings.
#[derive(Debug, Clone)]
pub struct ProfilingConfig {
    pub sample_rate_hz: u32,
    pub max_samples: usize,
    pub track_memory: bool,
    pub track_cpu: bool,
    pub track_gpu: bool,
    pub enabled_categories: Vec<OperationCategory>,
}

impl Default for ProfilingConfig {
    fn default() -> (c: ProfilingConfig)
        ensures
            c.sample_rate_hz == 60,
            c.max_samples == 10000,
            c.track_memory,
            c.track_cpu,
            !c.track_gpu,
            c.enabled_categories@ == seq![
                OperationCategory::Rendering,
                OperationCategory::AudioProcessing,
                OperationCategory::VideoDecoding,
                OperationCategory::IoOperation,
            ],
    {
        let mut enabled_categories: Vec<OperationCategory> = Vec::new();
        enabled_categories.push(OperationCategory::Rendering);
        enabled_categories.push(OperationCategory::AudioProcessing);
        enabled_categories.push(OperationCategory::VideoDecoding);
        enabled_categories.push(OperationCategory::IoOperation);
        ProfilingConfig {
            sample_rate_hz: 60,
            max_samples: 10000,
            track_memory: true,
            track_cpu: true,
            track_gpu: false,
            enabled_categories,
        }
    }
}

/// Kinds of performance hotspot.
#[derive(Debug, Clone, Copy, PartialEq, Eq, Structural)]
pub enum HotspotType {
    CpuBound,
    MemoryBound,
    GpuBound,
    IoBound,
    LockContention,
    MemoryLeak,
    ExcessiveAllocation,
    InefficientAlgorithm,
}

/// How serious a hotspot is.
#[derive(Debug, Clone, Copy, PartialEq, Eq, Structural)]
pub enum HotspotSeverity {
    Low,
    Medium,
    High,
    Critical,
}

} // verus!
