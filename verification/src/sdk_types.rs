//! Common types of the plugin system: events, health, priorities, loading and
//! isolation policies, security contexts and capability flags.

use vstd::prelude::*;

use crate::clock::epoch_millis;
use crate::text::owned;

verus! {

/// A JSON value, carried through as it is.
#[verifier::external_type_specification]
#[verifier::external_body]
pub struct ExJsonValue(serde_json::Value);

/// The JSON value `null` (`serde_json::Value::Null`). Nothing is claimed of
/// it: Verus sees no value of this type from inside.
#[verifier::external_body]
fn json_null() -> serde_json::Value {
    serde_json::Value::Null
}

/// Plugin event types.
#[derive(Debug, Clone, Copy, PartialEq, Eq, Structural)]
pub enum PluginEventKind {
    Loaded,
    Initialized,
    Enabled,
    Disabled,
    Unloaded,
    Error,
    StateChanged,
    ConfigChanged,
}

/// Plugin health status.
#[derive(Debug, Clone, Copy, PartialEq, Eq, Structural)]
pub enum PluginHealth {
    Healthy,
    Warning,
    Error,
    Unknown,
}

/// Diagnostic severity.
#[derive(Debug, Clone, Copy, PartialEq, Eq, Structural)]
pub enum DiagnosticSeverity {
    Error,
    Warning,
    Info,
    Hint,
}

/// A diagnostic message about a plugin.
#[derive(Debug, Clone)]
pub struct DiagnosticMessage {
    pub severity: DiagnosticSeverity,
    pub code: Option<String>,
    pub message: String,
    pub timestamp: u64,
}

/// Plugin priority for ordering, from lowest to highest.
#[derive(Debug, Clone, Copy, PartialEq, Eq, PartialOrd, Ord, Hash)]
pub enum PluginPriority {
    Lowest,
    Low,
    Normal,
    High,
    Highest,
}

/// The rank of a priority: 0 for the lowest up to 4 for the highest.
pub open spec fn priority_rank(p: PluginPriority) -> u8 {
    match p {
        PluginPriority::Lowest => 0,
        PluginPriority::Low => 1,
        PluginPriority::Normal => 2,
        PluginPriority::High => 3,
        PluginPriority::Highest => 4,
    }
}

impl PluginPriority {
    /// The rank of this priority: 0 for the lowest up to 4 for the highest.
    pub fn rank(&self) -> (r: u8)
        ensures
            r == priority_rank(*self),
    {
        match self {
            PluginPriority::Lowest => 0,
            PluginPriority::Low => 1,
            PluginPriority::Normal => 2,
            PluginPriority::High => 3,
            PluginPriority::Highest => 4,
        }
    }

    /// Whether this priority ranks above `other`.
    pub fn outranks(&self, other: &PluginPriority) -> (r: bool)
        ensures
            r == (priority_rank(*self) > priority_rank(*other)),
    {
        self.rank() > other.rank()
    }
}

impl Default for PluginPriority {
    fn default() -> (p: PluginPriority)
        ensures
            priority_rank(p) == 2,
    {
        PluginPriority::Normal
    }
}

/// When plugins are loaded.
#[derive(Debug, Clone, Copy, PartialEq, Eq, Structural)]
pub enum LoadStrategy {
    OnDemand,
    Eager,
    Lazy,
}

impl Default for LoadStrategy {
    fn default() -> (s: LoadStrategy)
        ensures
            s == LoadStrategy::OnDemand,
    {
        LoadStrategy::OnDemand
    }
}

/// What happens when two plugins claim the same thing.
#[derive(Debug, Clone, Copy, PartialEq, Eq, Structural)]
pub enum ConflictResolution {
    FirstWins,
    LastWins,
    PriorityWins,
    NewerWins,
    Fail,
}

impl Default for ConflictResolution {
    fn default() -> (c: ConflictResolution)
        ensures
            c == ConflictResolution::PriorityWins,
    {
        ConflictResolution::PriorityWins
    }
}

/// How strongly a plugin is isolated.
#[derive(Debug, Clone, Copy, PartialEq, Eq, Structural)]
pub enum IsolationLevel {
    /// Shared memory, no isolation.
    NoIsolation,
    Process,
    Sandbox,
    Container,
}

impl Default for IsolationLevel {
    fn default() -> (l: IsolationLevel)
        ensures
            l == IsolationLevel::NoIsolation,
    {
        IsolationLevel::NoIsolation
    }
}

/// What a plugin may access.
#[derive(Debug, Clone)]
pub struct SecurityContext {
    pub filesystem_access: bool,
    pub network_access: bool,
    pub allowed_paths: Vec<String>,
    pub allowed_hosts: Vec<String>,
    /// Maximum memory usage (bytes).
    pub max_memory: Option<u64>,
    /// Maximum CPU time (milliseconds).
    pub max_cpu_time: Option<u64>,
}

impl Default for SecurityContext {
    /// Nothing is allowed and nothing is limited.
    fn default() -> (c: SecurityContext)
        ensures
            !c.filesystem_access,
            !c.network_access,
            c.allowed_paths@.len() == 0,
            c.allowed_hosts@.len() == 0,
            c.max_memory is None,
            c.max_cpu_time is None,
    {
        SecurityContext {
            filesystem_access: false,
            network_access: false,
            allowed_paths: Vec::new(),
            allowed_hosts: Vec::new(),
            max_memory: None,
            max_cpu_time: None,
        }
    }
}

/// Resources a plugin uses.
#[derive(Debug, Clone, Copy, PartialEq, Eq, Structural)]
pub struct ResourceUsage {
    pub memory_bytes: u64,
    pub cpu_time_ms: u64,
    pub thread_count: u32,
    pub open_files: u32,
    pub network_sent: u64,
    pub network_recv: u64,
}

impl Default for ResourceUsage {
    fn default() -> (r: ResourceUsage)
        ensures
            r == (ResourceUsage {
                memory_bytes: 0,
                cpu_time_ms: 0,
                thread_count: 0,
                open_files: 0,
                network_sent: 0,
                network_recv: 0,
            }),
    {
        ResourceUsage {
            memory_bytes: 0,
            cpu_time_ms: 0,
            thread_count: 0,
            open_files: 0,
            network_sent: 0,
            network_recv: 0,
        }
    }
}

/// Cached data of a plugin.
#[derive(Debug, Clone)]
pub struct PluginCacheEntry {
    pub plugin_id: String,
    pub version: String,
    pub timestamp: u64,
    pub data: Vec<u8>,
}

/// Points in playback where a plugin can hook in.
#[derive(Debug, Clone, Copy, PartialEq, Eq, Hash, Structural)]
pub enum HookType {
    BeforePlay,
    AfterPlay,
    BeforePause,
    AfterPause,
    BeforeStop,
    AfterStop,
    BeforeSeek,
    AfterSeek,
    BeforeVolumeChange,
    AfterVolumeChange,
    BeforeLoad,
    AfterLoad,
    Custom,
}

/// A set of plugin capabilities, one bit each.
#[derive(Debug, Clone, Copy, PartialEq, Eq, Structural)]
pub struct CapabilityFlags {
    pub bits: u32,
}

impl CapabilityFlags {
    /// No capabilities.
    pub const NONE: u32 = 0;
    /// Can handle media playback.
    pub const MEDIA_PLAYBACK: u32 = 1;
    /// Can decode media.
    pub const MEDIA_DECODING: u32 = 2;
    /// Can extend UI.
    pub const UI_EXTENSION: u32 = 4;
    /// Can provide metadata.
    pub const METADATA_PROVIDER: u32 = 8;
    /// Can handle network streams.
    pub const NETWORK_HANDLER: u32 = 16;
    /// Can handle subtitles.
    pub const SUBTITLE_HANDLER: u32 = 32;
    /// Can process audio.
    pub const AUDIO_PROCESSOR: u32 = 64;
    /// Can process video.
    pub const VIDEO_PROCESSOR: u32 = 128;
    /// Can handle keyboard shortcuts.
    pub const KEYBOARD_SHORTCUTS: u32 = 256;
    /// Can show notifications.
    pub const NOTIFICATIONS: u32 = 512;
    /// All capabilities.
    pub const ALL: u32 = 0xFFFF_FFFF;

    /// The set with exactly the given bits.
    pub fn from_bits(bits: u32) -> (r: CapabilityFlags)
        ensures
            r.bits == bits,
    {
        CapabilityFlags { bits }
    }

    /// The bits of the set.
    pub fn bits(&self) -> (r: u32)
        ensures
            r == self.bits,
    {
        self.bits
    }

    /// The set holding the capabilities of both sets.
    pub fn union(self, other: CapabilityFlags) -> (r: CapabilityFlags)
        ensures
            r.bits == self.bits | other.bits,
    {
        CapabilityFlags { bits: self.bits | other.bits }
    }

    /// The set holding the capabilities both sets share.
    pub fn intersection(self, other: CapabilityFlags) -> (r: CapabilityFlags)
        ensures
            r.bits == self.bits & other.bits,
    {
        CapabilityFlags { bits: self.bits & other.bits }
    }

    /// Whether every capability of `other` is in this set.
    pub fn contains(&self, other: CapabilityFlags) -> (r: bool)
        ensures
            r == (self.bits & other.bits == other.bits),
    {
        self.bits & other.bits == other.bits
    }

    /// Whether the set is empty.
    pub fn is_empty(&self) -> (r: bool)
        ensures
            r == (self.bits == 0),
    {
        self.bits == 0
    }
}

impl Default for CapabilityFlags {
    fn default() -> (f: CapabilityFlags)
        ensures
            f.bits == 0,
    {
        CapabilityFlags { bits: 0 }
    }
}

/// A union contains both of its parts.
pub proof fn law_union_contains_parts(a: CapabilityFlags, b: CapabilityFlags)
    ensures
        (a.bits | b.bits) & a.bits == a.bits,
        (a.bits | b.bits) & b.bits == b.bits,
{
    let x = a.bits;
    let y = b.bits;
    assert((x | y) & x == x) by (bit_vector);
    assert((x | y) & y == y) by (bit_vector);
}

/// An event of a plugin, with its extra data by name.
#[derive(Debug)]
pub struct PluginEventData {
    pub kind: PluginEventKind,
    pub plugin_id: String,
    /// Unix milliseconds
    pub timestamp: u64,
    /// Additional event data, by name
    pub data: Vec<(String, serde_json::Value)>,
}

/// Counters of a plugin's life.
#[derive(Debug, Clone)]
pub struct PluginStats {
    pub load_count: u64,
    pub enable_count: u64,
    /// Total time the plugin was active (seconds)
    pub active_time_secs: u64,
    pub error_count: u64,
    pub last_error: Option<String>,
    /// Memory usage in bytes
    pub memory_usage: u64,
    /// CPU time used (milliseconds)
    pub cpu_time_ms: u64,
}

impl Default for PluginStats {
    fn default() -> (s: PluginStats)
        ensures
            s.load_count == 0 && s.enable_count == 0 && s.active_time_secs == 0 && s.error_count == 0,
            s.last_error is None,
            s.memory_usage == 0 && s.cpu_time_ms == 0,
    {
        PluginStats {
            load_count: 0,
            enable_count: 0,
            active_time_secs: 0,
            error_count: 0,
            last_error: None,
            memory_usage: 0,
            cpu_time_ms: 0,
        }
    }
}

/// What is known of a plugin's health.
#[derive(Debug, Clone)]
pub struct PluginDiagnostics {
    pub plugin_id: String,
    pub health: PluginHealth,
    pub messages: Vec<DiagnosticMessage>,
    pub stats: PluginStats,
}

/// A message from one plugin to another, or to all of them.
#[derive(Debug)]
pub struct PluginMessage {
    /// Source plugin ID
    pub from: String,
    /// Target plugin ID (or "broadcast")
    pub to: String,
    pub message_type: String,
    pub payload: serde_json::Value,
    /// Unix milliseconds
    pub timestamp: u64,
}

impl PluginMessage {
    /// A message sent at `timestamp` with a null payload.
    pub fn new_at(from: &str, to: &str, message_type: &str, timestamp: u64) -> (m: PluginMessage)
        ensures
            m.from@ == from@,
            m.to@ == to@,
            m.message_type@ == message_type@,
            m.timestamp == timestamp,
    {
        PluginMessage {
            from: owned(from),
            to: owned(to),
            message_type: owned(message_type),
            payload: json_null(),
            timestamp,
        }
    }

    /// A message sent now, stamped with the system clock's Unix
    /// milliseconds cut to 64 bits (zero before the epoch), with a null
    /// payload.
    pub fn new(from: &str, to: &str, message_type: &str) -> (m: PluginMessage)
        ensures
            m.from@ == from@,
            m.to@ == to@,
            m.message_type@ == message_type@,
    {
        let timestamp: u64 = match epoch_millis() {
            Some(ms) => ms as u64,
            None => 0,
        };
        PluginMessage::new_at(from, to, message_type, timestamp)
    }

    /// The message with the given payload.
    pub fn with_payload(self, payload: serde_json::Value) -> (m: PluginMessage)
        ensures
            m == (PluginMessage { payload, ..self }),
    {
        let mut m = self;
        m.payload = payload;
        m
    }

    /// A message to every plugin.
    pub fn broadcast(from: &str, message_type: &str) -> (m: PluginMessage)
        ensures
            m.from@ == from@,
            m.to@ == "broadcast"@,
            m.message_type@ == message_type@,
    {
        PluginMessage::new(from, "broadcast", message_type)
    }
}

/// What a hook tells the player to do.
#[derive(Debug)]
pub enum HookResult {
    /// Continue with normal processing
    Continue,
    /// Skip normal processing
    Skip,
    /// Replace the result with custom data
    Replace(serde_json::Value),
    /// Return an error
    Error(String),
}

} // verus!
