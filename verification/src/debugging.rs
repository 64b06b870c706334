//! Debugging tools for plugin development: log messages with levels and
//! context, breakpoints, snapshots of plugin state, and a controller that
//! keeps a bounded log per plugin and the breakpoints that are set.

use vstd::prelude::*;

use crate::clock::epoch_millis;
use crate::text::{copy_opt_string, owned, string_equals_str, strings_equal};

verus! {

/// Log level for plugin debug messages, from least to most severe.
#[derive(Debug, Clone, Copy, PartialEq, Eq, Hash, Structural)]
pub enum DebugLogLevel {
    Trace,
    Debug,
    Info,
    Warn,
    Error,
}

/// Severity rank of a level: 0 for trace up to 4 for error.
pub open spec fn level_rank(l: DebugLogLevel) -> u8 {
    match l {
        DebugLogLevel::Trace => 0,
        DebugLogLevel::Debug => 1,
        DebugLogLevel::Info => 2,
        DebugLogLevel::Warn => 3,
        DebugLogLevel::Error => 4,
    }
}

impl DebugLogLevel {
    /// Severity rank: 0 for trace up to 4 for error.
    pub fn rank(&self) -> (r: u8)
        ensures
            r == level_rank(*self),
    {
        match self {
            DebugLogLevel::Trace => 0,
            DebugLogLevel::Debug => 1,
            DebugLogLevel::Info => 2,
            DebugLogLevel::Warn => 3,
            DebugLogLevel::Error => 4,
        }
    }

    /// The level's name in capitals, as it is displayed.
    pub fn name(&self) -> (s: &'static str)
        ensures
            s@ == level_name(*self),
    {
        match self {
            DebugLogLevel::Trace => "TRACE",
            DebugLogLevel::Debug => "DEBUG",
            DebugLogLevel::Info => "INFO",
            DebugLogLevel::Warn => "WARN",
            DebugLogLevel::Error => "ERROR",
        }
    }
}

/// Displayed name of a level.
pub open spec fn level_name(l: DebugLogLevel) -> Seq<char> {
    match l {
        DebugLogLevel::Trace => "TRACE"@,
        DebugLogLevel::Debug => "DEBUG"@,
        DebugLogLevel::Info => "INFO"@,
        DebugLogLevel::Warn => "WARN"@,
        DebugLogLevel::Error => "ERROR"@,
    }
}

/// Key/value pairs by their texts.
pub open spec fn pairs_view(ctx: Seq<(String, String)>) -> Seq<(Seq<char>, Seq<char>)> {
    ctx.map_values(|p: (String, String)| (p.0@, p.1@))
}

/// Position of the first pair with the given key, if any.
pub open spec fn key_position(ctx: Seq<(Seq<char>, Seq<char>)>, key: Seq<char>) -> Option<int> {
    if exists|i: int| 0 <= i < ctx.len() && (#[trigger] ctx[i]).0 == key {
        Some(choose|i: int| 0 <= i < ctx.len() && (#[trigger] ctx[i]).0 == key
            && forall|j: int| 0 <= j < i ==> (#[trigger] ctx[j]).0 != key)
    } else {
        None
    }
}

/// The pairs after setting `key` to `value`: the first pair with that key
/// gets the new value, or the pair is added at the end.
pub open spec fn set_pair(ctx: Seq<(Seq<char>, Seq<char>)>, key: Seq<char>, value: Seq<char>) -> Seq<(Seq<char>, Seq<char>)> {
    match key_position(ctx, key) {
        Some(i) => ctx.update(i, (key, value)),
        None => ctx.push((key, value)),
    }
}

/// The value the context gives `key`: that of its first pair with that
/// key.
pub open spec fn context_value(ctx: Seq<(Seq<char>, Seq<char>)>, key: Seq<char>) -> Option<Seq<char>> {
    match key_position(ctx, key) {
        Some(i) => Some(ctx[i].1),
        None => None,
    }
}

/// The first pair with `key` is at `p`.
proof fn lemma_key_position_is(ctx: Seq<(Seq<char>, Seq<char>)>, key: Seq<char>, p: int)
    requires
        0 <= p < ctx.len(),
        ctx[p].0 == key,
        forall|j: int| 0 <= j < p ==> (#[trigger] ctx[j]).0 != key,
    ensures
        key_position(ctx, key) == Some(p),
{
    let c = choose|i: int| 0 <= i < ctx.len() && (#[trigger] ctx[i]).0 == key
        && forall|j: int| 0 <= j < i ==> (#[trigger] ctx[j]).0 != key;
    assert(0 <= c < ctx.len() && ctx[c].0 == key && forall|j: int| 0 <= j < c ==> (#[trigger] ctx[j]).0 != key);
    if c < p {
        assert(ctx[c].0 != key);
    }
    if p < c {
        assert(ctx[p].0 != key);
    }
}

/// Where some pair has `key`, a first one has it.
proof fn lemma_first_key_exists(ctx: Seq<(Seq<char>, Seq<char>)>, key: Seq<char>, i: int)
    requires
        0 <= i < ctx.len(),
        ctx[i].0 == key,
    ensures
        exists|p: int| 0 <= p < ctx.len() && (#[trigger] ctx[p]).0 == key
            && forall|j: int| 0 <= j < p ==> (#[trigger] ctx[j]).0 != key,
    decreases i,
{
    if exists|j: int| 0 <= j < i && (#[trigger] ctx[j]).0 == key {
        let j = choose|j: int| 0 <= j < i && (#[trigger] ctx[j]).0 == key;
        lemma_first_key_exists(ctx, key, j);
    } else {
        assert(forall|j: int| 0 <= j < i ==> (#[trigger] ctx[j]).0 != key);
    }
}

/// A key some pair has is found at its first pair.
proof fn lemma_key_position_some(ctx: Seq<(Seq<char>, Seq<char>)>, key: Seq<char>)
    requires
        key_position(ctx, key) is Some,
    ensures
        key_position(ctx, key) matches Some(i) && 0 <= i < ctx.len() && ctx[i].0 == key
            && forall|j: int| 0 <= j < i ==> (#[trigger] ctx[j]).0 != key,
{
    let w = choose|i: int| 0 <= i < ctx.len() && (#[trigger] ctx[i]).0 == key;
    lemma_first_key_exists(ctx, key, w);
}

/// No pair has `key`.
proof fn lemma_key_position_none(ctx: Seq<(Seq<char>, Seq<char>)>, key: Seq<char>)
    requires
        forall|j: int| 0 <= j < ctx.len() ==> (#[trigger] ctx[j]).0 != key,
    ensures
        key_position(ctx, key) is None,
{
}

/// Setting a context value acts as a map update: afterwards `key` gives
/// `value`, and every other key gives what it gave before.
pub proof fn law_context_update(ctx: Seq<(Seq<char>, Seq<char>)>, key: Seq<char>, value: Seq<char>, other: Seq<char>)
    ensures
        context_value(set_pair(ctx, key, value), key) == Some(value),
        other != key ==> context_value(set_pair(ctx, key, value), other) == context_value(ctx, other),
{
    let n = set_pair(ctx, key, value);
    match key_position(ctx, key) {
        Some(i) => {
            lemma_key_position_some(ctx, key);
            assert forall|j: int| 0 <= j < i implies (#[trigger] n[j]).0 != key by {
                assert(n[j] == ctx[j]);
            }
            lemma_key_position_is(n, key, i);
        },
        None => {
            assert(forall|j: int| 0 <= j < ctx.len() ==> (#[trigger] ctx[j]).0 != key);
            assert forall|j: int| 0 <= j < ctx.len() implies (#[trigger] n[j]).0 != key by {
                assert(n[j] == ctx[j]);
            }
            lemma_key_position_is(n, key, ctx.len() as int);
        },
    }
    if other != key {
        assert forall|j: int| 0 <= j < n.len() && (#[trigger] n[j]).0 == other implies j < ctx.len() && n[j] == ctx[j] by {}
        match key_position(ctx, other) {
            Some(p) => {
                lemma_key_position_some(ctx, other);
                assert(n[p] == ctx[p]);
                assert forall|j: int| 0 <= j < p implies (#[trigger] n[j]).0 != other by {
                    if n[j].0 == other {
                        assert(n[j] == ctx[j]);
                    }
                }
                lemma_key_position_is(n, other, p);
            },
            None => {
                assert(forall|j: int| 0 <= j < ctx.len() ==> (#[trigger] ctx[j]).0 != other);
                assert forall|j: int| 0 <= j < n.len() implies (#[trigger] n[j]).0 != other by {
                    if n[j].0 == other {
                        assert(n[j] == ctx[j]);
                    }
                }
                lemma_key_position_none(n, other);
            },
        }
    }
}

/// Sets `key` to `value` in a list of pairs.
fn put_pair(ctx: &mut Vec<(String, String)>, key: &str, value: &str)
    ensures
        pairs_view(final(ctx)@) == set_pair(pairs_view(old(ctx)@), key@, value@),
{
    let ghost v = pairs_view(ctx@);
    let mut i: usize = 0;
    while i < ctx.len()
        invariant
            i <= ctx@.len(),
            ctx@ == old(ctx)@,
            v == pairs_view(ctx@),
            forall|j: int| 0 <= j < i ==> (#[trigger] v[j]).0 != key@,
        decreases ctx@.len() - i,
    {
        if string_equals_str(&ctx[i].0, key) {
            proof {
                let k = i as int;
                assert(v[k].0 == key@);
                let c = choose|c: int| 0 <= c < v.len() && (#[trigger] v[c]).0 == key@
                    && forall|j: int| 0 <= j < c ==> (#[trigger] v[j]).0 != key@;
                if c > k {
                    assert(v[k].0 != key@);
                }
                assert(c == k);
            }
            ctx.set(i, (owned(key), owned(value)));
            proof {
                assert(pairs_view(ctx@) =~= v.update(i as int, (key@, value@)));
            }
            return;
        }
        i = i + 1;
    }
    ctx.push((owned(key), owned(value)));
    proof {
        assert(pairs_view(ctx@) =~= v.push((key@, value@)));
    }
}

/// A debug log message.
#[derive(Debug)]
pub struct DebugLogMessage {
    pub plugin_id: String,
    pub level: DebugLogLevel,
    pub message: String,
    /// Milliseconds since the Unix epoch when the message was made.
    pub timestamp_ms: u64,
    pub file: Option<String>,
    pub line: Option<u32>,
    /// Context pairs; a key appears at most once when set through `with_context`.
    pub context: Vec<(String, String)>,
}

impl DebugLogMessage {
    /// A message from `plugin_id` at `level`, stamped with the current time
    /// (0 when the clock is set before the epoch), without location or context.
    pub fn new(plugin_id: &str, level: DebugLogLevel, message: &str) -> (m: DebugLogMessage)
        ensures
            m.plugin_id@ == plugin_id@,
            m.level == level,
            m.message@ == message@,
            m.file is None,
            m.line is None,
            m.context@.len() == 0,
    {
        let timestamp_ms: u64 = match epoch_millis() {
            Some(ms) => ms as u64,
            None => 0,
        };
        DebugLogMessage {
            plugin_id: owned(plugin_id),
            level,
            message: owned(message),
            timestamp_ms,
            file: None,
            line: None,
            context: Vec::new(),
        }
    }

    /// The same message with a source location.
    pub fn with_location(self, file: &str, line: u32) -> (m: DebugLogMessage)
        ensures
            m == (DebugLogMessage { file: m.file, line: Some(line), ..self }),
            m.file matches Some(f) && f@ == file@,
    {
        let mut s = self;
        s.file = Some(owned(file));
        s.line = Some(line);
        s
    }

    /// The same message with `key` set to `value` in its context.
    pub fn with_context(self, key: &str, value: &str) -> (m: DebugLogMessage)
        ensures
            m == (DebugLogMessage { context: m.context, ..self }),
            pairs_view(m.context@) == set_pair(pairs_view(self.context@), key@, value@),
    {
        let mut s = self;
        put_pair(&mut s.context, key, value);
        s
    }
}

/// What `with_context` gives is the message with its context updated as a
/// map: `key` reads `value`, every other key reads what it read before, and
/// the other fields stay.
pub proof fn law_with_context(m: DebugLogMessage, n: DebugLogMessage, key: Seq<char>, value: Seq<char>, other: Seq<char>)
    requires
        n == (DebugLogMessage { context: n.context, ..m }),
        pairs_view(n.context@) == set_pair(pairs_view(m.context@), key, value),
    ensures
        context_value(pairs_view(n.context@), key) == Some(value),
        other != key ==> context_value(pairs_view(n.context@), other) == context_value(pairs_view(m.context@), other),
        n.plugin_id == m.plugin_id && n.level == m.level && n.message == m.message && n.timestamp_ms == m.timestamp_ms
            && n.file == m.file && n.line == m.line,
{
    law_context_update(pairs_view(m.context@), key, value, other);
}

/// A breakpoint in plugin code.
#[derive(Debug)]
pub struct Breakpoint {
    pub id: u32,
    pub plugin_id: String,
    pub file: String,
    pub line: u32,
    pub condition: Option<String>,
    pub hit_count: u32,
    pub enabled: bool,
}

impl Breakpoint {
    /// An enabled, unconditional breakpoint that was never hit.
    pub fn new(id: u32, plugin_id: &str, file: &str, line: u32) -> (b: Breakpoint)
        ensures
            b.id == id,
            b.plugin_id@ == plugin_id@,
            b.file@ == file@,
            b.line == line,
            b.condition is None,
            b.hit_count == 0,
            b.enabled,
    {
        Breakpoint {
            id,
            plugin_id: owned(plugin_id),
            file: owned(file),
            line,
            condition: None,
            hit_count: 0,
            enabled: true,
        }
    }

    /// The same breakpoint with a condition.
    pub fn with_condition(self, condition: &str) -> (b: Breakpoint)
        ensures
            b == (Breakpoint { condition: b.condition, ..self }),
            b.condition matches Some(c) && c@ == condition@,
    {
        let mut s = self;
        s.condition = Some(owned(condition));
        s
    }

    /// A copy of the breakpoint.
    pub fn duplicate(&self) -> (b: Breakpoint)
        ensures
            b == *self,
    {
        Breakpoint {
            id: self.id,
            plugin_id: self.plugin_id.clone(),
            file: self.file.clone(),
            line: self.line,
            condition: copy_opt_string(&self.condition),
            hit_count: self.hit_count,
            enabled: self.enabled,
        }
    }
}

/// Plugin status as the debugger sees it.
#[derive(Debug, Clone, Copy, PartialEq, Eq, Structural)]
pub enum PluginStatus {
    Loading,
    Running,
    Paused,
    Error,
    Unloaded,
}

/// A frame of a call stack.
#[derive(Debug)]
pub struct StackFrame {
    pub function: String,
    pub file: Option<String>,
    pub line: Option<u32>,
    pub column: Option<u32>,
    pub locals: Vec<(String, String)>,
}

/// A memory region of a plugin.
#[derive(Debug)]
pub struct MemoryRegion {
    pub name: String,
    pub address: u64,
    pub size: u64,
    pub read_only: bool,
    pub contents: Option<Vec<u8>>,
}

/// Snapshot of a plugin's state.
#[derive(Debug)]
pub struct PluginState {
    pub plugin_id: String,
    pub name: String,
    pub version: String,
    pub status: PluginStatus,
    pub memory_used: u64,
    pub cpu_time_ms: u64,
    pub messages_processed: u64,
    pub errors_count: u64,
    pub last_activity_ms: u64,
    pub exported_functions: Vec<String>,
    pub memory_regions: Vec<MemoryRegion>,
    pub call_stack: Vec<StackFrame>,
}

/// What the debugger knows when a breakpoint is hit.
#[derive(Debug)]
pub struct BreakpointHit {
    pub breakpoint: Breakpoint,
    pub state: PluginState,
    pub call_stack: Vec<StackFrame>,
    pub locals: Vec<(String, String)>,
    pub timestamp_ms: u64,
}

/// Debug configuration.
#[derive(Debug, Clone, Copy, PartialEq, Eq, Structural)]
pub struct DebugConfig {
    /// How many messages are kept per plugin; older ones are dropped.
    pub max_logs_per_plugin: usize,
    pub auto_capture_state: bool,
    /// Messages below this level are not kept.
    pub min_log_level: DebugLogLevel,
    pub track_performance: bool,
    pub break_on_exceptions: bool,
    pub break_on_unhandled: bool,
}

/// The default debug configuration.
pub open spec fn default_debug_config() -> DebugConfig {
    DebugConfig {
        max_logs_per_plugin: 1000,
        auto_capture_state: true,
        min_log_level: DebugLogLevel::Debug,
        track_performance: true,
        break_on_exceptions: true,
        break_on_unhandled: false,
    }
}

impl Default for DebugConfig {
    fn default() -> (c: DebugConfig)
        ensures
            c == default_debug_config(),
    {
        DebugConfig {
            max_logs_per_plugin: 1000,
            auto_capture_state: true,
            min_log_level: DebugLogLevel::Debug,
            track_performance: true,
            break_on_exceptions: true,
            break_on_unhandled: false,
        }
    }
}

/// A snapshot of a debug session.
#[derive(Debug)]
pub struct DebugSession {
    pub id: String,
    pub created_at: String,
    pub breakpoints: Vec<Breakpoint>,
    pub plugin_states: Vec<PluginState>,
    pub recent_logs: Vec<DebugLogMessage>,
}

/// Hooks a debugger front end implements to be told what happens.
pub trait PluginDebugger {
    fn on_breakpoint(&self, hit: &BreakpointHit);
    fn on_log(&self, message: &DebugLogMessage);
    fn on_state_change(&self, plugin_id: &str, old_status: PluginStatus, new_status: PluginStatus);
    fn on_exception(&self, plugin_id: &str, exception: &str);
}

/// The messages kept of one plugin.
struct PluginLog {
    plugin_id: String,
    messages: Vec<DebugLogMessage>,
}

/// The last `max` elements of `s` (all of them when there are fewer).
pub open spec fn keep_last<A>(s: Seq<A>, max: nat) -> Seq<A> {
    if s.len() > max {
        s.subrange(s.len() - max, s.len() as int)
    } else {
        s
    }
}

/// Whether a breakpoint is an enabled one at the given place.
pub open spec fn breaks_at(b: Breakpoint, plugin_id: Seq<char>, file: Seq<char>, line: u32) -> bool {
    b.plugin_id@ == plugin_id && b.file@ == file && b.line == line && b.enabled
}

/// The messages kept of a plugin in a list of logs.
spec fn lookup_log(logs: Seq<PluginLog>, plugin_id: Seq<char>) -> Seq<DebugLogMessage> {
    if exists|i: int| 0 <= i < logs.len() && (#[trigger] logs[i]).plugin_id@ == plugin_id {
        let i = choose|i: int| 0 <= i < logs.len() && (#[trigger] logs[i]).plugin_id@ == plugin_id;
        logs[i].messages@
    } else {
        Seq::empty()
    }
}

/// Position of the state reported for a plugin, if any.
pub open spec fn state_position(states: Seq<PluginState>, plugin_id: Seq<char>) -> Option<int> {
    if exists|i: int| 0 <= i < states.len() && (#[trigger] states[i]).plugin_id@ == plugin_id {
        Some(choose|i: int| 0 <= i < states.len() && (#[trigger] states[i]).plugin_id@ == plugin_id)
    } else {
        None
    }
}

/// Logging a message into a log with a positive limit keeps that message as
/// the newest one and never keeps more messages than the limit.
pub proof fn law_log_bounded_and_newest(log: Seq<DebugLogMessage>, message: DebugLogMessage, max: nat)
    requires
        max > 0,
    ensures
        keep_last(log.push(message), max).len() <= max,
        keep_last(log.push(message), max).last() == message,
        keep_last(log.push(message), max).len() <= log.len() + 1,
{
}

/// Keeps a bounded log per plugin, the breakpoints that are set, and the
/// last reported state of each plugin.
pub struct PluginDebugController {
    breakpoints: Vec<Breakpoint>,
    logs: Vec<PluginLog>,
    plugin_states: Vec<PluginState>,
    config: DebugConfig,
    next_breakpoint_id: u32,
}

impl PluginDebugController {
    /// The configuration in use.
    pub closed spec fn settings(&self) -> DebugConfig {
        self.config
    }

    /// The messages kept of a plugin, oldest first.
    pub closed spec fn logs_of(&self, plugin_id: Seq<char>) -> Seq<DebugLogMessage> {
        lookup_log(self.logs@, plugin_id)
    }

    /// The breakpoints that are set, in the order they were added.
    pub closed spec fn breakpoint_list(&self) -> Seq<Breakpoint> {
        self.breakpoints@
    }

    /// The identifier the next breakpoint gets.
    pub closed spec fn next_id(&self) -> u32 {
        self.next_breakpoint_id
    }

    /// The states reported, one per plugin.
    pub closed spec fn state_list(&self) -> Seq<PluginState> {
        self.plugin_states@
    }

    /// Internal consistency: one log and one state per plugin, breakpoint
    /// identifiers increasing and below the next one.
    pub closed spec fn wf(&self) -> bool {
        &&& forall|i: int, j: int| 0 <= i < j < self.logs@.len()
            ==> (#[trigger] self.logs@[i]).plugin_id@ != (#[trigger] self.logs@[j]).plugin_id@
        &&& forall|i: int, j: int| 0 <= i < j < self.plugin_states@.len()
            ==> (#[trigger] self.plugin_states@[i]).plugin_id@ != (#[trigger] self.plugin_states@[j]).plugin_id@
        &&& forall|i: int, j: int| 0 <= i < j < self.breakpoints@.len()
            ==> (#[trigger] self.breakpoints@[i]).id < (#[trigger] self.breakpoints@[j]).id
        &&& forall|i: int| 0 <= i < self.breakpoints@.len() ==> (#[trigger] self.breakpoints@[i]).id < self.next_breakpoint_id
        &&& self.next_breakpoint_id >= 1
    }

    /// A controller with the given configuration, or the default one.
    pub fn new(config: Option<DebugConfig>) -> (c: PluginDebugController)
        ensures
            c.wf(),
            c.settings() == match config {
                Some(cfg) => cfg,
                None => default_debug_config(),
            },
            forall|p: Seq<char>| (#[trigger] c.logs_of(p)).len() == 0,
            c.breakpoint_list().len() == 0,
            c.state_list().len() == 0,
            c.next_id() == 1,
    {
        let config = match config {
            Some(cfg) => cfg,
            None => DebugConfig::default(),
        };
        PluginDebugController {
            breakpoints: Vec::new(),
            logs: Vec::new(),
            plugin_states: Vec::new(),
            config,
            next_breakpoint_id: 1,
        }
    }

    /// Position of a plugin's log, if it has one.
    fn log_index(&self, plugin_id: &String) -> (r: Option<usize>)
        requires
            self.wf(),
        ensures
            match r {
                Some(i) => i < self.logs@.len() && self.logs@[i as int].plugin_id@ == plugin_id@,
                None => forall|i: int| 0 <= i < self.logs@.len() ==> (#[trigger] self.logs@[i]).plugin_id@ != plugin_id@,
            },
    {
        let mut i: usize = 0;
        while i < self.logs.len()
            invariant
                i <= self.logs@.len(),
                forall|j: int| 0 <= j < i ==> (#[trigger] self.logs@[j]).plugin_id@ != plugin_id@,
            decreases self.logs@.len() - i,
        {
            if strings_equal(&self.logs[i].plugin_id, plugin_id) {
                return Some(i);
            }
            i = i + 1;
        }
        None
    }

    /// Records a message. Messages below the configured minimum level are
    /// dropped; otherwise the message is appended to its plugin's log, and
    /// the oldest messages are dropped while the log is longer than the
    /// configured maximum. The logs of other plugins are unchanged.
    pub fn log(&mut self, message: DebugLogMessage)
        requires
            old(self).wf(),
        ensures
            final(self).wf(),
            final(self).settings() == old(self).settings(),
            final(self).breakpoint_list() == old(self).breakpoint_list(),
            final(self).next_id() == old(self).next_id(),
            final(self).state_list() == old(self).state_list(),
            level_rank(message.level) < level_rank(old(self).settings().min_log_level) ==>
                forall|p: Seq<char>| #[trigger] final(self).logs_of(p) == old(self).logs_of(p),
            level_rank(message.level) >= level_rank(old(self).settings().min_log_level) ==> {
                &&& final(self).logs_of(message.plugin_id@) == keep_last(
                    old(self).logs_of(message.plugin_id@).push(message),
                    old(self).settings().max_logs_per_plugin as nat,
                )
                &&& forall|p: Seq<char>| p != message.plugin_id@
                    ==> #[trigger] final(self).logs_of(p) == old(self).logs_of(p)
            },
    {
        if message.level.rank() < self.config.min_log_level.rank() {
            return;
        }
        let max = self.config.max_logs_per_plugin;
        let ghost key = message.plugin_id@;
        let ghost before = self.logs_of(key);
        let ghost old_logs = self.logs@;
        let idx = self.log_index(&message.plugin_id);
        let i: usize = match idx {
            Some(i) => {
                proof {
                    assert(self.logs@[i as int].plugin_id@ == key);
                    assert(before == self.logs@[i as int].messages@);
                }
                i
            },
            None => {
                proof {
                    assert(before == Seq::<DebugLogMessage>::empty());
                }
                let pid = message.plugin_id.clone();
                self.logs.push(PluginLog { plugin_id: pid, messages: Vec::new() });
                self.logs.len() - 1
            },
        };
        let ghost mid_logs = self.logs@;
        assert(forall|j: int| 0 <= j < mid_logs.len() && j != i ==> (#[trigger] mid_logs[j]).plugin_id@ != key);
        assert(mid_logs[i as int].messages@ == before);
        assert(mid_logs[i as int].plugin_id@ == key);
        let mut entry = self.logs.remove(i);
        assert(entry.plugin_id@ == key);
        entry.messages.push(message);
        let ghost pushed = entry.messages@;
        assert(entry.messages@ =~= pushed.subrange(0, pushed.len() as int));
        while entry.messages.len() > max
            invariant
                pushed == before.push(message),
                entry.plugin_id@ == key,
                entry.messages@.len() == pushed.len() || entry.messages@.len() >= max,
                entry.messages@.len() <= pushed.len(),
                entry.messages@ == pushed.subrange(pushed.len() - entry.messages@.len(), pushed.len() as int),
            decreases entry.messages@.len(),
        {
            let ghost prev = entry.messages@;
            entry.messages.remove(0);
            assert(entry.messages@ =~= pushed.subrange(pushed.len() - entry.messages@.len(), pushed.len() as int)) by {
                assert(entry.messages@ =~= prev.subrange(1, prev.len() as int));
            }
        }
        proof {
            if pushed.len() <= max {
                assert(entry.messages@ =~= pushed);
            }
            assert(entry.messages@ == keep_last(pushed, max as nat));
        }
        self.logs.insert(i, entry);
        proof {
            let new_logs = self.logs@;
            assert(new_logs.len() == mid_logs.len());
            assert forall|j: int| 0 <= j < new_logs.len() && j != i implies #[trigger] new_logs[j] == mid_logs[j] by {
                if j < i {
                } else {
                }
            }
            assert(new_logs[i as int].plugin_id@ == key);
            assert forall|p: Seq<char>| p != key implies #[trigger] self.logs_of(p) == old(self).logs_of(p) by {
                if exists|j: int| 0 <= j < old_logs.len() && (#[trigger] old_logs[j]).plugin_id@ == p {
                    let j = choose|j: int| 0 <= j < old_logs.len() && (#[trigger] old_logs[j]).plugin_id@ == p;
                    assert(mid_logs[j] == old_logs[j]);
                    assert(new_logs[j] == old_logs[j]);
                    let k = choose|k: int| 0 <= k < new_logs.len() && (#[trigger] new_logs[k]).plugin_id@ == p;
                    if k != j {
                        if k < old_logs.len() {
                            assert(new_logs[k] == old_logs[k]);
                        } else {
                            assert(k == i);
                        }
                    }
                } else {
                    assert forall|k: int| 0 <= k < new_logs.len() implies (#[trigger] new_logs[k]).plugin_id@ != p by {
                        if k != i {
                            assert(new_logs[k] == mid_logs[k]);
                            if k < old_logs.len() {
                                assert(mid_logs[k] == old_logs[k]);
                            }
                        }
                    }
                }
            }
            let k = choose|k: int| 0 <= k < new_logs.len() && (#[trigger] new_logs[k]).plugin_id@ == key;
            assert(new_logs[i as int].plugin_id@ == key);
            if k != i {
                assert(new_logs[k] == mid_logs[k]);
            }
            assert(self.logs_of(key) == keep_last(before.push(message), max as nat));
            assert forall|a: int, b: int| 0 <= a < b < new_logs.len()
                implies (#[trigger] new_logs[a]).plugin_id@ != (#[trigger] new_logs[b]).plugin_id@ by {
                if a != i && b != i {
                    assert(new_logs[a] == mid_logs[a]);
                    assert(new_logs[b] == mid_logs[b]);
                    if a < old_logs.len() && b < old_logs.len() {
                        assert(mid_logs[a] == old_logs[a]);
                        assert(mid_logs[b] == old_logs[b]);
                    }
                } else if a == i {
                    assert(new_logs[b] == mid_logs[b]);
                } else {
                    assert(new_logs[a] == mid_logs[a]);
                }
            }
        }
    }

    /// The messages kept of a plugin, oldest first.
    pub fn get_logs(&self, plugin_id: &str) -> (r: &[DebugLogMessage])
        requires
            self.wf(),
        ensures
            r@ == self.logs_of(plugin_id@),
    {
        let key = owned(plugin_id);
        match self.log_index(&key) {
            Some(i) => {
                proof {
                    let k = choose|k: int| 0 <= k < self.logs@.len() && (#[trigger] self.logs@[k]).plugin_id@ == plugin_id@;
                    if k != i {
                        if k < i {
                            assert(self.logs@[k].plugin_id@ != self.logs@[i as int].plugin_id@);
                        } else {
                            assert(self.logs@[i as int].plugin_id@ != self.logs@[k].plugin_id@);
                        }
                    }
                }
                self.logs[i].messages.as_slice()
            },
            None => &[],
        }
    }

    /// Sets a breakpoint with the next identifier and returns it.
    pub fn add_breakpoint(&mut self, plugin_id: &str, file: &str, line: u32) -> (b: Breakpoint)
        requires
            old(self).wf(),
            old(self).next_id() < u32::MAX,
        ensures
            final(self).wf(),
            b.id == old(self).next_id(),
            b.plugin_id@ == plugin_id@,
            b.file@ == file@,
            b.line == line,
            b.condition is None,
            b.hit_count == 0,
            b.enabled,
            final(self).breakpoint_list() == old(self).breakpoint_list().push(b),
            final(self).next_id() == old(self).next_id() + 1,
            final(self).settings() == old(self).settings(),
            forall|p: Seq<char>| #[trigger] final(self).logs_of(p) == old(self).logs_of(p),
            final(self).state_list() == old(self).state_list(),
    {
        let id = self.next_breakpoint_id;
        self.next_breakpoint_id = id + 1;
        let b = Breakpoint::new(id, plugin_id, file, line);
        self.breakpoints.push(b.duplicate());
        b
    }

    /// Removes the breakpoint with the given identifier and returns it, or
    /// `None` when no breakpoint has it.
    pub fn remove_breakpoint(&mut self, id: u32) -> (r: Option<Breakpoint>)
        requires
            old(self).wf(),
        ensures
            final(self).wf(),
            final(self).next_id() == old(self).next_id(),
            final(self).settings() == old(self).settings(),
            forall|p: Seq<char>| #[trigger] final(self).logs_of(p) == old(self).logs_of(p),
            final(self).state_list() == old(self).state_list(),
            match r {
                None => {
                    &&& forall|i: int| 0 <= i < old(self).breakpoint_list().len() ==> (#[trigger] old(self).breakpoint_list()[i]).id != id
                    &&& final(self).breakpoint_list() == old(self).breakpoint_list()
                },
                Some(b) => exists|i: int| 0 <= i < old(self).breakpoint_list().len()
                    && old(self).breakpoint_list()[i] == b
                    && b.id == id
                    && final(self).breakpoint_list() == old(self).breakpoint_list().remove(i),
            },
    {
        let mut i: usize = 0;
        while i < self.breakpoints.len()
            invariant
                self.wf(),
                self.breakpoints@ == old(self).breakpoints@,
                self.logs@ == old(self).logs@,
                self.plugin_states@ == old(self).plugin_states@,
                self.config == old(self).config,
                self.next_breakpoint_id == old(self).next_breakpoint_id,
                i <= self.breakpoints@.len(),
                forall|j: int| 0 <= j < i ==> (#[trigger] self.breakpoints@[j]).id != id,
            decreases self.breakpoints@.len() - i,
        {
            if self.breakpoints[i].id == id {
                let ghost before = self.breakpoints@;
                let b = self.breakpoints.remove(i);
                proof {
                    assert(self.breakpoints@ == before.remove(i as int));
                    assert forall|a: int, c: int| 0 <= a < c < self.breakpoints@.len()
                        implies (#[trigger] self.breakpoints@[a]).id < (#[trigger] self.breakpoints@[c]).id by {
                        let a0 = if a < i { a } else { a + 1 };
                        let c0 = if c < i { c } else { c + 1 };
                        assert(self.breakpoints@[a] == before[a0]);
                        assert(self.breakpoints@[c] == before[c0]);
                    }
                    assert forall|a: int| 0 <= a < self.breakpoints@.len()
                        implies (#[trigger] self.breakpoints@[a]).id < self.next_breakpoint_id by {
                        let a0 = if a < i { a } else { a + 1 };
                        assert(self.breakpoints@[a] == before[a0]);
                    }
                }
                return Some(b);
            }
            i = i + 1;
        }
        None
    }

    /// The breakpoints of a plugin, in the order they were added.
    pub fn get_breakpoints(&self, plugin_id: &str) -> (r: Vec<Breakpoint>)
        requires
            self.wf(),
        ensures
            r@ == self.breakpoint_list().filter(|b: Breakpoint| b.plugin_id@ == plugin_id@),
    {
        let ghost pred = |b: Breakpoint| b.plugin_id@ == plugin_id@;
        let mut r: Vec<Breakpoint> = Vec::new();
        let mut i: usize = 0;
        while i < self.breakpoints.len()
            invariant
                i <= self.breakpoints@.len(),
                pred == (|b: Breakpoint| b.plugin_id@ == plugin_id@),
                r@ == self.breakpoints@.subrange(0, i as int).filter(pred),
            decreases self.breakpoints@.len() - i,
        {
            proof {
                let s = self.breakpoints@.subrange(0, i + 1);
                assert(s.drop_last() =~= self.breakpoints@.subrange(0, i as int));
                reveal(Seq::filter);
            }
            if string_equals_str(&self.breakpoints[i].plugin_id, plugin_id) {
                r.push(self.breakpoints[i].duplicate());
            }
            i = i + 1;
        }
        proof {
            assert(self.breakpoints@.subrange(0, self.breakpoints@.len() as int) =~= self.breakpoints@);
        }
        r
    }

    /// Records the state of a plugin, replacing the one reported before.
    pub fn update_state(&mut self, state: PluginState)
        requires
            old(self).wf(),
        ensures
            final(self).wf(),
            final(self).settings() == old(self).settings(),
            final(self).breakpoint_list() == old(self).breakpoint_list(),
            final(self).next_id() == old(self).next_id(),
            forall|p: Seq<char>| #[trigger] final(self).logs_of(p) == old(self).logs_of(p),
            match state_position(old(self).state_list(), state.plugin_id@) {
                Some(i) => final(self).state_list() == old(self).state_list().update(i, state),
                None => final(self).state_list() == old(self).state_list().push(state),
            },
    {
        let ghost key = state.plugin_id@;
        let ghost v = self.plugin_states@;
        let mut i: usize = 0;
        while i < self.plugin_states.len()
            invariant
                i <= self.plugin_states@.len(),
                self.plugin_states@ == v,
                key == state.plugin_id@,
                old(self).wf(),
                self.wf(),
                self.config == old(self).config,
                self.breakpoints@ == old(self).breakpoints@,
                self.logs@ == old(self).logs@,
                self.plugin_states@ == old(self).plugin_states@,
                self.next_breakpoint_id == old(self).next_breakpoint_id,
                forall|j: int| 0 <= j < i ==> (#[trigger] v[j]).plugin_id@ != key,
            decreases self.plugin_states@.len() - i,
        {
            if strings_equal(&self.plugin_states[i].plugin_id, &state.plugin_id) {
                proof {
                    let k = i as int;
                    let c = choose|c: int| 0 <= c < v.len() && (#[trigger] v[c]).plugin_id@ == key;
                    if c != k {
                        if c < k {
                            assert(v[c].plugin_id@ != v[k].plugin_id@);
                        } else {
                            assert(v[k].plugin_id@ != v[c].plugin_id@);
                        }
                    }
                }
                self.plugin_states.set(i, state);
                proof {
                    let w = self.plugin_states@;
                    assert forall|a: int, b: int| 0 <= a < b < w.len()
                        implies (#[trigger] w[a]).plugin_id@ != (#[trigger] w[b]).plugin_id@ by {
                        if a != i && b != i {
                            assert(w[a] == v[a] && w[b] == v[b]);
                        } else if a == i {
                            assert(w[b] == v[b]);
                            assert(v[a].plugin_id@ != v[b].plugin_id@);
                        } else {
                            assert(w[a] == v[a]);
                            assert(v[a].plugin_id@ != v[b].plugin_id@);
                        }
                    }
                }
                return;
            }
            i = i + 1;
        }
        self.plugin_states.push(state);
        proof {
            let w = self.plugin_states@;
            assert forall|a: int, b: int| 0 <= a < b < w.len()
                implies (#[trigger] w[a]).plugin_id@ != (#[trigger] w[b]).plugin_id@ by {
                if b < v.len() {
                    assert(w[a] == v[a] && w[b] == v[b]);
                } else {
                    assert(w[a] == v[a]);
                }
            }
        }
    }

    /// The state last reported for a plugin, if any.
    pub fn get_state(&self, plugin_id: &str) -> (r: Option<&PluginState>)
        requires
            self.wf(),
        ensures
            match state_position(self.state_list(), plugin_id@) {
                Some(i) => r == Some(&self.state_list()[i]),
                None => r is None,
            },
    {
        let ghost v = self.plugin_states@;
        let mut i: usize = 0;
        while i < self.plugin_states.len()
            invariant
                i <= v.len(),
                self.wf(),
                v == self.plugin_states@,
                forall|j: int| 0 <= j < i ==> (#[trigger] v[j]).plugin_id@ != plugin_id@,
            decreases v.len() - i,
        {
            if string_equals_str(&self.plugin_states[i].plugin_id, plugin_id) {
                proof {
                    let k = i as int;
                    let c = choose|c: int| 0 <= c < v.len() && (#[trigger] v[c]).plugin_id@ == plugin_id@;
                    if c != k {
                        if c < k {
                            assert(v[c].plugin_id@ != v[k].plugin_id@);
                        } else {
                            assert(v[k].plugin_id@ != v[c].plugin_id@);
                        }
                    }
                }
                return Some(&self.plugin_states[i]);
            }
            i = i + 1;
        }
        None
    }

    /// Every state reported, one per plugin.
    pub fn get_all_states(&self) -> (r: &[PluginState])
        ensures
            r@ == self.state_list(),
    {
        self.plugin_states.as_slice()
    }

    /// The first enabled breakpoint (in the order they were added) at the
    /// given place, if any.
    pub fn check_breakpoint(&self, plugin_id: &str, file: &str, line: u32) -> (r: Option<Breakpoint>)
        requires
            self.wf(),
        ensures
            match r {
                None => forall|i: int| 0 <= i < self.breakpoint_list().len()
                    ==> !breaks_at(#[trigger] self.breakpoint_list()[i], plugin_id@, file@, line),
                Some(b) => exists|i: int| 0 <= i < self.breakpoint_list().len()
                    && self.breakpoint_list()[i] == b
                    && breaks_at(b, plugin_id@, file@, line)
                    && forall|j: int| 0 <= j < i ==> !breaks_at(#[trigger] self.breakpoint_list()[j], plugin_id@, file@, line),
            },
    {
        let mut i: usize = 0;
        while i < self.breakpoints.len()
            invariant
                i <= self.breakpoints@.len(),
                forall|j: int| 0 <= j < i ==> !breaks_at(#[trigger] self.breakpoints@[j], plugin_id@, file@, line),
            decreases self.breakpoints@.len() - i,
        {
            let b = &self.breakpoints[i];
            if string_equals_str(&b.plugin_id, plugin_id) && string_equals_str(&b.file, file) && b.line == line && b.enabled {
                let d = b.duplicate();
                assert(self.breakpoints@[i as int] == d);
                assert(breaks_at(d, plugin_id@, file@, line));
                assert(0 <= i < self.breakpoint_list().len() && self.breakpoint_list()[i as int] == d
                    && breaks_at(d, plugin_id@, file@, line)
                    && forall|j: int| 0 <= j < i ==> !breaks_at(#[trigger] self.breakpoint_list()[j], plugin_id@, file@, line));
                return Some(d);
            }
            i = i + 1;
        }
        None
    }
}

} // verus!
