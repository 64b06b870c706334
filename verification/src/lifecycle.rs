//! Plugin lifecycle management: the states a plugin passes through, which
//! moves between them are allowed, and a manager that records them.

use vstd::prelude::*;

use crate::clock::epoch_secs;
use crate::plugin_error::PluginError;
use crate::text::owned;

verus! {

/// Plugin lifecycle stages.
#[derive(Debug, Clone, Copy, PartialEq, Eq, Hash, Structural)]
pub enum PluginState {
    /// Plugin is discovered but not loaded.
    Discovered,
    /// Plugin is loaded into memory.
    Loaded,
    /// Plugin dependencies are resolved.
    Resolved,
    /// Plugin is initialized and ready.
    Initialized,
    /// Plugin is enabled and active.
    Enabled,
    /// Plugin is disabled.
    Disabled,
    /// Plugin is in error state.
    Error,
    /// Plugin is being unloaded.
    Unloading,
    /// Plugin has been unloaded.
    Unloaded,
}

/// Name of a state as it is displayed.
pub open spec fn state_name(s: PluginState) -> Seq<char> {
    match s {
        PluginState::Discovered => "Discovered"@,
        PluginState::Loaded => "Loaded"@,
        PluginState::Resolved => "Resolved"@,
        PluginState::Initialized => "Initialized"@,
        PluginState::Enabled => "Enabled"@,
        PluginState::Disabled => "Disabled"@,
        PluginState::Error => "Error"@,
        PluginState::Unloading => "Unloading"@,
        PluginState::Unloaded => "Unloaded"@,
    }
}

/// Whether the lifecycle allows moving from `from` to `to`.
pub open spec fn valid_transition(from: PluginState, to: PluginState) -> bool {
    match (from, to) {
        (PluginState::Discovered, PluginState::Loaded) => true,
        (PluginState::Loaded, PluginState::Resolved) => true,
        (PluginState::Resolved, PluginState::Initialized) => true,
        (PluginState::Initialized, PluginState::Enabled) => true,
        (PluginState::Enabled, PluginState::Disabled) => true,
        (PluginState::Disabled, PluginState::Enabled) => true,
        (PluginState::Loaded, PluginState::Unloading) => true,
        (PluginState::Resolved, PluginState::Unloading) => true,
        (PluginState::Initialized, PluginState::Unloading) => true,
        (PluginState::Enabled, PluginState::Unloading) => true,
        (PluginState::Disabled, PluginState::Unloading) => true,
        (PluginState::Error, PluginState::Unloading) => true,
        (PluginState::Unloading, PluginState::Unloaded) => true,
        (PluginState::Loaded, PluginState::Error) => true,
        (PluginState::Resolved, PluginState::Error) => true,
        (PluginState::Initialized, PluginState::Error) => true,
        (PluginState::Enabled, PluginState::Error) => true,
        (PluginState::Disabled, PluginState::Error) => true,
        (PluginState::Error, PluginState::Disabled) => true,
        (PluginState::Error, PluginState::Unloaded) => true,
        _ => from == to,
    }
}

impl PluginState {
    /// Whether the plugin is usable (enabled or initialized).
    pub fn is_active(&self) -> (r: bool)
        ensures
            r == (*self == PluginState::Enabled || *self == PluginState::Initialized),
    {
        match self {
            PluginState::Enabled | PluginState::Initialized => true,
            _ => false,
        }
    }

    /// Whether the plugin is loaded in memory.
    pub fn is_loaded(&self) -> (r: bool)
        ensures
            r == (*self == PluginState::Loaded || *self == PluginState::Resolved || *self
                == PluginState::Initialized || *self == PluginState::Enabled || *self
                == PluginState::Disabled),
    {
        match self {
            PluginState::Loaded
            | PluginState::Resolved
            | PluginState::Initialized
            | PluginState::Enabled
            | PluginState::Disabled => true,
            _ => false,
        }
    }

    /// Whether the plugin can be enabled.
    pub fn can_enable(&self) -> (r: bool)
        ensures
            r == (*self == PluginState::Initialized || *self == PluginState::Disabled),
    {
        match self {
            PluginState::Initialized | PluginState::Disabled => true,
            _ => false,
        }
    }

    /// Whether the plugin can be disabled.
    pub fn can_disable(&self) -> (r: bool)
        ensures
            r == (*self == PluginState::Enabled),
    {
        match self {
            PluginState::Enabled => true,
            _ => false,
        }
    }

    /// Whether the plugin can be unloaded.
    pub fn can_unload(&self) -> (r: bool)
        ensures
            r == (*self == PluginState::Loaded || *self == PluginState::Resolved || *self
                == PluginState::Initialized || *self == PluginState::Disabled || *self
                == PluginState::Error),
    {
        match self {
            PluginState::Loaded
            | PluginState::Resolved
            | PluginState::Initialized
            | PluginState::Disabled
            | PluginState::Error => true,
            _ => false,
        }
    }

    /// The name the state is displayed with.
    pub fn name(&self) -> (r: &'static str)
        ensures
            r@ == state_name(*self),
    {
        match self {
            PluginState::Discovered => "Discovered",
            PluginState::Loaded => "Loaded",
            PluginState::Resolved => "Resolved",
            PluginState::Initialized => "Initialized",
            PluginState::Enabled => "Enabled",
            PluginState::Disabled => "Disabled",
            PluginState::Error => "Error",
            PluginState::Unloading => "Unloading",
            PluginState::Unloaded => "Unloaded",
        }
    }
}

/// Whether the lifecycle allows moving from `from` to `to`.
pub fn is_valid_transition(from: PluginState, to: PluginState) -> (r: bool)
    ensures
        r == valid_transition(from, to),
{
    match (from, to) {
        (PluginState::Discovered, PluginState::Loaded) => true,
        (PluginState::Loaded, PluginState::Resolved) => true,
        (PluginState::Resolved, PluginState::Initialized) => true,
        (PluginState::Initialized, PluginState::Enabled) => true,
        (PluginState::Enabled, PluginState::Disabled) => true,
        (PluginState::Disabled, PluginState::Enabled) => true,
        (PluginState::Loaded, PluginState::Unloading) => true,
        (PluginState::Resolved, PluginState::Unloading) => true,
        (PluginState::Initialized, PluginState::Unloading) => true,
        (PluginState::Enabled, PluginState::Unloading) => true,
        (PluginState::Disabled, PluginState::Unloading) => true,
        (PluginState::Error, PluginState::Unloading) => true,
        (PluginState::Unloading, PluginState::Unloaded) => true,
        (PluginState::Loaded, PluginState::Error) => true,
        (PluginState::Resolved, PluginState::Error) => true,
        (PluginState::Initialized, PluginState::Error) => true,
        (PluginState::Enabled, PluginState::Error) => true,
        (PluginState::Disabled, PluginState::Error) => true,
        (PluginState::Error, PluginState::Disabled) => true,
        (PluginState::Error, PluginState::Unloaded) => true,
        _ => from == to,
    }
}

/// State transition for plugins.
#[derive(Debug, Clone)]
pub struct StateTransition {
    /// Source state.
    pub from: PluginState,
    /// Target state.
    pub to: PluginState,
    /// Timestamp of transition (seconds since the Unix epoch).
    pub timestamp: u64,
    /// Optional reason for transition.
    pub reason: Option<String>,
}

impl StateTransition {
    /// Creates a transition stamped with the current time.
    pub fn new(from: PluginState, to: PluginState) -> (r: StateTransition)
        ensures
            r.from == from,
            r.to == to,
            r.reason is None,
    {
        StateTransition { from, to, timestamp: match epoch_secs() { Some(t) => t, None => 0 }, reason: None }
    }

    /// Adds a reason for the transition.
    pub fn with_reason(self, reason: &str) -> (r: StateTransition)
        ensures
            r.from == self.from,
            r.to == self.to,
            r.timestamp == self.timestamp,
            r.reason matches Some(s) && s@ == reason@,
    {
        let mut r = self;
        r.reason = Some(owned(reason));
        r
    }

    /// Checks that the lifecycle allows this transition.
    pub fn validate(&self) -> (r: Result<(), PluginError>)
        ensures
            r is Ok <==> valid_transition(self.from, self.to),
            r matches Err(e) ==> e matches PluginError::InvalidTransition { from, to } && from@
                == state_name(self.from) && to@ == state_name(self.to),
    {
        if !is_valid_transition(self.from, self.to) {
            return Err(
                PluginError::InvalidTransition {
                    from: owned(self.from.name()),
                    to: owned(self.to.name()),
                },
            );
        }
        Ok(())
    }
}

/// Plugin lifecycle manager.
#[derive(Debug)]
pub struct PluginLifecycle {
    state: PluginState,
    history: Vec<StateTransition>,
    error_message: Option<String>,
}

impl PluginLifecycle {
    /// Every lifecycle records an error message only in the `Error` state.
    #[verifier::type_invariant]
    spec fn message_only_in_error_state(&self) -> bool {
        self.error_message is Some ==> self.state == PluginState::Error
    }

    /// The current state.
    pub closed spec fn current(&self) -> PluginState {
        self.state
    }

    /// Recorded transitions, oldest first.
    pub closed spec fn transitions(&self) -> Seq<StateTransition> {
        self.history@
    }

    /// The recorded error message.
    pub closed spec fn message(&self) -> Option<Seq<char>> {
        match self.error_message {
            Some(m) => Some(m@),
            None => None,
        }
    }

    /// An error message is recorded only in the `Error` state.
    pub open spec fn message_only_in_error(&self) -> bool {
        self.message() is Some ==> self.current() == PluginState::Error
    }

    /// A lifecycle in the `Discovered` state with no history.
    pub fn new() -> (r: PluginLifecycle)
        ensures
            r.message_only_in_error(),
            r.current() == PluginState::Discovered,
            r.transitions().len() == 0,
            r.message() is None,
    {
        PluginLifecycle { state: PluginState::Discovered, history: Vec::new(), error_message: None }
    }

    /// The current state.
    pub fn state(&self) -> (r: PluginState)
        ensures
            r == self.current(),
    {
        self.state
    }

    /// The recorded transitions, oldest first.
    pub fn history(&self) -> (r: &[StateTransition])
        ensures
            r@ == self.transitions(),
    {
        self.history.as_slice()
    }

    /// The error message, if one is recorded.
    pub fn error_message(&self) -> (r: Option<&str>)
        ensures
            match r {
                Some(s) => self.message() == Some(s@),
                None => self.message() is None,
            },
            r is Some ==> self.current() == PluginState::Error,
    {
        proof {
            use_type_invariant(self);
        }
        match &self.error_message {
            Some(m) => Some(m.as_str()),
            None => None,
        }
    }

    /// Moves to `to` if the lifecycle allows it.
    pub fn transition(&mut self, to: PluginState) -> (r: Result<(), PluginError>)
        ensures
            old(self).message_only_in_error() ==> final(self).message_only_in_error(),
            r is Ok <==> valid_transition(old(self).current(), to),
            r is Ok ==> final(self).current() == to && final(self).transitions().len() == old(self).transitions().len() + 1 && final(self).transitions().drop_last() == old(self).transitions() && final(self).transitions().last().from == old(self).current()
                && final(self).transitions().last().to == to && final(self).transitions().last().reason is None && final(self).message() is None,
            r is Err ==> *final(self) == *old(self),
            r matches Err(e) ==> e matches PluginError::InvalidTransition { from, to: t } && from@
                == state_name(old(self).current()) && t@ == state_name(to),
    {
        self.transition_with_reason(to, None)
    }

    /// Moves to `to` if the lifecycle allows it, recording `reason`.  The
    /// reason becomes the error message when `to` is `Error`; any other
    /// target clears the message.
    pub fn transition_with_reason(&mut self, to: PluginState, reason: Option<String>) -> (r: Result<
        (),
        PluginError,
    >)
        ensures
            old(self).message_only_in_error() ==> final(self).message_only_in_error(),
            r is Ok <==> valid_transition(old(self).current(), to),
            r is Ok ==> final(self).current() == to && final(self).transitions().len() == old(self).transitions().len() + 1 && final(self).transitions().drop_last() == old(self).transitions() && final(self).transitions().last().from == old(self).current()
                && final(self).transitions().last().to == to && final(self).transitions().last().reason == reason && final(self).message() == (if to
                == PluginState::Error {
                match reason {
                    Some(s) => Some(s@),
                    None => None,
                }
            } else {
                None
            }),
            r is Err ==> *final(self) == *old(self),
            r matches Err(e) ==> e matches PluginError::InvalidTransition { from, to: t } && from@
                == state_name(old(self).current()) && t@ == state_name(to),
    {
        let check = StateTransition::new(self.state, to);
        match check.validate() {
            Err(e) => {
                return Err(e);
            },
            Ok(()) => {},
        }
        let mut t = StateTransition::new(self.state, to);
        let message = if to == PluginState::Error {
            match &reason {
                Some(s) => Some(s.clone()),
                None => None,
            }
        } else {
            None
        };
        t.reason = reason;
        proof {
            use_type_invariant(&*self);
        }
        let mut h: Vec<StateTransition> = Vec::new();
        std::mem::swap(&mut h, &mut self.history);
        h.push(t);
        self.history = h;
        self.error_message = None;
        self.state = to;
        self.error_message = message;
        assert(self.transitions().drop_last() =~= old(self).transitions());
        Ok(())
    }

    /// Moves to `to` without checking, clearing the error message.
    pub fn force_transition(&mut self, to: PluginState)
        ensures
            final(self).message_only_in_error(),
            final(self).current() == to,
            final(self).transitions().drop_last() == old(self).transitions(),
            final(self).transitions().len() == old(self).transitions().len() + 1,
            final(self).transitions().last().from == old(self).current(),
            final(self).transitions().last().to == to,
            final(self).transitions().last().reason is None,
            final(self).message() is None,
    {
        let t = StateTransition::new(self.state, to);
        proof {
            use_type_invariant(&*self);
        }
        let mut h: Vec<StateTransition> = Vec::new();
        std::mem::swap(&mut h, &mut self.history);
        h.push(t);
        self.history = h;
        self.error_message = None;
        self.state = to;
        assert(self.transitions().drop_last() =~= old(self).transitions());
    }

    /// Enters the `Error` state with a message.
    pub fn set_error(&mut self, message: &str)
        ensures
            final(self).message_only_in_error(),
            final(self).current() == PluginState::Error,
            final(self).message() == Some(message@),
            final(self).transitions().drop_last() == old(self).transitions(),
            final(self).transitions().len() == old(self).transitions().len() + 1,
            final(self).transitions().last().from == old(self).current(),
            final(self).transitions().last().to == PluginState::Error,
            final(self).transitions().last().reason matches Some(s) && s@ == message@,
    {
        let t = StateTransition::new(self.state, PluginState::Error).with_reason(message);
        proof {
            use_type_invariant(&*self);
        }
        let mut h: Vec<StateTransition> = Vec::new();
        std::mem::swap(&mut h, &mut self.history);
        h.push(t);
        self.history = h;
        self.state = PluginState::Error;
        self.error_message = Some(owned(message));
        assert(self.transitions().drop_last() =~= old(self).transitions());
    }

    /// Whether the lifecycle allows moving to `to` from the current state.
    pub fn can_transition_to(&self, to: PluginState) -> (r: bool)
        ensures
            r == valid_transition(self.current(), to),
    {
        is_valid_transition(self.state, to)
    }

    /// The most recent transition.
    pub fn last_transition(&self) -> (r: Option<&StateTransition>)
        ensures
            match r {
                Some(t) => self.transitions().len() > 0 && *t == self.transitions().last(),
                None => self.transitions().len() == 0,
            },
    {
        if self.history.len() == 0 {
            None
        } else {
            Some(&self.history[self.history.len() - 1])
        }
    }

    /// Seconds from the most recent transition to `now` (zero where `now`
    /// is earlier).
    pub open spec fn seconds_since_last(&self, now: u64) -> u64 {
        if now >= self.transitions().last().timestamp {
            (now - self.transitions().last().timestamp) as u64
        } else {
            0
        }
    }

    /// Seconds between the most recent transition and `now`, or `None`
    /// with no transitions recorded.
    pub fn elapsed_in_state(&self, now: u64) -> (r: Option<u64>)
        ensures
            match r {
                Some(s) => self.transitions().len() > 0 && s == (if now >= self.transitions().last().timestamp {
                    now - self.transitions().last().timestamp
                } else {
                    0
                }),
                None => self.transitions().len() == 0,
            },
    {
        match self.last_transition() {
            None => None,
            Some(t) => Some(now.saturating_sub(t.timestamp)),
        }
    }

    /// Seconds spent in the current state by the system clock, or `None`
    /// with no transitions recorded or a clock set before the epoch.
    pub fn time_in_state(&self) -> (r: Option<u64>)
        ensures
            self.transitions().len() == 0 ==> r is None,
            r matches Some(s) ==> self.transitions().len() > 0 && exists|now: u64|
                #[trigger] self.seconds_since_last(now) == s,
    {
        if self.history.len() == 0 {
            return None;
        }
        match epoch_secs() {
            Some(now) => {
                let r = self.elapsed_in_state(now);
                assert(r matches Some(s) ==> self.seconds_since_last(now) == s);
                r
            },
            None => None,
        }
    }

    /// Clears the history and returns to `Discovered`.
    pub fn reset(&mut self)
        ensures
            final(self).message_only_in_error(),
            final(self).current() == PluginState::Discovered,
            final(self).transitions().len() == 0,
            final(self).message() is None,
    {
        self.error_message = None;
        self.state = PluginState::Discovered;
        self.history = Vec::new();
    }
}

impl Default for PluginLifecycle {
    fn default() -> (r: PluginLifecycle)
        ensures
            r.message_only_in_error(),
            r.current() == PluginState::Discovered,
            r.transitions().len() == 0,
            r.message() is None,
    {
        PluginLifecycle::new()
    }
}

/// Staying in the same state is always allowed.
pub proof fn law_same_state_transition_valid(s: PluginState)
    ensures
        valid_transition(s, s),
{
}

/// A state that can be enabled is exactly one from which the lifecycle
/// may move to `Enabled` without already being there.
pub proof fn law_can_enable_matches_transitions(s: PluginState)
    ensures
        (s == PluginState::Initialized || s == PluginState::Disabled) <==> (valid_transition(
            s,
            PluginState::Enabled,
        ) && s != PluginState::Enabled),
{
}

/// An unloaded plugin never leaves the `Unloaded` state.
pub proof fn law_unloaded_is_final(to: PluginState)
    ensures
        valid_transition(PluginState::Unloaded, to) ==> to == PluginState::Unloaded,
{
}

/// Every state except `Discovered`, `Unloading` and `Unloaded` can fall
/// into `Error`, and `Error` can always be left for `Unloading`.
pub proof fn law_error_reachable_and_recoverable(s: PluginState)
    ensures
        s != PluginState::Discovered && s != PluginState::Unloading && s != PluginState::Unloaded
            ==> valid_transition(s, PluginState::Error),
        valid_transition(PluginState::Error, PluginState::Unloading),
{
}

/// A plugin can be unloaded from every state in which it is loaded or has
/// failed, and from no other state but `Unloading` itself.
pub proof fn law_unload_from_any_loaded_state(s: PluginState)
    ensures
        s != PluginState::Discovered && s != PluginState::Unloading && s != PluginState::Unloaded
            ==> valid_transition(s, PluginState::Unloading),
        valid_transition(s, PluginState::Unloading) ==> s != PluginState::Discovered && s != PluginState::Unloaded,
{
}

/// A discovered plugin can only be loaded, a plugin being unloaded can only
/// finish unloading, and only a plugin being unloaded or one in error can
/// become unloaded.
pub proof fn law_ends_of_the_lifecycle(s: PluginState, t: PluginState)
    ensures
        t != PluginState::Discovered ==> (valid_transition(PluginState::Discovered, t) <==> t == PluginState::Loaded),
        t != PluginState::Unloading ==> (valid_transition(PluginState::Unloading, t) <==> t == PluginState::Unloaded),
        s != PluginState::Unloaded ==> (valid_transition(s, PluginState::Unloaded) <==> (s == PluginState::Unloading
            || s == PluginState::Error)),
{
}

/// An active plugin is always loaded.
pub proof fn law_active_implies_loaded(s: PluginState)
    ensures
        (s == PluginState::Enabled || s == PluginState::Initialized) ==> (s == PluginState::Loaded
            || s == PluginState::Resolved || s == PluginState::Initialized || s
            == PluginState::Enabled || s == PluginState::Disabled),
{
}

/// Events the plugin host reports.
#[derive(Debug, Clone)]
pub enum PluginEvent {
    Loaded { id: crate::plugin::PluginId },
    Initialized { id: crate::plugin::PluginId },
    Enabled { id: crate::plugin::PluginId },
    Disabled { id: crate::plugin::PluginId },
    Unloaded { id: crate::plugin::PluginId },
    Error { id: crate::plugin::PluginId, error: String },
}

} // verus!
