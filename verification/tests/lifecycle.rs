use vantis::lifecycle::{is_valid_transition, PluginLifecycle, PluginState, StateTransition};
use vantis::plugin_error::PluginError;

#[test]
fn test_state_properties() {
    assert!(PluginState::Enabled.is_active());
    assert!(PluginState::Initialized.is_active());
    assert!(!PluginState::Disabled.is_active());

    assert!(PluginState::Enabled.is_loaded());
    assert!(!PluginState::Unloaded.is_loaded());

    assert!(PluginState::Initialized.can_enable());
    assert!(PluginState::Enabled.can_disable());
}

#[test]
fn test_valid_transitions() {
    assert!(is_valid_transition(PluginState::Discovered, PluginState::Loaded));
    assert!(is_valid_transition(PluginState::Loaded, PluginState::Resolved));
    assert!(is_valid_transition(PluginState::Initialized, PluginState::Enabled));
    assert!(is_valid_transition(PluginState::Enabled, PluginState::Disabled));

    assert!(!is_valid_transition(PluginState::Discovered, PluginState::Enabled));
    assert!(!is_valid_transition(PluginState::Loaded, PluginState::Enabled));
}

#[test]
fn test_lifecycle_transitions() {
    let mut lifecycle = PluginLifecycle::new();
    assert_eq!(lifecycle.state(), PluginState::Discovered);

    lifecycle.transition(PluginState::Loaded).unwrap();
    assert_eq!(lifecycle.state(), PluginState::Loaded);

    lifecycle.transition(PluginState::Resolved).unwrap();
    lifecycle.transition(PluginState::Initialized).unwrap();
    lifecycle.transition(PluginState::Enabled).unwrap();
    assert_eq!(lifecycle.state(), PluginState::Enabled);
}

#[test]
fn test_invalid_transition() {
    let mut lifecycle = PluginLifecycle::new();
    let result = lifecycle.transition(PluginState::Enabled);
    assert!(result.is_err());
}

#[test]
fn test_error_state() {
    let mut lifecycle = PluginLifecycle::new();
    lifecycle.transition(PluginState::Loaded).unwrap();
    lifecycle.set_error("Test error");

    assert_eq!(lifecycle.state(), PluginState::Error);
    assert_eq!(lifecycle.error_message(), Some("Test error"));
}

#[test]
fn test_transition_validation() {
    let transition = StateTransition::new(PluginState::Discovered, PluginState::Loaded);
    assert!(transition.validate().is_ok());

    let invalid = StateTransition::new(PluginState::Discovered, PluginState::Enabled);
    assert!(invalid.validate().is_err());
}

#[test]
fn failed_transition_keeps_state_and_names_states() {
    let mut lifecycle = PluginLifecycle::new();
    let err = lifecycle.transition(PluginState::Enabled).unwrap_err();
    assert_eq!(err, PluginError::InvalidTransition { from: "Discovered".to_string(), to: "Enabled".to_string() });
    assert_eq!(err.message(), "Invalid state transition: Discovered -> Enabled");
    assert_eq!(lifecycle.state(), PluginState::Discovered);
    assert!(lifecycle.history().is_empty());
}

#[test]
fn history_reason_and_reset() {
    let mut lifecycle = PluginLifecycle::new();
    lifecycle.transition(PluginState::Loaded).unwrap();
    lifecycle.transition_with_reason(PluginState::Error, Some("boom".to_string())).unwrap();
    assert_eq!(lifecycle.error_message(), Some("boom"));
    assert_eq!(lifecycle.history().len(), 2);
    let last = lifecycle.last_transition().unwrap();
    assert_eq!((last.from, last.to), (PluginState::Loaded, PluginState::Error));
    assert_eq!(last.reason.as_deref(), Some("boom"));
    lifecycle.transition(PluginState::Disabled).unwrap();
    assert_eq!(lifecycle.error_message(), None);
    assert!(lifecycle.can_transition_to(PluginState::Enabled));
    assert_eq!(lifecycle.elapsed_in_state(lifecycle.last_transition().unwrap().timestamp + 5), Some(5));
    assert!(lifecycle.time_in_state().is_some());
    lifecycle.force_transition(PluginState::Unloaded);
    assert_eq!(lifecycle.state(), PluginState::Unloaded);
    assert!(!lifecycle.can_transition_to(PluginState::Loaded));
    lifecycle.reset();
    assert_eq!(lifecycle.state(), PluginState::Discovered);
    assert!(lifecycle.last_transition().is_none());
    assert_eq!(lifecycle.time_in_state(), None);
    assert_eq!(PluginState::Error.name(), "Error");
}
