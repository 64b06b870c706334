use vantis::plugin_error::PluginError;

#[test]
fn test_error_creation() {
    let err = PluginError::NotFound("test-plugin".to_string());
    assert!(err.message().contains("test-plugin"));
}

#[test]
fn test_error_helpers() {
    let err = PluginError::load_failed("/path/to/plugin.so", "missing symbol");
    assert!(matches!(err, PluginError::LoadFailed { .. }));

    let err = PluginError::version_mismatch("test", "1.0.0", "0.9.0");
    assert!(matches!(err, PluginError::VersionMismatch { .. }));
}

#[test]
fn test_error_classification() {
    let err = PluginError::Disabled("test".to_string());
    assert!(err.is_recoverable());
    assert!(!err.should_disable());

    let err = PluginError::InitializationFailed("test".to_string());
    assert!(!err.is_recoverable());
    assert!(err.should_disable());
}

#[test]
fn error_messages() {
    assert_eq!(PluginError::AbiMismatch { expected: 2, actual: 10 }.message(),
        "ABI incompatibility: plugin expects ABI 2, host provides 10");
    assert_eq!(PluginError::dependency("p", "d", "missing").message(), "Dependency error for plugin 'p': d missing");
    assert_eq!(PluginError::version_mismatch("p", "1.0", "0.9").message(),
        "Version mismatch: plugin 'p' requires 1.0, but host has 0.9");
    assert_eq!(PluginError::Disabled("x".to_string()).message(), "Plugin 'x' is disabled");
    assert!(PluginError::execution("p", "m").message().ends_with("error: m"));
    assert!(PluginError::unload_failed("p", "busy").message().contains("busy"));
}
