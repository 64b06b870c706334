use vantis::api::MenuItem;
use vantis::compat::{is_compatible, versions_compatible};
use vantis::debugging::{Breakpoint, DebugConfig, DebugLogLevel, DebugLogMessage, PluginDebugController};
use vantis::ffi::PluginCapabilitiesRaw;
use vantis::manifest::{Platform, PluginDependency, PluginManifest, PluginPermission};
use vantis::plugin::{PluginCapabilities, PluginId, PluginInfo};
use vantis::plugin_error::PluginError;
use vantis::sdk_types::{CapabilityFlags, IsolationLevel, PluginPriority, SecurityContext};

#[test]
fn test_plugin_id() {
    let id = PluginId::new("com.example.test");
    assert_eq!(id.as_str(), "com.example.test");
}

#[test]
fn test_plugin_info() {
    let info = PluginInfo::new("com.example.test", "Test Plugin")
        .with_version("1.0.0")
        .with_author("Test Author");

    assert_eq!(info.id.as_str(), "com.example.test");
    assert_eq!(info.name, "Test Plugin");
    assert_eq!(info.version, "1.0.0");
}

#[test]
fn test_capabilities() {
    let caps = PluginCapabilities::media_player();
    assert!(caps.media_playback);
    assert!(caps.media_decoding);
    assert!(!caps.ui_extension);
}

#[test]
fn plugin_id_parse_rejects_empty_text() {
    assert!(PluginId::parse("").is_none());
    assert_eq!(PluginId::parse("abc").unwrap().as_str(), "abc");
}

#[test]
fn random_plugin_ids_are_hyphenated_uuids() {
    let id = PluginId::random();
    assert_eq!(id.as_str().len(), 36);
    assert_eq!(id.as_str().chars().filter(|c| *c == '-').count(), 4);
    assert_eq!(PluginInfo::default().id.as_str().len(), 36);
    let text: Vec<char> = id.as_str().chars().collect();
    assert_eq!(text[14], '4');
    assert!(matches!(text[19], '8' | '9' | 'a' | 'b'));
    assert_ne!(PluginId::random(), PluginId::random());
}

#[test]
fn plugin_info_defaults_and_tags() {
    let info = PluginInfo::new("a", "b").with_tag("x").with_tag("y").with_description("d");
    assert_eq!(info.tags, vec!["x".to_string(), "y".to_string()]);
    assert_eq!(info.license, "MIT");
    assert_eq!(info.min_host_version, "1.0.0");
    assert_eq!(info.version, "0.1.0");
    assert_eq!(info.description, "d");
}

#[test]
fn capability_list_follows_declaration_order() {
    let caps = PluginCapabilities::media_player();
    assert_eq!(caps.to_list(), vec!["media_playback", "media_decoding"]);
    assert!(caps.has_any());
    assert!(!PluginCapabilities::default().has_any());
    assert!(PluginCapabilities::default().to_list().is_empty());
    assert_eq!(PluginCapabilities::video_processor().to_list(), vec!["video_processor"]);
}

#[test]
fn test_capabilities_conversion() {
    let caps = PluginCapabilities::media_player();
    let raw: PluginCapabilitiesRaw = caps.into();
    let back: PluginCapabilities = raw.into();

    assert_eq!(back.media_playback, true);
    assert_eq!(back.media_decoding, true);
    assert_eq!(back.ui_extension, false);
}

#[test]
fn test_dependency() {
    let dep = PluginDependency::required("com.test.dep", "1.0.0");
    assert!(!dep.optional);

    let opt = PluginDependency::optional("com.test.opt", "2.0.0");
    assert!(opt.optional);
}

#[test]
fn test_permission() {
    let perm = PluginPermission::new("filesystem")
        .with_reason("Access files")
        .optional();

    assert_eq!(perm.name, "filesystem");
    assert!(perm.reason.is_some());
    assert!(!perm.required);
}

#[test]
fn test_manifest_creation() {
    let manifest = PluginManifest::new("com.test.plugin", "Test Plugin")
        .with_version("1.0.0")
        .with_author("Test Author");

    assert_eq!(manifest.id.as_str(), "com.test.plugin");
    assert_eq!(manifest.name, "Test Plugin");
    assert_eq!(manifest.version, "1.0.0");
}

#[test]
fn test_manifest_validation() {
    let manifest = PluginManifest::new("com.test.plugin", "Test Plugin");
    assert!(manifest.validate().is_ok());

    let invalid = PluginManifest::new("com.test.plugin", "Test Plugin")
        .with_version("not-a-version");
    assert!(invalid.validate().is_err());
}

#[test]
fn manifest_validation_names_the_first_problem() {
    let bad_version = PluginManifest::new("p", "P").with_version("1.x");
    assert_eq!(
        bad_version.validate(),
        Err(PluginError::InvalidManifest("Invalid version format: 1.x".to_string()))
    );
    let bad_dep = PluginManifest::new("p", "P")
        .with_dependency(PluginDependency::required("a", ">=1.0"))
        .with_dependency(PluginDependency::required("b", "not a range"))
        .with_dependency(PluginDependency::required("c", "also bad"));
    assert_eq!(
        bad_dep.validate(),
        Err(PluginError::InvalidManifest("Invalid dependency version format: not a range".to_string()))
    );
    let mut bad_host = PluginManifest::new("p", "P");
    bad_host.min_host_version = "one".to_string();
    assert_eq!(
        bad_host.validate(),
        Err(PluginError::InvalidManifest("Invalid min_host_version format: one".to_string()))
    );
}

#[test]
fn manifest_lookups_and_platforms() {
    let m = PluginManifest::new("p", "P")
        .with_permission(PluginPermission::new("network"))
        .with_dependency(PluginDependency::optional("dep", "*"));
    assert!(m.has_permission("network"));
    assert!(!m.has_permission("filesystem"));
    assert!(m.has_dependency(&PluginId::new("dep")));
    assert!(!m.has_dependency(&PluginId::new("other")));
    assert!(m.supports_platform(Platform::Linux));
    let mut only_web = m;
    only_web.platforms.push(Platform::Web);
    assert!(only_web.supports_platform(Platform::Web));
    assert!(!only_web.supports_platform(Platform::Windows));
}

#[test]
fn test_version_compatibility() {
    assert!(is_compatible("1.0.0"));
    assert!(is_compatible("1.1.0"));
    assert!(!is_compatible("0.9.0"));
    assert!(!is_compatible("2.0.0"));
}

#[test]
fn version_compatibility_needs_readable_versions() {
    assert!(!is_compatible("not a version"));
    assert!(versions_compatible(Some((2, 4, 0)), Some((2, 5, 1))));
    assert!(!versions_compatible(Some((2, 3, 9)), Some((2, 5, 1))));
    assert!(!versions_compatible(None, Some((1, 0, 0))));
}

#[test]
fn test_plugin_priority() {
    assert!(PluginPriority::High > PluginPriority::Normal);
    assert!(PluginPriority::Normal > PluginPriority::Low);
}

#[test]
fn priority_ranks() {
    assert_eq!(PluginPriority::Lowest.rank(), 0);
    assert_eq!(PluginPriority::Highest.rank(), 4);
    assert!(PluginPriority::High.outranks(&PluginPriority::Normal));
    assert!(!PluginPriority::Low.outranks(&PluginPriority::Low));
    assert_eq!(PluginPriority::default(), PluginPriority::Normal);
    assert_eq!(IsolationLevel::default(), IsolationLevel::NoIsolation);
}

#[test]
fn test_security_context() {
    let ctx = SecurityContext::default();
    assert!(!ctx.filesystem_access);
    assert!(!ctx.network_access);
}

#[test]
fn test_capability_flags() {
    let flags = CapabilityFlags::from_bits(CapabilityFlags::MEDIA_PLAYBACK | CapabilityFlags::AUDIO_PROCESSOR);
    assert!(flags.contains(CapabilityFlags::from_bits(CapabilityFlags::MEDIA_PLAYBACK)));
    assert!(flags.contains(CapabilityFlags::from_bits(CapabilityFlags::AUDIO_PROCESSOR)));
    assert!(!flags.contains(CapabilityFlags::from_bits(CapabilityFlags::VIDEO_PROCESSOR)));
}

#[test]
fn capability_flag_union_and_intersection() {
    let a = CapabilityFlags::from_bits(CapabilityFlags::UI_EXTENSION);
    let b = CapabilityFlags::from_bits(CapabilityFlags::NOTIFICATIONS);
    let both = a.union(b);
    assert_eq!(both.bits(), 4 | 512);
    assert!(both.contains(a) && both.contains(b));
    assert!(a.intersection(b).is_empty());
    assert!(CapabilityFlags::from_bits(CapabilityFlags::ALL).contains(both));
}

#[test]
fn test_menu_item() {
    let item = MenuItem {
        id: "test".into(),
        label: "Test Item".into(),
        shortcut: Some("Ctrl+T".into()),
        icon: None,
        action: "test_action".into(),
        enabled: true,
        checked: None,
    };

    assert_eq!(item.id, "test");
    assert!(item.enabled);
}

#[test]
fn test_debug_log_message() {
    let msg = DebugLogMessage::new("test-plugin", DebugLogLevel::Info, "Test message");
    assert_eq!(msg.plugin_id, "test-plugin");
    assert_eq!(msg.level, DebugLogLevel::Info);
}

#[test]
fn test_breakpoint() {
    let bp = Breakpoint::new(1, "test-plugin", "main.rs", 42);
    assert_eq!(bp.id, 1);
    assert_eq!(bp.plugin_id, "test-plugin");
    assert!(bp.enabled);
}

#[test]
fn test_debug_controller_logging() {
    let mut controller = PluginDebugController::new(None);

    controller.log(DebugLogMessage::new("plugin1", DebugLogLevel::Info, "Message 1"));
    controller.log(DebugLogMessage::new("plugin1", DebugLogLevel::Debug, "Message 2"));

    let logs = controller.get_logs("plugin1");
    assert_eq!(logs.len(), 2);
}

#[test]
fn test_debug_controller_breakpoints() {
    let mut controller = PluginDebugController::new(None);

    let bp = controller.add_breakpoint("plugin1", "main.rs", 10);
    assert_eq!(bp.id, 1);

    let breakpoints = controller.get_breakpoints("plugin1");
    assert_eq!(breakpoints.len(), 1);

    let found = controller.check_breakpoint("plugin1", "main.rs", 10);
    assert!(found.is_some());
}

#[test]
fn debug_log_keeps_newest_within_limit_and_drops_low_levels() {
    let config = DebugConfig { max_logs_per_plugin: 2, min_log_level: DebugLogLevel::Info, ..DebugConfig::default() };
    let mut controller = PluginDebugController::new(Some(config));
    controller.log(DebugLogMessage::new("p", DebugLogLevel::Trace, "dropped"));
    assert!(controller.get_logs("p").is_empty());
    controller.log(DebugLogMessage::new("p", DebugLogLevel::Info, "one"));
    controller.log(DebugLogMessage::new("p", DebugLogLevel::Warn, "two"));
    controller.log(DebugLogMessage::new("p", DebugLogLevel::Error, "three"));
    controller.log(DebugLogMessage::new("q", DebugLogLevel::Error, "other"));
    let logs = controller.get_logs("p");
    assert_eq!(logs.len(), 2);
    assert_eq!(logs[0].message, "two");
    assert_eq!(logs[1].message, "three");
    assert_eq!(controller.get_logs("q").len(), 1);
}

#[test]
fn debug_breakpoints_removed_and_matched_by_place() {
    let mut controller = PluginDebugController::new(None);
    let a = controller.add_breakpoint("p", "a.rs", 1);
    let b = controller.add_breakpoint("p", "b.rs", 2);
    assert_eq!((a.id, b.id), (1, 2));
    assert!(controller.check_breakpoint("p", "a.rs", 2).is_none());
    assert_eq!(controller.remove_breakpoint(1).unwrap().file, "a.rs");
    assert!(controller.remove_breakpoint(1).is_none());
    assert_eq!(controller.get_breakpoints("p").len(), 1);
    assert_eq!(controller.check_breakpoint("p", "b.rs", 2).unwrap().id, 2);
}

#[test]
fn debug_message_context_replaces_keys() {
    let msg = DebugLogMessage::new("p", DebugLogLevel::Debug, "m")
        .with_location("lib.rs", 7)
        .with_context("k", "1")
        .with_context("j", "2")
        .with_context("k", "3");
    assert_eq!(msg.file.as_deref(), Some("lib.rs"));
    assert_eq!(msg.line, Some(7));
    assert_eq!(msg.context, vec![("k".to_string(), "3".to_string()), ("j".to_string(), "2".to_string())]);
    assert_eq!(DebugLogLevel::Warn.name(), "WARN");
    assert!(DebugLogLevel::Error.rank() > DebugLogLevel::Trace.rank());
}
