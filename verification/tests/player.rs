use vantis::media::{MediaFormat, PlaylistState, MAX_HISTORY};
use vantis::monitoring::{TelemetryConfig, TelemetryEvent, TelemetryQueue};
use vantis::store_catalog::MarketplaceConfig;
use vantis::wasm_plugins::{PluginInfo, PluginManager};
use vantis::webhooks::{build_discord_payload, build_slack_payload, Notification};

#[test]
fn test_plugin_info_creation() {
    let info = PluginInfo {
        name: "test_plugin".to_string(),
        version: "1.0.0".to_string(),
        author: "Test Author".to_string(),
        description: "Test plugin".to_string(),
        active: false,
    };

    assert_eq!(info.name, "test_plugin");
    assert_eq!(info.version, "1.0.0");
    assert_eq!(info.active, false);
}

#[test]
fn plugin_table_load_activate_unload() {
    let mut m = PluginManager::new();
    m.record_loaded("a.wasm");
    m.record_loaded("b.wasm");
    m.record_loaded("a.wasm");
    assert_eq!(m.get_plugins().len(), 2);
    m.deactivate_plugin("a.wasm");
    assert!(!m.is_active("a.wasm"));
    m.activate_plugin("a.wasm");
    assert!(m.is_active("a.wasm"));
    m.unload_plugin("b.wasm");
    assert_eq!(m.get_plugins().len(), 1);
    assert_eq!(m.get_plugins()[0].version, "1.0.0");
}

#[test]
fn media_formats_from_extensions() {
    assert_eq!(MediaFormat::from_extension("MP4"), MediaFormat::Mp4);
    assert_eq!(MediaFormat::from_extension("m3u8"), MediaFormat::Hls);
    assert_eq!(MediaFormat::from_extension("Wave"), MediaFormat::Wav);
    assert_eq!(MediaFormat::from_extension("txt"), MediaFormat::Unknown);
    assert!(MediaFormat::Mkv.is_video() && !MediaFormat::Mkv.is_audio());
    assert!(MediaFormat::Flac.is_audio());
    assert!(MediaFormat::Rtsp.is_streaming());
}

#[test]
fn playlist_navigation_and_removal() {
    let mut p = PlaylistState::new();
    assert!(p.current().is_none());
    p.add("a".to_string());
    p.add("b".to_string());
    p.add("c".to_string());
    assert_eq!(p.current().unwrap(), "a");
    assert_eq!(p.next().unwrap(), "b");
    assert_eq!(p.next().unwrap(), "c");
    assert!(p.next().is_none());
    assert_eq!(p.previous().unwrap(), "b");
    p.remove("c");
    assert_eq!(p.current().unwrap(), "b");
    p.remove("b");
    assert_eq!(p.current().unwrap(), "a");
    p.clear();
    assert!(p.current().is_none());
    for i in 0..(MAX_HISTORY + 5) {
        p.add(format!("item{}", i));
    }
    assert_eq!(p.current().unwrap(), "item0");
}

#[test]
fn test_notification_build() {
    let notification = Notification::Release {
        version: "1.0.0".to_string(),
        changelog: "Initial release".to_string(),
    };

    let payload = build_discord_payload(&notification);
    assert!(payload.content.is_some());
    assert_eq!(payload.embeds[0].title, "Version 1.0.0");
    assert_eq!(payload.embeds[0].color, 0x00FF00);
}

#[test]
fn ci_status_payloads() {
    let ok = Notification::CiStatus { status: "success".to_string(), branch: "main".to_string(), commit: "abc".to_string() };
    let bad = Notification::CiStatus { status: "failure".to_string(), branch: "main".to_string(), commit: "abc".to_string() };
    assert_eq!(build_discord_payload(&ok).embeds[0].color, 0x00FF00);
    assert_eq!(build_discord_payload(&bad).embeds[0].color, 0xFF0000);
    assert!(build_discord_payload(&ok).content.is_none());
    assert_eq!(build_slack_payload(&ok).attachments[0].color, "good");
    assert_eq!(build_slack_payload(&bad).attachments[0].color, "danger");
    assert_eq!(build_slack_payload(&bad).text, "CI: failure");
    assert_eq!(build_slack_payload(&bad).attachments[0].fields[1].value, "abc");
}

#[test]
fn test_telemetry_disabled() {
    let config = TelemetryConfig::default();
    assert!(!config.enabled);
}

#[test]
fn telemetry_queue_flushes_by_count_or_time() {
    let mut config = TelemetryConfig::default();
    let mut off = TelemetryQueue::new(&config);
    assert!(!off.track(TelemetryEvent::ErrorOccurred { error_type: "e".to_string(), component: "c".to_string() }, 99_999));
    assert!(off.take_events().is_empty());
    config.enabled = true;
    let mut q = TelemetryQueue::new(&config);
    for _ in 0..99 {
        assert!(!q.track(TelemetryEvent::Performance { operation: "op".to_string(), duration_ms: 1, success: true }, 0));
    }
    assert!(q.track(TelemetryEvent::Performance { operation: "op".to_string(), duration_ms: 1, success: true }, 0));
    assert_eq!(q.take_events().len(), 100);
    assert!(q.track(TelemetryEvent::Performance { operation: "op".to_string(), duration_ms: 1, success: true }, 30_001));
}

#[test]
fn store_defaults() {
    let c = MarketplaceConfig::default();
    assert_eq!(c.max_plugin_size, 50 * 1024 * 1024);
    assert!(c.require_review && !c.auto_approve_trusted);
}

#[test]
fn test_plugin_manager_default() {
    let manager = PluginManager::default();
    assert_eq!(manager.get_plugins().len(), 0);
}
