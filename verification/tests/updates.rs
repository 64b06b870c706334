use vantis::autoupdate::{
    check_plugin_update, InstalledPlugin, PluginAutoUpdater, RollbackInfo, UpdateConfig, UpdateType, UpdaterError,
};
use vantis::plugin_marketplace::{
    download_matches, install_step, lower_hex_text, InstallAction, InstallEvent, InstallPhase, InstallStage,
    InstallState, download_file_name, select_version, AuthorInfo, CachedPlugin, MarketplaceCache, MarketplaceError, PluginListing,
    PluginMarketplace, PluginVersion, SignatureStatus,
};
use vantis::sdk_types::{HookResult, PluginMessage};

fn listing(id: &str, latest: &str, versions: Vec<PluginVersion>) -> PluginListing {
    PluginListing {
        id: id.to_string(),
        name: "Test Plugin".to_string(),
        description: "A test plugin".to_string(),
        author: AuthorInfo { id: "author-1".to_string(), name: "Test Author".to_string(), avatar_url: None, verified: false },
        latest_version: latest.to_string(),
        versions,
        downloads: 100,
        rating_hundredths: 450,
        rating_count: 10,
        categories: vec![],
        tags: vec![],
        platforms: vec![],
        homepage: None,
        repository: None,
        license: "MIT".to_string(),
        updated_at: chrono::Utc::now().timestamp(),
        verified: false,
        signature_status: SignatureStatus::Unsigned,
    }
}

fn version(v: &str, url: &str, changelog: Option<&str>) -> PluginVersion {
    PluginVersion {
        version: v.to_string(),
        released_at: 0,
        changelog: changelog.map(|c| c.to_string()),
        download_url: url.to_string(),
        size: 10,
        sha256: String::new(),
        signature_url: None,
        min_api_version: 1,
        max_api_version: None,
        dependencies: vec![],
    }
}

#[test]
fn test_cached_plugin_freshness() {
    let cached = CachedPlugin { metadata: listing("test-plugin", "1.0.0", vec![]), cached_at: chrono::Utc::now().timestamp() };

    assert!(cached.is_fresh(3600));
}

#[test]
fn cache_keeps_fresh_listings_until_refreshed() {
    let mut cache = MarketplaceCache::default();
    assert!(cache.fresh_listing("a", 0).is_none());
    cache.remember("a", listing("a", "1.0.0", vec![]), 1000);
    assert_eq!(cache.fresh_listing("a", 4599).unwrap().id, "a");
    assert!(cache.fresh_listing("a", 4600).is_none());
    cache.clear_at(2000);
    assert!(cache.fresh_listing("a", 1001).is_none());

    let mut m = PluginMarketplace::with_default_endpoint("/tmp/dl", "/tmp/inst");
    assert_eq!(m.plugin_url("x"), "https://marketplace.vantis.io/api/v1/plugins/x");
    assert_eq!(m.reviews_url("x"), "https://marketplace.vantis.io/api/v1/plugins/x/reviews");
    assert_eq!(m.category_url("audio"), "https://marketplace.vantis.io/api/v1/plugins/category/audio");
    assert_eq!(m.search_url(), "https://marketplace.vantis.io/api/v1/plugins/search");
    assert_eq!(m.featured_url(), "https://marketplace.vantis.io/api/v1/plugins/featured");
    m.remember_plugin_at("x", listing("x", "2.0.0", vec![]), 10);
    assert_eq!(m.cached_plugin_at("x", 11).unwrap().latest_version, "2.0.0");
    m.refresh_cache_at(12).unwrap();
    assert!(m.cached_plugin_at("x", 13).is_none());
    assert_eq!(m.download_directory(), "/tmp/dl");
}

#[test]
fn versions_are_chosen_and_named() {
    let l = listing(
        "p",
        "2.0.0",
        vec![version("2.0.0", "https://cdn.example/files/p", Some("new")), version("1.0.0", "plain", None)],
    );
    assert_eq!(select_version(&l, None).unwrap().version, "2.0.0");
    assert_eq!(select_version(&l, Some("1.0.0")).unwrap().download_url, "plain");
    assert_eq!(select_version(&l, Some("3.0.0")).unwrap_err(), MarketplaceError::NotFound("Version 3.0.0 not found".to_string()));
    let empty = listing("p", "1.0.0", vec![]);
    assert_eq!(select_version(&empty, None).unwrap_err(), MarketplaceError::NotFound("No versions available".to_string()));
    assert_eq!(download_file_name(&l.versions[0]), "p-2.0.0.wasm");
    assert_eq!(download_file_name(&l.versions[1]), "plain-1.0.0.wasm");
    assert_eq!(download_file_name(&version("1.2", "https://x/y/", None)), "-1.2.wasm");
}

fn installed(id: &str, v: &str) -> InstalledPlugin {
    InstalledPlugin {
        id: id.to_string(),
        name: id.to_uppercase(),
        version: v.to_string(),
        path: format!("/plugins/{}", id),
        last_check: None,
        auto_update: true,
    }
}

fn backup(id: &str, v: &str, at: i64) -> RollbackInfo {
    RollbackInfo { plugin_id: id.to_string(), version: v.to_string(), backup_path: format!("/backups/{}-{}", id, v), created_at: at }
}

#[test]
fn updater_checks_listings_and_rolls_back() {
    let mut u = PluginAutoUpdater::new(UpdateConfig::default(), "/plugins", "/backups");
    u.register_plugin(installed("a", "1.0.0"));
    u.register_plugin(installed("b", "1.2.0"));
    u.register_plugin(installed("c", "0.1.0"));

    let st = check_plugin_update("a", "1.0.0", &listing("a", "1.1.0", vec![version("1.1.0", "u", Some("fixes"))])).unwrap();
    assert_eq!((st.update_type, st.changelog.as_deref()), (UpdateType::Minor, Some("fixes")));
    assert!(check_plugin_update("a", "1.1.0", &listing("a", "1.1.0", vec![])).is_none());

    let lookups = vec![
        Ok(listing("a", "2.0.0", vec![])),
        Ok(listing("b", "1.2.0", vec![])),
        Err("Network error: timeout".to_string()),
    ];
    let result = u.check_for_updates_with(&lookups, 77);
    assert_eq!(result.checked_at, 77);
    assert_eq!(result.updates.len(), 1);
    assert_eq!((result.updates[0].plugin_id.as_str(), result.updates[0].update_type), ("a", UpdateType::Major));
    assert_eq!(result.errors.len(), 1);
    assert_eq!((result.errors[0].plugin_id.as_str(), result.errors[0].error.as_str()), ("c", "Network error: timeout"));

    // Backups beyond the configured three are dropped, oldest first.
    for (i, v) in ["1.0.0", "1.1.0", "1.2.0"].iter().enumerate() {
        assert!(u.record_backup(backup("a", v, i as i64)).is_empty());
    }
    let dropped = u.record_backup(backup("a", "1.3.0", 3));
    assert_eq!(dropped.len(), 1);
    assert_eq!(dropped[0].version, "1.0.0");
    let kept: Vec<&str> = u.get_rollbacks("a").iter().map(|r| r.version.as_str()).collect();
    assert_eq!(kept, vec!["1.1.0", "1.2.0", "1.3.0"]);

    u.set_installed_version("a", "2.0.0".to_string());
    assert_eq!(u.get_installed("a").unwrap().version, "2.0.0");
    assert_eq!(u.latest_rollback("a").unwrap().version, "1.3.0");
    u.finish_rollback("a").unwrap();
    assert_eq!(u.get_installed("a").unwrap().version, "1.3.0");
    assert_eq!(u.get_rollbacks("a").len(), 2);

    assert_eq!(u.finish_rollback("b"), Err(UpdaterError::NoRollback("b".to_string())));
    assert_eq!(u.latest_rollback("b").unwrap_err().message(), "No rollback available for b");
    u.finish_rollback("a").unwrap();
    u.finish_rollback("a").unwrap();
    assert_eq!(u.finish_rollback("a"), Err(UpdaterError::NoRollbackVersions));
    assert_eq!(u.get_installed("a").unwrap().version, "1.1.0");

    u.set_plugin_auto_update("b", false);
    assert!(!u.get_installed("b").unwrap().auto_update);
    u.unregister_plugin("b");
    assert_eq!(u.get_installed("b").unwrap_err().message(), "Plugin b not found");
    u.mark_notification_read("none");
    u.clear_notifications();
    assert!(u.get_notifications().is_empty());
}

#[test]
fn test_plugin_message() {
    let mut payload = serde_json::Map::new();
    payload.insert("key".to_string(), serde_json::Value::String("value".to_string()));
    let msg = PluginMessage::new("plugin-a", "plugin-b", "test").with_payload(serde_json::Value::Object(payload));

    assert_eq!(msg.from, "plugin-a");
    assert_eq!(msg.to, "plugin-b");
    assert_eq!(msg.message_type, "test");
}

#[test]
fn messages_and_hook_results() {
    let m = PluginMessage::new_at("a", "b", "ping", 42);
    assert_eq!((m.timestamp, m.payload.is_null()), (42, true));
    let b = PluginMessage::broadcast("a", "hello");
    assert_eq!(b.to, "broadcast");
    assert!(matches!(HookResult::Error("x".to_string()), HookResult::Error(e) if e == "x"));
}

#[test]
fn download_hash_is_checked_as_lowercase_hex() {
    assert_eq!(lower_hex_text(&[0x00, 0x0f, 0xa5, 0xff]), "000fa5ff");
    let mut v = version("1.0.0", "https://x/p.wasm", None);
    v.sha256 = "ba7816bf8f01cfea414140de5dae2223b00361a396177a9cb410ff61f20015ad".to_string();
    assert!(download_matches(b"abc", &v));
    assert!(!download_matches(b"abd", &v));
    v.sha256 = v.sha256.to_uppercase();
    assert!(!download_matches(b"abc", &v));
}

fn report(a: &InstallAction) -> (InstallPhase, u8, String) {
    match a {
        InstallAction::Report(p) => (p.phase, p.progress, p.message.clone()),
        other => panic!("expected a report, got {:?}", other),
    }
}

#[test]
fn install_steps_through_its_phases() {
    let s = InstallState::new("Echo", "1.2.0");
    let (s, a) = install_step(s, InstallEvent::Begin);
    assert_eq!(s.stage, InstallStage::Downloading);
    assert_eq!(report(&a), (InstallPhase::Downloading, 0, "Downloading Echo v1.2.0...".to_string()));
    let (s, a) = install_step(s, InstallEvent::Downloaded { hash_matches: true });
    assert_eq!(report(&a), (InstallPhase::Verifying, 50, "Verifying signature...".to_string()));
    let (s, a) = install_step(s, InstallEvent::Verified);
    assert_eq!(report(&a), (InstallPhase::Installing, 75, "Installing...".to_string()));
    let (s, a) = install_step(s, InstallEvent::Installed);
    assert_eq!(s.stage, InstallStage::Done);
    assert_eq!(report(&a), (InstallPhase::Done, 100, "Echo installed successfully!".to_string()));
    let (s, a) = install_step(s, InstallEvent::Begin);
    assert_eq!(s.stage, InstallStage::Done);
    assert!(matches!(a, InstallAction::Wait));

    let (s, _) = install_step(InstallState::new("Echo", "1.2.0"), InstallEvent::Begin);
    let (s, a) = install_step(s, InstallEvent::Downloaded { hash_matches: false });
    assert_eq!(s.stage, InstallStage::Failed);
    assert!(matches!(a, InstallAction::Fail(MarketplaceError::InstallationFailed(m)) if m == "Downloaded file hash mismatch"));
    let (s, a) = install_step(s, InstallEvent::Verified);
    assert_eq!(s.stage, InstallStage::Failed);
    assert!(matches!(a, InstallAction::Wait));
}
