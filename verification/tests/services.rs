use vantis::autoupdate::{compare_versions, UpdateChannel, UpdateConfig, UpdateType};
use vantis::cloud_storage::{is_drive_folder, DropboxConfig, GoogleDriveConfig, GoogleDriveQuota};
use vantis::integrations::{ConnectionStatus, IntegrationManagerBuilder, IntegrationProvider};
use vantis::ipc::IPCGuard;
use vantis::plugin_marketplace::{cache_is_fresh, MarketplaceError, Platform, SearchQuery, SortBy, SortOrder};
use vantis::podcast::{parse_duration, podcast_categories, PodcastConfig};
use vantis::spotify::SpotifyConfig;
use vantis::youtube::parse_youtube_duration;

#[test]
fn test_parse_duration() {
    assert_eq!(parse_duration("1:23:45"), Some(5025));
    assert_eq!(parse_duration("45:30"), Some(2730));
    assert_eq!(parse_duration("120"), Some(120));
    assert_eq!(parse_duration("invalid"), None);
}

#[test]
fn podcast_duration_edge_cases() {
    assert_eq!(parse_duration("1:2:3:4"), None);
    assert_eq!(parse_duration(":30"), None);
    assert_eq!(parse_duration("+5:+1"), Some(301));
    assert_eq!(parse_duration(""), None);
}

#[test]
fn test_parse_youtube_duration() {
    assert_eq!(parse_youtube_duration("PT1H2M3S"), Some(3723));
    assert_eq!(parse_youtube_duration("PT5M30S"), Some(330));
    assert_eq!(parse_youtube_duration("PT45S"), Some(45));
    assert_eq!(parse_youtube_duration("PT1H"), Some(3600));
    assert_eq!(parse_youtube_duration("invalid"), None);
}

#[test]
fn youtube_duration_skips_units_without_numbers() {
    assert_eq!(parse_youtube_duration("PTH5S"), Some(5));
    assert_eq!(parse_youtube_duration("PT0S"), None);
    assert_eq!(parse_youtube_duration("P1DT2M"), Some(720));
}

#[test]
fn podcast_catalog_and_defaults() {
    let cats = podcast_categories();
    assert_eq!(cats.len(), 12);
    assert_eq!(cats[0].name, "Arts");
    assert_eq!(cats[0].subcategories.len(), 3);
    assert_eq!(cats[11].id, 1316);
    assert_eq!(PodcastConfig::default().max_episodes_per_feed, 100);
}

#[test]
fn test_update_config_default() {
    let config = UpdateConfig::default();
    assert!(config.auto_update_enabled);
    assert!(config.auto_check_enabled);
    assert_eq!(config.check_interval_seconds, 3600);
    assert_eq!(config.channel, UpdateChannel::Stable);
}

#[test]
fn test_version_comparison() {
    assert_eq!(compare_versions("1.0.0", "2.0.0"), UpdateType::Major);
    assert_eq!(compare_versions("1.0.0", "1.1.0"), UpdateType::Minor);
    assert_eq!(compare_versions("1.0.0", "1.0.1"), UpdateType::Patch);
    assert_eq!(compare_versions("1.0.0", "1.0.0"), UpdateType::NoUpdate);
}

#[test]
fn version_comparison_edge_cases() {
    assert_eq!(compare_versions("1", "2.0.0"), UpdateType::NoUpdate);
    assert_eq!(compare_versions("1.x.0", "1.2.0"), UpdateType::Minor);
    assert_eq!(compare_versions("1.0", "1.0.5"), UpdateType::NoUpdate);
    assert_eq!(compare_versions("2.0.0", "1.9.9"), UpdateType::Minor);
}

#[test]
fn test_update_type_ordering() {
    assert!(UpdateType::Major != UpdateType::Minor);
    assert!(UpdateType::Minor != UpdateType::Patch);
}

#[test]
fn test_search_query_creation() {
    let query = SearchQuery {
        query: "video filter".to_string(),
        category: None,
        tags: vec![],
        platform: Some(Platform::Linux),
        sort_by: SortBy::Downloads,
        sort_order: SortOrder::Desc,
        page: 1,
        per_page: 20,
    };

    assert_eq!(query.query, "video filter");
    assert_eq!(query.page, 1);
}

#[test]
fn marketplace_cache_and_errors() {
    assert!(cache_is_fresh(100, 110, 3600));
    assert!(!cache_is_fresh(100, 3700, 3600));
    assert_eq!(MarketplaceError::NotFound("x".to_string()).message(), "Plugin not found: x");
    assert_eq!(MarketplaceError::SignatureFailed.message(), "Signature verification failed");
}

#[test]
fn test_connection_status() {
    assert_eq!(IntegrationProvider::Spotify.status(false, false, false), ConnectionStatus::Disconnected);
}

#[test]
fn connection_status_by_provider() {
    assert_eq!(IntegrationProvider::TMDB.status(true, false, false), ConnectionStatus::Connected);
    assert_eq!(IntegrationProvider::Spotify.status(true, false, false), ConnectionStatus::Disconnected);
    assert_eq!(IntegrationProvider::YouTube.status(true, true, true), ConnectionStatus::Expired);
    assert_eq!(IntegrationProvider::Dropbox.status(true, true, true), ConnectionStatus::Connected);
    assert!(IntegrationProvider::ITunes.is_connected(true, false));
    assert!(!IntegrationProvider::GoogleDrive.is_connected(true, false));
}

#[test]
fn integration_builder_collects_settings() {
    let b = IntegrationManagerBuilder::new()
        .with_tmdb("key".to_string())
        .with_spotify(SpotifyConfig::default())
        .with_filmweb();
    assert_eq!(b.tmdb_api_key.as_deref(), Some("key"));
    assert!(b.spotify_config.is_some());
    assert!(b.init_filmweb && !b.init_ipc);
    assert!(b.youtube_config.is_none());
}

#[test]
fn cloud_defaults_and_quota() {
    assert_eq!(GoogleDriveConfig::default().page_size, 100);
    assert_eq!(DropboxConfig::default().api_base_url, "https://api.dropboxapi.com/2");
    let q = GoogleDriveQuota::from_usage(100, 30);
    assert_eq!(q.available_bytes, 70);
    assert_eq!(GoogleDriveQuota::from_usage(10, 30).available_bytes, 0);
    assert!(is_drive_folder(&"application/vnd.google-apps.folder".to_string()));
    assert_eq!(SpotifyConfig::default().oauth.scopes.len(), 11);
}

#[test]
fn ipc_guard_settings_and_scan() {
    let mut guard = IPCGuard::new();
    guard.set_enabled(false);
    guard.set_antivirus_path("/usr/bin/scan");
    let r = guard.scan_buffer(b"data");
    assert!(r.clean && !r.scanned && r.threats.is_empty());
    let f = guard.scan_file("/nowhere", false).unwrap();
    assert!(f.clean && !f.scanned);
    guard.set_enabled(true);
    let r = guard.scan_buffer(b"data");
    assert!(r.clean && r.scanned && r.threats.is_empty());
    assert_eq!(guard.scan_file("/nowhere", false).unwrap_err(), "File not found: /nowhere");
    assert!(guard.scan_file("/here", true).unwrap().scanned);
}
