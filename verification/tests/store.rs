use vantis::market::{
    Developer, MarketError, MarketplacePlugin, PluginManifest, PluginMarketplace, PluginStats, PluginSubmission,
    SearchFilters, UserRating,
};
use vantis::metrics::Metrics;
use vantis::monitoring::Counter;
use vantis::store_catalog::{
    MarketplaceConfig, Platform, PluginCategory, PluginEngines, PluginStatus, SubmissionStatus,
};

fn now() -> i64 {
    chrono::Utc::now().timestamp()
}

fn test_plugin(id: &str, status: PluginStatus) -> MarketplacePlugin {
    MarketplacePlugin {
        id: id.to_string(),
        name: "Test Plugin".to_string(),
        version: "1.0.0".to_string(),
        status,
        author: "Test".to_string(),
        author_id: "dev1".to_string(),
        description: "Test".to_string(),
        categories: vec![PluginCategory::Other],
        tags: vec![],
        homepage: None,
        repository: None,
        license: "MIT".to_string(),
        download_url: "https://example.com/plugin.wasm".to_string(),
        checksum: "abc123".to_string(),
        platforms: vec![Platform::All],
        min_version: "1.0.0".to_string(),
        max_version: None,
        published_at: None,
        updated_at: now(),
        icon_url: None,
        screenshots: vec![],
        changelog: vec![],
        dependencies: vec![],
        stats: PluginStats::default(),
        verified: false,
        featured: false,
    }
}

fn rating(id: &str, stars: u8) -> UserRating {
    UserRating {
        id: id.to_string(),
        user_id: "u1".to_string(),
        plugin_id: "test-plugin".to_string(),
        rating: stars,
        title: "Great plugin!".to_string(),
        review: "Excellent work!".to_string(),
        created_at: now(),
        helpful_count: 0,
        verified: true,
    }
}

fn developer(id: &str) -> Developer {
    Developer {
        id: id.to_string(),
        username: "testdev".to_string(),
        display_name: "Test Developer".to_string(),
        email: "test@example.com".to_string(),
        avatar_url: None,
        bio: None,
        website: None,
        verified: false,
        trusted: false,
        total_plugins: 0,
        total_downloads: 0,
        created_at: now(),
    }
}

#[test]
fn test_marketplace_creation() {
    let marketplace = PluginMarketplace::default_config();
    assert!(marketplace.config().enabled);
}

#[test]
fn test_register_developer() {
    let mut marketplace = PluginMarketplace::default_config();
    assert!(marketplace.register_developer(developer("dev1")).is_ok());
}

#[test]
fn test_submit_rating() {
    let mut marketplace = PluginMarketplace::default_config();
    marketplace.add_plugin(test_plugin("test-plugin", PluginStatus::Approved));
    assert!(marketplace.submit_rating(rating("r1", 5)).is_ok());
    let summary = marketplace.get_rating_summary("test-plugin");
    assert!(summary.is_some());
    let summary = summary.unwrap();
    assert_eq!(summary.total_score as f64 / summary.total_ratings as f64, 5.0);
}

#[test]
fn test_record_download() {
    let mut marketplace = PluginMarketplace::default_config();
    marketplace.add_plugin(test_plugin("test-plugin", PluginStatus::Approved));
    assert!(marketplace.record_download("test-plugin", Platform::Linux, "1.0.0").is_ok());
    let stats = marketplace.get_download_stats("test-plugin");
    assert!(stats.is_some());
    assert_eq!(stats.unwrap().total, 1);
}

#[test]
fn developers_are_unique() {
    let mut m = PluginMarketplace::default_config();
    assert!(m.register_developer(developer("dev1")).is_ok());
    assert_eq!(m.register_developer(developer("dev1")), Err(MarketError::DeveloperExists));
    assert_eq!(m.get_developer("dev1").unwrap().username, "testdev");
    assert!(m.get_developer("dev2").is_none());
    assert_eq!(MarketError::DeveloperExists.message(), "Developer already exists");
}

#[test]
fn ratings_are_summarised() {
    let mut m = PluginMarketplace::default_config();
    m.add_plugin(test_plugin("test-plugin", PluginStatus::Approved));
    assert_eq!(m.submit_rating(rating("bad", 0)), Err(MarketError::InvalidRating));
    assert_eq!(m.submit_rating(rating("bad", 6)), Err(MarketError::InvalidRating));
    assert!(m.get_rating_summary("test-plugin").is_none());
    for (i, stars) in [4u8, 5, 3, 5, 5, 1, 2, 4, 4, 5, 3].iter().enumerate() {
        assert!(m.submit_rating(rating(&format!("r{}", i), *stars)).is_ok());
    }
    let s = m.get_rating_summary("test-plugin").unwrap();
    assert_eq!(s.total_ratings, 11);
    assert_eq!(s.total_score, 41);
    assert_eq!(s.rating_distribution, [1, 1, 2, 3, 4]);
    assert_eq!(s.recent_ratings.len(), 10);
    assert_eq!(s.recent_ratings[0].id, "r1");
    assert_eq!(s.recent_ratings[9].id, "r10");
    let p = m.get_plugin("test-plugin").unwrap();
    assert_eq!(p.stats.rating_total, 41);
    assert_eq!(p.stats.rating_count, 11);
}

#[test]
fn downloads_are_counted() {
    let mut m = PluginMarketplace::default_config();
    m.add_plugin(test_plugin("p", PluginStatus::Approved));
    m.record_download("p", Platform::Linux, "1.0.0").unwrap();
    m.record_download("p", Platform::Linux, "1.1.0").unwrap();
    m.record_download("p", Platform::Windows, "1.1.0").unwrap();
    m.record_download("other", Platform::MacOS, "2.0").unwrap();
    let s = m.get_download_stats("p").unwrap();
    assert_eq!(s.total, 3);
    let linux = s.by_platform.iter().find(|(k, _)| k == "Linux").map(|(_, v)| *v);
    assert_eq!(linux, Some(2));
    let v11 = s.by_version.iter().find(|(k, _)| k == "1.1.0").map(|(_, v)| *v);
    assert_eq!(v11, Some(2));
    let p = m.get_plugin("p").unwrap();
    assert_eq!(p.stats.total_downloads, 3);
    assert_eq!(p.stats.daily_downloads, 3);
    assert_eq!(p.stats.weekly_downloads, 3);
    assert_eq!(p.stats.monthly_downloads, 3);
    assert_eq!(m.get_download_stats("other").unwrap().total, 1);
}

fn submission(id: &str, plugin_id: &str) -> PluginSubmission {
    PluginSubmission {
        id: id.to_string(),
        plugin_id: plugin_id.to_string(),
        version: "1.0.0".to_string(),
        submitter_id: "dev1".to_string(),
        submitted_at: 0,
        status: SubmissionStatus::Pending,
        review_notes: None,
        reviewer_id: None,
        reviewed_at: None,
        manifest: PluginManifest {
            name: "P".to_string(),
            version: "1.0.0".to_string(),
            description: "d".to_string(),
            author: "a".to_string(),
            license: "MIT".to_string(),
            main: "main.wasm".to_string(),
            homepage: None,
            repository: None,
            keywords: vec![],
            categories: vec![],
            engines: PluginEngines { vantis: ">=1.0".to_string() },
            dependencies: vec![],
        },
    }
}

#[test]
fn submissions_and_reviews() {
    let mut m = PluginMarketplace::default_config();
    m.add_plugin(test_plugin("p", PluginStatus::Pending));
    assert!(m.submit_plugin(submission("s1", "p")).is_ok());
    assert_eq!(m.submit_plugin(submission("s2", "p")), Err(MarketError::PendingSubmissionExists));
    assert!(m.submit_plugin(submission("s3", "q")).is_ok());
    assert!(m.approve_submission_at("s1", "rev", Some("ok".to_string()), 1000).is_ok());
    let p = m.get_plugin("p").unwrap();
    assert_eq!(p.status, PluginStatus::Approved);
    assert_eq!(p.published_at, Some(1000));
    assert_eq!(p.updated_at, 1000);
    assert!(m.submit_plugin(submission("s2", "p")).is_ok());
    assert!(m.reject_submission_at("s2", "rev", "no".to_string(), 2000).is_ok());
    let p = m.get_plugin("p").unwrap();
    assert_eq!(p.status, PluginStatus::Rejected);
    assert_eq!(p.published_at, Some(1000));
    assert_eq!(p.updated_at, 2000);
    assert!(m.approve_submission("missing", "rev", None).is_ok());
    let mut off = PluginMarketplace::new(MarketplaceConfig { enabled: false, ..MarketplaceConfig::default() });
    assert_eq!(off.submit_plugin(submission("s1", "p")), Err(MarketError::Disabled));
}

#[test]
fn distribution_and_checksums() {
    let mut m = PluginMarketplace::default_config();
    m.add_plugin(test_plugin("ok", PluginStatus::Approved));
    m.add_plugin(test_plugin("draft", PluginStatus::Draft));
    assert_eq!(m.get_download_url("ok", None).unwrap(), "https://example.com/plugin.wasm");
    assert_eq!(m.get_download_url("draft", Some("1.0.0")), Err(MarketError::PluginNotApproved));
    assert_eq!(m.get_download_url("none", None), Err(MarketError::PluginNotFound));
    assert_eq!(m.verify_checksum("ok", "abc123"), Ok(true));
    assert_eq!(m.verify_checksum("ok", "abc"), Ok(false));
    assert_eq!(m.verify_checksum("none", "abc"), Err(MarketError::PluginNotFound));
}

#[test]
fn catalog_search() {
    let mut m = PluginMarketplace::default_config();
    let mut a = test_plugin("a", PluginStatus::Approved);
    a.name = "Subtitle Sync".to_string();
    a.categories = vec![PluginCategory::Subtitles];
    a.platforms = vec![Platform::Linux];
    a.featured = true;
    let mut b = test_plugin("b", PluginStatus::Approved);
    b.name = "Equalizer".to_string();
    b.tags = vec!["AUDIO".to_string()];
    b.author_id = "dev2".to_string();
    let mut c = test_plugin("c", PluginStatus::Draft);
    c.name = "Subtitle Draft".to_string();
    m.add_plugin(a);
    m.add_plugin(b);
    m.add_plugin(c);
    let ids = |v: Vec<&MarketplacePlugin>| v.iter().map(|p| p.id.clone()).collect::<Vec<_>>();
    assert_eq!(ids(m.search_plugins("", SearchFilters::default())), vec!["a", "b"]);
    assert_eq!(ids(m.search_plugins("SUBTITLE", SearchFilters::default())), vec!["a"]);
    assert_eq!(ids(m.search_plugins("audio", SearchFilters::default())), vec!["b"]);
    let linux = SearchFilters { platform: Some(Platform::Linux), ..SearchFilters::default() };
    assert_eq!(ids(m.search_plugins("", linux)), vec!["a", "b"]);
    let windows = SearchFilters { platform: Some(Platform::Windows), ..SearchFilters::default() };
    assert_eq!(ids(m.search_plugins("", windows)), vec!["b"]);
    let subs = SearchFilters { category: Some(PluginCategory::Subtitles), ..SearchFilters::default() };
    assert_eq!(ids(m.search_plugins("", subs)), vec!["a"]);
    assert_eq!(ids(m.get_featured_plugins()), vec!["a"]);
    assert_eq!(ids(m.get_plugins_by_category(&PluginCategory::Other)), vec!["b"]);
    assert_eq!(ids(m.get_plugins_by_developer("dev2")), vec!["b"]);
    let mut a2 = test_plugin("a", PluginStatus::Removed);
    a2.name = "Gone".to_string();
    m.add_plugin(a2);
    assert_eq!(ids(m.search_plugins("", SearchFilters::default())), vec!["b"]);
}

#[test]
fn test_metrics_increment() {
    let mut metrics = Metrics::new();
    metrics.increment(&Counter::MediaPlayed);
    metrics.increment(&Counter::MediaPlayed);
    let snapshot = metrics.snapshot();
    assert_eq!(snapshot.media_played, 2);
}

#[test]
fn test_metrics_custom() {
    let mut metrics = Metrics::new();
    metrics.increment_custom("custom_metric");
    metrics.increment_custom("custom_metric");
    let snapshot = metrics.snapshot();
    assert_eq!(snapshot.custom_value("custom_metric"), Some(2));
}

#[test]
fn metrics_counters_and_reset() {
    let mut m = Metrics::new();
    m.increment(&Counter::Errors);
    m.increment(&Counter::Crashes);
    m.increment(&Counter::PluginsLoaded);
    m.add_playback_time(90);
    m.set_custom("x", 7);
    m.set_custom("x", 3);
    m.set_custom("y", u64::MAX);
    m.increment_custom("y");
    let s = m.snapshot();
    assert_eq!((s.errors, s.crashes, s.plugins_loaded, s.media_played), (1, 1, 1, 0));
    assert_eq!(s.playback_time_seconds, 90);
    assert_eq!(s.custom_value("x"), Some(3));
    assert_eq!(s.custom_value("y"), Some(0));
    assert_eq!(s.custom_value("z"), None);
    m.reset();
    let s = m.snapshot();
    assert_eq!(s.playback_time_seconds, 0);
    assert_eq!(s.errors, 0);
    assert_eq!(s.custom_value("x"), None);
}
