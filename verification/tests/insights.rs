use vantis::analytics::{
    AnalyticsConfig, DownloadEvent, ErrorEvent, ExportFormat, InstallationEvent, InstallationSource, Platform,
    PluginAnalyticsDashboard, UserImpact,
};

fn install(at: i64) -> InstallationEvent {
    InstallationEvent {
        timestamp: at,
        version: "1.0.0".to_string(),
        platform: Platform::Linux,
        country: None,
        source: InstallationSource::Marketplace,
    }
}

#[test]
fn installations_and_active_window() {
    let mut d = PluginAnalyticsDashboard::default_config();
    let day = 86_400;
    d.track_installation_at("p", install(0), 0);
    d.track_installation_at("p", install(10 * day), 10 * day);
    d.track_installation_at("p", install(40 * day), 40 * day);
    let stats = d.get_installation_stats("p");
    // Only the installations of the last thirty days before the latest are active.
    assert_eq!((stats.total, stats.active), (3, 1));
    d.track_uninstallation("p");
    let s = d.get_summary("p");
    assert_eq!((s.total_installations, s.active_installations, s.uninstallations), (3, 1, 1));
    assert_eq!(d.get_summary("other").total_installations, 0);

    // Cleaning up forgets old installations but keeps the counts.
    d.cleanup_at(100 * day);
    assert_eq!(d.get_installation_stats("p").total, 3);
    assert_eq!(
        d.export_html("p"),
        "<!DOCTYPE html><html><head><title>Plugin Analytics - p</title></head><body><h1>p</h1><p>Total Installations: 3</p><p>Active Installations: 1</p><p>Total Downloads: 0</p></body></html>"
    );
}

#[test]
fn sessions_errors_and_downloads() {
    let mut d = PluginAnalyticsDashboard::default_config();
    let id = d.start_session_at("p", "s1".to_string(), 100);
    assert_eq!(id, "s1");
    d.end_session_at("p", "s1", vec!["play".to_string()], 5, 0, 160);
    d.start_session_at("p", "s2".to_string(), 200);
    let u = d.get_usage_stats("p");
    // The average is taken at the end of a session.
    assert_eq!((u.session_seconds_total, u.sessions_averaged, u.total_sessions, u.daily_active_users), (60, 1, 2, 2));
    d.end_session_at("p", "s2", vec![], 0, 1, 230);
    let u = d.get_usage_stats("p");
    assert_eq!((u.session_seconds_total, u.sessions_averaged), (90, 2));

    d.track_error(
        "p",
        ErrorEvent {
            timestamp: 1,
            error_type: "Io".to_string(),
            message: "disk".to_string(),
            stack_trace: None,
            plugin_version: "1.0.0".to_string(),
            user_impact: UserImpact::Low,
        },
    );
    assert_eq!(d.get_error_stats("p").total_errors, 1);
    d.track_download(
        "p",
        DownloadEvent {
            timestamp: 2,
            version: "1.0.0".to_string(),
            platform: Platform::Windows,
            country: Some("PL".to_string()),
            source: InstallationSource::Manual,
        },
    );
    assert_eq!(d.get_download_stats("p").total, 1);
    assert_eq!(d.get_summary("p").total_downloads, 1);
    let generated = d.start_session("q");
    assert_eq!(generated.len(), 36);
}

#[test]
fn disabled_analytics_count_nothing() {
    let config = AnalyticsConfig {
        enabled: false,
        retention_days: 1,
        real_time_tracking: false,
        min_sample_size: 1,
        export_format: ExportFormat::CSV,
    };
    let mut d = PluginAnalyticsDashboard::new(config);
    d.track_installation_at("p", install(0), 0);
    d.track_uninstallation("p");
    assert_eq!(d.get_summary("p").total_installations, 0);
    assert_eq!(d.get_summary("p").uninstallations, 0);
}
