//! Plugin analytics: installations, usage sessions, errors and downloads
//! counted per plugin, the reports made from them, and their settings.
//!
//! Times are seconds since the Unix epoch. An installation counts as active
//! while it is less than thirty days old at the time of the latest
//! installation.

use vstd::prelude::*;

use crate::market::{first_index, keys_of, lemma_first_index, lemma_first_index_at, law_stored_record_found, position, record_of, stored, Keyed};
use crate::plugin::{random_uuid_text, v4_hyphenated_shape};
use crate::plugin_error::text3;
use crate::text::owned;
use crate::urls::u64_text;
use crate::text::decimal;

verus! {

/// Formats analytics can be exported in.
#[derive(Debug, Clone, Copy, PartialEq, Eq, Structural)]
pub enum ExportFormat {
    JSON,
    CSV,
    HTML,
}

/// Settings of plugin analytics.
#[derive(Debug, Clone, Copy, PartialEq, Eq, Structural)]
pub struct AnalyticsConfig {
    pub enabled: bool,
    pub retention_days: u32,
    pub real_time_tracking: bool,
    pub min_sample_size: usize,
    pub export_format: ExportFormat,
}

impl Default for AnalyticsConfig {
    fn default() -> (c: AnalyticsConfig)
        ensures
            c == (AnalyticsConfig {
                enabled: true,
                retention_days: 90,
                real_time_tracking: true,
                min_sample_size: 100,
                export_format: ExportFormat::JSON,
            }),
    {
        AnalyticsConfig {
            enabled: true,
            retention_days: 90,
            real_time_tracking: true,
            min_sample_size: 100,
            export_format: ExportFormat::JSON,
        }
    }
}

/// Platforms installations are counted by.
#[derive(Debug, Clone, Copy, PartialEq, Eq, Structural)]
pub enum Platform {
    Windows,
    MacOS,
    Linux,
    Unknown,
}

/// Where an installation came from.
#[derive(Debug, Clone, Copy, PartialEq, Eq, Structural)]
pub enum InstallationSource {
    Marketplace,
    Manual,
    Commandline,
    Update,
    Unknown,
}

/// Kinds of performance alert.
#[derive(Debug, Clone, Copy, PartialEq, Eq, Structural)]
pub enum PerformanceAlertType {
    HighMemoryUsage,
    HighCpuUsage,
    SlowResponse,
    SlowInitialization,
    MemoryLeak,
}

/// How serious an alert is.
#[derive(Debug, Clone, Copy, PartialEq, Eq, Structural)]
pub enum AlertSeverity {
    Info,
    Warning,
    Critical,
}

/// How much users feel a problem.
#[derive(Debug, Clone, Copy, PartialEq, Eq, Structural)]
pub enum UserImpact {
    /// Users do not notice it.
    NoImpact,
    Low,
    Medium,
    High,
    Critical,
}

/// Which way a measure is heading.
#[derive(Debug, Clone, Copy, PartialEq, Eq, Structural)]
pub enum TrendDirection {
    Increasing,
    Decreasing,
    Stable,
}

/// Installation counts of a plugin.
#[derive(Debug, Clone)]
pub struct InstallationStats {
    pub total: u64,
    pub active: u64,
    pub uninstallations: u64,
    /// Installations per platform, one entry per platform counted.
    pub by_platform: Vec<(Platform, u64)>,
    /// Installations per source, one entry per source counted.
    pub by_source: Vec<(InstallationSource, u64)>,
}

/// One installation of a plugin.
#[derive(Debug, Clone)]
pub struct InstallationEvent {
    pub timestamp: i64,
    pub version: String,
    pub platform: Platform,
    pub country: Option<String>,
    pub source: InstallationSource,
}

/// One session of a plugin's use.
#[derive(Debug, Clone)]
pub struct UsageSession {
    pub start_time: i64,
    pub end_time: Option<i64>,
    pub duration_seconds: u64,
    pub features_used: Vec<String>,
    pub actions_count: u64,
    pub errors_count: u64,
}

/// One error a plugin ran into.
#[derive(Debug, Clone)]
pub struct ErrorEvent {
    pub timestamp: i64,
    pub error_type: String,
    pub message: String,
    pub stack_trace: Option<String>,
    pub plugin_version: String,
    pub user_impact: UserImpact,
}

/// One download of a plugin.
#[derive(Debug, Clone)]
pub struct DownloadEvent {
    pub timestamp: i64,
    pub version: String,
    pub platform: Platform,
    pub country: Option<String>,
    pub source: InstallationSource,
}

/// What is counted of one plugin.
pub struct PluginRecord {
    plugin_id: String,
    total_installations: u64,
    installation_history: Vec<InstallationEvent>,
    active_installations: u64,
    uninstallations: u64,
    sessions: Vec<UsageSession>,
    /// Total and number of the session durations at the last session end
    session_average: (u128, u64),
    daily_active_users: u64,
    monthly_active_users: u64,
    error_count: u64,
    errors: Vec<ErrorEvent>,
    total_downloads: u64,
    downloads: Vec<DownloadEvent>,
}

impl Keyed for PluginRecord {
    closed spec fn key_view(&self) -> Seq<char> {
        self.plugin_id@
    }

    fn key(&self) -> (k: &String) {
        &self.plugin_id
    }
}

/// Thirty days, in seconds.
pub const ACTIVE_WINDOW_SECONDS: i64 = 2592000;

/// How many installations are later than `cutoff`.
pub open spec fn count_after(h: Seq<InstallationEvent>, cutoff: int) -> nat
    decreases h.len(),
{
    if h.len() == 0 {
        0
    } else {
        count_after(h.drop_last(), cutoff) + if h.last().timestamp > cutoff {
            1nat
        } else {
            0nat
        }
    }
}

/// The installations later than `cutoff`, in order.
pub open spec fn kept_after(h: Seq<InstallationEvent>, cutoff: int) -> Seq<InstallationEvent>
    decreases h.len(),
{
    if h.len() == 0 {
        h
    } else if h.last().timestamp > cutoff {
        kept_after(h.drop_last(), cutoff).push(h.last())
    } else {
        kept_after(h.drop_last(), cutoff)
    }
}

/// The total length of sessions.
pub open spec fn duration_total(s: Seq<UsageSession>) -> nat
    decreases s.len(),
{
    if s.len() == 0 {
        0
    } else {
        duration_total(s.drop_last()) + s.last().duration_seconds as nat
    }
}

/// The length of a session ended at `now`: the whole seconds since its
/// start, cut to 64 bits.
pub open spec fn session_seconds(start: i64, now: i64) -> u64 {
    (now - start) as u64
}

/// The figures of a plugin.
#[derive(Debug, Clone)]
pub struct PluginAnalyticsSummary {
    pub plugin_id: String,
    pub total_installations: u64,
    pub active_installations: u64,
    pub uninstallations: u64,
    pub total_downloads: u64,
    /// Total of the session durations at the last session end; the average
    /// session duration is this over `sessions_averaged`.
    pub session_seconds_total: u128,
    pub sessions_averaged: u64,
    pub daily_active_users: u64,
    pub monthly_active_users: u64,
    pub error_count: u64,
}

/// The usage figures of a plugin.
#[derive(Debug, Clone)]
pub struct UsageStats {
    pub session_seconds_total: u128,
    pub sessions_averaged: u64,
    pub daily_active_users: u64,
    pub monthly_active_users: u64,
    pub total_sessions: u64,
    /// Uses per feature, one entry per feature counted.
    pub feature_usage: Vec<(String, u64)>,
}

/// The error figures of a plugin.
#[derive(Debug, Clone)]
pub struct ErrorStats {
    pub total_errors: u64,
    /// Errors per impact, one entry per impact counted.
    pub by_impact: Vec<(UserImpact, u64)>,
}

/// The download figures of a plugin.
#[derive(Debug, Clone)]
pub struct DownloadStatsView {
    pub total: u64,
    /// Downloads per version, one entry per version counted.
    pub by_version: Vec<(String, u64)>,
    /// Downloads per platform, one entry per platform counted.
    pub by_platform: Vec<(Platform, u64)>,
}


/// The HTML report of a plugin's figures.
pub open spec fn html_report(plugin_id: Seq<char>, installs: u64, active: u64, downloads: u64) -> Seq<char> {
    "<!DOCTYPE html><html><head><title>Plugin Analytics - "@ + plugin_id + "</title></head><body><h1>"@ + plugin_id
        + "</h1><p>Total Installations: "@ + decimal(installs as nat) + "</p><p>Active Installations: "@ + decimal(
        active as nat,
    ) + "</p><p>Total Downloads: "@ + decimal(downloads as nat) + "</p></body></html>"@
}

/// A day, in seconds.
pub const DAY_SECONDS: i128 = 86400;

/// The analytics of every plugin.
pub struct PluginAnalyticsDashboard {
    records: Vec<PluginRecord>,
    config: AnalyticsConfig,
}

impl PluginAnalyticsDashboard {
    /// The settings.
    pub closed spec fn settings(&self) -> AnalyticsConfig {
        self.config
    }

    /// What is counted of a plugin, where anything is.
    pub closed spec fn record(&self, plugin_id: Seq<char>) -> Option<PluginRecord> {
        record_of(self.records@, plugin_id)
    }

    /// Installations counted.
    pub closed spec fn installations(&self, plugin_id: Seq<char>) -> u64 {
        match self.record(plugin_id) {
            Some(r) => r.total_installations,
            None => 0,
        }
    }

    /// Installations that were active at the latest installation.
    pub closed spec fn active_installations(&self, plugin_id: Seq<char>) -> u64 {
        match self.record(plugin_id) {
            Some(r) => r.active_installations,
            None => 0,
        }
    }

    /// The installations kept, in order.
    pub closed spec fn installation_log(&self, plugin_id: Seq<char>) -> Seq<InstallationEvent> {
        match self.record(plugin_id) {
            Some(r) => r.installation_history@,
            None => Seq::empty(),
        }
    }

    /// Uninstallations counted.
    pub closed spec fn uninstallations(&self, plugin_id: Seq<char>) -> u64 {
        match self.record(plugin_id) {
            Some(r) => r.uninstallations,
            None => 0,
        }
    }

    /// The sessions, in order.
    pub closed spec fn session_log(&self, plugin_id: Seq<char>) -> Seq<UsageSession> {
        match self.record(plugin_id) {
            Some(r) => r.sessions@,
            None => Seq::empty(),
        }
    }

    /// Total and number of the session durations at the last session end.
    pub closed spec fn session_average(&self, plugin_id: Seq<char>) -> (u128, u64) {
        match self.record(plugin_id) {
            Some(r) => r.session_average,
            None => (0, 0),
        }
    }

    /// Sessions started, counted as daily active users.
    pub closed spec fn daily_users(&self, plugin_id: Seq<char>) -> u64 {
        match self.record(plugin_id) {
            Some(r) => r.daily_active_users,
            None => 0,
        }
    }

    /// Errors counted.
    pub closed spec fn errors(&self, plugin_id: Seq<char>) -> u64 {
        match self.record(plugin_id) {
            Some(r) => r.error_count,
            None => 0,
        }
    }

    /// The errors, in order.
    pub closed spec fn error_log(&self, plugin_id: Seq<char>) -> Seq<ErrorEvent> {
        match self.record(plugin_id) {
            Some(r) => r.errors@,
            None => Seq::empty(),
        }
    }

    /// Downloads counted.
    pub closed spec fn downloads(&self, plugin_id: Seq<char>) -> u64 {
        match self.record(plugin_id) {
            Some(r) => r.total_downloads,
            None => 0,
        }
    }

    /// The downloads, in order.
    pub closed spec fn download_log(&self, plugin_id: Seq<char>) -> Seq<DownloadEvent> {
        match self.record(plugin_id) {
            Some(r) => r.downloads@,
            None => Seq::empty(),
        }
    }

    /// A plugin's installation figures are the same in both.
    pub open spec fn same_installs(&self, other: &PluginAnalyticsDashboard, q: Seq<char>) -> bool {
        &&& self.installations(q) == other.installations(q)
        &&& self.active_installations(q) == other.active_installations(q)
        &&& self.installation_log(q) == other.installation_log(q)
        &&& self.uninstallations(q) == other.uninstallations(q)
    }

    /// A plugin's usage figures are the same in both.
    pub open spec fn same_usage(&self, other: &PluginAnalyticsDashboard, q: Seq<char>) -> bool {
        &&& self.session_log(q) == other.session_log(q)
        &&& self.session_average(q) == other.session_average(q)
        &&& self.daily_users(q) == other.daily_users(q)
    }

    /// A plugin's error and download figures are the same in both.
    pub open spec fn same_errors_downloads(&self, other: &PluginAnalyticsDashboard, q: Seq<char>) -> bool {
        &&& self.errors(q) == other.errors(q)
        &&& self.error_log(q) == other.error_log(q)
        &&& self.downloads(q) == other.downloads(q)
        &&& self.download_log(q) == other.download_log(q)
    }

    /// `after` is this dashboard after the latest session of `plugin_id`
    /// ended at `now` with the given features and counts: where there is a
    /// session, it ends then, and the average session duration is taken
    /// anew over all of them; nothing else changes.
    pub open spec fn session_ended(
        &self,
        after: PluginAnalyticsDashboard,
        plugin_id: Seq<char>,
        features: Seq<String>,
        actions_count: u64,
        errors_count: u64,
        now: i64,
    ) -> bool {
        &&& (self.session_log(plugin_id).len() == 0 ==> after.session_log(plugin_id) == self.session_log(plugin_id) && after.session_average(plugin_id) == self.session_average(
                plugin_id,
            ))
        &&& (self.session_log(plugin_id).len() > 0 ==> {
                let prev = self.session_log(plugin_id);
                let ended = UsageSession {
                    end_time: Some(now),
                    duration_seconds: session_seconds(prev.last().start_time, now),
                    features_used: after.session_log(plugin_id).last().features_used,
                    actions_count,
                    errors_count,
                    ..prev.last()
                };
                &&& after.session_log(plugin_id) == prev.drop_last().push(ended)
                &&& after.session_log(plugin_id).last().features_used@ == features
                &&& after.session_average(plugin_id) == (
                    duration_total(after.session_log(plugin_id)) as u128,
                    prev.len() as u64,
                )
            })
        &&& (after.daily_users(plugin_id) == self.daily_users(plugin_id))
        &&& (after.same_installs(self, plugin_id))
        &&& (after.same_errors_downloads(self, plugin_id))
        &&& (after.others_kept(self, plugin_id))
    }

    /// Every other plugin's figures stay as they were.
    pub open spec fn others_kept(&self, other: &PluginAnalyticsDashboard, plugin_id: Seq<char>) -> bool {
        &&& forall|q: Seq<char>| q != plugin_id ==> #[trigger] self.record(q) == other.record(q)
        &&& self.settings() == other.settings()
    }

    /// A dashboard with these settings and nothing counted.
    pub fn new(config: AnalyticsConfig) -> (d: PluginAnalyticsDashboard)
        ensures
            d.settings() == config,
            forall|q: Seq<char>| #[trigger] d.record(q) is None,
    {
        let d = PluginAnalyticsDashboard { records: Vec::new(), config };
        proof {
            assert forall|q: Seq<char>| #[trigger] d.record(q) is None by {
                lemma_first_index(keys_of(d.records@), q);
            }
        }
        d
    }

    /// A dashboard with the default settings.
    pub fn default_config() -> (d: PluginAnalyticsDashboard)
        ensures
            d.settings() == (AnalyticsConfig {
                enabled: true,
                retention_days: 90,
                real_time_tracking: true,
                min_sample_size: 100,
                export_format: ExportFormat::JSON,
            }),
            forall|q: Seq<char>| #[trigger] d.record(q) is None,
    {
        PluginAnalyticsDashboard::new(AnalyticsConfig::default())
    }

    /// Takes a plugin's record out, or a fresh one with nothing counted.
    fn take_record(&mut self, plugin_id: &str) -> (r: (Option<usize>, PluginRecord))
        ensures
            final(self).config == old(self).config,
            r.0 is None ==> old(self).record(plugin_id@) is None && final(self).records@ == old(self).records@,
            r.0 matches Some(i) ==> i < old(self).records@.len() && first_index(keys_of(old(self).records@), plugin_id@)
                == Some(i as int) && old(self).record(plugin_id@) == Some(r.1) && final(self).records@ == old(
                self,
            ).records@.remove(i as int),
            r.1.plugin_id@ == plugin_id@,
            r.0 is None ==> r.1.total_installations == 0 && r.1.installation_history@ == Seq::<InstallationEvent>::empty()
                && r.1.active_installations == 0 && r.1.uninstallations == 0 && r.1.sessions@ == Seq::<UsageSession>::empty()
                && r.1.session_average == (0u128, 0u64) && r.1.daily_active_users == 0 && r.1.monthly_active_users
                == 0 && r.1.error_count == 0 && r.1.errors@ == Seq::<ErrorEvent>::empty() && r.1.total_downloads == 0
                && r.1.downloads@ == Seq::<DownloadEvent>::empty(),
    {
        match position(&self.records, plugin_id) {
            Some(i) => {
                proof {
                    lemma_first_index(keys_of(self.records@), plugin_id@);
                    assert(keys_of(self.records@)[i as int] == self.records@[i as int].key_view());
                }
                let r = self.records.remove(i);
                (Some(i), r)
            },
            None => {
                let fresh = PluginRecord {
                    plugin_id: owned(plugin_id),
                    total_installations: 0,
                    installation_history: Vec::new(),
                    active_installations: 0,
                    uninstallations: 0,
                    sessions: Vec::new(),
                    session_average: (0, 0),
                    daily_active_users: 0,
                    monthly_active_users: 0,
                    error_count: 0,
                    errors: Vec::new(),
                    total_downloads: 0,
                    downloads: Vec::new(),
                };
                assert(fresh.installation_history@ =~= Seq::<InstallationEvent>::empty());
                assert(fresh.sessions@ =~= Seq::<UsageSession>::empty());
                assert(fresh.errors@ =~= Seq::<ErrorEvent>::empty());
                assert(fresh.downloads@ =~= Seq::<DownloadEvent>::empty());
                (None, fresh)
            },
        }
    }

    /// Puts a record back where `take_record` took it from; it becomes the
    /// plugin's record and every other plugin's stays.
    fn put_record(&mut self, slot: Option<usize>, r: PluginRecord)
        requires
            match slot {
                Some(i) => i <= old(self).records@.len() && first_index(
                    keys_of(old(self).records@.insert(i as int, r)),
                    r.key_view(),
                ) == Some(i as int),
                None => first_index(keys_of(old(self).records@), r.key_view()) is None,
            },
        ensures
            final(self).config == old(self).config,
            final(self).records@ == match slot {
                Some(i) => old(self).records@.insert(i as int, r),
                None => old(self).records@.push(r),
            },
    {
        match slot {
            Some(i) => {
                self.records.insert(i, r);
            },
            None => {
                self.records.push(r);
            },
        }
    }

    /// Replaces a plugin's record: the plugin finds the new one and every
    /// other plugin finds what it found before.
    fn replace_record(&mut self, slot: Option<usize>, r: PluginRecord, Ghost(before): Ghost<Seq<PluginRecord>>)
        requires
            match slot {
                Some(i) => i < before.len() && first_index(keys_of(before), r.key_view()) == Some(i as int)
                    && old(self).records@ == before.remove(i as int),
                None => first_index(keys_of(before), r.key_view()) is None && old(self).records@ == before,
            },
        ensures
            final(self).config == old(self).config,
            final(self).records@ == stored(before, r),
            forall|q: Seq<char>| #[trigger] record_of(final(self).records@, q) == (if q == r.key_view() {
                Some(r)
            } else {
                record_of(before, q)
            }),
    {
        let ghost rv = r;
        proof {
            match slot {
                Some(i) => {
                    lemma_first_index(keys_of(before), r.key_view());
                    let ks = keys_of(before.remove(i as int).insert(i as int, r));
                    assert(before.remove(i as int).insert(i as int, r) =~= before.update(i as int, r));
                    assert(ks =~= keys_of(before).update(i as int, r.key_view()));
                    lemma_first_index_at(ks, r.key_view(), i as int);
                },
                None => {},
            }
        }
        self.put_record(slot, r);
        proof {
            match slot {
                Some(i) => {
                    assert(self.records@ =~= before.update(i as int, rv));
                },
                None => {},
            }
            assert forall|q: Seq<char>| #[trigger] record_of(self.records@, q) == (if q == rv.key_view() {
                Some(rv)
            } else {
                record_of(before, q)
            }) by {
                law_stored_record_found(before, rv, q);
            }
        }
    }

    /// Counts an installation of a plugin at `now`, where analytics are
    /// enabled: the installations active afterwards are those less than
    /// thirty days old.
    pub fn track_installation_at(&mut self, plugin_id: &str, event: InstallationEvent, now: i64)
        requires
            old(self).settings().enabled ==> old(self).installations(plugin_id@) < u64::MAX,
        ensures
            !old(self).settings().enabled ==> *final(self) == *old(self),
            old(self).settings().enabled ==> {
                &&& final(self).installations(plugin_id@) == old(self).installations(plugin_id@) + 1
                &&& final(self).installation_log(plugin_id@) == old(self).installation_log(plugin_id@).push(event)
                &&& final(self).active_installations(plugin_id@) == count_after(
                    final(self).installation_log(plugin_id@),
                    now - ACTIVE_WINDOW_SECONDS,
                )
                &&& final(self).uninstallations(plugin_id@) == old(self).uninstallations(plugin_id@)
                &&& final(self).same_usage(old(self), plugin_id@)
                &&& final(self).same_errors_downloads(old(self), plugin_id@)
                &&& final(self).others_kept(old(self), plugin_id@)
            },
    {
        if !self.config.enabled {
            return;
        }
        let ghost before = self.records@;
        let (slot, mut r) = self.take_record(plugin_id);
        r.total_installations = r.total_installations + 1;
        r.installation_history.push(event);
        let cutoff: i128 = now as i128 - ACTIVE_WINDOW_SECONDS as i128;
        let mut count: u64 = 0;
        let mut k: usize = 0;
        while k < r.installation_history.len()
            invariant
                k <= r.installation_history@.len(),
                count == count_after(r.installation_history@.take(k as int), cutoff as int),
                count <= k,
            decreases r.installation_history.len() - k,
        {
            assert(r.installation_history@.take(k + 1).drop_last() =~= r.installation_history@.take(k as int));
            if r.installation_history[k].timestamp as i128 > cutoff {
                count = count + 1;
            }
            k = k + 1;
        }
        assert(r.installation_history@.take(k as int) =~= r.installation_history@);
        r.active_installations = count;
        self.replace_record(slot, r, Ghost(before));
    }

    /// Counts an uninstallation of a plugin, where analytics are enabled.
    pub fn track_uninstallation(&mut self, plugin_id: &str)
        requires
            old(self).settings().enabled ==> old(self).uninstallations(plugin_id@) < u64::MAX,
        ensures
            !old(self).settings().enabled ==> *final(self) == *old(self),
            old(self).settings().enabled ==> {
                &&& final(self).uninstallations(plugin_id@) == old(self).uninstallations(plugin_id@) + 1
                &&& final(self).installations(plugin_id@) == old(self).installations(plugin_id@)
                &&& final(self).active_installations(plugin_id@) == old(self).active_installations(plugin_id@)
                &&& final(self).installation_log(plugin_id@) == old(self).installation_log(plugin_id@)
                &&& final(self).same_usage(old(self), plugin_id@)
                &&& final(self).same_errors_downloads(old(self), plugin_id@)
                &&& final(self).others_kept(old(self), plugin_id@)
            },
    {
        if !self.config.enabled {
            return;
        }
        let ghost before = self.records@;
        let (slot, mut r) = self.take_record(plugin_id);
        r.uninstallations = r.uninstallations + 1;
        self.replace_record(slot, r, Ghost(before));
    }

    /// Opens a usage session of a plugin at `now` under `session_id`, which
    /// is returned; each session counts as a daily active user.
    pub fn start_session_at(&mut self, plugin_id: &str, session_id: String, now: i64) -> (id: String)
        requires
            old(self).daily_users(plugin_id@) < u64::MAX,
        ensures
            id == session_id,
            final(self).daily_users(plugin_id@) == old(self).daily_users(plugin_id@) + 1,
            final(self).session_log(plugin_id@).len() == old(self).session_log(plugin_id@).len() + 1,
            final(self).session_log(plugin_id@).drop_last() == old(self).session_log(plugin_id@),
            ({
                let s = final(self).session_log(plugin_id@).last();
                &&& s.start_time == now
                &&& s.end_time is None
                &&& s.duration_seconds == 0
                &&& s.features_used@.len() == 0
                &&& s.actions_count == 0
                &&& s.errors_count == 0
            }),
            final(self).session_average(plugin_id@) == old(self).session_average(plugin_id@),
            final(self).same_installs(old(self), plugin_id@),
            final(self).same_errors_downloads(old(self), plugin_id@),
            final(self).others_kept(old(self), plugin_id@),
    {
        let ghost before = self.records@;
        let (slot, mut r) = self.take_record(plugin_id);
        let ghost old_sessions = r.sessions@;
        r.sessions.push(
            UsageSession {
                start_time: now,
                end_time: None,
                duration_seconds: 0,
                features_used: Vec::new(),
                actions_count: 0,
                errors_count: 0,
            },
        );
        assert(r.sessions@.drop_last() =~= old_sessions);
        r.daily_active_users = r.daily_active_users + 1;
        self.replace_record(slot, r, Ghost(before));
        session_id
    }

    /// Opens a usage session of a plugin now, under a fresh random
    /// identifier, which is returned.
    pub fn start_session(&mut self, plugin_id: &str) -> (id: String)
        requires
            old(self).daily_users(plugin_id@) < u64::MAX,
        ensures
            v4_hyphenated_shape(id@),
            final(self).daily_users(plugin_id@) == old(self).daily_users(plugin_id@) + 1,
            final(self).session_log(plugin_id@).drop_last() == old(self).session_log(plugin_id@),
            final(self).others_kept(old(self), plugin_id@),
    {
        let id = random_uuid_text();
        let now = crate::clock::utc_now_seconds();
        self.start_session_at(plugin_id, id, now)
    }

    /// Ends a plugin's latest session at `now`, where it has one, with what
    /// it did; the average session duration is taken anew over all its
    /// sessions. The identifier given is not looked at.
    pub fn end_session_at(
        &mut self,
        plugin_id: &str,
        session_id: &str,
        features_used: Vec<String>,
        actions_count: u64,
        errors_count: u64,
        now: i64,
    )
        ensures
            old(self).session_ended(*final(self), plugin_id@, features_used@, actions_count, errors_count, now),
    {
        let ghost before = self.records@;
        let (slot, mut r) = self.take_record(plugin_id);
        let n = r.sessions.len();
        if n > 0 {
            let ghost prev = r.sessions@;
            let mut last = r.sessions.remove(n - 1);
            last.end_time = Some(now);
            let d: i128 = now as i128 - last.start_time as i128;
            last.duration_seconds = d as u64;
            last.features_used = features_used;
            last.actions_count = actions_count;
            last.errors_count = errors_count;
            r.sessions.push(last);
            assert(r.sessions@ =~= prev.drop_last().push(last));
            let mut total: u128 = 0;
            let mut k: usize = 0;
            while k < r.sessions.len()
                invariant
                    k <= r.sessions@.len(),
                    total == duration_total(r.sessions@.take(k as int)),
                    total <= k * 0xffff_ffff_ffff_ffffu128,
                    r.sessions@.len() <= usize::MAX,
                decreases r.sessions.len() - k,
            {
                assert(r.sessions@.take(k + 1).drop_last() =~= r.sessions@.take(k as int));
                assert(total + r.sessions@[k as int].duration_seconds <= (k + 1) * 0xffff_ffff_ffff_ffffu128) by (nonlinear_arith)
                    requires
                        total <= k * 0xffff_ffff_ffff_ffffu128,
                        r.sessions@[k as int].duration_seconds <= 0xffff_ffff_ffff_ffffu64,
                ;
                total = total + r.sessions[k].duration_seconds as u128;
                k = k + 1;
            }
            assert(r.sessions@.take(k as int) =~= r.sessions@);
            r.session_average = (total, n as u64);
        }
        self.replace_record(slot, r, Ghost(before));
    }

    /// Ends a plugin's latest session now (see `end_session_at`).
    pub fn end_session(
        &mut self,
        plugin_id: &str,
        session_id: &str,
        features_used: Vec<String>,
        actions_count: u64,
        errors_count: u64,
    )
        ensures
            exists|now: i64|
                #[trigger] old(self).session_ended(*final(self), plugin_id@, features_used@, actions_count, errors_count, now),
    {
        let now = crate::clock::utc_now_seconds();
        let ghost features = features_used@;
        self.end_session_at(plugin_id, session_id, features_used, actions_count, errors_count, now);
        assert(old(self).session_ended(*self, plugin_id@, features, actions_count, errors_count, now));
    }

    /// Counts an error of a plugin, where analytics are enabled.
    pub fn track_error(&mut self, plugin_id: &str, error: ErrorEvent)
        requires
            old(self).settings().enabled ==> old(self).errors(plugin_id@) < u64::MAX,
        ensures
            !old(self).settings().enabled ==> *final(self) == *old(self),
            old(self).settings().enabled ==> {
                &&& final(self).errors(plugin_id@) == old(self).errors(plugin_id@) + 1
                &&& final(self).error_log(plugin_id@) == old(self).error_log(plugin_id@).push(error)
                &&& final(self).downloads(plugin_id@) == old(self).downloads(plugin_id@)
                &&& final(self).download_log(plugin_id@) == old(self).download_log(plugin_id@)
                &&& final(self).same_installs(old(self), plugin_id@)
                &&& final(self).same_usage(old(self), plugin_id@)
                &&& final(self).others_kept(old(self), plugin_id@)
            },
    {
        if !self.config.enabled {
            return;
        }
        let ghost before = self.records@;
        let (slot, mut r) = self.take_record(plugin_id);
        r.error_count = r.error_count + 1;
        r.errors.push(error);
        self.replace_record(slot, r, Ghost(before));
    }

    /// Counts a download of a plugin, where analytics are enabled.
    pub fn track_download(&mut self, plugin_id: &str, event: DownloadEvent)
        requires
            old(self).settings().enabled ==> old(self).downloads(plugin_id@) < u64::MAX,
        ensures
            !old(self).settings().enabled ==> *final(self) == *old(self),
            old(self).settings().enabled ==> {
                &&& final(self).downloads(plugin_id@) == old(self).downloads(plugin_id@) + 1
                &&& final(self).download_log(plugin_id@) == old(self).download_log(plugin_id@).push(event)
                &&& final(self).errors(plugin_id@) == old(self).errors(plugin_id@)
                &&& final(self).error_log(plugin_id@) == old(self).error_log(plugin_id@)
                &&& final(self).same_installs(old(self), plugin_id@)
                &&& final(self).same_usage(old(self), plugin_id@)
                &&& final(self).others_kept(old(self), plugin_id@)
            },
    {
        if !self.config.enabled {
            return;
        }
        let ghost before = self.records@;
        let (slot, mut r) = self.take_record(plugin_id);
        r.total_downloads = r.total_downloads + 1;
        r.downloads.push(event);
        self.replace_record(slot, r, Ghost(before));
    }

    /// The record of a plugin, where anything is counted of it.
    fn find_record(&self, plugin_id: &str) -> (r: Option<&PluginRecord>)
        ensures
            match r {
                Some(x) => self.record(plugin_id@) == Some(*x),
                None => self.record(plugin_id@) is None,
            },
    {
        match position(&self.records, plugin_id) {
            Some(i) => {
                proof {
                    lemma_first_index(keys_of(self.records@), plugin_id@);
                }
                Some(&self.records[i])
            },
            None => None,
        }
    }

    /// The figures of a plugin (zero where nothing is counted of it).
    pub fn get_summary(&self, plugin_id: &str) -> (s: PluginAnalyticsSummary)
        ensures
            s.plugin_id@ == plugin_id@,
            s.total_installations == self.installations(plugin_id@),
            s.active_installations == self.active_installations(plugin_id@),
            s.uninstallations == self.uninstallations(plugin_id@),
            s.total_downloads == self.downloads(plugin_id@),
            (s.session_seconds_total, s.sessions_averaged) == self.session_average(plugin_id@),
            s.daily_active_users == self.daily_users(plugin_id@),
            s.monthly_active_users == 0 || self.record(plugin_id@) is Some,
            s.error_count == self.errors(plugin_id@),
    {
        match self.find_record(plugin_id) {
            Some(r) => PluginAnalyticsSummary {
                plugin_id: owned(plugin_id),
                total_installations: r.total_installations,
                active_installations: r.active_installations,
                uninstallations: r.uninstallations,
                total_downloads: r.total_downloads,
                session_seconds_total: r.session_average.0,
                sessions_averaged: r.session_average.1,
                daily_active_users: r.daily_active_users,
                monthly_active_users: r.monthly_active_users,
                error_count: r.error_count,
            },
            None => PluginAnalyticsSummary {
                plugin_id: owned(plugin_id),
                total_installations: 0,
                active_installations: 0,
                uninstallations: 0,
                total_downloads: 0,
                session_seconds_total: 0,
                sessions_averaged: 0,
                daily_active_users: 0,
                monthly_active_users: 0,
                error_count: 0,
            },
        }
    }

    /// The installation figures of a plugin.
    pub fn get_installation_stats(&self, plugin_id: &str) -> (s: InstallationStats)
        ensures
            s.total == self.installations(plugin_id@),
            s.active == self.active_installations(plugin_id@),
            s.uninstallations == self.uninstallations(plugin_id@),
            s.by_platform@.len() == 0,
            s.by_source@.len() == 0,
    {
        InstallationStats {
            total: self.installations_of(plugin_id),
            active: match self.find_record(plugin_id) {
                Some(r) => r.active_installations,
                None => 0,
            },
            uninstallations: match self.find_record(plugin_id) {
                Some(r) => r.uninstallations,
                None => 0,
            },
            by_platform: Vec::new(),
            by_source: Vec::new(),
        }
    }

    /// Installations counted of a plugin.
    fn installations_of(&self, plugin_id: &str) -> (n: u64)
        ensures
            n == self.installations(plugin_id@),
    {
        match self.find_record(plugin_id) {
            Some(r) => r.total_installations,
            None => 0,
        }
    }

    /// The usage figures of a plugin.
    pub fn get_usage_stats(&self, plugin_id: &str) -> (s: UsageStats)
        ensures
            (s.session_seconds_total, s.sessions_averaged) == self.session_average(plugin_id@),
            s.daily_active_users == self.daily_users(plugin_id@),
            s.total_sessions == self.session_log(plugin_id@).len(),
            s.feature_usage@.len() == 0,
    {
        match self.find_record(plugin_id) {
            Some(r) => UsageStats {
                session_seconds_total: r.session_average.0,
                sessions_averaged: r.session_average.1,
                daily_active_users: r.daily_active_users,
                monthly_active_users: r.monthly_active_users,
                total_sessions: r.sessions.len() as u64,
                feature_usage: Vec::new(),
            },
            None => UsageStats {
                session_seconds_total: 0,
                sessions_averaged: 0,
                daily_active_users: 0,
                monthly_active_users: 0,
                total_sessions: 0,
                feature_usage: Vec::new(),
            },
        }
    }

    /// The error figures of a plugin.
    pub fn get_error_stats(&self, plugin_id: &str) -> (s: ErrorStats)
        ensures
            s.total_errors == self.errors(plugin_id@),
            s.by_impact@.len() == 0,
    {
        let total_errors = match self.find_record(plugin_id) {
            Some(r) => r.error_count,
            None => 0,
        };
        ErrorStats { total_errors, by_impact: Vec::new() }
    }

    /// The download figures of a plugin.
    pub fn get_download_stats(&self, plugin_id: &str) -> (s: DownloadStatsView)
        ensures
            s.total == self.downloads(plugin_id@),
            s.by_version@.len() == 0,
            s.by_platform@.len() == 0,
    {
        let total = match self.find_record(plugin_id) {
            Some(r) => r.total_downloads,
            None => 0,
        };
        DownloadStatsView { total, by_version: Vec::new(), by_platform: Vec::new() }
    }

    /// The HTML report of a plugin's figures.
    pub fn export_html(&self, plugin_id: &str) -> (h: String)
        ensures
            h@ == html_report(
                plugin_id@,
                self.installations(plugin_id@),
                self.active_installations(plugin_id@),
                self.downloads(plugin_id@),
            ),
    {
        let s = self.get_summary(plugin_id);
        let ti = u64_text(s.total_installations);
        let ai = u64_text(s.active_installations);
        let td = u64_text(s.total_downloads);
        let a = text3("<!DOCTYPE html><html><head><title>Plugin Analytics - ", plugin_id, "</title></head><body><h1>");
        let b = text3(a.as_str(), plugin_id, "</h1><p>Total Installations: ");
        let c = text3(b.as_str(), ti.as_str(), "</p><p>Active Installations: ");
        let d = text3(c.as_str(), ai.as_str(), "</p><p>Total Downloads: ");
        let e = text3(d.as_str(), td.as_str(), "</p></body></html>");
        e
    }

    /// Forgets the installations of every plugin older than the retention
    /// period at `now`; the counts stay.
    pub fn cleanup_at(&mut self, now: i64)
        ensures
            forall|q: Seq<char>| #[trigger] final(self).installation_log(q) == kept_after(
                old(self).installation_log(q),
                now - old(self).settings().retention_days * DAY_SECONDS,
            ),
            forall|q: Seq<char>| #[trigger] final(self).installations(q) == old(self).installations(q),
            forall|q: Seq<char>| #[trigger] final(self).same_usage(old(self), q),
            forall|q: Seq<char>| #[trigger] final(self).same_errors_downloads(old(self), q),
            final(self).settings() == old(self).settings(),
    {
        let cutoff: i128 = now as i128 - self.config.retention_days as i128 * DAY_SECONDS;
        let ghost all = self.records@;
        let mut i: usize = 0;
        while i < self.records.len()
            invariant
                i <= self.records@.len(),
                self.records@.len() == all.len(),
                keys_of(self.records@) == keys_of(all),
                cutoff == now - self.config.retention_days * DAY_SECONDS,
                forall|j: int| 0 <= j < i ==> (#[trigger] self.records@[j]).installation_history@ == kept_after(
                    all[j].installation_history@,
                    cutoff as int,
                ),
                forall|j: int| 0 <= j < all.len() ==> {
                    let a = #[trigger] self.records@[j];
                    let b = all[j];
                    &&& a.total_installations == b.total_installations
                    &&& a.active_installations == b.active_installations
                    &&& a.uninstallations == b.uninstallations
                    &&& a.sessions == b.sessions
                    &&& a.session_average == b.session_average
                    &&& a.daily_active_users == b.daily_active_users
                    &&& a.error_count == b.error_count
                    &&& a.errors == b.errors
                    &&& a.total_downloads == b.total_downloads
                    &&& a.downloads == b.downloads
                    &&& a.plugin_id == b.plugin_id
                },
                forall|j: int| i <= j < all.len() ==> #[trigger] self.records@[j] == all[j],
                self.config == old(self).config,
            decreases self.records.len() - i,
        {
            let ghost before = self.records@;
            let mut r = self.records.remove(i);
            let mut kept: Vec<InstallationEvent> = Vec::new();
            let mut history: Vec<InstallationEvent> = Vec::new();
            std::mem::swap(&mut history, &mut r.installation_history);
            let ghost h = history@;
            let total: usize = history.len();
            let mut rest = history;
            let mut n: usize = 0;
            while rest.len() > 0
                invariant
                    rest@ == h.skip(n as int),
                    h.len() == total,
                    n + rest@.len() == h.len(),
                    kept@ == kept_after(h.take(n as int), cutoff as int),
                decreases rest.len(),
            {
                let e = rest.remove(0);
                assert(h.take(n + 1).drop_last() =~= h.take(n as int));
                assert(h.take(n + 1).last() == e);
                assert(rest@ =~= h.skip(n + 1));
                if e.timestamp as i128 > cutoff {
                    kept.push(e);
                }
                n = n + 1;
            }
            assert(h.take(n as int) =~= h);
            r.installation_history = kept;
            self.records.insert(i, r);
            assert(self.records@ =~= before.update(i as int, r));
            assert(keys_of(self.records@) =~= keys_of(before));
            i = i + 1;
        }
        proof {
            assert forall|q: Seq<char>| #[trigger] final(self).installation_log(q) == kept_after(
                old(self).installation_log(q),
                now - old(self).settings().retention_days * DAY_SECONDS,
            ) by {
                lemma_first_index(keys_of(all), q);
                assert(kept_after(Seq::<InstallationEvent>::empty(), cutoff as int) =~= Seq::<InstallationEvent>::empty());
            }
            assert forall|q: Seq<char>| #[trigger] final(self).installations(q) == old(self).installations(q) by {
                lemma_first_index(keys_of(all), q);
            }
            assert forall|q: Seq<char>| #[trigger] final(self).same_usage(old(self), q) by {
                lemma_first_index(keys_of(all), q);
            }
            assert forall|q: Seq<char>| #[trigger] final(self).same_errors_downloads(old(self), q) by {
                lemma_first_index(keys_of(all), q);
            }
        }
    }
}

} // verus!
