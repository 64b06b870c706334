//! Plugin updates: what kind of update a new version is, the settings of
//! automatic updating, and the status and errors an update check reports.

use vstd::prelude::*;

use crate::clock::utc_now_seconds;
use crate::market::{first_index, keys_of, lemma_first_index, lemma_first_index_at, law_stored_record_found, position, record_of, remove_keyed, store, stored, without_key, lemma_without_key, Keyed};
use crate::plugin_marketplace::{PluginListing, PluginVersion};
use crate::text::{copy_opt_string, owned, parse_u32, parse_u32_spec, split_char, split_chars, str_chars, string_equals_str};
use crate::plugin_error::text2;

verus! {

/// What an available update is.
#[derive(Debug, Clone, Copy, PartialEq, Eq, Structural)]
pub enum UpdateType {
    /// Major version change (breaking changes)
    Major,
    /// Minor version change (new features)
    Minor,
    /// Patch version change (bug fixes)
    Patch,
    /// Pre-release version
    PreRelease,
    /// Build metadata change
    Build,
    /// No update available
    NoUpdate,
}

/// Where a plugin's update stands.
#[derive(Debug, Clone)]
pub struct UpdateStatus {
    pub plugin_id: String,
    pub current_version: String,
    pub latest_version: String,
    pub update_available: bool,
    pub update_type: UpdateType,
    pub changelog: Option<String>,
    pub security_update: bool,
}

/// Release channels.
#[derive(Debug, Clone, Copy, PartialEq, Eq, Structural)]
pub enum UpdateChannel {
    Stable,
    Beta,
    Alpha,
    Nightly,
}

/// Settings of automatic updating.
#[derive(Debug, Clone, Copy, PartialEq, Eq, Structural)]
pub struct UpdateConfig {
    pub auto_update_enabled: bool,
    pub auto_check_enabled: bool,
    /// Check interval in seconds
    pub check_interval_seconds: u64,
    pub auto_download: bool,
    pub auto_install: bool,
    pub include_prerelease: bool,
    /// Maximum rollback versions to keep
    pub max_rollback_versions: u32,
    pub channel: UpdateChannel,
}

impl Default for UpdateConfig {
    fn default() -> (c: UpdateConfig)
        ensures
            c == (UpdateConfig {
                auto_update_enabled: true,
                auto_check_enabled: true,
                check_interval_seconds: 3600,
                auto_download: false,
                auto_install: false,
                include_prerelease: false,
                max_rollback_versions: 3,
                channel: UpdateChannel::Stable,
            }),
    {
        UpdateConfig {
            auto_update_enabled: true,
            auto_check_enabled: true,
            check_interval_seconds: 3600,
            auto_download: false,
            auto_install: false,
            include_prerelease: false,
            max_rollback_versions: 3,
            channel: UpdateChannel::Stable,
        }
    }
}

/// A plugin an update check failed for.
#[derive(Debug, Clone)]
pub struct UpdateCheckError {
    pub plugin_id: String,
    pub error: String,
}

/// The numbers among some pieces of text, in order: pieces that cannot be
/// read as a `u32` are left out.
pub open spec fn numbers_in(pieces: Seq<Seq<char>>) -> Seq<u32>
    decreases pieces.len(),
{
    if pieces.len() == 0 {
        Seq::empty()
    } else {
        let prev = numbers_in(pieces.drop_last());
        match parse_u32_spec(pieces.last()) {
            Some(v) => prev.push(v),
            None => prev,
        }
    }
}

/// The numbers of a dotted version text, unreadable parts left out.
pub open spec fn version_numbers(s: Seq<char>) -> Seq<u32> {
    numbers_in(split_char(s, '.'))
}

/// What kind of update going from version numbers `c` to `l` is: none
/// unless both have at least two numbers; major when the first grows;
/// else minor when the second grows; else patch when both have a third
/// and it grows; else none.
pub open spec fn update_kind(c: Seq<u32>, l: Seq<u32>) -> UpdateType {
    if c.len() < 2 || l.len() < 2 {
        UpdateType::NoUpdate
    } else if l[0] > c[0] {
        UpdateType::Major
    } else if l[1] > c[1] {
        UpdateType::Minor
    } else if l.len() > 2 && c.len() > 2 && l[2] > c[2] {
        UpdateType::Patch
    } else {
        UpdateType::NoUpdate
    }
}

/// The numbers of a dotted version text, unreadable parts left out.
fn numbers_of(s: &str) -> (r: Vec<u32>)
    ensures
        r@ == version_numbers(s@),
{
    let chars = str_chars(s);
    let pieces = split_chars(chars.as_slice(), '.');
    let ghost ps = split_char(s@, '.');
    let mut r: Vec<u32> = Vec::new();
    let mut i: usize = 0;
    while i < pieces.len()
        invariant
            i <= pieces@.len(),
            pieces@.len() == ps.len(),
            forall|k: int| 0 <= k < pieces@.len() ==> #[trigger] pieces@[k]@ == ps[k],
            r@ == numbers_in(ps.take(i as int)),
        decreases pieces@.len() - i,
    {
        proof {
            assert(ps.take(i + 1).drop_last() =~= ps.take(i as int));
            assert(ps.take(i + 1).last() == pieces@[i as int]@);
        }
        match parse_u32(pieces[i].as_slice()) {
            Some(v) => r.push(v),
            None => {},
        }
        i = i + 1;
    }
    proof {
        assert(ps.take(ps.len() as int) =~= ps);
    }
    r
}

/// What kind of update going from `current` to `latest` is, by their dotted
/// version numbers.
pub fn compare_versions(current: &str, latest: &str) -> (t: UpdateType)
    ensures
        t == update_kind(version_numbers(current@), version_numbers(latest@)),
{
    let c = numbers_of(current);
    let l = numbers_of(latest);
    if c.len() < 2 || l.len() < 2 {
        return UpdateType::NoUpdate;
    }
    if l[0] > c[0] {
        return UpdateType::Major;
    }
    if l[1] > c[1] {
        return UpdateType::Minor;
    }
    if l.len() > 2 && c.len() > 2 {
        if l[2] > c[2] {
            return UpdateType::Patch;
        }
    }
    UpdateType::NoUpdate
}

/// Going from a version to itself is never an update.
pub proof fn law_same_version_no_update(v: Seq<u32>)
    ensures
        update_kind(v, v) == UpdateType::NoUpdate,
{
}

/// A backup a plugin can be rolled back to.
#[derive(Debug, Clone)]
pub struct RollbackInfo {
    pub plugin_id: String,
    pub version: String,
    pub backup_path: String,
    /// Seconds since the Unix epoch
    pub created_at: i64,
}

/// A notice of an available update.
#[derive(Debug, Clone)]
pub struct UpdateNotification {
    pub id: String,
    pub plugin_id: String,
    pub plugin_name: String,
    pub update_type: UpdateType,
    pub current_version: String,
    pub new_version: String,
    pub security_update: bool,
    pub changelog_summary: String,
    /// Seconds since the Unix epoch
    pub created_at: i64,
    pub read: bool,
}

impl Keyed for UpdateNotification {
    open spec fn key_view(&self) -> Seq<char> {
        self.id@
    }

    fn key(&self) -> (k: &String) {
        &self.id
    }
}

/// The outcome of checking every registered plugin.
#[derive(Debug, Clone)]
pub struct UpdateCheckResult {
    /// Seconds since the Unix epoch
    pub checked_at: i64,
    pub updates: Vec<UpdateStatus>,
    pub errors: Vec<UpdateCheckError>,
}

/// A plugin registered for updates.
#[derive(Debug, Clone)]
pub struct InstalledPlugin {
    pub id: String,
    pub name: String,
    pub version: String,
    /// Installation directory
    pub path: String,
    /// Last update check, in seconds since the Unix epoch
    pub last_check: Option<i64>,
    /// Auto-update enabled for this plugin
    pub auto_update: bool,
}

impl Keyed for InstalledPlugin {
    open spec fn key_view(&self) -> Seq<char> {
        self.id@
    }

    fn key(&self) -> (k: &String) {
        &self.id
    }
}

/// The backups of one plugin, oldest first.
struct RollbackList {
    plugin_id: String,
    items: Vec<RollbackInfo>,
}

impl Keyed for RollbackList {
    closed spec fn key_view(&self) -> Seq<char> {
        self.plugin_id@
    }

    fn key(&self) -> (k: &String) {
        &self.plugin_id
    }
}

/// Errors of the auto-updater.
#[derive(Debug, Clone, PartialEq, Eq)]
pub enum UpdaterError {
    /// No plugin with this identifier is registered.
    PluginNotFound(String),
    /// The plugin has never been backed up.
    NoRollback(String),
    /// Every backup of the plugin has been used.
    NoRollbackVersions,
}

/// Message of an auto-updater error.
pub open spec fn updater_error_text(e: UpdaterError) -> Seq<char> {
    match e {
        UpdaterError::PluginNotFound(id) => "Plugin "@ + id@ + " not found"@,
        UpdaterError::NoRollback(id) => "No rollback available for "@ + id@,
        UpdaterError::NoRollbackVersions => "No rollback versions available"@,
    }
}

impl UpdaterError {
    /// The error's message.
    pub fn message(&self) -> (s: String)
        ensures
            s@ == updater_error_text(*self),
    {
        match self {
            UpdaterError::PluginNotFound(id) => {
                let a = text2("Plugin ", id.as_str());
                text2(a.as_str(), " not found")
            },
            UpdaterError::NoRollback(id) => text2("No rollback available for ", id.as_str()),
            UpdaterError::NoRollbackVersions => owned("No rollback versions available"),
        }
    }
}

/// `st` is the status of an update of the plugin `plugin_id` from
/// `current` to the latest version of `listing`: its kind by the version
/// numbers, and the changelog of the first listed version that is the
/// latest.
pub open spec fn is_update_status(st: UpdateStatus, plugin_id: Seq<char>, current: Seq<char>, listing: PluginListing) -> bool {
    &&& st.plugin_id@ == plugin_id
    &&& st.current_version@ == current
    &&& st.latest_version@ == listing.latest_version@
    &&& st.update_available
    &&& st.update_type == update_kind(version_numbers(current), version_numbers(listing.latest_version@))
    &&& st.changelog == match record_of(listing.versions@, listing.latest_version@) {
        Some(v) => v.changelog,
        None => None,
    }
    &&& !st.security_update
}

/// The status of an update of a plugin at `current_version` to the latest
/// version of its listing, or `None` where it already has that version.
pub fn check_plugin_update(plugin_id: &str, current_version: &str, listing: &PluginListing) -> (r: Option<UpdateStatus>)
    ensures
        listing.latest_version@ == current_version@ <==> r is None,
        r matches Some(st) ==> is_update_status(st, plugin_id@, current_version@, *listing),
{
    if string_equals_str(&listing.latest_version, current_version) {
        return None;
    }
    let update_type = compare_versions(current_version, listing.latest_version.as_str());
    let changelog = match position(&listing.versions, listing.latest_version.as_str()) {
        Some(i) => {
            proof {
                lemma_first_index(keys_of(listing.versions@), listing.latest_version@);
            }
            copy_opt_string(&listing.versions[i].changelog)
        },
        None => None,
    };
    Some(
        UpdateStatus {
            plugin_id: owned(plugin_id),
            current_version: owned(current_version),
            latest_version: listing.latest_version.clone(),
            update_available: true,
            update_type,
            changelog,
            security_update: false,
        },
    )
}

/// The positions of the plugins whose lookup found a listing with another
/// latest version, in order.
pub open spec fn updates_found(plugins: Seq<InstalledPlugin>, lookups: Seq<Result<PluginListing, String>>) -> Seq<int>
    decreases plugins.len(),
{
    if plugins.len() == 0 {
        Seq::empty()
    } else {
        let prev = updates_found(plugins.drop_last(), lookups);
        let i = plugins.len() - 1;
        if lookups[i] matches Ok(l) && l.latest_version@ != plugins.last().version@ {
            prev.push(i)
        } else {
            prev
        }
    }
}

/// The positions of the failed lookups, in order.
pub open spec fn errors_found(lookups: Seq<Result<PluginListing, String>>) -> Seq<int>
    decreases lookups.len(),
{
    if lookups.len() == 0 {
        Seq::empty()
    } else {
        let prev = errors_found(lookups.drop_last());
        if lookups.last() is Err {
            prev.push(lookups.len() - 1)
        } else {
            prev
        }
    }
}

/// The backups kept after adding one: the newest `max` of them.
pub open spec fn kept_backups(s: Seq<RollbackInfo>, max: u32) -> Seq<RollbackInfo> {
    if s.len() > max {
        s.skip(s.len() - max)
    } else {
        s
    }
}

/// The registered plugins with the first one registered as `id` at
/// `version`.
pub open spec fn with_version(plugins: Seq<InstalledPlugin>, id: Seq<char>, version: String) -> Seq<InstalledPlugin> {
    match first_index(keys_of(plugins), id) {
        Some(k) => plugins.update(k, InstalledPlugin { version, ..plugins[k] }),
        None => plugins,
    }
}

/// The registered plugins with automatic updates of the first one
/// registered as `id` set to `enabled`.
pub open spec fn with_auto_update(plugins: Seq<InstalledPlugin>, id: Seq<char>, enabled: bool) -> Seq<InstalledPlugin> {
    match first_index(keys_of(plugins), id) {
        Some(k) => plugins.update(k, InstalledPlugin { auto_update: enabled, ..plugins[k] }),
        None => plugins,
    }
}

/// A backup just recorded is the newest one kept, and no more than `max`
/// are kept: so a rollback right after it restores the version it saved.
pub proof fn law_backup_is_latest(s: Seq<RollbackInfo>, info: RollbackInfo, max: u32)
    requires
        max >= 1,
    ensures
        kept_backups(s.push(info), max).len() > 0,
        kept_backups(s.push(info), max).last() == info,
        kept_backups(s.push(info), max).len() <= max,
{
}

/// The registered plugins, their backups and the update notices.
pub struct PluginAutoUpdater {
    config: UpdateConfig,
    installed_plugins: Vec<InstalledPlugin>,
    rollbacks: Vec<RollbackList>,
    notifications: Vec<UpdateNotification>,
    install_dir: String,
    backup_dir: String,
}

impl PluginAutoUpdater {
    /// The registered plugins, in the order registered.
    pub closed spec fn plugin_list(&self) -> Seq<InstalledPlugin> {
        self.installed_plugins@
    }

    /// A plugin's backups, oldest first.
    pub closed spec fn rollbacks_of(&self, plugin_id: Seq<char>) -> Seq<RollbackInfo> {
        match record_of(self.rollbacks@, plugin_id) {
            Some(l) => l.items@,
            None => Seq::empty(),
        }
    }

    /// A plugin's backup list, where it was ever backed up.
    pub closed spec fn rollback_record(&self, plugin_id: Seq<char>) -> Option<Seq<RollbackInfo>> {
        match record_of(self.rollbacks@, plugin_id) {
            Some(l) => Some(l.items@),
            None => None,
        }
    }

    /// The update notices.
    pub closed spec fn notification_list(&self) -> Seq<UpdateNotification> {
        self.notifications@
    }

    /// The updater's settings.
    pub closed spec fn settings(&self) -> UpdateConfig {
        self.config
    }

    /// Where plugins are installed and where their backups go.
    pub closed spec fn directories(&self) -> (Seq<char>, Seq<char>) {
        (self.install_dir@, self.backup_dir@)
    }

    /// An updater with the given settings, no plugin, no backup and no
    /// notice.
    pub fn new(config: UpdateConfig, install_dir: &str, backup_dir: &str) -> (u: PluginAutoUpdater)
        ensures
            u.settings() == config,
            u.directories() == (install_dir@, backup_dir@),
            u.plugin_list().len() == 0,
            forall|id: Seq<char>| #[trigger] u.rollbacks_of(id).len() == 0,
            u.notification_list().len() == 0,
    {
        let u = PluginAutoUpdater {
            config,
            installed_plugins: Vec::new(),
            rollbacks: Vec::new(),
            notifications: Vec::new(),
            install_dir: owned(install_dir),
            backup_dir: owned(backup_dir),
        };
        proof {
            assert forall|id: Seq<char>| #[trigger] u.rollbacks_of(id).len() == 0 by {
                lemma_first_index(keys_of(u.rollbacks@), id);
            }
        }
        u
    }

    /// Where plugins are installed.
    pub fn install_directory(&self) -> (d: &String)
        ensures
            d@ == self.directories().0,
    {
        &self.install_dir
    }

    /// Where backups go.
    pub fn backup_directory(&self) -> (d: &String)
        ensures
            d@ == self.directories().1,
    {
        &self.backup_dir
    }

    /// Registers a plugin for updates, in place of one registered under the
    /// same identifier.
    pub fn register_plugin(&mut self, plugin: InstalledPlugin)
        ensures
            final(self).plugin_list() == stored(old(self).plugin_list(), plugin),
            forall|id: Seq<char>| #[trigger] final(self).rollbacks_of(id) == old(self).rollbacks_of(id),
            final(self).notification_list() == old(self).notification_list(),
            final(self).settings() == old(self).settings(),
    {
        store(&mut self.installed_plugins, plugin);
    }

    /// Unregisters a plugin.
    pub fn unregister_plugin(&mut self, plugin_id: &str)
        ensures
            final(self).plugin_list() == without_key(old(self).plugin_list(), plugin_id@),
            forall|id: Seq<char>| #[trigger] final(self).rollbacks_of(id) == old(self).rollbacks_of(id),
            final(self).notification_list() == old(self).notification_list(),
            final(self).settings() == old(self).settings(),
    {
        remove_keyed(&mut self.installed_plugins, plugin_id);
    }

    /// The registered plugin with this identifier.
    pub fn get_installed(&self, plugin_id: &str) -> (r: Result<&InstalledPlugin, UpdaterError>)
        ensures
            match record_of(self.plugin_list(), plugin_id@) {
                Some(p) => r == Ok::<&InstalledPlugin, UpdaterError>(&p),
                None => r matches Err(UpdaterError::PluginNotFound(id)) && id@ == plugin_id@,
            },
    {
        match position(&self.installed_plugins, plugin_id) {
            Some(i) => {
                proof {
                    lemma_first_index(keys_of(self.installed_plugins@), plugin_id@);
                }
                Ok(&self.installed_plugins[i])
            },
            None => Err(UpdaterError::PluginNotFound(owned(plugin_id))),
        }
    }

    /// Checks every registered plugin, in the order registered, against
    /// what the marketplace answered for it at `now`: `lookups[i]` is the
    /// listing of the `i`-th plugin, or the message of the failed lookup.
    /// Plugins with a newer latest version give an update status; failed
    /// lookups give an error; the others give nothing.
    pub fn check_for_updates_with(&self, lookups: &Vec<Result<PluginListing, String>>, now: i64) -> (r: UpdateCheckResult)
        requires
            lookups@.len() == self.plugin_list().len(),
        ensures
            r.checked_at == now,
            r.updates@.len() == updates_found(self.plugin_list(), lookups@).len(),
            forall|k: int| 0 <= k < r.updates@.len() ==> {
                let i = #[trigger] updates_found(self.plugin_list(), lookups@)[k];
                &&& 0 <= i < self.plugin_list().len()
                &&& lookups@[i] matches Ok(l) && is_update_status(
                    r.updates@[k],
                    self.plugin_list()[i].id@,
                    self.plugin_list()[i].version@,
                    l,
                )
            },
            r.errors@.len() == errors_found(lookups@).len(),
            forall|k: int| 0 <= k < r.errors@.len() ==> {
                let i = #[trigger] errors_found(lookups@)[k];
                &&& 0 <= i < self.plugin_list().len()
                &&& lookups@[i] matches Err(e) && r.errors@[k].plugin_id@ == self.plugin_list()[i].id@
                    && r.errors@[k].error@ == e@
            },
    {
        let mut updates: Vec<UpdateStatus> = Vec::new();
        let mut errors: Vec<UpdateCheckError> = Vec::new();
        let mut i: usize = 0;
        while i < self.installed_plugins.len()
            invariant
                i <= self.installed_plugins@.len(),
                lookups@.len() == self.installed_plugins@.len(),
                updates@.len() == updates_found(self.installed_plugins@.take(i as int), lookups@).len(),
                forall|k: int| 0 <= k < updates@.len() ==> {
                    let j = #[trigger] updates_found(self.installed_plugins@.take(i as int), lookups@)[k];
                    &&& 0 <= j < i
                    &&& lookups@[j] matches Ok(l) && is_update_status(
                        updates@[k],
                        self.installed_plugins@[j].id@,
                        self.installed_plugins@[j].version@,
                        l,
                    )
                },
                errors@.len() == errors_found(lookups@.take(i as int)).len(),
                forall|k: int| 0 <= k < errors@.len() ==> {
                    let j = #[trigger] errors_found(lookups@.take(i as int))[k];
                    &&& 0 <= j < i
                    &&& lookups@[j] matches Err(e) && errors@[k].plugin_id@ == self.installed_plugins@[j].id@
                        && errors@[k].error@ == e@
                },
            decreases self.installed_plugins.len() - i,
        {
            let plugin = &self.installed_plugins[i];
            proof {
                assert(self.installed_plugins@.take(i + 1).drop_last() =~= self.installed_plugins@.take(i as int));
                assert(lookups@.take(i + 1).drop_last() =~= lookups@.take(i as int));
                assert(lookups@.take(i + 1).last() == lookups@[i as int]);
            }
            match &lookups[i] {
                Ok(listing) => {
                    match check_plugin_update(plugin.id.as_str(), plugin.version.as_str(), listing) {
                        Some(status) => {
                            updates.push(status);
                        },
                        None => {},
                    }
                },
                Err(e) => {
                    errors.push(UpdateCheckError { plugin_id: plugin.id.clone(), error: e.clone() });
                },
            }
            i = i + 1;
        }
        proof {
            assert(self.installed_plugins@.take(i as int) =~= self.installed_plugins@);
            assert(lookups@.take(i as int) =~= lookups@);
        }
        UpdateCheckResult { checked_at: now, updates, errors }
    }

    /// Takes a plugin's backup list out, or a fresh empty one.
    fn take_rollbacks(&mut self, plugin_id: &str) -> (r: (Option<usize>, RollbackList))
        ensures
            final(self).installed_plugins@ == old(self).installed_plugins@,
            final(self).notifications@ == old(self).notifications@,
            final(self).config == old(self).config,
            r.1.plugin_id@ == plugin_id@,
            match r.0 {
                Some(i) => i < old(self).rollbacks@.len() && first_index(keys_of(old(self).rollbacks@), plugin_id@)
                    == Some(i as int) && r.1 == old(self).rollbacks@[i as int] && final(self).rollbacks@
                    == old(self).rollbacks@.remove(i as int),
                None => first_index(keys_of(old(self).rollbacks@), plugin_id@) is None && r.1.items@.len() == 0
                    && final(self).rollbacks@ == old(self).rollbacks@,
            },
    {
        match position(&self.rollbacks, plugin_id) {
            Some(i) => {
                proof {
                    lemma_first_index(keys_of(self.rollbacks@), plugin_id@);
                    assert(keys_of(self.rollbacks@)[i as int] == self.rollbacks@[i as int].key_view());
                }
                let l = self.rollbacks.remove(i);
                (Some(i), l)
            },
            None => (None, RollbackList { plugin_id: owned(plugin_id), items: Vec::new() }),
        }
    }

    /// Puts a plugin's backup list back where `take_rollbacks` found it;
    /// the plugin's backups become `l`'s and every other plugin's stay.
    fn put_rollbacks(&mut self, slot: Option<usize>, l: RollbackList)
        requires
            match slot {
                Some(i) => i <= old(self).rollbacks@.len() && first_index(
                    keys_of(old(self).rollbacks@.insert(i as int, l)),
                    l.key_view(),
                ) == Some(i as int),
                None => first_index(keys_of(old(self).rollbacks@), l.key_view()) is None,
            },
        ensures
            final(self).installed_plugins@ == old(self).installed_plugins@,
            final(self).notifications@ == old(self).notifications@,
            final(self).config == old(self).config,
            final(self).install_dir == old(self).install_dir,
            final(self).backup_dir == old(self).backup_dir,
            final(self).rollbacks@ == match slot {
                Some(i) => old(self).rollbacks@.insert(i as int, l),
                None => old(self).rollbacks@.push(l),
            },
    {
        match slot {
            Some(i) => {
                self.rollbacks.insert(i, l);
            },
            None => {
                self.rollbacks.push(l);
            },
        }
    }

    /// Replacing a plugin's backup list changes its backups and no other
    /// plugin's.
    proof fn lemma_rollbacks_replaced(before: Seq<RollbackList>, after: Seq<RollbackList>, l: RollbackList, id: Seq<char>)
        requires
            l.plugin_id@ == id,
            after == stored(before, l),
        ensures
            forall|other: Seq<char>| #[trigger] record_of(after, other) == (if other == id {
                Some(l)
            } else {
                record_of(before, other)
            }),
    {
        assert forall|other: Seq<char>| #[trigger] record_of(after, other) == (if other == id {
            Some(l)
        } else {
            record_of(before, other)
        }) by {
            law_stored_record_found(before, l, other);
        }
    }

    /// Records a backup, keeping the newest `max_rollback_versions` backups
    /// of its plugin; returns the backups dropped, oldest first, for their
    /// files to be removed.
    pub fn record_backup(&mut self, info: RollbackInfo) -> (dropped: Vec<RollbackInfo>)
        ensures
            final(self).rollbacks_of(info.plugin_id@) == kept_backups(
                old(self).rollbacks_of(info.plugin_id@).push(info),
                old(self).settings().max_rollback_versions,
            ),
            dropped@ + final(self).rollbacks_of(info.plugin_id@) == old(self).rollbacks_of(info.plugin_id@).push(info),
            forall|id: Seq<char>| id != info.plugin_id@ ==> #[trigger] final(self).rollbacks_of(id) == old(self).rollbacks_of(id),
            final(self).plugin_list() == old(self).plugin_list(),
            final(self).notification_list() == old(self).notification_list(),
            final(self).settings() == old(self).settings(),
    {
        let ghost before = self.rollbacks@;
        let ghost id = info.plugin_id@;
        let key = info.plugin_id.clone();
        let (slot, mut l) = self.take_rollbacks(key.as_str());
        let ghost start = l.items@;
        proof {
            match slot {
                Some(i) => {
                    lemma_first_index(keys_of(before), id);
                },
                None => {},
            }
            assert(start == old(self).rollbacks_of(id));
        }
        l.items.push(info);
        let ghost all = l.items@;
        let max = self.config.max_rollback_versions as usize;
        let mut dropped: Vec<RollbackInfo> = Vec::new();
        while l.items.len() > max
            invariant
                dropped@ + l.items@ == all,
                l.plugin_id@ == id,
                max == self.config.max_rollback_versions,
                all.len() > max ==> l.items@.len() >= max,
                all.len() <= max ==> dropped@.len() == 0,
            decreases l.items.len(),
        {
            let old_item = l.items.remove(0);
            let ghost d = dropped@;
            dropped.push(old_item);
            assert(dropped@ + l.items@ =~= all);
        }
        proof {
            assert(dropped@ + l.items@ == all);
            assert(l.items@ =~= all.skip(dropped@.len() as int));
            assert(l.items@ =~= kept_backups(all, self.config.max_rollback_versions));
        }
        let ghost lv = l;
        proof {
            match slot {
                Some(i) => {
                    lemma_first_index(keys_of(before), id);
                    let ks = keys_of(self.rollbacks@.insert(i as int, lv));
                    assert(self.rollbacks@.insert(i as int, lv) =~= before.update(i as int, lv));
                    assert(ks =~= keys_of(before).update(i as int, id));
                    lemma_first_index_at(ks, id, i as int);
                },
                None => {},
            }
        }
        self.put_rollbacks(slot, l);
        proof {
            match slot {
                Some(i) => {
                    assert(keys_of(before.remove(i as int).insert(i as int, lv)) =~= keys_of(before).update(i as int, id));
                    assert(self.rollbacks@ =~= before.update(i as int, lv));
                },
                None => {},
            }
            assert(self.rollbacks@ == stored(before, lv));
            Self::lemma_rollbacks_replaced(before, self.rollbacks@, lv, id);
        }
        dropped
    }

    /// A plugin's newest backup, the one a rollback restores.
    pub fn latest_rollback(&self, plugin_id: &str) -> (r: Result<&RollbackInfo, UpdaterError>)
        ensures
            match self.rollback_record(plugin_id@) {
                None => r matches Err(UpdaterError::NoRollback(id)) && id@ == plugin_id@,
                Some(s) => if s.len() == 0 {
                    r == Err::<&RollbackInfo, UpdaterError>(UpdaterError::NoRollbackVersions)
                } else {
                    r == Ok::<&RollbackInfo, UpdaterError>(&s.last())
                },
            },
    {
        match position(&self.rollbacks, plugin_id) {
            None => Err(UpdaterError::NoRollback(owned(plugin_id))),
            Some(i) => {
                proof {
                    lemma_first_index(keys_of(self.rollbacks@), plugin_id@);
                }
                let items = &self.rollbacks[i].items;
                if items.len() == 0 {
                    Err(UpdaterError::NoRollbackVersions)
                } else {
                    Ok(&items[items.len() - 1])
                }
            },
        }
    }

    /// Finishes a rollback whose files were restored: the plugin, where it
    /// is registered, is back at the version of its newest backup, and that
    /// backup is used up.
    pub fn finish_rollback(&mut self, plugin_id: &str) -> (r: Result<(), UpdaterError>)
        ensures
            match old(self).rollback_record(plugin_id@) {
                None => (r matches Err(UpdaterError::NoRollback(id)) && id@ == plugin_id@) && *final(self) == *old(self),
                Some(s) => if s.len() == 0 {
                    r == Err::<(), UpdaterError>(UpdaterError::NoRollbackVersions) && *final(self) == *old(self)
                } else {
                    &&& r is Ok
                    &&& final(self).plugin_list() == with_version(old(self).plugin_list(), plugin_id@, s.last().version)
                    &&& final(self).rollback_record(plugin_id@) == Some(s.drop_last())
                    &&& forall|id: Seq<char>| id != plugin_id@ ==> #[trigger] final(self).rollback_record(id) == old(
                        self,
                    ).rollback_record(id)
                    &&& final(self).notification_list() == old(self).notification_list()
                    &&& final(self).settings() == old(self).settings()
                },
            },
    {
        let version = match self.latest_rollback(plugin_id) {
            Err(e) => {
                return Err(e);
            },
            Ok(info) => info.version.clone(),
        };
        let ghost s0 = old(self).rollback_record(plugin_id@)->0;
        self.set_installed_version(plugin_id, version);
        assert(self.rollback_record(plugin_id@) == old(self).rollback_record(plugin_id@));
        let ghost before = self.rollbacks@;
        assert forall|id: Seq<char>| #[trigger] old(self).rollback_record(id) == match record_of(before, id) {
            Some(x) => Some(x.items@),
            None => None,
        } by {
            assert(self.rollback_record(id) == old(self).rollback_record(id));
        }
        let (slot, mut l) = self.take_rollbacks(plugin_id);
        proof {
            lemma_first_index(keys_of(before), plugin_id@);
            assert(slot is Some);
            assert(l.items@ == s0);
        }
        l.items.pop();
        assert(l.items@ =~= s0.drop_last());
        let ghost lv = l;
        proof {
            match slot {
                Some(i) => {
                    let ks = keys_of(self.rollbacks@.insert(i as int, lv));
                    assert(self.rollbacks@.insert(i as int, lv) =~= before.update(i as int, lv));
                    assert(ks =~= keys_of(before).update(i as int, plugin_id@));
                    lemma_first_index_at(ks, plugin_id@, i as int);
                },
                None => {},
            }
        }
        self.put_rollbacks(slot, l);
        proof {
            match slot {
                Some(i) => {
                    assert(self.rollbacks@ =~= before.update(i as int, lv));
                },
                None => {},
            }
            Self::lemma_rollbacks_replaced(before, self.rollbacks@, lv, plugin_id@);
            assert forall|id: Seq<char>| id != plugin_id@ implies #[trigger] self.rollback_record(id) == old(
                self,
            ).rollback_record(id) by {
                assert(old(self).rollback_record(id) == match record_of(before, id) {
                    Some(x) => Some(x.items@),
                    None => None,
                });
            }
        }
        Ok(())
    }

    /// Sets the version a registered plugin is at, after an update.
    pub fn set_installed_version(&mut self, plugin_id: &str, version: String)
        ensures
            final(self).plugin_list() == with_version(old(self).plugin_list(), plugin_id@, version),
            forall|id: Seq<char>| #[trigger] final(self).rollback_record(id) == old(self).rollback_record(id),
            final(self).notification_list() == old(self).notification_list(),
            final(self).settings() == old(self).settings(),
            final(self).directories() == old(self).directories(),
    {
        match position(&self.installed_plugins, plugin_id) {
            None => {},
            Some(k) => {
                let ghost before = self.installed_plugins@;
                let mut p = self.installed_plugins.remove(k);
                p.version = version;
                self.installed_plugins.insert(k, p);
                assert(self.installed_plugins@ =~= before.update(k as int, p));
            },
        }
    }

    /// Turns automatic updates of a registered plugin on or off.
    pub fn set_plugin_auto_update(&mut self, plugin_id: &str, enabled: bool)
        ensures
            final(self).plugin_list() == with_auto_update(old(self).plugin_list(), plugin_id@, enabled),
            forall|id: Seq<char>| #[trigger] final(self).rollback_record(id) == old(self).rollback_record(id),
            final(self).notification_list() == old(self).notification_list(),
            final(self).settings() == old(self).settings(),
    {
        match position(&self.installed_plugins, plugin_id) {
            None => {},
            Some(k) => {
                let ghost before = self.installed_plugins@;
                let mut p = self.installed_plugins.remove(k);
                p.auto_update = enabled;
                self.installed_plugins.insert(k, p);
                assert(self.installed_plugins@ =~= before.update(k as int, p));
            },
        }
    }

    /// A plugin's backups, oldest first.
    pub fn get_rollbacks(&self, plugin_id: &str) -> (r: Vec<&RollbackInfo>)
        ensures
            r@.map_values(|x: &RollbackInfo| *x) == self.rollbacks_of(plugin_id@),
    {
        let mut out: Vec<&RollbackInfo> = Vec::new();
        match position(&self.rollbacks, plugin_id) {
            None => {
                assert(out@.map_values(|x: &RollbackInfo| *x) =~= Seq::<RollbackInfo>::empty());
            },
            Some(i) => {
                proof {
                    lemma_first_index(keys_of(self.rollbacks@), plugin_id@);
                }
                let items = &self.rollbacks[i].items;
                let mut k: usize = 0;
                while k < items.len()
                    invariant
                        k <= items@.len(),
                        out@.map_values(|x: &RollbackInfo| *x) == items@.take(k as int),
                    decreases items.len() - k,
                {
                    let ghost prev = out@.map_values(|x: &RollbackInfo| *x);
                    out.push(&items[k]);
                    assert(out@.map_values(|x: &RollbackInfo| *x) =~= prev.push(items@[k as int]));
                    assert(items@.take(k + 1) =~= items@.take(k as int).push(items@[k as int]));
                    k = k + 1;
                }
                assert(items@.take(k as int) =~= items@);
            },
        }
        out
    }

    /// The update notices.
    pub fn get_notifications(&self) -> (r: &Vec<UpdateNotification>)
        ensures
            r@ == self.notification_list(),
    {
        &self.notifications
    }

    /// Marks the first notice with this identifier read.
    pub fn mark_notification_read(&mut self, notification_id: &str)
        ensures
            final(self).notification_list() == match first_index(keys_of(old(self).notification_list()), notification_id@) {
                Some(k) => old(self).notification_list().update(
                    k,
                    UpdateNotification { read: true, ..old(self).notification_list()[k] },
                ),
                None => old(self).notification_list(),
            },
            final(self).plugin_list() == old(self).plugin_list(),
            forall|id: Seq<char>| #[trigger] final(self).rollback_record(id) == old(self).rollback_record(id),
    {
        match position(&self.notifications, notification_id) {
            None => {},
            Some(k) => {
                let ghost before = self.notifications@;
                let mut n = self.notifications.remove(k);
                n.read = true;
                self.notifications.insert(k, n);
                assert(self.notifications@ =~= before.update(k as int, n));
            },
        }
    }

    /// Removes every notice.
    pub fn clear_notifications(&mut self)
        ensures
            final(self).notification_list().len() == 0,
            final(self).plugin_list() == old(self).plugin_list(),
            forall|id: Seq<char>| #[trigger] final(self).rollback_record(id) == old(self).rollback_record(id),
    {
        self.notifications = Vec::new();
    }
}

} // verus!
