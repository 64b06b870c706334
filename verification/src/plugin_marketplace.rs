//! The plugin marketplace: the listings it serves and the values it
//! exchanges, the cache of listings fetched, the choice of the version to
//! install, and the addresses of its requests.

use vstd::prelude::*;

use crate::clock::utc_now_seconds;
use crate::market::{first_index, keys_of, lemma_first_index, law_stored_record_found, position, record_of, store, stored, Keyed};
use crate::plugin_error::{text2, text3};
use crate::scan::copy_range;
use crate::signing::{sha256, sha256_digest};
use crate::text::{owned, str_chars, string_from_chars, strings_equal};

verus! {

/// A plugin's author.
#[derive(Debug, Clone)]
pub struct AuthorInfo {
    pub id: String,
    pub name: String,
    pub avatar_url: Option<String>,
    pub verified: bool,
}

/// A dependency of a plugin version.
#[derive(Debug, Clone)]
pub struct DependencyInfo {
    pub plugin_id: String,
    /// Version constraint (semver)
    pub version_constraint: String,
    pub optional: bool,
}

/// Platforms a plugin supports.
#[derive(Debug, Clone, Copy, PartialEq, Eq, Structural)]
pub enum Platform {
    Linux,
    MacOS,
    Windows,
    Android,
    IOS,
    Web,
}

/// Where a plugin's signature check stands.
#[derive(Debug, Clone, Copy, PartialEq, Eq, Structural)]
pub enum SignatureStatus {
    Valid,
    Invalid,
    Unsigned,
    Pending,
}

/// Fields search results can be sorted by.
#[derive(Debug, Clone, Copy, PartialEq, Eq, Structural)]
pub enum SortBy {
    Relevance,
    Downloads,
    Rating,
    Updated,
    Name,
}

/// Sort directions.
#[derive(Debug, Clone, Copy, PartialEq, Eq, Structural)]
pub enum SortOrder {
    Asc,
    Desc,
}

/// A search for plugins.
#[derive(Debug, Clone)]
pub struct SearchQuery {
    pub query: String,
    pub category: Option<String>,
    pub tags: Vec<String>,
    pub platform: Option<Platform>,
    pub sort_by: SortBy,
    pub sort_order: SortOrder,
    /// Page number (1-indexed)
    pub page: u32,
    pub per_page: u32,
}

/// Phases of an installation.
#[derive(Debug, Clone, Copy, PartialEq, Eq, Structural)]
pub enum InstallPhase {
    Downloading,
    Verifying,
    Extracting,
    Installing,
    Completing,
    Done,
    Failed,
}

/// How far an installation has come.
#[derive(Debug, Clone)]
pub struct InstallProgress {
    pub phase: InstallPhase,
    /// Progress percentage (0-100)
    pub progress: u8,
    pub message: String,
}

/// Errors of the marketplace.
#[derive(Debug, Clone, PartialEq, Eq)]
pub enum MarketplaceError {
    Network(String),
    NotFound(String),
    SignatureFailed,
    DependencyFailed(String),
    InstallationFailed(String),
    ApiError(String),
}

/// Message of a marketplace error.
pub open spec fn marketplace_error_text(e: MarketplaceError) -> Seq<char> {
    match e {
        MarketplaceError::Network(s) => "Network error: "@ + s@,
        MarketplaceError::NotFound(s) => "Plugin not found: "@ + s@,
        MarketplaceError::SignatureFailed => "Signature verification failed"@,
        MarketplaceError::DependencyFailed(s) => "Dependency resolution failed: "@ + s@,
        MarketplaceError::InstallationFailed(s) => "Installation failed: "@ + s@,
        MarketplaceError::ApiError(s) => "API error: "@ + s@,
    }
}

impl MarketplaceError {
    /// The error's message.
    pub fn message(&self) -> (s: String)
        ensures
            s@ == marketplace_error_text(*self),
    {
        match self {
            MarketplaceError::Network(s) => text2("Network error: ", s.as_str()),
            MarketplaceError::NotFound(s) => text2("Plugin not found: ", s.as_str()),
            MarketplaceError::SignatureFailed => crate::text::owned("Signature verification failed"),
            MarketplaceError::DependencyFailed(s) => text2("Dependency resolution failed: ", s.as_str()),
            MarketplaceError::InstallationFailed(s) => text2("Installation failed: ", s.as_str()),
            MarketplaceError::ApiError(s) => text2("API error: ", s.as_str()),
        }
    }
}

/// Whether a listing cached at `cached_at` is still fresh at `now` (both in
/// seconds): fewer seconds than the time to live have passed.
pub fn cache_is_fresh(cached_at: i64, now: i64, ttl_seconds: u64) -> (r: bool)
    ensures
        r == ((now as int) - (cached_at as int) < ((ttl_seconds as i64) as int)),
{
    let elapsed: i128 = (now as i128) - (cached_at as i128);
    let ttl: i64 = ttl_seconds as i64;
    elapsed < (ttl as i128)
}

/// One released version of a plugin.
#[derive(Debug, Clone)]
pub struct PluginVersion {
    pub version: String,
    /// Seconds since the Unix epoch
    pub released_at: i64,
    pub changelog: Option<String>,
    pub download_url: String,
    /// File size in bytes
    pub size: u64,
    /// SHA-256 of the file, in lowercase hexadecimal
    pub sha256: String,
    pub signature_url: Option<String>,
    pub min_api_version: u32,
    pub max_api_version: Option<u32>,
    pub dependencies: Vec<DependencyInfo>,
}

impl Keyed for PluginVersion {
    open spec fn key_view(&self) -> Seq<char> {
        self.version@
    }

    fn key(&self) -> (k: &String) {
        &self.version
    }
}

/// A plugin as the marketplace lists it.
#[derive(Debug, Clone)]
pub struct PluginListing {
    pub id: String,
    pub name: String,
    pub description: String,
    pub author: AuthorInfo,
    pub latest_version: String,
    /// Versions, newest first
    pub versions: Vec<PluginVersion>,
    pub downloads: u64,
    /// Rating (0-5) in hundredths
    pub rating_hundredths: u32,
    pub rating_count: u32,
    pub categories: Vec<String>,
    pub tags: Vec<String>,
    pub platforms: Vec<Platform>,
    pub homepage: Option<String>,
    pub repository: Option<String>,
    pub license: String,
    /// Seconds since the Unix epoch
    pub updated_at: i64,
    pub verified: bool,
    pub signature_status: SignatureStatus,
}

/// A listing in the cache, with when it was fetched.
#[derive(Debug, Clone)]
pub struct CachedPlugin {
    pub metadata: PluginListing,
    /// Seconds since the Unix epoch
    pub cached_at: i64,
}

/// A listing fetched at `cached_at` is fresh at `now` while fewer seconds
/// than the time to live have passed.
pub open spec fn fresh_at(cached_at: i64, now: i64, ttl_seconds: u64) -> bool {
    (now as int) - (cached_at as int) < ((ttl_seconds as i64) as int)
}

impl CachedPlugin {
    /// Whether the listing is still fresh at `now`.
    pub fn is_fresh_at(&self, ttl_seconds: u64, now: i64) -> (r: bool)
        ensures
            r == fresh_at(self.cached_at, now, ttl_seconds),
    {
        cache_is_fresh(self.cached_at, now, ttl_seconds)
    }

    /// Whether the listing is still fresh now.
    pub fn is_fresh(&self, ttl_seconds: u64) -> (r: bool)
        ensures
            exists|now: i64| r == fresh_at(self.cached_at, now, ttl_seconds),
    {
        let now = utc_now_seconds();
        self.is_fresh_at(ttl_seconds, now)
    }
}

/// A cached listing under the identifier it was fetched by.
struct CacheEntry {
    plugin_id: String,
    entry: CachedPlugin,
}

impl Keyed for CacheEntry {
    closed spec fn key_view(&self) -> Seq<char> {
        self.plugin_id@
    }

    fn key(&self) -> (k: &String) {
        &self.plugin_id
    }
}

/// The listings fetched so far.
pub struct MarketplaceCache {
    plugins: Vec<CacheEntry>,
    last_refresh: Option<i64>,
    cache_ttl: u64,
}

impl MarketplaceCache {
    /// The cached listing of a plugin, whether fresh or not.
    pub closed spec fn cached(&self, plugin_id: Seq<char>) -> Option<CachedPlugin> {
        match record_of(self.plugins@, plugin_id) {
            Some(e) => Some(e.entry),
            None => None,
        }
    }

    /// When the cache was last emptied.
    pub closed spec fn refreshed_at(&self) -> Option<i64> {
        self.last_refresh
    }

    /// How long a listing stays fresh, in seconds.
    pub closed spec fn ttl(&self) -> u64 {
        self.cache_ttl
    }

    /// The cached listing of a plugin while it is fresh at `now`.
    pub fn fresh_listing(&self, plugin_id: &str, now: i64) -> (r: Option<&PluginListing>)
        ensures
            r == match self.cached(plugin_id@) {
                Some(c) => if fresh_at(c.cached_at, now, self.ttl()) {
                    Some(&c.metadata)
                } else {
                    None
                },
                None => None,
            },
    {
        match position(&self.plugins, plugin_id) {
            None => None,
            Some(i) => {
                proof {
                    lemma_first_index(keys_of(self.plugins@), plugin_id@);
                }
                let e = &self.plugins[i];
                if e.entry.is_fresh_at(self.cache_ttl, now) {
                    Some(&e.entry.metadata)
                } else {
                    None
                }
            },
        }
    }

    /// Caches a listing fetched at `now` under the identifier it was fetched
    /// by; every other plugin's cached listing stays.
    pub fn remember(&mut self, plugin_id: &str, listing: PluginListing, now: i64)
        ensures
            final(self).cached(plugin_id@) == Some(CachedPlugin { metadata: listing, cached_at: now }),
            forall|other: Seq<char>| other != plugin_id@ ==> #[trigger] final(self).cached(other) == old(self).cached(other),
            final(self).refreshed_at() == old(self).refreshed_at(),
            final(self).ttl() == old(self).ttl(),
    {
        let ghost before = self.plugins@;
        let e = CacheEntry { plugin_id: owned(plugin_id), entry: CachedPlugin { metadata: listing, cached_at: now } };
        proof {
            assert forall|other: Seq<char>| #[trigger] record_of(stored(before, e), other) == (if other == plugin_id@ {
                Some(e)
            } else {
                record_of(before, other)
            }) by {
                law_stored_record_found(before, e, other);
            }
        }
        store(&mut self.plugins, e);
    }

    /// Empties the cache at `now`.
    pub fn clear_at(&mut self, now: i64)
        ensures
            forall|id: Seq<char>| #[trigger] final(self).cached(id) is None,
            final(self).refreshed_at() == Some(now),
            final(self).ttl() == old(self).ttl(),
    {
        self.plugins = Vec::new();
        self.last_refresh = Some(now);
        proof {
            assert forall|id: Seq<char>| #[trigger] self.cached(id) is None by {
                lemma_first_index(keys_of(self.plugins@), id);
            }
        }
    }
}

impl Default for MarketplaceCache {
    fn default() -> (c: MarketplaceCache)
        ensures
            forall|id: Seq<char>| #[trigger] c.cached(id) is None,
            c.refreshed_at() is None,
            c.ttl() == 3600,
    {
        let c = MarketplaceCache { plugins: Vec::new(), last_refresh: None, cache_ttl: 3600 };
        proof {
            assert forall|id: Seq<char>| #[trigger] c.cached(id) is None by {
                lemma_first_index(keys_of(c.plugins@), id);
            }
        }
        c
    }
}

/// The version to install: the first one named `wanted`, or the first
/// listed where no version is named.
pub open spec fn chosen_version(versions: Seq<PluginVersion>, wanted: Option<Seq<char>>) -> Result<PluginVersion, MarketplaceError> {
    match wanted {
        Some(v) => match record_of(versions, v) {
            Some(pv) => Ok(pv),
            None => Err(MarketplaceError::NotFound(arbitrary())),
        },
        None => if versions.len() > 0 {
            Ok(versions[0])
        } else {
            Err(MarketplaceError::NotFound(arbitrary()))
        },
    }
}

/// The message of the error for a missing version.
pub open spec fn missing_version_text(wanted: Option<Seq<char>>) -> Seq<char> {
    match wanted {
        Some(v) => "Version "@ + v + " not found"@,
        None => "No versions available"@,
    }
}

/// Chooses the version of a listing to install: the one named `version`,
/// or the newest where none is named.
pub fn select_version<'a>(listing: &'a PluginListing, version: Option<&str>) -> (r: Result<&'a PluginVersion, MarketplaceError>)
    ensures
        match chosen_version(listing.versions@, match version { Some(v) => Some(v@), None => None }) {
            Ok(pv) => r == Ok::<&PluginVersion, MarketplaceError>(&pv),
            Err(_) => r matches Err(MarketplaceError::NotFound(t)) && t@ == missing_version_text(
                match version { Some(v) => Some(v@), None => None },
            ),
        },
{
    match version {
        Some(v) => match position(&listing.versions, v) {
            Some(i) => {
                proof {
                    lemma_first_index(keys_of(listing.versions@), v@);
                }
                Ok(&listing.versions[i])
            },
            None => Err(MarketplaceError::NotFound(text3("Version ", v, " not found"))),
        },
        None => {
            if listing.versions.len() > 0 {
                Ok(&listing.versions[0])
            } else {
                Err(MarketplaceError::NotFound(owned("No versions available")))
            }
        },
    }
}

/// The part of a download address after its last slash (all of it where
/// there is none).
pub open spec fn last_segment(url: Seq<char>) -> Seq<char>
    decreases url.len(),
{
    if url.len() == 0 {
        url
    } else if url.last() == '/' {
        Seq::empty()
    } else {
        last_segment(url.drop_last()).push(url.last())
    }
}

/// The name a downloaded version is saved under: the last segment of its
/// address, a hyphen, its version and `.wasm`.
pub open spec fn download_name(v: PluginVersion) -> Seq<char> {
    last_segment(v.download_url@) + "-"@ + v.version@ + ".wasm"@
}

/// The name a downloaded version is saved under (see `download_name`).
pub fn download_file_name(version: &PluginVersion) -> (name: String)
    ensures
        name@ == download_name(*version),
{
    let chars = str_chars(version.download_url.as_str());
    let mut start: usize = chars.len();
    assert(chars@.take(start as int) =~= chars@);
    assert(chars@.skip(start as int) =~= Seq::<char>::empty());
    assert(last_segment(chars@) + Seq::<char>::empty() =~= last_segment(chars@));
    while start > 0 && chars[start - 1] != '/'
        invariant
            start <= chars@.len(),
            last_segment(chars@) == last_segment(chars@.take(start as int)) + chars@.skip(start as int),
        decreases start,
    {
        let ghost t = chars@.take(start as int);
        assert(t.drop_last() =~= chars@.take(start - 1));
        assert(chars@.skip(start - 1) =~= seq![chars@[start - 1]] + chars@.skip(start as int));
        assert(last_segment(t) == last_segment(t.drop_last()).push(t.last()));
        assert(last_segment(t.drop_last()).push(t.last()) + chars@.skip(start as int) =~= last_segment(
            t.drop_last(),
        ) + chars@.skip(start - 1));
        start = start - 1;
    }
    proof {
        let t = chars@.take(start as int);
        if start > 0 {
            assert(t.last() == '/');
        }
        assert(last_segment(t) =~= Seq::<char>::empty());
        assert(last_segment(chars@) =~= chars@.skip(start as int));
    }
    let tail = copy_range(chars.as_slice(), start, chars.len());
    let seg = string_from_chars(tail.as_slice());
    let mut out = text3(seg.as_str(), "-", version.version.as_str());
    let suffix = text2(out.as_str(), ".wasm");
    assert(chars@.subrange(start as int, chars@.len() as int) =~= chars@.skip(start as int));
    suffix
}

/// The lowercase hexadecimal digit of a value below 16.
pub open spec fn lower_hex_digit(d: u8) -> char {
    if d < 10 {
        (48 + d) as char
    } else {
        (87 + d) as char
    }
}

/// Bytes as lowercase hexadecimal text, two digits per byte, the high
/// digit first: how a digest is written with `{:x}`.
pub open spec fn lower_hex(bytes: Seq<u8>) -> Seq<char> {
    Seq::new(
        2 * bytes.len(),
        |i: int|
            if i % 2 == 0 {
                lower_hex_digit(bytes[i / 2] / 16)
            } else {
                lower_hex_digit(bytes[i / 2] % 16)
            },
    )
}

fn hex_digit_char(d: u8) -> (c: char)
    requires
        d < 16,
    ensures
        c == lower_hex_digit(d),
{
    if d < 10 {
        (48 + d) as char
    } else {
        (87 + d) as char
    }
}

/// `bytes` as lowercase hexadecimal text (see `lower_hex`).
pub fn lower_hex_text(bytes: &[u8]) -> (s: String)
    ensures
        s@ == lower_hex(bytes@),
{
    let mut out: Vec<char> = Vec::new();
    let mut i: usize = 0;
    while i < bytes.len()
        invariant
            i <= bytes@.len(),
            out@ =~= lower_hex(bytes@.take(i as int)),
        decreases bytes.len() - i,
    {
        let b = bytes[i];
        out.push(hex_digit_char(b / 16));
        out.push(hex_digit_char(b % 16));
        proof {
            let t = bytes@.take(i + 1);
            assert forall|k: int| 0 <= k < 2 * t.len() implies #[trigger] out@[k] == lower_hex(t)[k] by {
                if k < 2 * i {
                    assert(t[k / 2] == bytes@.take(i as int)[k / 2]);
                } else {
                    assert(k / 2 == i);
                }
            }
        }
        i = i + 1;
    }
    assert(bytes@.take(bytes@.len() as int) =~= bytes@);
    string_from_chars(out.as_slice())
}

/// Whether downloaded bytes are the file a version was published with:
/// the lowercase hexadecimal of their SHA-256 digest is the version's hash.
pub fn download_matches(file_bytes: &[u8], version: &PluginVersion) -> (r: bool)
    ensures
        r == (lower_hex(sha256_digest(file_bytes@)) == version.sha256@),
{
    let digest = sha256(file_bytes);
    let hex = lower_hex_text(digest.as_slice());
    strings_equal(&hex, &version.sha256)
}

/// How far an installation has come.
#[derive(Debug, Clone, Copy, PartialEq, Eq, Structural)]
pub enum InstallStage {
    /// Nothing done yet.
    Start,
    /// The file is being downloaded and its hash checked.
    Downloading,
    /// The signature is being checked.
    Verifying,
    /// The plugin is being put in place.
    Installing,
    /// Installed.
    Done,
    /// Given up.
    Failed,
}

/// An installation: its stage, and the plugin name and version text its
/// messages speak of.
#[derive(Debug, Clone)]
pub struct InstallState {
    pub stage: InstallStage,
    pub plugin_name: String,
    pub version: String,
}

/// What the outside work of an installation reports back.
#[derive(Debug, Clone, Copy, PartialEq, Eq, Structural)]
pub enum InstallEvent {
    /// Start the installation.
    Begin,
    /// The download finished; whether its hash matched the version's.
    Downloaded { hash_matches: bool },
    /// The signature was checked.
    Verified,
    /// The plugin was put in place.
    Installed,
}

/// What to do next: report progress (and do the work of its phase), fail,
/// or nothing.
#[derive(Debug, Clone)]
pub enum InstallAction {
    Report(InstallProgress),
    Fail(MarketplaceError),
    Wait,
}

/// An action by its values; `Fail` stands for an installation failure with
/// its reason, `OtherFailure` for any other error.
pub enum ActionModel {
    Report { phase: InstallPhase, progress: u8, message: Seq<char> },
    Fail { reason: Seq<char> },
    OtherFailure,
    Wait,
}

/// An action by its values.
pub open spec fn action_view(a: InstallAction) -> ActionModel {
    match a {
        InstallAction::Report(p) => ActionModel::Report { phase: p.phase, progress: p.progress, message: p.message@ },
        InstallAction::Fail(MarketplaceError::InstallationFailed(t)) => ActionModel::Fail { reason: t@ },
        InstallAction::Fail(_) => ActionModel::OtherFailure,
        InstallAction::Wait => ActionModel::Wait,
    }
}

/// The next stage and action of an installation of `name` in `version`
/// after `event`: begin by downloading (0%), verify the signature once the
/// download's hash matches (50%), install once verified (75%), and finish
/// once installed (100%); a hash mismatch fails the installation. Any
/// other event changes nothing.
pub open spec fn install_next(stage: InstallStage, name: Seq<char>, version: Seq<char>, event: InstallEvent) -> (InstallStage, ActionModel) {
    match (stage, event) {
        (InstallStage::Start, InstallEvent::Begin) => (
            InstallStage::Downloading,
            ActionModel::Report {
                phase: InstallPhase::Downloading,
                progress: 0,
                message: "Downloading "@ + name + " v"@ + version + "..."@,
            },
        ),
        (InstallStage::Downloading, InstallEvent::Downloaded { hash_matches }) => if hash_matches {
            (
                InstallStage::Verifying,
                ActionModel::Report { phase: InstallPhase::Verifying, progress: 50, message: "Verifying signature..."@ },
            )
        } else {
            (InstallStage::Failed, ActionModel::Fail { reason: "Downloaded file hash mismatch"@ })
        },
        (InstallStage::Verifying, InstallEvent::Verified) => (
            InstallStage::Installing,
            ActionModel::Report { phase: InstallPhase::Installing, progress: 75, message: "Installing..."@ },
        ),
        (InstallStage::Installing, InstallEvent::Installed) => (
            InstallStage::Done,
            ActionModel::Report {
                phase: InstallPhase::Done,
                progress: 100,
                message: name + " installed successfully!"@,
            },
        ),
        _ => (stage, ActionModel::Wait),
    }
}

/// An installation whose download matches its hash goes through
/// downloading, verifying, installing and done, reporting 0, 50, 75 and
/// 100 percent, one phase per step.
pub proof fn law_install_phases_in_order(name: Seq<char>, version: Seq<char>)
    ensures
        ({
            let s1 = install_next(InstallStage::Start, name, version, InstallEvent::Begin);
            let s2 = install_next(s1.0, name, version, InstallEvent::Downloaded { hash_matches: true });
            let s3 = install_next(s2.0, name, version, InstallEvent::Verified);
            let s4 = install_next(s3.0, name, version, InstallEvent::Installed);
            &&& s1.1 matches ActionModel::Report { phase: InstallPhase::Downloading, progress: 0, .. }
            &&& s2.1 matches ActionModel::Report { phase: InstallPhase::Verifying, progress: 50, .. }
            &&& s3.1 matches ActionModel::Report { phase: InstallPhase::Installing, progress: 75, .. }
            &&& s4.1 matches ActionModel::Report { phase: InstallPhase::Done, progress: 100, .. }
            &&& s4.0 == InstallStage::Done
        }),
{
}

/// A download whose hash does not match fails the installation, and a
/// finished or failed installation stays as it is whatever comes next.
pub proof fn law_install_mismatch_fails_for_good(name: Seq<char>, version: Seq<char>, event: InstallEvent)
    ensures
        install_next(InstallStage::Downloading, name, version, InstallEvent::Downloaded { hash_matches: false })
            == (InstallStage::Failed, ActionModel::Fail { reason: "Downloaded file hash mismatch"@ }),
        install_next(InstallStage::Failed, name, version, event) == (InstallStage::Failed, ActionModel::Wait),
        install_next(InstallStage::Done, name, version, event) == (InstallStage::Done, ActionModel::Wait),
{
}

impl InstallState {
    /// An installation of `name` in `version` that has not begun.
    pub fn new(name: &str, version: &str) -> (s: InstallState)
        ensures
            s.stage == InstallStage::Start,
            s.plugin_name@ == name@,
            s.version@ == version@,
    {
        InstallState { stage: InstallStage::Start, plugin_name: owned(name), version: owned(version) }
    }
}

fn report(phase: InstallPhase, progress: u8, message: String) -> (a: InstallAction)
    ensures
        action_view(a) == (ActionModel::Report { phase, progress, message: message@ }),
{
    InstallAction::Report(InstallProgress { phase, progress, message })
}

/// One step of an installation (see `install_next`).
pub fn install_step(state: InstallState, event: InstallEvent) -> (r: (InstallState, InstallAction))
    ensures
        r.0.plugin_name == state.plugin_name,
        r.0.version == state.version,
        (r.0.stage, action_view(r.1)) == install_next(state.stage, state.plugin_name@, state.version@, event),
{
    proof {
        reveal_strlit("Downloading ");
        reveal_strlit(" v");
        reveal_strlit("...");
        reveal_strlit(" installed successfully!");
    }
    let InstallState { stage, plugin_name, version } = state;
    match (stage, event) {
        (InstallStage::Start, InstallEvent::Begin) => {
            let a = text3("Downloading ", plugin_name.as_str(), " v");
            let m = text3(a.as_str(), version.as_str(), "...");
            let act = report(InstallPhase::Downloading, 0, m);
            (InstallState { stage: InstallStage::Downloading, plugin_name, version }, act)
        },
        (InstallStage::Downloading, InstallEvent::Downloaded { hash_matches }) => {
            if hash_matches {
                let act = report(InstallPhase::Verifying, 50, owned("Verifying signature..."));
                (InstallState { stage: InstallStage::Verifying, plugin_name, version }, act)
            } else {
                let act = InstallAction::Fail(MarketplaceError::InstallationFailed(owned("Downloaded file hash mismatch")));
                (InstallState { stage: InstallStage::Failed, plugin_name, version }, act)
            }
        },
        (InstallStage::Verifying, InstallEvent::Verified) => {
            let act = report(InstallPhase::Installing, 75, owned("Installing..."));
            (InstallState { stage: InstallStage::Installing, plugin_name, version }, act)
        },
        (InstallStage::Installing, InstallEvent::Installed) => {
            let m = text2(plugin_name.as_str(), " installed successfully!");
            let act = report(InstallPhase::Done, 100, m);
            (InstallState { stage: InstallStage::Done, plugin_name, version }, act)
        },
        _ => (InstallState { stage, plugin_name, version }, InstallAction::Wait),
    }
}

/// The marketplace client's addresses, cache and directories.
pub struct PluginMarketplace {
    api_endpoint: String,
    cache: MarketplaceCache,
    download_dir: String,
    install_dir: String,
}

impl PluginMarketplace {
    /// The address of the marketplace's interface.
    pub closed spec fn endpoint(&self) -> Seq<char> {
        self.api_endpoint@
    }

    /// The listings fetched so far.
    pub closed spec fn listing_cache(&self) -> MarketplaceCache {
        self.cache
    }

    /// Where downloads are saved.
    pub closed spec fn download_path(&self) -> Seq<char> {
        self.download_dir@
    }

    /// Where plugins are installed.
    pub closed spec fn install_path(&self) -> Seq<char> {
        self.install_dir@
    }

    /// A client of the marketplace at `api_endpoint` with an empty cache.
    pub fn new(api_endpoint: &str, download_dir: &str, install_dir: &str) -> (m: PluginMarketplace)
        ensures
            m.endpoint() == api_endpoint@,
            m.download_path() == download_dir@,
            m.install_path() == install_dir@,
            forall|id: Seq<char>| #[trigger] m.listing_cache().cached(id) is None,
            m.listing_cache().ttl() == 3600,
    {
        PluginMarketplace {
            api_endpoint: owned(api_endpoint),
            cache: MarketplaceCache::default(),
            download_dir: owned(download_dir),
            install_dir: owned(install_dir),
        }
    }

    /// A client of the public marketplace.
    pub fn with_default_endpoint(download_dir: &str, install_dir: &str) -> (m: PluginMarketplace)
        ensures
            m.endpoint() == "https://marketplace.vantis.io/api/v1"@,
            m.download_path() == download_dir@,
            m.install_path() == install_dir@,
            forall|id: Seq<char>| #[trigger] m.listing_cache().cached(id) is None,
    {
        PluginMarketplace::new("https://marketplace.vantis.io/api/v1", download_dir, install_dir)
    }

    /// Where downloads are saved.
    pub fn download_directory(&self) -> (d: &String)
        ensures
            d@ == self.download_path(),
    {
        &self.download_dir
    }

    /// Where plugins are installed.
    pub fn install_directory(&self) -> (d: &String)
        ensures
            d@ == self.install_path(),
    {
        &self.install_dir
    }

    /// The address of a search.
    pub fn search_url(&self) -> (u: String)
        ensures
            u@ == self.endpoint() + "/plugins/search"@,
    {
        text2(self.api_endpoint.as_str(), "/plugins/search")
    }

    /// The address of a plugin's listing.
    pub fn plugin_url(&self, plugin_id: &str) -> (u: String)
        ensures
            u@ == self.endpoint() + "/plugins/"@ + plugin_id@,
    {
        text3(self.api_endpoint.as_str(), "/plugins/", plugin_id)
    }

    /// The address of a plugin's reviews.
    pub fn reviews_url(&self, plugin_id: &str) -> (u: String)
        ensures
            u@ == self.endpoint() + "/plugins/"@ + plugin_id@ + "/reviews"@,
    {
        let base = text3(self.api_endpoint.as_str(), "/plugins/", plugin_id);
        text2(base.as_str(), "/reviews")
    }

    /// The address of the featured plugins.
    pub fn featured_url(&self) -> (u: String)
        ensures
            u@ == self.endpoint() + "/plugins/featured"@,
    {
        text2(self.api_endpoint.as_str(), "/plugins/featured")
    }

    /// The address of a category's plugins.
    pub fn category_url(&self, category: &str) -> (u: String)
        ensures
            u@ == self.endpoint() + "/plugins/category/"@ + category@,
    {
        text3(self.api_endpoint.as_str(), "/plugins/category/", category)
    }

    /// The listing of a plugin cached and still fresh at `now`.
    pub fn cached_plugin_at(&self, plugin_id: &str, now: i64) -> (r: Option<&PluginListing>)
        ensures
            r == match self.listing_cache().cached(plugin_id@) {
                Some(c) => if fresh_at(c.cached_at, now, self.listing_cache().ttl()) {
                    Some(&c.metadata)
                } else {
                    None
                },
                None => None,
            },
    {
        self.cache.fresh_listing(plugin_id, now)
    }

    /// Caches a listing fetched at `now`.
    pub fn remember_plugin_at(&mut self, plugin_id: &str, listing: PluginListing, now: i64)
        ensures
            final(self).listing_cache().cached(plugin_id@) == Some(CachedPlugin { metadata: listing, cached_at: now }),
            forall|other: Seq<char>| other != plugin_id@ ==> #[trigger] final(self).listing_cache().cached(other)
                == old(self).listing_cache().cached(other),
            final(self).endpoint() == old(self).endpoint(),
    {
        self.cache.remember(plugin_id, listing, now);
    }

    /// Empties the cache at `now`.
    pub fn refresh_cache_at(&mut self, now: i64) -> (r: Result<(), MarketplaceError>)
        ensures
            r is Ok,
            forall|id: Seq<char>| #[trigger] final(self).listing_cache().cached(id) is None,
            final(self).listing_cache().refreshed_at() == Some(now),
            final(self).endpoint() == old(self).endpoint(),
    {
        self.cache.clear_at(now);
        Ok(())
    }

    /// Empties the cache now.
    pub fn refresh_cache(&mut self) -> (r: Result<(), MarketplaceError>)
        ensures
            r is Ok,
            forall|id: Seq<char>| #[trigger] final(self).listing_cache().cached(id) is None,
            final(self).listing_cache().refreshed_at() is Some,
            final(self).endpoint() == old(self).endpoint(),
    {
        let now = utc_now_seconds();
        self.refresh_cache_at(now)
    }
}

} // verus!
