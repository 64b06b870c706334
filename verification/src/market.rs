//! The plugin store: the catalog of published plugins, the submissions
//! waiting for review, user ratings, download counts and developer
//! accounts, each kept by its identifier.
//!
//! Each kind of record is kept in a list and found by the first record
//! with the identifier asked for; storing a record replaces that one, or
//! appends it when there is none.

use vstd::prelude::*;

use crate::clock::utc_now_seconds;
use crate::media::{lowercase, lowercased};
use crate::metrics::{find_named, lemma_without_name, lookup, named_view, put_named, without_name};
use crate::scan::{find, find_chars};
use crate::store_catalog::{
    MarketplaceConfig, Platform, PluginCategory, PluginDependency, PluginEngines, PluginStatus, SubmissionStatus,
};
use crate::text::{owned, str_chars, string_equals_str, strings_equal};

verus! {

/// An entry of a plugin's change log.
#[derive(Debug, Clone)]
pub struct ChangelogEntry {
    pub version: String,
    /// Seconds since the Unix epoch
    pub date: i64,
    pub changes: Vec<String>,
}

/// Download and rating figures of a plugin. The star rating is kept as the
/// total of the stars given: the average is `rating_total / rating_count`.
#[derive(Debug, Clone, Copy, PartialEq, Eq, Structural)]
pub struct PluginStats {
    pub total_downloads: u64,
    pub monthly_downloads: u64,
    pub weekly_downloads: u64,
    pub daily_downloads: u64,
    pub active_installs: u64,
    pub rating_total: u64,
    pub rating_count: u64,
}

impl Default for PluginStats {
    fn default() -> (s: PluginStats)
        ensures
            s == (PluginStats {
                total_downloads: 0,
                monthly_downloads: 0,
                weekly_downloads: 0,
                daily_downloads: 0,
                active_installs: 0,
                rating_total: 0,
                rating_count: 0,
            }),
    {
        PluginStats {
            total_downloads: 0,
            monthly_downloads: 0,
            weekly_downloads: 0,
            daily_downloads: 0,
            active_installs: 0,
            rating_total: 0,
            rating_count: 0,
        }
    }
}

/// A plugin of the store's catalog.
#[derive(Debug, Clone)]
pub struct MarketplacePlugin {
    pub id: String,
    pub name: String,
    pub version: String,
    pub description: String,
    pub author: String,
    pub author_id: String,
    pub categories: Vec<PluginCategory>,
    pub tags: Vec<String>,
    pub homepage: Option<String>,
    pub repository: Option<String>,
    pub license: String,
    pub download_url: String,
    pub checksum: String,
    pub platforms: Vec<Platform>,
    pub min_version: String,
    pub max_version: Option<String>,
    pub status: PluginStatus,
    /// Seconds since the Unix epoch
    pub published_at: Option<i64>,
    /// Seconds since the Unix epoch
    pub updated_at: i64,
    pub icon_url: Option<String>,
    pub screenshots: Vec<String>,
    pub changelog: Vec<ChangelogEntry>,
    pub dependencies: Vec<PluginDependency>,
    pub stats: PluginStats,
    pub verified: bool,
    pub featured: bool,
}

/// The manifest a plugin is submitted with.
#[derive(Debug, Clone)]
pub struct PluginManifest {
    pub name: String,
    pub version: String,
    pub description: String,
    pub author: String,
    pub license: String,
    pub main: String,
    pub homepage: Option<String>,
    pub repository: Option<String>,
    pub keywords: Vec<String>,
    pub categories: Vec<String>,
    pub engines: PluginEngines,
    /// Required plugins with their version requirements
    pub dependencies: Vec<(String, String)>,
}

/// A plugin, or a new version of one, submitted for review.
#[derive(Debug, Clone)]
pub struct PluginSubmission {
    pub id: String,
    pub plugin_id: String,
    pub version: String,
    pub submitter_id: String,
    /// Seconds since the Unix epoch
    pub submitted_at: i64,
    pub status: SubmissionStatus,
    pub review_notes: Option<String>,
    pub reviewer_id: Option<String>,
    /// Seconds since the Unix epoch
    pub reviewed_at: Option<i64>,
    pub manifest: PluginManifest,
}

/// A user's rating of a plugin.
#[derive(Debug, Clone)]
pub struct UserRating {
    pub id: String,
    pub user_id: String,
    pub plugin_id: String,
    /// One to five stars
    pub rating: u8,
    pub title: String,
    pub review: String,
    /// Seconds since the Unix epoch
    pub created_at: i64,
    pub helpful_count: u64,
    /// Whether the user installed the plugin
    pub verified: bool,
}

/// The ratings of a plugin. The average rating is kept as the total of
/// the stars given: the average is `total_score / total_ratings`.
#[derive(Debug, Clone)]
pub struct PluginRatingSummary {
    pub plugin_id: String,
    pub total_ratings: u64,
    pub total_score: u64,
    /// How many ratings gave one to five stars, in that order
    pub rating_distribution: [u64; 5],
    /// The latest ratings, at most ten, oldest first
    pub recent_ratings: Vec<UserRating>,
}

/// Downloads of a plugin on one day.
#[derive(Debug, Clone, Copy, PartialEq, Eq, Structural)]
pub struct DailyDownload {
    /// Seconds since the Unix epoch
    pub date: i64,
    pub count: u64,
}

/// The downloads of a plugin, in all and by platform and version.
#[derive(Debug, Clone)]
pub struct DownloadStats {
    pub plugin_id: String,
    pub total: u64,
    pub daily: Vec<DailyDownload>,
    pub by_platform: Vec<(String, u64)>,
    pub by_version: Vec<(String, u64)>,
}

/// A developer account.
#[derive(Debug, Clone)]
pub struct Developer {
    pub id: String,
    pub username: String,
    pub display_name: String,
    pub email: String,
    pub avatar_url: Option<String>,
    pub bio: Option<String>,
    pub website: Option<String>,
    pub verified: bool,
    /// Whether the developer's plugins are approved without review
    pub trusted: bool,
    pub total_plugins: u64,
    pub total_downloads: u64,
    /// Seconds since the Unix epoch
    pub created_at: i64,
}

/// What a catalog search is narrowed by.
#[derive(Debug, Clone, Copy, PartialEq, Eq, Structural)]
pub struct SearchFilters {
    pub category: Option<PluginCategory>,
    pub platform: Option<Platform>,
    pub verified_only: bool,
    pub featured_only: bool,
}

impl Default for SearchFilters {
    fn default() -> (f: SearchFilters)
        ensures
            f.category is None,
            f.platform is None,
            !f.verified_only,
            !f.featured_only,
    {
        SearchFilters { category: None, platform: None, verified_only: false, featured_only: false }
    }
}

/// Why the store refuses a request.
#[derive(Debug, Clone, Copy, PartialEq, Eq, Structural)]
pub enum MarketError {
    Disabled,
    PendingSubmissionExists,
    InvalidRating,
    DeveloperExists,
    PluginNotFound,
    PluginNotApproved,
}

impl MarketError {
    /// The error's message.
    pub fn message(&self) -> (s: String)
        ensures
            s@ == match self {
                MarketError::Disabled => "Marketplace is disabled"@,
                MarketError::PendingSubmissionExists => "A pending submission already exists for this plugin"@,
                MarketError::InvalidRating => "Rating must be between 1 and 5"@,
                MarketError::DeveloperExists => "Developer already exists"@,
                MarketError::PluginNotFound => "Plugin not found"@,
                MarketError::PluginNotApproved => "Plugin is not approved for distribution"@,
            },
    {
        match self {
            MarketError::Disabled => owned("Marketplace is disabled"),
            MarketError::PendingSubmissionExists => owned("A pending submission already exists for this plugin"),
            MarketError::InvalidRating => owned("Rating must be between 1 and 5"),
            MarketError::DeveloperExists => owned("Developer already exists"),
            MarketError::PluginNotFound => owned("Plugin not found"),
            MarketError::PluginNotApproved => owned("Plugin is not approved for distribution"),
        }
    }
}

/// The index of the first key equal to `id`.
pub open spec fn first_index(keys: Seq<Seq<char>>, id: Seq<char>) -> Option<int>
    decreases keys.len(),
{
    if keys.len() == 0 {
        None
    } else if keys[0] == id {
        Some(0)
    } else {
        match first_index(keys.drop_first(), id) {
            Some(i) => Some(i + 1),
            None => None,
        }
    }
}

/// The first index of a key is that of an equal key with no equal key
/// before it; there is none only when no key is equal.
pub proof fn lemma_first_index(keys: Seq<Seq<char>>, id: Seq<char>)
    ensures
        match first_index(keys, id) {
            Some(i) => 0 <= i < keys.len() && keys[i] == id && forall|j: int| 0 <= j < i ==> keys[j] != id,
            None => forall|j: int| 0 <= j < keys.len() ==> keys[j] != id,
        },
    decreases keys.len(),
{
    if keys.len() > 0 && keys[0] != id {
        lemma_first_index(keys.drop_first(), id);
        assert forall|j: int| 1 <= j < keys.len() implies keys[j] == keys.drop_first()[j - 1] by {}
    }
}

/// An equal key with no equal key before it is the first one.
pub proof fn lemma_first_index_at(keys: Seq<Seq<char>>, id: Seq<char>, i: int)
    requires
        0 <= i < keys.len(),
        keys[i] == id,
        forall|j: int| 0 <= j < i ==> keys[j] != id,
    ensures
        first_index(keys, id) == Some(i),
{
    lemma_first_index(keys, id);
}

/// Replacing the record at the first index of its key, or appending one
/// with a new key, makes it the first of that key and keeps the first
/// index of every other key.
pub proof fn lemma_first_index_store(keys: Seq<Seq<char>>, id: Seq<char>, other: Seq<char>)
    ensures
        match first_index(keys, id) {
            Some(i) => first_index(keys.update(i, id), other) == first_index(keys, other),
            None => first_index(keys.push(id), id) == Some(keys.len() as int) && (other != id ==> first_index(
                keys.push(id),
                other,
            ) == first_index(keys, other)),
        },
{
    lemma_first_index(keys, id);
    lemma_first_index(keys, other);
    match first_index(keys, id) {
        Some(i) => {
            let k2 = keys.update(i, id);
            lemma_first_index(k2, other);
            match first_index(keys, other) {
                Some(o) => lemma_first_index_at(k2, other, o),
                None => {},
            }
        },
        None => {
            let k2 = keys.push(id);
            lemma_first_index(k2, id);
            lemma_first_index(k2, other);
            lemma_first_index_at(k2, id, keys.len() as int);
            match first_index(keys, other) {
                Some(o) => lemma_first_index_at(k2, other, o),
                None => {},
            }
        },
    }
}

/// Records found by an identifier.
pub trait Keyed {
    /// The identifier a record is found by.
    spec fn key_view(&self) -> Seq<char>;

    /// The identifier a record is found by.
    fn key(&self) -> (k: &String)
        ensures
            k@ == self.key_view(),
    ;
}

impl Keyed for MarketplacePlugin {
    open spec fn key_view(&self) -> Seq<char> {
        self.id@
    }

    fn key(&self) -> (k: &String) {
        &self.id
    }
}

impl Keyed for PluginSubmission {
    open spec fn key_view(&self) -> Seq<char> {
        self.id@
    }

    fn key(&self) -> (k: &String) {
        &self.id
    }
}

impl Keyed for PluginRatingSummary {
    open spec fn key_view(&self) -> Seq<char> {
        self.plugin_id@
    }

    fn key(&self) -> (k: &String) {
        &self.plugin_id
    }
}

impl Keyed for DownloadStats {
    open spec fn key_view(&self) -> Seq<char> {
        self.plugin_id@
    }

    fn key(&self) -> (k: &String) {
        &self.plugin_id
    }
}

impl Keyed for Developer {
    open spec fn key_view(&self) -> Seq<char> {
        self.id@
    }

    fn key(&self) -> (k: &String) {
        &self.id
    }
}

/// The identifiers of a list of records.
pub open spec fn keys_of<T: Keyed>(s: Seq<T>) -> Seq<Seq<char>> {
    s.map_values(|t: T| t.key_view())
}

/// The record found by `id`: the first with that identifier.
pub open spec fn record_of<T: Keyed>(s: Seq<T>, id: Seq<char>) -> Option<T> {
    match first_index(keys_of(s), id) {
        Some(i) => Some(s[i]),
        None => None,
    }
}

/// The position of the record found by `id`.
pub(crate) fn position<T: Keyed>(v: &Vec<T>, id: &str) -> (r: Option<usize>)
    ensures
        match r {
            Some(i) => i < v@.len() && first_index(keys_of(v@), id@) == Some(i as int),
            None => first_index(keys_of(v@), id@) is None,
        },
{
    let mut i: usize = 0;
    while i < v.len()
        invariant
            i <= v@.len(),
            forall|j: int| 0 <= j < i ==> keys_of(v@)[j] != id@,
        decreases v.len() - i,
    {
        if string_equals_str(v[i].key(), id) {
            proof {
                lemma_first_index_at(keys_of(v@), id@, i as int);
            }
            return Some(i);
        }
        i = i + 1;
    }
    proof {
        lemma_first_index(keys_of(v@), id@);
    }
    None
}

/// Stores a record: in place of the one found by its identifier, or
/// appended when there is none.
pub(crate) fn store<T: Keyed>(v: &mut Vec<T>, item: T)
    ensures
        match first_index(keys_of(old(v)@), item.key_view()) {
            Some(i) => final(v)@ == old(v)@.update(i, item),
            None => final(v)@ == old(v)@.push(item),
        },
{
    let ghost key = item.key_view();
    let k = item.key().clone();
    match position(v, k.as_str()) {
        Some(i) => {
            v.set(i, item);
        },
        None => {
            v.push(item);
        },
    }
}

/// Appending a record keeps what every identifier found, and makes a new
/// identifier find the appended record.
pub proof fn lemma_record_of_push<T: Keyed>(s: Seq<T>, x: T, w: Seq<char>)
    ensures
        record_of(s.push(x), w) == match record_of(s, w) {
            Some(r) => Some(r),
            None => if x.key_view() == w {
                Some(x)
            } else {
                None
            },
        },
{
    let ks = keys_of(s);
    let kp = keys_of(s.push(x));
    assert(kp =~= ks.push(x.key_view()));
    lemma_first_index(ks, w);
    lemma_first_index(kp, w);
    match first_index(ks, w) {
        Some(i) => {
            lemma_first_index_at(kp, w, i);
        },
        None => {
            if x.key_view() == w {
                lemma_first_index_at(kp, w, ks.len() as int);
            }
        },
    }
}

/// `s` without the records found by `id`.
pub open spec fn without_key<T: Keyed>(s: Seq<T>, id: Seq<char>) -> Seq<T>
    decreases s.len(),
{
    if s.len() == 0 {
        s
    } else if s.last().key_view() == id {
        without_key(s.drop_last(), id)
    } else {
        without_key(s.drop_last(), id).push(s.last())
    }
}

/// Without the records of `id`, `id` finds nothing and every other
/// identifier finds what it found before.
pub proof fn lemma_without_key<T: Keyed>(s: Seq<T>, id: Seq<char>, w: Seq<char>)
    ensures
        record_of(without_key(s, id), w) == if w == id {
            None
        } else {
            record_of(s, w)
        },
    decreases s.len(),
{
    if s.len() == 0 {
        assert(keys_of(s) =~= Seq::<Seq<char>>::empty());
    } else {
        let d = s.drop_last();
        assert(d.push(s.last()) =~= s);
        lemma_without_key(d, id, w);
        lemma_record_of_push(d, s.last(), w);
        if s.last().key_view() != id {
            lemma_record_of_push(without_key(d, id), s.last(), w);
        }
    }
}

/// Removes the records found by `id`.
pub(crate) fn remove_keyed<T: Keyed>(v: &mut Vec<T>, id: &str)
    ensures
        final(v)@ == without_key(old(v)@, id@),
{
    let ghost all = v@;
    let total: usize = v.len();
    let mut kept: Vec<T> = Vec::new();
    let mut n: usize = 0;
    while v.len() > 0
        invariant
            all.len() == total,
            n + v@.len() == all.len(),
            v@ == all.skip(n as int),
            kept@ == without_key(all.take(n as int), id@),
        decreases v.len(),
    {
        let x = v.remove(0);
        assert(all.take(n + 1).drop_last() =~= all.take(n as int));
        assert(all.take(n + 1).last() == x);
        assert(v@ =~= all.skip(n + 1));
        if !string_equals_str(x.key(), id) {
            kept.push(x);
        }
        n = n + 1;
    }
    assert(all.take(n as int) =~= all);
    *v = kept;
}

/// After storing a record, it is the one found by its identifier, and
/// every other identifier finds what it found before.
pub proof fn law_stored_record_found<T: Keyed>(s: Seq<T>, item: T, other: Seq<char>)
    ensures
        ({
            let after = match first_index(keys_of(s), item.key_view()) {
                Some(i) => s.update(i, item),
                None => s.push(item),
            };
            &&& record_of(after, item.key_view()) == Some(item)
            &&& other != item.key_view() ==> record_of(after, other) == record_of(s, other)
        }),
{
    let id = item.key_view();
    lemma_first_index(keys_of(s), id);
    lemma_first_index_store(keys_of(s), id, other);
    lemma_first_index_store(keys_of(s), id, id);
    lemma_first_index(keys_of(s), other);
    match first_index(keys_of(s), id) {
        Some(i) => {
            assert(keys_of(s.update(i, item)) =~= keys_of(s).update(i, id));
        },
        None => {
            assert(keys_of(s.push(item)) =~= keys_of(s).push(id));
        },
    }
}

/// A developer account opened where none had its identifier is the one
/// found by that identifier.
pub proof fn law_registered_developer_found(devs: Seq<Developer>, d: Developer)
    requires
        record_of(devs, d.id@) is None,
    ensures
        record_of(devs.push(d), d.id@) == Some(d),
{
    assert(stored(devs, d) == devs.push(d));
    law_stored_record_found(devs, d, d.id@);
}

/// The records of `s` that `keep` holds of, in order.
pub open spec fn select(s: Seq<MarketplacePlugin>, keep: spec_fn(MarketplacePlugin) -> bool) -> Seq<MarketplacePlugin>
    decreases s.len(),
{
    if s.len() == 0 {
        Seq::empty()
    } else if keep(s.last()) {
        select(s.drop_last(), keep).push(s.last())
    } else {
        select(s.drop_last(), keep)
    }
}

/// `hay` contains `q`, both in lower case.
pub open spec fn text_has(hay: Seq<char>, q: Seq<char>) -> bool {
    find(lowercased(hay), lowercased(q)) is Some
}

/// A plugin matches a search text: the text is empty, or the plugin's name,
/// description or one of its tags contains it, in lower case.
pub open spec fn matches_query(p: MarketplacePlugin, q: Seq<char>) -> bool {
    q.len() == 0 || text_has(p.name@, q) || text_has(p.description@, q) || exists|i: int|
        0 <= i < p.tags@.len() && text_has(#[trigger] p.tags@[i]@, q)
}

/// A plugin passes the filters: it is in the category and runs on the
/// platform (or on all) asked for.
pub open spec fn passes_filters(p: MarketplacePlugin, f: SearchFilters) -> bool {
    &&& f.category matches Some(c) ==> p.categories@.contains(c)
    &&& f.platform matches Some(pl) ==> p.platforms@.contains(pl) || p.platforms@.contains(Platform::All)
}

/// A plugin is a search result: approved, matching the text and passing
/// the filters.
pub open spec fn search_hit(p: MarketplacePlugin, q: Seq<char>, f: SearchFilters) -> bool {
    p.status == PluginStatus::Approved && matches_query(p, q) && passes_filters(p, f)
}

/// A record is selected exactly when it is one of the records and `keep`
/// holds of it.
proof fn lemma_select_contains(s: Seq<MarketplacePlugin>, keep: spec_fn(MarketplacePlugin) -> bool, x: MarketplacePlugin)
    ensures
        select(s, keep).contains(x) <==> (s.contains(x) && keep(x)),
    decreases s.len(),
{
    if s.len() > 0 {
        let p = s.drop_last();
        lemma_select_contains(p, keep, x);
        if s.contains(x) && x != s.last() {
            let i = choose|i: int| 0 <= i < s.len() && s[i] == x;
            assert(p[i] == x);
        }
        if p.contains(x) {
            let i = choose|i: int| 0 <= i < p.len() && p[i] == x;
            assert(s[i] == x);
        }
        if keep(s.last()) {
            let t = select(p, keep);
            assert(select(s, keep) == t.push(s.last()));
            if t.contains(x) {
                let i = choose|i: int| 0 <= i < t.len() && t[i] == x;
                assert(t.push(s.last())[i] == x);
            }
            if t.push(s.last()).contains(x) && x != s.last() {
                let i = choose|i: int| 0 <= i < t.len() + 1 && t.push(s.last())[i] == x;
                assert(t[i] == x);
            }
            assert(t.push(s.last())[t.len() as int] == s.last());
        }
        assert(s[s.len() - 1] == s.last());
    }
}

/// A search lists every approved plugin in the category and on the
/// platform asked for (or on all platforms) whose name, description or one
/// of its tags contains the search text, in lower case; an empty text
/// matches every such plugin.
pub proof fn law_search_finds_every_match(s: Seq<MarketplacePlugin>, q: Seq<char>, f: SearchFilters, k: int)
    requires
        0 <= k < s.len(),
        s[k].status == PluginStatus::Approved,
        f.category matches Some(c) ==> s[k].categories@.contains(c),
        f.platform matches Some(pl) ==> s[k].platforms@.contains(pl) || s[k].platforms@.contains(Platform::All),
        q.len() == 0 || find(lowercased(s[k].name@), lowercased(q)) is Some || find(
            lowercased(s[k].description@),
            lowercased(q),
        ) is Some || exists|t: int|
            0 <= t < s[k].tags@.len() && find(lowercased((#[trigger] s[k].tags@[t])@), lowercased(q)) is Some,
    ensures
        select(s, |p: MarketplacePlugin| search_hit(p, q, f)).contains(s[k]),
{
    lemma_select_contains(s, |p: MarketplacePlugin| search_hit(p, q, f), s[k]);
    assert(s.contains(s[k]));
}

/// Every plugin a search lists is an approved plugin of the catalog, in
/// the category and on the platform asked for (or on all platforms), whose
/// name, description or one of its tags contains the search text, in
/// lower case, unless the text is empty.
pub proof fn law_search_lists_only_matches(s: Seq<MarketplacePlugin>, q: Seq<char>, f: SearchFilters, x: MarketplacePlugin)
    requires
        select(s, |p: MarketplacePlugin| search_hit(p, q, f)).contains(x),
    ensures
        s.contains(x),
        x.status == PluginStatus::Approved,
        f.category matches Some(c) ==> x.categories@.contains(c),
        f.platform matches Some(pl) ==> x.platforms@.contains(pl) || x.platforms@.contains(Platform::All),
        q.len() == 0 || find(lowercased(x.name@), lowercased(q)) is Some || find(
            lowercased(x.description@),
            lowercased(q),
        ) is Some || exists|t: int|
            0 <= t < x.tags@.len() && find(lowercased((#[trigger] x.tags@[t])@), lowercased(q)) is Some,
{
    lemma_select_contains(s, |p: MarketplacePlugin| search_hit(p, q, f), x);
}

/// Whether the lower-case form of `hay` contains `lower_q`.
fn has_lowercase(hay: &String, lower_q: &Vec<char>) -> (r: bool)
    ensures
        r == (find(lowercased(hay@), lower_q@) is Some),
{
    let lower = lowercase(hay.as_str());
    find_chars(&str_chars(lower.as_str()), lower_q).is_some()
}

/// Whether a list of categories holds `c`.
fn holds_category(v: &Vec<PluginCategory>, c: PluginCategory) -> (r: bool)
    ensures
        r == v@.contains(c),
{
    let mut i: usize = 0;
    while i < v.len()
        invariant
            i <= v@.len(),
            forall|j: int| 0 <= j < i ==> v@[j] != c,
        decreases v.len() - i,
    {
        if v[i] == c {
            assert(v@[i as int] == c);
            return true;
        }
        i = i + 1;
    }
    false
}

/// Whether a list of platforms holds `p`.
fn holds_platform(v: &Vec<Platform>, p: Platform) -> (r: bool)
    ensures
        r == v@.contains(p),
{
    let mut i: usize = 0;
    while i < v.len()
        invariant
            i <= v@.len(),
            forall|j: int| 0 <= j < i ==> v@[j] != p,
        decreases v.len() - i,
    {
        if v[i] == p {
            assert(v@[i as int] == p);
            return true;
        }
        i = i + 1;
    }
    false
}

/// Whether a plugin is a search result.
fn is_search_hit(p: &MarketplacePlugin, query: &str, lower_q: &Vec<char>, filters: SearchFilters) -> (r: bool)
    requires
        lower_q@ == lowercased(query@),
    ensures
        r == search_hit(*p, query@, filters),
{
    if p.status != PluginStatus::Approved {
        return false;
    }
    let mut text_ok = query.unicode_len() == 0 || has_lowercase(&p.name, lower_q) || has_lowercase(&p.description, lower_q);
    if !text_ok {
        let mut found = false;
        let mut i: usize = 0;
        while i < p.tags.len() && !found
            invariant
                i <= p.tags@.len(),
                lower_q@ == lowercased(query@),
                found <==> exists|j: int| 0 <= j < i && text_has(#[trigger] p.tags@[j]@, query@),
            decreases p.tags.len() - i,
        {
            if has_lowercase(&p.tags[i], lower_q) {
                assert(text_has(p.tags@[i as int]@, query@));
                found = true;
            }
            i = i + 1;
        }
        text_ok = found;
    }
    if !text_ok {
        return false;
    }
    let category_ok = match filters.category {
        Some(c) => holds_category(&p.categories, c),
        None => true,
    };
    let platform_ok = match filters.platform {
        Some(pl) => holds_platform(&p.platforms, pl) || holds_platform(&p.platforms, Platform::All),
        None => true,
    };
    category_ok && platform_ok
}

/// A list of records after storing `item`.
pub open spec fn stored<T: Keyed>(s: Seq<T>, item: T) -> Seq<T> {
    match first_index(keys_of(s), item.key_view()) {
        Some(i) => s.update(i, item),
        None => s.push(item),
    }
}

/// Some submission for the plugin is waiting for review.
pub open spec fn has_pending(s: Seq<PluginSubmission>, plugin_id: Seq<char>) -> bool {
    exists|i: int|
        0 <= i < s.len() && #[trigger] s[i].plugin_id@ == plugin_id && s[i].status == SubmissionStatus::Pending
}

/// The last ten of a list of ratings.
pub open spec fn recent_window(s: Seq<UserRating>) -> Seq<UserRating> {
    if s.len() > 10 {
        s.drop_first()
    } else {
        s
    }
}

/// How a platform is named in the download counts.
pub open spec fn platform_name(p: Platform) -> Seq<char> {
    match p {
        Platform::Windows => "Windows"@,
        Platform::MacOS => "MacOS"@,
        Platform::Linux => "Linux"@,
        Platform::All => "All"@,
    }
}

/// The name of a platform.
fn platform_text(p: Platform) -> (s: String)
    ensures
        s@ == platform_name(p),
{
    match p {
        Platform::Windows => owned("Windows"),
        Platform::MacOS => owned("MacOS"),
        Platform::Linux => owned("Linux"),
        Platform::All => owned("All"),
    }
}

/// A counter by name after one more.
pub open spec fn counted_once_more(before: Seq<(Seq<char>, u64)>, after: Seq<(Seq<char>, u64)>, name: Seq<char>) -> bool {
    &&& lookup(after, name) == Some(
        (match lookup(before, name) {
            Some(c) => c + 1,
            None => 1,
        }) as u64,
    )
    &&& forall|other: Seq<char>| other != name ==> lookup(after, other) == lookup(before, other)
}

/// Counts one more under `name`.
fn count_once_more(v: &mut Vec<(String, u64)>, name: String)
    requires
        lookup(named_view(old(v)@), name@) matches Some(c) ==> c < u64::MAX,
    ensures
        counted_once_more(named_view(old(v)@), named_view(final(v)@), name@),
{
    let current = match find_named(v, &name) {
        Some(c) => c,
        None => 0,
    };
    let ghost before = named_view(v@);
    let ghost key = name@;
    put_named(v, name, current + 1);
    proof {
        let w = without_name(before, key);
        assert(w.push((key, (current + 1) as u64)).drop_last() =~= w);
        assert forall|other: Seq<char>| other != key implies lookup(named_view(v@), other) == lookup(before, other) by {
            lemma_without_name(before, key, other);
        }
    }
}

/// `after` is the store `before` once the submission `submission_id` is
/// approved or rejected at the time `now`. The submission records the
/// decision, who made it, when, and the notes given. Its plugin records
/// the decision and the time, and on approval the publication time.
pub open spec fn review_outcome(
    before: PluginMarketplace,
    after: PluginMarketplace,
    submission_id: Seq<char>,
    reviewer: Seq<char>,
    notes: Option<String>,
    approve: bool,
    now: i64,
) -> bool {
    &&& after.settings() == before.settings()
    &&& after.rating_list() == before.rating_list()
    &&& after.download_list() == before.download_list()
    &&& after.developer_list() == before.developer_list()
    &&& match first_index(keys_of(before.submission_list()), submission_id) {
        None => after.submission_list() == before.submission_list() && after.catalog() == before.catalog(),
        Some(i) => {
            let sub = before.submission_list()[i];
            let n = after.submission_list()[i];
            &&& after.submission_list() == before.submission_list().update(i, n)
            &&& n == PluginSubmission {
                status: if approve {
                    SubmissionStatus::Approved
                } else {
                    SubmissionStatus::Rejected
                },
                reviewer_id: n.reviewer_id,
                reviewed_at: Some(now),
                review_notes: notes,
                ..sub
            }
            &&& opt_view_of(n.reviewer_id) == Some(reviewer)
            &&& match first_index(keys_of(before.catalog()), sub.plugin_id@) {
                None => after.catalog() == before.catalog(),
                Some(j) => {
                    let p = before.catalog()[j];
                    after.catalog() == before.catalog().update(
                        j,
                        if approve {
                            MarketplacePlugin {
                                status: PluginStatus::Approved,
                                published_at: Some(now),
                                updated_at: now,
                                ..p
                            }
                        } else {
                            MarketplacePlugin { status: PluginStatus::Rejected, updated_at: now, ..p }
                        },
                    )
                },
            }
        },
    }
}

/// An optional string by value.
pub open spec fn opt_view_of(o: Option<String>) -> Option<Seq<char>> {
    match o {
        Some(s) => Some(s@),
        None => None,
    }
}

/// The counts of the rating summary of a plugin with no ratings yet.
pub open spec fn no_stars() -> Seq<u64> {
    seq![0u64, 0u64, 0u64, 0u64, 0u64]
}

/// The rating summary of a plugin can take one more rating.
pub open spec fn rating_room(s: Seq<PluginRatingSummary>, plugin_id: Seq<char>) -> bool {
    record_of(s, plugin_id) matches Some(r) ==> {
        &&& r.total_ratings < u64::MAX
        &&& r.total_score <= u64::MAX - 5
        &&& forall|k: int| 0 <= k < 5 ==> #[trigger] r.rating_distribution@[k] < u64::MAX
    }
}

/// `n` is the rating summary `prev` (none for a plugin not rated yet)
/// after the rating `rating`.
pub open spec fn rated_once_more(prev: Option<PluginRatingSummary>, n: PluginRatingSummary, rating: UserRating) -> bool {
    let k = rating.rating - 1;
    let (total, score, dist, recent) = match prev {
        Some(p) => (p.total_ratings as int, p.total_score as int, p.rating_distribution@, p.recent_ratings@),
        None => (0int, 0int, no_stars(), Seq::<UserRating>::empty()),
    };
    &&& n.plugin_id@ == rating.plugin_id@
    &&& n.total_ratings == total + 1
    &&& n.total_score == score + rating.rating
    &&& n.rating_distribution@ == dist.update(k, (dist[k] + 1) as u64)
    &&& n.recent_ratings@ == recent_window(recent.push(rating))
}

/// The download counts of a plugin, and the plugin's own, can take one
/// more download.
pub open spec fn download_room(m: PluginMarketplace, plugin_id: Seq<char>, platform: Platform, version: Seq<char>) -> bool {
    &&& record_of(m.download_list(), plugin_id) matches Some(d) ==> {
        &&& d.total < u64::MAX
        &&& lookup(named_view(d.by_platform@), platform_name(platform)) matches Some(c) ==> c < u64::MAX
        &&& lookup(named_view(d.by_version@), version) matches Some(c) ==> c < u64::MAX
    }
    &&& record_of(m.catalog(), plugin_id) matches Some(p) ==> {
        &&& p.stats.total_downloads < u64::MAX
        &&& p.stats.daily_downloads < u64::MAX
        &&& p.stats.weekly_downloads < u64::MAX
        &&& p.stats.monthly_downloads < u64::MAX
    }
}

/// `n` is the download counts `prev` (none for a plugin not downloaded
/// yet) after one more download on `platform` of `version`.
pub open spec fn downloaded_once_more(prev: Option<DownloadStats>, n: DownloadStats, plugin_id: Seq<char>, platform: Platform, version: Seq<char>) -> bool {
    let (total, daily, by_platform, by_version) = match prev {
        Some(p) => (p.total as int, p.daily@, named_view(p.by_platform@), named_view(p.by_version@)),
        None => (0int, Seq::<DailyDownload>::empty(), Seq::<(Seq<char>, u64)>::empty(), Seq::<(Seq<char>, u64)>::empty()),
    };
    &&& n.plugin_id@ == plugin_id
    &&& n.total == total + 1
    &&& n.daily@ == daily
    &&& counted_once_more(by_platform, named_view(n.by_platform@), platform_name(platform))
    &&& counted_once_more(by_version, named_view(n.by_version@), version)
}

/// The plugin store.
pub struct PluginMarketplace {
    config: MarketplaceConfig,
    plugins: Vec<MarketplacePlugin>,
    submissions: Vec<PluginSubmission>,
    ratings: Vec<PluginRatingSummary>,
    downloads: Vec<DownloadStats>,
    developers: Vec<Developer>,
}

impl PluginMarketplace {
    /// The store's settings.
    pub closed spec fn settings(&self) -> MarketplaceConfig {
        self.config
    }

    /// The plugins of the catalog.
    pub closed spec fn catalog(&self) -> Seq<MarketplacePlugin> {
        self.plugins@
    }

    /// The submissions.
    pub closed spec fn submission_list(&self) -> Seq<PluginSubmission> {
        self.submissions@
    }

    /// The rating summaries.
    pub closed spec fn rating_list(&self) -> Seq<PluginRatingSummary> {
        self.ratings@
    }

    /// The download counts.
    pub closed spec fn download_list(&self) -> Seq<DownloadStats> {
        self.downloads@
    }

    /// The developer accounts.
    pub closed spec fn developer_list(&self) -> Seq<Developer> {
        self.developers@
    }

    /// An empty store with the given settings.
    pub fn new(config: MarketplaceConfig) -> (m: PluginMarketplace)
        ensures
            m.settings() == config,
            m.catalog().len() == 0,
            m.submission_list().len() == 0,
            m.rating_list().len() == 0,
            m.download_list().len() == 0,
            m.developer_list().len() == 0,
    {
        PluginMarketplace {
            config,
            plugins: Vec::new(),
            submissions: Vec::new(),
            ratings: Vec::new(),
            downloads: Vec::new(),
            developers: Vec::new(),
        }
    }

    /// An empty store with the default settings.
    pub fn default_config() -> (m: PluginMarketplace)
        ensures
            m.settings().enabled,
            m.settings().require_review,
            !m.settings().auto_approve_trusted,
            m.catalog().len() == 0,
            m.submission_list().len() == 0,
            m.rating_list().len() == 0,
            m.download_list().len() == 0,
            m.developer_list().len() == 0,
    {
        PluginMarketplace::new(MarketplaceConfig::default())
    }

    /// The store's settings.
    pub fn config(&self) -> (c: &MarketplaceConfig)
        ensures
            *c == self.settings(),
    {
        &self.config
    }

    /// Puts a plugin in the catalog, in place of the one with its
    /// identifier.
    pub fn add_plugin(&mut self, plugin: MarketplacePlugin)
        ensures
            final(self).catalog() == match first_index(keys_of(old(self).catalog()), plugin.id@) {
                Some(i) => old(self).catalog().update(i, plugin),
                None => old(self).catalog().push(plugin),
            },
            final(self).settings() == old(self).settings(),
            final(self).submission_list() == old(self).submission_list(),
            final(self).rating_list() == old(self).rating_list(),
            final(self).download_list() == old(self).download_list(),
            final(self).developer_list() == old(self).developer_list(),
    {
        store(&mut self.plugins, plugin);
    }

    /// The plugin with the given identifier.
    pub fn get_plugin(&self, id: &str) -> (r: Option<&MarketplacePlugin>)
        ensures
            match r {
                Some(p) => record_of(self.catalog(), id@) == Some(*p),
                None => record_of(self.catalog(), id@) is None,
            },
    {
        match position(&self.plugins, id) {
            Some(i) => Some(&self.plugins[i]),
            None => None,
        }
    }

    /// The approved plugins that match a search text and the filters, in
    /// catalog order.
    pub fn search_plugins(&self, query: &str, filters: SearchFilters) -> (r: Vec<&MarketplacePlugin>)
        ensures
            r@.len() == select(self.catalog(), |p: MarketplacePlugin| search_hit(p, query@, filters)).len(),
            forall|i: int|
                0 <= i < r@.len() ==> *#[trigger] r@[i] == select(
                    self.catalog(),
                    |p: MarketplacePlugin| search_hit(p, query@, filters),
                )[i],
    {
        let lower = lowercase(query);
        let lower_q = str_chars(lower.as_str());
        let ghost keep = |p: MarketplacePlugin| search_hit(p, query@, filters);
        let mut out: Vec<&MarketplacePlugin> = Vec::new();
        let mut i: usize = 0;
        while i < self.plugins.len()
            invariant
                i <= self.plugins@.len(),
                lower_q@ == lowercased(query@),
                keep == (|p: MarketplacePlugin| search_hit(p, query@, filters)),
                out@.len() == select(self.plugins@.take(i as int), keep).len(),
                forall|j: int| 0 <= j < out@.len() ==> *#[trigger] out@[j] == select(self.plugins@.take(i as int), keep)[j],
            decreases self.plugins.len() - i,
        {
            assert(self.plugins@.take(i + 1).drop_last() =~= self.plugins@.take(i as int));
            assert(self.plugins@.take(i + 1).last() == self.plugins@[i as int]);
            if is_search_hit(&self.plugins[i], query, &lower_q, filters) {
                out.push(&self.plugins[i]);
            }
            i = i + 1;
        }
        assert(self.plugins@.take(self.plugins@.len() as int) =~= self.plugins@);
        out
    }

    /// The approved plugins marked as featured, in catalog order.
    pub fn get_featured_plugins(&self) -> (r: Vec<&MarketplacePlugin>)
        ensures
            r@.len() == select(self.catalog(), |p: MarketplacePlugin| p.featured && p.status == PluginStatus::Approved).len(),
            forall|i: int|
                0 <= i < r@.len() ==> *#[trigger] r@[i] == select(
                    self.catalog(),
                    |p: MarketplacePlugin| p.featured && p.status == PluginStatus::Approved,
                )[i],
    {
        let ghost keep = |p: MarketplacePlugin| p.featured && p.status == PluginStatus::Approved;
        let mut out: Vec<&MarketplacePlugin> = Vec::new();
        let mut i: usize = 0;
        while i < self.plugins.len()
            invariant
                i <= self.plugins@.len(),
                keep == (|p: MarketplacePlugin| p.featured && p.status == PluginStatus::Approved),
                out@.len() == select(self.plugins@.take(i as int), keep).len(),
                forall|j: int| 0 <= j < out@.len() ==> *#[trigger] out@[j] == select(self.plugins@.take(i as int), keep)[j],
            decreases self.plugins.len() - i,
        {
            assert(self.plugins@.take(i + 1).drop_last() =~= self.plugins@.take(i as int));
            assert(self.plugins@.take(i + 1).last() == self.plugins@[i as int]);
            let p = &self.plugins[i];
            if p.featured && p.status == PluginStatus::Approved {
                out.push(p);
            }
            i = i + 1;
        }
        assert(self.plugins@.take(self.plugins@.len() as int) =~= self.plugins@);
        out
    }

    /// The approved plugins of a category, in catalog order.
    pub fn get_plugins_by_category(&self, category: &PluginCategory) -> (r: Vec<&MarketplacePlugin>)
        ensures
            r@.len() == select(
                self.catalog(),
                |p: MarketplacePlugin| p.categories@.contains(*category) && p.status == PluginStatus::Approved,
            ).len(),
            forall|i: int|
                0 <= i < r@.len() ==> *#[trigger] r@[i] == select(
                    self.catalog(),
                    |p: MarketplacePlugin| p.categories@.contains(*category) && p.status == PluginStatus::Approved,
                )[i],
    {
        let ghost keep = |p: MarketplacePlugin| p.categories@.contains(*category) && p.status == PluginStatus::Approved;
        let mut out: Vec<&MarketplacePlugin> = Vec::new();
        let mut i: usize = 0;
        while i < self.plugins.len()
            invariant
                i <= self.plugins@.len(),
                keep == (|p: MarketplacePlugin| p.categories@.contains(*category) && p.status == PluginStatus::Approved),
                out@.len() == select(self.plugins@.take(i as int), keep).len(),
                forall|j: int| 0 <= j < out@.len() ==> *#[trigger] out@[j] == select(self.plugins@.take(i as int), keep)[j],
            decreases self.plugins.len() - i,
        {
            assert(self.plugins@.take(i + 1).drop_last() =~= self.plugins@.take(i as int));
            assert(self.plugins@.take(i + 1).last() == self.plugins@[i as int]);
            let p = &self.plugins[i];
            if holds_category(&p.categories, *category) && p.status == PluginStatus::Approved {
                out.push(p);
            }
            i = i + 1;
        }
        assert(self.plugins@.take(self.plugins@.len() as int) =~= self.plugins@);
        out
    }

    /// The approved plugins of a developer, in catalog order.
    pub fn get_plugins_by_developer(&self, developer_id: &str) -> (r: Vec<&MarketplacePlugin>)
        ensures
            r@.len() == select(
                self.catalog(),
                |p: MarketplacePlugin| p.author_id@ == developer_id@ && p.status == PluginStatus::Approved,
            ).len(),
            forall|i: int|
                0 <= i < r@.len() ==> *#[trigger] r@[i] == select(
                    self.catalog(),
                    |p: MarketplacePlugin| p.author_id@ == developer_id@ && p.status == PluginStatus::Approved,
                )[i],
    {
        let ghost keep = |p: MarketplacePlugin| p.author_id@ == developer_id@ && p.status == PluginStatus::Approved;
        let mut out: Vec<&MarketplacePlugin> = Vec::new();
        let mut i: usize = 0;
        while i < self.plugins.len()
            invariant
                i <= self.plugins@.len(),
                keep == (|p: MarketplacePlugin| p.author_id@ == developer_id@ && p.status == PluginStatus::Approved),
                out@.len() == select(self.plugins@.take(i as int), keep).len(),
                forall|j: int| 0 <= j < out@.len() ==> *#[trigger] out@[j] == select(self.plugins@.take(i as int), keep)[j],
            decreases self.plugins.len() - i,
        {
            assert(self.plugins@.take(i + 1).drop_last() =~= self.plugins@.take(i as int));
            assert(self.plugins@.take(i + 1).last() == self.plugins@[i as int]);
            let p = &self.plugins[i];
            if string_equals_str(&p.author_id, developer_id) && p.status == PluginStatus::Approved {
                out.push(p);
            }
            i = i + 1;
        }
        assert(self.plugins@.take(self.plugins@.len() as int) =~= self.plugins@);
        out
    }

    /// Takes a submission: refused while the store is disabled or while
    /// another submission for the same plugin waits for review; otherwise
    /// stored in place of the one with its identifier.
    pub fn submit_plugin(&mut self, submission: PluginSubmission) -> (r: Result<(), MarketError>)
        ensures
            !old(self).settings().enabled ==> r == Err::<(), MarketError>(MarketError::Disabled),
            old(self).settings().enabled && has_pending(old(self).submission_list(), submission.plugin_id@) ==> r
                == Err::<(), MarketError>(MarketError::PendingSubmissionExists),
            r is Ok <==> old(self).settings().enabled && !has_pending(old(self).submission_list(), submission.plugin_id@),
            r is Ok ==> final(self).submission_list() == stored(old(self).submission_list(), submission),
            r is Err ==> final(self).submission_list() == old(self).submission_list(),
            final(self).settings() == old(self).settings(),
            final(self).catalog() == old(self).catalog(),
            final(self).rating_list() == old(self).rating_list(),
            final(self).download_list() == old(self).download_list(),
            final(self).developer_list() == old(self).developer_list(),
    {
        if !self.config.enabled {
            return Err(MarketError::Disabled);
        }
        let mut i: usize = 0;
        while i < self.submissions.len()
            invariant
                i <= self.submissions@.len(),
                self.config.enabled,
                forall|j: int|
                    0 <= j < i ==> !(#[trigger] self.submissions@[j].plugin_id@ == submission.plugin_id@
                        && self.submissions@[j].status == SubmissionStatus::Pending),
            decreases self.submissions.len() - i,
        {
            if strings_equal(&self.submissions[i].plugin_id, &submission.plugin_id)
                && self.submissions[i].status == SubmissionStatus::Pending {
                return Err(MarketError::PendingSubmissionExists);
            }
            i = i + 1;
        }
        store(&mut self.submissions, submission);
        Ok(())
    }

    /// Approves a submission at the time `now`; nothing changes when there
    /// is no such submission.
    pub fn approve_submission_at(&mut self, submission_id: &str, reviewer_id: &str, notes: Option<String>, now: i64) -> (r: Result<(), MarketError>)
        ensures
            r is Ok,
            review_outcome(*old(self), *final(self), submission_id@, reviewer_id@, notes, true, now),
    {
        self.review_submission(submission_id, reviewer_id, notes, true, now);
        Ok(())
    }

    /// Approves a submission by the system clock.
    pub fn approve_submission(&mut self, submission_id: &str, reviewer_id: &str, notes: Option<String>) -> (r: Result<(), MarketError>)
        ensures
            r is Ok,
            exists|now: i64| review_outcome(*old(self), *final(self), submission_id@, reviewer_id@, notes, true, now),
    {
        let now = utc_now_seconds();
        self.review_submission(submission_id, reviewer_id, notes, true, now);
        Ok(())
    }

    /// Rejects a submission at the time `now`, with the reason as the
    /// review notes; nothing changes when there is no such submission.
    pub fn reject_submission_at(&mut self, submission_id: &str, reviewer_id: &str, reason: String, now: i64) -> (r: Result<(), MarketError>)
        ensures
            r is Ok,
            review_outcome(*old(self), *final(self), submission_id@, reviewer_id@, Some(reason), false, now),
    {
        self.review_submission(submission_id, reviewer_id, Some(reason), false, now);
        Ok(())
    }

    /// Rejects a submission by the system clock.
    pub fn reject_submission(&mut self, submission_id: &str, reviewer_id: &str, reason: String) -> (r: Result<(), MarketError>)
        ensures
            r is Ok,
            exists|now: i64| review_outcome(*old(self), *final(self), submission_id@, reviewer_id@, Some(reason), false, now),
    {
        let now = utc_now_seconds();
        self.review_submission(submission_id, reviewer_id, Some(reason), false, now);
        Ok(())
    }

    /// Records the outcome of a review.
    fn review_submission(&mut self, submission_id: &str, reviewer_id: &str, notes: Option<String>, approve: bool, now: i64)
        ensures
            review_outcome(*old(self), *final(self), submission_id@, reviewer_id@, notes, approve, now),
    {
        let i = match position(&self.submissions, submission_id) {
            None => {
                return;
            },
            Some(i) => i,
        };
        let ghost before = self.submissions@;
        let mut sub = self.submissions.remove(i);
        sub.status = if approve {
            SubmissionStatus::Approved
        } else {
            SubmissionStatus::Rejected
        };
        sub.reviewer_id = Some(owned(reviewer_id));
        sub.reviewed_at = Some(now);
        sub.review_notes = notes;
        let plugin_id = sub.plugin_id.clone();
        self.submissions.insert(i, sub);
        assert(self.submissions@ =~= before.update(i as int, sub));
        match position(&self.plugins, plugin_id.as_str()) {
            None => {},
            Some(j) => {
                let ghost plugins_before = self.plugins@;
                let mut p = self.plugins.remove(j);
                if approve {
                    p.status = PluginStatus::Approved;
                    p.published_at = Some(now);
                } else {
                    p.status = PluginStatus::Rejected;
                }
                p.updated_at = now;
                self.plugins.insert(j, p);
                assert(self.plugins@ =~= plugins_before.update(j as int, p));
            },
        }
    }

    /// Takes a user's rating: refused unless it gives one to five stars;
    /// otherwise the plugin's rating summary counts it, keeps it among the
    /// ten latest, and the plugin's figures take the summary's.
    pub fn submit_rating(&mut self, rating: UserRating) -> (r: Result<(), MarketError>)
        requires
            rating_room(old(self).rating_list(), rating.plugin_id@),
        ensures
            r is Err <==> rating.rating < 1 || rating.rating > 5,
            r is Err ==> r == Err::<(), MarketError>(MarketError::InvalidRating) && *final(self) == *old(self),
            r is Ok ==> exists|n: PluginRatingSummary|
                #[trigger] rated_once_more(record_of(old(self).rating_list(), rating.plugin_id@), n, rating)
                    && final(self).rating_list() == stored(old(self).rating_list(), n) && final(self).catalog() == match first_index(
                    keys_of(old(self).catalog()),
                    rating.plugin_id@,
                ) {
                    Some(j) => old(self).catalog().update(
                        j,
                        MarketplacePlugin {
                            stats: PluginStats {
                                rating_total: n.total_score,
                                rating_count: n.total_ratings,
                                ..old(self).catalog()[j].stats
                            },
                            ..old(self).catalog()[j]
                        },
                    ),
                    None => old(self).catalog(),
                },
            r is Ok ==> final(self).settings() == old(self).settings() && final(self).submission_list() == old(
                self,
            ).submission_list() && final(self).download_list() == old(self).download_list()
                && final(self).developer_list() == old(self).developer_list(),
    {
        if rating.rating < 1 || rating.rating > 5 {
            return Err(MarketError::InvalidRating);
        }
        let pid = rating.plugin_id.clone();
        let star = rating.rating;
        let ghost prev = record_of(self.ratings@, pid@);
        let ghost ratings_before = self.ratings@;
        let found = position(&self.ratings, pid.as_str());
        proof {
            lemma_first_index(keys_of(self.ratings@), pid@);
        }
        let mut summary = match found {
            Some(i) => self.ratings.remove(i),
            None => PluginRatingSummary {
                plugin_id: pid.clone(),
                total_ratings: 0,
                total_score: 0,
                rating_distribution: [0, 0, 0, 0, 0],
                recent_ratings: Vec::new(),
            },
        };
        proof {
            if found is None {
                assert(summary.rating_distribution@ =~= no_stars());
                assert(summary.recent_ratings@ =~= Seq::<UserRating>::empty());
            }
        }
        summary.total_ratings = summary.total_ratings + 1;
        summary.total_score = summary.total_score + star as u64;
        let k: usize = (star - 1) as usize;
        let c = summary.rating_distribution[k];
        summary.rating_distribution.set(k, c + 1);
        let ghost recent_before = summary.recent_ratings@;
        summary.recent_ratings.push(rating);
        if summary.recent_ratings.len() > 10 {
            summary.recent_ratings.remove(0);
            assert(summary.recent_ratings@ =~= recent_before.push(rating).drop_first());
        }
        let total = summary.total_ratings;
        let score = summary.total_score;
        assert(rated_once_more(prev, summary, rating));
        match found {
            Some(i) => {
                self.ratings.insert(i, summary);
                assert(self.ratings@ =~= ratings_before.update(i as int, summary));
            },
            None => {
                self.ratings.push(summary);
            },
        }
        let ghost plugins_before = self.plugins@;
        match position(&self.plugins, pid.as_str()) {
            None => {},
            Some(j) => {
                let mut p = self.plugins.remove(j);
                p.stats.rating_total = score;
                p.stats.rating_count = total;
                self.plugins.insert(j, p);
                assert(self.plugins@ =~= plugins_before.update(j as int, p));
            },
        }
        Ok(())
    }

    /// The rating summary of a plugin.
    pub fn get_rating_summary(&self, plugin_id: &str) -> (r: Option<&PluginRatingSummary>)
        ensures
            match r {
                Some(s) => record_of(self.rating_list(), plugin_id@) == Some(*s),
                None => record_of(self.rating_list(), plugin_id@) is None,
            },
    {
        match position(&self.ratings, plugin_id) {
            Some(i) => Some(&self.ratings[i]),
            None => None,
        }
    }

    /// Counts a download of a plugin on a platform, in all, by platform and
    /// by version, and in the plugin's own figures.
    pub fn record_download(&mut self, plugin_id: &str, platform: Platform, version: &str) -> (r: Result<(), MarketError>)
        requires
            download_room(*old(self), plugin_id@, platform, version@),
        ensures
            r is Ok,
            exists|n: DownloadStats|
                #[trigger] downloaded_once_more(record_of(old(self).download_list(), plugin_id@), n, plugin_id@, platform, version@)
                    && final(self).download_list() == stored(old(self).download_list(), n),
            final(self).catalog() == match first_index(keys_of(old(self).catalog()), plugin_id@) {
                Some(j) => old(self).catalog().update(
                    j,
                    MarketplacePlugin {
                        stats: PluginStats {
                            total_downloads: (old(self).catalog()[j].stats.total_downloads + 1) as u64,
                            daily_downloads: (old(self).catalog()[j].stats.daily_downloads + 1) as u64,
                            weekly_downloads: (old(self).catalog()[j].stats.weekly_downloads + 1) as u64,
                            monthly_downloads: (old(self).catalog()[j].stats.monthly_downloads + 1) as u64,
                            ..old(self).catalog()[j].stats
                        },
                        ..old(self).catalog()[j]
                    },
                ),
                None => old(self).catalog(),
            },
            final(self).settings() == old(self).settings(),
            final(self).submission_list() == old(self).submission_list(),
            final(self).rating_list() == old(self).rating_list(),
            final(self).developer_list() == old(self).developer_list(),
    {
        let ghost prev = record_of(self.downloads@, plugin_id@);
        let ghost downloads_before = self.downloads@;
        let found = position(&self.downloads, plugin_id);
        proof {
            lemma_first_index(keys_of(self.downloads@), plugin_id@);
        }
        let mut stats = match found {
            Some(i) => self.downloads.remove(i),
            None => DownloadStats {
                plugin_id: owned(plugin_id),
                total: 0,
                daily: Vec::new(),
                by_platform: Vec::new(),
                by_version: Vec::new(),
            },
        };
        proof {
            if found is None {
                assert(stats.daily@ =~= Seq::<DailyDownload>::empty());
                assert(named_view(stats.by_platform@) =~= Seq::<(Seq<char>, u64)>::empty());
                assert(named_view(stats.by_version@) =~= Seq::<(Seq<char>, u64)>::empty());
            }
        }
        stats.total = stats.total + 1;
        count_once_more(&mut stats.by_platform, platform_text(platform));
        count_once_more(&mut stats.by_version, owned(version));
        assert(downloaded_once_more(prev, stats, plugin_id@, platform, version@));
        match found {
            Some(i) => {
                self.downloads.insert(i, stats);
                assert(self.downloads@ =~= downloads_before.update(i as int, stats));
            },
            None => {
                self.downloads.push(stats);
            },
        }
        let ghost plugins_before = self.plugins@;
        match position(&self.plugins, plugin_id) {
            None => {},
            Some(j) => {
                let mut p = self.plugins.remove(j);
                p.stats.total_downloads = p.stats.total_downloads + 1;
                p.stats.daily_downloads = p.stats.daily_downloads + 1;
                p.stats.weekly_downloads = p.stats.weekly_downloads + 1;
                p.stats.monthly_downloads = p.stats.monthly_downloads + 1;
                self.plugins.insert(j, p);
                assert(self.plugins@ =~= plugins_before.update(j as int, p));
            },
        }
        Ok(())
    }

    /// The download counts of a plugin.
    pub fn get_download_stats(&self, plugin_id: &str) -> (r: Option<&DownloadStats>)
        ensures
            match r {
                Some(s) => record_of(self.download_list(), plugin_id@) == Some(*s),
                None => record_of(self.download_list(), plugin_id@) is None,
            },
    {
        match position(&self.downloads, plugin_id) {
            Some(i) => Some(&self.downloads[i]),
            None => None,
        }
    }

    /// Opens a developer account; refused when one with the identifier
    /// exists.
    pub fn register_developer(&mut self, developer: Developer) -> (r: Result<(), MarketError>)
        ensures
            r is Err <==> record_of(old(self).developer_list(), developer.id@) is Some,
            r is Err ==> r == Err::<(), MarketError>(MarketError::DeveloperExists) && final(self).developer_list()
                == old(self).developer_list(),
            r is Ok ==> final(self).developer_list() == old(self).developer_list().push(developer),
            final(self).settings() == old(self).settings(),
            final(self).catalog() == old(self).catalog(),
            final(self).submission_list() == old(self).submission_list(),
            final(self).rating_list() == old(self).rating_list(),
            final(self).download_list() == old(self).download_list(),
    {
        if position(&self.developers, developer.id.as_str()).is_some() {
            return Err(MarketError::DeveloperExists);
        }
        self.developers.push(developer);
        Ok(())
    }

    /// The developer account with the given identifier.
    pub fn get_developer(&self, id: &str) -> (r: Option<&Developer>)
        ensures
            match r {
                Some(d) => record_of(self.developer_list(), id@) == Some(*d),
                None => record_of(self.developer_list(), id@) is None,
            },
    {
        match position(&self.developers, id) {
            Some(i) => Some(&self.developers[i]),
            None => None,
        }
    }

    /// Where an approved plugin is downloaded from.
    pub fn get_download_url(&self, plugin_id: &str, version: Option<&str>) -> (r: Result<String, MarketError>)
        ensures
            match record_of(self.catalog(), plugin_id@) {
                None => r == Err::<String, MarketError>(MarketError::PluginNotFound),
                Some(p) => if p.status != PluginStatus::Approved {
                    r == Err::<String, MarketError>(MarketError::PluginNotApproved)
                } else {
                    r matches Ok(u) && u@ == p.download_url@
                },
            },
    {
        match position(&self.plugins, plugin_id) {
            None => Err(MarketError::PluginNotFound),
            Some(i) => {
                let p = &self.plugins[i];
                if p.status != PluginStatus::Approved {
                    Err(MarketError::PluginNotApproved)
                } else {
                    Ok(p.download_url.clone())
                }
            },
        }
    }

    /// Whether a plugin's checksum is the one expected.
    pub fn verify_checksum(&self, plugin_id: &str, expected_checksum: &str) -> (r: Result<bool, MarketError>)
        ensures
            match record_of(self.catalog(), plugin_id@) {
                None => r == Err::<bool, MarketError>(MarketError::PluginNotFound),
                Some(p) => r == Ok::<bool, MarketError>(p.checksum@ == expected_checksum@),
            },
    {
        match position(&self.plugins, plugin_id) {
            None => Err(MarketError::PluginNotFound),
            Some(i) => Ok(string_equals_str(&self.plugins[i].checksum, expected_checksum)),
        }
    }
}

} // verus!
