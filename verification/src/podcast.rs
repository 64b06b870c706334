//! Podcast settings, the values iTunes and RSS feeds describe, the
//! podcast categories offered, and the reading of episode durations.

use vstd::prelude::*;

use crate::text::{owned, parse_u32, parse_u32_spec, split_char, split_chars, str_chars};

verus! {

/// Podcast service configuration.
#[derive(Debug, Clone)]
pub struct PodcastConfig {
    pub user_agent: String,
    pub timeout_seconds: u64,
    pub max_episodes_per_feed: u32,
}

impl Default for PodcastConfig {
    fn default() -> (c: PodcastConfig)
        ensures
            c.user_agent@ == "VantisMediaPlayer/1.0"@,
            c.timeout_seconds == 30,
            c.max_episodes_per_feed == 100,
    {
        PodcastConfig { user_agent: owned("VantisMediaPlayer/1.0"), timeout_seconds: 30, max_episodes_per_feed: 100 }
    }
}

/// iTunes podcast search result
#[derive(Debug, Clone)]
pub struct ITunesPodcast {
    pub collection_id: u64,
    pub collection_name: String,
    pub artist_name: String,
    pub feed_url: Option<String>,
    pub artwork_url_30: Option<String>,
    pub artwork_url_60: Option<String>,
    pub artwork_url_100: Option<String>,
    pub artwork_url_600: Option<String>,
    pub primary_genre_name: Option<String>,
    pub track_count: Option<u32>,
}

/// RSS feed channel
#[derive(Debug, Clone)]
pub struct RSSChannel {
    pub title: String,
    pub link: Option<String>,
    pub description: Option<String>,
    pub language: Option<String>,
    pub image_url: Option<String>,
    pub categories: Vec<String>,
    pub explicit: Option<bool>,
    pub author: Option<String>,
    pub episodes: Vec<RSSItem>,
}

/// RSS feed item (episode)
#[derive(Debug, Clone)]
pub struct RSSItem {
    pub title: Option<String>,
    pub link: Option<String>,
    pub description: Option<String>,
    pub author: Option<String>,
    pub enclosure_url: Option<String>,
    pub enclosure_length: Option<u64>,
    pub enclosure_type: Option<String>,
    pub guid: Option<String>,
    pub pub_date: Option<String>,
    pub duration: Option<String>,
    pub image_url: Option<String>,
    pub episode: Option<u32>,
    pub season: Option<u32>,
}


/// A podcast category with its subcategories.
#[derive(Debug)]
pub struct PodcastCategory {
    pub id: u64,
    pub name: String,
    pub subcategories: Vec<PodcastCategory>,
}

/// A category by its values: identifier, name, and its subcategories'
/// identifiers and names.
pub open spec fn category_view(c: PodcastCategory) -> (u64, Seq<char>, Seq<(u64, Seq<char>)>) {
    (c.id, c.name@, c.subcategories@.map_values(|s: PodcastCategory| (s.id, s.name@)))
}

/// The categories offered, with their subcategories.
pub open spec fn podcast_category_tree() -> Seq<(u64, Seq<char>, Seq<(u64, Seq<char>)>)> {
    seq![
        (1301u64, "Arts"@, seq![(1321u64, "Books"@), (1324u64, "Design"@), (1330u64, "Food"@)]),
        (1321u64, "Business"@, seq![(1341u64, "Careers"@), (1344u64, "Entrepreneurship"@), (1347u64, "Investing"@)]),
        (1303u64, "Comedy"@, Seq::empty()),
        (1304u64, "Education"@, seq![(1364u64, "How To"@), (1367u64, "Language Learning"@)]),
        (1305u64, "Health & Fitness"@, seq![(1384u64, "Fitness"@), (1390u64, "Mental Health"@)]),
        (1307u64, "Music"@, Seq::empty()),
        (1309u64, "News"@, seq![(1414u64, "Daily News"@), (1423u64, "Politics"@)]),
        (1311u64, "Science"@, Seq::empty()),
        (1313u64, "Society & Culture"@, Seq::empty()),
        (1314u64, "Sports"@, Seq::empty()),
        (1315u64, "Technology"@, Seq::empty()),
        (1316u64, "True Crime"@, Seq::empty()),
    ]
}

/// The tree has two levels: no subcategory has subcategories of its own.
pub open spec fn subcategories_are_leaves(r: Seq<PodcastCategory>) -> bool {
    forall|i: int, j: int|
        0 <= i < r.len() && 0 <= j < r[i].subcategories@.len() ==> (
        #[trigger] r[i].subcategories@[j]).subcategories@.len() == 0
}

/// A category without subcategories.
fn leaf(id: u64, name: &str) -> (c: PodcastCategory)
    ensures
        c.id == id,
        c.name@ == name@,
        c.subcategories@.len() == 0,
{
    PodcastCategory { id, name: owned(name), subcategories: Vec::new() }
}

/// A category with the given subcategories.
fn with_subcategories(id: u64, name: &str, subs: Vec<PodcastCategory>) -> (c: PodcastCategory)
    ensures
        c.id == id,
        c.name@ == name@,
        c.subcategories@ == subs@,
{
    PodcastCategory { id, name: owned(name), subcategories: subs }
}

/// The podcast categories offered, with their subcategories.
pub fn podcast_categories() -> (r: Vec<PodcastCategory>)
    ensures
        r@.map_values(|c: PodcastCategory| category_view(c)) == podcast_category_tree(),
        subcategories_are_leaves(r@),
{
    let mut arts: Vec<PodcastCategory> = Vec::new();
    arts.push(leaf(1321, "Books"));
    arts.push(leaf(1324, "Design"));
    arts.push(leaf(1330, "Food"));
    let mut business: Vec<PodcastCategory> = Vec::new();
    business.push(leaf(1341, "Careers"));
    business.push(leaf(1344, "Entrepreneurship"));
    business.push(leaf(1347, "Investing"));
    let mut education: Vec<PodcastCategory> = Vec::new();
    education.push(leaf(1364, "How To"));
    education.push(leaf(1367, "Language Learning"));
    let mut health: Vec<PodcastCategory> = Vec::new();
    health.push(leaf(1384, "Fitness"));
    health.push(leaf(1390, "Mental Health"));
    let mut news: Vec<PodcastCategory> = Vec::new();
    news.push(leaf(1414, "Daily News"));
    news.push(leaf(1423, "Politics"));
    proof {
        assert(arts@.map_values(|s: PodcastCategory| (s.id, s.name@))
            =~= seq![(1321u64, "Books"@), (1324u64, "Design"@), (1330u64, "Food"@)]);
        assert(business@.map_values(|s: PodcastCategory| (s.id, s.name@))
            =~= seq![(1341u64, "Careers"@), (1344u64, "Entrepreneurship"@), (1347u64, "Investing"@)]);
        assert(education@.map_values(|s: PodcastCategory| (s.id, s.name@))
            =~= seq![(1364u64, "How To"@), (1367u64, "Language Learning"@)]);
        assert(health@.map_values(|s: PodcastCategory| (s.id, s.name@))
            =~= seq![(1384u64, "Fitness"@), (1390u64, "Mental Health"@)]);
        assert(news@.map_values(|s: PodcastCategory| (s.id, s.name@))
            =~= seq![(1414u64, "Daily News"@), (1423u64, "Politics"@)]);
    }
    let mut r: Vec<PodcastCategory> = Vec::new();
    r.push(with_subcategories(1301, "Arts", arts));
    r.push(with_subcategories(1321, "Business", business));
    r.push(leaf(1303, "Comedy"));
    r.push(with_subcategories(1304, "Education", education));
    r.push(with_subcategories(1305, "Health & Fitness", health));
    r.push(leaf(1307, "Music"));
    r.push(with_subcategories(1309, "News", news));
    r.push(leaf(1311, "Science"));
    r.push(leaf(1313, "Society & Culture"));
    r.push(leaf(1314, "Sports"));
    r.push(leaf(1315, "Technology"));
    r.push(leaf(1316, "True Crime"));
    proof {
        let t = podcast_category_tree();
        let v = r@.map_values(|c: PodcastCategory| category_view(c));
        assert forall|k: int| 0 <= k < 12 implies v[k] == t[k] by {
            if r@[k].subcategories@.len() == 0 {
                assert(r@[k].subcategories@.map_values(|s: PodcastCategory| (s.id, s.name@)) =~= Seq::<(u64, Seq<char>)>::empty());
            }
        }
        assert(v =~= t);
        assert forall|i: int, j: int|
            0 <= i < r@.len() && 0 <= j < r@[i].subcategories@.len() implies (
            #[trigger] r@[i].subcategories@[j]).subcategories@.len() == 0 by {
            if i == 0 { assert(r@[0].subcategories@ == arts@); }
            if i == 1 { assert(r@[1].subcategories@ == business@); }
            if i == 3 { assert(r@[3].subcategories@ == education@); }
            if i == 4 { assert(r@[4].subcategories@ == health@); }
            if i == 6 { assert(r@[6].subcategories@ == news@); }
        }
    }
    r
}

/// What a podcast duration of the form `HH:MM:SS`, `MM:SS` or `SS` stands
/// for in seconds; `None` when a part cannot be read as a number or there
/// are more than three parts.
pub open spec fn clock_duration(s: Seq<char>) -> Option<int> {
    let p = split_char(s, ':');
    if p.len() == 3 {
        match (parse_u32_spec(p[0]), parse_u32_spec(p[1]), parse_u32_spec(p[2])) {
            (Some(h), Some(m), Some(x)) => Some(h * 3600 + m * 60 + x),
            _ => None,
        }
    } else if p.len() == 2 {
        match (parse_u32_spec(p[0]), parse_u32_spec(p[1])) {
            (Some(m), Some(x)) => Some(m * 60 + x),
            _ => None,
        }
    } else if p.len() == 1 {
        match parse_u32_spec(p[0]) {
            Some(x) => Some(x as int),
            None => None,
        }
    } else {
        None
    }
}

/// Reads a duration of the form `HH:MM:SS`, `MM:SS` or `SS` as seconds.
pub fn parse_duration(duration: &str) -> (r: Option<u32>)
    requires
        clock_duration(duration@) matches Some(t) ==> t <= u32::MAX,
    ensures
        r == match clock_duration(duration@) {
            Some(t) => Some(t as u32),
            None => None::<u32>,
        },
{
    let chars = str_chars(duration);
    let parts = split_chars(chars.as_slice(), ':');
    if parts.len() == 3 {
        let h = match parse_u32(parts[0].as_slice()) { Some(v) => v, None => return None };
        let m = match parse_u32(parts[1].as_slice()) { Some(v) => v, None => return None };
        let x = match parse_u32(parts[2].as_slice()) { Some(v) => v, None => return None };
        assert(h * 3600 <= u32::MAX && m * 60 <= u32::MAX) by (nonlinear_arith)
            requires
                h * 3600 + m * 60 + x <= u32::MAX,
                m >= 0,
                x >= 0,
                h >= 0,
        ;
        Some(h * 3600 + m * 60 + x)
    } else if parts.len() == 2 {
        let m = match parse_u32(parts[0].as_slice()) { Some(v) => v, None => return None };
        let x = match parse_u32(parts[1].as_slice()) { Some(v) => v, None => return None };
        assert(m * 60 <= u32::MAX) by (nonlinear_arith)
            requires
                m * 60 + x <= u32::MAX,
                x >= 0,
        ;
        Some(m * 60 + x)
    } else if parts.len() == 1 {
        parse_u32(parts[0].as_slice())
    } else {
        None
    }
}

/// The number of seconds a duration of the form `HH:MM:SS`, `MM:SS` or
/// `SS` stands for, however large; it tells whether `parse_duration` can
/// read the text.
pub fn duration_total(duration: &str) -> (r: Option<u64>)
    ensures
        r == match clock_duration(duration@) {
            Some(t) => Some(t as u64),
            None => None::<u64>,
        },
        r matches Some(t) ==> clock_duration(duration@) == Some(t as int),
{
    let chars = str_chars(duration);
    let parts = split_chars(chars.as_slice(), ':');
    if parts.len() == 3 {
        let h = match parse_u32(parts[0].as_slice()) { Some(v) => v as u64, None => return None };
        let m = match parse_u32(parts[1].as_slice()) { Some(v) => v as u64, None => return None };
        let x = match parse_u32(parts[2].as_slice()) { Some(v) => v as u64, None => return None };
        assert(h * 3600 + m * 60 + x <= u64::MAX) by (nonlinear_arith)
            requires
                h <= u32::MAX,
                m <= u32::MAX,
                x <= u32::MAX,
        ;
        Some(h * 3600 + m * 60 + x)
    } else if parts.len() == 2 {
        let m = match parse_u32(parts[0].as_slice()) { Some(v) => v as u64, None => return None };
        let x = match parse_u32(parts[1].as_slice()) { Some(v) => v as u64, None => return None };
        assert(m * 60 + x <= u64::MAX) by (nonlinear_arith)
            requires
                m <= u32::MAX,
                x <= u32::MAX,
        ;
        Some(m * 60 + x)
    } else if parts.len() == 1 {
        match parse_u32(parts[0].as_slice()) {
            Some(v) => Some(v as u64),
            None => None,
        }
    } else {
        None
    }
}

} // verus!
