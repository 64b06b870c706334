//! Podcasts and episodes as the player shows them: read from iTunes search
//! results, from the entries of the iTunes top chart, and from the items of
//! an RSS feed.

use vstd::prelude::*;
use vstd::string::StringExecFns;

use crate::podcast::{clock_duration, parse_duration, ITunesPodcast, RSSChannel, RSSItem};
use crate::text::{copy_opt_string, decimal, owned, parse_u32, parse_u32_spec, push_decimal_u64, str_chars, string_from_chars};
use crate::urls::{url_encode, url_encoded};
use crate::versioning::opt_view;

verus! {

/// A podcast.
#[derive(Debug, Clone)]
pub struct PodcastFeed {
    pub id: String,
    pub title: String,
    pub author: Option<String>,
    pub description: Option<String>,
    pub feed_url: Option<String>,
    pub artwork_url: Option<String>,
    pub category: Option<String>,
    pub explicit: Option<bool>,
    pub episode_count: Option<u32>,
    pub website_url: Option<String>,
    /// Seconds since the Unix epoch
    pub last_updated: Option<i64>,
}

/// An episode of a podcast.
#[derive(Debug, Clone)]
pub struct PodcastEpisode {
    pub id: String,
    pub feed_id: String,
    pub title: String,
    pub description: Option<String>,
    pub author: Option<String>,
    /// Seconds since the Unix epoch
    pub pub_date: Option<i64>,
    pub duration_seconds: Option<u32>,
    pub audio_url: Option<String>,
    pub artwork_url: Option<String>,
    pub episode_number: Option<u32>,
    pub season_number: Option<u32>,
    pub explicit: Option<bool>,
}

/// The first present value of three.
pub open spec fn first_present(a: Option<Seq<char>>, b: Option<Seq<char>>, c: Option<Seq<char>>) -> Option<Seq<char>> {
    match a {
        Some(x) => Some(x),
        None => match b {
            Some(x) => Some(x),
            None => c,
        },
    }
}

/// `f` is the podcast an iTunes search result describes: its identifier
/// in decimal, the largest artwork offered (600, 100, then 60 pixels).
pub open spec fn feed_from_itunes(p: ITunesPodcast, f: PodcastFeed) -> bool {
    &&& f.id@ == decimal(p.collection_id as nat)
    &&& f.title@ == p.collection_name@
    &&& opt_view(f.author) == Some(p.artist_name@)
    &&& f.description is None
    &&& opt_view(f.feed_url) == opt_view(p.feed_url)
    &&& opt_view(f.artwork_url) == first_present(
        opt_view(p.artwork_url_600),
        opt_view(p.artwork_url_100),
        opt_view(p.artwork_url_60),
    )
    &&& opt_view(f.category) == opt_view(p.primary_genre_name)
    &&& f.explicit is None
    &&& f.episode_count == p.track_count
    &&& f.website_url is None
    &&& f.last_updated is None
}

/// Copies the first present value of three.
fn copy_first(a: &Option<String>, b: &Option<String>, c: &Option<String>) -> (r: Option<String>)
    ensures
        opt_view(r) == first_present(opt_view(*a), opt_view(*b), opt_view(*c)),
{
    match a {
        Some(x) => Some(x.clone()),
        None => match b {
            Some(x) => Some(x.clone()),
            None => copy_opt_string(c),
        },
    }
}

impl PodcastFeed {
    /// The podcast an iTunes search result describes.
    pub fn from_itunes(podcast: &ITunesPodcast) -> (f: PodcastFeed)
        ensures
            feed_from_itunes(*podcast, f),
    {
        let mut digits: Vec<char> = Vec::new();
        push_decimal_u64(&mut digits, podcast.collection_id);
        PodcastFeed {
            id: string_from_chars(&digits),
            title: podcast.collection_name.clone(),
            author: Some(podcast.artist_name.clone()),
            description: None,
            feed_url: copy_opt_string(&podcast.feed_url),
            artwork_url: copy_first(&podcast.artwork_url_600, &podcast.artwork_url_100, &podcast.artwork_url_60),
            category: copy_opt_string(&podcast.primary_genre_name),
            explicit: None,
            episode_count: podcast.track_count,
            website_url: None,
            last_updated: None,
        }
    }
}

/// The podcasts that a list of iTunes search results describes, in order.
pub fn feeds_from_itunes(results: &Vec<ITunesPodcast>) -> (r: Vec<PodcastFeed>)
    ensures
        r@.len() == results@.len(),
        forall|i: int| 0 <= i < r@.len() ==> feed_from_itunes(#[trigger] results@[i], r@[i]),
{
    let mut out: Vec<PodcastFeed> = Vec::new();
    let mut i: usize = 0;
    while i < results.len()
        invariant
            i <= results.len(),
            out@.len() == i,
            forall|j: int| 0 <= j < i ==> feed_from_itunes(#[trigger] results@[j], out@[j]),
        decreases results.len() - i,
    {
        out.push(PodcastFeed::from_itunes(&results[i]));
        i = i + 1;
    }
    out
}

/// An image of an entry of the iTunes top chart.
#[derive(Debug, Clone)]
pub struct TopPodcastImage {
    pub label: String,
    pub height: String,
}

/// An entry of the iTunes top chart.
#[derive(Debug, Clone)]
pub struct TopPodcastEntry {
    pub name: String,
    pub artist: String,
    pub id: String,
    pub images: Vec<TopPodcastImage>,
}

/// The height an image is ranked by: its height text read as a number,
/// zero where it is none.
pub open spec fn image_rank(img: TopPodcastImage) -> u32 {
    match parse_u32_spec(img.height@) {
        Some(h) => h,
        None => 0,
    }
}

/// The index of the image with the greatest rank, the last of equals, as
/// `max_by_key` picks it.
pub open spec fn best_image_index(images: Seq<TopPodcastImage>) -> Option<int>
    decreases images.len(),
{
    if images.len() == 0 {
        None
    } else {
        match best_image_index(images.drop_last()) {
            None => Some(images.len() - 1),
            Some(j) => if image_rank(images.last()) >= image_rank(images[j]) {
                Some(images.len() - 1)
            } else {
                Some(j)
            },
        }
    }
}

/// The best image is among the images, no image outranks it, and every
/// later image ranks lower.
pub proof fn lemma_best_image_index(images: Seq<TopPodcastImage>)
    ensures
        match best_image_index(images) {
            None => images.len() == 0,
            Some(b) => 0 <= b < images.len() && (forall|k: int|
                0 <= k < images.len() ==> image_rank(#[trigger] images[k]) <= image_rank(images[b])) && (
            forall|k: int| b < k < images.len() ==> image_rank(#[trigger] images[k]) < image_rank(images[b])),
        },
    decreases images.len(),
{
    if images.len() > 0 {
        lemma_best_image_index(images.drop_last());
        assert forall|k: int| 0 <= k < images.len() - 1 implies images.drop_last()[k] == images[k] by {}
    }
}

/// The rank of an image.
fn image_rank_of(img: &TopPodcastImage) -> (r: u32)
    ensures
        r == image_rank(*img),
{
    match parse_u32(&str_chars(img.height.as_str())) {
        Some(h) => h,
        None => 0,
    }
}

/// The index of the best image of an entry.
pub fn best_image(images: &Vec<TopPodcastImage>) -> (r: Option<usize>)
    ensures
        match r {
            Some(i) => best_image_index(images@) == Some(i as int),
            None => best_image_index(images@) is None,
        },
{
    let mut best: Option<usize> = None;
    let mut best_rank: u32 = 0;
    let mut i: usize = 0;
    assert(images@.take(0) =~= Seq::<TopPodcastImage>::empty());
    while i < images.len()
        invariant
            i <= images.len(),
            match best {
                Some(b) => best_image_index(images@.take(i as int)) == Some(b as int) && b < i && best_rank
                    == image_rank(images@[b as int]),
                None => best_image_index(images@.take(i as int)) is None && i == 0,
            },
        decreases images.len() - i,
    {
        let r = image_rank_of(&images[i]);
        assert(images@.take(i + 1).drop_last() =~= images@.take(i as int));
        assert(images@.take(i + 1).last() == images@[i as int]);
        match best {
            None => {
                best = Some(i);
                best_rank = r;
            },
            Some(b) => {
                assert(images@.take(i + 1)[b as int] == images@[b as int]);
                if r >= best_rank {
                    best = Some(i);
                    best_rank = r;
                }
            },
        }
        i = i + 1;
    }
    assert(images@.take(images@.len() as int) =~= images@);
    best
}

/// `f` is the podcast a chart entry describes: its best image is the
/// artwork.
pub open spec fn feed_from_top_entry(e: TopPodcastEntry, f: PodcastFeed) -> bool {
    &&& f.id@ == e.id@
    &&& f.title@ == e.name@
    &&& opt_view(f.author) == Some(e.artist@)
    &&& f.description is None
    &&& f.feed_url is None
    &&& opt_view(f.artwork_url) == match best_image_index(e.images@) {
        Some(b) => Some(e.images@[b].label@),
        None => None,
    }
    &&& f.category is None
    &&& f.explicit is None
    &&& f.episode_count is None
    &&& f.website_url is None
    &&& f.last_updated is None
}

/// The podcast a chart entry describes.
pub fn feed_from_top_entry_of(entry: &TopPodcastEntry) -> (f: PodcastFeed)
    ensures
        feed_from_top_entry(*entry, f),
{
    proof {
        lemma_best_image_index(entry.images@);
    }
    let artwork = match best_image(&entry.images) {
        Some(b) => Some(entry.images[b].label.clone()),
        None => None,
    };
    PodcastFeed {
        id: entry.id.clone(),
        title: entry.name.clone(),
        author: Some(entry.artist.clone()),
        description: None,
        feed_url: None,
        artwork_url: artwork,
        category: None,
        explicit: None,
        episode_count: None,
        website_url: None,
        last_updated: None,
    }
}

/// The podcasts of the top chart, in the chart's order.
pub fn top_podcasts_from_entries(entries: &Vec<TopPodcastEntry>) -> (r: Vec<PodcastFeed>)
    ensures
        r@.len() == entries@.len(),
        forall|i: int| 0 <= i < r@.len() ==> feed_from_top_entry(#[trigger] entries@[i], r@[i]),
{
    let mut out: Vec<PodcastFeed> = Vec::new();
    let mut i: usize = 0;
    while i < entries.len()
        invariant
            i <= entries.len(),
            out@.len() == i,
            forall|j: int| 0 <= j < i ==> feed_from_top_entry(#[trigger] entries@[j], out@[j]),
        decreases entries.len() - i,
    {
        out.push(feed_from_top_entry_of(&entries[i]));
        i = i + 1;
    }
    out
}

/// What `chrono::DateTime::parse_from_str` gives for a text and a format,
/// as seconds since the Unix epoch.
pub uninterp spec fn chrono_parse_with_format(s: Seq<char>, fmt: Seq<char>) -> Option<i64>;

/// What parsing a text as `chrono::DateTime<Utc>` gives, as seconds since
/// the Unix epoch.
pub uninterp spec fn chrono_parse_utc(s: Seq<char>) -> Option<i64>;

/// `chrono::DateTime::parse_from_str(s, fmt)`, the instant read as seconds
/// since the Unix epoch; the result is named, not described.
#[verifier::external_body]
fn parse_with_format(s: &str, fmt: &str) -> (r: Option<i64>)
    ensures
        r == chrono_parse_with_format(s@, fmt@),
{
    chrono::DateTime::parse_from_str(s, fmt).ok().map(|dt| dt.timestamp())
}

/// `s.parse::<chrono::DateTime<chrono::Utc>>()`, the instant read as
/// seconds since the Unix epoch; the result is named, not described.
#[verifier::external_body]
fn parse_utc(s: &str) -> (r: Option<i64>)
    ensures
        r == chrono_parse_utc(s@),
{
    s.parse::<chrono::DateTime<chrono::Utc>>().ok().map(|dt| dt.timestamp())
}

/// The date of an RSS item: the first of the usual formats that reads the
/// text, else the text read as a UTC date.
pub open spec fn rss_date(s: Seq<char>) -> Option<i64> {
    let f0 = chrono_parse_with_format(s, "%a, %d %b %Y %H:%M:%S %z"@);
    let f1 = chrono_parse_with_format(s, "%a, %d %b %Y %H:%M:%S GMT"@);
    let f2 = chrono_parse_with_format(s, "%a, %d %b %Y %H:%M:%S"@);
    let f3 = chrono_parse_with_format(s, "%Y-%m-%dT%H:%M:%S%:z"@);
    let f4 = chrono_parse_with_format(s, "%Y-%m-%dT%H:%M:%SZ"@);
    if f0 is Some {
        f0
    } else if f1 is Some {
        f1
    } else if f2 is Some {
        f2
    } else if f3 is Some {
        f3
    } else if f4 is Some {
        f4
    } else {
        chrono_parse_utc(s)
    }
}

/// Reads the date of an RSS item.
pub fn parse_rss_date(date_str: &str) -> (r: Option<i64>)
    ensures
        r == rss_date(date_str@),
{
    let r0 = parse_with_format(date_str, "%a, %d %b %Y %H:%M:%S %z");
    if r0.is_some() {
        return r0;
    }
    let r1 = parse_with_format(date_str, "%a, %d %b %Y %H:%M:%S GMT");
    if r1.is_some() {
        return r1;
    }
    let r2 = parse_with_format(date_str, "%a, %d %b %Y %H:%M:%S");
    if r2.is_some() {
        return r2;
    }
    let r3 = parse_with_format(date_str, "%Y-%m-%dT%H:%M:%S%:z");
    if r3.is_some() {
        return r3;
    }
    let r4 = parse_with_format(date_str, "%Y-%m-%dT%H:%M:%SZ");
    if r4.is_some() {
        return r4;
    }
    parse_utc(date_str)
}

/// An item's duration text, where it reads as one, stands for no more
/// seconds than a `u32` holds.
pub open spec fn duration_fits(d: Option<Seq<char>>) -> bool {
    d matches Some(t) ==> (clock_duration(t) matches Some(n) ==> n <= u32::MAX)
}

/// The duration of an item in seconds, where its text reads as one.
pub open spec fn item_duration(d: Option<Seq<char>>) -> Option<u32> {
    match d {
        Some(t) => match clock_duration(t) {
            Some(n) => Some(n as u32),
            None => None,
        },
        None => None,
    }
}

/// `e` is the episode that the item at position `index` of a feed
/// describes, given the date its publication date reads as: the item's
/// guid, or the feed identifier, `-` and the position, is its identifier.
pub open spec fn episode_from_item(item: RSSItem, feed_id: Seq<char>, index: nat, pub_date: Option<i64>, e: PodcastEpisode) -> bool {
    &&& e.id@ == match opt_view(item.guid) {
        Some(g) => g,
        None => feed_id + "-"@ + decimal(index),
    }
    &&& e.feed_id@ == feed_id
    &&& e.title@ == match opt_view(item.title) {
        Some(t) => t,
        None => "Untitled"@,
    }
    &&& opt_view(e.description) == opt_view(item.description)
    &&& opt_view(e.author) == opt_view(item.author)
    &&& e.pub_date == pub_date
    &&& e.duration_seconds == item_duration(opt_view(item.duration))
    &&& opt_view(e.audio_url) == opt_view(item.enclosure_url)
    &&& opt_view(e.artwork_url) == opt_view(item.image_url)
    &&& e.episode_number == item.episode
    &&& e.season_number == item.season
    &&& e.explicit is None
}

/// The episode that the item at position `index` of a feed describes,
/// given the date its publication date reads as.
pub fn episode_of_item(item: &RSSItem, feed_id: &str, index: u64, pub_date: Option<i64>) -> (e: PodcastEpisode)
    requires
        duration_fits(opt_view(item.duration)),
    ensures
        episode_from_item(*item, feed_id@, index as nat, pub_date, e),
{
    proof {
        reveal_strlit("-");
    }
    let id = match &item.guid {
        Some(g) => g.clone(),
        None => {
            let mut s = owned(feed_id);
            s.append("-");
            let mut digits: Vec<char> = Vec::new();
            push_decimal_u64(&mut digits, index);
            let d = string_from_chars(&digits);
            s.append(d.as_str());
            s
        },
    };
    let title = match &item.title {
        Some(t) => t.clone(),
        None => owned("Untitled"),
    };
    let duration = match &item.duration {
        Some(d) => parse_duration(d.as_str()),
        None => None,
    };
    PodcastEpisode {
        id,
        feed_id: owned(feed_id),
        title,
        description: copy_opt_string(&item.description),
        author: copy_opt_string(&item.author),
        pub_date,
        duration_seconds: duration,
        audio_url: copy_opt_string(&item.enclosure_url),
        artwork_url: copy_opt_string(&item.image_url),
        episode_number: item.episode,
        season_number: item.season,
        explicit: None,
    }
}

/// The episodes of a feed read from `feed_url`: its first `limit` items,
/// each with the date its publication date reads as, and the URL encoding
/// of the feed's URL as the feed identifier.
pub fn episodes_from_channel(channel: &RSSChannel, feed_url: &str, limit: u32) -> (r: Vec<PodcastEpisode>)
    requires
        forall|i: int| 0 <= i < channel.episodes@.len() && i < limit ==> duration_fits(#[trigger] opt_view(channel.episodes@[i].duration)),
    ensures
        r@.len() == if channel.episodes@.len() < limit {
            channel.episodes@.len() as int
        } else {
            limit as int
        },
        forall|i: int|
            0 <= i < r@.len() ==> episode_from_item(
                #[trigger] channel.episodes@[i],
                url_encoded(feed_url@),
                i as nat,
                match opt_view(channel.episodes@[i].pub_date) {
                    Some(d) => rss_date(d),
                    None => None,
                },
                r@[i],
            ),
{
    let feed_id = url_encode(feed_url);
    let mut out: Vec<PodcastEpisode> = Vec::new();
    let mut i: usize = 0;
    while i < channel.episodes.len() && (i as u64) < (limit as u64)
        invariant
            i <= channel.episodes@.len(),
            i <= limit,
            out@.len() == i,
            feed_id@ == url_encoded(feed_url@),
            forall|k: int| 0 <= k < channel.episodes@.len() && k < limit ==> duration_fits(#[trigger] opt_view(channel.episodes@[k].duration)),
            forall|j: int|
                0 <= j < i ==> episode_from_item(
                    #[trigger] channel.episodes@[j],
                    url_encoded(feed_url@),
                    j as nat,
                    match opt_view(channel.episodes@[j].pub_date) {
                        Some(d) => rss_date(d),
                        None => None,
                    },
                    out@[j],
                ),
        decreases channel.episodes.len() - i,
    {
        let item = &channel.episodes[i];
        let date = match &item.pub_date {
            Some(d) => parse_rss_date(d.as_str()),
            None => None,
        };
        out.push(episode_of_item(item, feed_id.as_str(), i as u64, date));
        i = i + 1;
    }
    out
}

} // verus!
