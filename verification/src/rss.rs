//! Reading a podcast's RSS feed: the channel, its elements and attributes,
//! and its items (episodes).
//!
//! Elements are found by the first occurrence of their opening and closing
//! tags, and attribute values are read between `="` and the next `"`.
//! Where a closing tag comes before the end of its opening tag
//! the text between them cannot be cut out; `try_parse_rss_feed` reports
//! such a feed as `None`, and the other functions leave such input out.

use vstd::prelude::*;

use crate::podcast::{RSSChannel, RSSItem};
use crate::scan::{
    trim_end, trim_start,
    copy_range, find, find_chars, find_chars_from, lemma_find, lemma_find_from, lemma_find_from_skip,
    occurs_at, occurs_at_index,
    parse_u64, parse_u64_spec, trim, trim_chars, is_whitespace,
};
use crate::text::{parse_u32, parse_u32_spec, push_all, str_chars, string_from_chars};
use crate::versioning::opt_view;

verus! {

/// The opening tag of an element.
pub open spec fn open_tag(tag: Seq<char>) -> Seq<char> {
    "<"@ + tag + ">"@
}

/// The closing tag of an element.
pub open spec fn close_tag(tag: Seq<char>) -> Seq<char> {
    "</"@ + tag + ">"@
}

/// Where both tags of the element are found, the closing one does not
/// begin before the opening one ends.
pub open spec fn element_in_order(content: Seq<char>, tag: Seq<char>) -> bool {
    match (find(content, open_tag(tag)), find(content, close_tag(tag))) {
        (Some(a), Some(b)) => a + open_tag(tag).len() <= b,
        _ => true,
    }
}

/// `&amp;`
pub open spec fn amp_ref() -> Seq<char> {
    seq!['&', 'a', 'm', 'p', ';']
}

/// `&lt;`
pub open spec fn lt_ref() -> Seq<char> {
    seq!['&', 'l', 't', ';']
}

/// `&gt;`
pub open spec fn gt_ref() -> Seq<char> {
    seq!['&', 'g', 't', ';']
}

/// `&quot;`
pub open spec fn quot_ref() -> Seq<char> {
    seq!['&', 'q', 'u', 'o', 't', ';']
}

/// `&#39;`
pub open spec fn apos_ref() -> Seq<char> {
    seq!['&', '#', '3', '9', ';']
}

/// An element's text with its entity references decoded, each once, in
/// one pass from the left: `&amp;`, `&lt;`, `&gt;`, `&quot;` and `&#39;`
/// stand for `&`, `<`, `>`, `"` and `'`; any other character stands for
/// itself.
pub open spec fn decode_entities(t: Seq<char>) -> Seq<char>
    decreases t.len(),
{
    if t.len() == 0 {
        Seq::empty()
    } else if occurs_at(t, amp_ref(), 0) {
        seq!['&'] + decode_entities(t.skip(5))
    } else if occurs_at(t, lt_ref(), 0) {
        seq!['<'] + decode_entities(t.skip(4))
    } else if occurs_at(t, gt_ref(), 0) {
        seq!['>'] + decode_entities(t.skip(4))
    } else if occurs_at(t, quot_ref(), 0) {
        seq!['"'] + decode_entities(t.skip(6))
    } else if occurs_at(t, apos_ref(), 0) {
        seq!['\''] + decode_entities(t.skip(5))
    } else {
        seq![t[0]] + decode_entities(t.skip(1))
    }
}

/// The text between the first opening and the first closing tag of an
/// element, decoded and trimmed.
pub open spec fn element_text(content: Seq<char>, tag: Seq<char>) -> Option<Seq<char>> {
    match (find(content, open_tag(tag)), find(content, close_tag(tag))) {
        (Some(a), Some(b)) => Some(trim(decode_entities(content.subrange(a + open_tag(tag).len(), b)))),
        _ => None,
    }
}

/// The value of attribute `attr` in the first tag that starts with `<`,
/// `tag` and a space: what stands between `attr="` and the next `"`
/// before the tag's `>`.
pub open spec fn attribute_value(content: Seq<char>, tag: Seq<char>, attr: Seq<char>) -> Option<Seq<char>> {
    match find(content, "<"@ + tag + " "@) {
        None => None,
        Some(st) => {
            let rest = content.skip(st);
            match find(rest, ">"@) {
                None => None,
                Some(e) => {
                    let inner = rest.take(e);
                    let ap = attr + "=\""@;
                    match find(inner, ap) {
                        None => None,
                        Some(k) => {
                            let vr = inner.skip(k + ap.len());
                            match find(vr, "\""@) {
                                None => None,
                                Some(ve) => Some(vr.take(ve)),
                            }
                        },
                    }
                },
            }
        },
    }
}

/// What an item of a feed holds, by value.
pub struct RssItemModel {
    pub title: Option<Seq<char>>,
    pub link: Option<Seq<char>>,
    pub description: Option<Seq<char>>,
    pub author: Option<Seq<char>>,
    pub enclosure_url: Option<Seq<char>>,
    pub enclosure_length: Option<u64>,
    pub enclosure_type: Option<Seq<char>>,
    pub guid: Option<Seq<char>>,
    pub pub_date: Option<Seq<char>>,
    pub duration: Option<Seq<char>>,
    pub image_url: Option<Seq<char>>,
    pub episode: Option<u32>,
    pub season: Option<u32>,
}

/// An item by value.
pub open spec fn item_view(i: RSSItem) -> RssItemModel {
    RssItemModel {
        title: opt_view(i.title),
        link: opt_view(i.link),
        description: opt_view(i.description),
        author: opt_view(i.author),
        enclosure_url: opt_view(i.enclosure_url),
        enclosure_length: i.enclosure_length,
        enclosure_type: opt_view(i.enclosure_type),
        guid: opt_view(i.guid),
        pub_date: opt_view(i.pub_date),
        duration: opt_view(i.duration),
        image_url: opt_view(i.image_url),
        episode: i.episode,
        season: i.season,
    }
}

/// A list of items by value.
pub open spec fn items_view(v: Seq<RSSItem>) -> Seq<RssItemModel> {
    v.map_values(|i: RSSItem| item_view(i))
}

/// Every element an item reads can be cut out.
pub open spec fn item_tags_in_order(c: Seq<char>) -> bool {
    &&& element_in_order(c, "title"@)
    &&& element_in_order(c, "link"@)
    &&& element_in_order(c, "description"@)
    &&& element_in_order(c, "author"@)
    &&& element_in_order(c, "guid"@)
    &&& element_in_order(c, "pubDate"@)
    &&& element_in_order(c, "itunes:duration"@)
    &&& element_in_order(c, "itunes:episode"@)
    &&& element_in_order(c, "itunes:season"@)
}

/// The enclosure tag of an item, from `<enclosure` up to its `>`.
pub open spec fn enclosure_part(c: Seq<char>) -> Option<Seq<char>> {
    match find(c, "<enclosure"@) {
        None => None,
        Some(e) => match find(c.skip(e), ">"@) {
            None => None,
            Some(k) => Some(c.subrange(e, e + k)),
        },
    }
}

/// A number read from optional text.
pub open spec fn text_u32(t: Option<Seq<char>>) -> Option<u32> {
    match t {
        Some(s) => parse_u32_spec(s),
        None => None,
    }
}

/// A number read from optional text.
pub open spec fn text_u64(t: Option<Seq<char>>) -> Option<u64> {
    match t {
        Some(s) => parse_u64_spec(s),
        None => None,
    }
}

/// An attribute of the enclosure, where there is one.
pub open spec fn enclosure_attribute(c: Seq<char>, attr: Seq<char>) -> Option<Seq<char>> {
    match enclosure_part(c) {
        Some(x) => attribute_value(x, Seq::empty(), attr),
        None => None,
    }
}

/// The item that the text `c` between `<item>` and `</item>` describes.
pub open spec fn item_model(c: Seq<char>) -> RssItemModel {
    RssItemModel {
        title: element_text(c, "title"@),
        link: element_text(c, "link"@),
        description: element_text(c, "description"@),
        author: element_text(c, "author"@),
        enclosure_url: enclosure_attribute(c, "url"@),
        enclosure_length: text_u64(enclosure_attribute(c, "length"@)),
        enclosure_type: enclosure_attribute(c, "type"@),
        guid: element_text(c, "guid"@),
        pub_date: element_text(c, "pubDate"@),
        duration: element_text(c, "itunes:duration"@),
        image_url: attribute_value(c, "itunes:image"@, "href"@),
        episode: text_u32(element_text(c, "itunes:episode"@)),
        season: text_u32(element_text(c, "itunes:season"@)),
    }
}

/// The items of `s`: the text from the first `<item>` to the first
/// `</item>` is an item, and reading goes on after that `</item>`.
pub open spec fn rss_items(s: Seq<char>) -> Seq<RssItemModel>
    decreases s.len(),
{
    match find(s, "<item>"@) {
        None => Seq::empty(),
        Some(a) => match find(s, "</item>"@) {
            None => Seq::empty(),
            Some(b) => if 0 <= b && b + 7 <= s.len() {
                seq![item_model(s.subrange(a + 6, b))] + rss_items(s.skip(b + 7))
            } else {
                Seq::empty()
            },
        },
    }
}

/// `pat` is found at `k` when it occurs there and nowhere before.
proof fn lemma_find_first_at(s: Seq<char>, pat: Seq<char>, k: int)
    requires
        occurs_at(s, pat, k),
        forall|j: int| 0 <= j < k ==> !occurs_at(s, pat, j),
    ensures
        find(s, pat) == Some(k),
{
    lemma_find_from(s, pat, 0);
}

/// Text without `&` has no entity reference to decode.
proof fn lemma_decode_plain(t: Seq<char>)
    requires
        forall|i: int| 0 <= i < t.len() ==> t[i] != '&',
    ensures
        decode_entities(t) == t,
    decreases t.len(),
{
    if t.len() > 0 {
        assert(amp_ref()[0] == '&' && lt_ref()[0] == '&' && gt_ref()[0] == '&');
        assert(quot_ref()[0] == '&' && apos_ref()[0] == '&');
        assert(!occurs_at(t, amp_ref(), 0)) by {
            if occurs_at(t, amp_ref(), 0) {
                assert(t.subrange(0, 5)[0] == t[0]);
            }
        }
        assert(!occurs_at(t, lt_ref(), 0)) by {
            if occurs_at(t, lt_ref(), 0) {
                assert(t.subrange(0, 4)[0] == t[0]);
            }
        }
        assert(!occurs_at(t, gt_ref(), 0)) by {
            if occurs_at(t, gt_ref(), 0) {
                assert(t.subrange(0, 4)[0] == t[0]);
            }
        }
        assert(!occurs_at(t, quot_ref(), 0)) by {
            if occurs_at(t, quot_ref(), 0) {
                assert(t.subrange(0, 6)[0] == t[0]);
            }
        }
        assert(!occurs_at(t, apos_ref(), 0)) by {
            if occurs_at(t, apos_ref(), 0) {
                assert(t.subrange(0, 5)[0] == t[0]);
            }
        }
        lemma_decode_plain(t.skip(1));
        assert(seq![t[0]] + t.skip(1) =~= t);
    }
}

/// An element written as `<tag>text</tag>`, with no `<` before it, reads as
/// its text, where the text holds no `<` or `&` and neither begins nor ends
/// with white space.
pub proof fn law_element_read(pre: Seq<char>, tag: Seq<char>, d: Seq<char>, post: Seq<char>)
    requires
        tag.len() > 0,
        tag[0] != '/',
        forall|i: int| 0 <= i < tag.len() ==> tag[i] != '<',
        forall|i: int| 0 <= i < pre.len() ==> pre[i] != '<',
        forall|i: int| 0 <= i < d.len() ==> d[i] != '<' && d[i] != '&',
        d.len() > 0 ==> !is_whitespace(d[0]) && !is_whitespace(d.last()),
    ensures
        element_text(pre + open_tag(tag) + d + close_tag(tag) + post, tag) == Some(d),
{
    reveal_strlit("<");
    reveal_strlit(">");
    reveal_strlit("</");
    let o = open_tag(tag);
    let cl = close_tag(tag);
    let c = pre + o + d + cl + post;
    let a = pre.len() as int;
    let m = a + o.len();
    let b = m + d.len();
    assert(o.len() == tag.len() + 2);
    assert(o[0] == '<');
    assert(cl[0] == '<' && cl[1] == '/');
    assert forall|j: int| 0 <= j < a implies c[j] != '<' by {
        assert(c[j] == pre[j]);
    }
    assert forall|j: int| a < j < b implies c[j] != '<' by {
        if j < m - 1 {
            assert(c[j] == tag[j - a - 1]);
        } else if j == m - 1 {
            assert(c[j] == '>');
        } else {
            assert(c[j] == d[j - m]);
        }
    }
    assert(c.subrange(a, m) =~= o);
    assert(occurs_at(c, o, a));
    assert forall|j: int| 0 <= j < a implies !occurs_at(c, o, j) by {
        if occurs_at(c, o, j) {
            assert(c.subrange(j, j + o.len())[0] == c[j]);
        }
    }
    lemma_find_first_at(c, o, a);
    assert(c.subrange(b, b + cl.len()) =~= cl);
    assert(occurs_at(c, cl, b));
    assert forall|j: int| 0 <= j < b implies !occurs_at(c, cl, j) by {
        if occurs_at(c, cl, j) {
            assert(c.subrange(j, j + cl.len())[0] == c[j]);
            if j == a {
                assert(c.subrange(j, j + cl.len())[1] == c[a + 1]);
                assert(c[a + 1] == tag[0]);
            }
        }
    }
    lemma_find_first_at(c, cl, b);
    assert(c.subrange(m, b) =~= d);
    lemma_decode_plain(d);
    if d.len() > 0 {
        assert(trim_start(d) == d);
        assert(trim_end(d) == d);
    } else {
        assert(trim_start(d) == d);
    }
}

/// An item's title, link, description, author, identifier, publication
/// date and duration are each read from their element, and its episode and
/// season numbers are read from theirs: written as `<tag>text</tag>` in the
/// item with no `<` before it, the field is that text (or the number it
/// spells), where the text holds no `<` or `&` and neither begins nor ends
/// with white space.
pub proof fn law_item_fields_read(pre: Seq<char>, tag: Seq<char>, d: Seq<char>, post: Seq<char>)
    requires
        tag == "title"@ || tag == "link"@ || tag == "description"@ || tag == "author"@ || tag == "guid"@
            || tag == "pubDate"@ || tag == "itunes:duration"@ || tag == "itunes:episode"@ || tag
            == "itunes:season"@,
        forall|i: int| 0 <= i < pre.len() ==> pre[i] != '<',
        forall|i: int| 0 <= i < d.len() ==> d[i] != '<' && d[i] != '&',
        d.len() > 0 ==> !is_whitespace(d[0]) && !is_whitespace(d.last()),
    ensures
        ({
            let m = item_model(pre + open_tag(tag) + d + close_tag(tag) + post);
            &&& tag == "title"@ ==> m.title == Some(d)
            &&& tag == "link"@ ==> m.link == Some(d)
            &&& tag == "description"@ ==> m.description == Some(d)
            &&& tag == "author"@ ==> m.author == Some(d)
            &&& tag == "guid"@ ==> m.guid == Some(d)
            &&& tag == "pubDate"@ ==> m.pub_date == Some(d)
            &&& tag == "itunes:duration"@ ==> m.duration == Some(d)
            &&& tag == "itunes:episode"@ ==> m.episode == parse_u32_spec(d)
            &&& tag == "itunes:season"@ ==> m.season == parse_u32_spec(d)
        }),
{
    reveal_strlit("title");
    reveal_strlit("link");
    reveal_strlit("description");
    reveal_strlit("author");
    reveal_strlit("guid");
    reveal_strlit("pubDate");
    reveal_strlit("itunes:duration");
    reveal_strlit("itunes:episode");
    reveal_strlit("itunes:season");
    law_element_read(pre, tag, d, post);
}

/// An item without the opening tag of an element has no value for the
/// field read from it.
pub proof fn law_item_field_absent(c: Seq<char>, tag: Seq<char>)
    requires
        find(c, open_tag(tag)) is None,
    ensures
        tag == "title"@ ==> item_model(c).title is None,
        tag == "link"@ ==> item_model(c).link is None,
        tag == "description"@ ==> item_model(c).description is None,
        tag == "author"@ ==> item_model(c).author is None,
        tag == "guid"@ ==> item_model(c).guid is None,
        tag == "pubDate"@ ==> item_model(c).pub_date is None,
        tag == "itunes:duration"@ ==> item_model(c).duration is None,
        tag == "itunes:episode"@ ==> item_model(c).episode is None,
        tag == "itunes:season"@ ==> item_model(c).season is None,
{
}

/// Every item of `s` can be cut out, and so can the elements it reads.
pub open spec fn items_in_order(s: Seq<char>) -> bool
    decreases s.len(),
{
    match find(s, "<item>"@) {
        None => true,
        Some(a) => match find(s, "</item>"@) {
            None => true,
            Some(b) => a + 6 <= b && item_tags_in_order(s.subrange(a + 6, b)) && if 0 <= b && b + 7
                <= s.len() {
                items_in_order(s.skip(b + 7))
            } else {
                true
            },
        },
    }
}

/// Why a feed cannot be read.
#[derive(Debug, Clone, Copy, PartialEq, Eq, Structural)]
pub enum RssError {
    NoChannel,
    ChannelNotClosed,
}

impl RssError {
    /// The error's message.
    pub fn message(&self) -> (s: String)
        ensures
            s@ == match self {
                RssError::NoChannel => "No channel element found"@,
                RssError::ChannelNotClosed => "Channel element not closed"@,
            },
    {
        match self {
            RssError::NoChannel => "No channel element found".to_string(),
            RssError::ChannelNotClosed => "Channel element not closed".to_string(),
        }
    }
}

/// What a feed's channel holds, by value.
pub struct RssChannelModel {
    pub title: Seq<char>,
    pub link: Option<Seq<char>>,
    pub description: Option<Seq<char>>,
    pub language: Option<Seq<char>>,
    pub image_url: Option<Seq<char>>,
    pub categories: Seq<Seq<char>>,
    pub explicit: Option<bool>,
    pub author: Option<Seq<char>>,
    pub episodes: Seq<RssItemModel>,
}

/// A channel by value.
pub open spec fn channel_view(c: RSSChannel) -> RssChannelModel {
    RssChannelModel {
        title: c.title@,
        link: opt_view(c.link),
        description: opt_view(c.description),
        language: opt_view(c.language),
        image_url: opt_view(c.image_url),
        categories: c.categories@.map_values(|s: String| s@),
        explicit: c.explicit,
        author: opt_view(c.author),
        episodes: items_view(c.episodes@),
    }
}

/// The channel that the text `ch` inside `<channel>` describes.
pub open spec fn channel_model(ch: Seq<char>) -> RssChannelModel {
    RssChannelModel {
        title: match element_text(ch, "title"@) {
            Some(t) => t,
            None => "Untitled"@,
        },
        link: element_text(ch, "link"@),
        description: element_text(ch, "description"@),
        language: element_text(ch, "language"@),
        image_url: match element_text(ch, "url"@) {
            Some(u) => Some(u),
            None => attribute_value(ch, "itunes:image"@, "href"@),
        },
        categories: Seq::empty(),
        explicit: None,
        author: None,
        episodes: rss_items(ch),
    }
}

/// What a feed reads as: the text between the first `<channel>` and the
/// first `</channel>` of the trimmed feed is the channel.
pub open spec fn rss_feed(content: Seq<char>) -> Result<RssChannelModel, RssError> {
    let t = trim(content);
    match find(t, "<channel>"@) {
        None => Err(RssError::NoChannel),
        Some(a) => match find(t, "</channel>"@) {
            None => Err(RssError::ChannelNotClosed),
            Some(b) => Ok(channel_model(t.subrange(a + 9, b))),
        },
    }
}

/// The channel and every element and item it reads can be cut out.
pub open spec fn feed_in_order(content: Seq<char>) -> bool {
    let t = trim(content);
    match (find(t, "<channel>"@), find(t, "</channel>"@)) {
        (Some(a), Some(b)) => a + 9 <= b && {
            let ch = t.subrange(a + 9, b);
            &&& element_in_order(ch, "title"@)
            &&& element_in_order(ch, "link"@)
            &&& element_in_order(ch, "description"@)
            &&& element_in_order(ch, "language"@)
            &&& element_in_order(ch, "url"@)
            &&& items_in_order(ch)
        },
        _ => true,
    }
}

/// Optional characters by value.
pub open spec fn opt_chars(o: Option<Vec<char>>) -> Option<Seq<char>> {
    match o {
        Some(v) => Some(v@),
        None => None,
    }
}

/// `pre`, then `mid`, then `post`.
fn joined(pre: &str, mid: &[char], post: &str) -> (r: Vec<char>)
    ensures
        r@ == pre@ + mid@ + post@,
{
    let mut v = str_chars(pre);
    push_all(&mut v, mid);
    let p = str_chars(post);
    push_all(&mut v, &p);
    v
}

/// Optional characters as an optional string.
fn opt_string(o: Option<Vec<char>>) -> (r: Option<String>)
    ensures
        opt_view(r) == opt_chars(o),
{
    match o {
        Some(v) => Some(string_from_chars(&v)),
        None => None,
    }
}

/// Whether the element `tag` of `content` can be cut out.
pub fn element_order_check(content: &[char], tag: &[char]) -> (b: bool)
    ensures
        b == element_in_order(content@, tag@),
{
    let open = joined("<", tag, ">");
    let close = joined("</", tag, ">");
    match (find_chars(content, &open), find_chars(content, &close)) {
        (Some(a), Some(b)) => {
            proof {
                lemma_find(content@, open@);
                assert(content@.len() == content.len());
            }
            a + open.len() <= b
        },
        _ => true,
    }
}

/// Whether `pat` stands in `t` at `i`, as `occurs_at` says.
fn ref_at(t: &[char], pat: &Vec<char>, i: usize) -> (r: bool)
    requires
        i <= t.len(),
    ensures
        r == occurs_at(t@.skip(i as int), pat@, 0),
{
    assert(occurs_at(t@.skip(i as int), pat@, 0) == occurs_at(t@, pat@, i as int)) by {
        if i + pat@.len() <= t@.len() {
            assert(t@.skip(i as int).subrange(0, pat@.len() as int) =~= t@.subrange(
                i as int,
                i + pat@.len(),
            ));
        }
    }
    if pat.len() <= t.len() - i {
        occurs_at_index(t, pat.as_slice(), i)
    } else {
        false
    }
}

/// Decodes the entity references of an element's text.
fn decode_entities_chars(t: &[char]) -> (r: Vec<char>)
    ensures
        r@ == decode_entities(t@),
{
    let amp: Vec<char> = vec!['&', 'a', 'm', 'p', ';'];
    let lt: Vec<char> = vec!['&', 'l', 't', ';'];
    let gt: Vec<char> = vec!['&', 'g', 't', ';'];
    let quot: Vec<char> = vec!['&', 'q', 'u', 'o', 't', ';'];
    let apos: Vec<char> = vec!['&', '#', '3', '9', ';'];
    assert(amp@ =~= amp_ref());
    assert(lt@ =~= lt_ref());
    assert(gt@ =~= gt_ref());
    assert(quot@ =~= quot_ref());
    assert(apos@ =~= apos_ref());
    let mut out: Vec<char> = Vec::new();
    let mut i: usize = 0;
    assert(t@.skip(0) =~= t@);
    while i < t.len()
        invariant
            i <= t.len(),
            amp@ == amp_ref(),
            lt@ == lt_ref(),
            gt@ == gt_ref(),
            quot@ == quot_ref(),
            apos@ == apos_ref(),
            decode_entities(t@) == out@ + decode_entities(t@.skip(i as int)),
        decreases t.len() - i,
    {
        let ghost s = t@.skip(i as int);
        let ghost before = out@;
        if ref_at(t, &amp, i) {
            assert(s.skip(5) =~= t@.skip(i + 5));
            out.push('&');
            i = i + 5;
        } else if ref_at(t, &lt, i) {
            assert(s.skip(4) =~= t@.skip(i + 4));
            out.push('<');
            i = i + 4;
        } else if ref_at(t, &gt, i) {
            assert(s.skip(4) =~= t@.skip(i + 4));
            out.push('>');
            i = i + 4;
        } else if ref_at(t, &quot, i) {
            assert(s.skip(6) =~= t@.skip(i + 6));
            out.push('"');
            i = i + 6;
        } else if ref_at(t, &apos, i) {
            assert(s.skip(5) =~= t@.skip(i + 5));
            out.push('\'');
            i = i + 5;
        } else {
            assert(s.skip(1) =~= t@.skip(i + 1));
            assert(s[0] == t@[i as int]);
            out.push(t[i]);
            i = i + 1;
        }
        assert(decode_entities(t@) == out@ + decode_entities(t@.skip(i as int))) by {
            assert(before + decode_entities(s) =~= out@ + decode_entities(t@.skip(i as int)));
        }
    }
    assert(t@.skip(i as int) =~= Seq::<char>::empty());
    assert(out@ + Seq::<char>::empty() =~= out@);
    out
}

/// The decoded, trimmed text of the element `tag` of `content`.
pub fn element_chars(content: &[char], tag: &[char]) -> (r: Option<Vec<char>>)
    requires
        element_in_order(content@, tag@),
    ensures
        opt_chars(r) == element_text(content@, tag@),
{
    let open = joined("<", tag, ">");
    let close = joined("</", tag, ">");
    match (find_chars(content, &open), find_chars(content, &close)) {
        (Some(a), Some(b)) => {
            proof {
                lemma_find(content@, open@);
                lemma_find(content@, close@);
            }
            let inner = copy_range(content, a + open.len(), b);
            let decoded = decode_entities_chars(&inner);
            Some(trim_chars(&decoded))
        },
        _ => None,
    }
}

/// The value of attribute `attr` of the first tag `tag` in `content`.
pub fn attribute_chars(content: &[char], tag: &[char], attr: &[char]) -> (r: Option<Vec<char>>)
    ensures
        opt_chars(r) == attribute_value(content@, tag@, attr@),
{
    let pat = joined("<", tag, " ");
    let st = match find_chars(content, &pat) {
        None => {
            return None;
        },
        Some(st) => st,
    };
    proof {
        lemma_find(content@, pat@);
    }
    let rest = copy_range(content, st, content.len());
    assert(rest@ =~= content@.skip(st as int));
    let gt = str_chars(">");
    let e = match find_chars(&rest, &gt) {
        None => {
            return None;
        },
        Some(e) => e,
    };
    proof {
        lemma_find(rest@, gt@);
    }
    let inner = copy_range(&rest, 0, e);
    assert(inner@ =~= rest@.take(e as int));
    let ap = joined("", attr, "=\"");
    proof {
        reveal_strlit("");
        assert(""@ + attr@ =~= attr@);
    }
    let k = match find_chars(&inner, &ap) {
        None => {
            return None;
        },
        Some(k) => k,
    };
    proof {
        lemma_find(inner@, ap@);
    }
    let vr = copy_range(&inner, k + ap.len(), inner.len());
    assert(vr@ =~= inner@.skip(k + ap@.len()));
    let q = str_chars("\"");
    match find_chars(&vr, &q) {
        None => None,
        Some(ve) => {
            proof {
                lemma_find(vr@, q@);
            }
            let value = copy_range(&vr, 0, ve);
            assert(value@ =~= vr@.take(ve as int));
            Some(value)
        },
    }
}

/// Whether every element an item reads can be cut out.
fn item_tags_check(c: &[char]) -> (b: bool)
    ensures
        b == item_tags_in_order(c@),
{
    element_order_check(c, &str_chars("title")) && element_order_check(c, &str_chars("link"))
        && element_order_check(c, &str_chars("description")) && element_order_check(
        c,
        &str_chars("author"),
    ) && element_order_check(c, &str_chars("guid")) && element_order_check(c, &str_chars("pubDate"))
        && element_order_check(c, &str_chars("itunes:duration")) && element_order_check(
        c,
        &str_chars("itunes:episode"),
    ) && element_order_check(c, &str_chars("itunes:season"))
}

/// The enclosure tag of an item.
fn enclosure_chars(c: &[char]) -> (r: Option<Vec<char>>)
    ensures
        opt_chars(r) == enclosure_part(c@),
{
    let open = str_chars("<enclosure");
    let e = match find_chars(c, &open) {
        None => {
            return None;
        },
        Some(e) => e,
    };
    proof {
        lemma_find(c@, open@);
    }
    let rest = copy_range(c, e, c.len());
    assert(rest@ =~= c@.skip(e as int));
    let gt = str_chars(">");
    match find_chars(&rest, &gt) {
        None => None,
        Some(k) => {
            proof {
                lemma_find(rest@, gt@);
            }
            Some(copy_range(c, e, e + k))
        },
    }
}

/// A number read from optional characters.
fn chars_u32(t: Option<Vec<char>>) -> (r: Option<u32>)
    ensures
        r == text_u32(opt_chars(t)),
{
    match t {
        Some(v) => parse_u32(&v),
        None => None,
    }
}

/// A number read from optional characters.
fn chars_u64(t: Option<Vec<char>>) -> (r: Option<u64>)
    ensures
        r == text_u64(opt_chars(t)),
{
    match t {
        Some(v) => parse_u64(&v),
        None => None,
    }
}

/// An attribute of the item's enclosure, where there is one.
fn enclosure_attribute_chars(enc: &Option<Vec<char>>, attr: &str) -> (r: Option<Vec<char>>)
    ensures
        opt_chars(r) == match opt_chars(*enc) {
            Some(x) => attribute_value(x, Seq::empty(), attr@),
            None => None,
        },
{
    match enc {
        Some(x) => {
            let none: Vec<char> = Vec::new();
            assert(none@ =~= Seq::<char>::empty());
            attribute_chars(x, &none, &str_chars(attr))
        },
        None => None,
    }
}

/// Reads the item that the text `c` between `<item>` and `</item>` describes.
fn item_from_chars(c: &[char]) -> (r: RSSItem)
    requires
        item_tags_in_order(c@),
    ensures
        item_view(r) == item_model(c@),
{
    let enc = enclosure_chars(c);
    RSSItem {
        title: opt_string(element_chars(c, &str_chars("title"))),
        link: opt_string(element_chars(c, &str_chars("link"))),
        description: opt_string(element_chars(c, &str_chars("description"))),
        author: opt_string(element_chars(c, &str_chars("author"))),
        enclosure_url: opt_string(enclosure_attribute_chars(&enc, "url")),
        enclosure_length: chars_u64(enclosure_attribute_chars(&enc, "length")),
        enclosure_type: opt_string(enclosure_attribute_chars(&enc, "type")),
        guid: opt_string(element_chars(c, &str_chars("guid"))),
        pub_date: opt_string(element_chars(c, &str_chars("pubDate"))),
        duration: opt_string(element_chars(c, &str_chars("itunes:duration"))),
        image_url: opt_string(attribute_chars(c, &str_chars("itunes:image"), &str_chars("href"))),
        episode: chars_u32(element_chars(c, &str_chars("itunes:episode"))),
        season: chars_u32(element_chars(c, &str_chars("itunes:season"))),
    }
}

/// Reads the items of `s`; `None` where an item or one of its elements
/// cannot be cut out.
pub fn try_parse_items(s: &[char]) -> (r: Option<Vec<RSSItem>>)
    ensures
        r is None <==> !items_in_order(s@),
        r matches Some(v) ==> items_view(v@) == rss_items(s@),
{
    proof {
        reveal_strlit("<item>");
        reveal_strlit("</item>");
    }
    let open = str_chars("<item>");
    let close = str_chars("</item>");
    let mut items: Vec<RSSItem> = Vec::new();
    let mut pos: usize = 0;
    assert(s@.skip(0) =~= s@);
    assert(items_view(items@) =~= Seq::<RssItemModel>::empty());
    loop
        invariant
            pos <= s.len(),
            open@ == "<item>"@,
            close@ == "</item>"@,
            open@.len() == 6,
            close@.len() == 7,
            items_view(items@) + rss_items(s@.skip(pos as int)) == rss_items(s@),
            items_in_order(s@) == items_in_order(s@.skip(pos as int)),
        decreases s.len() - pos,
    {
        let ghost t = s@.skip(pos as int);
        proof {
            lemma_find_from_skip(s@, open@, pos as int, pos as int);
            lemma_find_from_skip(s@, close@, pos as int, pos as int);
            lemma_find_from(s@, open@, pos as int);
            lemma_find_from(s@, close@, pos as int);
        }
        let a = match find_chars_from(s, &open, pos) {
            None => {
                assert(items_view(items@) + Seq::<RssItemModel>::empty() =~= items_view(items@));
                return Some(items);
            },
            Some(a) => a,
        };
        let b = match find_chars_from(s, &close, pos) {
            None => {
                assert(items_view(items@) + Seq::<RssItemModel>::empty() =~= items_view(items@));
                return Some(items);
            },
            Some(b) => b,
        };
        if b < a + 6 {
            return None;
        }
        let c = copy_range(s, a + 6, b);
        assert(c@ =~= t.subrange(a - pos + 6, b - pos));
        if !item_tags_check(&c) {
            return None;
        }
        let item = item_from_chars(&c);
        let ghost old_items = items@;
        items.push(item);
        assert(t.skip(b - pos + 7) =~= s@.skip(b + 7));
        assert(items_view(items@) =~= items_view(old_items).push(item_model(c@)));
        assert(items_view(old_items) + (seq![item_model(c@)] + rss_items(s@.skip(b + 7)))
            =~= items_view(items@) + rss_items(s@.skip(b + 7)));
        pos = b + 7;
    }
}

/// Reads a feed; `None` where the channel, one of its elements or items
/// cannot be cut out.
pub fn try_parse_rss_feed(content: &str) -> (r: Option<Result<RSSChannel, RssError>>)
    ensures
        r is None <==> !feed_in_order(content@),
        r matches Some(res) ==> match res {
            Ok(c) => rss_feed(content@) == Ok::<RssChannelModel, RssError>(channel_view(c)),
            Err(e) => rss_feed(content@) == Err::<RssChannelModel, RssError>(e),
        },
{
    proof {
        reveal_strlit("<channel>");
        reveal_strlit("</channel>");
    }
    let chars = str_chars(content);
    let t = trim_chars(&chars);
    let open = str_chars("<channel>");
    let close = str_chars("</channel>");
    let a = match find_chars(&t, &open) {
        None => {
            return Some(Err(RssError::NoChannel));
        },
        Some(a) => a,
    };
    let b = match find_chars(&t, &close) {
        None => {
            return Some(Err(RssError::ChannelNotClosed));
        },
        Some(b) => b,
    };
    proof {
        lemma_find(t@, open@);
        lemma_find(t@, close@);
        assert(t@.len() == t.len());
    }
    if b < a + 9 {
        return None;
    }
    let ch = copy_range(&t, a + 9, b);
    let title_tag = str_chars("title");
    let link_tag = str_chars("link");
    let description_tag = str_chars("description");
    let language_tag = str_chars("language");
    let url_tag = str_chars("url");
    if !(element_order_check(&ch, &title_tag) && element_order_check(&ch, &link_tag)
        && element_order_check(&ch, &description_tag) && element_order_check(&ch, &language_tag)
        && element_order_check(&ch, &url_tag)) {
        return None;
    }
    let episodes = match try_parse_items(&ch) {
        None => {
            return None;
        },
        Some(v) => v,
    };
    let title = match element_chars(&ch, &title_tag) {
        Some(v) => string_from_chars(&v),
        None => "Untitled".to_string(),
    };
    let image = match element_chars(&ch, &url_tag) {
        Some(u) => Some(u),
        None => attribute_chars(&ch, &str_chars("itunes:image"), &str_chars("href")),
    };
    let channel = RSSChannel {
        title,
        link: opt_string(element_chars(&ch, &link_tag)),
        description: opt_string(element_chars(&ch, &description_tag)),
        language: opt_string(element_chars(&ch, &language_tag)),
        image_url: opt_string(image),
        categories: Vec::new(),
        explicit: None,
        author: None,
        episodes,
    };
    assert(channel.categories@.map_values(|s: String| s@) =~= Seq::<Seq<char>>::empty());
    Some(Ok(channel))
}

/// Reads a feed whose channel, elements and items can all be cut out.
pub fn parse_rss_feed(content: &str) -> (r: Result<RSSChannel, RssError>)
    requires
        feed_in_order(content@),
    ensures
        match r {
            Ok(c) => rss_feed(content@) == Ok::<RssChannelModel, RssError>(channel_view(c)),
            Err(e) => rss_feed(content@) == Err::<RssChannelModel, RssError>(e),
        },
{
    match try_parse_rss_feed(content) {
        Some(r) => r,
        None => Err(RssError::NoChannel),
    }
}

/// The decoded, trimmed text of the element `tag` of `content`.
pub fn extract_element(content: &str, tag: &str) -> (r: Option<String>)
    requires
        element_in_order(content@, tag@),
    ensures
        opt_view(r) == element_text(content@, tag@),
{
    opt_string(element_chars(&str_chars(content), &str_chars(tag)))
}

/// The value of attribute `attr` of the first tag `tag` in `content`.
pub fn extract_attribute_value(content: &str, tag: &str, attr: &str) -> (r: Option<String>)
    ensures
        opt_view(r) == attribute_value(content@, tag@, attr@),
{
    opt_string(attribute_chars(&str_chars(content), &str_chars(tag), &str_chars(attr)))
}

/// Reads the items of `content`, each of which can be cut out.
pub fn parse_items(content: &str) -> (r: Vec<RSSItem>)
    requires
        items_in_order(content@),
    ensures
        items_view(r@) == rss_items(content@),
{
    match try_parse_items(&str_chars(content)) {
        Some(v) => v,
        None => Vec::new(),
    }
}

} // verus!
