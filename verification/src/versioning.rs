//! Plugin versioning and compatibility: semantic versions, version
//! ranges, and a checker that rates API and plugin compatibility and
//! finds breaking changes between releases.

use std::collections::HashMap;
use vstd::prelude::*;

use crate::text::{
    Order, seq_order, seq_le, lemma_seq_order_equal, lemma_seq_order_antisym,
    lemma_seq_order_trans, split_char, lemma_split_char_nonempty, split_chars, first_index_of,
    lemma_first_index_of, find_char, parse_u32_spec, parse_u32, decimal, push_decimal, push_all,
    str_chars, string_from_chars, compare_strings, owned, strings_equal, is_digit, digit_char,
    digit_value, all_digits, digits_value, lemma_first_index_unique, lemma_first_index_none,
};

verus! {

/// Semantic version `major.minor.patch[-pre_release][+build]`.
#[derive(Debug, Clone, PartialEq, Eq, PartialOrd, Ord)]
pub struct SemanticVersion {
    /// Major version
    pub major: u32,
    /// Minor version
    pub minor: u32,
    /// Patch version
    pub patch: u32,
    /// Pre-release identifier
    pub pre_release: Option<String>,
    /// Build metadata
    pub build: Option<String>,
}

/// The mathematical content of a `SemanticVersion`.
pub struct VersionModel {
    pub major: u32,
    pub minor: u32,
    pub patch: u32,
    pub pre_release: Option<Seq<char>>,
    pub build: Option<Seq<char>>,
}

/// The character view of an optional string.
pub open spec fn opt_view(o: Option<String>) -> Option<Seq<char>> {
    match o {
        Some(s) => Some(s@),
        None => None,
    }
}

impl View for SemanticVersion {
    type V = VersionModel;

    open spec fn view(&self) -> VersionModel {
        VersionModel {
            major: self.major,
            minor: self.minor,
            patch: self.patch,
            pre_release: opt_view(self.pre_release),
            build: opt_view(self.build),
        }
    }
}

/// API version (a plain integer).
pub type ApiVersion = u32;

/// Order of two numbers.
pub open spec fn num_order(a: u32, b: u32) -> Order {
    if a < b {
        Order::Less
    } else if a > b {
        Order::Greater
    } else {
        Order::Equal
    }
}

/// Order of optional strings: absent sorts first, present ones compare
/// lexicographically.
pub open spec fn opt_order(a: Option<Seq<char>>, b: Option<Seq<char>>) -> Order {
    match (a, b) {
        (None, None) => Order::Equal,
        (None, Some(_)) => Order::Less,
        (Some(_), None) => Order::Greater,
        (Some(x), Some(y)) => seq_order(x, y),
    }
}

/// Order of versions: field by field, major first, as the derived `Ord`
/// of `SemanticVersion` compares them.
pub open spec fn version_order(a: VersionModel, b: VersionModel) -> Order {
    if num_order(a.major, b.major) != Order::Equal {
        num_order(a.major, b.major)
    } else if num_order(a.minor, b.minor) != Order::Equal {
        num_order(a.minor, b.minor)
    } else if num_order(a.patch, b.patch) != Order::Equal {
        num_order(a.patch, b.patch)
    } else if opt_order(a.pre_release, b.pre_release) != Order::Equal {
        opt_order(a.pre_release, b.pre_release)
    } else {
        opt_order(a.build, b.build)
    }
}

/// `a` is no later than `b`.
pub open spec fn version_le(a: VersionModel, b: VersionModel) -> bool {
    version_order(a, b) != Order::Greater
}

/// `a` is strictly earlier than `b`.
pub open spec fn version_lt(a: VersionModel, b: VersionModel) -> bool {
    version_order(a, b) == Order::Less
}

/// A digit's character has that digit's value.
proof fn lemma_digit_char_value(d: nat)
    requires
        d < 10,
    ensures
        is_digit(digit_char(d)),
        digit_value(digit_char(d)) == d,
{
    assert('0' as u32 == 48 && '1' as u32 == 49 && '2' as u32 == 50 && '3' as u32 == 51 && '4' as u32 == 52);
    assert('5' as u32 == 53 && '6' as u32 == 54 && '7' as u32 == 55 && '8' as u32 == 56 && '9' as u32 == 57);
}

/// The decimal text of `n` is a nonempty run of digits worth `n`.
proof fn lemma_decimal_value(n: nat)
    ensures
        decimal(n).len() >= 1,
        all_digits(decimal(n)),
        digits_value(decimal(n)) == n,
    decreases n,
{
    if n < 10 {
        lemma_digit_char_value(n);
        assert(decimal(n).drop_last() =~= Seq::<char>::empty());
        assert(digits_value(decimal(n)) == digits_value(decimal(n).drop_last()) * 10 + digit_value(decimal(n).last()));
        assert(digits_value(Seq::<char>::empty()) == 0);
    } else {
        lemma_decimal_value(n / 10);
        lemma_digit_char_value(n % 10);
        let d = decimal(n);
        assert(d.drop_last() =~= decimal(n / 10));
        assert(d.last() == digit_char(n % 10));
        assert(digits_value(d) == digits_value(d.drop_last()) * 10 + digit_value(d.last()));
        assert((n / 10) * 10 + n % 10 == n);
        assert forall|i: int| 0 <= i < d.len() implies is_digit(#[trigger] d[i]) by {
            if i < d.len() - 1 {
                assert(d[i] == decimal(n / 10)[i]);
            }
        }
    }
}

/// A run of digits holds no other character.
proof fn lemma_digits_lack(s: Seq<char>, c: char)
    requires
        all_digits(s),
        !is_digit(c),
    ensures
        !s.contains(c),
        forall|j: int| 0 <= j < s.len() ==> s[j] != c,
{
    assert forall|j: int| 0 <= j < s.len() implies s[j] != c by {
        assert(is_digit(s[j]));
    }
}

/// A text without the separator is a single piece.
proof fn lemma_split_single(b: Seq<char>, sep: char)
    requires
        forall|j: int| 0 <= j < b.len() ==> b[j] != sep,
    ensures
        split_char(b, sep) == seq![b],
    decreases b.len(),
{
    if b.len() > 0 {
        lemma_split_single(b.drop_last(), sep);
        assert(b.drop_last().push(b.last()) =~= b);
    } else {
        assert(b =~= Seq::<char>::empty());
    }
}

/// Splitting `a`, the separator and a piece `b` without it gives the pieces
/// of `a` and then `b`.
proof fn lemma_split_append(a: Seq<char>, b: Seq<char>, sep: char)
    requires
        forall|j: int| 0 <= j < b.len() ==> b[j] != sep,
    ensures
        split_char(a + seq![sep] + b, sep) == split_char(a, sep).push(b),
    decreases b.len(),
{
    let s = a + seq![sep] + b;
    if b.len() == 0 {
        assert(s.drop_last() =~= a);
        assert(b =~= Seq::<char>::empty());
    } else {
        lemma_split_append(a, b.drop_last(), sep);
        assert(s.drop_last() =~= a + seq![sep] + b.drop_last());
        assert(s.last() == b.last());
        assert(b.drop_last().push(b.last()) =~= b);
        let prev = split_char(a, sep).push(b.drop_last());
        assert(prev.update(prev.len() - 1, prev.last().push(b.last())) =~= split_char(a, sep).push(b));
    }
}

/// The first `c` in `a`, `c` and `b` is the one after `a`, where `a`
/// holds none.
proof fn lemma_first_after(a: Seq<char>, b: Seq<char>, c: char)
    requires
        forall|j: int| 0 <= j < a.len() ==> a[j] != c,
    ensures
        first_index_of(a + seq![c] + b, c) == Some(a.len() as int),
        (a + seq![c] + b).skip(a.len() + 1int) == b,
{
    let s = a + seq![c] + b;
    assert forall|j: int| 0 <= j < a.len() implies s[j] != c by {
        assert(s[j] == a[j]);
    }
    lemma_first_index_unique(s, c, a.len() as int);
    assert(s.skip(a.len() + 1int) =~= b);
}

/// Splitting `x`, the separator and `y`, where `x` holds no separator,
/// gives `x` and then the pieces of `y`.
proof fn lemma_split_prefix(x: Seq<char>, y: Seq<char>, sep: char)
    requires
        forall|j: int| 0 <= j < x.len() ==> x[j] != sep,
    ensures
        split_char(x + seq![sep] + y, sep) == seq![x] + split_char(y, sep),
    decreases y.len(),
{
    let s = x + seq![sep] + y;
    lemma_split_single(x, sep);
    if y.len() == 0 {
        assert(s.drop_last() =~= x);
        assert(y =~= Seq::<char>::empty());
        assert(split_char(s, sep) =~= seq![x] + split_char(y, sep));
    } else {
        let y1 = y.drop_last();
        lemma_split_prefix(x, y1, sep);
        lemma_split_char_nonempty(y1, sep);
        assert(s.drop_last() =~= x + seq![sep] + y1);
        assert(s.last() == y.last());
        let prev = seq![x] + split_char(y1, sep);
        if y.last() == sep {
            assert(split_char(s, sep) =~= seq![x] + split_char(y, sep));
        } else {
            let q = split_char(y1, sep);
            assert(prev.update(prev.len() - 1, prev.last().push(y.last())) =~= seq![x] + q.update(
                q.len() - 1,
                q.last().push(y.last()),
            ));
        }
    }
}

/// A text holding the separator splits into at least two pieces.
proof fn lemma_split_two(s: Seq<char>, sep: char, i: int)
    requires
        0 <= i < s.len(),
        s[i] == sep,
    ensures
        split_char(s, sep).len() >= 2,
    decreases s.len(),
{
    lemma_split_char_nonempty(s.drop_last(), sep);
    if i < s.len() - 1 {
        lemma_split_two(s.drop_last(), sep, i);
    }
}

/// The first piece of a split is the text before the first separator.
proof fn lemma_split_first(s: Seq<char>, sep: char)
    ensures
        split_char(s, sep)[0] == prefix_before(s, sep),
    decreases s.len(),
{
    if s.len() > 0 {
        let s1 = s.drop_last();
        lemma_split_first(s1, sep);
        lemma_first_index_of(s1, sep);
        lemma_split_char_nonempty(s1, sep);
        match first_index_of(s1, sep) {
            Some(i) => {
                lemma_split_two(s1, sep, i);
                assert forall|j: int| 0 <= j < i implies s[j] != sep by {
                    assert(s[j] == s1[j]);
                }
                assert(s[i] == s1[i]);
                lemma_first_index_unique(s, sep, i);
                assert(s.take(i) =~= s1.take(i));
            },
            None => {
                assert forall|j: int| 0 <= j < s1.len() implies s1[j] != sep by {}
                lemma_split_single(s1, sep);
                if s.last() == sep {
                    assert forall|j: int| 0 <= j < s1.len() implies s[j] != sep by {
                        assert(s[j] == s1[j]);
                    }
                    lemma_first_index_unique(s, sep, s1.len() as int);
                    assert(s.take(s1.len() as int) =~= s1);
                } else {
                    assert forall|j: int| 0 <= j < s.len() implies s[j] != sep by {
                        if j < s1.len() {
                            assert(s[j] == s1[j]);
                        }
                    }
                    lemma_first_index_none(s, sep);
                    assert(s1.push(s.last()) =~= s);
                }
            },
        }
    }
}

/// The dot-separated parts of `a.b.c-p`: `a`, `b`, and then a part whose
/// text before its first hyphen is `c`.
proof fn lemma_rt_parts(a: Seq<char>, b: Seq<char>, c: Seq<char>, p: Seq<char>)
    requires
        forall|j: int| 0 <= j < a.len() ==> a[j] != '.' && a[j] != '-' && a[j] != '+',
        forall|j: int| 0 <= j < b.len() ==> b[j] != '.' && b[j] != '-' && b[j] != '+',
        forall|j: int| 0 <= j < c.len() ==> c[j] != '.' && c[j] != '-' && c[j] != '+',
    ensures
        ({
            let parts = split_char(a + seq!['.'] + b + seq!['.'] + (c + seq!['-'] + p), '.');
            &&& parts.len() > 2
            &&& parts[0] == a
            &&& parts[1] == b
            &&& split_char(parts[2], '-')[0] == c
        }),
{
    let w = c + seq!['-'] + p;
    let t = a + seq!['.'] + b + seq!['.'] + w;
    assert(t =~= a + seq!['.'] + (b + seq!['.'] + w));
    lemma_split_prefix(a, b + seq!['.'] + w, '.');
    lemma_split_prefix(b, w, '.');
    lemma_split_char_nonempty(w, '.');
    let parts = split_char(t, '.');
    assert(parts =~= seq![a] + (seq![b] + split_char(w, '.')));
    lemma_split_first(w, '.');
    assert forall|j: int| 0 <= j <= c.len() implies w[j] != '.' by {
        if j < c.len() {
            assert(w[j] == c[j]);
        }
    }
    lemma_first_index_of(w, '.');
    let u = prefix_before(w, '.');
    assert(u.len() > c.len());
    assert(u =~= c + seq!['-'] + u.skip(c.len() + 1int));
    lemma_split_prefix(c, u.skip(c.len() + 1int), '-');
}

/// The pre-release text of `a.b.c-p` is `p`.
proof fn lemma_rt_pre(a: Seq<char>, b: Seq<char>, c: Seq<char>, p: Seq<char>)
    requires
        forall|j: int| 0 <= j < a.len() ==> a[j] != '.' && a[j] != '-' && a[j] != '+',
        forall|j: int| 0 <= j < b.len() ==> b[j] != '.' && b[j] != '-' && b[j] != '+',
        forall|j: int| 0 <= j < c.len() ==> c[j] != '.' && c[j] != '-' && c[j] != '+',
    ensures
        pre_release_of(a + seq!['.'] + b + seq!['.'] + (c + seq!['-'] + p)) == Some(p),
{
    let w = c + seq!['-'] + p;
    let t = a + seq!['.'] + b + seq!['.'] + w;
    assert(t =~= a + seq!['.'] + (b + seq!['.'] + w));
    lemma_first_after(a, b + seq!['.'] + w, '.');
    lemma_first_after(b, w, '.');
    assert forall|j: int| 0 <= j <= c.len() implies w[j] != '.' by {
        if j < c.len() {
            assert(w[j] == c[j]);
        }
    }
    lemma_first_index_of(w, '.');
    let u = prefix_before(w, '.');
    assert(u.len() > c.len() && forall|j: int| 0 <= j < u.len() ==> u[j] == w[j]);
    assert forall|j: int| 0 <= j < c.len() implies u[j] != '-' by {
        assert(u[j] == w[j] && w[j] == c[j]);
    }
    assert(u[c.len() as int] == '-');
    lemma_first_index_unique(u, '-', c.len() as int);
    assert(w.skip(c.len() + 1int) =~= p);
}

/// `a.b.c-p` holds no `+` where none of its pieces does.
proof fn lemma_rt_no_plus(a: Seq<char>, b: Seq<char>, c: Seq<char>, p: Seq<char>)
    requires
        forall|j: int| 0 <= j < a.len() ==> a[j] != '+',
        forall|j: int| 0 <= j < b.len() ==> b[j] != '+',
        forall|j: int| 0 <= j < c.len() ==> c[j] != '+',
        forall|j: int| 0 <= j < p.len() ==> p[j] != '+',
    ensures
        build_of(a + seq!['.'] + b + seq!['.'] + (c + seq!['-'] + p)) is None,
{
    let t = a + seq!['.'] + b + seq!['.'] + (c + seq!['-'] + p);
    assert forall|j: int| 0 <= j < t.len() implies t[j] != '+' by {
        if j < a.len() {
            assert(t[j] == a[j]);
        } else if j == a.len() {
        } else if j < a.len() + 1 + b.len() {
            assert(t[j] == b[j - a.len() - 1]);
        } else if j == a.len() + 1 + b.len() {
        } else if j < a.len() + 2 + b.len() + c.len() {
            assert(t[j] == c[j - a.len() - 2 - b.len()]);
        } else if j == a.len() + 2 + b.len() + c.len() {
        } else {
            assert(t[j] == p[j - a.len() - 3 - b.len() - c.len()]);
        }
    }
    lemma_split_single(t, '+');
}

/// Printing a version with pre-release text that holds no `+`, and no
/// build text, and parsing the text gives the version back.
proof fn lemma_round_trip_pre_release(v: VersionModel, p: Seq<char>)
    requires
        v.pre_release == Some(p),
        v.build is None,
        forall|j: int| 0 <= j < p.len() ==> p[j] != '+',
    ensures
        parse_version_spec(version_text(v)) == Ok::<VersionModel, VersionParseError>(v),
{
    let a = decimal(v.major as nat);
    let b = decimal(v.minor as nat);
    let c = decimal(v.patch as nat);
    lemma_decimal_value(v.major as nat);
    lemma_decimal_value(v.minor as nat);
    lemma_decimal_value(v.patch as nat);
    for_each_digit_lacks(a, b, c);
    let t = version_text(v);
    assert(t =~= a + seq!['.'] + b + seq!['.'] + (c + seq!['-'] + p));
    assert(t[0] == a[0] && is_digit(a[0]));
    assert(strip_leading_v(t) == t);
    lemma_rt_parts(a, b, c, p);
    lemma_rt_pre(a, b, c, p);
    lemma_rt_no_plus(a, b, c, p);
    assert(is_digit(a[0]) && is_digit(b[0]) && is_digit(c[0]));
}

/// Printing a version without build text, whose pre-release text (if any)
/// holds no `+`, and parsing the text gives the version back.
pub proof fn law_version_text_round_trip(v: VersionModel)
    requires
        v.build is None,
        v.pre_release matches Some(p) ==> forall|j: int| 0 <= j < p.len() ==> p[j] != '+',
    ensures
        parse_version_spec(version_text(v)) == Ok::<VersionModel, VersionParseError>(v),
{
    match v.pre_release {
        Some(p) => lemma_round_trip_pre_release(v, p),
        None => lemma_round_trip_plain(v),
    }
}

/// Printing a version without pre-release or build text and parsing the
/// text gives the version back.
proof fn lemma_round_trip_plain(v: VersionModel)
    requires
        v.pre_release is None,
        v.build is None,
    ensures
        parse_version_spec(version_text(v)) == Ok::<VersionModel, VersionParseError>(v),
{
    let a = decimal(v.major as nat);
    let b = decimal(v.minor as nat);
    let c = decimal(v.patch as nat);
    lemma_decimal_value(v.major as nat);
    lemma_decimal_value(v.minor as nat);
    lemma_decimal_value(v.patch as nat);
    let t = version_text(v);
    assert(t == a + seq!['.'] + b + seq!['.'] + c);
    for_each_digit_lacks(a, b, c);
    // No leading `v`.
    assert(t[0] == a[0]);
    assert(is_digit(a[0]));
    assert(strip_leading_v(t) == t);
    // The dot-separated parts are the three numbers.
    let ab = a + seq!['.'] + b;
    lemma_split_single(a, '.');
    lemma_split_append(a, b, '.');
    lemma_split_append(ab, c, '.');
    assert(t =~= ab + seq!['.'] + c);
    let parts = split_char(t, '.');
    assert(parts == seq![a, b, c]);
    assert(a[0] != '+' && b[0] != '+' && c[0] != '+') by {
        assert(is_digit(a[0]) && is_digit(b[0]) && is_digit(c[0]));
    }
    assert(parse_u32_spec(a) == Some(v.major));
    assert(parse_u32_spec(b) == Some(v.minor));
    lemma_split_single(c, '-');
    assert(split_char(c, '-')[0] == c);
    assert(parse_u32_spec(c) == Some(v.patch));
    // No pre-release text: the patch number holds no hyphen.
    lemma_first_after(a, b + seq!['.'] + c, '.');
    assert(t =~= a + seq!['.'] + (b + seq!['.'] + c));
    let t1 = b + seq!['.'] + c;
    lemma_first_after(b, c, '.');
    lemma_first_index_none(c, '.');
    assert(prefix_before(c, '.') == c);
    lemma_first_index_none(c, '-');
    assert(pre_release_of(t) is None);
    // No build text: the text holds no `+`.
    assert forall|j: int| 0 <= j < t.len() implies t[j] != '+' by {
        if j < a.len() {
            assert(t[j] == a[j]);
        } else if j == a.len() {
        } else if j < a.len() + 1 + b.len() {
            assert(t[j] == b[j - a.len() - 1]);
        } else if j == a.len() + 1 + b.len() {
        } else {
            assert(t[j] == c[j - a.len() - 2 - b.len()]);
        }
    }
    lemma_split_single(t, '+');
    assert(build_of(t) is None);
}

/// The digits of three numbers hold no `.`, `-` or `+`.
proof fn for_each_digit_lacks(a: Seq<char>, b: Seq<char>, c: Seq<char>)
    requires
        all_digits(a),
        all_digits(b),
        all_digits(c),
    ensures
        forall|j: int| 0 <= j < a.len() ==> a[j] != '.' && a[j] != '-' && a[j] != '+',
        forall|j: int| 0 <= j < b.len() ==> b[j] != '.' && b[j] != '-' && b[j] != '+',
        forall|j: int| 0 <= j < c.len() ==> c[j] != '.' && c[j] != '-' && c[j] != '+',
{
    lemma_digits_lack(a, '.');
    lemma_digits_lack(a, '-');
    lemma_digits_lack(a, '+');
    lemma_digits_lack(b, '.');
    lemma_digits_lack(b, '-');
    lemma_digits_lack(b, '+');
    lemma_digits_lack(c, '.');
    lemma_digits_lack(c, '-');
    lemma_digits_lack(c, '+');
}

/// Versions compare `Equal` exactly when their contents are equal.
pub proof fn lemma_version_order_equal(a: VersionModel, b: VersionModel)
    ensures
        (version_order(a, b) == Order::Equal) <==> (a == b),
{
    if let (Some(x), Some(y)) = (a.pre_release, b.pre_release) {
        lemma_seq_order_equal(x, y);
    }
    if let (Some(x), Some(y)) = (a.build, b.build) {
        lemma_seq_order_equal(x, y);
    }
}

/// Swapping versions reverses their order.
pub proof fn lemma_version_order_antisym(a: VersionModel, b: VersionModel)
    ensures
        version_order(a, b) == Order::Less <==> version_order(b, a) == Order::Greater,
        version_order(a, b) == Order::Equal <==> version_order(b, a) == Order::Equal,
{
    if let (Some(x), Some(y)) = (a.pre_release, b.pre_release) {
        lemma_seq_order_antisym(x, y);
    }
    if let (Some(x), Some(y)) = (a.build, b.build) {
        lemma_seq_order_antisym(x, y);
    }
}

/// The version order is transitive.
pub proof fn lemma_version_order_trans(a: VersionModel, b: VersionModel, c: VersionModel)
    requires
        version_le(a, b),
        version_le(b, c),
    ensures
        version_le(a, c),
        version_lt(a, b) ==> version_lt(a, c),
        version_lt(b, c) ==> version_lt(a, c),
{
    if let (Some(x), Some(y), Some(z)) = (a.pre_release, b.pre_release, c.pre_release) {
        if seq_le(x, y) && seq_le(y, z) {
            lemma_seq_order_trans(x, y, z);
        }
    }
    if let (Some(x), Some(y), Some(z)) = (a.build, b.build, c.build) {
        if seq_le(x, y) && seq_le(y, z) {
            lemma_seq_order_trans(x, y, z);
        }
    }
}

/// Errors from parsing a version string.
#[derive(Debug, Clone, Copy, PartialEq, Eq, Structural)]
pub enum VersionParseError {
    /// The major component is not a `u32`.
    InvalidMajor,
    /// The minor component is not a `u32`.
    InvalidMinor,
    /// The patch component is not a `u32`.
    InvalidPatch,
}

/// `s` with every leading `v` removed.
pub open spec fn strip_leading_v(s: Seq<char>) -> Seq<char>
    decreases s.len(),
{
    if s.len() > 0 && s[0] == 'v' {
        strip_leading_v(s.drop_first())
    } else {
        s
    }
}

/// The text before the first occurrence of `c` (all of `s` if none).
pub open spec fn prefix_before(s: Seq<char>, c: char) -> Seq<char> {
    match first_index_of(s, c) {
        Some(i) => s.take(i),
        None => s,
    }
}

/// The pre-release text of a version string whose leading `v`s are
/// already stripped: when the third dot-separated component holds a
/// hyphen, everything after that hyphen up to the end of the text.
pub open spec fn pre_release_of(s: Seq<char>) -> Option<Seq<char>> {
    match first_index_of(s, '.') {
        None => None,
        Some(d1) => {
            let t1 = s.skip(d1 + 1);
            match first_index_of(t1, '.') {
                None => None,
                Some(d2) => {
                    let t2 = t1.skip(d2 + 1);
                    match first_index_of(prefix_before(t2, '.'), '-') {
                        Some(h) => Some(t2.skip(h + 1)),
                        None => None,
                    }
                },
            }
        },
    }
}

/// The build text of a version string: the piece between the first and
/// the second `+`, when there is a `+`.
pub open spec fn build_of(s: Seq<char>) -> Option<Seq<char>> {
    let pieces = split_char(s, '+');
    if pieces.len() > 1 {
        Some(pieces[1])
    } else {
        None
    }
}

/// What `SemanticVersion::parse` makes of `input`.
pub open spec fn parse_version_spec(input: Seq<char>) -> Result<VersionModel, VersionParseError> {
    let s = strip_leading_v(input);
    let parts = split_char(s, '.');
    let major = parse_u32_spec(parts[0]);
    let minor = if parts.len() > 1 {
        parse_u32_spec(parts[1])
    } else {
        Some(0u32)
    };
    let patch = if parts.len() > 2 {
        parse_u32_spec(split_char(parts[2], '-')[0])
    } else {
        Some(0u32)
    };
    if major is None {
        Err(VersionParseError::InvalidMajor)
    } else if minor is None {
        Err(VersionParseError::InvalidMinor)
    } else if patch is None {
        Err(VersionParseError::InvalidPatch)
    } else {
        Ok(
            VersionModel {
                major: major->0,
                minor: minor->0,
                patch: patch->0,
                pre_release: pre_release_of(s),
                build: build_of(s),
            },
        )
    }
}

/// The text `SemanticVersion::to_string` produces.
pub open spec fn version_text(v: VersionModel) -> Seq<char> {
    let core = decimal(v.major as nat) + seq!['.'] + decimal(v.minor as nat) + seq!['.'] + decimal(
        v.patch as nat,
    );
    let with_pre = match v.pre_release {
        Some(p) => core + seq!['-'] + p,
        None => core,
    };
    match v.build {
        Some(b) => with_pre + seq!['+'] + b,
        None => with_pre,
    }
}

fn strip_v(s: &[char]) -> (r: Vec<char>)
    ensures
        r@ == strip_leading_v(s@),
{
    let mut i: usize = 0;
    assert(s@.skip(0) =~= s@);
    while i < s.len() && s[i] == 'v'
        invariant
            i <= s@.len(),
            strip_leading_v(s@) == strip_leading_v(s@.skip(i as int)),
        decreases s.len() - i,
    {
        assert(s@.skip(i as int).drop_first() =~= s@.skip(i + 1));
        i = i + 1;
    }
    let mut r: Vec<char> = Vec::new();
    let mut j: usize = i;
    while j < s.len()
        invariant
            i <= j <= s@.len(),
            r@ == s@.subrange(i as int, j as int),
        decreases s.len() - j,
    {
        r.push(s[j]);
        assert(s@.subrange(i as int, j + 1) =~= s@.subrange(i as int, j as int).push(s@[j as int]));
        j = j + 1;
    }
    assert(s@.subrange(i as int, s@.len() as int) =~= s@.skip(i as int));
    r
}

fn copy_from(s: &[char], start: usize) -> (r: Vec<char>)
    requires
        start <= s@.len(),
    ensures
        r@ == s@.skip(start as int),
{
    let mut r: Vec<char> = Vec::new();
    let mut j: usize = start;
    while j < s.len()
        invariant
            start <= j <= s@.len(),
            r@ == s@.subrange(start as int, j as int),
        decreases s.len() - j,
    {
        r.push(s[j]);
        assert(s@.subrange(start as int, j + 1) =~= s@.subrange(start as int, j as int).push(
            s@[j as int],
        ));
        j = j + 1;
    }
    assert(s@.subrange(start as int, s@.len() as int) =~= s@.skip(start as int));
    r
}

fn copy_prefix(s: &[char], end: usize) -> (r: Vec<char>)
    requires
        end <= s@.len(),
    ensures
        r@ == s@.take(end as int),
{
    let mut r: Vec<char> = Vec::new();
    let mut j: usize = 0;
    while j < end
        invariant
            j <= end <= s@.len(),
            r@ == s@.take(j as int),
        decreases end - j,
    {
        r.push(s[j]);
        assert(s@.take(j + 1) =~= s@.take(j as int).push(s@[j as int]));
        j = j + 1;
    }
    r
}

fn pre_release_text(s: &[char]) -> (r: Option<String>)
    ensures
        opt_view(r) == pre_release_of(s@),
{
    proof {
        lemma_first_index_of(s@, '.');
    }
    let d1 = match find_char(s, '.') {
        Some(d) => d,
        None => {
            return None;
        },
    };
    let n: usize = s.len();
    assert(d1 < n);
    let t1 = copy_from(s, d1 + 1);
    proof {
        lemma_first_index_of(t1@, '.');
    }
    let d2 = match find_char(t1.as_slice(), '.') {
        Some(d) => d,
        None => {
            return None;
        },
    };
    let t2 = copy_from(t1.as_slice(), d2 + 1);
    proof {
        lemma_first_index_of(t2@, '.');
    }
    let third = match find_char(t2.as_slice(), '.') {
        Some(d) => copy_prefix(t2.as_slice(), d),
        None => copy_from(t2.as_slice(), 0),
    };
    assert(t2@.skip(0) =~= t2@);
    assert(third@ == prefix_before(t2@, '.'));
    proof {
        lemma_first_index_of(third@, '-');
    }
    match find_char(third.as_slice(), '-') {
        Some(h) => {
            let rest = copy_from(t2.as_slice(), h + 1);
            Some(string_from_chars(rest.as_slice()))
        },
        None => None,
    }
}

impl SemanticVersion {
    /// Parses a version string such as `v1.2.3-beta.1`.
    ///
    /// Leading `v`s are ignored; missing minor and patch components
    /// default to zero.
    pub fn parse(version: &str) -> (r: Result<SemanticVersion, VersionParseError>)
        ensures
            r matches Ok(v) ==> parse_version_spec(version@) == Ok::<
                VersionModel,
                VersionParseError,
            >(v@),
            r matches Err(e) ==> parse_version_spec(version@) == Err::<
                VersionModel,
                VersionParseError,
            >(e),
    {
        let all = str_chars(version);
        let s = strip_v(all.as_slice());
        let ghost sv = s@;
        let parts = split_chars(s.as_slice(), '.');
        proof {
            lemma_split_char_nonempty(sv, '.');
        }
        let major = match parse_u32(parts[0].as_slice()) {
            Some(m) => m,
            None => {
                return Err(VersionParseError::InvalidMajor);
            },
        };
        let minor: u32 = if parts.len() > 1 {
            match parse_u32(parts[1].as_slice()) {
                Some(m) => m,
                None => {
                    return Err(VersionParseError::InvalidMinor);
                },
            }
        } else {
            0
        };
        let patch: u32 = if parts.len() > 2 {
            let sub = split_chars(parts[2].as_slice(), '-');
            proof {
                lemma_split_char_nonempty(parts@[2]@, '-');
            }
            let p = match parse_u32(sub[0].as_slice()) {
                Some(p) => p,
                None => {
                    return Err(VersionParseError::InvalidPatch);
                },
            };
            p
        } else {
            0
        };
        let pre_release = pre_release_text(s.as_slice());
        let plus = split_chars(s.as_slice(), '+');
        let build: Option<String> = if plus.len() > 1 {
            Some(string_from_chars(plus[1].as_slice()))
        } else {
            None
        };
        let v = SemanticVersion { major, minor, patch, pre_release, build };
        Ok(v)
    }

    /// Creates a version with no pre-release or build part.
    pub fn new(major: u32, minor: u32, patch: u32) -> (r: SemanticVersion)
        ensures
            r@ == (VersionModel { major, minor, patch, pre_release: None, build: None }),
    {
        SemanticVersion { major, minor, patch, pre_release: None, build: None }
    }

    /// A field-by-field copy.
    pub fn duplicate(&self) -> (r: SemanticVersion)
        ensures
            r@ == self@,
    {
        let pre_release = match &self.pre_release {
            Some(p) => Some(p.clone()),
            None => None,
        };
        let build = match &self.build {
            Some(b) => Some(b.clone()),
            None => None,
        };
        SemanticVersion { major: self.major, minor: self.minor, patch: self.patch, pre_release, build }
    }

    /// Renders the version as `major.minor.patch[-pre][+build]`.
    pub fn to_string(&self) -> (s: String)
        ensures
            s@ == version_text(self@),
    {
        let mut out: Vec<char> = Vec::new();
        push_decimal(&mut out, self.major);
        out.push('.');
        push_decimal(&mut out, self.minor);
        out.push('.');
        push_decimal(&mut out, self.patch);
        let ghost core = out@;
        if let Some(pre) = &self.pre_release {
            out.push('-');
            let pc = str_chars(pre.as_str());
            push_all(&mut out, pc.as_slice());
        }
        if let Some(b) = &self.build {
            out.push('+');
            let bc = str_chars(b.as_str());
            push_all(&mut out, bc.as_slice());
        }
        let r = string_from_chars(out.as_slice());
        assert(r@ =~= version_text(self@));
        r
    }

    /// Whether this is a pre-release version.
    pub fn is_prerelease(&self) -> (r: bool)
        ensures
            r == (self.pre_release is Some),
    {
        self.pre_release.is_some()
    }

    /// Whether both versions share the same major version.
    pub fn is_compatible_with(&self, other: &SemanticVersion) -> (r: bool)
        ensures
            r == (self.major == other.major),
    {
        self.major == other.major
    }

    /// The first version of the next major release.
    pub fn next_major(&self) -> (r: SemanticVersion)
        requires
            self.major < u32::MAX,
        ensures
            r@ == (VersionModel {
                major: (self.major + 1) as u32,
                minor: 0,
                patch: 0,
                pre_release: None,
                build: None,
            }),
    {
        SemanticVersion::new(self.major + 1, 0, 0)
    }

    /// The first version of the next minor release.
    pub fn next_minor(&self) -> (r: SemanticVersion)
        requires
            self.minor < u32::MAX,
        ensures
            r@ == (VersionModel {
                major: self.major,
                minor: (self.minor + 1) as u32,
                patch: 0,
                pre_release: None,
                build: None,
            }),
    {
        SemanticVersion::new(self.major, self.minor + 1, 0)
    }

    /// The next patch release.
    pub fn next_patch(&self) -> (r: SemanticVersion)
        requires
            self.patch < u32::MAX,
        ensures
            r@ == (VersionModel {
                major: self.major,
                minor: self.minor,
                patch: (self.patch + 1) as u32,
                pre_release: None,
                build: None,
            }),
    {
        SemanticVersion::new(self.major, self.minor, self.patch + 1)
    }

    /// Three-way comparison in the order the derived `Ord` uses.
    pub fn compare(&self, other: &SemanticVersion) -> (r: Order)
        ensures
            r == version_order(self@, other@),
    {
        if self.major < other.major {
            return Order::Less;
        }
        if self.major > other.major {
            return Order::Greater;
        }
        if self.minor < other.minor {
            return Order::Less;
        }
        if self.minor > other.minor {
            return Order::Greater;
        }
        if self.patch < other.patch {
            return Order::Less;
        }
        if self.patch > other.patch {
            return Order::Greater;
        }
        let p = compare_optional(&self.pre_release, &other.pre_release);
        if p != Order::Equal {
            return p;
        }
        compare_optional(&self.build, &other.build)
    }
}

fn compare_optional(a: &Option<String>, b: &Option<String>) -> (r: Order)
    ensures
        r == opt_order(opt_view(*a), opt_view(*b)),
{
    match (a, b) {
        (None, None) => Order::Equal,
        (None, Some(_)) => Order::Less,
        (Some(_), None) => Order::Greater,
        (Some(x), Some(y)) => compare_strings(x, y),
    }
}


/// Compatibility level
#[derive(Debug, Clone, Copy, PartialEq, Eq, Structural)]
pub enum CompatibilityLevel {
    /// Fully compatible - no issues expected
    Full,
    /// Partially compatible - some features may not work
    Partial,
    /// Deprecated - will be removed in future version
    Deprecated,
    /// Breaking changes - migration required
    Breaking,
    /// Incompatible - cannot be used together
    Incompatible,
}

/// Breaking change severity
#[derive(Debug, Clone, Copy, PartialEq, Eq, Structural)]
pub enum BreakingChangeSeverity {
    /// Low impact - easy to fix
    Low,
    /// Medium impact - requires code changes
    Medium,
    /// High impact - significant refactoring needed
    High,
    /// Critical - complete rewrite may be needed
    Critical,
}

/// Version range: `min` inclusive, `max` exclusive when present.
#[derive(Debug, Clone)]
pub struct VersionRange {
    /// Minimum version (inclusive)
    pub min: SemanticVersion,
    /// Maximum version (exclusive)
    pub max: Option<SemanticVersion>,
}

/// Breaking change description
#[derive(Debug, Clone)]
pub struct BreakingChange {
    /// Change ID
    pub id: String,
    /// Change description
    pub description: String,
    /// Affected functionality
    pub affected_areas: Vec<String>,
    /// Migration guide URL
    pub migration_guide: Option<String>,
    /// Severity level
    pub severity: BreakingChangeSeverity,
}

/// Deprecation notice
#[derive(Debug, Clone)]
pub struct Deprecation {
    /// Deprecated feature
    pub feature: String,
    /// Version when deprecated
    pub deprecated_in: SemanticVersion,
    /// Version when it will be removed
    pub removal_version: SemanticVersion,
    /// Replacement feature
    pub replacement: Option<String>,
    /// Additional message
    pub message: String,
}

/// Compatibility info for a plugin version
#[derive(Debug, Clone)]
pub struct CompatibilityInfo {
    /// Plugin ID
    pub plugin_id: String,
    /// Plugin version
    pub version: SemanticVersion,
    /// Minimum API version required
    pub min_api_version: ApiVersion,
    /// Maximum API version supported
    pub max_api_version: ApiVersion,
    /// Compatibility matrix with other plugins
    pub plugin_compatibility: HashMap<String, VersionRange>,
    /// Breaking changes from previous versions
    pub breaking_changes: Vec<BreakingChange>,
    /// Deprecation warnings
    pub deprecations: Vec<Deprecation>,
    /// Migration notes
    pub migration_notes: Option<String>,
}

impl VersionRange {
    /// Creates a version range.
    pub fn new(min: SemanticVersion, max: Option<SemanticVersion>) -> (r: VersionRange)
        ensures
            r.min == min,
            r.max == max,
    {
        VersionRange { min, max }
    }

    /// Whether `version` lies in `[min, max)`.
    pub fn contains(&self, version: &SemanticVersion) -> (r: bool)
        ensures
            r == (version_le(self.min@, version@) && match self.max {
                Some(m) => version_lt(version@, m@),
                None => true,
            }),
    {
        if version.compare(&self.min) == Order::Less {
            proof {
                lemma_version_order_antisym(version@, self.min@);
            }
            return false;
        }
        proof {
            lemma_version_order_antisym(version@, self.min@);
        }
        if let Some(max) = &self.max {
            if version.compare(max) != Order::Less {
                return false;
            }
        }
        true
    }
}

/// One entry of the plugin-to-plugin compatibility matrix.
struct MatrixEntry {
    first: String,
    second: String,
    level: CompatibilityLevel,
}

/// The level recorded last for the ordered pair `(a, b)`.
pub open spec fn matrix_lookup(
    entries: Seq<(Seq<char>, Seq<char>, CompatibilityLevel)>,
    a: Seq<char>,
    b: Seq<char>,
) -> Option<CompatibilityLevel>
    decreases entries.len(),
{
    if entries.len() == 0 {
        None
    } else if entries.last().0 == a && entries.last().1 == b {
        Some(entries.last().2)
    } else {
        matrix_lookup(entries.drop_last(), a, b)
    }
}

/// The compatibility level the API checks assign to `info`.
pub open spec fn api_level(current: u32, info: CompatibilityInfo) -> CompatibilityLevel {
    if info.min_api_version > current {
        CompatibilityLevel::Incompatible
    } else if info.max_api_version < current {
        CompatibilityLevel::Breaking
    } else if info.breaking_changes@.len() > 0 {
        if exists|i: int|
            0 <= i < info.breaking_changes@.len() && (#[trigger] info.breaking_changes@[i]).severity
                == BreakingChangeSeverity::Critical {
            CompatibilityLevel::Breaking
        } else {
            CompatibilityLevel::Partial
        }
    } else if info.deprecations@.len() > 0 {
        CompatibilityLevel::Deprecated
    } else {
        CompatibilityLevel::Full
    }
}

/// Some entry is registered for `pid`.
pub open spec fn has_plugin(db: Seq<CompatibilityInfo>, pid: Seq<char>) -> bool {
    exists|i: int| 0 <= i < db.len() && (#[trigger] db[i]).plugin_id@ == pid
}

/// Among the entries for `pid` with a version no later than `v`, the one
/// with the greatest version; of equal greatest versions, the last one
/// registered.
pub open spec fn best_match(db: Seq<CompatibilityInfo>, pid: Seq<char>, v: VersionModel) -> Option<
    int,
>
    decreases db.len(),
{
    if db.len() == 0 {
        None
    } else {
        let prev = best_match(db.drop_last(), pid, v);
        let e = db.last();
        if e.plugin_id@ == pid && version_le(e.version@, v) && match prev {
            None => true,
            Some(p) => version_le(db[p].version@, e.version@),
        } {
            Some(db.len() - 1)
        } else {
            prev
        }
    }
}

/// The level `check_version_compatibility` reports.
pub open spec fn version_compatibility(
    current: u32,
    db: Seq<CompatibilityInfo>,
    pid: Seq<char>,
    v: VersionModel,
) -> CompatibilityLevel {
    if !has_plugin(db, pid) {
        CompatibilityLevel::Full
    } else {
        match best_match(db, pid, v) {
            None => CompatibilityLevel::Incompatible,
            Some(i) => api_level(current, db[i]),
        }
    }
}

/// The entry is for `pid` with a version in `(from, to]`.
pub open spec fn in_upgrade(e: CompatibilityInfo, pid: Seq<char>, from: VersionModel, to: VersionModel) -> bool {
    e.plugin_id@ == pid && version_lt(from, e.version@) && version_le(e.version@, to)
}

/// All breaking changes of the entries in the upgrade window, in
/// registration order.
pub open spec fn changes_between(
    db: Seq<CompatibilityInfo>,
    pid: Seq<char>,
    from: VersionModel,
    to: VersionModel,
) -> Seq<BreakingChange>
    decreases db.len(),
{
    if db.len() == 0 {
        Seq::empty()
    } else {
        changes_between(db.drop_last(), pid, from, to) + if in_upgrade(db.last(), pid, from, to) {
            db.last().breaking_changes@
        } else {
            Seq::empty()
        }
    }
}

/// All deprecations of the entries for `pid` at exactly version `v`, in
/// registration order.
pub open spec fn deprecations_at(db: Seq<CompatibilityInfo>, pid: Seq<char>, v: VersionModel) -> Seq<
    Deprecation,
>
    decreases db.len(),
{
    if db.len() == 0 {
        Seq::empty()
    } else {
        deprecations_at(db.drop_last(), pid, v) + if db.last().plugin_id@ == pid
            && db.last().version@ == v {
            db.last().deprecations@
        } else {
            Seq::empty()
        }
    }
}

/// The first migration note among the entries in the upgrade window.
pub open spec fn first_note(
    db: Seq<CompatibilityInfo>,
    pid: Seq<char>,
    from: VersionModel,
    to: VersionModel,
) -> Option<Seq<char>>
    decreases db.len(),
{
    if db.len() == 0 {
        None
    } else if in_upgrade(db[0], pid, from, to) && db[0].migration_notes is Some {
        opt_view(db[0].migration_notes)
    } else {
        first_note(db.drop_first(), pid, from, to)
    }
}

/// A change of this severity calls for a migration.
pub open spec fn needs_migration(c: BreakingChange) -> bool {
    c.severity == BreakingChangeSeverity::High || c.severity == BreakingChangeSeverity::Critical
}

/// Plugin compatibility checker
pub struct CompatibilityChecker {
    current_api_version: ApiVersion,
    compatibility_db: Vec<CompatibilityInfo>,
    plugin_matrix: Vec<MatrixEntry>,
}

impl CompatibilityChecker {
    /// The API version the checker rates against.
    pub closed spec fn current_api(&self) -> u32 {
        self.current_api_version
    }

    /// Registered compatibility entries, in registration order.
    pub closed spec fn entries(&self) -> Seq<CompatibilityInfo> {
        self.compatibility_db@
    }

    /// The recorded plugin-pair levels, oldest first.
    pub closed spec fn matrix(&self) -> Seq<(Seq<char>, Seq<char>, CompatibilityLevel)> {
        self.plugin_matrix@.map_values(|e: MatrixEntry| (e.first@, e.second@, e.level))
    }

    /// Creates a checker for the given API version.
    pub fn new(current_api_version: ApiVersion) -> (r: CompatibilityChecker)
        ensures
            r.current_api() == current_api_version,
            r.entries() == Seq::<CompatibilityInfo>::empty(),
            r.matrix() == Seq::<(Seq<char>, Seq<char>, CompatibilityLevel)>::empty(),
    {
        let r = CompatibilityChecker {
            current_api_version,
            compatibility_db: Vec::new(),
            plugin_matrix: Vec::new(),
        };
        assert(r.matrix() =~= Seq::<(Seq<char>, Seq<char>, CompatibilityLevel)>::empty());
        r
    }

    /// Registers compatibility info for a plugin version.
    pub fn register(&mut self, info: CompatibilityInfo)
        ensures
            final(self).entries() == old(self).entries().push(info),
            final(self).matrix() == old(self).matrix(),
            final(self).current_api() == old(self).current_api(),
    {
        self.compatibility_db.push(info);
    }

    /// Records the level between two plugins, in both directions.
    pub fn set_plugin_compatibility(&mut self, plugin_a: &str, plugin_b: &str, level: CompatibilityLevel)
        ensures
            final(self).matrix() == old(self).matrix().push((plugin_a@, plugin_b@, level)).push(
                (plugin_b@, plugin_a@, level),
            ),
            final(self).entries() == old(self).entries(),
            final(self).current_api() == old(self).current_api(),
    {
        let e1 = MatrixEntry { first: owned(plugin_a), second: owned(plugin_b), level };
        let e2 = MatrixEntry { first: owned(plugin_b), second: owned(plugin_a), level };
        let ghost m0 = self.plugin_matrix@;
        self.plugin_matrix.push(e1);
        self.plugin_matrix.push(e2);
        assert(self.matrix() =~= old(self).matrix().push((plugin_a@, plugin_b@, level)).push(
            (plugin_b@, plugin_a@, level),
        ));
    }

    /// Rates an entry against the current API version.
    pub fn check_api_compatibility(&self, info: &CompatibilityInfo) -> (r: CompatibilityLevel)
        ensures
            r == api_level(self.current_api(), *info),
    {
        if info.min_api_version > self.current_api_version {
            return CompatibilityLevel::Incompatible;
        }
        if info.max_api_version < self.current_api_version {
            return CompatibilityLevel::Breaking;
        }
        if info.breaking_changes.len() > 0 {
            let mut i: usize = 0;
            while i < info.breaking_changes.len()
                invariant
                    i <= info.breaking_changes@.len(),
                    info.min_api_version <= self.current_api_version,
                    info.max_api_version >= self.current_api_version,
                    info.breaking_changes@.len() > 0,
                    forall|j: int|
                        0 <= j < i ==> (#[trigger] info.breaking_changes@[j]).severity
                            != BreakingChangeSeverity::Critical,
                decreases info.breaking_changes.len() - i,
            {
                if info.breaking_changes[i].severity == BreakingChangeSeverity::Critical {
                    assert(info.breaking_changes@[i as int].severity == BreakingChangeSeverity::Critical);
                    return CompatibilityLevel::Breaking;
                }
                i = i + 1;
            }
            return CompatibilityLevel::Partial;
        }
        if info.deprecations.len() > 0 {
            return CompatibilityLevel::Deprecated;
        }
        CompatibilityLevel::Full
    }

    /// Rates a plugin version: the entry with the greatest version not
    /// above `version` decides; a plugin with no entries is fully
    /// compatible, one with no such entry is incompatible.
    pub fn check_version_compatibility(&self, plugin_id: &str, version: &SemanticVersion) -> (r:
        CompatibilityLevel)
        ensures
            r == version_compatibility(self.current_api(), self.entries(), plugin_id@, version@),
    {
        let pid = owned(plugin_id);
        let db = &self.compatibility_db;
        let mut found = false;
        let mut best: Option<usize> = None;
        let mut i: usize = 0;
        while i < db.len()
            invariant
                i <= db@.len(),
                pid@ == plugin_id@,
                found == exists|j: int| 0 <= j < i && (#[trigger] db@[j]).plugin_id@ == pid@,
                best_match(db@.take(i as int), pid@, version@) == match best {
                    Some(b) => Some(b as int),
                    None => None::<int>,
                },
                best matches Some(b) ==> b < i,
            decreases db.len() - i,
        {
            let e = &db[i];
            assert(db@.take(i + 1).drop_last() =~= db@.take(i as int));
            assert(db@.take(i + 1).last() == db@[i as int]);
            let same = strings_equal(&e.plugin_id, &pid);
            if same {
                found = true;
                if e.version.compare(version) != Order::Greater {
                    match best {
                        None => {
                            best = Some(i);
                        },
                        Some(b) => {
                            assert(db@.take(i + 1)[b as int] == db@[b as int]);
                            if db[b].version.compare(&e.version) != Order::Greater {
                                best = Some(i);
                            }
                        },
                    }
                }
            }
            i = i + 1;
        }
        assert(db@.take(db@.len() as int) =~= db@);
        if !found {
            return CompatibilityLevel::Full;
        }
        match best {
            None => CompatibilityLevel::Incompatible,
            Some(b) => self.check_api_compatibility(&db[b]),
        }
    }

    /// The level recorded for the pair, `Full` when none was recorded.
    pub fn check_plugin_compatibility(&self, plugin_a: &str, plugin_b: &str) -> (r: CompatibilityLevel)
        ensures
            r == match matrix_lookup(self.matrix(), plugin_a@, plugin_b@) {
                Some(l) => l,
                None => CompatibilityLevel::Full,
            },
    {
        let a = owned(plugin_a);
        let b = owned(plugin_b);
        let m = &self.plugin_matrix;
        let mut i: usize = m.len();
        let ghost view = self.matrix();
        assert(view.take(i as int) =~= view);
        while i > 0
            invariant
                i <= m@.len(),
                m@ == self.plugin_matrix@,
                view == self.matrix(),
                view.len() == m@.len(),
                a@ == plugin_a@,
                b@ == plugin_b@,
                matrix_lookup(view, plugin_a@, plugin_b@) == matrix_lookup(
                    view.take(i as int),
                    plugin_a@,
                    plugin_b@,
                ),
            decreases i,
        {
            let e = &m[i - 1];
            assert(view.take(i as int).drop_last() =~= view.take(i - 1));
            assert(view[i - 1] == (e.first@, e.second@, e.level));
            assert(view.take(i as int).last() == view[i - 1]);
            if strings_equal(&e.first, &a) && strings_equal(&e.second, &b) {
                return e.level;
            }
            i = i - 1;
        }
        CompatibilityLevel::Full
    }

    /// Breaking changes of every entry for the plugin with a version in
    /// `(from_version, to_version]`, in registration order.
    pub fn get_breaking_changes(
        &self,
        plugin_id: &str,
        from_version: &SemanticVersion,
        to_version: &SemanticVersion,
    ) -> (r: Vec<&BreakingChange>)
        ensures
            r@.len() == changes_between(self.entries(), plugin_id@, from_version@, to_version@).len(),
            forall|k: int|
                0 <= k < r@.len() ==> *(#[trigger] r@[k]) == changes_between(
                    self.entries(),
                    plugin_id@,
                    from_version@,
                    to_version@,
                )[k],
    {
        let pid = owned(plugin_id);
        let db = &self.compatibility_db;
        let mut out: Vec<&BreakingChange> = Vec::new();
        let mut i: usize = 0;
        while i < db.len()
            invariant
                i <= db@.len(),
                pid@ == plugin_id@,
                out@.len() == changes_between(db@.take(i as int), pid@, from_version@, to_version@).len(),
                forall|k: int|
                    0 <= k < out@.len() ==> *(#[trigger] out@[k]) == changes_between(
                        db@.take(i as int),
                        pid@,
                        from_version@,
                        to_version@,
                    )[k],
            decreases db.len() - i,
        {
            let e = &db[i];
            assert(db@.take(i + 1).drop_last() =~= db@.take(i as int));
            assert(db@.take(i + 1).last() == db@[i as int]);
            if strings_equal(&e.plugin_id, &pid) && from_version.compare(&e.version) == Order::Less
                && e.version.compare(to_version) != Order::Greater {
                let ghost before = changes_between(db@.take(i as int), pid@, from_version@, to_version@);
                let mut j: usize = 0;
                while j < e.breaking_changes.len()
                    invariant
                        j <= e.breaking_changes@.len(),
                        out@.len() == before.len() + j,
                        forall|k: int| 0 <= k < before.len() ==> *(#[trigger] out@[k]) == before[k],
                        forall|k: int|
                            before.len() <= k < out@.len() ==> *(#[trigger] out@[k])
                                == e.breaking_changes@[k - before.len()],
                    decreases e.breaking_changes.len() - j,
                {
                    out.push(&e.breaking_changes[j]);
                    j = j + 1;
                }
                assert(changes_between(db@.take(i + 1), pid@, from_version@, to_version@) =~= before
                    + e.breaking_changes@);
            } else {
                assert(changes_between(db@.take(i + 1), pid@, from_version@, to_version@)
                    =~= changes_between(db@.take(i as int), pid@, from_version@, to_version@));
            }
            i = i + 1;
        }
        assert(db@.take(db@.len() as int) =~= db@);
        out
    }

    /// Deprecations of every entry for the plugin at exactly `version`.
    pub fn get_deprecations(&self, plugin_id: &str, version: &SemanticVersion) -> (r: Vec<
        &Deprecation,
    >)
        ensures
            r@.len() == deprecations_at(self.entries(), plugin_id@, version@).len(),
            forall|k: int|
                0 <= k < r@.len() ==> *(#[trigger] r@[k]) == deprecations_at(
                    self.entries(),
                    plugin_id@,
                    version@,
                )[k],
    {
        let pid = owned(plugin_id);
        let db = &self.compatibility_db;
        let mut out: Vec<&Deprecation> = Vec::new();
        let mut i: usize = 0;
        while i < db.len()
            invariant
                i <= db@.len(),
                pid@ == plugin_id@,
                out@.len() == deprecations_at(db@.take(i as int), pid@, version@).len(),
                forall|k: int|
                    0 <= k < out@.len() ==> *(#[trigger] out@[k]) == deprecations_at(
                        db@.take(i as int),
                        pid@,
                        version@,
                    )[k],
            decreases db.len() - i,
        {
            let e = &db[i];
            assert(db@.take(i + 1).drop_last() =~= db@.take(i as int));
            assert(db@.take(i + 1).last() == db@[i as int]);
            proof {
                lemma_version_order_equal(e.version@, version@);
            }
            if strings_equal(&e.plugin_id, &pid) && e.version.compare(version) == Order::Equal {
                let ghost before = deprecations_at(db@.take(i as int), pid@, version@);
                let mut j: usize = 0;
                while j < e.deprecations.len()
                    invariant
                        j <= e.deprecations@.len(),
                        out@.len() == before.len() + j,
                        forall|k: int| 0 <= k < before.len() ==> *(#[trigger] out@[k]) == before[k],
                        forall|k: int|
                            before.len() <= k < out@.len() ==> *(#[trigger] out@[k])
                                == e.deprecations@[k - before.len()],
                    decreases e.deprecations.len() - j,
                {
                    out.push(&e.deprecations[j]);
                    j = j + 1;
                }
                assert(deprecations_at(db@.take(i + 1), pid@, version@) =~= before
                    + e.deprecations@);
            } else {
                assert(deprecations_at(db@.take(i + 1), pid@, version@) =~= deprecations_at(
                    db@.take(i as int),
                    pid@,
                    version@,
                ));
            }
            i = i + 1;
        }
        assert(db@.take(db@.len() as int) =~= db@);
        out
    }

    /// Whether upgrading crosses a high or critical breaking change.
    pub fn requires_migration(
        &self,
        plugin_id: &str,
        from_version: &SemanticVersion,
        to_version: &SemanticVersion,
    ) -> (r: bool)
        ensures
            r == exists|k: int|
                0 <= k < changes_between(self.entries(), plugin_id@, from_version@, to_version@).len()
                    && needs_migration(
                    #[trigger] changes_between(
                        self.entries(),
                        plugin_id@,
                        from_version@,
                        to_version@,
                    )[k],
                ),
    {
        let changes = self.get_breaking_changes(plugin_id, from_version, to_version);
        let ghost cs = changes_between(self.entries(), plugin_id@, from_version@, to_version@);
        let mut i: usize = 0;
        while i < changes.len()
            invariant
                i <= changes@.len(),
                cs == changes_between(self.entries(), plugin_id@, from_version@, to_version@),
                changes@.len() == cs.len(),
                forall|k: int| 0 <= k < changes@.len() ==> *(#[trigger] changes@[k]) == cs[k],
                forall|k: int| 0 <= k < i ==> !needs_migration(#[trigger] cs[k]),
            decreases changes.len() - i,
        {
            let c = changes[i];
            assert(cs[i as int] == *c);
            if c.severity == BreakingChangeSeverity::High || c.severity
                == BreakingChangeSeverity::Critical {
                assert(needs_migration(cs[i as int]));
                return true;
            }
            i = i + 1;
        }
        false
    }

    /// The first migration note among entries in `(from, to]`.
    pub fn get_migration_guide(
        &self,
        plugin_id: &str,
        from_version: &SemanticVersion,
        to_version: &SemanticVersion,
    ) -> (r: Option<String>)
        ensures
            opt_view(r) == first_note(self.entries(), plugin_id@, from_version@, to_version@),
    {
        let pid = owned(plugin_id);
        let db = &self.compatibility_db;
        let mut i: usize = 0;
        assert(db@.skip(0) =~= db@);
        while i < db.len()
            invariant
                i <= db@.len(),
                pid@ == plugin_id@,
                db@ == self.entries(),
                first_note(db@, pid@, from_version@, to_version@) == first_note(
                    db@.skip(i as int),
                    pid@,
                    from_version@,
                    to_version@,
                ),
            decreases db.len() - i,
        {
            let e = &db[i];
            assert(db@.skip(i as int)[0] == db@[i as int]);
            assert(db@.skip(i as int).drop_first() =~= db@.skip(i + 1));
            if strings_equal(&e.plugin_id, &pid) && from_version.compare(&e.version) == Order::Less
                && e.version.compare(to_version) != Order::Greater {
                if let Some(n) = &e.migration_notes {
                    assert(in_upgrade(db@.skip(i as int)[0], pid@, from_version@, to_version@));
                    let r = Some(n.clone());
                    assert(opt_view(r) == first_note(db@.skip(i as int), pid@, from_version@, to_version@));
                    return r;
                }
            }
            i = i + 1;
        }
        None
    }
}

/// Recording a pair level makes it readable in both directions.
pub proof fn law_matrix_read_after_write(
    before: Seq<(Seq<char>, Seq<char>, CompatibilityLevel)>,
    a: Seq<char>,
    b: Seq<char>,
    level: CompatibilityLevel,
)
    ensures
        matrix_lookup(before.push((a, b, level)).push((b, a, level)), a, b) == Some(level),
        matrix_lookup(before.push((a, b, level)).push((b, a, level)), b, a) == Some(level),
{
    let m1 = before.push((a, b, level));
    let m2 = m1.push((b, a, level));
    assert(m2.drop_last() =~= m1);
    assert(m1.drop_last() =~= before);
    assert(matrix_lookup(m1, a, b) == Some(level));
    assert(matrix_lookup(m2, b, a) == Some(level));
    assert(matrix_lookup(m2, a, b) == Some(level));
}

/// Recording a pair level leaves every other pair as it was.
pub proof fn law_matrix_other_pairs_unchanged(
    before: Seq<(Seq<char>, Seq<char>, CompatibilityLevel)>,
    a: Seq<char>,
    b: Seq<char>,
    level: CompatibilityLevel,
    x: Seq<char>,
    y: Seq<char>,
)
    requires
        !(x == a && y == b),
        !(x == b && y == a),
    ensures
        matrix_lookup(before.push((a, b, level)).push((b, a, level)), x, y) == matrix_lookup(
            before,
            x,
            y,
        ),
{
    let m1 = before.push((a, b, level));
    let m2 = m1.push((b, a, level));
    assert(m2.drop_last() =~= m1);
    assert(m1.drop_last() =~= before);
    assert(matrix_lookup(m1, x, y) == matrix_lookup(before, x, y));
}

} // verus!
