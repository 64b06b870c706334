//! Searching, replacing and trimming in character sequences, with the
//! meaning that `str::find`, `str::replace`, `str::trim` and
//! `str::parse::<u64>` give them.

use vstd::prelude::*;

use crate::text::{all_digits, digits_value, is_digit, lemma_digits_value_prefix_bound};

verus! {

/// `pat` occurs in `s` starting at index `i`.
pub open spec fn occurs_at(s: Seq<char>, pat: Seq<char>, i: int) -> bool {
    0 <= i && i + pat.len() <= s.len() && s.subrange(i, i + pat.len()) == pat
}

/// The first index at or after `from` where `pat` occurs in `s`.
pub open spec fn find_from(s: Seq<char>, pat: Seq<char>, from: int) -> Option<int>
    decreases s.len() - from,
{
    if from < 0 || from + pat.len() > s.len() {
        None
    } else if occurs_at(s, pat, from) {
        Some(from)
    } else {
        proof {
            if pat.len() == 0 {
                assert(s.subrange(from, from) =~= pat);
            }
        }
        find_from(s, pat, from + 1)
    }
}

/// The first index where `pat` occurs in `s`, as `str::find` gives it.
pub open spec fn find(s: Seq<char>, pat: Seq<char>) -> Option<int> {
    find_from(s, pat, 0)
}

/// A found index is an occurrence, and the first one from `from` on.
pub proof fn lemma_find_from(s: Seq<char>, pat: Seq<char>, from: int)
    requires
        0 <= from,
    ensures
        match find_from(s, pat, from) {
            Some(i) => from <= i && occurs_at(s, pat, i) && forall|j: int|
                from <= j < i ==> !occurs_at(s, pat, j),
            None => forall|j: int| from <= j ==> !occurs_at(s, pat, j),
        },
    decreases s.len() - from,
{
    if from + pat.len() > s.len() {
    } else if occurs_at(s, pat, from) {
    } else {
        if pat.len() == 0 {
            assert(s.subrange(from, from) =~= pat);
        }
        lemma_find_from(s, pat, from + 1);
    }
}

/// What `lemma_find_from` says, from the start of `s`.
pub proof fn lemma_find(s: Seq<char>, pat: Seq<char>)
    ensures
        match find(s, pat) {
            Some(i) => 0 <= i && i + pat.len() <= s.len() && s.subrange(i, i + pat.len()) == pat,
            None => true,
        },
{
    lemma_find_from(s, pat, 0);
}

/// Searching the suffix of `s` that starts at `p` finds what searching `s`
/// from `p` on finds, shifted by `p`.
pub proof fn lemma_find_from_skip(s: Seq<char>, pat: Seq<char>, p: int, from: int)
    requires
        0 <= p <= from,
        p <= s.len(),
    ensures
        find_from(s.skip(p), pat, from - p) == match find_from(s, pat, from) {
            Some(i) => Some(i - p),
            None => None::<int>,
        },
    decreases s.len() - from,
{
    let t = s.skip(p);
    if from + pat.len() <= s.len() {
        assert(t.subrange(from - p, from - p + pat.len()) =~= s.subrange(from, from + pat.len()));
        if !occurs_at(s, pat, from) {
            if pat.len() == 0 {
                assert(s.subrange(from, from) =~= pat);
            }
            lemma_find_from_skip(s, pat, p, from + 1);
        }
    }
}

/// Whether `pat` occurs in `s` at index `i`.
pub fn occurs_at_index(s: &[char], pat: &[char], i: usize) -> (b: bool)
    requires
        i <= s.len(),
        pat.len() <= s.len() - i,
    ensures
        b == occurs_at(s@, pat@, i as int),
{
    let mut k: usize = 0;
    while k < pat.len()
        invariant
            k <= pat.len(),
            i <= s.len(),
            pat.len() <= s.len() - i,
            forall|m: int| 0 <= m < k ==> s@[i + m] == pat@[m],
        decreases pat.len() - k,
    {
        if s[i + k] != pat[k] {
            assert(s@.subrange(i as int, i + pat.len())[k as int] != pat@[k as int]);
            return false;
        }
        k = k + 1;
    }
    assert(s@.subrange(i as int, i + pat.len()) =~= pat@);
    true
}

/// The first index at or after `from` where `pat` occurs in `s`.
pub fn find_chars_from(s: &[char], pat: &[char], from: usize) -> (r: Option<usize>)
    ensures
        match r {
            Some(i) => find_from(s@, pat@, from as int) == Some(i as int),
            None => find_from(s@, pat@, from as int) is None,
        },
{
    let mut i: usize = from;
    while i <= s.len() && pat.len() <= s.len() - i
        invariant
            from <= i,
            find_from(s@, pat@, from as int) == find_from(s@, pat@, i as int),
        decreases s.len() - i,
    {
        if occurs_at_index(s, pat, i) {
            return Some(i);
        }
        proof {
            if pat@.len() == 0 {
                assert(s@.subrange(i as int, i as int) =~= pat@);
            }
        }
        i = i + 1;
    }
    None
}

/// The first index where `pat` occurs in `s`.
pub fn find_chars(s: &[char], pat: &[char]) -> (r: Option<usize>)
    ensures
        match r {
            Some(i) => find(s@, pat@) == Some(i as int),
            None => find(s@, pat@) is None,
        },
{
    find_chars_from(s, pat, 0)
}

/// The characters of `s` from index `a` up to `b`.
pub fn copy_range(s: &[char], a: usize, b: usize) -> (r: Vec<char>)
    requires
        a <= b <= s.len(),
    ensures
        r@ == s@.subrange(a as int, b as int),
{
    let mut r: Vec<char> = Vec::new();
    let mut i: usize = a;
    while i < b
        invariant
            a <= i <= b <= s.len(),
            r@ == s@.subrange(a as int, i as int),
        decreases b - i,
    {
        r.push(s[i]);
        assert(s@.subrange(a as int, i + 1) =~= s@.subrange(a as int, i as int).push(s@[i as int]));
        i = i + 1;
    }
    r
}

/// Whether `c` is white space in the sense of `char::is_whitespace`: it
/// has the Unicode property White_Space.
pub open spec fn is_whitespace(c: char) -> bool {
    let n = c as u32;
    (9 <= n && n <= 13) || n == 32 || n == 0x85 || n == 0xa0 || n == 0x1680 || (0x2000 <= n
        && n <= 0x200a) || n == 0x2028 || n == 0x2029 || n == 0x202f || n == 0x205f || n == 0x3000
}

/// Whether `c` is white space.
pub fn is_whitespace_char(c: char) -> (b: bool)
    ensures
        b == is_whitespace(c),
{
    let n = c as u32;
    (9 <= n && n <= 13) || n == 32 || n == 0x85 || n == 0xa0 || n == 0x1680 || (0x2000 <= n
        && n <= 0x200a) || n == 0x2028 || n == 0x2029 || n == 0x202f || n == 0x205f || n == 0x3000
}

/// `s` without its leading white space.
pub open spec fn trim_start(s: Seq<char>) -> Seq<char>
    decreases s.len(),
{
    if s.len() > 0 && is_whitespace(s[0]) {
        trim_start(s.drop_first())
    } else {
        s
    }
}

/// `s` without its trailing white space.
pub open spec fn trim_end(s: Seq<char>) -> Seq<char>
    decreases s.len(),
{
    if s.len() > 0 && is_whitespace(s.last()) {
        trim_end(s.drop_last())
    } else {
        s
    }
}

/// `s` without leading and trailing white space, as `str::trim` gives it.
pub open spec fn trim(s: Seq<char>) -> Seq<char> {
    trim_end(trim_start(s))
}

/// Removes leading and trailing white space.
pub fn trim_chars(s: &[char]) -> (r: Vec<char>)
    ensures
        r@ == trim(s@),
{
    let mut a: usize = 0;
    assert(s@.skip(0) =~= s@);
    while a < s.len() && is_whitespace_char(s[a])
        invariant
            a <= s.len(),
            trim_start(s@) == trim_start(s@.skip(a as int)),
        decreases s.len() - a,
    {
        assert(s@.skip(a as int).drop_first() =~= s@.skip(a + 1));
        a = a + 1;
    }
    assert(trim_start(s@.skip(a as int)) == s@.skip(a as int));
    let mut b: usize = s.len();
    assert(s@.subrange(a as int, b as int) =~= s@.skip(a as int));
    while b > a && is_whitespace_char(s[b - 1])
        invariant
            a <= b <= s.len(),
            trim_end(s@.skip(a as int)) == trim_end(s@.subrange(a as int, b as int)),
        decreases b - a,
    {
        assert(s@.subrange(a as int, b as int).drop_last() =~= s@.subrange(a as int, b - 1));
        b = b - 1;
    }
    copy_range(s, a, b)
}

/// What `str::parse::<u64>` returns for `s`: an optional `+` sign
/// followed by at least one decimal digit, with a value that fits.
pub open spec fn parse_u64_spec(s: Seq<char>) -> Option<u64> {
    let d = if s.len() > 0 && s[0] == '+' {
        s.drop_first()
    } else {
        s
    };
    if d.len() > 0 && all_digits(d) && digits_value(d) <= u64::MAX {
        Some(digits_value(d) as u64)
    } else {
        None
    }
}

/// Parses a decimal `u64` the way `str::parse::<u64>` does.
pub fn parse_u64(s: &[char]) -> (r: Option<u64>)
    ensures
        r == parse_u64_spec(s@),
{
    let start: usize = if s.len() > 0 && s[0] == '+' {
        1
    } else {
        0
    };
    let ghost d = if s@.len() > 0 && s@[0] == '+' {
        s@.drop_first()
    } else {
        s@
    };
    assert(d =~= s@.skip(start as int));
    if start >= s.len() {
        return None;
    }
    let mut value: u128 = 0;
    let mut i: usize = start;
    while i < s.len()
        invariant
            start <= i <= s@.len(),
            d =~= s@.skip(start as int),
            d == (if s@.len() > 0 && s@[0] == '+' {
                s@.drop_first()
            } else {
                s@
            }),
            all_digits(s@.subrange(start as int, i as int)),
            value == digits_value(s@.subrange(start as int, i as int)),
            value <= u64::MAX,
        decreases s.len() - i,
    {
        let c = s[i];
        assert(s@.subrange(start as int, i + 1).drop_last() =~= s@.subrange(start as int, i as int));
        if !('0' <= c && c <= '9') {
            assert(d[i - start] == c);
            assert(!is_digit(d[i - start]));
            return None;
        }
        let dv: u128 = ((c as u32) - ('0' as u32)) as u128;
        assert(value * 10 + dv <= u128::MAX) by (nonlinear_arith)
            requires
                value <= u64::MAX,
                dv <= 9,
        ;
        let next = value * 10 + dv;
        proof {
            let t = s@.subrange(start as int, i + 1);
            assert(t.last() == c);
            assert(all_digits(t));
            assert(digits_value(t) == next);
            assert(d.take((i + 1 - start) as int) =~= t);
        }
        if next > 0xffff_ffff_ffff_ffffu128 {
            proof {
                lemma_digits_value_prefix_bound(d, (i + 1 - start) as int);
            }
            return None;
        }
        value = next;
        i = i + 1;
    }
    assert(s@.subrange(start as int, s@.len() as int) =~= d);
    Some(value as u64)
}

} // verus!
