//! Building request URLs: percent-encoding of query values, decimal
//! numbers and joined lists.

use vstd::prelude::*;
use vstd::string::StringExecFns;
use vstd::utf8::encode_utf8;

use crate::performance::texts_of;
use crate::text::{decimal, push_decimal, push_decimal_u64, string_from_chars};

verus! {

/// Bytes that URL encoding keeps as they are: ASCII letters and digits,
/// `-`, `.`, `_` and `~`.
pub open spec fn url_safe_byte(b: u8) -> bool {
    (48 <= b && b <= 57) || (65 <= b && b <= 90) || (97 <= b && b <= 122) || b == 45 || b == 46
        || b == 95 || b == 126
}

/// The upper-case hexadecimal digit of `d` (below 16).
pub open spec fn hex_digit_upper(d: int) -> char {
    if d < 10 {
        (48 + d) as char
    } else {
        (55 + d) as char
    }
}

/// Percent-encoding of a byte string: a safe byte stands for itself, any
/// other byte becomes `%` and two upper-case hexadecimal digits.
pub open spec fn percent_encoded(bytes: Seq<u8>) -> Seq<char>
    decreases bytes.len(),
{
    if bytes.len() == 0 {
        Seq::empty()
    } else {
        let b = bytes[0];
        let head = if url_safe_byte(b) {
            seq![b as char]
        } else {
            seq!['%', hex_digit_upper((b / 16) as int), hex_digit_upper((b % 16) as int)]
        };
        head + percent_encoded(bytes.drop_first())
    }
}

/// The URL encoding of a string: its UTF-8 bytes, percent-encoded.
pub open spec fn url_encoded(s: Seq<char>) -> Seq<char> {
    percent_encoded(encode_utf8(s))
}

/// `urlencoding::encode`: percent-encodes every byte of the string's UTF-8
/// form except ASCII letters, digits, `-`, `.`, `_` and `~`, writing the
/// hexadecimal digits in upper case.
#[verifier::external_body]
pub(crate) fn url_encode(s: &str) -> (r: String)
    ensures
        r@ == url_encoded(s@),
{
    urlencoding::encode(s).into_owned()
}

/// The decimal representation of a signed number, with `-` before a
/// negative one.
pub open spec fn signed_decimal(n: int) -> Seq<char> {
    if n < 0 {
        seq!['-'] + decimal((-n) as nat)
    } else {
        decimal(n as nat)
    }
}

/// The decimal representation of `n`, as `format!("{}", n)` writes it.
pub fn i32_text(n: i32) -> (s: String)
    ensures
        s@ == signed_decimal(n as int),
{
    let mut v: Vec<char> = Vec::new();
    if n < 0 {
        v.push('-');
        let m: u32 = if n == i32::MIN {
            2147483648u32
        } else {
            (-n) as u32
        };
        push_decimal(&mut v, m);
    } else {
        push_decimal(&mut v, n as u32);
    }
    string_from_chars(&v)
}

/// The decimal representation of `n`.
pub fn u32_text(n: u32) -> (s: String)
    ensures
        s@ == decimal(n as nat),
{
    let mut v: Vec<char> = Vec::new();
    push_decimal(&mut v, n);
    string_from_chars(&v)
}

/// The decimal representation of `n`.
pub fn u64_text(n: u64) -> (s: String)
    ensures
        s@ == decimal(n as nat),
{
    let mut v: Vec<char> = Vec::new();
    push_decimal_u64(&mut v, n);
    string_from_chars(&v)
}

/// The parts joined with `sep` between each two, as `join` does.
pub open spec fn joined_with(parts: Seq<Seq<char>>, sep: Seq<char>) -> Seq<char>
    decreases parts.len(),
{
    if parts.len() == 0 {
        Seq::empty()
    } else if parts.len() == 1 {
        parts[0]
    } else {
        joined_with(parts.drop_last(), sep) + sep + parts.last()
    }
}

/// Joins strings with a separator.
pub fn join_strings(parts: &Vec<String>, sep: &str) -> (s: String)
    ensures
        s@ == joined_with(texts_of(parts@), sep@),
{
    let mut out = String::new();
    let mut i: usize = 0;
    while i < parts.len()
        invariant
            i <= parts.len(),
            out@ == joined_with(texts_of(parts@.take(i as int)), sep@),
        decreases parts.len() - i,
    {
        let ghost before = out@;
        if i > 0 {
            out.append(sep);
        }
        out.append(parts[i].as_str());
        proof {
            let t = texts_of(parts@.take(i + 1));
            assert(t.drop_last() =~= texts_of(parts@.take(i as int)));
            assert(t.last() == parts@[i as int]@);
            if i == 0 {
                assert(t.len() == 1);
                assert(out@ =~= t[0]);
            }
        }
        i = i + 1;
    }
    assert(parts@.take(parts@.len() as int) =~= parts@);
    out
}

} // verus!
