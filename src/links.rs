//! Reading tweet ids out of the links that notification embeds carry, so
//! that a reply can refer to the message of the tweet it answers.

use vstd::prelude::*;

verus! {

/// The first capture group of the leftmost match of `pattern` in
/// `haystack`, by the rules of the `regex` crate.
pub uninterp spec fn first_capture(pattern: Seq<char>, haystack: Seq<char>) -> Option<Seq<char>>;

/// Relies on `regex::Regex::new` and `regex::Regex::captures`: the first
/// group of the leftmost match, which depends on the two texts alone; no
/// result where the pattern does not compile or nothing matches.
#[verifier::external_body]
fn capture_first_group(pattern: &str, haystack: &str) -> (r: Option<String>)
    ensures
        match r {
            Some(c) => first_capture(pattern@, haystack@) == Some(c@),
            None => first_capture(pattern@, haystack@) is None,
        },
{
    let re = regex::Regex::new(pattern).ok()?;
    re.captures(haystack).and_then(|c| c.get(1)).map(|m| m.as_str().to_string())
}

/// The pattern of a link to a tweet; its group is the tweet's id.
pub open spec fn tweet_link() -> Seq<char> {
    "https://twitter\\.com/\\d+/status/(\\d+)/?"@
}

fn tweet_link_pattern() -> (r: &'static str)
    ensures
        r@ == tweet_link(),
{
    "https://twitter\\.com/\\d+/status/(\\d+)/?"
}

/// Whether `c` is an ASCII decimal digit.
pub open spec fn is_digit(c: char) -> bool {
    '0' <= c <= '9'
}

/// The value of the decimal digits `s`.
pub open spec fn decimal_value(s: Seq<char>) -> nat
    decreases s.len(),
{
    if s.len() == 0 {
        0
    } else {
        decimal_value(s.drop_last()) * 10 + (s.last() as u32 - '0' as u32) as nat
    }
}

/// The digits of an unsigned number, after an optional `+`.
pub open spec fn unsigned_digits(s: Seq<char>) -> Seq<char> {
    if s.len() > 0 && s[0] == '+' {
        s.drop_first()
    } else {
        s
    }
}

/// `s` read as a `u64` in decimal, the way std's `u64::from_str` reads it:
/// an optional `+`, one or more ASCII digits, and a value that fits.
pub open spec fn parsed_u64(s: Seq<char>) -> Option<u64> {
    let d = unsigned_digits(s);
    if d.len() > 0 && (forall|i: int| 0 <= i < d.len() ==> is_digit(#[trigger] d[i]))
        && decimal_value(d) <= u64::MAX {
        Some(decimal_value(d) as u64)
    } else {
        None
    }
}

/// The tweet id that a link capture gives, if any.
pub open spec fn tweet_id_of(capture: Option<Seq<char>>) -> Option<u64> {
    match capture {
        Some(c) => parsed_u64(c),
        None => None,
    }
}

/// Reads `s` as a `u64` in decimal.
pub fn parse_u64(s: &str) -> (r: Option<u64>)
    ensures
        r == parsed_u64(s@),
{
    let n = s.unicode_len();
    let start: usize = if n > 0 && s.get_char(0) == '+' { 1 } else { 0 };
    let ghost d = unsigned_digits(s@);
    proof {
        assert(d =~= s@.subrange(start as int, n as int));
    }
    if start == n {
        return None;
    }
    let mut v: u64 = 0;
    let mut i = start;
    while i < n
        invariant
            start <= i <= n == s@.len(),
            d == s@.subrange(start as int, n as int),
            d == unsigned_digits(s@),
            forall|k: int| 0 <= k < i - start ==> is_digit(#[trigger] d[k]),
            v == decimal_value(d.subrange(0, i - start)),
        decreases n - i,
    {
        let c = s.get_char(i);
        if !('0' <= c && c <= '9') {
            proof {
                assert(d[i - start] == c);
                assert(!is_digit(d[i - start]));
            }
            return None;
        }
        let digit = (c as u32 - '0' as u32) as u64;
        let ghost prefix = d.subrange(0, i + 1 - start);
        proof {
            assert(prefix.drop_last() =~= d.subrange(0, i - start));
            assert(prefix.last() == c);
        }
        if v > (u64::MAX - digit) / 10 {
            proof {
                assert(v * 10 + digit > u64::MAX) by (nonlinear_arith)
                    requires v > (u64::MAX - digit) / 10, digit <= 9;
                assert(decimal_value(prefix) > u64::MAX);
                if forall|k: int| 0 <= k < d.len() ==> is_digit(#[trigger] d[k]) {
                    lemma_decimal_prefix_bound(d, i + 1 - start);
                }
            }
            return None;
        }
        proof {
            assert(v * 10 + digit <= u64::MAX) by (nonlinear_arith)
                requires v <= (u64::MAX - digit) / 10, digit <= 9;
        }
        v = v * 10 + digit;
        i = i + 1;
    }
    proof {
        assert(d.subrange(0, n - start) =~= d);
    }
    Some(v)
}

/// A number never shrinks when digits are added after it.
proof fn lemma_decimal_prefix_bound(d: Seq<char>, k: int)
    requires
        0 <= k <= d.len(),
        forall|i: int| 0 <= i < d.len() ==> is_digit(#[trigger] d[i]),
    ensures
        decimal_value(d.subrange(0, k)) <= decimal_value(d),
    decreases d.len() - k,
{
    if k < d.len() {
        lemma_decimal_prefix_bound(d, k + 1);
        let p = d.subrange(0, k + 1);
        assert(p.drop_last() =~= d.subrange(0, k));
        assert(is_digit(p.last()));
    } else {
        assert(d.subrange(0, k) =~= d);
    }
}

/// The id of the tweet that `url` links to, if it links to one.
pub fn tweet_id_from_link(url: &str) -> (r: Option<u64>)
    ensures
        r == tweet_id_of(first_capture(tweet_link(), url@)),
{
    match capture_first_group(tweet_link_pattern(), url) {
        Some(c) => tweet_id_from_capture(Some(c.as_str())),
        None => tweet_id_from_capture(None),
    }
}

/// The tweet id that `capture`, the group of a tweet link, gives.
pub fn tweet_id_from_capture(capture: Option<&str>) -> (r: Option<u64>)
    ensures
        r == tweet_id_of(match capture {
            Some(c) => Some(c@),
            None => None,
        }),
{
    match capture {
        Some(c) => parse_u64(c),
        None => None,
    }
}

} // verus!
