//! The creator page: its query parameters.

use vstd::prelude::*;

verus! {

pub open spec fn is_decimal_digit(c: char) -> bool {
    '0' <= c && c <= '9'
}

/// Value of a string of decimal digits.
pub open spec fn decimal_value(d: Seq<char>) -> int
    decreases d.len(),
{
    if d.len() == 0 {
        0
    } else {
        decimal_value(d.drop_last()) * 10 + (d.last() as int - '0' as int)
    }
}

/// The digits of an unsigned number's text: after a leading `+`, if any.
pub open spec fn unsigned_digits(s: Seq<char>) -> Seq<char> {
    if s.len() > 0 && s[0] == '+' {
        s.drop_first()
    } else {
        s
    }
}

/// The `u32` a text denotes, as `str::parse::<u32>` reads it: an optional
/// `+` and at least one decimal digit, of a value that fits in 32 bits.
pub open spec fn parsed_u32(s: Seq<char>) -> Option<u32> {
    let d = unsigned_digits(s);
    if d.len() > 0 && (forall|i: int| 0 <= i < d.len() ==> is_decimal_digit(d[i]))
        && decimal_value(d) <= u32::MAX {
        Some(decimal_value(d) as u32)
    } else {
        None
    }
}

/// Number of previews on a creator page when the query gives none that reads.
pub open spec fn default_limit() -> u32 {
    25
}

/// The preview limit of a creator page: the `limit` parameter when it reads
/// as a `u32`, 25 otherwise.
pub open spec fn page_limit(raw: Option<Seq<char>>) -> u32 {
    match raw {
        Some(s) => match parsed_u32(s) {
            Some(v) => v,
            None => default_limit(),
        },
        None => default_limit(),
    }
}

proof fn lemma_decimal_prefix_monotone(d: Seq<char>, k: int)
    requires
        0 <= k <= d.len(),
        forall|i: int| 0 <= i < d.len() ==> is_decimal_digit(d[i]),
    ensures
        decimal_value(d.take(k)) <= decimal_value(d),
        0 <= decimal_value(d),
    decreases d.len(),
{
    if d.len() > 0 {
        assert(d.drop_last().len() < d.len());
        if k == d.len() {
            assert(d.take(k) =~= d);
            lemma_decimal_prefix_monotone(d.drop_last(), 0);
        } else {
            assert(d.take(k) =~= d.drop_last().take(k));
            lemma_decimal_prefix_monotone(d.drop_last(), k);
        }
    }
}

/// Reads a `u32` as `str::parse::<u32>` does.
pub fn parse_u32(s: &str) -> (r: Option<u32>)
    ensures
        r == parsed_u32(s@),
{
    let n = s.unicode_len();
    let off: usize = if n > 0 && s.get_char(0) == '+' {
        1
    } else {
        0
    };
    let ghost d = unsigned_digits(s@);
    assert(d =~= s@.subrange(off as int, n as int));
    if n == off {
        return None;
    }
    let mut acc: u64 = 0;
    let mut i: usize = off;
    while i < n
        invariant
            off <= i <= n == s@.len(),
            d == s@.subrange(off as int, n as int),
            d == unsigned_digits(s@),
            forall|j: int| 0 <= j < i - off ==> is_decimal_digit(d[j]),
            acc == decimal_value(d.take(i - off)),
            acc <= u32::MAX,
        decreases n - i,
    {
        let c = s.get_char(i);
        assert(d[i - off] == c);
        if !('0' <= c && c <= '9') {
            return None;
        }
        let v = (c as u32 - '0' as u32) as u64;
        assert(d.take(i - off + 1).drop_last() =~= d.take(i - off));
        let next = acc * 10 + v;
        assert(d.take(i - off + 1).last() == c);
        assert(decimal_value(d.take(i - off + 1)) == next);
        if next > u32::MAX as u64 {
            proof {
                if forall|j: int| 0 <= j < d.len() ==> is_decimal_digit(d[j]) {
                    lemma_decimal_prefix_monotone(d, i - off + 1);
                }
            }
            return None;
        }
        acc = next;
        i = i + 1;
    }
    assert(d.take(n - off) =~= d);
    Some(acc as u32)
}

/// The preview limit of a creator page from its raw `limit` parameter.
pub fn creator_page_limit(raw: Option<&str>) -> (r: u32)
    ensures
        r == page_limit(
            match raw {
                Some(s) => Some(s@),
                None => None,
            },
        ),
{
    match raw {
        Some(s) => match parse_u32(s) {
            Some(v) => v,
            None => 25,
        },
        None => 25,
    }
}

} // verus!
