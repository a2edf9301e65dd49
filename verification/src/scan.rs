//! Reading the output of system commands: lines, fields and decimal numbers.

use crate::text::{chars_of, matches_at, occurs_at};
use vstd::prelude::*;

verus! {

/// Number of characters of `s` before the first `sep`, or the length of `s`
/// if it holds none.
pub open spec fn piece_len(s: Seq<char>, sep: char) -> nat
    decreases s.len(),
{
    if s.len() == 0 || s[0] == sep {
        0
    } else {
        1 + piece_len(s.drop_first(), sep)
    }
}

/// The parts of `s` between the occurrences of `sep`. There is one part more
/// than there are separators; parts may be empty.
pub open spec fn split_on(s: Seq<char>, sep: char) -> Seq<Seq<char>>
    decreases s.len(),
{
    let n = piece_len(s, sep) as int;
    if n >= s.len() {
        seq![s]
    } else {
        seq![s.take(n)] + split_on(s.skip(n + 1), sep)
    }
}

/// The lines of `s`: its parts between line feeds, without the empty part
/// after a final line feed.
pub open spec fn lines(s: Seq<char>) -> Seq<Seq<char>> {
    let parts = split_on(s, '\n');
    if parts.last().len() == 0 {
        parts.drop_last()
    } else {
        parts
    }
}

/// `s` begins with `prefix`.
pub open spec fn starts_with(s: Seq<char>, prefix: Seq<char>) -> bool {
    occurs_at(s, prefix, 0)
}

/// The value of the decimal digit `c`, if it is one.
pub open spec fn digit_value(c: char) -> Option<nat> {
    if '0' <= c <= '9' {
        Some((c as u32 - '0' as u32) as nat)
    } else {
        None
    }
}

/// The number that the decimal digits `s` denote, if `s` holds digits only
/// and at least one.
pub open spec fn decimal_value(s: Seq<char>) -> Option<nat>
    decreases s.len(),
{
    if s.len() == 0 {
        None
    } else if s.len() == 1 {
        digit_value(s[0])
    } else {
        match (decimal_value(s.drop_last()), digit_value(s.last())) {
            (Some(high), Some(low)) => Some(high * 10 + low),
            _ => None,
        }
    }
}

/// The number that `s` denotes as a `u64`: decimal digits after an optional
/// plus sign, with a value that fits.
pub open spec fn parsed_u64(s: Seq<char>) -> Option<u64> {
    let digits = if s.len() > 0 && s[0] == '+' {
        s.drop_first()
    } else {
        s
    };
    match decimal_value(digits) {
        Some(value) => if value <= u64::MAX {
            Some(value as u64)
        } else {
            None
        },
        None => None,
    }
}

/// The decimal digits of `n`, without leading zeros.
pub open spec fn decimal_text(n: nat) -> Seq<char>
    decreases n,
{
    if n < 10 {
        seq![(('0' as u32 + n) as u32) as char]
    } else {
        decimal_text(n / 10).push((('0' as u32 + n % 10) as u32) as char)
    }
}

/// `u64::to_string`: the decimal digits of `n`.
#[verifier::external_body]
pub(crate) fn u64_to_string(n: u64) -> (r: String)
    ensures
        r@ == decimal_text(n as nat),
{
    n.to_string()
}

/// The separator-free run that starts a text ends the text or is followed by
/// the separator.
pub proof fn lemma_piece_len_is(s: Seq<char>, sep: char, n: int)
    requires
        0 <= n <= s.len(),
        forall|i: int| 0 <= i < n ==> #[trigger] s[i] != sep,
        n == s.len() || s[n] == sep,
    ensures
        piece_len(s, sep) == n,
    decreases n,
{
    if n > 0 {
        let rest = s.drop_first();
        assert forall|i: int| 0 <= i < n - 1 implies #[trigger] rest[i] != sep by {
            assert(rest[i] == s[i + 1]);
        }
        lemma_piece_len_is(rest, sep, n - 1);
    }
}

/// A text that holds a non-digit denotes no number.
pub proof fn lemma_decimal_needs_digits(s: Seq<char>, i: int)
    requires
        0 <= i < s.len(),
        digit_value(s[i]) is None,
    ensures
        decimal_value(s) is None,
    decreases s.len(),
{
    if s.len() > 1 && i < s.len() - 1 {
        lemma_decimal_needs_digits(s.drop_last(), i);
    }
}

/// Digits that follow never make a number smaller.
pub proof fn lemma_decimal_grows(s: Seq<char>, k: int)
    requires
        0 < k <= s.len(),
        decimal_value(s) is Some,
    ensures
        decimal_value(s.take(k)) is Some,
        decimal_value(s.take(k))->Some_0 <= decimal_value(s)->Some_0,
    decreases s.len(),
{
    if k == s.len() {
        assert(s.take(k) =~= s);
    } else {
        assert(s.drop_last().take(k) =~= s.take(k));
        lemma_decimal_grows(s.drop_last(), k);
    }
}

/// The parts of `s` between the occurrences of `sep`.
pub fn split(s: &str, sep: char) -> (parts: Vec<String>)
    ensures
        crate::text::views(parts@) == split_on(s@, sep),
{
    let v = chars_of(s);
    let n: usize = v.len();
    let mut parts: Vec<String> = Vec::new();
    let mut start: usize = 0;
    assert(s@.skip(0) =~= s@);
    loop
        invariant
            start <= n,
            n == v.len(),
            v@ == s@,
            crate::text::views(parts@) + split_on(s@.skip(start as int), sep) == split_on(s@, sep),
        decreases n - start,
    {
        let ghost rest = s@.skip(start as int);
        let mut end: usize = start;
        while end < n && v[end] != sep
            invariant
                start <= end <= n,
                n == v.len(),
                forall|k: int| start <= k < end ==> #[trigger] v@[k] != sep,
            decreases n - end,
        {
            end = end + 1;
        }
        let part = String::from_str(s.substring_char(start, end));
        proof {
            assert forall|k: int| 0 <= k < end - start implies #[trigger] rest[k] != sep by {
                assert(rest[k] == v@[k + start]);
            }
            lemma_piece_len_is(rest, sep, end - start);
            assert(rest.take(end - start) =~= s@.subrange(start as int, end as int));
            assert(crate::text::views(parts@.push(part)) =~= crate::text::views(parts@) + seq![
                part@,
            ]);
        }
        parts.push(part);
        if end == n {
            proof {
                assert(rest =~= s@.subrange(start as int, end as int));
            }
            return parts;
        }
        proof {
            assert(rest.skip(end - start + 1) =~= s@.skip(end + 1));
            let old_parts = crate::text::views(parts@.drop_last());
            assert(parts@.drop_last().push(part) =~= parts@);
            assert(old_parts + (seq![part@] + split_on(s@.skip(end + 1), sep)) =~= (old_parts
                + seq![part@]) + split_on(s@.skip(end + 1), sep));
        }
        start = end + 1;
    }
}

/// The lines of `s`.
pub fn split_lines(s: &str) -> (r: Vec<String>)
    ensures
        crate::text::views(r@) == lines(s@),
{
    let mut parts = split(s, '\n');
    let ghost all = parts@;
    assert(split_on(s@, '\n').len() > 0);
    let last = parts.len() - 1;
    if parts[last].as_str().is_empty() {
        parts.pop();
        proof {
            assert(parts@ =~= all.drop_last());
            assert(crate::text::views(parts@) =~= crate::text::views(all).drop_last());
        }
    }
    parts
}

/// Whether `s` begins with `prefix`.
pub fn has_prefix(s: &str, prefix: &str) -> (b: bool)
    ensures
        b == starts_with(s@, prefix@),
{
    let text = chars_of(s);
    let start = chars_of(prefix);
    matches_at(&text, &start, 0)
}

/// The number that `s` denotes as a `u64`, if it denotes one.
pub fn parse_u64(s: &str) -> (r: Option<u64>)
    ensures
        r == parsed_u64(s@),
{
    let v = chars_of(s);
    let n: usize = v.len();
    let first: usize = if n > 0 && v[0] == '+' {
        1
    } else {
        0
    };
    let ghost digits = s@.skip(first as int);
    proof {
        if first == 1 {
            assert(digits =~= s@.drop_first());
        } else {
            assert(digits =~= s@);
        }
    }
    if first == n {
        return None;
    }
    let mut value: u64 = 0;
    let mut i: usize = first;
    while i < n
        invariant
            first <= i <= n,
            first < n,
            n == v.len(),
            v@ == s@,
            digits == if s@.len() > 0 && s@[0] == '+' {
                s@.drop_first()
            } else {
                s@
            },
            digits == s@.skip(first as int),
            i > first ==> decimal_value(digits.take(i - first)) == Some(value as nat),
            i == first ==> value == 0,
        decreases n - i,
    {
        let c = v[i];
        let ghost k = i - first;
        proof {
            assert(digits[k] == c);
            assert(digits.take(k + 1).drop_last() =~= digits.take(k));
            assert(digits.take(k + 1).last() == c);
        }
        if c < '0' || c > '9' {
            proof {
                lemma_decimal_needs_digits(digits, k);
            }
            return None;
        }
        let digit: u64 = (c as u32 - '0' as u32) as u64;
        proof {
            assert(digit_value(c) == Some(digit as nat));
            assert(decimal_value(digits.take(k + 1)) == Some((value * 10 + digit) as nat));
        }
        if value > (u64::MAX - digit) / 10 {
            proof {
                assert(value * 10 + digit > u64::MAX);
                if decimal_value(digits) is Some {
                    lemma_decimal_grows(digits, k + 1);
                }
            }
            return None;
        }
        value = value * 10 + digit;
        i = i + 1;
    }
    proof {
        assert(digits.take(n - first) =~= digits);
    }
    Some(value)
}

} // verus!
