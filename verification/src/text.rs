//! Text primitives shared by the prompt builder, the command parser and the
//! installers: whitespace handling, tokenizing, substring search and
//! substitution, all stated over sequences of characters.

use vstd::prelude::*;

verus! {

/// Whether `c` has the Unicode `White_Space` property.
///
/// This is the answer of `char::is_whitespace`; the set of code points is
/// fixed by the Unicode tables of the standard library and is not spelled out
/// here.
pub uninterp spec fn is_whitespace(c: char) -> bool;

/// The lowercase form of `s` as `str::to_lowercase` computes it.
///
/// The Unicode case mapping is context dependent and may change the number of
/// characters, so it is only named, not defined.
pub uninterp spec fn lowercase(s: Seq<char>) -> Seq<char>;

/// `char::is_whitespace`: the answer is the `White_Space` property of `c`.
#[verifier::external_body]
pub(crate) fn char_is_whitespace(c: char) -> (b: bool)
    ensures
        b == is_whitespace(c),
{
    c.is_whitespace()
}

/// `str::to_lowercase`: the result is the lowercase form of `s`, whatever
/// its length.
#[verifier::external_body]
pub(crate) fn to_lowercase(s: &str) -> (r: String)
    ensures
        r@ == lowercase(s@),
{
    s.to_lowercase()
}

/// The text that `String::from_utf8_lossy` makes of `bytes`: their decoding
/// as UTF-8, with U+FFFD in place of what is not valid.
pub uninterp spec fn lossy_text(bytes: Seq<u8>) -> Seq<char>;

/// `String::from_utf8_lossy`, with the result as an owned string.
#[verifier::external_body]
pub(crate) fn utf8_lossy(bytes: &Vec<u8>) -> (r: String)
    ensures
        r@ == lossy_text(bytes@),
{
    String::from_utf8_lossy(bytes).into_owned()
}

/// Every character of `s` is whitespace (in particular, `s` may be empty).
pub open spec fn is_blank(s: Seq<char>) -> bool {
    forall|i: int| 0 <= i < s.len() ==> is_whitespace(#[trigger] s[i])
}

/// `s` without its leading whitespace.
pub open spec fn trim_start(s: Seq<char>) -> Seq<char>
    decreases s.len(),
{
    if s.len() > 0 && is_whitespace(s[0]) {
        trim_start(s.drop_first())
    } else {
        s
    }
}

/// `s` without its trailing whitespace.
pub open spec fn trim_end(s: Seq<char>) -> Seq<char>
    decreases s.len(),
{
    if s.len() > 0 && is_whitespace(s.last()) {
        trim_end(s.drop_last())
    } else {
        s
    }
}

/// `s` without leading and trailing whitespace.
pub open spec fn trimmed(s: Seq<char>) -> Seq<char> {
    trim_end(trim_start(s))
}

/// Length of the longest prefix of `s` that holds no whitespace.
pub open spec fn word_len(s: Seq<char>) -> nat
    decreases s.len(),
{
    if s.len() == 0 || is_whitespace(s[0]) {
        0
    } else {
        1 + word_len(s.drop_first())
    }
}

/// The maximal runs of non-whitespace characters of `s`, from left to right.
pub open spec fn tokens(s: Seq<char>) -> Seq<Seq<char>>
    decreases s.len(),
    via tokens_decreases
{
    if s.len() == 0 {
        Seq::empty()
    } else if is_whitespace(s[0]) {
        tokens(s.drop_first())
    } else {
        seq![s.take(word_len(s) as int)] + tokens(s.skip(word_len(s) as int))
    }
}

#[via_fn]
proof fn tokens_decreases(s: Seq<char>) {
    if s.len() > 0 && !is_whitespace(s[0]) {
        lemma_word_len_bounds(s);
    }
}

/// `needle` stands in `hay` at position `i`.
pub open spec fn occurs_at(hay: Seq<char>, needle: Seq<char>, i: int) -> bool {
    0 <= i && i + needle.len() <= hay.len() && hay.subrange(i, i + needle.len()) == needle
}

/// `needle` is a contiguous part of `hay`.
pub open spec fn contains(hay: Seq<char>, needle: Seq<char>) -> bool {
    exists|i: int| occurs_at(hay, needle, i)
}

/// `s` with every occurrence of `from` replaced by `to`, found from left to
/// right and without overlap. An empty `from` matches nowhere.
pub open spec fn substitute(s: Seq<char>, from: Seq<char>, to: Seq<char>) -> Seq<char>
    decreases s.len(),
{
    if from.len() == 0 || s.len() < from.len() {
        s
    } else if s.take(from.len() as int) == from {
        to + substitute(s.skip(from.len() as int), from, to)
    } else {
        seq![s[0]] + substitute(s.drop_first(), from, to)
    }
}

/// The view of a string that may be missing.
pub open spec fn option_view(s: Option<String>) -> Option<Seq<char>> {
    match s {
        Some(text) => Some(text@),
        None => None,
    }
}

/// The views of a sequence of strings.
pub open spec fn views(v: Seq<String>) -> Seq<Seq<char>> {
    Seq::new(v.len(), |i: int| v[i]@)
}

/// The leading word lies within the text, holds no whitespace, and ends the
/// text or is followed by whitespace.
pub proof fn lemma_word_len_bounds(s: Seq<char>)
    ensures
        word_len(s) <= s.len(),
        s.len() > 0 && !is_whitespace(s[0]) ==> word_len(s) >= 1,
        forall|i: int| 0 <= i < word_len(s) ==> !is_whitespace(#[trigger] s[i]),
        word_len(s) < s.len() ==> is_whitespace(s[word_len(s) as int]),
    decreases s.len(),
{
    if s.len() == 0 || is_whitespace(s[0]) {
    } else {
        let rest = s.drop_first();
        lemma_word_len_bounds(rest);
        assert forall|i: int| 0 <= i < word_len(s) implies !is_whitespace(#[trigger] s[i]) by {
            if i > 0 {
                assert(s[i] == rest[i - 1]);
            }
        }
        if word_len(s) < s.len() {
            assert(s[word_len(s) as int] == rest[word_len(rest) as int]);
        }
    }
}

/// Dropping `k` leading whitespace characters, up to the first character that
/// is none, is what `trim_start` does.
pub proof fn lemma_trim_start_skips(s: Seq<char>, k: int)
    requires
        0 <= k <= s.len(),
        forall|i: int| 0 <= i < k ==> is_whitespace(#[trigger] s[i]),
        k == s.len() || !is_whitespace(s[k]),
    ensures
        trim_start(s) == s.skip(k),
    decreases k,
{
    if k == 0 {
        assert(s.skip(0) =~= s);
    } else {
        let rest = s.drop_first();
        assert forall|i: int| 0 <= i < k - 1 implies is_whitespace(#[trigger] rest[i]) by {
            assert(rest[i] == s[i + 1]);
        }
        lemma_trim_start_skips(rest, k - 1);
        assert(rest.skip(k - 1) =~= s.skip(k));
    }
}

/// Keeping the first `k` characters, where all that follow are whitespace
/// and the last one kept is none, is what `trim_end` does.
pub proof fn lemma_trim_end_takes(s: Seq<char>, k: int)
    requires
        0 <= k <= s.len(),
        forall|i: int| k <= i < s.len() ==> is_whitespace(#[trigger] s[i]),
        k == 0 || !is_whitespace(s[k - 1]),
    ensures
        trim_end(s) == s.take(k),
    decreases s.len() - k,
{
    if k == s.len() {
        assert(s.take(k) =~= s);
    } else {
        let rest = s.drop_last();
        assert forall|i: int| k <= i < rest.len() implies is_whitespace(#[trigger] rest[i]) by {
            assert(rest[i] == s[i]);
        }
        lemma_trim_end_takes(rest, k);
        assert(rest.take(k) =~= s.take(k));
    }
}

/// A run of `n` non-whitespace characters that ends the text or is followed
/// by whitespace is the leading word.
pub proof fn lemma_word_len_is(s: Seq<char>, n: int)
    requires
        0 <= n <= s.len(),
        forall|i: int| 0 <= i < n ==> !is_whitespace(#[trigger] s[i]),
        n == s.len() || is_whitespace(s[n]),
    ensures
        word_len(s) == n,
    decreases n,
{
    if n > 0 {
        let rest = s.drop_first();
        assert forall|i: int| 0 <= i < n - 1 implies !is_whitespace(#[trigger] rest[i]) by {
            assert(rest[i] == s[i + 1]);
        }
        lemma_word_len_is(rest, n - 1);
    }
}

/// A text is blank exactly when nothing is left after trimming, and exactly
/// when it has no tokens.
pub proof fn lemma_blank_trimmed_tokens(s: Seq<char>)
    ensures
        is_blank(s) <==> trimmed(s).len() == 0,
        is_blank(s) <==> tokens(s).len() == 0,
    decreases s.len(),
{
    if s.len() == 0 {
    } else if is_whitespace(s[0]) {
        let rest = s.drop_first();
        lemma_blank_trimmed_tokens(rest);
        if is_blank(s) {
            assert forall|i: int| 0 <= i < rest.len() implies is_whitespace(#[trigger] rest[i]) by {
                assert(rest[i] == s[i + 1]);
            }
        }
        if is_blank(rest) {
            assert forall|i: int| 0 <= i < s.len() implies is_whitespace(#[trigger] s[i]) by {
                if i > 0 {
                    assert(s[i] == rest[i - 1]);
                }
            }
        }
    } else {
        assert(!is_blank(s));
        lemma_trim_end_keeps_first(s);
    }
}

/// `t` is not empty and holds no whitespace.
pub open spec fn is_word(t: Seq<char>) -> bool {
    t.len() > 0 && forall|i: int| 0 <= i < t.len() ==> !is_whitespace(#[trigger] t[i])
}

/// Every token is a word: it is not empty and holds no whitespace.
pub proof fn lemma_tokens_are_words(s: Seq<char>)
    ensures
        forall|k: int| 0 <= k < tokens(s).len() ==> is_word(#[trigger] tokens(s)[k]),
    decreases s.len(),
{
    if s.len() == 0 {
        assert(tokens(s).len() == 0);
    } else if is_whitespace(s[0]) {
        lemma_tokens_are_words(s.drop_first());
        assert(tokens(s) == tokens(s.drop_first()));
    } else {
        let n = word_len(s) as int;
        lemma_word_len_bounds(s);
        lemma_tokens_are_words(s.skip(n));
        assert(tokens(s) == seq![s.take(n)] + tokens(s.skip(n)));
        let first = s.take(n);
        let rest = tokens(s.skip(n));
        assert(is_word(first)) by {
            assert forall|i: int| 0 <= i < first.len() implies !is_whitespace(
                #[trigger] first[i],
            ) by {
                assert(first[i] == s[i]);
            }
        }
        assert forall|k: int| 0 <= k < tokens(s).len() implies is_word(#[trigger] tokens(s)[k]) by {
            if k == 0 {
                assert(tokens(s)[0] == first);
            } else {
                assert(tokens(s)[k] == rest[k - 1]);
            }
        }
    }
}

/// Trimming the end of a text that starts with a non-whitespace character
/// leaves at least that character.
proof fn lemma_trim_end_keeps_first(s: Seq<char>)
    requires
        s.len() > 0,
        !is_whitespace(s[0]),
    ensures
        trim_end(s).len() > 0,
    decreases s.len(),
{
    if is_whitespace(s.last()) {
        lemma_trim_end_keeps_first(s.drop_last());
    }
}

/// The characters of `s`, one by one.
pub fn chars_of(s: &str) -> (v: Vec<char>)
    ensures
        v@ == s@,
{
    let mut v: Vec<char> = Vec::new();
    for c in it: s.chars()
        invariant
            v@ == it.seq().take(it.index() as int),
            it.seq() == s@,
    {
        v.push(c);
    }
    v
}

/// Whether `s` is empty or holds only whitespace.
pub fn blank(s: &str) -> (b: bool)
    ensures
        b == is_blank(s@),
{
    let v = chars_of(s);
    let mut i: usize = 0;
    while i < v.len()
        invariant
            i <= v.len(),
            v@ == s@,
            forall|k: int| 0 <= k < i ==> is_whitespace(#[trigger] v@[k]),
        decreases v.len() - i,
    {
        if !char_is_whitespace(v[i]) {
            assert(!is_whitespace(s@[i as int]));
            return false;
        }
        i = i + 1;
    }
    true
}

/// `s` without leading and trailing whitespace.
pub fn trim(s: &str) -> (r: &str)
    ensures
        r@ == trimmed(s@),
{
    let v = chars_of(s);
    let n: usize = v.len();
    let mut start: usize = 0;
    while start < n && char_is_whitespace(v[start])
        invariant
            start <= n,
            n == v.len(),
            forall|k: int| 0 <= k < start ==> is_whitespace(#[trigger] v@[k]),
        decreases n - start,
    {
        start = start + 1;
    }
    let mut end: usize = n;
    while end > start && char_is_whitespace(v[end - 1])
        invariant
            start <= end <= n,
            n == v.len(),
            forall|k: int| end <= k < n ==> is_whitespace(#[trigger] v@[k]),
        decreases end,
    {
        end = end - 1;
    }
    proof {
        let text = s@;
        lemma_trim_start_skips(text, start as int);
        let tail = text.skip(start as int);
        assert forall|k: int| end - start <= k < tail.len() implies is_whitespace(
            #[trigger] tail[k],
        ) by {
            assert(tail[k] == text[k + start]);
        }
        lemma_trim_end_takes(tail, end - start);
        assert(tail.take(end - start) =~= text.subrange(start as int, end as int));
    }
    s.substring_char(start, end)
}

/// The whitespace-separated tokens of `s`, in order.
pub fn split_whitespace(s: &str) -> (r: Vec<String>)
    ensures
        views(r@) == tokens(s@),
{
    let v = chars_of(s);
    let n: usize = v.len();
    let mut out: Vec<String> = Vec::new();
    let mut i: usize = 0;
    assert(views(out@) + tokens(s@.skip(0)) =~= tokens(s@)) by {
        assert(s@.skip(0) =~= s@);
    }
    while i < n
        invariant
            i <= n,
            n == v.len(),
            v@ == s@,
            views(out@) + tokens(s@.skip(i as int)) == tokens(s@),
        decreases n - i,
    {
        let ghost rest = s@.skip(i as int);
        if char_is_whitespace(v[i]) {
            proof {
                assert(rest.drop_first() =~= s@.skip(i + 1));
            }
            i = i + 1;
        } else {
            let mut j: usize = i + 1;
            while j < n && !char_is_whitespace(v[j])
                invariant
                    i < j <= n,
                    n == v.len(),
                    forall|k: int| i <= k < j ==> !is_whitespace(#[trigger] v@[k]),
                decreases n - j,
            {
                j = j + 1;
            }
            let word = String::from_str(s.substring_char(i, j));
            proof {
                assert forall|k: int| 0 <= k < j - i implies !is_whitespace(#[trigger] rest[k]) by {
                    assert(rest[k] == v@[k + i]);
                }
                lemma_word_len_is(rest, j - i);
                assert(rest.take(j - i) =~= s@.subrange(i as int, j as int));
                assert(rest.skip(j - i) =~= s@.skip(j as int));
                assert(views(out@.push(word)) =~= views(out@) + seq![word@]);
                assert(views(out@) + (seq![word@] + tokens(s@.skip(j as int))) =~= (views(out@)
                    + seq![word@]) + tokens(s@.skip(j as int)));
            }
            out.push(word);
            i = j;
        }
    }
    proof {
        assert(views(out@) + Seq::<Seq<char>>::empty() =~= views(out@));
    }
    out
}

/// Whether `needle` stands in `hay` at position `i`.
pub fn matches_at(hay: &Vec<char>, needle: &Vec<char>, i: usize) -> (b: bool)
    ensures
        b == occurs_at(hay@, needle@, i as int),
{
    let n: usize = hay.len();
    let m: usize = needle.len();
    if m > n || i > n - m {
        return false;
    }
    let mut k: usize = 0;
    while k < m
        invariant
            k <= m,
            m == needle.len(),
            n == hay.len(),
            i + m <= n,
            forall|t: int| 0 <= t < k ==> hay@[i + t] == needle@[t],
        decreases m - k,
    {
        if hay[i + k] != needle[k] {
            proof {
                assert(hay@.subrange(i as int, i + m)[k as int] == hay@[i + k]);
            }
            return false;
        }
        k = k + 1;
    }
    proof {
        assert(hay@.subrange(i as int, i + m) =~= needle@);
    }
    true
}

/// Whether `needle` is a contiguous part of `hay`.
pub fn includes(hay: &Vec<char>, needle: &Vec<char>) -> (b: bool)
    ensures
        b == contains(hay@, needle@),
{
    let n: usize = hay.len();
    let m: usize = needle.len();
    if m > n {
        return false;
    }
    let last: usize = n - m;
    let mut i: usize = 0;
    loop
        invariant
            n == hay.len(),
            m == needle.len(),
            last == n - m,
            i <= last,
            forall|t: int| 0 <= t < i ==> !occurs_at(hay@, needle@, t),
        decreases last - i,
    {
        if matches_at(hay, needle, i) {
            return true;
        }
        if i == last {
            return false;
        }
        i = i + 1;
    }
}

/// Whether `needle` is a contiguous part of `hay`.
pub fn contains_text(hay: &str, needle: &str) -> (b: bool)
    ensures
        b == contains(hay@, needle@),
{
    let h = chars_of(hay);
    let n = chars_of(needle);
    includes(&h, &n)
}

/// `s` with every occurrence of `from` replaced by `to`.
pub fn replace_all(s: &str, from: &str, to: &str) -> (r: String)
    ensures
        r@ == substitute(s@, from@, to@),
{
    let text = chars_of(s);
    let pattern = chars_of(from);
    let n: usize = text.len();
    let m: usize = pattern.len();
    if m == 0 || n < m {
        return String::from_str(s);
    }
    let mut out = String::new();
    let mut kept: usize = 0;
    let mut i: usize = 0;
    assert(out@ + s@.subrange(0, 0) + substitute(s@.skip(0), from@, to@) =~= substitute(
        s@,
        from@,
        to@,
    )) by {
        assert(s@.skip(0) =~= s@);
    }
    while i <= n - m
        invariant
            0 < m <= n,
            n == text.len(),
            m == pattern.len(),
            text@ == s@,
            pattern@ == from@,
            kept <= i <= n,
            out@ + s@.subrange(kept as int, i as int) + substitute(s@.skip(i as int), from@, to@)
                == substitute(s@, from@, to@),
        decreases n - i,
    {
        let ghost rest = s@.skip(i as int);
        let ghost done = out@;
        if matches_at(&text, &pattern, i) {
            out.append(s.substring_char(kept, i));
            out.append(to);
            proof {
                assert(rest.take(m as int) =~= s@.subrange(i as int, i + m));
                assert(rest.skip(m as int) =~= s@.skip(i + m));
                let after = substitute(s@.skip(i + m), from@, to@);
                assert(done + s@.subrange(kept as int, i as int) + (to@ + after) =~= (done
                    + s@.subrange(kept as int, i as int) + to@) + s@.subrange(i + m, i + m)
                    + after);
            }
            i = i + m;
            kept = i;
        } else {
            proof {
                assert(rest.take(m as int) =~= s@.subrange(i as int, i + m));
                assert(rest.drop_first() =~= s@.skip(i + 1));
                let after = substitute(s@.skip(i + 1), from@, to@);
                assert(done + s@.subrange(kept as int, i as int) + (seq![rest[0]] + after) =~= done
                    + s@.subrange(kept as int, i + 1) + after);
            }
            i = i + 1;
        }
    }
    proof {
        assert(out@ + s@.subrange(kept as int, i as int) + s@.skip(i as int) =~= out@
            + s@.subrange(kept as int, n as int));
    }
    out.append(s.substring_char(kept, n));
    out
}

} // verus!
