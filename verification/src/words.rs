//! Whitespace, trimming, whitespace-separated words, and unsigned parsing,
//! as `str::trim`, `str::split_whitespace` and `str::parse::<u32>` do them.

use vstd::prelude::*;
use crate::text::{span, chars_of, string_from_range};
use crate::numeric::{decimal_value, digit_run, scan_digits};

verus! {

/// Unicode `White_Space`, the set that `char::is_whitespace` tests.
pub open spec fn is_space(c: char) -> bool {
    ('\u{9}' <= c && c <= '\u{d}') || c == ' ' || c == '\u{85}' || c == '\u{a0}' || c
        == '\u{1680}' || ('\u{2000}' <= c && c <= '\u{200a}') || c == '\u{2028}' || c
        == '\u{2029}' || c == '\u{202f}' || c == '\u{205f}' || c == '\u{3000}'
}

/// Exec form of [`is_space`].
pub fn char_is_space(c: char) -> (r: bool)
    ensures
        r == is_space(c),
{
    ('\u{9}' <= c && c <= '\u{d}') || c == ' ' || c == '\u{85}' || c == '\u{a0}' || c
        == '\u{1680}' || ('\u{2000}' <= c && c <= '\u{200a}') || c == '\u{2028}' || c
        == '\u{2029}' || c == '\u{202f}' || c == '\u{205f}' || c == '\u{3000}'
}

/// Number of leading characters of `s` that are not whitespace.
pub open spec fn word_len(s: Seq<char>) -> nat
    decreases s.len(),
{
    if s.len() > 0 && !is_space(s[0]) {
        1 + word_len(s.drop_first())
    } else {
        0
    }
}

/// The whitespace-separated words of `s`, in order (`split_whitespace`).
pub open spec fn words(s: Seq<char>) -> Seq<Seq<char>>
    decreases s.len(),
{
    if s.len() == 0 {
        Seq::empty()
    } else if is_space(s[0]) {
        words(s.drop_first())
    } else {
        let n = word_len(s);
        proof {
            lemma_word_len_le(s);
        }
        seq![s.take(n as int)] + words(s.skip(n as int))
    }
}

pub proof fn lemma_word_len_le(s: Seq<char>)
    ensures
        word_len(s) <= s.len(),
    decreases s.len(),
{
    if s.len() > 0 && !is_space(s[0]) {
        lemma_word_len_le(s.drop_first());
    }
}

/// Number of leading whitespace characters of `s`.
pub open spec fn space_len(s: Seq<char>) -> nat
    decreases s.len(),
{
    if s.len() > 0 && is_space(s[0]) {
        1 + space_len(s.drop_first())
    } else {
        0
    }
}

/// Number of trailing whitespace characters of `s`.
pub open spec fn trailing_space_len(s: Seq<char>) -> nat
    decreases s.len(),
{
    if s.len() > 0 && is_space(s.last()) {
        1 + trailing_space_len(s.drop_last())
    } else {
        0
    }
}

/// `s` without leading and trailing whitespace (`str::trim`).
pub open spec fn trimmed(s: Seq<char>) -> Seq<char> {
    let t = s.skip(space_len(s) as int);
    t.take(t.len() - trailing_space_len(t))
}

proof fn lemma_word_len(s: Seq<char>, n: int)
    requires
        0 <= n <= s.len(),
        forall|k: int| 0 <= k < n ==> !is_space(#[trigger] s[k]),
        n == s.len() || is_space(s[n]),
    ensures
        word_len(s) == n,
    decreases n,
{
    if n > 0 {
        let t = s.drop_first();
        assert forall|k: int| 0 <= k < n - 1 implies !is_space(#[trigger] t[k]) by {
            assert(t[k] == s[k + 1]);
        }
        if n - 1 < t.len() {
            assert(t[n - 1] == s[n]);
        }
        lemma_word_len(t, n - 1);
    }
}

/// Leading whitespace starts no word.
pub proof fn lemma_words_after_spaces(pad: Seq<char>, x: Seq<char>)
    requires
        forall|k: int| 0 <= k < pad.len() ==> is_space(#[trigger] pad[k]),
    ensures
        words(pad + x) == words(x),
    decreases pad.len(),
{
    if pad.len() > 0 {
        assert((pad + x)[0] == pad[0]);
        assert((pad + x).drop_first() =~= pad.drop_first() + x);
        assert forall|k: int| 0 <= k < pad.drop_first().len() implies is_space(
            #[trigger] pad.drop_first()[k],
        ) by {
            assert(pad.drop_first()[k] == pad[k + 1]);
        }
        lemma_words_after_spaces(pad.drop_first(), x);
    } else {
        assert(pad + x =~= x);
    }
}

/// A word that ends at whitespace (or at the end) is the first word.
pub proof fn lemma_words_first(w: Seq<char>, rest: Seq<char>)
    requires
        w.len() > 0,
        forall|k: int| 0 <= k < w.len() ==> !is_space(#[trigger] w[k]),
        rest.len() == 0 || is_space(rest[0]),
    ensures
        words(w + rest) == seq![w] + words(rest),
{
    let s = w + rest;
    assert forall|k: int| 0 <= k < w.len() implies !is_space(#[trigger] s[k]) by {
        assert(s[k] == w[k]);
    }
    if rest.len() > 0 {
        assert(s[w.len() as int] == rest[0]);
    }
    lemma_word_len(s, w.len() as int);
    assert(s[0] == w[0]);
    assert(s.take(w.len() as int) =~= w);
    assert(s.skip(w.len() as int) =~= rest);
}

proof fn lemma_space_len(s: Seq<char>, n: int)
    requires
        0 <= n <= s.len(),
        forall|k: int| 0 <= k < n ==> is_space(#[trigger] s[k]),
        n == s.len() || !is_space(s[n]),
    ensures
        space_len(s) == n,
    decreases n,
{
    if n > 0 {
        let t = s.drop_first();
        assert forall|k: int| 0 <= k < n - 1 implies is_space(#[trigger] t[k]) by {
            assert(t[k] == s[k + 1]);
        }
        if n - 1 < t.len() {
            assert(t[n - 1] == s[n]);
        }
        lemma_space_len(t, n - 1);
    }
}

proof fn lemma_trailing_space_len(s: Seq<char>, n: int)
    requires
        0 <= n <= s.len(),
        forall|k: int| s.len() - n <= k < s.len() ==> is_space(#[trigger] s[k]),
        n == s.len() || !is_space(s[s.len() - n - 1]),
    ensures
        trailing_space_len(s) == n,
    decreases n,
{
    if n > 0 {
        let t = s.drop_last();
        assert forall|k: int| t.len() - (n - 1) <= k < t.len() implies is_space(#[trigger] t[k]) by {
            assert(t[k] == s[k]);
        }
        if n - 1 < t.len() {
            assert(t[t.len() - (n - 1) - 1] == s[s.len() - n - 1]);
        }
        lemma_trailing_space_len(t, n - 1);
    }
}

/// The trailing whitespace characters are whitespace.
proof fn lemma_trailing_spaces(s: Seq<char>)
    ensures
        trailing_space_len(s) <= s.len(),
        forall|k: int| s.len() - trailing_space_len(s) <= k < s.len() ==> is_space(#[trigger] s[k]),
    decreases s.len(),
{
    if s.len() > 0 && is_space(s.last()) {
        lemma_trailing_spaces(s.drop_last());
        assert forall|k: int| s.len() - trailing_space_len(s) <= k < s.len() implies is_space(
            #[trigger] s[k],
        ) by {
            if k < s.len() - 1 {
                assert(s[k] == s.drop_last()[k]);
            }
        }
    }
}

/// Trimming text that starts with a non-blank keeps every character up to
/// any non-blank one: the first `n` characters stay when the `n`-th is not
/// whitespace.
pub proof fn lemma_trimmed_keeps_prefix(s: Seq<char>, n: int)
    requires
        0 < n <= s.len(),
        !is_space(s[0]),
        !is_space(s[n - 1]),
    ensures
        trimmed(s).len() >= n,
        trimmed(s).take(n) == s.take(n),
{
    lemma_space_len(s, 0);
    assert(s.skip(0) =~= s);
    lemma_trailing_spaces(s);
    assert(trailing_space_len(s) <= s.len() - n) by {
        if trailing_space_len(s) > s.len() - n {
            assert(is_space(s[n - 1]));
        }
    }
    assert(trimmed(s).take(n) =~= s.take(n));
}

/// A word followed by one blank trims to the word.
pub proof fn lemma_trimmed_word_space(w: Seq<char>, c: char)
    requires
        w.len() > 0,
        !is_space(w[0]),
        !is_space(w.last()),
        is_space(c),
    ensures
        trimmed(w.push(c)) == w,
{
    let s = w.push(c);
    lemma_space_len(s, 0);
    assert(s.skip(0) =~= s);
    assert(s[s.len() - 2] == w.last());
    lemma_trailing_space_len(s, 1);
    assert(s.take(s.len() - 1) =~= w);
}

/// Bounds of the trimmed part of `v`: `v[from..to]` is `trimmed(v)`.
pub fn trim_bounds(v: &Vec<char>) -> (r: (usize, usize))
    ensures
        r.0 <= r.1 <= v.len(),
        span(v@, r.0, r.1) == trimmed(v@),
{
    let n = v.len();
    let mut a: usize = 0;
    while a < n && char_is_space(v[a])
        invariant
            a <= n == v.len(),
            forall|k: int| 0 <= k < a ==> is_space(#[trigger] v@[k]),
        decreases n - a,
    {
        a = a + 1;
    }
    proof {
        lemma_space_len(v@, a as int);
    }
    let ghost t = v@.skip(a as int);
    let mut b: usize = n;
    while b > a && char_is_space(v[b - 1])
        invariant
            a <= b <= n == v.len(),
            t == v@.skip(a as int),
            forall|k: int| b <= k < n ==> is_space(#[trigger] v@[k]),
        decreases b,
    {
        b = b - 1;
    }
    proof {
        assert forall|k: int| t.len() - (n - b) <= k < t.len() implies is_space(#[trigger] t[k]) by {
            assert(t[k] == v@[a + k]);
        }
        if b > a {
            assert(t[t.len() - (n - b) - 1] == v@[b - 1]);
        }
        lemma_trailing_space_len(t, n - b);
        assert(span(v@, a, b) =~= t.take(t.len() - trailing_space_len(t)));
    }
    (a, b)
}

/// Spans `(start, end)` of the words of `v[from..]`.
pub fn word_spans(v: &Vec<char>, from: usize) -> (r: Vec<(usize, usize)>)
    requires
        from <= v.len(),
    ensures
        r@.len() == words(v@.skip(from as int)).len(),
        forall|k: int|
            0 <= k < r@.len() ==> {
                &&& from <= (#[trigger] r@[k]).0 <= r@[k].1 <= v.len()
                &&& span(v@, r@[k].0, r@[k].1) == words(v@.skip(from as int))[k]
            },
{
    let n = v.len();
    let mut r: Vec<(usize, usize)> = Vec::new();
    let mut i: usize = from;
    let ghost all = words(v@.skip(from as int));
    while i < n
        invariant
            n == v.len(),
            from <= i <= n,
            all == words(v@.skip(from as int)),
            all == r@.map_values(|p: (usize, usize)| span(v@, p.0, p.1)) + words(
                v@.skip(i as int),
            ),
            forall|k: int|
                0 <= k < r@.len() ==> from <= (#[trigger] r@[k]).0 <= r@[k].1 <= i,
        decreases n - i,
    {
        let ghost rest = v@.skip(i as int);
        assert(rest[0] == v@[i as int]);
        if char_is_space(v[i]) {
            assert(rest.drop_first() =~= v@.skip(i + 1));
            i = i + 1;
        } else {
            let start = i;
            while i < n && !char_is_space(v[i])
                invariant
                    n == v.len(),
                    start <= i <= n,
                    forall|k: int| start <= k < i ==> !is_space(#[trigger] v@[k]),
                decreases n - i,
            {
                i = i + 1;
            }
            proof {
                assert forall|k: int| 0 <= k < i - start implies !is_space(#[trigger] rest[k]) by {
                    assert(rest[k] == v@[start + k]);
                }
                if i < n {
                    assert(rest[i - start] == v@[i as int]);
                }
                lemma_word_len(rest, i - start);
                assert(rest.take(i - start) =~= span(v@, start, i));
                assert(rest.skip(i - start) =~= v@.skip(i as int));
            }
            let ghost before = r@;
            r.push((start, i));
            assert(r@.map_values(|p: (usize, usize)| span(v@, p.0, p.1)) =~= before.map_values(
                |p: (usize, usize)| span(v@, p.0, p.1),
            ).push(span(v@, start, i)));
        }
    }
    proof {
        assert(v@.skip(i as int) =~= Seq::<char>::empty());
        assert forall|k: int| 0 <= k < r@.len() implies span(v@, r@[k].0, r@[k].1) == all[k] by {
            assert(r@.map_values(|p: (usize, usize)| span(v@, p.0, p.1))[k] == span(
                v@,
                r@[k].0,
                r@[k].1,
            ));
        }
    }
    r
}

/// `s` read as an unsigned decimal the way `str::parse::<u32>` reads it:
/// an optional `+`, then one or more digits, with a value that fits.
pub open spec fn parse_u32(s: Seq<char>) -> Option<int> {
    let t = if s.len() > 0 && s[0] == '+' {
        s.drop_first()
    } else {
        s
    };
    if t.len() > 0 && digit_run(t) == t.len() && decimal_value(t) <= u32::MAX {
        Some(decimal_value(t))
    } else {
        None
    }
}

/// Parses `v[from..to]` as a `u32` (see [`parse_u32`]).
pub fn parse_u32_span(v: &Vec<char>, from: usize, to: usize) -> (r: Option<u32>)
    requires
        from <= to <= v.len(),
    ensures
        match parse_u32(span(v@, from, to)) {
            Some(n) => r matches Some(x) && x as int == n,
            None => r is None,
        },
{
    let ghost s = span(v@, from, to);
    let start = if from < to && v[from] == '+' {
        from + 1
    } else {
        from
    };
    proof {
        if from < to && v@[from as int] == '+' {
            assert(s[0] == v@[from as int]);
            assert(s.drop_first() =~= span(v@, start, to));
        } else {
            assert(s =~= span(v@, start, to));
        }
    }
    if start == to {
        return None;
    }
    let (end, value) = scan_digits(v, start, to);
    if end != to {
        return None;
    }
    assert(span(v@, start, to).take(end - start) =~= span(v@, start, to));
    match value {
        Some(n) => {
            if n <= 4294967295 {
                Some(n as u32)
            } else {
                None
            }
        },
        None => None,
    }
}

/// `s` read as an unsigned decimal the way `str::parse::<u64>` reads it.
pub open spec fn parse_u64(s: Seq<char>) -> Option<int> {
    let t = if s.len() > 0 && s[0] == '+' {
        s.drop_first()
    } else {
        s
    };
    if t.len() > 0 && digit_run(t) == t.len() && decimal_value(t) <= u64::MAX {
        Some(decimal_value(t))
    } else {
        None
    }
}

/// Parses `v[from..to]` as a `u64` (see [`parse_u64`]).
pub fn parse_u64_span(v: &Vec<char>, from: usize, to: usize) -> (r: Option<u64>)
    requires
        from <= to <= v.len(),
    ensures
        match parse_u64(span(v@, from, to)) {
            Some(n) => r matches Some(x) && x as int == n,
            None => r is None,
        },
{
    let ghost s = span(v@, from, to);
    let start = if from < to && v[from] == '+' {
        from + 1
    } else {
        from
    };
    proof {
        if from < to && v@[from as int] == '+' {
            assert(s[0] == v@[from as int]);
            assert(s.drop_first() =~= span(v@, start, to));
        } else {
            assert(s =~= span(v@, start, to));
        }
    }
    if start == to {
        return None;
    }
    let (end, value) = scan_digits(v, start, to);
    if end != to {
        return None;
    }
    assert(span(v@, start, to).take(end - start) =~= span(v@, start, to));
    value
}

} // verus!
