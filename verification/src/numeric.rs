//! Leading-digit runs and their decimal values.

use vstd::prelude::*;
use crate::text::{is_digit, digit_value, char_is_digit, chars_of, decimal_digits, digit_char};

verus! {

/// Number of leading ASCII digits of `s`.
pub open spec fn digit_run(s: Seq<char>) -> nat
    decreases s.len(),
{
    if s.len() > 0 && is_digit(s[0]) {
        1 + digit_run(s.drop_first())
    } else {
        0
    }
}

/// Decimal value of a sequence of digits.
pub open spec fn decimal_value(s: Seq<char>) -> int
    decreases s.len(),
{
    if s.len() == 0 {
        0
    } else {
        decimal_value(s.drop_last()) * 10 + digit_value(s.last())
    }
}

/// The leading run of digits of `s` and what follows it, when the run is
/// non-empty and its value fits in a `u64`; otherwise `None`.
pub open spec fn numeric_prefix(s: Seq<char>) -> Option<(int, Seq<char>)> {
    let end = digit_run(s);
    if end == 0 || decimal_value(s.take(end as int)) > u64::MAX {
        None
    } else {
        Some((decimal_value(s.take(end as int)), s.skip(end as int)))
    }
}

/// `digit_run` is the index of the first non-digit (or the length).
pub proof fn lemma_digit_run(s: Seq<char>, end: int)
    requires
        0 <= end <= s.len(),
        forall|k: int| 0 <= k < end ==> is_digit(#[trigger] s[k]),
        end == s.len() || !is_digit(s[end]),
    ensures
        digit_run(s) == end,
    decreases end,
{
    if end > 0 {
        let t = s.drop_first();
        assert forall|k: int| 0 <= k < end - 1 implies is_digit(#[trigger] t[k]) by {
            assert(t[k] == s[k + 1]);
        }
        if end - 1 < t.len() {
            assert(t[end - 1] == s[end]);
        }
        lemma_digit_run(t, end - 1);
    }
}

/// Values of digit prefixes never decrease as the prefix grows.
pub proof fn lemma_decimal_step(s: Seq<char>, i: int)
    requires
        0 <= i < s.len(),
        is_digit(s[i]),
    ensures
        decimal_value(s.take(i + 1)) == decimal_value(s.take(i)) * 10 + digit_value(s[i]),
        decimal_value(s.take(i)) >= 0 ==> decimal_value(s.take(i + 1)) >= decimal_value(s.take(i)),
{
    assert(s.take(i + 1).drop_last() =~= s.take(i));
}

/// Values of digit sequences are non-negative.
pub proof fn lemma_decimal_nonneg(s: Seq<char>)
    requires
        forall|k: int| 0 <= k < s.len() ==> is_digit(#[trigger] s[k]),
    ensures
        decimal_value(s) >= 0,
    decreases s.len(),
{
    if s.len() > 0 {
        let t = s.drop_last();
        assert forall|k: int| 0 <= k < t.len() implies is_digit(#[trigger] t[k]) by {
            assert(t[k] == s[k]);
        }
        lemma_decimal_nonneg(t);
        assert(is_digit(s[s.len() - 1]));
    }
}

/// Scans the leading digits of `v`: returns the index just past the run and,
/// when it fits in a `u64`, the run's value.
pub fn scan_digits(v: &Vec<char>, from: usize, to: usize) -> (r: (usize, Option<u64>))
    requires
        from <= to <= v.len(),
    ensures
        ({
            let s = v@.subrange(from as int, to as int);
            &&& from <= r.0 <= to
            &&& r.0 - from == digit_run(s)
            &&& match r.1 {
                Some(n) => n as int == decimal_value(s.take(r.0 - from)),
                None => decimal_value(s.take(r.0 - from)) > u64::MAX,
            }
        }),
{
    let ghost s = v@.subrange(from as int, to as int);
    let mut i: usize = from;
    let mut value: Option<u64> = Some(0);
    assert(s.take(0) =~= Seq::<char>::empty());
    while i < to && char_is_digit(v[i])
        invariant
            from <= i <= to <= v.len(),
            s == v@.subrange(from as int, to as int),
            forall|k: int| 0 <= k < i - from ==> is_digit(#[trigger] s[k]),
            match value {
                Some(n) => n as int == decimal_value(s.take(i - from)),
                None => decimal_value(s.take(i - from)) > u64::MAX,
            },
        decreases to - i,
    {
        let ghost j: int = i - from;
        assert(s[j] == v@[i as int]);
        proof {
            lemma_decimal_step(s, j);
            assert forall|k: int| 0 <= k < j implies is_digit(#[trigger] s.take(j)[k]) by {}
            lemma_decimal_nonneg(s.take(j));
        }
        let d: u64 = ((v[i] as u32) - ('0' as u32)) as u64;
        assert(d as int == digit_value(s[j]));
        value = match value {
            Some(n) => match n.checked_mul(10) {
                Some(m) => m.checked_add(d),
                None => None,
            },
            None => None,
        };
        i = i + 1;
    }
    proof {
        let end = i - from;
        if i < to {
            assert(s[end] == v@[i as int]);
        }
        lemma_digit_run(s, end);
    }
    (i, value)
}

/// Splits a segment into its leading number (when it has one that fits in
/// a `u64`) and the remainder; a segment without such a number is returned
/// whole.
pub fn split_numeric_prefix(s: &str) -> (r: (Option<u64>, &str))
    ensures
        match numeric_prefix(s@) {
            Some((n, rest)) => r.0 == Some(n as u64) && r.1@ == rest,
            None => r.0 is None && r.1@ == s@,
        },
{
    let v = chars_of(s);
    let n = v.len();
    let (end, value) = scan_digits(&v, 0, n);
    assert(v@.subrange(0, n as int) =~= s@);
    if end == 0 {
        return (None, s);
    }
    match value {
        Some(x) => {
            let rest = s.substring_char(end, n);
            assert(rest@ =~= s@.skip(end as int));
            (Some(x), rest)
        },
        None => (None, s),
    }
}


/// A `usize` as a mathematical integer.
pub open spec fn uint(x: usize) -> int {
    x as int
}

/// Number of items left after applying an optional `limit` to `len` items.
pub open spec fn limited_len(len: nat, limit: Option<u32>) -> nat {
    match limit {
        Some(max) => if (max as nat) < len {
            max as nat
        } else {
            len
        },
        None => len,
    }
}

/// Widens a `u32` to a `usize`.
pub fn u32_to_usize(x: u32) -> (r: usize)
    ensures
        r as int == x as int,
{
    x as usize
}

/// The decimal digits of `n` are a non-empty run of digits whose value is
/// `n`.
pub proof fn lemma_decimal_digits_read_back(n: nat)
    ensures
        decimal_digits(n).len() > 0,
        forall|k: int| 0 <= k < decimal_digits(n).len() ==> is_digit(#[trigger] decimal_digits(n)[k]),
        decimal_value(decimal_digits(n)) == n,
    decreases n,
{
    if n < 10 {
        let c = digit_char(n as int);
        assert(c as int == n + 48);
        assert(decimal_digits(n) == seq![c]);
        assert(seq![c].drop_last() =~= Seq::<char>::empty());
        assert(decimal_value(Seq::<char>::empty()) == 0);
        assert(decimal_value(seq![c]) == decimal_value(Seq::<char>::empty()) * 10 + digit_value(c));
    } else {
        lemma_decimal_digits_read_back(n / 10);
        let prev = decimal_digits(n / 10);
        let c = digit_char((n % 10) as int);
        assert(c as int == n % 10 + 48);
        assert(decimal_digits(n) == prev.push(c));
        assert(prev.push(c).drop_last() =~= prev);
        assert forall|k: int| 0 <= k < prev.push(c).len() implies is_digit(#[trigger] prev.push(c)[k]) by {
            if k < prev.len() {
                assert(prev.push(c)[k] == prev[k]);
            }
        }
        assert(decimal_value(prev.push(c)) == decimal_value(prev) * 10 + digit_value(c));
        assert((n / 10) * 10 + n % 10 == n);
    }
}

/// A run made only of digits is its own digit run.
pub proof fn lemma_digit_run_whole(s: Seq<char>)
    requires
        forall|k: int| 0 <= k < s.len() ==> is_digit(#[trigger] s[k]),
    ensures
        digit_run(s) == s.len(),
    decreases s.len(),
{
    if s.len() > 0 {
        assert forall|k: int| 0 <= k < s.drop_first().len() implies is_digit(
            #[trigger] s.drop_first()[k],
        ) by {
            assert(s.drop_first()[k] == s[k + 1]);
        }
        lemma_digit_run_whole(s.drop_first());
    }
}

} // verus!
