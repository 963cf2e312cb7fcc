//! Character-level string helpers shared by the parsers.

use vstd::prelude::*;

verus! {

/// Appends one character to a `String` (std's `String::push`).
#[verifier::external_body]
pub(crate) fn push_char(s: &mut String, c: char)
    ensures
        final(s)@ == old(s)@.push(c),
{
    s.push(c);
}

/// The characters of `s`, in order.
pub fn chars_of(s: &str) -> (v: Vec<char>)
    ensures
        v@ == s@,
{
    let n = s.unicode_len();
    let mut v: Vec<char> = Vec::new();
    let mut i: usize = 0;
    while i < n
        invariant
            n == s@.len(),
            i <= n,
            v@ == s@.take(i as int),
        decreases n - i,
    {
        let c = s.get_char(i);
        v.push(c);
        i = i + 1;
        assert(v@ =~= s@.take(i as int));
    }
    assert(v@ =~= s@);
    v
}

/// Builds a `String` holding the characters `v[from..to]`.
pub fn string_from_range(v: &Vec<char>, from: usize, to: usize) -> (s: String)
    requires
        from <= to <= v.len(),
    ensures
        s@ == v@.subrange(from as int, to as int),
{
    let mut s = String::new();
    let mut i: usize = from;
    while i < to
        invariant
            from <= i <= to,
            to <= v.len(),
            s@ == v@.subrange(from as int, i as int),
        decreases to - i,
    {
        push_char(&mut s, v[i]);
        i = i + 1;
        assert(s@ =~= v@.subrange(from as int, i as int));
    }
    s
}

/// The view of an optional string slice.
pub open spec fn opt_view(o: Option<&str>) -> Option<Seq<char>> {
    match o {
        Some(s) => Some(s@),
        None => None,
    }
}

/// `a` and `b` hold the same characters.
pub fn str_eq(a: &str, b: &str) -> (r: bool)
    ensures
        r == (a@ == b@),
{
    let n = a.unicode_len();
    if n != b.unicode_len() {
        return false;
    }
    let mut i: usize = 0;
    while i < n
        invariant
            n == a@.len(),
            n == b@.len(),
            i <= n,
            forall|k: int| 0 <= k < i ==> a@[k] == b@[k],
        decreases n - i,
    {
        if a.get_char(i) != b.get_char(i) {
            return false;
        }
        i = i + 1;
    }
    assert(a@ =~= b@);
    true
}

/// `true` when `c` is an ASCII decimal digit.
pub open spec fn is_digit(c: char) -> bool {
    '0' <= c && c <= '9'
}

/// Exec form of [`is_digit`].
pub fn char_is_digit(c: char) -> (b: bool)
    ensures
        b == is_digit(c),
{
    '0' <= c && c <= '9'
}

/// Numeric value of an ASCII digit.
pub open spec fn digit_value(c: char) -> int {
    (c as int) - ('0' as int)
}


/// The characters of `s` from index `from` up to (not including) `to`.
pub open spec fn span(s: Seq<char>, from: usize, to: usize) -> Seq<char> {
    s.subrange(from as int, to as int)
}

/// The element of `s` at index `i`.
pub open spec fn at_u<A>(s: Seq<A>, i: usize) -> A {
    s[i as int]
}

/// `s` without its first `i` elements.
pub open spec fn skip_u<A>(s: Seq<A>, i: usize) -> Seq<A> {
    s.skip(i as int)
}

/// `s` without its first `i + 1` elements.
pub open spec fn skip_past<A>(s: Seq<A>, i: usize) -> Seq<A> {
    s.skip(i as int + 1)
}

/// Dropping the first character of a non-empty span advances its start.
pub proof fn lemma_span_step(v: Seq<char>, from: usize, to: usize)
    requires
        from < to <= v.len(),
    ensures
        span(v, from, to).drop_first() == span(v, (from + 1) as usize, to),
        span(v, from, to)[0] == v[from as int],
        span(v, from, to).len() > 0,
{
    assert(span(v, from, to).drop_first() =~= span(v, (from + 1) as usize, to));
}

/// Skipping into a span moves its start.
pub proof fn lemma_span_skip(v: Seq<char>, from: usize, to: usize, end: usize)
    requires
        from <= end <= to <= v.len(),
    ensures
        span(v, from, to).skip(end - from) == span(v, end, to),
{
    assert(span(v, from, to).skip(end - from) =~= span(v, end, to));
}

/// Stepping a skipped sequence.
pub proof fn lemma_skip_step<A>(s: Seq<A>, i: usize)
    requires
        i < s.len(),
    ensures
        skip_u(s, i)[0] == s[i as int],
        skip_u(s, i).drop_first() == skip_past(s, i),
        skip_u(s, i).len() > 0,
        i + 1 <= usize::MAX ==> skip_past(s, i) == skip_u(s, (i + 1) as usize),
{
    assert(skip_u(s, i).drop_first() =~= skip_past(s, i));
}

/// The pieces of `s` between occurrences of `sep`, like `str::split`: a
/// string with `k` separators has `k + 1` pieces, empty ones included.
pub open spec fn split_on(s: Seq<char>, sep: char) -> Seq<Seq<char>>
    decreases s.len(),
{
    if s.len() == 0 {
        seq![Seq::<char>::empty()]
    } else {
        let parts = split_on(s.drop_last(), sep);
        if s.last() == sep {
            parts.push(Seq::<char>::empty())
        } else {
            parts.update(parts.len() - 1, parts.last().push(s.last()))
        }
    }
}

/// `split_on` always yields at least one piece.
pub proof fn lemma_split_on_nonempty(s: Seq<char>, sep: char)
    ensures
        split_on(s, sep).len() >= 1,
    decreases s.len(),
{
    if s.len() > 0 {
        lemma_split_on_nonempty(s.drop_last(), sep);
    }
}

/// Splitting text joined by a separator gives the pieces of each side in
/// turn.
pub proof fn lemma_split_on_join(x: Seq<char>, y: Seq<char>, sep: char)
    ensures
        split_on(x + seq![sep] + y, sep) == split_on(x, sep) + split_on(y, sep),
    decreases y.len(),
{
    let z = x + seq![sep] + y;
    if y.len() == 0 {
        assert(z =~= x.push(sep));
        assert(z.drop_last() =~= x);
        assert(split_on(y, sep) =~= seq![Seq::<char>::empty()]);
        assert(split_on(x, sep).push(Seq::<char>::empty()) =~= split_on(x, sep) + seq![
            Seq::<char>::empty(),
        ]);
    } else {
        let y1 = y.drop_last();
        let c = y.last();
        assert(z.drop_last() =~= x + seq![sep] + y1);
        assert(z.last() == c);
        lemma_split_on_join(x, y1, sep);
        lemma_split_on_nonempty(y1, sep);
        let a = split_on(x, sep);
        let b = split_on(y1, sep);
        if c == sep {
            assert((a + b).push(Seq::<char>::empty()) =~= a + b.push(Seq::<char>::empty()));
        } else {
            let ab = a + b;
            assert(ab.last() == b.last());
            assert(ab.update(ab.len() - 1, ab.last().push(c)) =~= a + b.update(
                b.len() - 1,
                b.last().push(c),
            ));
        }
    }
}

/// Text without the separator is a single piece.
pub proof fn lemma_split_on_plain(s: Seq<char>, sep: char)
    requires
        !s.contains(sep),
    ensures
        split_on(s, sep) == seq![s],
    decreases s.len(),
{
    if s.len() == 0 {
        assert(s =~= Seq::<char>::empty());
    } else {
        let init = s.drop_last();
        assert(!init.contains(sep)) by {
            if init.contains(sep) {
                let k = choose|k: int| 0 <= k < init.len() && init[k] == sep;
                assert(s[k] == sep);
            }
        }
        lemma_split_on_plain(init, sep);
        assert(s.last() != sep) by {
            assert(s[s.len() - 1] == s.last());
        }
        assert(init.push(s.last()) =~= s);
        assert(seq![init].update(0, init.push(s.last())) =~= seq![s]);
    }
}

/// Index ranges `(start, end)` of the pieces of `v` between occurrences of
/// `sep`.
pub fn split_ranges(v: &Vec<char>, sep: char) -> (r: Vec<(usize, usize)>)
    ensures
        r@.len() == split_on(v@, sep).len(),
        forall|k: int|
            0 <= k < r@.len() ==> {
                &&& (#[trigger] r@[k]).0 <= r@[k].1 <= v.len()
                &&& span(v@, r@[k].0, r@[k].1) == split_on(v@, sep)[k]
            },
{
    let n = v.len();
    let mut r: Vec<(usize, usize)> = Vec::new();
    let mut start: usize = 0;
    let mut i: usize = 0;
    assert(v@.take(0) =~= Seq::<char>::empty());
    while i < n
        invariant
            n == v.len(),
            start <= i <= n,
            r@.len() + 1 == split_on(v@.take(i as int), sep).len(),
            forall|k: int|
                0 <= k < r@.len() ==> {
                    &&& (#[trigger] r@[k]).0 <= r@[k].1 <= i
                    &&& span(v@, r@[k].0, r@[k].1) == split_on(
                        v@.take(i as int),
                        sep,
                    )[k]
                },
            split_on(v@.take(i as int), sep).last() == span(v@, start, i),
        decreases n - i,
    {
        let ghost before = split_on(v@.take(i as int), sep);
        let c = v[i];
        assert(v@.take(i + 1).drop_last() =~= v@.take(i as int));
        assert(v@.take(i + 1).last() == c);
        if c == sep {
            r.push((start, i));
            start = i + 1;
            assert(span(v@, start, (i + 1) as usize) =~= Seq::<char>::empty());
        } else {
            assert(span(v@, start, (i + 1) as usize) =~= span(v@, start, i).push(c));
        }
        i = i + 1;
    }
    r.push((start, n));
    assert(v@.take(n as int) =~= v@);
    r
}


/// The ASCII digit for `d` (`0 <= d < 10`).
pub open spec fn digit_char(d: int) -> char {
    (d + 48) as char
}

/// Decimal representation of `n`, without leading zeros.
pub open spec fn decimal_digits(n: nat) -> Seq<char>
    decreases n,
{
    if n < 10 {
        seq![digit_char(n as int)]
    } else {
        decimal_digits(n / 10).push(digit_char((n % 10) as int))
    }
}

/// The ASCII digit for `d`.
fn digit_to_char(d: usize) -> (c: char)
    requires
        d < 10,
    ensures
        c == digit_char(d as int),
{
    if d == 0 {
        '0'
    } else if d == 1 {
        '1'
    } else if d == 2 {
        '2'
    } else if d == 3 {
        '3'
    } else if d == 4 {
        '4'
    } else if d == 5 {
        '5'
    } else if d == 6 {
        '6'
    } else if d == 7 {
        '7'
    } else if d == 8 {
        '8'
    } else {
        '9'
    }
}

/// Appends the decimal representation of `n` to `s`.
pub fn push_decimal(s: &mut String, n: usize)
    ensures
        final(s)@ == old(s)@ + decimal_digits(n as nat),
{
    push_decimal_u64(s, n as u64);
}

/// Appends the decimal representation of the `u64` `n` to `s`.
pub fn push_decimal_u64(s: &mut String, n: u64)
    ensures
        final(s)@ == old(s)@ + decimal_digits(n as nat),
{
    let mut rev: Vec<char> = Vec::new();
    let mut m: u64 = n;
    loop
        invariant_except_break
            0 < rev@.len() ==> decimal_digits(n as nat) == decimal_digits(m as nat) + rev@.reverse(),
            rev@.len() == 0 ==> m == n,
        ensures
            0 < rev@.len(),
            decimal_digits(n as nat) == rev@.reverse(),
        decreases m,
    {
        let c = digit_to_char((m % 10) as usize);
        proof {
            assert(c == digit_char((m % 10) as int));
        }
        let ghost old_rev = rev@;
        rev.push(c);
        assert(rev@.reverse() =~= seq![c] + old_rev.reverse());
        if m < 10 {
            assert(decimal_digits(m as nat) =~= seq![c]);
            assert(decimal_digits(n as nat) =~= rev@.reverse());
            break;
        }
        assert(decimal_digits(m as nat) == decimal_digits((m / 10) as nat).push(c));
        m = m / 10;
        assert(decimal_digits(n as nat) =~= decimal_digits(m as nat) + rev@.reverse());
    }
    let ghost start = s@;
    let mut k: usize = rev.len();
    while k > 0
        invariant
            k <= rev@.len(),
            s@ == start + rev@.reverse().take(rev@.len() - k),
            start == old(s)@,
            0 < rev@.len(),
            decimal_digits(n as nat) == rev@.reverse(),
        decreases k,
    {
        k = k - 1;
        push_char(s, rev[k]);
        assert(rev@.reverse().take(rev@.len() - k) =~= rev@.reverse().take(rev@.len() - k - 1).push(
            rev@[k as int],
        ));
    }
    assert(rev@.reverse().take(rev@.len() as int) =~= rev@.reverse());
}


/// `s` with every non-overlapping occurrence of `pat`, found left to right,
/// replaced by `rep` (what `str::replace` does for a non-empty pattern).
pub open spec fn replace_all(s: Seq<char>, pat: Seq<char>, rep: Seq<char>) -> Seq<char>
    decreases s.len(),
{
    if pat.len() == 0 || s.len() < pat.len() {
        s
    } else if s.take(pat.len() as int) == pat {
        rep + replace_all(s.skip(pat.len() as int), pat, rep)
    } else {
        seq![s[0]] + replace_all(s.drop_first(), pat, rep)
    }
}

/// `pat` occurs in `v` at index `at`.
pub(crate) fn occurs_at(v: &Vec<char>, at: usize, pat: &Vec<char>) -> (r: bool)
    requires
        at + pat.len() <= v.len(),
    ensures
        r == (v@.skip(at as int).take(pat@.len() as int) == pat@),
{
    let m = pat.len();
    let mut k: usize = 0;
    while k < m
        invariant
            m == pat@.len(),
            at + m <= v.len(),
            k <= m,
            forall|j: int| 0 <= j < k ==> v@[at + j] == pat@[j],
        decreases m - k,
    {
        if v[at + k] != pat[k] {
            assert(v@.skip(at as int).take(m as int)[k as int] != pat@[k as int]);
            return false;
        }
        k = k + 1;
    }
    assert(v@.skip(at as int).take(m as int) =~= pat@);
    true
}

/// Replace every occurrence of `pat` in `s` by `rep` (see [`replace_all`]).
pub fn replace_chars(s: &Vec<char>, pat: &Vec<char>, rep: &str) -> (r: String)
    requires
        pat@.len() > 0,
    ensures
        r@ == replace_all(s@, pat@, rep@),
{
    let n = s.len();
    let m = pat.len();
    let mut out = String::new();
    let mut i: usize = 0;
    assert(s@.skip(0) =~= s@);
    while i < n
        invariant
            n == s@.len(),
            m == pat@.len(),
            m > 0,
            i <= n,
            replace_all(s@, pat@, rep@) == out@ + replace_all(s@.skip(i as int), pat@, rep@),
        decreases n - i,
    {
        let ghost rest = s@.skip(i as int);
        if m <= n - i && occurs_at(s, i, pat) {
            out.append(rep);
            assert(rest.skip(m as int) =~= s@.skip(i + m));
            assert(replace_all(rest, pat@, rep@) == rep@ + replace_all(rest.skip(m as int), pat@, rep@));
            i = i + m;
        } else {
            push_char(&mut out, s[i]);
            assert(rest.drop_first() =~= s@.skip(i + 1));
            assert(rest[0] == s@[i as int]);
            proof {
                if rest.len() >= m {
                    assert(replace_all(rest, pat@, rep@) == seq![rest[0]] + replace_all(
                        rest.drop_first(),
                        pat@,
                        rep@,
                    ));
                } else {
                    assert(rest.drop_first().len() < m);
                    assert(replace_all(rest, pat@, rep@) == rest);
                    assert(replace_all(rest.drop_first(), pat@, rep@) == rest.drop_first());
                    assert(rest =~= seq![rest[0]] + rest.drop_first());
                }
            }
            i = i + 1;
        }
        assert(out@ + replace_all(s@.skip(i as int), pat@, rep@) =~= replace_all(s@, pat@, rep@));
    }
    assert(s@.skip(n as int).len() == 0);
    assert(out@ + replace_all(s@.skip(n as int), pat@, rep@) =~= out@);
    out
}


/// `s` after replacing, for each `(key, value)` of `vars` in turn, every
/// `open + key + close` placeholder by `value`.
pub open spec fn substitute_all(
    s: Seq<char>,
    vars: Seq<(String, String)>,
    open: Seq<char>,
    close: Seq<char>,
) -> Seq<char>
    decreases vars.len(),
{
    if vars.len() == 0 {
        s
    } else {
        substitute_all(
            replace_all(s, open + vars[0].0@ + close, vars[0].1@),
            vars.drop_first(),
            open,
            close,
        )
    }
}

/// `p` occurs somewhere in `s`.
pub open spec fn occurs_in(s: Seq<char>, p: Seq<char>) -> bool {
    exists|i: int| 0 <= i && i + p.len() <= s.len() && #[trigger] s.subrange(i, i + p.len()) == p
}

/// Replacing a pattern that does not occur changes nothing.
proof fn lemma_replace_absent(s: Seq<char>, pat: Seq<char>, rep: Seq<char>)
    requires
        pat.len() > 0,
        !occurs_in(s, pat),
    ensures
        replace_all(s, pat, rep) == s,
    decreases s.len(),
{
    if s.len() >= pat.len() {
        if s.take(pat.len() as int) == pat {
            assert(s.subrange(0int, 0int + pat.len()) =~= s.take(pat.len() as int));
            assert(occurs_in(s, pat));
        }
        let t = s.drop_first();
        assert(!occurs_in(t, pat)) by {
            if occurs_in(t, pat) {
                let i = choose|i: int|
                    0 <= i && i + pat.len() <= t.len() && #[trigger] t.subrange(i, i + pat.len())
                        == pat;
                assert(s.subrange(i + 1, i + 1 + pat.len()) =~= t.subrange(i, i + pat.len()));
            }
        }
        lemma_replace_absent(t, pat, rep);
        assert(seq![s[0]] + t =~= s);
    }
}

/// Law: substitution only touches placeholders — text in which the
/// placeholder opening never occurs comes out unchanged, whatever the
/// variables.
pub proof fn law_substitution_leaves_plain_text(
    s: Seq<char>,
    vars: Seq<(String, String)>,
    open: Seq<char>,
    close: Seq<char>,
)
    requires
        open.len() > 0,
        !occurs_in(s, open),
    ensures
        substitute_all(s, vars, open, close) == s,
    decreases vars.len(),
{
    if vars.len() > 0 {
        let pat = open + vars[0].0@ + close;
        assert(!occurs_in(s, pat)) by {
            if occurs_in(s, pat) {
                let i = choose|i: int|
                    0 <= i && i + pat.len() <= s.len() && #[trigger] s.subrange(i, i + pat.len())
                        == pat;
                assert(s.subrange(i, i + open.len()) =~= pat.subrange(0, open.len() as int));
                assert(pat.subrange(0, open.len() as int) =~= open);
            }
        }
        lemma_replace_absent(s, pat, vars[0].1@);
        law_substitution_leaves_plain_text(s, vars.drop_first(), open, close);
    }
}

/// Replace the placeholders `open + key + close` of each variable in turn
/// (see [`substitute_all`]).
pub fn substitute_placeholders(input: &str, vars: &Vec<(String, String)>, open: &str, close: &str) -> (r:
    String)
    requires
        open@.len() > 0,
    ensures
        r@ == substitute_all(input@, vars@, open@, close@),
{
    let mut acc = String::from_str(input);
    let mut j: usize = 0;
    assert(vars@.skip(0) =~= vars@);
    while j < vars.len()
        invariant
            j <= vars@.len(),
            open@.len() > 0,
            substitute_all(input@, vars@, open@, close@) == substitute_all(
                acc@,
                vars@.skip(j as int),
                open@,
                close@,
            ),
        decreases vars@.len() - j,
    {
        let mut pattern = String::new();
        pattern.append(open);
        pattern.append(vars[j].0.as_str());
        pattern.append(close);
        let pv = chars_of(pattern.as_str());
        let av = chars_of(acc.as_str());
        let next = replace_chars(&av, &pv, vars[j].1.as_str());
        assert(vars@.skip(j as int)[0] == vars@[j as int]);
        assert(vars@.skip(j as int).drop_first() =~= vars@.skip(j + 1));
        acc = next;
        j = j + 1;
    }
    acc
}


/// The first `c` in `x`, `c` and more is right after `x` when `x` holds no
/// `c`; in text without `c` there is none.
pub proof fn lemma_index_of_after(x: Seq<char>, c: char, rest: Seq<char>)
    requires
        !x.contains(c),
    ensures
        index_of(x + seq![c] + rest, c) == Some(x.len() as int),
        index_of(x, c) is None,
    decreases x.len(),
{
    let s = x + seq![c] + rest;
    if x.len() > 0 {
        assert(x[0] != c) by {
            if x[0] == c {
                assert(x.contains(c));
            }
        }
        assert(!x.drop_first().contains(c)) by {
            if x.drop_first().contains(c) {
                let k = choose|k: int| 0 <= k < x.drop_first().len() && x.drop_first()[k] == c;
                assert(x[k + 1] == c);
            }
        }
        lemma_index_of_after(x.drop_first(), c, rest);
        assert(s.drop_first() =~= x.drop_first() + seq![c] + rest);
        assert(s[0] == x[0]);
    } else {
        assert(s[0] == c);
    }
}

/// Index of the first occurrence of `c` in `s`.
pub open spec fn index_of(s: Seq<char>, c: char) -> Option<int>
    decreases s.len(),
{
    if s.len() == 0 {
        None
    } else if s[0] == c {
        Some(0)
    } else {
        match index_of(s.drop_first(), c) {
            Some(i) => Some(i + 1),
            None => None,
        }
    }
}

pub proof fn lemma_index_of_contains(s: Seq<char>, c: char)
    ensures
        index_of(s, c) is Some <==> s.contains(c),
        index_of(s, c) matches Some(i) ==> 0 <= i < s.len() && s[i] == c,
    decreases s.len(),
{
    if s.len() > 0 {
        lemma_index_of_contains(s.drop_first(), c);
        if s[0] != c && s.drop_first().contains(c) {
            let j = choose|j: int| 0 <= j < s.drop_first().len() && s.drop_first()[j] == c;
            assert(s[j + 1] == c);
        }
        if s.contains(c) && s[0] != c {
            let j = choose|j: int| 0 <= j < s.len() && s[j] == c;
            assert(s.drop_first()[j - 1] == c);
        }
    }
}

/// Index of the first `c` in `v[from..to]`, as an index of `v`.
pub fn find_char(v: &Vec<char>, from: usize, to: usize, c: char) -> (r: Option<usize>)
    requires
        from <= to <= v.len(),
    ensures
        match r {
            Some(j) => from <= j < to && v@[j as int] == c && index_of(span(v@, from, to), c)
                == Some(j - from),
            None => index_of(span(v@, from, to), c) is None,
        },
{
    let mut i: usize = from;
    while i < to
        invariant
            from <= i <= to <= v.len(),
            forall|k: int| from <= k < i ==> v@[k] != c,
            index_of(span(v@, from, to), c) == (match index_of(span(v@, i, to), c) {
                Some(j) => Some(j + (i - from)),
                None => None,
            }),
        decreases to - i,
    {
        assert(span(v@, i, to)[0] == v@[i as int]);
        assert(span(v@, i, to).drop_first() =~= span(v@, (i + 1) as usize, to));
        if v[i] == c {
            proof {
                lemma_index_of_contains(span(v@, from, to), c);
            }
            return Some(i);
        }
        i = i + 1;
    }
    None
}

/// Number of leading occurrences of `c` in `s`.
pub open spec fn lead_count(s: Seq<char>, c: char) -> nat
    decreases s.len(),
{
    if s.len() > 0 && s[0] == c {
        1 + lead_count(s.drop_first(), c)
    } else {
        0
    }
}

/// Number of trailing occurrences of `c` in `s`.
pub open spec fn trail_count(s: Seq<char>, c: char) -> nat
    decreases s.len(),
{
    if s.len() > 0 && s.last() == c {
        1 + trail_count(s.drop_last(), c)
    } else {
        0
    }
}

/// `s` without leading and trailing `c` (`str::trim_matches(c)`).
pub open spec fn trim_char(s: Seq<char>, c: char) -> Seq<char> {
    let t = s.skip(lead_count(s, c) as int);
    t.take(t.len() - trail_count(t, c))
}

/// `lead_count` is `n` when `s` starts with exactly `n` copies of `c`.
pub proof fn lemma_lead_count(s: Seq<char>, c: char, n: int)
    requires
        0 <= n <= s.len(),
        forall|k: int| 0 <= k < n ==> #[trigger] s[k] == c,
        n == s.len() || s[n] != c,
    ensures
        lead_count(s, c) == n,
    decreases n,
{
    if n > 0 {
        let t = s.drop_first();
        assert forall|k: int| 0 <= k < n - 1 implies #[trigger] t[k] == c by {
            assert(t[k] == s[k + 1]);
        }
        if n - 1 < t.len() {
            assert(t[n - 1] == s[n]);
        }
        lemma_lead_count(t, c, n - 1);
    }
}

proof fn lemma_trail_count(s: Seq<char>, c: char, n: int)
    requires
        0 <= n <= s.len(),
        forall|k: int| s.len() - n <= k < s.len() ==> #[trigger] s[k] == c,
        n == s.len() || s[s.len() - n - 1] != c,
    ensures
        trail_count(s, c) == n,
    decreases n,
{
    if n > 0 {
        let t = s.drop_last();
        assert forall|k: int| t.len() - (n - 1) <= k < t.len() implies #[trigger] t[k] == c by {
            assert(t[k] == s[k]);
        }
        if n - 1 < t.len() {
            assert(t[t.len() - (n - 1) - 1] == s[s.len() - n - 1]);
        }
        lemma_trail_count(t, c, n - 1);
    }
}

/// Bounds of `v[from..to]` without leading and trailing `c`.
pub fn trim_char_bounds(v: &Vec<char>, from: usize, to: usize, c: char) -> (r: (usize, usize))
    requires
        from <= to <= v.len(),
    ensures
        from <= r.0 <= r.1 <= to,
        span(v@, r.0, r.1) == trim_char(span(v@, from, to), c),
{
    let ghost s = span(v@, from, to);
    let mut a: usize = from;
    while a < to && v[a] == c
        invariant
            from <= a <= to <= v.len(),
            forall|k: int| from <= k < a ==> v@[k] == c,
        decreases to - a,
    {
        a = a + 1;
    }
    proof {
        assert forall|k: int| 0 <= k < a - from implies #[trigger] s[k] == c by {
            assert(s[k] == v@[from + k]);
        }
        if a < to {
            assert(s[a - from] == v@[a as int]);
        }
        lemma_lead_count(s, c, a - from);
    }
    let ghost t = s.skip(a - from);
    assert(t =~= span(v@, a, to));
    let mut b: usize = to;
    while b > a && v[b - 1] == c
        invariant
            from <= a <= b <= to <= v.len(),
            forall|k: int| b <= k < to ==> v@[k] == c,
        decreases b,
    {
        b = b - 1;
    }
    proof {
        assert forall|k: int| t.len() - (to - b) <= k < t.len() implies #[trigger] t[k] == c by {
            assert(t[k] == v@[a + k]);
        }
        if b > a {
            assert(t[t.len() - (to - b) - 1] == v@[b - 1]);
        }
        lemma_trail_count(t, c, to - b);
        assert(span(v@, a, b) =~= t.take(t.len() - trail_count(t, c)));
    }
    (a, b)
}

/// `needle` occurs somewhere in `hay` (always, for an empty needle).
pub open spec fn has_substring(hay: Seq<char>, needle: Seq<char>) -> bool {
    exists|i: int|
        0 <= i <= hay.len() - needle.len() && #[trigger] hay.skip(i).take(needle.len() as int)
            == needle
}

/// Whether `needle` occurs in `hay`, like `str::contains`.
pub fn contains_text(hay: &str, needle: &str) -> (r: bool)
    ensures
        r == has_substring(hay@, needle@),
{
    let v = chars_of(hay);
    let p = chars_of(needle);
    if p.len() > v.len() {
        return false;
    }
    if p.len() == 0 {
        assert(v@.skip(0).take(0) =~= p@);
        return true;
    }
    let last = v.len() - p.len();
    let mut i: usize = 0;
    while i <= last
        invariant
            v@ == hay@,
            p@ == needle@,
            0 < p.len() <= v.len(),
            last == v.len() - p.len(),
            i <= last + 1,
            forall|j: int| 0 <= j < i ==> #[trigger] v@.skip(j).take(p@.len() as int) != p@,
        decreases last + 1 - i,
    {
        if occurs_at(&v, i, &p) {
            return true;
        }
        i = i + 1;
    }
    false
}

} // verus!
