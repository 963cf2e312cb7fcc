//! Version-aware ordering of option values.
//!
//! A version string is split on `'.'` into segments.  A segment that starts
//! with a number (fitting in a `u64`) is ordered by that number, then a bare
//! number after one with a suffix (`"9" > "9-pre2"`), then by the suffix; such
//! segments come before segments without a number, which are ordered as
//! plain strings.  Segment lists are compared pair-wise and a longer list
//! wins a tie.  The resulting relation is a total preorder (see the laws
//! below), which is what a comparison sort needs.

use std::cmp::Ordering;
use vstd::prelude::*;
use crate::text::{
    at_u, span, skip_u, split_on, split_ranges, chars_of, lemma_span_step, lemma_span_skip,
    lemma_skip_step, lemma_split_on_join, lemma_split_on_nonempty,
};
use crate::numeric::{numeric_prefix, scan_digits};

verus! {

/// The opposite ordering.
pub open spec fn flip(o: Ordering) -> Ordering {
    match o {
        Ordering::Less => Ordering::Greater,
        Ordering::Equal => Ordering::Equal,
        Ordering::Greater => Ordering::Less,
    }
}

/// `o` says "not greater".
pub open spec fn not_greater(o: Ordering) -> bool {
    o != Ordering::Greater
}

/// Lexicographic order of character sequences (the order of `str::cmp`,
/// since UTF-8 byte order agrees with code-point order).
pub open spec fn lex_order(a: Seq<char>, b: Seq<char>) -> Ordering
    decreases a.len(),
{
    if a.len() == 0 {
        if b.len() == 0 {
            Ordering::Equal
        } else {
            Ordering::Less
        }
    } else if b.len() == 0 {
        Ordering::Greater
    } else if a[0] < b[0] {
        Ordering::Less
    } else if b[0] < a[0] {
        Ordering::Greater
    } else {
        lex_order(a.drop_first(), b.drop_first())
    }
}

/// Order of two version segments.
pub open spec fn segment_order(a: Seq<char>, b: Seq<char>) -> Ordering {
    match (numeric_prefix(a), numeric_prefix(b)) {
        (Some((x, ar)), Some((y, br))) => {
            if x < y {
                Ordering::Less
            } else if y < x {
                Ordering::Greater
            } else if ar.len() == 0 && br.len() > 0 {
                Ordering::Greater
            } else if ar.len() > 0 && br.len() == 0 {
                Ordering::Less
            } else {
                lex_order(ar, br)
            }
        },
        (Some(_), None) => Ordering::Less,
        (None, Some(_)) => Ordering::Greater,
        (None, None) => lex_order(a, b),
    }
}

/// Pair-wise order of segment lists; a longer list wins a tie.
pub open spec fn parts_order(x: Seq<Seq<char>>, y: Seq<Seq<char>>) -> Ordering
    decreases x.len(),
{
    if x.len() == 0 {
        if y.len() == 0 {
            Ordering::Equal
        } else {
            Ordering::Less
        }
    } else if y.len() == 0 {
        Ordering::Greater
    } else {
        let c = segment_order(x[0], y[0]);
        if c != Ordering::Equal {
            c
        } else {
            parts_order(x.drop_first(), y.drop_first())
        }
    }
}

/// Version order of two strings.
pub open spec fn version_order(a: Seq<char>, b: Seq<char>) -> Ordering {
    parts_order(split_on(a, '.'), split_on(b, '.'))
}

// ─── Laws of the lexicographic order ───

/// Swapping the arguments of the lexicographic order flips it.
pub proof fn lemma_lex_flip(a: Seq<char>, b: Seq<char>)
    ensures
        lex_order(a, b) == flip(lex_order(b, a)),
    decreases a.len(),
{
    if a.len() > 0 && b.len() > 0 && a[0] == b[0] {
        lemma_lex_flip(a.drop_first(), b.drop_first());
    }
}

/// The lexicographic order says "equal" exactly for equal sequences.
pub proof fn lemma_lex_equal(a: Seq<char>, b: Seq<char>)
    ensures
        lex_order(a, b) == Ordering::Equal <==> a == b,
    decreases a.len(),
{
    if a.len() > 0 && b.len() > 0 {
        if a[0] == b[0] {
            lemma_lex_equal(a.drop_first(), b.drop_first());
            assert(a =~= seq![a[0]] + a.drop_first());
            assert(b =~= seq![b[0]] + b.drop_first());
            if a == b {
                assert(a.drop_first() =~= b.drop_first());
            }
        } else {
            assert(a != b);
        }
    } else if a.len() == 0 && b.len() == 0 {
        assert(a =~= b);
    } else {
        assert(a.len() != b.len());
    }
}

/// "Not greater" and "less" chain in the lexicographic order.
pub proof fn lemma_lex_trans(a: Seq<char>, b: Seq<char>, c: Seq<char>)
    ensures
        not_greater(lex_order(a, b)) && not_greater(lex_order(b, c)) ==> not_greater(
            lex_order(a, c),
        ),
        lex_order(a, b) == Ordering::Less && not_greater(lex_order(b, c)) ==> lex_order(a, c)
            == Ordering::Less,
        not_greater(lex_order(a, b)) && lex_order(b, c) == Ordering::Less ==> lex_order(a, c)
            == Ordering::Less,
    decreases a.len(),
{
    if a.len() > 0 && b.len() > 0 && c.len() > 0 {
        lemma_lex_trans(a.drop_first(), b.drop_first(), c.drop_first());
    }
}

// ─── Laws of the segment order ───

/// Segment order is antisymmetric: swapping the arguments flips the result.
pub proof fn lemma_segment_flip(a: Seq<char>, b: Seq<char>)
    ensures
        segment_order(a, b) == flip(segment_order(b, a)),
{
    match (numeric_prefix(a), numeric_prefix(b)) {
        (Some((x, ar)), Some((y, br))) => lemma_lex_flip(ar, br),
        (None, None) => lemma_lex_flip(a, b),
        _ => {},
    }
}

/// Every segment is equivalent to itself.
pub proof fn lemma_segment_refl(a: Seq<char>)
    ensures
        segment_order(a, a) == Ordering::Equal,
{
    match numeric_prefix(a) {
        Some((x, ar)) => lemma_lex_equal(ar, ar),
        None => lemma_lex_equal(a, a),
    }
}

/// "Not greater" is transitive on segments, and so is "less".
pub proof fn lemma_segment_trans(a: Seq<char>, b: Seq<char>, c: Seq<char>)
    ensures
        not_greater(segment_order(a, b)) && not_greater(segment_order(b, c)) ==> not_greater(
            segment_order(a, c),
        ),
        segment_order(a, b) == Ordering::Less && not_greater(segment_order(b, c))
            ==> segment_order(a, c) == Ordering::Less,
        not_greater(segment_order(a, b)) && segment_order(b, c) == Ordering::Less
            ==> segment_order(a, c) == Ordering::Less,
{
    match (numeric_prefix(a), numeric_prefix(b), numeric_prefix(c)) {
        (Some((x, ar)), Some((y, br)), Some((z, cr))) => {
            lemma_lex_trans(ar, br, cr);
        },
        (None, None, None) => {
            lemma_lex_trans(a, b, c);
        },
        _ => {},
    }
}

// ─── Laws of the segment-list order ───

proof fn lemma_parts_flip(x: Seq<Seq<char>>, y: Seq<Seq<char>>)
    ensures
        parts_order(x, y) == flip(parts_order(y, x)),
    decreases x.len(),
{
    if x.len() > 0 && y.len() > 0 {
        lemma_segment_flip(x[0], y[0]);
        lemma_parts_flip(x.drop_first(), y.drop_first());
    }
}

proof fn lemma_parts_refl(x: Seq<Seq<char>>)
    ensures
        parts_order(x, x) == Ordering::Equal,
    decreases x.len(),
{
    if x.len() > 0 {
        lemma_segment_refl(x[0]);
        lemma_parts_refl(x.drop_first());
    }
}

proof fn lemma_parts_trans(x: Seq<Seq<char>>, y: Seq<Seq<char>>, z: Seq<Seq<char>>)
    ensures
        not_greater(parts_order(x, y)) && not_greater(parts_order(y, z)) ==> not_greater(
            parts_order(x, z),
        ),
        parts_order(x, y) == Ordering::Less && not_greater(parts_order(y, z)) ==> parts_order(
            x,
            z,
        ) == Ordering::Less,
        not_greater(parts_order(x, y)) && parts_order(y, z) == Ordering::Less ==> parts_order(
            x,
            z,
        ) == Ordering::Less,
    decreases x.len(),
{
    if x.len() > 0 && y.len() > 0 && z.len() > 0 {
        lemma_segment_trans(x[0], y[0], z[0]);
        lemma_segment_flip(x[0], y[0]);
        lemma_segment_flip(y[0], z[0]);
        lemma_segment_flip(x[0], z[0]);
        lemma_segment_trans(z[0], x[0], y[0]);
        lemma_segment_trans(y[0], z[0], x[0]);
        lemma_parts_trans(x.drop_first(), y.drop_first(), z.drop_first());
    }
}

// ─── The laws of the version order ───

/// Swapping the two versions flips the comparison.
pub proof fn law_version_antisymmetric(a: Seq<char>, b: Seq<char>)
    ensures
        version_order(a, b) == flip(version_order(b, a)),
{
    lemma_parts_flip(split_on(a, '.'), split_on(b, '.'));
}

/// Every version compares equal to itself.
pub proof fn law_version_reflexive(a: Seq<char>)
    ensures
        version_order(a, a) == Ordering::Equal,
{
    lemma_parts_refl(split_on(a, '.'));
}

/// The version order is transitive: "not greater" chains, and a chain
/// with one strict step is strict.
pub proof fn law_version_transitive(a: Seq<char>, b: Seq<char>, c: Seq<char>)
    ensures
        not_greater(version_order(a, b)) && not_greater(version_order(b, c)) ==> not_greater(
            version_order(a, c),
        ),
        version_order(a, b) == Ordering::Less && not_greater(version_order(b, c))
            ==> version_order(a, c) == Ordering::Less,
        not_greater(version_order(a, b)) && version_order(b, c) == Ordering::Less
            ==> version_order(a, c) == Ordering::Less,
{
    lemma_parts_trans(split_on(a, '.'), split_on(b, '.'), split_on(c, '.'));
}

/// A segment list followed by more segments is greater than the list alone.
proof fn lemma_parts_extended(x: Seq<Seq<char>>, y: Seq<Seq<char>>)
    requires
        y.len() > 0,
    ensures
        parts_order(x, x + y) == Ordering::Less,
        parts_order(x + y, x) == Ordering::Greater,
    decreases x.len(),
{
    if x.len() > 0 {
        lemma_segment_refl(x[0]);
        assert((x + y)[0] == x[0]);
        assert((x + y).drop_first() =~= x.drop_first() + y);
        lemma_parts_extended(x.drop_first(), y);
    }
}

/// A version followed by `.` and more text is greater than the version
/// alone: when all shared segments are equal, more segments win
/// (`"1.21.1" > "1.21"`, `"1.21.0" > "1.21"`).
pub proof fn law_version_longer_is_greater(a: Seq<char>, s: Seq<char>)
    ensures
        version_order(a, a + seq!['.'] + s) == Ordering::Less,
        version_order(a + seq!['.'] + s, a) == Ordering::Greater,
{
    lemma_split_on_join(a, s, '.');
    lemma_split_on_nonempty(s, '.');
    lemma_parts_extended(split_on(a, '.'), split_on(s, '.'));
}

/// Segment order is a total preorder (the law that the segment comparison
/// promises): antisymmetric, reflexive and transitive.
pub proof fn law_segment_total_preorder(a: Seq<char>, b: Seq<char>, c: Seq<char>)
    ensures
        segment_order(a, b) == flip(segment_order(b, a)),
        segment_order(a, a) == Ordering::Equal,
        not_greater(segment_order(a, b)) && not_greater(segment_order(b, c)) ==> not_greater(
            segment_order(a, c),
        ),
{
    lemma_segment_flip(a, b);
    lemma_segment_refl(a);
    lemma_segment_trans(a, b, c);
}


// ─── Executable comparisons ───

/// Lexicographic comparison of `a[af..at]` and `b[bf..bt]`.
fn lex_compare(a: &Vec<char>, af: usize, at: usize, b: &Vec<char>, bf: usize, bt: usize) -> (r:
    Ordering)
    requires
        af <= at <= a.len(),
        bf <= bt <= b.len(),
    ensures
        r == lex_order(span(a@, af, at), span(b@, bf, bt)),
{
    let mut i: usize = af;
    let mut j: usize = bf;
    while i < at && j < bt
        invariant
            af <= i <= at <= a.len(),
            bf <= j <= bt <= b.len(),
            lex_order(span(a@, af, at), span(b@, bf, bt)) == lex_order(
                span(a@, i, at),
                span(b@, j, bt),
            ),
        decreases at - i,
    {
        proof {
            lemma_span_step(a@, i, at);
            lemma_span_step(b@, j, bt);
        }
        if a[i] < b[j] {
            return Ordering::Less;
        }
        if b[j] < a[i] {
            return Ordering::Greater;
        }
        i = i + 1;
        j = j + 1;
    }
    if i < at {
        Ordering::Greater
    } else if j < bt {
        Ordering::Less
    } else {
        Ordering::Equal
    }
}

/// Lexicographic comparison of two strings (the order of `str::cmp`).
pub fn str_order(a: &str, b: &str) -> (r: Ordering)
    ensures
        r == lex_order(a@, b@),
{
    let av = chars_of(a);
    let bv = chars_of(b);
    assert(span(av@, 0, av.len()) =~= a@);
    assert(span(bv@, 0, bv.len()) =~= b@);
    lex_compare(&av, 0, av.len(), &bv, 0, bv.len())
}

/// Segment comparison of `a[af..at]` and `b[bf..bt]`.
fn compare_segment_spans(
    a: &Vec<char>,
    af: usize,
    at: usize,
    b: &Vec<char>,
    bf: usize,
    bt: usize,
) -> (r: Ordering)
    requires
        af <= at <= a.len(),
        bf <= bt <= b.len(),
    ensures
        r == segment_order(span(a@, af, at), span(b@, bf, bt)),
{
    let (ae, an) = scan_digits(a, af, at);
    let (be, bn) = scan_digits(b, bf, bt);
    proof {
        lemma_span_skip(a@, af, at, ae);
        lemma_span_skip(b@, bf, bt, be);
    }
    let a_num = if ae == af {
        None
    } else {
        an
    };
    let b_num = if be == bf {
        None
    } else {
        bn
    };
    match (a_num, b_num) {
        (Some(x), Some(y)) => {
            if x < y {
                Ordering::Less
            } else if y < x {
                Ordering::Greater
            } else if ae == at && be < bt {
                Ordering::Greater
            } else if ae < at && be == bt {
                Ordering::Less
            } else {
                lex_compare(a, ae, at, b, be, bt)
            }
        },
        (Some(_), None) => Ordering::Less,
        (None, Some(_)) => Ordering::Greater,
        (None, None) => lex_compare(a, af, at, b, bf, bt),
    }
}

/// Compare two version segments (see the module documentation).
pub fn compare_segments(a: &str, b: &str) -> (r: Ordering)
    ensures
        r == segment_order(a@, b@),
{
    let av = chars_of(a);
    let bv = chars_of(b);
    let an = av.len();
    let bn = bv.len();
    assert(span(av@, 0, an) =~= a@);
    assert(span(bv@, 0, bn) =~= b@);
    compare_segment_spans(&av, 0, an, &bv, 0, bn)
}

/// Compare two strings using version-aware logic (see the module
/// documentation).
pub fn version_cmp(a: &str, b: &str) -> (r: Ordering)
    ensures
        r == version_order(a@, b@),
{
    let av = chars_of(a);
    let bv = chars_of(b);
    let ap = split_ranges(&av, '.');
    let bp = split_ranges(&bv, '.');
    let ghost x = split_on(a@, '.');
    let ghost y = split_on(b@, '.');
    let mut i: usize = 0;
    assert(skip_u(x, 0) =~= x);
    assert(skip_u(y, 0) =~= y);
    while i < ap.len() && i < bp.len()
        invariant
            x == split_on(av@, '.'),
            y == split_on(bv@, '.'),
            version_order(a@, b@) == parts_order(x, y),
            ap@.len() == x.len(),
            bp@.len() == y.len(),
            forall|k: int|
                0 <= k < ap@.len() ==> {
                    &&& (#[trigger] ap@[k]).0 <= ap@[k].1 <= av.len()
                    &&& span(av@, ap@[k].0, ap@[k].1) == x[k]
                },
            forall|k: int|
                0 <= k < bp@.len() ==> {
                    &&& (#[trigger] bp@[k]).0 <= bp@[k].1 <= bv.len()
                    &&& span(bv@, bp@[k].0, bp@[k].1) == y[k]
                },
            i <= ap@.len(),
            i <= bp@.len(),
            parts_order(x, y) == parts_order(skip_u(x, i), skip_u(y, i)),
        decreases ap@.len() - i,
    {
        let (af, at) = ap[i];
        let (bf, bt) = bp[i];
        let c = compare_segment_spans(&av, af, at, &bv, bf, bt);
        proof {
            lemma_skip_step(x, i);
            lemma_skip_step(y, i);
            assert(at_u(ap@, i) == (af, at));
            assert(at_u(bp@, i) == (bf, bt));
            assert(skip_u(x, i)[0] == span(av@, af, at));
            assert(skip_u(y, i)[0] == span(bv@, bf, bt));
            assert(c == segment_order(skip_u(x, i)[0], skip_u(y, i)[0]));
        }
        match c {
            Ordering::Equal => {},
            _ => {
                assert(parts_order(skip_u(x, i), skip_u(y, i)) == c);
                return c;
            },
        }
        i = i + 1;
    }
    if i < ap.len() {
        Ordering::Greater
    } else if i < bp.len() {
        Ordering::Less
    } else {
        Ordering::Equal
    }
}

} // verus!
