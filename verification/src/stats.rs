//! Reading resource figures out of `/proc` text.

use vstd::prelude::*;
use crate::text::{
    chars_of, span, split_on, split_ranges, string_from_range, decimal_digits, is_digit,
    lemma_split_on_plain, lemma_split_on_join,
};
use crate::numeric::{lemma_decimal_digits_read_back, lemma_digit_run_whole};
use crate::words::{
    parse_u64, parse_u64_span, word_spans, words, is_space, lemma_words_after_spaces,
    lemma_words_first,
};

verus! {

/// The figure of a `/proc/<pid>/status` field such as `"   12345 kB"`: its
/// first word read as a number of kilobytes.
pub open spec fn kb_line_value(s: Seq<char>) -> Option<int> {
    let ws = words(s);
    if ws.len() == 0 {
        None
    } else {
        parse_u64(ws[0])
    }
}

/// The number of kilobytes a status field gives (see [`kb_line_value`]).
pub fn kb_line_kilobytes(s: &str) -> (r: Option<u64>)
    ensures
        match kb_line_value(s@) {
            Some(n) => r matches Some(x) && x as int == n,
            None => r is None,
        },
{
    let v = chars_of(s);
    let spans = word_spans(&v, 0);
    assert(v@.skip(0) =~= v@);
    if spans.len() == 0 {
        return None;
    }
    let (a, b) = spans[0];
    parse_u64_span(&v, a, b)
}

/// The bytes a status field gives: its kilobytes times 1024.
pub fn parse_kb_line(s: &str) -> (r: Option<u64>)
    requires
        kb_line_value(s@) matches Some(n) ==> n * 1024 <= u64::MAX,
    ensures
        match kb_line_value(s@) {
            Some(n) => r matches Some(x) && x as int == n * 1024,
            None => r is None,
        },
{
    match kb_line_kilobytes(s) {
        Some(kb) => Some(kb * 1024),
        None => None,
    }
}

// ─── /proc/<pid>/status ───

/// `l` starts with `p`.
pub open spec fn starts_with(l: Seq<char>, p: Seq<char>) -> bool {
    l.len() >= p.len() && l.take(p.len() as int) == p
}

/// The bytes a status field gives, when its figure reads.
pub open spec fn kb_bytes(rest: Seq<char>) -> Option<int> {
    match kb_line_value(rest) {
        Some(k) => Some(k * 1024),
        None => None,
    }
}

/// The figure of a status field, if any, fits in a `u64` once in bytes.
pub open spec fn kb_fits(rest: Seq<char>) -> bool {
    kb_line_value(rest) matches Some(k) ==> k * 1024 <= u64::MAX
}

/// The state after one line of a status file: a `VmRSS:` line sets the
/// resident size, a `VmSwap:` line the swap size.
pub open spec fn status_step(l: Seq<char>, rss: Option<int>, swap: Option<int>) -> (
    Option<int>,
    Option<int>,
) {
    if starts_with(l, "VmRSS:"@) {
        (kb_bytes(l.skip(6)), swap)
    } else if starts_with(l, "VmSwap:"@) {
        (rss, kb_bytes(l.skip(7)))
    } else {
        (rss, swap)
    }
}

/// The resident and swap sizes read from the status lines, line by line,
/// stopping as soon as both are known.
pub open spec fn status_scan(lines: Seq<Seq<char>>, rss: Option<int>, swap: Option<int>) -> (
    Option<int>,
    Option<int>,
)
    decreases lines.len(),
{
    if lines.len() == 0 {
        (rss, swap)
    } else {
        let next = status_step(lines[0], rss, swap);
        if next.0 is Some && next.1 is Some {
            next
        } else {
            status_scan(lines.drop_first(), next.0, next.1)
        }
    }
}

/// Every field the scan reads fits in a `u64` once in bytes.
pub open spec fn status_fits(lines: Seq<Seq<char>>, rss: Option<int>, swap: Option<int>) -> bool
    decreases lines.len(),
{
    if lines.len() == 0 {
        true
    } else {
        let l = lines[0];
        let ok = if starts_with(l, "VmRSS:"@) {
            kb_fits(l.skip(6))
        } else if starts_with(l, "VmSwap:"@) {
            kb_fits(l.skip(7))
        } else {
            true
        };
        let next = status_step(l, rss, swap);
        ok && (next.0 is Some && next.1 is Some || status_fits(lines.drop_first(), next.0, next.1))
    }
}

fn span_starts_with(v: &Vec<char>, from: usize, to: usize, p: &str) -> (r: bool)
    requires
        from <= to <= v.len(),
    ensures
        r == starts_with(span(v@, from, to), p@),
{
    let pv = chars_of(p);
    if pv.len() > to - from {
        return false;
    }
    let mut i: usize = 0;
    while i < pv.len()
        invariant
            pv@ == p@,
            from <= to <= v.len(),
            pv.len() <= to - from,
            i <= pv.len(),
            forall|k: int| 0 <= k < i ==> v@[from + k] == pv@[k],
        decreases pv.len() - i,
    {
        if v[from + i] != pv[i] {
            assert(span(v@, from, to).take(pv@.len() as int)[i as int] != pv@[i as int]);
            return false;
        }
        i = i + 1;
    }
    assert(span(v@, from, to).take(pv@.len() as int) =~= pv@);
    true
}

fn field_kb(v: &Vec<char>, from: usize, to: usize) -> (r: Option<u64>)
    requires
        from <= to <= v.len(),
    ensures
        match kb_line_value(span(v@, from, to)) {
            Some(n) => r matches Some(x) && x as int == n,
            None => r is None,
        },
{
    let rest = string_from_range(v, from, to);
    kb_line_kilobytes(rest.as_str())
}

fn times_kb(kb: Option<u64>) -> (r: (bool, Option<u64>))
    ensures
        r.0 == (kb matches Some(k) ==> k * 1024 <= u64::MAX),
        r.0 ==> r.1 == match kb {
            Some(k) => Some((k * 1024) as u64),
            None => None::<u64>,
        },
{
    match kb {
        Some(k) => match k.checked_mul(1024) {
            Some(b) => (true, Some(b)),
            None => (false, None),
        },
        None => (true, None),
    }
}

/// A size as a mathematical integer.
pub open spec fn size_int(o: Option<u64>) -> Option<int> {
    match o {
        Some(x) => Some(x as int),
        None => None,
    }
}

/// Scan a status file: whether every field read fits, and the sizes read.
fn scan_status(contents: &str) -> (r: (bool, Option<u64>, Option<u64>))
    ensures
        r.0 == status_fits(split_on(contents@, '\n'), None, None),
        r.0 ==> status_scan(split_on(contents@, '\n'), None, None) == (
            size_int(r.1),
            size_int(r.2),
        ),
{
    let v = chars_of(contents);
    let lines = split_ranges(&v, '\n');
    let ghost all = split_on(contents@, '\n');
    let mut rss: Option<u64> = None;
    let mut swap: Option<u64> = None;
    let mut k: usize = 0;
    assert(all.skip(0) =~= all);
    while k < lines.len()
        invariant
            v@ == contents@,
            all == split_on(v@, '\n'),
            lines@.len() == all.len(),
            forall|j: int|
                0 <= j < lines@.len() ==> {
                    &&& (#[trigger] lines@[j]).0 <= lines@[j].1 <= v@.len()
                    &&& span(v@, lines@[j].0, lines@[j].1) == all[j]
                },
            k <= lines@.len(),
            !(rss is Some && swap is Some),
            status_fits(all, None, None) == status_fits(all.skip(k as int), size_int(rss), size_int(swap)),
            status_fits(all, None, None) ==> status_scan(all, None, None) == status_scan(
                all.skip(k as int),
                size_int(rss),
                size_int(swap),
            ),
        decreases lines@.len() - k,
    {
        let (from, to) = lines[k];
        let ghost l = all[k as int];
        assert(all.skip(k as int)[0] == l);
        assert(all.skip(k as int).drop_first() =~= all.skip(k + 1));
        let ghost rest = all.skip(k as int);
        if span_starts_with(&v, from, to, "VmRSS:") {
            proof {
                reveal_strlit("VmRSS:");
                assert(span(v@, (from + 6) as usize, to) =~= l.skip(6));
            }
            let (ok, b) = times_kb(field_kb(&v, from + 6, to));
            if !ok {
                return (false, None, None);
            }
            rss = b;
        } else if span_starts_with(&v, from, to, "VmSwap:") {
            proof {
                reveal_strlit("VmSwap:");
                assert(span(v@, (from + 7) as usize, to) =~= l.skip(7));
            }
            let (ok, b) = times_kb(field_kb(&v, from + 7, to));
            if !ok {
                return (false, None, None);
            }
            swap = b;
        }
        if rss.is_some() && swap.is_some() {
            return (true, rss, swap);
        }
        k = k + 1;
    }
    assert(all.skip(k as int) =~= Seq::<Seq<char>>::empty());
    (true, rss, swap)
}

/// Whether every `VmRSS`/`VmSwap` figure that [`memory_from_status`] reads
/// fits in a `u64` once in bytes.
pub fn memory_fields_fit(contents: &str) -> (r: bool)
    ensures
        r == status_fits(split_on(contents@, '\n'), None, None),
{
    scan_status(contents).0
}

/// The resident and swap sizes, in bytes, of a `/proc/<pid>/status` file:
/// the `VmRSS:` and `VmSwap:` fields, read line by line until both are
/// known (a later line of the same field replaces an earlier one).
pub fn memory_from_status(contents: &str) -> (r: (Option<u64>, Option<u64>))
    requires
        status_fits(split_on(contents@, '\n'), None, None),
    ensures
        status_scan(split_on(contents@, '\n'), None, None) == (size_int(r.0), size_int(r.1)),
{
    let (_, rss, swap) = scan_status(contents);
    (rss, swap)
}

// ─── What a status file says ───

/// A status field line: the field's name, blanks, its figure in kilobytes
/// and ` kB` (as in `VmRSS:\t    2048 kB`).
pub open spec fn field_line(name: Seq<char>, pad: Seq<char>, kb: nat) -> Seq<char> {
    name + pad + decimal_digits(kb) + " kB"@
}

/// Blanks within a line: whitespace other than a line break.
pub open spec fn blanks(pad: Seq<char>) -> bool {
    forall|k: int| 0 <= k < pad.len() ==> is_space(#[trigger] pad[k]) && pad[k] != '\n'
}

/// The figure after the field name reads as the kilobytes written.
proof fn lemma_field_figure(pad: Seq<char>, kb: nat)
    requires
        blanks(pad),
        kb <= u64::MAX,
    ensures
        kb_bytes(pad + decimal_digits(kb) + " kB"@) == Some(kb * 1024 as int),
        !(pad + decimal_digits(kb) + " kB"@).contains('\n'),
{
    reveal_strlit(" kB");
    let d = decimal_digits(kb);
    lemma_decimal_digits_read_back(kb);
    lemma_digit_run_whole(d);
    assert forall|k: int| 0 <= k < d.len() implies !is_space(#[trigger] d[k]) by {
        assert(is_digit(d[k]));
    }
    assert(pad + d + " kB"@ =~= pad + (d + " kB"@));
    lemma_words_after_spaces(pad, d + " kB"@);
    lemma_words_first(d, " kB"@);
    assert(is_digit(d[0]));
    let t = pad + d + " kB"@;
    if t.contains('\n') {
        let k = choose|k: int| 0 <= k < t.len() && t[k] == '\n';
        if k < pad.len() {
            assert(t[k] == pad[k]);
        } else if k < pad.len() + d.len() {
            assert(t[k] == d[k - pad.len()]);
            assert(is_digit(d[k - pad.len()]));
        } else {
            assert(t[k] == " kB"@[k - pad.len() - d.len()]);
        }
    }
}

/// A `VmRSS:` line gives the resident size, 1024 bytes per kilobyte, and
/// no swap size; a `VmSwap:` line gives the swap size and no resident size;
/// with both lines, each size comes from its own line.
pub proof fn law_status_fields(pad1: Seq<char>, rss_kb: nat, pad2: Seq<char>, swap_kb: nat)
    requires
        blanks(pad1),
        blanks(pad2),
        rss_kb <= u64::MAX,
        swap_kb <= u64::MAX,
    ensures
        status_scan(split_on(field_line("VmRSS:"@, pad1, rss_kb), '\n'), None, None) == (
            Some(rss_kb * 1024 as int),
            None::<int>,
        ),
        status_scan(split_on(field_line("VmSwap:"@, pad2, swap_kb), '\n'), None, None) == (
            None::<int>,
            Some(swap_kb * 1024 as int),
        ),
        status_scan(
            split_on(
                field_line("VmRSS:"@, pad1, rss_kb) + seq!['\n'] + field_line(
                    "VmSwap:"@,
                    pad2,
                    swap_kb,
                ),
                '\n',
            ),
            None,
            None,
        ) == (Some(rss_kb * 1024 as int), Some(swap_kb * 1024 as int)),
{
    reveal_strlit("VmRSS:");
    reveal_strlit("VmSwap:");
    let r = field_line("VmRSS:"@, pad1, rss_kb);
    let w = field_line("VmSwap:"@, pad2, swap_kb);
    let rr = pad1 + decimal_digits(rss_kb) + " kB"@;
    let wr = pad2 + decimal_digits(swap_kb) + " kB"@;
    lemma_field_figure(pad1, rss_kb);
    lemma_field_figure(pad2, swap_kb);
    assert(r =~= "VmRSS:"@ + rr);
    assert(w =~= "VmSwap:"@ + wr);
    assert(r.take(6) =~= "VmRSS:"@);
    assert(r.skip(6) =~= rr);
    assert(w.take(7) =~= "VmSwap:"@);
    assert(w.skip(7) =~= wr);
    assert(w.take(6)[2] != "VmRSS:"@[2]);
    assert(!r.contains('\n')) by {
        if r.contains('\n') {
            let k = choose|k: int| 0 <= k < r.len() && r[k] == '\n';
            if k >= 6 {
                assert(r[k] == rr[k - 6]);
                assert(rr.contains('\n'));
            }
        }
    }
    assert(!w.contains('\n')) by {
        if w.contains('\n') {
            let k = choose|k: int| 0 <= k < w.len() && w[k] == '\n';
            if k >= 7 {
                assert(w[k] == wr[k - 7]);
                assert(wr.contains('\n'));
            }
        }
    }
    lemma_split_on_plain(r, '\n');
    lemma_split_on_plain(w, '\n');
    lemma_split_on_join(r, w, '\n');
    let both = seq![r] + seq![w];
    assert(both.drop_first() =~= seq![w]);
    assert(seq![r].drop_first() =~= Seq::<Seq<char>>::empty());
    assert(seq![w].drop_first() =~= Seq::<Seq<char>>::empty());
    assert(both[0] == r);
    let e = Seq::<Seq<char>>::empty();
    assert(status_scan(e, Some(rss_kb * 1024 as int), None) == (Some(rss_kb * 1024 as int), None::<int>));
    assert(status_scan(e, None, Some(swap_kb * 1024 as int)) == (None::<int>, Some(swap_kb * 1024 as int)));
    assert(seq![r][0] == r && seq![w][0] == w);
    let a = rss_kb * 1024 as int;
    let b = swap_kb * 1024 as int;
    assert(status_step(r, None, None) == (Some(a), None::<int>));
    assert(status_step(w, None, None) == (None::<int>, Some(b)));
    assert(status_step(w, Some(a), None) == (Some(a), Some(b)));
    assert(status_scan(seq![w], Some(a), None) == (Some(a), Some(b)));
    assert(status_scan(both, None, None) == status_scan(seq![w], Some(a), None));
}

// ─── /proc/<pid>/stat ───

/// Index of the last `c` in `s`.
pub open spec fn last_index_of(s: Seq<char>, c: char) -> Option<int>
    decreases s.len(),
{
    if s.len() == 0 {
        None
    } else if s.last() == c {
        Some(s.len() - 1)
    } else {
        last_index_of(s.drop_last(), c)
    }
}

/// The user and system CPU times of a `/proc/<pid>/stat` text, in clock
/// ticks: the twelfth and thirteenth words after the last `)` (the command
/// name before it may hold spaces and parentheses).
pub open spec fn stat_times(text: Seq<char>) -> Option<(int, int)> {
    match last_index_of(text, ')') {
        Some(p) => {
            let ws = words(text.skip(p + 1));
            if ws.len() < 13 {
                None
            } else {
                match (parse_u64(ws[11]), parse_u64(ws[12])) {
                    (Some(u), Some(t)) => Some((u, t)),
                    _ => None,
                }
            }
        },
        None => None,
    }
}

/// The CPU times of a stat text, if it has them, sum to a `u64`.
pub open spec fn stat_times_fit(text: Seq<char>) -> bool {
    stat_times(text) matches Some((u, t)) ==> u + t <= u64::MAX
}

/// The two CPU times of a stat text (see [`stat_times`]).
fn read_stat_times(text: &str) -> (r: Option<(u64, u64)>)
    ensures
        match stat_times(text@) {
            Some((u, t)) => r matches Some((x, y)) && x as int == u && y as int == t,
            None => r is None,
        },
{
    let v = chars_of(text);
    let n = v.len();
    let mut p: usize = n;
    assert(text@.take(n as int) =~= text@);
    while p > 0 && v[p - 1] != ')'
        invariant
            n == v@.len(),
            v@ == text@,
            p <= n,
            last_index_of(text@, ')') == last_index_of(text@.take(p as int), ')'),
        decreases p,
    {
        assert(text@.take(p as int).drop_last() =~= text@.take(p - 1));
        p = p - 1;
    }
    if p == 0 {
        assert(text@.take(0) =~= Seq::<char>::empty());
        return None;
    }
    assert(text@.take(p as int).last() == ')');
    let spans = word_spans(&v, p);
    if spans.len() < 13 {
        return None;
    }
    let (a, b) = spans[11];
    let (c, d) = spans[12];
    assert(spans@[11] == (a, b));
    assert(spans@[12] == (c, d));
    match (parse_u64_span(&v, a, b), parse_u64_span(&v, c, d)) {
        (Some(u), Some(t)) => Some((u, t)),
        _ => None,
    }
}

/// Whether the CPU times of a stat text, if it has them, sum to a `u64`.
pub fn cpu_ticks_fit(text: &str) -> (r: bool)
    ensures
        r == stat_times_fit(text@),
{
    match read_stat_times(text) {
        Some((u, t)) => u <= u64::MAX - t,
        None => true,
    }
}

/// The CPU time of a process, in clock ticks, from its `/proc/<pid>/stat`
/// text: user plus system time (see [`stat_times`]); `None` when the text
/// does not hold both.
pub fn cpu_ticks_from_stat(text: &str) -> (r: Option<u64>)
    requires
        stat_times_fit(text@),
    ensures
        match stat_times(text@) {
            Some((u, t)) => r matches Some(x) && x as int == u + t,
            None => r is None,
        },
{
    match read_stat_times(text) {
        Some((u, t)) => Some(u + t),
        None => None,
    }
}

/// The process id to probe for liveness with a null signal: the id itself
/// when it is a positive `i32`, else `None` (a signal to 0 or -1 would
/// reach a whole process group or every process).
pub fn signal_target(pid: u32) -> (r: Option<i32>)
    ensures
        0 < pid <= i32::MAX ==> r == Some(pid as i32),
        !(0 < pid <= i32::MAX) ==> r is None,
{
    if 0 < pid && pid <= 2147483647 {
        Some(pid as i32)
    } else {
        None
    }
}

/// The clock ticks per second to compute with: what the system reports
/// when positive, else 100.
pub fn clock_ticks_or_default(reported: i64) -> (r: u64)
    ensures
        reported > 0 ==> r == reported,
        reported <= 0 ==> r == 100,
{
    if reported > 0 {
        reported as u64
    } else {
        100
    }
}

} // verus!
