//! Runtime detection decisions: which candidate installations to probe,
//! and the order in which the runtimes found are listed.
//!
//! The caller finds candidate binaries and resolves their canonical paths;
//! the functions here choose one candidate per installation, read what a
//! probe printed, mark the runtime of the default binary on `PATH`, and
//! sort the result.

use std::cmp::Ordering;
use vstd::prelude::*;
use crate::numeric::uint;
use crate::sorting::{Preorder, stable_sort, is_stable_sort_of};
use crate::text::{str_eq, split_on, split_ranges, chars_of, string_from_range, span};
use crate::version::{lex_order, not_greater, str_order, lemma_lex_flip, lemma_lex_equal, lemma_lex_trans};
use crate::exec::{opt_text, decode_lossy, utf8_lossy};
use crate::java::{parent_of, path_parent};
use crate::dotnet::{parse_runtime_line, runtime_line_words, describes_runtime};
use crate::types::system::{JavaRuntime, DotnetRuntime};

verus! {

// ─── One candidate per installation ───

/// The views of optional strings.
pub open spec fn opt_views(v: Seq<Option<String>>) -> Seq<Option<Seq<char>>> {
    v.map_values(|o: Option<String>| opt_text(o))
}

/// The key at `i` is present and differs from every key before it.
pub open spec fn first_of_its_kind(keys: Seq<Option<Seq<char>>>, i: int) -> bool {
    &&& 0 <= i < keys.len()
    &&& keys[i] is Some
    &&& forall|j: int| 0 <= j < i ==> keys[j] != keys[i]
}

/// `r` lists, in increasing order, exactly the indices at which a present
/// key occurs for the first time.
pub open spec fn lists_first_occurrences(r: Seq<usize>, keys: Seq<Option<Seq<char>>>) -> bool {
    &&& forall|k: int| 0 <= k < r.len() ==> first_of_its_kind(keys, uint(#[trigger] r[k]))
    &&& forall|k: int, l: int| 0 <= k < l < r.len() ==> #[trigger] r[k] < #[trigger] r[l]
    &&& forall|i: int|
        #[trigger] first_of_its_kind(keys, i) ==> exists|k: int| 0 <= k < r.len() && uint(r[k]) == i
}

/// The index of the first occurrence of each present key, in order: the
/// candidates left once duplicates (by canonical path) are dropped.
pub fn first_occurrences(keys: &Vec<Option<String>>) -> (r: Vec<usize>)
    ensures
        lists_first_occurrences(r@, opt_views(keys@)),
{
    let ghost ks = opt_views(keys@);
    let n = keys.len();
    let mut r: Vec<usize> = Vec::new();
    let mut i: usize = 0;
    while i < n
        invariant
            n == keys@.len(),
            ks == opt_views(keys@),
            i <= n,
            forall|k: int| 0 <= k < r@.len() ==> first_of_its_kind(ks, uint(#[trigger] r@[k])),
            forall|k: int| 0 <= k < r@.len() ==> #[trigger] r@[k] < i,
            forall|k: int, l: int| 0 <= k < l < r@.len() ==> #[trigger] r@[k] < #[trigger] r@[l],
            forall|j: int|
                0 <= j < i && #[trigger] first_of_its_kind(ks, j) ==> exists|k: int|
                    0 <= k < r@.len() && uint(r@[k]) == j,
        decreases n - i,
    {
        if let Some(c) = &keys[i] {
            let mut seen = false;
            let mut j: usize = 0;
            while j < i
                invariant
                    i < n == keys@.len(),
                    ks == opt_views(keys@),
                    ks[uint(i)] == Some(c@),
                    j <= i,
                    seen == exists|q: int| 0 <= q < j && #[trigger] ks[q] == ks[uint(i)],
                decreases i - j,
            {
                if let Some(d) = &keys[j] {
                    if str_eq(d.as_str(), c.as_str()) {
                        seen = true;
                    }
                }
                proof {
                    if ks[uint(j)] == ks[uint(i)] {
                        assert(exists|q: int| 0 <= q < j + 1 && #[trigger] ks[q] == ks[uint(i)]);
                    }
                }
                j = j + 1;
            }
            if !seen {
                let ghost old_r = r@;
                r.push(i);
                proof {
                    assert(r@.last() == i);
                    assert forall|q: int| 0 <= q < i implies #[trigger] ks[q] != ks[uint(i)] by {}
                    assert(first_of_its_kind(ks, uint(i)));
                    assert forall|jj: int|
                        0 <= jj < i + 1 && #[trigger] first_of_its_kind(ks, jj) implies exists|k: int|
                        0 <= k < r@.len() && uint(r@[k]) == jj by {
                        if jj < i {
                            let k = choose|k: int| 0 <= k < old_r.len() && uint(old_r[k]) == jj;
                            assert(r@[k] == old_r[k]);
                        } else {
                            assert(uint(r@.last()) == jj);
                        }
                    }
                }
            } else {
                proof {
                    assert(!first_of_its_kind(ks, uint(i)));
                }
            }
        } else {
            proof {
                assert(ks[uint(i)] is None);
            }
        }
        i = i + 1;
    }
    r
}

// ─── Java ───

/// Java runtimes are listed by major version, newest first, then by binary
/// path.
impl Preorder for JavaRuntime {
    open spec fn before_eq(self, other: Self) -> bool {
        if self.major_version != other.major_version {
            self.major_version > other.major_version
        } else {
            not_greater(lex_order(self.path@, other.path@))
        }
    }

    proof fn lemma_preorder(a: Self, b: Self, c: Self) {
        lemma_lex_flip(a.path@, b.path@);
        lemma_lex_trans(a.path@, b.path@, c.path@);
    }

    fn precedes_eq(&self, other: &Self) -> (r: bool) {
        if self.major_version != other.major_version {
            self.major_version > other.major_version
        } else {
            !matches!(str_order(self.path.as_str(), other.path.as_str()), Ordering::Greater)
        }
    }
}

/// `rt` with its default flag set to `is_default`.
pub open spec fn with_default(rt: JavaRuntime, is_default: bool) -> JavaRuntime {
    JavaRuntime {
        path: rt.path,
        java_home: rt.java_home,
        version: rt.version,
        major_version: rt.major_version,
        runtime_name: rt.runtime_name,
        is_default,
    }
}

/// The runtimes among the probe results, in order, each marked as the
/// default when its canonical path is the default's.
pub open spec fn marked_java(
    found: Seq<(String, Option<JavaRuntime>)>,
    default_canonical: Option<Seq<char>>,
) -> Seq<JavaRuntime>
    decreases found.len(),
{
    if found.len() == 0 {
        Seq::empty()
    } else {
        let prev = marked_java(found.drop_last(), default_canonical);
        match found.last().1 {
            Some(rt) => prev.push(with_default(rt, default_canonical == Some(found.last().0@))),
            None => prev,
        }
    }
}

/// The Java runtimes found: `found` pairs the canonical path of each probed
/// binary with what the probe read; the runtimes are marked as default when
/// their canonical path is `default_canonical`, then stably sorted (see the
/// [`Preorder`] of [`JavaRuntime`]).
pub fn java_runtimes_found(
    found: Vec<(String, Option<JavaRuntime>)>,
    default_canonical: Option<String>,
) -> (r: Vec<JavaRuntime>)
    ensures
        is_stable_sort_of(r@, marked_java(found@, opt_text(default_canonical))),
{
    let ghost input = found@;
    let ghost d = opt_text(default_canonical);
    let mut rest = found;
    let mut marked: Vec<JavaRuntime> = Vec::new();
    let ghost mut i: int = 0;
    while rest.len() > 0
        invariant
            0 <= i <= input.len(),
            rest@ == input.skip(i),
            d == opt_text(default_canonical),
            marked@ == marked_java(input.take(i), d),
        decreases rest@.len(),
    {
        assert(input.skip(i)[0] == input[i]);
        assert(input.skip(i).remove(0) =~= input.skip(i + 1));
        assert(input.take(i + 1).drop_last() =~= input.take(i));
        assert(input.take(i + 1).last() == input[i]);
        let (canonical, probed) = rest.remove(0);
        if let Some(rt) = probed {
            let is_default = match &default_canonical {
                Some(dc) => str_eq(dc.as_str(), canonical.as_str()),
                None => false,
            };
            let JavaRuntime { path, java_home, version, major_version, runtime_name, is_default: _ } =
                rt;
            marked.push(
                JavaRuntime { path, java_home, version, major_version, runtime_name, is_default },
            );
        }
        proof {
            i = i + 1;
        }
    }
    assert(input.take(i) =~= input);
    stable_sort(marked)
}

// ─── .NET ───

/// .NET runtimes are listed with those of the `PATH` default first, then by
/// runtime name, then by version string, highest first.
impl Preorder for DotnetRuntime {
    open spec fn before_eq(self, other: Self) -> bool {
        if self.is_default != other.is_default {
            self.is_default
        } else {
            match lex_order(self.runtime_name@, other.runtime_name@) {
                Ordering::Less => true,
                Ordering::Greater => false,
                Ordering::Equal => not_greater(lex_order(other.version@, self.version@)),
            }
        }
    }

    proof fn lemma_preorder(a: Self, b: Self, c: Self) {
        lemma_lex_flip(a.runtime_name@, b.runtime_name@);
        lemma_lex_flip(b.runtime_name@, c.runtime_name@);
        lemma_lex_flip(a.runtime_name@, c.runtime_name@);
        lemma_lex_equal(a.runtime_name@, b.runtime_name@);
        lemma_lex_equal(b.runtime_name@, c.runtime_name@);
        lemma_lex_equal(a.runtime_name@, c.runtime_name@);
        lemma_lex_trans(a.runtime_name@, b.runtime_name@, c.runtime_name@);
        lemma_lex_flip(a.version@, b.version@);
        lemma_lex_trans(c.version@, b.version@, a.version@);
    }

    fn precedes_eq(&self, other: &Self) -> (r: bool) {
        if self.is_default != other.is_default {
            self.is_default
        } else {
            match str_order(self.runtime_name.as_str(), other.runtime_name.as_str()) {
                Ordering::Less => true,
                Ordering::Greater => false,
                Ordering::Equal => !matches!(
                    str_order(other.version.as_str(), self.version.as_str()),
                    Ordering::Greater
                ),
            }
        }
    }
}

/// The installation root of each candidate: the parent of its canonical
/// path, when it has both.
pub open spec fn install_roots(canonical: Seq<Option<Seq<char>>>) -> Seq<Option<Seq<char>>> {
    canonical.map_values(
        |o: Option<Seq<char>>|
            match o {
                Some(c) => path_parent(c),
                None => None,
            },
    )
}

/// The installations to probe, one per distinct installation root, in
/// candidate order: each entry holds the candidate's index, its root, and
/// whether its canonical path is the default's.
pub fn dotnet_installations(
    canonical: &Vec<Option<String>>,
    default_canonical: Option<String>,
) -> (r: Vec<(usize, String, bool)>)
    ensures
        ({
            let roots = install_roots(opt_views(canonical@));
            &&& lists_first_occurrences(r@.map_values(|e: (usize, String, bool)| e.0), roots)
            &&& forall|k: int|
                0 <= k < r@.len() ==> {
                    &&& roots[uint((#[trigger] r@[k]).0)] == Some(r@[k].1@)
                    &&& r@[k].2 == (opt_text(default_canonical) is Some && opt_views(
                        canonical@,
                    )[uint(r@[k].0)] == opt_text(default_canonical))
                }
        }),
{
    let n = canonical.len();
    let ghost cs = opt_views(canonical@);
    let ghost roots_spec = install_roots(cs);
    let mut roots: Vec<Option<String>> = Vec::new();
    let mut i: usize = 0;
    while i < n
        invariant
            n == canonical@.len(),
            cs == opt_views(canonical@),
            roots_spec == install_roots(cs),
            i <= n,
            opt_views(roots@) =~= roots_spec.take(uint(i)),
        decreases n - i,
    {
        let root = match &canonical[i] {
            Some(c) => parent_of(c.as_str()),
            None => None,
        };
        let ghost old_roots = roots@;
        roots.push(root);
        proof {
            assert(opt_views(old_roots).len() == old_roots.len());
            assert(old_roots.len() == i);
            assert(roots@ == old_roots.push(root));
            assert(cs[uint(i)] == opt_text(canonical@[uint(i)]));
            assert(opt_text(roots@.last()) == roots_spec[uint(i)]);
            assert forall|q: int| 0 <= q < i + 1 implies #[trigger] opt_views(roots@)[q]
                == roots_spec.take(uint(i) + 1)[q] by {
                if q < i {
                    assert(roots@[q] == old_roots[q]);
                    assert(opt_views(old_roots)[q] == roots_spec.take(uint(i))[q]);
                }
            }
        }
        assert(opt_views(roots@) =~= roots_spec.take(uint(i) + 1));
        i = i + 1;
    }
    assert(roots_spec.take(uint(n)) =~= roots_spec);
    let picks = first_occurrences(&roots);
    let mut r: Vec<(usize, String, bool)> = Vec::new();
    let mut k: usize = 0;
    while k < picks.len()
        invariant
            n == canonical@.len(),
            n == roots@.len(),
            cs == opt_views(canonical@),
            roots_spec == install_roots(cs),
            opt_views(roots@) == roots_spec,
            lists_first_occurrences(picks@, roots_spec),
            k <= picks@.len(),
            r@.len() == k,
            forall|q: int| 0 <= q < k ==> (#[trigger] r@[q]).0 == picks@[q],
            forall|q: int|
                0 <= q < k ==> {
                    &&& roots_spec[uint((#[trigger] r@[q]).0)] == Some(r@[q].1@)
                    &&& r@[q].2 == (opt_text(default_canonical) is Some && cs[uint(r@[q].0)]
                        == opt_text(default_canonical))
                },
        decreases picks@.len() - k,
    {
        let idx = picks[k];
        assert(first_of_its_kind(roots_spec, uint(picks@[uint(k)])));
        let root = match &roots[idx] {
            Some(p) => String::from_str(p.as_str()),
            None => {
                assert(false);
                String::new()
            },
        };
        let is_default = match (&default_canonical, &canonical[idx]) {
            (Some(dc), Some(c)) => str_eq(dc.as_str(), c.as_str()),
            _ => false,
        };
        r.push((idx, root, is_default));
        k = k + 1;
    }
    assert(r@.map_values(|e: (usize, String, bool)| e.0) =~= picks@);
    r
}

/// The words of each line of a listing that describes a runtime, in order.
pub open spec fn listed_runtime_lines(lines: Seq<Seq<char>>) -> Seq<Seq<Seq<char>>>
    decreases lines.len(),
{
    if lines.len() == 0 {
        Seq::empty()
    } else {
        let prev = listed_runtime_lines(lines.drop_last());
        match runtime_line_words(lines.last()) {
            Some(ws) => prev.push(ws),
            None => prev,
        }
    }
}

/// The runtimes listed by `dotnet --list-runtimes` of the installation at
/// `installation_root`: `None` when the command failed or listed none;
/// otherwise one runtime per line that describes one (see
/// [`parse_runtime_line`]), in order.
pub fn runtimes_from_listing(
    success: bool,
    stdout: &[u8],
    installation_root: &str,
    is_default: bool,
) -> (r: Option<Vec<DotnetRuntime>>)
    ensures
        ({
            let ls = listed_runtime_lines(split_on(utf8_lossy(stdout@), '\n'));
            if !success || ls.len() == 0 {
                r is None
            } else {
                r matches Some(v) && v@.len() == ls.len() && forall|k: int|
                    0 <= k < ls.len() ==> describes_runtime(
                        #[trigger] v@[k],
                        ls[k],
                        installation_root@,
                        is_default,
                    )
            }
        }),
{
    if !success {
        return None;
    }
    let text = decode_lossy(stdout);
    let v = chars_of(text.as_str());
    let lines = split_ranges(&v, '\n');
    let ghost all = split_on(text@, '\n');
    let mut found: Vec<DotnetRuntime> = Vec::new();
    let mut k: usize = 0;
    while k < lines.len()
        invariant
            all == split_on(v@, '\n'),
            lines@.len() == all.len(),
            forall|q: int|
                0 <= q < lines@.len() ==> {
                    &&& (#[trigger] lines@[q]).0 <= lines@[q].1 <= v.len()
                    &&& span(v@, lines@[q].0, lines@[q].1) == all[q]
                },
            k <= lines@.len(),
            found@.len() == listed_runtime_lines(all.take(uint(k))).len(),
            forall|q: int|
                0 <= q < found@.len() ==> describes_runtime(
                    #[trigger] found@[q],
                    listed_runtime_lines(all.take(uint(k)))[q],
                    installation_root@,
                    is_default,
                ),
        decreases lines@.len() - k,
    {
        let (a, b) = lines[k];
        assert(lines@[uint(k)] == (a, b));
        let line = string_from_range(&v, a, b);
        assert(all.take(uint(k) + 1).drop_last() =~= all.take(uint(k)));
        assert(all.take(uint(k) + 1).last() == all[uint(k)]);
        match parse_runtime_line(line.as_str(), installation_root, is_default) {
            Some(rt) => {
                found.push(rt);
            },
            None => {},
        }
        k = k + 1;
    }
    assert(all.take(uint(k)) =~= all);
    if found.len() == 0 {
        None
    } else {
        Some(found)
    }
}

/// All runtimes of the probed installations, in probe order.
pub open spec fn probed_runtimes(probes: Seq<Option<Vec<DotnetRuntime>>>) -> Seq<DotnetRuntime>
    decreases probes.len(),
{
    if probes.len() == 0 {
        Seq::empty()
    } else {
        probed_runtimes(probes.drop_last()) + match probes.last() {
            Some(v) => v@,
            None => Seq::empty(),
        }
    }
}

/// The .NET runtimes found: those of every probed installation, stably
/// sorted (see the [`Preorder`] of [`DotnetRuntime`]).
pub fn dotnet_runtimes_found(probes: Vec<Option<Vec<DotnetRuntime>>>) -> (r: Vec<DotnetRuntime>)
    ensures
        is_stable_sort_of(r@, probed_runtimes(probes@)),
{
    let ghost input = probes@;
    let mut rest = probes;
    let mut all: Vec<DotnetRuntime> = Vec::new();
    let ghost mut i: int = 0;
    while rest.len() > 0
        invariant
            0 <= i <= input.len(),
            rest@ == input.skip(i),
            all@ == probed_runtimes(input.take(i)),
        decreases rest@.len(),
    {
        assert(input.skip(i)[0] == input[i]);
        assert(input.skip(i).remove(0) =~= input.skip(i + 1));
        assert(input.take(i + 1).drop_last() =~= input.take(i));
        assert(input.take(i + 1).last() == input[i]);
        let probed = rest.remove(0);
        if let Some(mut v) = probed {
            all.append(&mut v);
        } else {
            assert(all@ =~= all@ + Seq::<DotnetRuntime>::empty());
        }
        proof {
            i = i + 1;
        }
    }
    assert(input.take(i) =~= input);
    stable_sort(all)
}

} // verus!
