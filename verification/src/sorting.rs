//! A stable insertion sort over any total preorder.

use vstd::prelude::*;
use crate::numeric::uint;

verus! {

/// A type with a total preorder: "may stand before or beside".
pub trait Preorder: Sized {
    /// `self` may stand before `other` (or beside it, when both hold).
    spec fn before_eq(self, other: Self) -> bool;

    /// The relation is total and transitive.
    proof fn lemma_preorder(a: Self, b: Self, c: Self)
        ensures
            a.before_eq(b) || b.before_eq(a),
            a.before_eq(b) && b.before_eq(c) ==> a.before_eq(c),
    ;

    /// Exec form of [`Preorder::before_eq`].
    fn precedes_eq(&self, other: &Self) -> (r: bool)
        ensures
            r == self.before_eq(*other),
    ;
}

/// `perm` lists the indices of `input` in a stable sorted order: it is a
/// permutation, the items it lists are in order, and equivalent items keep
/// their relative order in the input.
pub open spec fn stably_sorted<T: Preorder>(input: Seq<T>, perm: Seq<int>) -> bool {
    &&& perm.len() == input.len()
    &&& forall|k: int| 0 <= k < perm.len() ==> 0 <= #[trigger] perm[k] < input.len()
    &&& forall|k: int, l: int| 0 <= k < l < perm.len() ==> #[trigger] perm[k] != #[trigger] perm[l]
    &&& forall|k: int, l: int|
        0 <= k < l < perm.len() ==> input[#[trigger] perm[k]].before_eq(input[#[trigger] perm[l]])
    &&& forall|k: int, l: int|
        0 <= k < l < perm.len() && input[#[trigger] perm[l]].before_eq(input[#[trigger] perm[k]])
            ==> perm[k] < perm[l]
}

/// `r` is `input` stably sorted.
pub open spec fn is_stable_sort_of<T: Preorder>(r: Seq<T>, input: Seq<T>) -> bool {
    exists|perm: Seq<int>|
        #![trigger stably_sorted(input, perm)]
        stably_sorted(input, perm) && r.len() == perm.len() && forall|k: int|
            0 <= k < perm.len() ==> r[k] == input[#[trigger] perm[k]]
}

/// Sorts `items` stably: each item is inserted after every item that may
/// stand before it.
pub fn stable_sort<T: Preorder>(items: Vec<T>) -> (r: Vec<T>)
    ensures
        is_stable_sort_of(r@, items@),
{
    let ghost input = items@;
    let mut src = items;
    let mut out: Vec<T> = Vec::new();
    let ghost mut perm: Seq<int> = Seq::empty();
    let ghost mut i: int = 0;
    while src.len() > 0
        invariant
            0 <= i <= input.len(),
            src@ == input.skip(i),
            perm.len() == i,
            out@.len() == i,
            forall|k: int| 0 <= k < i ==> 0 <= #[trigger] perm[k] < i,
            forall|k: int, l: int| 0 <= k < l < i ==> #[trigger] perm[k] != #[trigger] perm[l],
            forall|k: int| 0 <= k < i ==> out@[k] == input[#[trigger] perm[k]],
            forall|k: int, l: int|
                0 <= k < l < i ==> (#[trigger] out@[k]).before_eq(#[trigger] out@[l]),
            forall|k: int, l: int|
                0 <= k < l < i && (#[trigger] out@[l]).before_eq(#[trigger] out@[k]) ==> perm[k]
                    < perm[l],
        decreases src@.len(),
    {
        assert(input.skip(i)[0] == input[i]);
        assert(input.skip(i).remove(0) =~= input.skip(i + 1));
        let x = src.remove(0);
        let mut p: usize = 0;
        while p < out.len() && out[p].precedes_eq(&x)
            invariant
                p <= out@.len(),
                forall|q: int| 0 <= q < p ==> (#[trigger] out@[q]).before_eq(x),
            decreases out@.len() - p,
        {
            p = p + 1;
        }
        let ghost old_out = out@;
        let ghost old_perm = perm;
        proof {
            if p < old_out.len() {
                let y = old_out[uint(p)];
                T::lemma_preorder(y, x, x);
                assert forall|q: int| p <= q < old_out.len() implies x.before_eq(
                    #[trigger] old_out[q],
                ) && !old_out[q].before_eq(x) by {
                    if q > p {
                        T::lemma_preorder(x, y, old_out[q]);
                        T::lemma_preorder(y, old_out[q], x);
                    }
                }
            }
        }
        out.insert(p, x);
        proof {
            perm = old_perm.insert(uint(p), i);
            let new_out = out@;
            assert forall|k: int| 0 <= k < i + 1 implies new_out[k] == input[#[trigger] perm[k]] by {
                if k < p {
                    assert(new_out[k] == old_out[k]);
                } else if k > p {
                    assert(new_out[k] == old_out[k - 1]);
                }
            }
            assert forall|k: int| 0 <= k < i + 1 implies 0 <= #[trigger] perm[k] < i + 1 by {
                if k < p {
                    assert(perm[k] == old_perm[k]);
                } else if k > p {
                    assert(perm[k] == old_perm[k - 1]);
                }
            }
            assert forall|k: int, l: int| 0 <= k < l < i + 1 implies #[trigger] perm[k]
                != #[trigger] perm[l] by {
                if k < p && l < p {
                    assert(perm[k] == old_perm[k] && perm[l] == old_perm[l]);
                } else if k < p && l == p {
                    assert(perm[k] == old_perm[k]);
                } else if k < p && l > p {
                    assert(perm[k] == old_perm[k] && perm[l] == old_perm[l - 1]);
                } else if k == p {
                    assert(perm[l] == old_perm[l - 1]);
                } else {
                    assert(perm[k] == old_perm[k - 1] && perm[l] == old_perm[l - 1]);
                }
            }
            assert forall|k: int, l: int| 0 <= k < l < i + 1 implies (#[trigger] new_out[k]).before_eq(
                #[trigger] new_out[l],
            ) && (new_out[l].before_eq(new_out[k]) ==> perm[k] < perm[l]) by {
                if k < p && l < p {
                    assert(new_out[k] == old_out[k] && new_out[l] == old_out[l]);
                    assert(perm[k] == old_perm[k] && perm[l] == old_perm[l]);
                } else if k < p && l == p {
                    assert(new_out[k] == old_out[k]);
                    assert(perm[k] == old_perm[k]);
                } else if k < p && l > p {
                    assert(new_out[k] == old_out[k] && new_out[l] == old_out[l - 1]);
                    assert(perm[k] == old_perm[k] && perm[l] == old_perm[l - 1]);
                } else if k == p {
                    assert(new_out[l] == old_out[l - 1]);
                } else {
                    assert(new_out[k] == old_out[k - 1] && new_out[l] == old_out[l - 1]);
                    assert(perm[k] == old_perm[k - 1] && perm[l] == old_perm[l - 1]);
                }
            }
            i = i + 1;
        }
    }
    proof {
        assert(input.skip(i).len() == 0);
        assert(stably_sorted(input, perm));
    }
    out
}

} // verus!
