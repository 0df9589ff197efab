//! Stable ordering of catalogue entries by a sort key, as `slice::sort_by`
//! orders them: by key, and in their given order where keys are equal.
use vstd::prelude::*;

use crate::text::{lemma_lex_total, lemma_lex_trans, lex_le, lex_le_chars};

verus! {

/// A sort key with a total preorder.
pub trait Ranked: Sized {
    /// `self` sorts no later than `other`.
    spec fn rank_le(self, other: Self) -> bool;

    proof fn lemma_rank_total(a: Self, b: Self)
        ensures
            a.rank_le(b) || b.rank_le(a),
    ;

    proof fn lemma_rank_trans(a: Self, b: Self, c: Self)
        requires
            a.rank_le(b),
            b.rank_le(c),
        ensures
            a.rank_le(c),
    ;

    fn le(&self, other: &Self) -> (r: bool)
        ensures
            r == self.rank_le(*other),
    ;
}

/// Messier numbers sort by value.
impl Ranked for i32 {
    open spec fn rank_le(self, other: Self) -> bool {
        self <= other
    }

    proof fn lemma_rank_total(a: Self, b: Self) {
    }

    proof fn lemma_rank_trans(a: Self, b: Self, c: Self) {
    }

    fn le(&self, other: &Self) -> (r: bool) {
        *self <= *other
    }
}

/// Display names sort lexicographically by code point.
impl Ranked for Vec<char> {
    open spec fn rank_le(self, other: Self) -> bool {
        lex_le(self@, other@)
    }

    proof fn lemma_rank_total(a: Self, b: Self) {
        lemma_lex_total(a@, b@);
    }

    proof fn lemma_rank_trans(a: Self, b: Self, c: Self) {
        lemma_lex_trans(a@, b@, c@);
    }

    fn le(&self, other: &Self) -> (r: bool) {
        lex_le_chars(self, other)
    }
}

/// `order` lists each position `0..keys.len()` once.
pub open spec fn is_permutation_of_positions(order: Seq<usize>, n: nat) -> bool {
    &&& order.len() == n
    &&& forall|i: int| 0 <= i < order.len() ==> #[trigger] order[i] < n
    &&& forall|p: usize| p < n ==> #[trigger] order.contains(p)
    &&& forall|i: int, j: int|
        0 <= i < j < order.len() ==> #[trigger] order[i] != #[trigger] order[j]
}

/// `order` visits `keys` by non-decreasing key, and positions with equal keys
/// in increasing position order: what a stable sort of `keys` gives.
pub open spec fn is_stable_order<K: Ranked>(keys: Seq<K>, order: Seq<usize>) -> bool {
    &&& is_permutation_of_positions(order, keys.len())
    &&& forall|i: int, j: int|
        0 <= i < j < order.len() ==> #[trigger] keys[order[i] as int].rank_le(
            #[trigger] keys[order[j] as int],
        )
    &&& forall|i: int, j: int|
        0 <= i < j < order.len() && keys[order[j] as int].rank_le(keys[order[i] as int])
            ==> #[trigger] order[i] < #[trigger] order[j]
}

/// The positions of `keys` in stably sorted order (insertion sort).
pub fn stable_order<K: Ranked>(keys: &Vec<K>) -> (order: Vec<usize>)
    ensures
        is_stable_order(keys@, order@),
{
    let n = keys.len();
    let mut order: Vec<usize> = Vec::new();
    let mut k: usize = 0;
    while k < n
        invariant
            n == keys@.len(),
            k <= n,
            order@.len() == k,
            forall|i: int| 0 <= i < order@.len() ==> #[trigger] order@[i] < k,
            forall|p: usize| p < k ==> #[trigger] order@.contains(p),
            forall|i: int, j: int|
                0 <= i < j < order@.len() ==> #[trigger] order@[i] != #[trigger] order@[j],
            forall|i: int, j: int|
                0 <= i < j < order@.len() ==> #[trigger] keys@[order@[i] as int].rank_le(
                    #[trigger] keys@[order@[j] as int],
                ),
            forall|i: int, j: int|
                0 <= i < j < order@.len() && keys@[order@[j] as int].rank_le(
                    keys@[order@[i] as int],
                ) ==> #[trigger] order@[i] < #[trigger] order@[j],
        decreases n - k,
    {
        // Find the insertion point: after every entry whose key is no later.
        let mut p: usize = order.len();
        while p > 0 && !keys[order[p - 1]].le(&keys[k])
            invariant
                n == keys@.len(),
                k < n,
                order@.len() == k,
                p <= order@.len(),
                forall|i: int| 0 <= i < order@.len() ==> #[trigger] order@[i] < k,
                forall|q: int|
                    p <= q < order@.len() ==> !(#[trigger] keys@[order@[q] as int]).rank_le(
                        keys@[k as int],
                    ),
            decreases p,
        {
            p = p - 1;
        }
        let ghost old_order = order@;
        proof {
            if p > 0 {
                assert(keys@[old_order[p - 1] as int].rank_le(keys@[k as int]));
            }
            assert forall|q: int| 0 <= q < p implies (#[trigger] keys@[old_order[q] as int]).rank_le(
                keys@[k as int],
            ) by {
                if q < p - 1 {
                    assert(keys@[old_order[q] as int].rank_le(keys@[old_order[p - 1] as int]));
                    K::lemma_rank_trans(
                        keys@[old_order[q] as int],
                        keys@[old_order[p - 1] as int],
                        keys@[k as int],
                    );
                }
            }
            assert forall|q: int| p <= q < old_order.len() implies keys@[k as int].rank_le(
                #[trigger] keys@[old_order[q] as int],
            ) by {
                K::lemma_rank_total(keys@[k as int], keys@[old_order[q] as int]);
            }
        }
        order.insert(p, k);
        let ghost new_order = order@;
        assert(new_order == old_order.insert(p as int, k));
        assert forall|i: int| 0 <= i < new_order.len() implies #[trigger] new_order[i] < k + 1 by {
            if i < p {
                assert(new_order[i] == old_order[i]);
            } else if i > p {
                assert(new_order[i] == old_order[i - 1]);
            }
        }
        assert forall|q: usize| q < k + 1 implies #[trigger] new_order.contains(q) by {
            if q == k {
                assert(new_order[p as int] == k);
            } else {
                assert(old_order.contains(q));
                let w = choose|w: int| 0 <= w < old_order.len() && old_order[w] == q;
                if w < p {
                    assert(new_order[w] == q);
                } else {
                    assert(new_order[w + 1] == q);
                }
            }
        }
        assert forall|i: int, j: int| 0 <= i < j < new_order.len() implies #[trigger] new_order[i]
            != #[trigger] new_order[j] by {
            let oi = if i < p {
                i
            } else {
                i - 1
            };
            let oj = if j < p {
                j
            } else {
                j - 1
            };
            if i != p && j != p {
                assert(new_order[i] == old_order[oi]);
                assert(new_order[j] == old_order[oj]);
                assert(old_order[oi] != old_order[oj]);
            } else if i == p {
                assert(new_order[j] == old_order[oj]);
                assert(old_order[oj] < k);
            } else {
                assert(new_order[i] == old_order[oi]);
                assert(old_order[oi] < k);
            }
        }
        assert forall|i: int, j: int| 0 <= i < j < new_order.len() implies #[trigger] keys@[new_order[i] as int].rank_le(
            #[trigger] keys@[new_order[j] as int],
        ) by {
            let oi = if i < p {
                i
            } else {
                i - 1
            };
            let oj = if j < p {
                j
            } else {
                j - 1
            };
            if i != p && j != p {
                assert(new_order[i] == old_order[oi]);
                assert(new_order[j] == old_order[oj]);
                assert(keys@[old_order[oi] as int].rank_le(keys@[old_order[oj] as int]));
            } else if i == p {
                assert(new_order[j] == old_order[oj]);
                assert(keys@[k as int].rank_le(keys@[old_order[oj] as int]));
            } else {
                assert(new_order[i] == old_order[oi]);
                assert(keys@[old_order[oi] as int].rank_le(keys@[k as int]));
            }
        }
        assert forall|i: int, j: int|
            0 <= i < j < new_order.len() && keys@[new_order[j] as int].rank_le(
                keys@[new_order[i] as int],
            ) implies #[trigger] new_order[i] < #[trigger] new_order[j] by {
            let oi = if i < p {
                i
            } else {
                i - 1
            };
            let oj = if j < p {
                j
            } else {
                j - 1
            };
            if i != p && j != p {
                assert(new_order[i] == old_order[oi]);
                assert(new_order[j] == old_order[oj]);
                assert(keys@[old_order[oj] as int].rank_le(keys@[old_order[oi] as int]));
            } else if i == p {
                assert(new_order[j] == old_order[oj]);
                assert(!keys@[old_order[oj] as int].rank_le(keys@[k as int]));
            } else {
                assert(new_order[i] == old_order[oi]);
                assert(old_order[oi] < k);
            }
        }
        k = k + 1;
    }
    order
}

} // verus!
