//! Permutations preserve a buffer's contents as a multiset.
//!
//! The movement passes only exchange cells, so each is, per pass, a
//! permutation of the grid: every output cell takes the value of exactly
//! one input cell, and every input cell goes to exactly one output cell.
//! The lemma here captures the consequence once and for all: a buffer
//! rearranged by any permutation, given with its inverse, holds exactly
//! the same cells.

use vstd::prelude::*;
use vstd::seq_lib::group_to_multiset_ensures;

verus! {

/// `sigma` maps each output position of `s2` to the input position of
/// `s1` it reads, and `tau` is its inverse. Both stay inside `[0, n)`.
pub open spec fn spec_is_permutation(
    s1: Seq<u32>,
    s2: Seq<u32>,
    sigma: spec_fn(int) -> int,
    tau: spec_fn(int) -> int,
) -> bool {
    let n = s1.len() as int;
    &&& s2.len() == n
    &&& forall|i: int| 0 <= i < n ==> 0 <= #[trigger] sigma(i) < n
    &&& forall|i: int| 0 <= i < n ==> 0 <= #[trigger] tau(i) < n
    &&& forall|i: int| 0 <= i < n ==> tau(#[trigger] sigma(i)) == i
    &&& forall|i: int| 0 <= i < n ==> sigma(#[trigger] tau(i)) == i
    &&& forall|i: int| 0 <= i < n ==> #[trigger] s2[i] == s1[sigma(i)]
}

/// A buffer rearranged by a permutation holds the same cells: the two
/// sequences have equal multisets.
pub proof fn lemma_permutation_preserves_multiset(
    s1: Seq<u32>,
    s2: Seq<u32>,
    sigma: spec_fn(int) -> int,
    tau: spec_fn(int) -> int,
)
    requires
        spec_is_permutation(s1, s2, sigma, tau),
    ensures
        s2.to_multiset() == s1.to_multiset(),
    decreases s1.len(),
{
    broadcast use group_to_multiset_ensures;

    let n = s1.len() as int;
    if n == 0 {
        assert(s1 =~= s2);
    } else {
        // The output position that reads the last input cell.
        let j = tau(n - 1);
        assert(sigma(j) == n - 1);
        assert(s2[j] == s1[n - 1]);

        let s1r = s1.drop_last();
        let s2r = s2.remove(j);

        // The remaining positions permute among themselves: removing
        // output position j shifts the later output positions down by
        // one, and no remaining output position reads input n-1.
        let sigma2 = |i: int|
            if i < j {
                sigma(i)
            } else {
                sigma(i + 1)
            };
        let tau2 = |i: int|
            if tau(i) < j {
                tau(i)
            } else {
                tau(i) - 1
            };

        assert forall|i: int| 0 <= i < n - 1 implies 0 <= #[trigger] sigma2(i) < n - 1 by {
            let k = if i < j {
                i
            } else {
                i + 1
            };
            assert(k != j);
            assert(sigma(k) != n - 1) by {
                if sigma(k) == n - 1 {
                    assert(tau(sigma(k)) == k);
                }
            }
        }
        assert forall|i: int| 0 <= i < n - 1 implies 0 <= #[trigger] tau2(i) < n - 1 by {
            assert(tau(i) != j) by {
                if tau(i) == j {
                    assert(sigma(tau(i)) == i);
                }
            }
            if tau(i) == n - 1 {
                assert(sigma(tau(i)) == i);
                assert(sigma(n - 1) == i);
                assert(tau(sigma(n - 1)) == n - 1);
            }
        }
        assert forall|i: int| 0 <= i < n - 1 implies tau2(#[trigger] sigma2(i)) == i by {
            let k = if i < j {
                i
            } else {
                i + 1
            };
            assert(tau(sigma(k)) == k);
        }
        assert forall|i: int| 0 <= i < n - 1 implies sigma2(#[trigger] tau2(i)) == i by {
            assert(tau(i) != j) by {
                if tau(i) == j {
                    assert(sigma(tau(i)) == i);
                }
            }
            assert(sigma(tau(i)) == i);
        }
        assert forall|i: int| 0 <= i < n - 1 implies #[trigger] s2r[i] == s1r[sigma2(i)] by {
            let k = if i < j {
                i
            } else {
                i + 1
            };
            assert(s2r[i] == s2[k]);
            assert(s2[k] == s1[sigma(k)]);
            assert(sigma(k) != n - 1) by {
                if sigma(k) == n - 1 {
                    assert(tau(sigma(k)) == k);
                }
            }
        }

        lemma_permutation_preserves_multiset(s1r, s2r, sigma2, tau2);

        // Reattach the removed cell on both sides.
        assert(s1r.push(s1.last()) =~= s1);
        assert(s1.to_multiset() =~= s1r.to_multiset().insert(s1[n - 1]));
        assert(s2r.to_multiset() =~= s2.to_multiset().remove(s2[j]));
        assert(s2.contains(s2[j]));
        assert(s2.to_multiset().count(s2[j]) > 0);
        assert(s2.to_multiset() =~= s2.to_multiset().remove(s2[j]).insert(s2[j]));
        assert(s2.to_multiset() =~= s2r.to_multiset().insert(s1[n - 1]));
    }
}

} // verus!
