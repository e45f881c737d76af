//! The oblivious matcher: every slot of one list is compared with every slot
//! of the other, whatever the lists hold, and the outcome of each comparison
//! only selects which value is stored.

use vstd::prelude::*;
use crate::contacts::{zeros, MAX_CONTACTS};
use crate::counting::{
    lemma_pairs_by_row_is_pair_count,
    lemma_pairs_by_row_step,
    lemma_prefix_empty,
    lemma_prefix_step,
    pairs_by_row,
    partners,
};
use crate::select::{both, select_u128, select_u32};

verus! {

/// Number of comparisons that one run of the matcher performs.
pub const COMPARISONS: u32 = 1024;

/// Whether slot `i` of `a` and slot `j` of `b` hold the same contact: both
/// hold something other than the zero sentinel, and the same value. This is
/// what the comparison of the two slots finds.
pub open spec fn slots_match(a: Seq<u128>, b: Seq<u128>, i: int, j: int) -> bool {
    a[i] != 0 && b[j] != 0 && a[i] == b[j]
}

/// The index pairs `(i, j)` at which `a` and `b` hold the same contact.
pub open spec fn matching_pairs(a: Seq<u128>, b: Seq<u128>) -> Set<(int, int)> {
    Set::new(
        |p: (int, int)| 0 <= p.0 < a.len() && 0 <= p.1 < b.len() && slots_match(a, b, p.0, p.1),
    )
}

/// Number of index pairs at which `a` and `b` hold the same contact. A
/// contact that occurs several times is counted once for each pair of
/// occurrences.
pub open spec fn pair_count(a: Seq<u128>, b: Seq<u128>) -> nat {
    matching_pairs(a, b).len()
}

/// Whether `x` is a contact that `other` holds too.
pub open spec fn is_shared(x: u128, other: Seq<u128>) -> bool {
    x != 0 && other.contains(x)
}

/// The result view of the party that submitted `own`: each shared contact
/// at the position where that party put it, zero elsewhere.
pub open spec fn matched_view(own: Seq<u128>, other: Seq<u128>) -> Seq<u128> {
    Seq::new(
        own.len(),
        |i: int|
            if is_shared(own[i], other) {
                own[i]
            } else {
                0u128
            },
    )
}

/// What one run of the matcher yields.
#[derive(Clone, Copy, Debug, PartialEq, Eq)]
pub struct Intersection {
    /// The first party's view, aligned to its own slots.
    pub alice_matches: [u128; 32],
    /// The second party's view, aligned to its own slots.
    pub bob_matches: [u128; 32],
    /// Number of matching pairs.
    pub match_count: u32,
    /// Number of slot comparisons that were carried out.
    pub comparisons: u32,
}

/// Computes the intersection of two lists of hashed contacts in exactly
/// 32 x 32 slot comparisons. With `can_proceed` unset the same comparisons
/// are made and nothing is recorded.
pub fn intersect(alice: &[u128; 32], bob: &[u128; 32], can_proceed: bool) -> (out: Intersection)
    ensures
        out.alice_matches@ == if can_proceed {
            matched_view(alice@, bob@)
        } else {
            zeros(MAX_CONTACTS as nat)
        },
        out.bob_matches@ == if can_proceed {
            matched_view(bob@, alice@)
        } else {
            zeros(MAX_CONTACTS as nat)
        },
        out.match_count == if can_proceed {
            pair_count(alice@, bob@)
        } else {
            0
        },
        out.match_count <= out.comparisons,
        out.comparisons == COMPARISONS,
{
    let mut alice_matches: [u128; 32] = [0u128; 32];
    let mut bob_matches: [u128; 32] = [0u128; 32];
    let mut match_count: u32 = 0;
    let mut comparisons: u32 = 0;

    proof {
        assert(alice@.take(0) =~= Seq::<u128>::empty());
        assert forall|k: int| 0 <= k < 32 implies !is_shared(#[trigger] bob@[k], alice@.take(0)) by {
            lemma_prefix_empty(alice@, bob@[k]);
        }
    }

    let mut i: usize = 0;
    while i < 32
        invariant
            i <= 32,
            comparisons == 32 * i,
            match_count <= comparisons,
            match_count == if can_proceed {
                pairs_by_row(alice@.take(i as int), bob@)
            } else {
                0
            },
            forall|k: int|
                0 <= k < 32 ==> #[trigger] alice_matches@[k] == if k < i && can_proceed
                    && is_shared(alice@[k], bob@) {
                    alice@[k]
                } else {
                    0u128
                },
            forall|k: int|
                0 <= k < 32 ==> #[trigger] bob_matches@[k] == if can_proceed && is_shared(
                    bob@[k],
                    alice@.take(i as int),
                ) {
                    bob@[k]
                } else {
                    0u128
                },
        decreases 32 - i,
    {
        let alice_hash: u128 = alice[i];
        let alice_valid: bool = alice_hash != 0;
        let ghost row_start: u32 = match_count;

        proof {
            lemma_prefix_empty(bob@, alice_hash);
        }

        let mut j: usize = 0;
        while j < 32
            invariant
                i < 32,
                j <= 32,
                alice_hash == alice@[i as int],
                alice_valid == (alice_hash != 0),
                comparisons == 32 * i + j,
                row_start <= 32 * i,
                partners(alice_hash, bob@.take(j as int)) <= j,
                match_count == row_start + if can_proceed {
                    partners(alice_hash, bob@.take(j as int))
                } else {
                    0
                },
                forall|k: int|
                    0 <= k < 32 && k != i ==> #[trigger] alice_matches@[k] == if k < i
                        && can_proceed && is_shared(alice@[k], bob@) {
                        alice@[k]
                    } else {
                        0u128
                    },
                alice_matches@[i as int] == if can_proceed && is_shared(
                    alice_hash,
                    bob@.take(j as int),
                ) {
                    alice_hash
                } else {
                    0u128
                },
                forall|k: int|
                    0 <= k < j ==> #[trigger] bob_matches@[k] == if can_proceed && is_shared(
                        bob@[k],
                        alice@.take(i + 1),
                    ) {
                        bob@[k]
                    } else {
                        0u128
                    },
                forall|k: int|
                    j <= k < 32 ==> #[trigger] bob_matches@[k] == if can_proceed && is_shared(
                        bob@[k],
                        alice@.take(i as int),
                    ) {
                        bob@[k]
                    } else {
                        0u128
                    },
            decreases 32 - j,
        {
            let bob_hash: u128 = bob[j];
            let bob_valid: bool = bob_hash != 0;

            // Both contacts are real, they are equal, and the session may proceed.
            let is_match: bool = both(
                both(alice_valid, bob_valid),
                both(alice_hash == bob_hash, can_proceed),
            );

            proof {
                lemma_prefix_step(bob@, j as int, alice_hash);
                lemma_prefix_step(alice@, i as int, bob_hash);
            }

            alice_matches[i] = select_u128(is_match, alice_hash, alice_matches[i]);
            bob_matches[j] = select_u128(is_match, bob_hash, bob_matches[j]);
            match_count = select_u32(is_match, match_count + 1, match_count);
            comparisons = comparisons + 1;
            j = j + 1;
        }

        proof {
            assert(bob@.take(32) =~= bob@);
            lemma_pairs_by_row_step(alice@, bob@, i as int);
        }
        i = i + 1;
    }

    proof {
        assert(alice@.take(32) =~= alice@);
        lemma_pairs_by_row_is_pair_count(alice@, bob@);
        if can_proceed {
            assert(alice_matches@ =~= matched_view(alice@, bob@));
            assert(bob_matches@ =~= matched_view(bob@, alice@));
        } else {
            assert(alice_matches@ =~= zeros(MAX_CONTACTS as nat));
            assert(bob_matches@ =~= zeros(MAX_CONTACTS as nat));
        }
    }

    Intersection { alice_matches, bob_matches, match_count, comparisons }
}

} // verus!
