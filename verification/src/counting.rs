//! Counting matching pairs row by row, as the matcher's loops do, and the
//! proof that this count is the number of matching pairs.

use vstd::prelude::*;
use crate::matcher::{matching_pairs, pair_count, slots_match};

verus! {

/// How many slots of `other` hold the contact `x`. The zero sentinel is no
/// contact and has no partner.
pub open spec fn partners(x: u128, other: Seq<u128>) -> nat {
    if x == 0 {
        0
    } else {
        other.to_multiset().count(x)
    }
}

/// The partners of every slot of `a`, summed up slot by slot.
pub open spec fn pairs_by_row(a: Seq<u128>, b: Seq<u128>) -> nat
    decreases a.len(),
{
    if a.len() == 0 {
        0
    } else {
        pairs_by_row(a.drop_last(), b) + partners(a.last(), b)
    }
}

/// The empty prefix holds nothing.
pub proof fn lemma_prefix_empty(s: Seq<u128>, x: u128)
    ensures
        !s.take(0).contains(x),
        partners(x, s.take(0)) == 0,
{
    broadcast use vstd::multiset::group_multiset_axioms;

    assert(s.take(0) =~= Seq::<u128>::empty());
    vstd::seq_lib::to_multiset_len(s.take(0));
    vstd::multiset::lemma_multiset_empty_len(s.take(0).to_multiset());
}

/// Extending a prefix by one slot adds that slot's value to what the prefix
/// holds.
pub proof fn lemma_prefix_step(s: Seq<u128>, j: int, x: u128)
    requires
        0 <= j < s.len(),
    ensures
        s.take(j + 1).contains(x) <==> (s.take(j).contains(x) || s[j] == x),
        partners(x, s.take(j + 1)) == partners(x, s.take(j)) + if s[j] == x && x != 0 {
            1nat
        } else {
            0nat
        },
{
    broadcast use vstd::multiset::group_multiset_axioms;

    let shorter = s.take(j);
    let longer = s.take(j + 1);
    assert(longer =~= shorter.push(s[j]));
    vstd::seq_lib::to_multiset_build(shorter, s[j]);
    if longer.contains(x) {
        let k = choose|k: int| 0 <= k < longer.len() && longer[k] == x;
        if k < j {
            assert(shorter[k] == x);
        }
    }
    if shorter.contains(x) {
        let k = choose|k: int| 0 <= k < shorter.len() && shorter[k] == x;
        assert(longer[k] == x);
    }
    if s[j] == x {
        assert(longer[j] == x);
    }
}

/// Extending the first list's prefix by one slot adds that slot's partners.
pub proof fn lemma_pairs_by_row_step(a: Seq<u128>, b: Seq<u128>, i: int)
    requires
        0 <= i < a.len(),
    ensures
        pairs_by_row(a.take(i + 1), b) == pairs_by_row(a.take(i), b) + partners(a[i], b),
{
    assert(a.take(i + 1).drop_last() =~= a.take(i));
}

/// The matching pairs that come before `(i, j)` when the pairs are walked
/// row by row.
spec fn pairs_before(a: Seq<u128>, b: Seq<u128>, i: int, j: int) -> Set<(int, int)> {
    Set::new(
        |p: (int, int)| matching_pairs(a, b).contains(p) && (p.0 < i || (p.0 == i && p.1 < j)),
    )
}

/// Walking the pairs row by row, the matching pairs passed so far are as
/// many as the rows passed hold, plus those met in the current row.
proof fn lemma_pairs_before_len(a: Seq<u128>, b: Seq<u128>, i: int, j: int)
    requires
        0 <= i < a.len(),
        0 <= j <= b.len(),
    ensures
        pairs_before(a, b, i, j).finite(),
        pairs_before(a, b, i, j).len() == pairs_by_row(a.take(i), b) + partners(a[i], b.take(j)),
    decreases i, j,
{
    if j == 0 {
        lemma_prefix_empty(b, a[i]);
        if i == 0 {
            assert(pairs_before(a, b, 0, 0) =~= Set::<(int, int)>::empty());
            assert(a.take(0) =~= Seq::<u128>::empty());
        } else {
            lemma_pairs_before_len(a, b, i - 1, b.len() as int);
            assert(pairs_before(a, b, i, 0) =~= pairs_before(a, b, i - 1, b.len() as int));
            assert(b.take(b.len() as int) =~= b);
            lemma_pairs_by_row_step(a, b, i - 1);
        }
    } else {
        lemma_pairs_before_len(a, b, i, j - 1);
        lemma_prefix_step(b, j - 1, a[i]);
        let earlier = pairs_before(a, b, i, j - 1);
        if slots_match(a, b, i, j - 1) {
            assert(!earlier.contains((i, j - 1)));
            assert(pairs_before(a, b, i, j) =~= earlier.insert((i, j - 1)));
        } else {
            assert(pairs_before(a, b, i, j) =~= earlier);
        }
    }
}

/// Counting row by row counts the matching pairs.
pub proof fn lemma_pairs_by_row_is_pair_count(a: Seq<u128>, b: Seq<u128>)
    ensures
        matching_pairs(a, b).finite(),
        pairs_by_row(a, b) == pair_count(a, b),
{
    if a.len() == 0 {
        assert(matching_pairs(a, b) =~= Set::<(int, int)>::empty());
    } else {
        let last = a.len() - 1;
        lemma_pairs_before_len(a, b, last, b.len() as int);
        assert(matching_pairs(a, b) =~= pairs_before(a, b, last, b.len() as int));
        assert(b.take(b.len() as int) =~= b);
        assert(a.take(last) =~= a.drop_last());
    }
}

/// Taking one slot out of the first list takes that slot's partners out of
/// the count.
pub proof fn lemma_pairs_by_row_remove(a: Seq<u128>, b: Seq<u128>, k: int)
    requires
        0 <= k < a.len(),
    ensures
        pairs_by_row(a, b) == pairs_by_row(a.remove(k), b) + partners(a[k], b),
    decreases a.len(),
{
    if k == a.len() - 1 {
        assert(a.remove(k) =~= a.drop_last());
    } else {
        lemma_pairs_by_row_remove(a.drop_last(), b, k);
        assert(a.remove(k).drop_last() =~= a.drop_last().remove(k));
        assert(a.remove(k).last() == a.last());
    }
}

/// The count by rows does not depend on the order of either list.
pub proof fn lemma_pairs_by_row_permutation(
    a1: Seq<u128>,
    a2: Seq<u128>,
    b1: Seq<u128>,
    b2: Seq<u128>,
)
    requires
        a1.to_multiset() == a2.to_multiset(),
        b1.to_multiset() == b2.to_multiset(),
    ensures
        pairs_by_row(a1, b1) == pairs_by_row(a2, b2),
    decreases a1.len(),
{
    vstd::seq_lib::to_multiset_len(a1);
    vstd::seq_lib::to_multiset_len(a2);
    if a1.len() > 0 {
        let last = a1.len() - 1;
        let x = a1[last];
        assert(a1.contains(x));
        vstd::seq_lib::to_multiset_contains(a1, x);
        vstd::seq_lib::to_multiset_contains(a2, x);
        let k = choose|k: int| 0 <= k < a2.len() && a2[k] == x;
        assert(a1.drop_last() =~= a1.remove(last));
        vstd::seq_lib::to_multiset_remove(a1, last);
        vstd::seq_lib::to_multiset_remove(a2, k);
        lemma_pairs_by_row_permutation(a1.drop_last(), a2.remove(k), b1, b2);
        lemma_pairs_by_row_remove(a2, b2, k);
    }
}

/// No slot has more partners than the other list has slots, so the count
/// by rows is at most the number of pairs of slots.
pub proof fn lemma_pairs_by_row_bound(a: Seq<u128>, b: Seq<u128>)
    ensures
        pairs_by_row(a, b) <= a.len() * b.len(),
    decreases a.len(),
{
    broadcast use vstd::multiset::group_multiset_axioms;

    if a.len() > 0 {
        let rest = a.drop_last();
        lemma_pairs_by_row_bound(rest, b);
        vstd::seq_lib::to_multiset_len(b);
        assert(partners(a.last(), b) <= b.len());
        assert(rest.len() * b.len() + b.len() == a.len() * b.len()) by (nonlinear_arith)
            requires
                rest.len() + 1 == a.len(),
        ;
    } else {
        assert(a.len() * b.len() == 0) by (nonlinear_arith)
            requires
                a.len() == 0,
        ;
    }
}

} // verus!
