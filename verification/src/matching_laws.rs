//! What holds of the matcher's result for all lists: what the count counts,
//! that padding never matches, and that the order of a list decides only
//! where a match shows up.

use vstd::prelude::*;
use crate::contacts::{zeros, ContactListView};
use crate::counting::{
    lemma_pairs_by_row_bound,
    lemma_pairs_by_row_is_pair_count,
    lemma_pairs_by_row_permutation,
};
use crate::matcher::{is_shared, matched_view, matching_pairs, pair_count, slots_match};

verus! {

/// The index pairs `(i, j)` at which `a` and `b` hold equal values,
/// whatever the values are.
pub open spec fn equal_index_pairs(a: Seq<u128>, b: Seq<u128>) -> Set<(int, int)> {
    Set::new(|p: (int, int)| 0 <= p.0 < a.len() && 0 <= p.1 < b.len() && a[p.0] == b[p.1])
}

/// There are finitely many matching pairs, at most one for each pair of
/// slots: two lists of 32 slots have at most 1024.
pub proof fn lemma_matching_pairs_are_finite(a: Seq<u128>, b: Seq<u128>)
    ensures
        matching_pairs(a, b).finite(),
        pair_count(a, b) <= a.len() * b.len(),
{
    lemma_pairs_by_row_is_pair_count(a, b);
    lemma_pairs_by_row_bound(a, b);
}

/// A slot of a party's view is set exactly if some slot of the other list
/// matches it, and then it holds the party's own contact.
pub proof fn lemma_view_marks_matched_slots(own: Seq<u128>, other: Seq<u128>, i: int)
    requires
        0 <= i < own.len(),
    ensures
        matched_view(own, other)[i] != 0 <==> exists|j: int|
            0 <= j < other.len() && slots_match(own, other, i, j),
        matched_view(own, other)[i] != 0 ==> matched_view(own, other)[i] == own[i],
{
    if is_shared(own[i], other) {
        let j = choose|j: int| 0 <= j < other.len() && other[j] == own[i];
        assert(slots_match(own, other, i, j));
    }
    if exists|j: int| 0 <= j < other.len() && slots_match(own, other, i, j) {
        let j = choose|j: int| 0 <= j < other.len() && slots_match(own, other, i, j);
        assert(other[j] == own[i]);
    }
}

/// The match count of two well-formed lists, of which at least one holds no
/// zero among its slots in use, is the number of index pairs `(i, j)` with
/// `i` below the first count, `j` below the second and equal hash values.
pub proof fn lemma_match_count_counts_equal_entries(a: ContactListView, b: ContactListView)
    requires
        a.wf(),
        b.wf(),
        a.valid() || b.valid(),
    ensures
        matching_pairs(a.hashes, b.hashes) == equal_index_pairs(a.entries(), b.entries()),
        pair_count(a.hashes, b.hashes) == equal_index_pairs(a.entries(), b.entries()).len(),
{
    assert(matching_pairs(a.hashes, b.hashes) =~= equal_index_pairs(a.entries(), b.entries()));
}

/// A padding slot never matches: no comparison that involves a slot beyond
/// either list's count finds a match, so only the slots in use are counted,
/// and each party's view is zero at its own padding slots.
pub proof fn lemma_padding_never_matches(a: ContactListView, b: ContactListView)
    requires
        a.wf(),
        b.wf(),
    ensures
        forall|i: int, j: int|
            0 <= i < 32 && 0 <= j < 32 && #[trigger] slots_match(a.hashes, b.hashes, i, j) ==> i
                < a.count && j < b.count,
        matching_pairs(a.hashes, b.hashes) == matching_pairs(a.entries(), b.entries()),
        pair_count(a.hashes, b.hashes) == pair_count(a.entries(), b.entries()),
        forall|i: int| a.count <= i < 32 ==> matched_view(a.hashes, b.hashes)[i] == 0,
        forall|j: int| b.count <= j < 32 ==> matched_view(b.hashes, a.hashes)[j] == 0,
{
    assert(matching_pairs(a.hashes, b.hashes) =~= matching_pairs(a.entries(), b.entries()));
}

/// Both parties' lists give the same count, whichever is taken first.
pub proof fn lemma_count_is_symmetric(a: Seq<u128>, b: Seq<u128>)
    ensures
        pair_count(a, b) == pair_count(b, a),
{
    let swap = |p: (int, int)| (p.1, p.0);
    let forth = matching_pairs(a, b);
    let back = matching_pairs(b, a);
    lemma_matching_pairs_are_finite(a, b);
    assert forall|q: (int, int)| back.contains(q) implies forth.map(swap).contains(q) by {
        assert(forth.contains((q.1, q.0)));
        assert(swap((q.1, q.0)) == q);
    }
    assert(forth.map(swap) =~= back);
    vstd::set_lib::lemma_map_size(forth, back, swap);
}

/// The count and the views agree on whether anything matched: the count is
/// zero exactly if the first party's view is all zero, and exactly if the
/// second party's is.
pub proof fn lemma_count_zero_iff_views_empty(a: Seq<u128>, b: Seq<u128>)
    ensures
        pair_count(a, b) == 0 <==> matched_view(a, b) == zeros(a.len()),
        pair_count(a, b) == 0 <==> matched_view(b, a) == zeros(b.len()),
{
    lemma_matching_pairs_are_finite(a, b);
    vstd::set_lib::lemma_set_empty_equivalency_len(matching_pairs(a, b));
    if pair_count(a, b) == 0 {
        assert forall|i: int| 0 <= i < a.len() implies !is_shared(#[trigger] a[i], b) by {
            if is_shared(a[i], b) {
                let j = choose|j: int| 0 <= j < b.len() && b[j] == a[i];
                assert(matching_pairs(a, b).contains((i, j)));
            }
        }
        assert(matched_view(a, b) =~= zeros(a.len()));
        assert forall|j: int| 0 <= j < b.len() implies !is_shared(#[trigger] b[j], a) by {
            if is_shared(b[j], a) {
                let i = choose|i: int| 0 <= i < a.len() && a[i] == b[j];
                assert(matching_pairs(a, b).contains((i, j)));
            }
        }
        assert(matched_view(b, a) =~= zeros(b.len()));
    } else {
        let p = choose|p: (int, int)| matching_pairs(a, b).contains(p);
        assert(b.contains(a[p.0]));
        assert(matched_view(a, b)[p.0] == a[p.0]);
        assert(a.contains(b[p.1]));
        assert(matched_view(b, a)[p.1] == b[p.1]);
    }
}

/// A party's view is reordered as the party's list is.
proof fn lemma_view_follows_permutation(a1: Seq<u128>, a2: Seq<u128>, b: Seq<u128>)
    requires
        a1.to_multiset() == a2.to_multiset(),
    ensures
        matched_view(a1, b).to_multiset() == matched_view(a2, b).to_multiset(),
    decreases a1.len(),
{
    broadcast use vstd::multiset::group_multiset_axioms;

    vstd::seq_lib::to_multiset_len(a1);
    vstd::seq_lib::to_multiset_len(a2);
    let v1 = matched_view(a1, b);
    let v2 = matched_view(a2, b);
    if a1.len() == 0 {
        assert(v1 =~= v2);
    } else {
        let last = a1.len() - 1;
        let x = a1[last];
        assert(a1.contains(x));
        vstd::seq_lib::to_multiset_contains(a1, x);
        vstd::seq_lib::to_multiset_contains(a2, x);
        let k = choose|k: int| 0 <= k < a2.len() && a2[k] == x;
        assert(a1.drop_last() =~= a1.remove(last));
        vstd::seq_lib::to_multiset_remove(a1, last);
        vstd::seq_lib::to_multiset_remove(a2, k);
        lemma_view_follows_permutation(a1.drop_last(), a2.remove(k), b);

        assert(matched_view(a1.drop_last(), b) =~= v1.remove(last));
        assert(matched_view(a2.remove(k), b) =~= v2.remove(k));
        vstd::seq_lib::to_multiset_remove(v1, last);
        vstd::seq_lib::to_multiset_remove(v2, k);
        assert(v1[last] == v2[k]);
        assert(v1.contains(v1[last]));
        assert(v2.contains(v2[k]));
        vstd::seq_lib::to_multiset_contains(v1, v1[last]);
        vstd::seq_lib::to_multiset_contains(v2, v2[k]);
        assert(v1.to_multiset() =~= v1.to_multiset().remove(v1[last]).insert(v1[last]));
        assert(v2.to_multiset() =~= v2.to_multiset().remove(v2[k]).insert(v2[k]));
    }
}

/// The order of a party's list decides only where its matches show up.
/// With `a2` a reordering of `a`: the match count is the same, whichever
/// side the reordered list stands on; the other party's view is the same;
/// the party's own view is reordered as its list was; and a contact is
/// matched in one order exactly if it is in the other.
pub proof fn lemma_order_decides_only_positions(a: Seq<u128>, a2: Seq<u128>, b: Seq<u128>)
    requires
        a.to_multiset() == a2.to_multiset(),
    ensures
        pair_count(a2, b) == pair_count(a, b),
        pair_count(b, a2) == pair_count(b, a),
        matched_view(b, a2) == matched_view(b, a),
        matched_view(a2, b).to_multiset() == matched_view(a, b).to_multiset(),
        forall|i: int, k: int|
            0 <= i < a.len() && 0 <= k < a2.len() && a[i] == a2[k] ==> #[trigger] matched_view(
                a,
                b,
            )[i] == #[trigger] matched_view(a2, b)[k],
{
    lemma_pairs_by_row_permutation(a, a2, b, b);
    lemma_pairs_by_row_permutation(b, b, a, a2);
    lemma_pairs_by_row_is_pair_count(a, b);
    lemma_pairs_by_row_is_pair_count(a2, b);
    lemma_pairs_by_row_is_pair_count(b, a);
    lemma_pairs_by_row_is_pair_count(b, a2);
    lemma_view_follows_permutation(a, a2, b);
    assert forall|x: u128| is_shared(x, a) == is_shared(x, a2) by {
        vstd::seq_lib::to_multiset_contains(a, x);
        vstd::seq_lib::to_multiset_contains(a2, x);
    }
    assert(matched_view(b, a2) =~= matched_view(b, a));
}

} // verus!
