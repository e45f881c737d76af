//! What holds of the confidential record over a whole session: each slot
//! is written once, the match happens once, and what a party is shown is
//! the intersection of the two lists that were stored.

use vstd::prelude::*;
use crate::circuits::{MatchResultView, SessionStateView};
use crate::contacts::{ContactListView, MAX_CONTACTS};
use crate::matcher::{matched_view, pair_count};
use crate::matching_laws::{
    equal_index_pairs,
    lemma_count_zero_iff_views_empty,
    lemma_match_count_counts_equal_entries,
    lemma_order_decides_only_positions,
    lemma_padding_never_matches,
};
use crate::program::SessionStatus;

verus! {

/// A new session's record is well formed and awaits the first party.
pub proof fn lemma_new_session()
    ensures
        SessionStateView::empty().wf(),
        SessionStateView::empty().status() == SessionStatus::AwaitingAlice,
        SessionStateView::empty().alice_slot_free(),
        !SessionStateView::empty().can_proceed(),
{
}

/// The first party's submission keeps the record well formed.
pub proof fn lemma_submit_contacts_alice_keeps_wf(s: SessionStateView, list: ContactListView)
    requires
        s.wf(),
        list.hashes.len() == MAX_CONTACTS,
    ensures
        s.submit_contacts_alice(list).0.wf(),
{
}

/// The second party's submission keeps the record well formed.
pub proof fn lemma_submit_and_match_keeps_wf(s: SessionStateView, bob: ContactListView)
    requires
        s.wf(),
        bob.hashes.len() == MAX_CONTACTS,
    ensures
        s.submit_and_match(bob).0.wf(),
{
}

/// Of two submissions by the first party the first one stays: the second
/// is answered as not accepted and changes nothing, whatever it holds.
pub proof fn lemma_second_submission_is_rejected(
    s: SessionStateView,
    first: ContactListView,
    second: ContactListView,
)
    requires
        s.alice_slot_free(),
    ensures
        ({
            let (s1, c1) = s.submit_contacts_alice(first);
            let (s2, c2) = s1.submit_contacts_alice(second);
            &&& c1.accepted == 1
            &&& c2.accepted == 0
            &&& s2 == s1
            &&& s2.alice_list() == first
        }),
{
}

/// A slot is written at most once. A submission by the first party to a
/// slot that is taken, and one by the second party that is not admitted,
/// leave the whole record as it was and tell the caller nothing.
pub proof fn lemma_refused_submission_changes_nothing(s: SessionStateView, list: ContactListView)
    ensures
        !s.alice_slot_free() ==> s.submit_contacts_alice(list).0 == s && s.submit_contacts_alice(
            list,
        ).1.accepted == 0,
        !s.can_proceed() ==> s.submit_and_match(list).0 == s && s.submit_and_match(list).1
            == MatchResultView::empty(),
{
}

/// The lists are matched once, and only after the first party has
/// submitted: the matched flag changes only from 0 to 1, only through the
/// second party's submission, and only in a record that holds the first
/// party's list.
pub proof fn lemma_matched_is_set_once(s: SessionStateView, list: ContactListView)
    ensures
        s.submit_contacts_alice(list).0.is_matched == s.is_matched,
        s.submit_and_match(list).0.is_matched != s.is_matched ==> {
            &&& s.is_matched == 0
            &&& s.alice_submitted == 1
            &&& s.submit_and_match(list).0.is_matched == 1
            &&& s.submit_and_match(list).0.bob_list() == list
        },
{
}

/// Once the lists have been matched, the stored results never change, and
/// a well-formed record does not change at all.
pub proof fn lemma_results_are_final(s: SessionStateView, list: ContactListView)
    requires
        s.is_matched == 1,
    ensures
        s.submit_contacts_alice(list).0.result_alice == s.result_alice,
        s.submit_contacts_alice(list).0.result_bob == s.result_bob,
        s.submit_contacts_alice(list).0.result_count == s.result_count,
        s.submit_and_match(list).0 == s,
        s.wf() ==> s.submit_contacts_alice(list).0 == s,
{
}

/// The record tells how far the session has come: an accepted submission
/// by the first party leads from awaiting the first party to awaiting the
/// second, an admitted one by the second party leads from there to
/// matched, and nothing else moves a well-formed record.
pub proof fn lemma_status_advances(s: SessionStateView, list: ContactListView)
    requires
        s.wf(),
    ensures
        s.alice_slot_free() <==> s.status() == SessionStatus::AwaitingAlice,
        s.can_proceed() <==> s.status() == SessionStatus::AwaitingBob,
        s.status() == SessionStatus::AwaitingAlice ==> s.submit_contacts_alice(list).0.status()
            == SessionStatus::AwaitingBob,
        s.status() == SessionStatus::AwaitingBob ==> s.submit_and_match(list).0.status()
            == SessionStatus::Matched,
        s.status() != SessionStatus::AwaitingAlice ==> s.submit_contacts_alice(list).0 == s,
        s.status() != SessionStatus::AwaitingBob ==> s.submit_and_match(list).0 == s,
{
}

/// Before the lists have been matched, the first party is shown the empty
/// view: all slots zero and a count of zero.
pub proof fn lemma_reveal_before_match_is_empty(s: SessionStateView)
    requires
        s.is_matched != 1,
    ensures
        s.reveal_alice_matches() == MatchResultView::empty(),
{
}

/// What the first party is shown does not tell a session that has not been
/// matched from one whose lists have nothing in common: in both cases it
/// is the empty view.
pub proof fn lemma_reveal_without_overlap_is_empty(s: SessionStateView)
    requires
        s.wf(),
        s.is_matched == 1,
        s.result_count == 0,
    ensures
        s.reveal_alice_matches() == MatchResultView::empty(),
{
    lemma_count_zero_iff_views_empty(s.alice_hashes, s.bob_hashes);
}

/// A whole session. After the first party has submitted `a` and the second
/// party `b` to a new session, the second party holds its view of the
/// intersection, the first party is shown its own, and both carry the
/// number of pairs of slots that hold the same contact.
pub proof fn lemma_session_yields_intersection(a: ContactListView, b: ContactListView)
    ensures
        ({
            let (s1, confirmation) = SessionStateView::empty().submit_contacts_alice(a);
            let (s2, bob_view) = s1.submit_and_match(b);
            let alice_view = s2.reveal_alice_matches();
            &&& confirmation.accepted == 1
            &&& s1.reveal_alice_matches() == MatchResultView::empty()
            &&& s2.alice_list() == a
            &&& s2.bob_list() == b
            &&& bob_view.matches == matched_view(b.hashes, a.hashes)
            &&& alice_view.matches == matched_view(a.hashes, b.hashes)
            &&& bob_view.match_count == pair_count(a.hashes, b.hashes)
            &&& alice_view.match_count == bob_view.match_count
        }),
{
}

/// The match count of a session is the number of index pairs `(i, j)`, `i`
/// below the first list's count and `j` below the second's, at which the
/// two lists hold equal hashes. It holds for well-formed lists of which at
/// least one has no zero among its slots in use.
pub proof fn lemma_session_counts_equal_entries(a: ContactListView, b: ContactListView)
    requires
        a.wf(),
        b.wf(),
        a.valid() || b.valid(),
    ensures
        SessionStateView::empty().submit_contacts_alice(a).0.submit_and_match(b).1.match_count
            == equal_index_pairs(a.entries(), b.entries()).len(),
{
    lemma_match_count_counts_equal_entries(a, b);
}

/// Padding never shows up in a session's results: with well-formed lists
/// each party's view is zero at every slot beyond that party's count.
pub proof fn lemma_session_views_are_zero_on_padding(a: ContactListView, b: ContactListView)
    requires
        a.wf(),
        b.wf(),
    ensures
        ({
            let (s2, bob_view) = SessionStateView::empty().submit_contacts_alice(
                a,
            ).0.submit_and_match(b);
            &&& forall|i: int| a.count <= i < 32 ==> s2.reveal_alice_matches().matches[i] == 0
            &&& forall|j: int| b.count <= j < 32 ==> bob_view.matches[j] == 0
        }),
{
    lemma_padding_never_matches(a, b);
}

/// The order in which a party lists its contacts changes neither the
/// match count nor what the other party is shown, and the party's own view
/// is reordered as its list was.
pub proof fn lemma_session_ignores_order(
    a: ContactListView,
    a2: ContactListView,
    b: ContactListView,
    b2: ContactListView,
)
    requires
        a.hashes.to_multiset() == a2.hashes.to_multiset(),
        b.hashes.to_multiset() == b2.hashes.to_multiset(),
    ensures
        ({
            let (s, bob_view) = SessionStateView::empty().submit_contacts_alice(
                a,
            ).0.submit_and_match(b);
            let (s_a, bob_view_a) = SessionStateView::empty().submit_contacts_alice(
                a2,
            ).0.submit_and_match(b);
            let (s_b, bob_view_b) = SessionStateView::empty().submit_contacts_alice(
                a,
            ).0.submit_and_match(b2);
            &&& bob_view_a.match_count == bob_view.match_count
            &&& bob_view_b.match_count == bob_view.match_count
            &&& bob_view_a.matches == bob_view.matches
            &&& s_b.reveal_alice_matches().matches == s.reveal_alice_matches().matches
            &&& s_a.reveal_alice_matches().matches.to_multiset()
                == s.reveal_alice_matches().matches.to_multiset()
            &&& bob_view_b.matches.to_multiset() == bob_view.matches.to_multiset()
        }),
{
    lemma_order_decides_only_positions(a.hashes, a2.hashes, b.hashes);
    lemma_order_decides_only_positions(b.hashes, b2.hashes, a.hashes);
}

} // verus!
