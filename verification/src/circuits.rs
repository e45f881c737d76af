//! The confidential record of one session and the four operations on it.
//!
//! Every operation does the same work whatever the record holds: a
//! submission that is not admitted leaves the record as it was, and says so
//! in the value it returns.

use vstd::prelude::*;
use crate::contacts::{zeros, ContactList, ContactListView, MAX_CONTACTS};
use crate::matcher::{intersect, matched_view, pair_count, Intersection};
use crate::program::SessionStatus;
use crate::select::{both, select_hashes, select_u32, select_u8};

verus! {

/// The record of one session: both parties' lists and, once matched, the
/// intersection as each party sees it.
#[derive(Clone, Copy, Debug, PartialEq, Eq)]
pub struct SessionState {
    /// The first party's contact hashes.
    pub alice_hashes: [u128; 32],
    /// Number of the first party's contacts.
    pub alice_count: u32,
    /// The second party's contact hashes.
    pub bob_hashes: [u128; 32],
    /// Number of the second party's contacts.
    pub bob_count: u32,
    /// 1 once the first party has submitted, 0 before.
    pub alice_submitted: u8,
    /// 1 once the second party has submitted, 0 before.
    pub bob_submitted: u8,
    /// 1 once the lists have been matched, 0 before.
    pub is_matched: u8,
    /// The intersection at the first party's positions, zero elsewhere.
    pub result_alice: [u128; 32],
    /// The intersection at the second party's positions, zero elsewhere.
    pub result_bob: [u128; 32],
    /// Number of matching pairs.
    pub result_count: u32,
}

/// The intersection as one party sees it.
#[derive(Clone, Copy, Debug, PartialEq, Eq)]
pub struct MatchResult {
    /// The party's own contacts that the other party holds too, each at the
    /// position where the party submitted it; zero elsewhere.
    pub matches: [u128; 32],
    /// Number of matching pairs.
    pub match_count: u32,
}

/// What a party learns of its submission.
#[derive(Clone, Copy, Debug, PartialEq, Eq)]
pub struct SubmitConfirmation {
    /// 1 if the list was stored, 0 if the slot was taken already.
    pub accepted: u8,
    /// Which party submitted: 1 for the first, 2 for the second.
    pub party: u8,
}

/// The mathematical content of a [`SessionState`].
#[verifier::ext_equal]
pub struct SessionStateView {
    pub alice_hashes: Seq<u128>,
    pub alice_count: nat,
    pub bob_hashes: Seq<u128>,
    pub bob_count: nat,
    pub alice_submitted: u8,
    pub bob_submitted: u8,
    pub is_matched: u8,
    pub result_alice: Seq<u128>,
    pub result_bob: Seq<u128>,
    pub result_count: nat,
}

/// The mathematical content of a [`MatchResult`].
#[verifier::ext_equal]
pub struct MatchResultView {
    pub matches: Seq<u128>,
    pub match_count: nat,
}

impl View for SessionState {
    type V = SessionStateView;

    open spec fn view(&self) -> SessionStateView {
        SessionStateView {
            alice_hashes: self.alice_hashes@,
            alice_count: self.alice_count as nat,
            bob_hashes: self.bob_hashes@,
            bob_count: self.bob_count as nat,
            alice_submitted: self.alice_submitted,
            bob_submitted: self.bob_submitted,
            is_matched: self.is_matched,
            result_alice: self.result_alice@,
            result_bob: self.result_bob@,
            result_count: self.result_count as nat,
        }
    }
}

impl View for MatchResult {
    type V = MatchResultView;

    open spec fn view(&self) -> MatchResultView {
        MatchResultView { matches: self.matches@, match_count: self.match_count as nat }
    }
}

impl MatchResultView {
    /// The view that tells nothing: all slots zero, no match counted.
    pub open spec fn empty() -> MatchResultView {
        MatchResultView { matches: zeros(MAX_CONTACTS as nat), match_count: 0 }
    }
}

impl SessionStateView {
    /// The record of a session that nobody has submitted to.
    pub open spec fn empty() -> SessionStateView {
        SessionStateView {
            alice_hashes: zeros(MAX_CONTACTS as nat),
            alice_count: 0,
            bob_hashes: zeros(MAX_CONTACTS as nat),
            bob_count: 0,
            alice_submitted: 0,
            bob_submitted: 0,
            is_matched: 0,
            result_alice: zeros(MAX_CONTACTS as nat),
            result_bob: zeros(MAX_CONTACTS as nat),
            result_count: 0,
        }
    }

    /// What holds of every record that the operations of this module can
    /// produce: the flags are 0 or 1, the second party's slot is filled
    /// together with the results and only after the first party's, an
    /// unwritten slot is all zero, and the results are those of the stored
    /// lists.
    pub open spec fn wf(self) -> bool {
        &&& self.alice_hashes.len() == MAX_CONTACTS
        &&& self.bob_hashes.len() == MAX_CONTACTS
        &&& self.result_alice.len() == MAX_CONTACTS
        &&& self.result_bob.len() == MAX_CONTACTS
        &&& self.alice_submitted <= 1
        &&& self.is_matched <= 1
        &&& self.bob_submitted == self.is_matched
        &&& self.is_matched == 1 ==> self.alice_submitted == 1
        &&& self.alice_submitted == 0 ==> self.alice_list() == ContactListView::empty()
        &&& if self.is_matched == 1 {
            &&& self.result_alice == matched_view(self.alice_hashes, self.bob_hashes)
            &&& self.result_bob == matched_view(self.bob_hashes, self.alice_hashes)
            &&& self.result_count == pair_count(self.alice_hashes, self.bob_hashes)
        } else {
            &&& self.bob_list() == ContactListView::empty()
            &&& self.result_alice == zeros(MAX_CONTACTS as nat)
            &&& self.result_bob == zeros(MAX_CONTACTS as nat)
            &&& self.result_count == 0
        }
    }

    /// The list in the first party's slot.
    pub open spec fn alice_list(self) -> ContactListView {
        ContactListView { hashes: self.alice_hashes, count: self.alice_count }
    }

    /// The list in the second party's slot.
    pub open spec fn bob_list(self) -> ContactListView {
        ContactListView { hashes: self.bob_hashes, count: self.bob_count }
    }

    /// How far the session has come, as the record tells it.
    pub open spec fn status(self) -> SessionStatus {
        if self.is_matched == 1 {
            SessionStatus::Matched
        } else if self.alice_submitted == 1 {
            SessionStatus::AwaitingBob
        } else {
            SessionStatus::AwaitingAlice
        }
    }

    /// Whether the first party's slot can still be written.
    pub open spec fn alice_slot_free(self) -> bool {
        self.alice_submitted == 0
    }

    /// Whether the second party's submission is admitted: the first party
    /// has submitted and the lists have not been matched yet.
    pub open spec fn can_proceed(self) -> bool {
        self.alice_submitted == 1 && self.is_matched == 0
    }

    /// The record and the confirmation after the first party submits
    /// `list`. A taken slot leaves the record as it is.
    pub open spec fn submit_contacts_alice(self, list: ContactListView) -> (
        SessionStateView,
        SubmitConfirmation,
    ) {
        if self.alice_slot_free() {
            (
                SessionStateView {
                    alice_hashes: list.hashes,
                    alice_count: list.count,
                    alice_submitted: 1,
                    ..self
                },
                SubmitConfirmation { accepted: 1, party: 1 },
            )
        } else {
            (self, SubmitConfirmation { accepted: 0, party: 1 })
        }
    }

    /// The record and the second party's view after the second party
    /// submits `bob`. A submission that is not admitted leaves the record as
    /// it is and yields the empty view.
    pub open spec fn submit_and_match(self, bob: ContactListView) -> (
        SessionStateView,
        MatchResultView,
    ) {
        if self.can_proceed() {
            let count = pair_count(self.alice_hashes, bob.hashes);
            let bob_view = matched_view(bob.hashes, self.alice_hashes);
            (
                SessionStateView {
                    bob_hashes: bob.hashes,
                    bob_count: bob.count,
                    bob_submitted: 1,
                    is_matched: 1,
                    result_alice: matched_view(self.alice_hashes, bob.hashes),
                    result_bob: bob_view,
                    result_count: count,
                    ..self
                },
                MatchResultView { matches: bob_view, match_count: count },
            )
        } else {
            (self, MatchResultView::empty())
        }
    }

    /// What the first party is shown: its stored view once the lists have
    /// been matched, the empty view before.
    pub open spec fn reveal_alice_matches(self) -> MatchResultView {
        if self.is_matched == 1 {
            MatchResultView { matches: self.result_alice, match_count: self.result_count }
        } else {
            MatchResultView::empty()
        }
    }
}

/// Starts a session: an empty record.
pub fn init_session() -> (state: SessionState)
    ensures
        state@ == SessionStateView::empty(),
        state@.wf(),
{
    let state = SessionState {
        alice_hashes: [0u128; 32],
        alice_count: 0,
        bob_hashes: [0u128; 32],
        bob_count: 0,
        alice_submitted: 0,
        bob_submitted: 0,
        is_matched: 0,
        result_alice: [0u128; 32],
        result_bob: [0u128; 32],
        result_count: 0,
    };
    proof {
        assert(state@.alice_hashes =~= zeros(MAX_CONTACTS as nat));
        assert(state@.bob_hashes =~= zeros(MAX_CONTACTS as nat));
        assert(state@.result_alice =~= zeros(MAX_CONTACTS as nat));
        assert(state@.result_bob =~= zeros(MAX_CONTACTS as nat));
    }
    state
}

/// The first party submits its list. The list is stored if the slot is
/// free; otherwise the record stays as it is and the confirmation says that
/// the list was not accepted.
pub fn submit_contacts_alice(current_state: SessionState, contacts: ContactList) -> (r: (
    SessionState,
    SubmitConfirmation,
))
    ensures
        r.0@ == current_state@.submit_contacts_alice(contacts@).0,
        r.1 == current_state@.submit_contacts_alice(contacts@).1,
        current_state@.wf() ==> r.0@.wf(),
{
    let slot_available: bool = current_state.alice_submitted == 0;

    let new_hashes = select_hashes(slot_available, &contacts.hashes, &current_state.alice_hashes);
    let new_count = select_u32(slot_available, contacts.count, current_state.alice_count);
    let new_submitted = select_u8(slot_available, 1, current_state.alice_submitted);

    let updated = SessionState {
        alice_hashes: new_hashes,
        alice_count: new_count,
        bob_hashes: current_state.bob_hashes,
        bob_count: current_state.bob_count,
        alice_submitted: new_submitted,
        bob_submitted: current_state.bob_submitted,
        is_matched: current_state.is_matched,
        result_alice: current_state.result_alice,
        result_bob: current_state.result_bob,
        result_count: current_state.result_count,
    };
    let confirmation = SubmitConfirmation { accepted: select_u8(slot_available, 1, 0), party: 1 };

    proof {
        assert(updated@ =~= current_state@.submit_contacts_alice(contacts@).0);
    }
    (updated, confirmation)
}

/// The second party submits its list and the two lists are matched. The
/// comparison is carried out in full whether or not the submission is
/// admitted; its outcome is stored and returned only if it is.
pub fn submit_and_match(current_state: SessionState, bob_contacts: ContactList) -> (r: (
    SessionState,
    MatchResult,
))
    ensures
        r.0@ == current_state@.submit_and_match(bob_contacts@).0,
        r.1@ == current_state@.submit_and_match(bob_contacts@).1,
        current_state@.wf() ==> r.0@.wf(),
{
    let alice_ready: bool = current_state.alice_submitted == 1;
    let not_already_matched: bool = current_state.is_matched == 0;
    let can_proceed: bool = both(alice_ready, not_already_matched);

    let found: Intersection = intersect(
        &current_state.alice_hashes,
        &bob_contacts.hashes,
        can_proceed,
    );

    let updated = SessionState {
        alice_hashes: current_state.alice_hashes,
        alice_count: current_state.alice_count,
        bob_hashes: select_hashes(can_proceed, &bob_contacts.hashes, &current_state.bob_hashes),
        bob_count: select_u32(can_proceed, bob_contacts.count, current_state.bob_count),
        alice_submitted: current_state.alice_submitted,
        bob_submitted: select_u8(can_proceed, 1, current_state.bob_submitted),
        is_matched: select_u8(can_proceed, 1, current_state.is_matched),
        result_alice: select_hashes(can_proceed, &found.alice_matches, &current_state.result_alice),
        result_bob: select_hashes(can_proceed, &found.bob_matches, &current_state.result_bob),
        result_count: select_u32(can_proceed, found.match_count, current_state.result_count),
    };
    let result = MatchResult { matches: found.bob_matches, match_count: found.match_count };

    proof {
        assert(updated@ =~= current_state@.submit_and_match(bob_contacts@).0);
        assert(result@ =~= current_state@.submit_and_match(bob_contacts@).1);
    }
    (updated, result)
}

/// Shows the first party its side of the intersection. Before the lists
/// have been matched the answer is the empty view.
pub fn reveal_alice_matches(current_state: SessionState) -> (r: MatchResult)
    ensures
        r@ == current_state@.reveal_alice_matches(),
{
    let matched: bool = current_state.is_matched == 1;
    let nothing: [u128; 32] = [0u128; 32];

    let result = MatchResult {
        matches: select_hashes(matched, &current_state.result_alice, &nothing),
        match_count: select_u32(matched, current_state.result_count, 0),
    };
    proof {
        assert(nothing@ =~= zeros(MAX_CONTACTS as nat));
        assert(result@ =~= current_state@.reveal_alice_matches());
    }
    result
}

} // verus!
