use private_contact_discovery::circuits::{
    init_session, reveal_alice_matches, submit_and_match, submit_contacts_alice, MatchResult,
    SessionState, SubmitConfirmation,
};
use private_contact_discovery::contacts::{encode_contacts, ContactList};

const A: u128 = 0xA11CE;
const B: u128 = 0xB0B;
const C: u128 = 0xCA7;
const D: u128 = 0xD06;

fn list(entries: &[u128]) -> ContactList {
    encode_contacts(entries).unwrap()
}

fn padded(entries: &[u128]) -> [u128; 32] {
    list(entries).hashes
}

fn empty_result() -> MatchResult {
    MatchResult { matches: [0; 32], match_count: 0 }
}

fn equal_pairs(a: &[u128], b: &[u128]) -> u32 {
    let mut n = 0;
    for x in a {
        for y in b {
            if x == y {
                n += 1;
            }
        }
    }
    n
}

#[test]
fn a_new_session_is_empty() {
    let state = init_session();
    assert_eq!(
        state,
        SessionState {
            alice_hashes: [0; 32],
            alice_count: 0,
            bob_hashes: [0; 32],
            bob_count: 0,
            alice_submitted: 0,
            bob_submitted: 0,
            is_matched: 0,
            result_alice: [0; 32],
            result_bob: [0; 32],
            result_count: 0,
        }
    );
}

#[test]
fn the_first_submission_is_stored_and_confirmed() {
    let (state, confirmation) = submit_contacts_alice(init_session(), list(&[A, B, C]));
    assert_eq!(confirmation, SubmitConfirmation { accepted: 1, party: 1 });
    assert_eq!(state.alice_hashes, padded(&[A, B, C]));
    assert_eq!(state.alice_count, 3);
    assert_eq!(state.alice_submitted, 1);
    assert_eq!(state.bob_submitted, 0);
    assert_eq!(state.is_matched, 0);
    assert_eq!(state.bob_hashes, [0; 32]);
    assert_eq!(state.result_count, 0);
}

#[test]
fn a_second_submission_by_the_first_party_is_rejected() {
    let (first, _) = submit_contacts_alice(init_session(), list(&[A, B, C]));
    let (second, confirmation) = submit_contacts_alice(first, list(&[D]));
    assert_eq!(confirmation, SubmitConfirmation { accepted: 0, party: 1 });
    assert_eq!(second, first);
    assert_eq!(second.alice_hashes, padded(&[A, B, C]));
    assert_eq!(second.alice_count, 3);
}

#[test]
fn each_party_sees_the_intersection_at_its_own_positions() {
    let (state, _) = submit_contacts_alice(init_session(), list(&[A, B, C]));
    let (state, bob_view) = submit_and_match(state, list(&[B, C, D]));
    assert_eq!(bob_view, MatchResult { matches: padded(&[B, C, 0]), match_count: 2 });
    let alice_view = reveal_alice_matches(state);
    assert_eq!(alice_view, MatchResult { matches: padded(&[0, B, C]), match_count: 2 });
}

#[test]
fn the_match_fills_the_record() {
    let (state, _) = submit_contacts_alice(init_session(), list(&[A, B, C]));
    let (state, _) = submit_and_match(state, list(&[B, C, D]));
    assert_eq!(
        state,
        SessionState {
            alice_hashes: padded(&[A, B, C]),
            alice_count: 3,
            bob_hashes: padded(&[B, C, D]),
            bob_count: 3,
            alice_submitted: 1,
            bob_submitted: 1,
            is_matched: 1,
            result_alice: padded(&[0, B, C]),
            result_bob: padded(&[B, C, 0]),
            result_count: 2,
        }
    );
}

#[test]
fn reveal_before_any_submission_is_empty() {
    assert_eq!(reveal_alice_matches(init_session()), empty_result());
}

#[test]
fn reveal_before_the_match_is_empty() {
    let (state, _) = submit_contacts_alice(init_session(), list(&[A, B, C]));
    assert_eq!(reveal_alice_matches(state), empty_result());
}

#[test]
fn reveal_without_overlap_looks_like_reveal_before_the_match() {
    let (state, _) = submit_contacts_alice(init_session(), list(&[A, B]));
    let before = reveal_alice_matches(state);
    let (state, bob_view) = submit_and_match(state, list(&[C, D]));
    assert_eq!(state.is_matched, 1);
    assert_eq!(bob_view, empty_result());
    assert_eq!(reveal_alice_matches(state), before);
}

#[test]
fn reveal_does_not_trust_a_flag_other_than_one() {
    let (state, _) = submit_contacts_alice(init_session(), list(&[A, B, C]));
    let (mut state, _) = submit_and_match(state, list(&[B, C, D]));
    state.is_matched = 2;
    assert_eq!(reveal_alice_matches(state), empty_result());
}

#[test]
fn the_second_party_cannot_go_first() {
    let start = init_session();
    let (state, bob_view) = submit_and_match(start, list(&[B, C, D]));
    assert_eq!(state, start);
    assert_eq!(bob_view, empty_result());
}

#[test]
fn the_lists_are_matched_only_once() {
    let (state, _) = submit_contacts_alice(init_session(), list(&[A, B, C]));
    let (matched, _) = submit_and_match(state, list(&[B, C, D]));
    let (again, view) = submit_and_match(matched, list(&[A, B, C]));
    assert_eq!(again, matched);
    assert_eq!(view, empty_result());
    let (again, confirmation) = submit_contacts_alice(matched, list(&[D]));
    assert_eq!(again, matched);
    assert_eq!(confirmation.accepted, 0);
}

#[test]
fn padding_never_matches_padding() {
    let (state, _) = submit_contacts_alice(init_session(), list(&[A]));
    let (state, bob_view) = submit_and_match(state, list(&[B]));
    assert_eq!(bob_view, empty_result());
    assert_eq!(state.result_alice, [0; 32]);
    assert_eq!(state.result_bob, [0; 32]);
    assert_eq!(state.result_count, 0);
}

#[test]
fn two_empty_lists_have_nothing_in_common() {
    let (state, confirmation) = submit_contacts_alice(init_session(), list(&[]));
    assert_eq!(confirmation.accepted, 1);
    let (state, bob_view) = submit_and_match(state, list(&[]));
    assert_eq!(bob_view, empty_result());
    assert_eq!(state.is_matched, 1);
    assert_eq!(reveal_alice_matches(state), empty_result());
}

#[test]
fn a_zero_among_the_entries_matches_nothing() {
    let (state, _) = submit_contacts_alice(init_session(), list(&[A, 0, B]));
    let (state, bob_view) = submit_and_match(state, list(&[0, B, 0]));
    assert_eq!(bob_view, MatchResult { matches: padded(&[0, B, 0]), match_count: 1 });
    assert_eq!(
        reveal_alice_matches(state),
        MatchResult { matches: padded(&[0, 0, B]), match_count: 1 }
    );
}

#[test]
fn the_count_counts_pairs_of_equal_entries() {
    let a = [A, B, C, D, 5, 6, 7];
    let b = [7, D, 100, A, 101, 102];
    let (state, _) = submit_contacts_alice(init_session(), list(&a));
    let (state, bob_view) = submit_and_match(state, list(&b));
    assert_eq!(equal_pairs(&a, &b), 3);
    assert_eq!(bob_view.match_count, 3);
    assert_eq!(bob_view.matches, padded(&[7, D, 0, A, 0, 0]));
    assert_eq!(state.result_alice, padded(&[A, 0, 0, D, 0, 0, 7]));
    assert_eq!(reveal_alice_matches(state).match_count, 3);
}

#[test]
fn duplicates_are_counted_with_their_multiplicity() {
    let a = [A, A, B];
    let b = [A, B, B, A, A];
    let (state, _) = submit_contacts_alice(init_session(), list(&a));
    let (state, bob_view) = submit_and_match(state, list(&b));
    assert_eq!(equal_pairs(&a, &b), 8);
    assert_eq!(bob_view.match_count, 8);
    assert_eq!(bob_view.matches, padded(&b));
    assert_eq!(reveal_alice_matches(state).matches, padded(&a));
}

#[test]
fn two_full_lists_are_matched_slot_by_slot() {
    let a: Vec<u128> = (1..=32u128).collect();
    let b: Vec<u128> = (17..=48u128).collect();
    let (state, _) = submit_contacts_alice(init_session(), list(&a));
    let (state, bob_view) = submit_and_match(state, list(&b));
    assert_eq!(bob_view.match_count, 16);
    for i in 0..32 {
        let alice_expected = if i >= 16 { a[i] } else { 0 };
        let bob_expected = if i < 16 { b[i] } else { 0 };
        assert_eq!(state.result_alice[i], alice_expected);
        assert_eq!(bob_view.matches[i], bob_expected);
    }
}

#[test]
fn reordering_a_list_moves_the_matches_and_keeps_the_count() {
    let (state, _) = submit_contacts_alice(init_session(), list(&[A, B, C]));
    let (state, bob_view) = submit_and_match(state, list(&[B, C, D]));

    let (reordered, _) = submit_contacts_alice(init_session(), list(&[C, A, B]));
    let (reordered, bob_view_2) = submit_and_match(reordered, list(&[B, C, D]));
    assert_eq!(bob_view_2, bob_view);
    assert_eq!(reveal_alice_matches(state).matches, padded(&[0, B, C]));
    assert_eq!(reveal_alice_matches(reordered).matches, padded(&[C, 0, B]));
    assert_eq!(reveal_alice_matches(reordered).match_count, 2);

    let (other, _) = submit_contacts_alice(init_session(), list(&[A, B, C]));
    let (other, bob_view_3) = submit_and_match(other, list(&[D, C, B]));
    assert_eq!(bob_view_3, MatchResult { matches: padded(&[0, C, B]), match_count: 2 });
    assert_eq!(reveal_alice_matches(other), reveal_alice_matches(state));
}

#[test]
fn a_record_with_a_flag_other_than_zero_or_one_admits_nobody() {
    let mut state = init_session();
    state.alice_submitted = 2;
    let (after, confirmation) = submit_contacts_alice(state, list(&[A]));
    assert_eq!(after, state);
    assert_eq!(confirmation.accepted, 0);
    let (after, view) = submit_and_match(state, list(&[A]));
    assert_eq!(after, state);
    assert_eq!(view, empty_result());
}

#[test]
fn the_stored_count_is_the_submitted_count() {
    // The record keeps what it is given; it does not recount the slots.
    let odd = ContactList { hashes: padded(&[A, B]), count: 40 };
    let (state, confirmation) = submit_contacts_alice(init_session(), odd);
    assert_eq!(confirmation.accepted, 1);
    assert_eq!(state.alice_count, 40);
    let (state, bob_view) = submit_and_match(state, ContactList { hashes: padded(&[B]), count: 0 });
    assert_eq!(state.bob_count, 0);
    assert_eq!(bob_view, MatchResult { matches: padded(&[B]), match_count: 1 });
}
