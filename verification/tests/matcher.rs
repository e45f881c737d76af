use private_contact_discovery::matcher::{intersect, Intersection, COMPARISONS};
use private_contact_discovery::select::{
    both, mask_u128, mask_u32, mask_u8, select_bytes, select_hashes, select_u128, select_u32,
    select_u8,
};

fn padded(entries: &[u128]) -> [u128; 32] {
    let mut hashes = [0u128; 32];
    hashes[..entries.len()].copy_from_slice(entries);
    hashes
}

#[test]
fn masks_are_all_ones_or_zero() {
    assert_eq!(mask_u128(true), u128::MAX);
    assert_eq!(mask_u128(false), 0);
    assert_eq!(mask_u32(true), u32::MAX);
    assert_eq!(mask_u32(false), 0);
    assert_eq!(mask_u8(true), u8::MAX);
    assert_eq!(mask_u8(false), 0);
}

#[test]
fn select_picks_by_condition() {
    assert_eq!(select_u128(true, 3, 9), 3);
    assert_eq!(select_u128(false, 3, 9), 9);
    assert_eq!(select_u128(true, u128::MAX, 0), u128::MAX);
    assert_eq!(select_u128(false, u128::MAX, 0x1234), 0x1234);
    assert_eq!(select_u32(true, 7, 8), 7);
    assert_eq!(select_u32(false, 7, 8), 8);
    assert_eq!(select_u8(true, 1, 0), 1);
    assert_eq!(select_u8(false, 1, 0), 0);
}

#[test]
fn select_hashes_picks_a_whole_array() {
    let a = padded(&[1, 2, 3]);
    let b = padded(&[9, 8]);
    assert_eq!(select_hashes(true, &a, &b), a);
    assert_eq!(select_hashes(false, &a, &b), b);
}

#[test]
fn select_bytes_picks_a_whole_key() {
    let a: [u8; 32] = core::array::from_fn(|i| i as u8);
    let b = [255u8; 32];
    assert_eq!(select_bytes(true, &a, &b), a);
    assert_eq!(select_bytes(false, &a, &b), b);
}

#[test]
fn both_is_conjunction() {
    assert!(both(true, true));
    assert!(!both(true, false));
    assert!(!both(false, true));
    assert!(!both(false, false));
}

#[test]
fn intersect_marks_each_side_at_its_own_positions() {
    let alice = padded(&[10, 20, 30]);
    let bob = padded(&[20, 30, 40]);
    let found = intersect(&alice, &bob, true);
    assert_eq!(found.alice_matches, padded(&[0, 20, 30]));
    assert_eq!(found.bob_matches, padded(&[20, 30, 0]));
    assert_eq!(found.match_count, 2);
}

#[test]
fn intersect_always_makes_1024_comparisons() {
    assert_eq!(COMPARISONS, 1024);
    let empty = [0u128; 32];
    let one = padded(&[5]);
    let full: [u128; 32] = core::array::from_fn(|i| (i as u128) + 1);
    let same = [77u128; 32];
    for a in [empty, one, full, same] {
        for b in [empty, one, full, same] {
            assert_eq!(intersect(&a, &b, true).comparisons, 1024);
            assert_eq!(intersect(&a, &b, false).comparisons, 1024);
        }
    }
}

#[test]
fn intersect_records_nothing_when_it_may_not_proceed() {
    let alice = padded(&[10, 20, 30]);
    let bob = padded(&[20, 30, 40]);
    let found = intersect(&alice, &bob, false);
    assert_eq!(
        found,
        Intersection {
            alice_matches: [0; 32],
            bob_matches: [0; 32],
            match_count: 0,
            comparisons: 1024,
        }
    );
}

#[test]
fn intersect_counts_every_pair_of_duplicates() {
    let alice = padded(&[7, 7]);
    let bob = padded(&[7, 7, 7]);
    let found = intersect(&alice, &bob, true);
    assert_eq!(found.match_count, 6);
    assert_eq!(found.alice_matches, padded(&[7, 7]));
    assert_eq!(found.bob_matches, padded(&[7, 7, 7]));
}

#[test]
fn intersect_of_two_full_equal_lists_counts_1024() {
    let same = [1u128; 32];
    let found = intersect(&same, &same, true);
    assert_eq!(found.match_count, 1024);
    assert_eq!(found.alice_matches, same);
    assert_eq!(found.bob_matches, same);
}

#[test]
fn intersect_never_matches_zero_with_zero() {
    let empty = [0u128; 32];
    let found = intersect(&empty, &empty, true);
    assert_eq!(found.match_count, 0);
    assert_eq!(found.alice_matches, empty);
    assert_eq!(found.bob_matches, empty);
}

#[test]
fn intersect_of_disjoint_lists_is_empty() {
    let alice = padded(&[1, 2, 3, 4]);
    let bob = padded(&[5, 6, 7]);
    let found = intersect(&alice, &bob, true);
    assert_eq!(found.match_count, 0);
    assert_eq!(found.alice_matches, [0; 32]);
    assert_eq!(found.bob_matches, [0; 32]);
}

#[test]
fn intersect_finds_a_match_in_the_last_slots() {
    let mut alice = [0u128; 32];
    let mut bob = [0u128; 32];
    alice[31] = 99;
    bob[0] = 99;
    bob[31] = 99;
    let found = intersect(&alice, &bob, true);
    assert_eq!(found.match_count, 2);
    assert_eq!(found.alice_matches, alice);
    assert_eq!(found.bob_matches, bob);
}

#[test]
fn intersect_counts_the_same_from_either_side() {
    let alice = padded(&[7, 7, 8, 9, 9, 9]);
    let bob = padded(&[9, 7, 7, 7, 10]);
    let forth = intersect(&alice, &bob, true);
    let back = intersect(&bob, &alice, true);
    assert_eq!(forth.match_count, 9);
    assert_eq!(back.match_count, 9);
    assert_eq!(forth.alice_matches, back.bob_matches);
    assert_eq!(forth.bob_matches, back.alice_matches);
}

#[test]
fn intersect_does_not_depend_on_the_order_of_a_list() {
    let alice = padded(&[1, 2, 3, 4, 5]);
    let shuffled = padded(&[4, 1, 5, 3, 2]);
    let bob = padded(&[5, 9, 1]);
    let plain = intersect(&alice, &bob, true);
    let moved = intersect(&shuffled, &bob, true);
    assert_eq!(plain.match_count, 2);
    assert_eq!(moved.match_count, 2);
    assert_eq!(plain.bob_matches, moved.bob_matches);
    assert_eq!(plain.alice_matches, padded(&[1, 0, 0, 0, 5]));
    assert_eq!(moved.alice_matches, padded(&[0, 1, 5, 0, 0]));
}
