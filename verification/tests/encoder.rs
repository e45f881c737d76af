use private_contact_discovery::contacts::{encode_contacts, ContactList, OverflowError, MAX_CONTACTS};

#[test]
fn capacity_is_thirty_two() {
    assert_eq!(MAX_CONTACTS, 32);
}

#[test]
fn encodes_three_contacts_with_zero_padding() {
    let list = encode_contacts(&[11, 22, 33]).unwrap();
    let mut expected = [0u128; 32];
    expected[0] = 11;
    expected[1] = 22;
    expected[2] = 33;
    assert_eq!(list, ContactList { hashes: expected, count: 3 });
}

#[test]
fn encodes_the_empty_list() {
    let list = encode_contacts(&[]).unwrap();
    assert_eq!(list.count, 0);
    assert_eq!(list.hashes, [0u128; 32]);
}

#[test]
fn encodes_a_full_list() {
    let entries: Vec<u128> = (1..=32u128).collect();
    let list = encode_contacts(&entries).unwrap();
    assert_eq!(list.count, 32);
    for i in 0..32 {
        assert_eq!(list.hashes[i], (i as u128) + 1);
    }
}

#[test]
fn keeps_the_order_and_the_full_width_of_the_hashes() {
    let list = encode_contacts(&[u128::MAX, 1, 1u128 << 127]).unwrap();
    assert_eq!(list.hashes[0], u128::MAX);
    assert_eq!(list.hashes[1], 1);
    assert_eq!(list.hashes[2], 1u128 << 127);
    assert_eq!(list.hashes[3], 0);
    assert_eq!(list.count, 3);
}

#[test]
fn refuses_thirty_three_contacts() {
    let entries: Vec<u128> = (1..=33u128).collect();
    assert_eq!(encode_contacts(&entries), Err(OverflowError { supplied: 33 }));
}

#[test]
fn refuses_a_long_list_without_cutting_it() {
    let entries = vec![7u128; 1000];
    assert_eq!(encode_contacts(&entries), Err(OverflowError { supplied: 1000 }));
}

#[test]
fn does_not_inspect_the_hashes() {
    // A zero among the entries is the caller's mistake; the slot is kept.
    let list = encode_contacts(&[5, 0, 6]).unwrap();
    assert_eq!(list.count, 3);
    assert_eq!(&list.hashes[..4], &[5, 0, 6, 0]);
}
