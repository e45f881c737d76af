//! A party's contact list: at most 32 hashed identifiers in a fixed array,
//! padded with the zero sentinel.

use vstd::prelude::*;

verus! {

/// Capacity of a contact list.
pub const MAX_CONTACTS: usize = 32;

/// A contact list as it is submitted: hashed identifiers in the leading
/// slots, zero in the rest.
#[derive(Clone, Copy, Debug, PartialEq, Eq)]
pub struct ContactList {
    /// Hashed contact identifiers, zero-padded.
    pub hashes: [u128; 32],
    /// How many leading slots are in use.
    pub count: u32,
}

/// The mathematical content of a [`ContactList`].
#[verifier::ext_equal]
pub struct ContactListView {
    pub hashes: Seq<u128>,
    pub count: nat,
}

/// More contacts were supplied than a list can hold.
#[derive(Clone, Copy, Debug, PartialEq, Eq)]
pub struct OverflowError {
    /// How many contacts the caller supplied.
    pub supplied: usize,
}

/// A sequence of `len` zero sentinels.
pub open spec fn zeros(len: nat) -> Seq<u128> {
    Seq::new(len, |i: int| 0u128)
}

/// `entries` followed by zero sentinels up to the capacity of a list.
pub open spec fn padded(entries: Seq<u128>) -> Seq<u128> {
    Seq::new(
        MAX_CONTACTS as nat,
        |i: int|
            if i < entries.len() {
                entries[i]
            } else {
                0u128
            },
    )
}

impl ContactListView {
    /// The list without contacts.
    pub open spec fn empty() -> ContactListView {
        ContactListView { hashes: zeros(MAX_CONTACTS as nat), count: 0 }
    }

    /// The count fits the capacity and every slot from `count` on holds the
    /// zero sentinel.
    pub open spec fn wf(self) -> bool {
        &&& self.hashes.len() == MAX_CONTACTS
        &&& self.count <= MAX_CONTACTS
        &&& forall|i: int| self.count <= i < MAX_CONTACTS ==> self.hashes[i] == 0
    }

    /// Well formed, and no slot in use holds the zero sentinel.
    pub open spec fn valid(self) -> bool {
        &&& self.wf()
        &&& forall|i: int| 0 <= i < self.count ==> self.hashes[i] != 0
    }

    /// The slots in use.
    pub open spec fn entries(self) -> Seq<u128> {
        self.hashes.take(self.count as int)
    }
}

impl View for ContactList {
    type V = ContactListView;

    open spec fn view(&self) -> ContactListView {
        ContactListView { hashes: self.hashes@, count: self.count as nat }
    }
}

/// Lays `entries` out as a contact list. More than 32 entries are refused;
/// nothing is ever cut off.
pub fn encode_contacts(entries: &[u128]) -> (r: Result<ContactList, OverflowError>)
    ensures
        r is Ok <==> entries@.len() <= MAX_CONTACTS,
        r matches Ok(list) ==> {
            &&& list@.hashes == padded(entries@)
            &&& list@.count == entries@.len()
            &&& list@.entries() == entries@
            &&& list@.wf()
            &&& list@.valid() <==> !entries@.contains(0u128)
        },
        r matches Err(e) ==> e.supplied == entries@.len(),
{
    let n: usize = entries.len();
    if n > MAX_CONTACTS {
        return Err(OverflowError { supplied: n });
    }
    let mut hashes: [u128; 32] = [0u128; 32];
    let mut i: usize = 0;
    while i < n
        invariant
            n == entries@.len(),
            n <= MAX_CONTACTS,
            i <= n,
            forall|k: int| 0 <= k < i ==> hashes@[k] == entries@[k],
            forall|k: int| i <= k < MAX_CONTACTS ==> hashes@[k] == 0,
        decreases n - i,
    {
        hashes[i] = entries[i];
        i = i + 1;
    }
    let list = ContactList { hashes, count: n as u32 };
    proof {
        assert(list@.hashes =~= padded(entries@));
        assert(list@.entries() =~= entries@);
        if list@.valid() {
            assert forall|k: int| 0 <= k < entries@.len() implies entries@[k] != 0 by {
                assert(list@.hashes[k] == entries@[k]);
            }
        }
        if !entries@.contains(0u128) {
            assert forall|k: int| 0 <= k < list@.count implies list@.hashes[k] != 0 by {
                assert(entries@.contains(entries@[k]));
            }
        }
    }
    Ok(list)
}

} // verus!
