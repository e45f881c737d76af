//! The argument lists that accompany a queued computation, built with
//! `arcium_anchor::ArgBuilder`.

use vstd::prelude::*;
use arcium_anchor::prelude::{ArgBuilder, ArgumentList};

verus! {

/// One argument of a queued computation, with the value it carries.
pub enum Argument {
    /// The x25519 public key that the ciphertexts were made for.
    X25519Pubkey(Seq<u8>),
    /// A 128-bit number in the clear.
    PlaintextU128(u128),
    /// The ciphertext of a `u8`.
    EncryptedU8(Seq<u8>),
    /// The ciphertext of a `u32`.
    EncryptedU32(Seq<u8>),
    /// The ciphertext of a `u128`.
    EncryptedU128(Seq<u8>),
    /// An argument of a kind that this library never builds.
    Other,
}

/// `arcium_anchor::ArgBuilder`, carried through as an opaque value.
#[verifier::external_type_specification]
#[verifier::external_body]
pub struct ExArgBuilder(ArgBuilder);

/// The `ArgumentList` that `ArgBuilder::build` returns, carried through as
/// an opaque value.
#[verifier::external_type_specification]
#[verifier::external_body]
pub struct ExArgumentList(ArgumentList);

/// The arguments that a builder has been given so far, one for each
/// reference it holds and in the same order, each with the value that the
/// reference points to in the builder's tables.
pub uninterp spec fn builder_arguments(builder: ArgBuilder) -> Seq<Argument>;

/// The arguments that a finished list holds, one for each reference and in
/// the same order, each with the value that the reference points to in the
/// list's tables.
pub uninterp spec fn list_arguments(list: ArgumentList) -> Seq<Argument>;

/// `ArgBuilder::new` starts with no arguments.
pub assume_specification[ ArgBuilder::new ]() -> (builder: ArgBuilder)
    ensures
        builder_arguments(builder) == Seq::<Argument>::empty(),
;

/// `ArgBuilder::x25519_pubkey` appends the key as the last argument. The
/// builder stores the value in a table and refers to it by the table's
/// length cut to a `u8`. An argument adds at most two entries to a table,
/// so below 128 arguments no table has reached 256 entries and the
/// reference is exact.
pub assume_specification[ ArgBuilder::x25519_pubkey ](builder: ArgBuilder, value: [u8; 32]) -> (r:
    ArgBuilder)
    requires
        builder_arguments(builder).len() < 128,
    ensures
        builder_arguments(r) == builder_arguments(builder).push(Argument::X25519Pubkey(value@)),
;

/// `ArgBuilder::plaintext_u128` appends the number as the last argument
/// (exact below 128 arguments, as for `x25519_pubkey`).
pub assume_specification[ ArgBuilder::plaintext_u128 ](builder: ArgBuilder, value: u128) -> (r:
    ArgBuilder)
    requires
        builder_arguments(builder).len() < 128,
    ensures
        builder_arguments(r) == builder_arguments(builder).push(Argument::PlaintextU128(value)),
;

/// `ArgBuilder::encrypted_u8` appends the ciphertext as the last argument
/// (exact below 128 arguments, as for `x25519_pubkey`).
pub assume_specification[ ArgBuilder::encrypted_u8 ](builder: ArgBuilder, value: [u8; 32]) -> (r:
    ArgBuilder)
    requires
        builder_arguments(builder).len() < 128,
    ensures
        builder_arguments(r) == builder_arguments(builder).push(Argument::EncryptedU8(value@)),
;

/// `ArgBuilder::encrypted_u32` appends the ciphertext as the last argument
/// (exact below 128 arguments, as for `x25519_pubkey`).
pub assume_specification[ ArgBuilder::encrypted_u32 ](builder: ArgBuilder, value: [u8; 32]) -> (r:
    ArgBuilder)
    requires
        builder_arguments(builder).len() < 128,
    ensures
        builder_arguments(r) == builder_arguments(builder).push(Argument::EncryptedU32(value@)),
;

/// `ArgBuilder::encrypted_u128` appends the ciphertext as the last argument
/// (exact below 128 arguments, as for `x25519_pubkey`).
pub assume_specification[ ArgBuilder::encrypted_u128 ](builder: ArgBuilder, value: [u8; 32]) -> (r:
    ArgBuilder)
    requires
        builder_arguments(builder).len() < 128,
    ensures
        builder_arguments(r) == builder_arguments(builder).push(Argument::EncryptedU128(value@)),
;

/// `ArgBuilder::build` hands out the arguments collected, unchanged.
pub assume_specification[ ArgBuilder::build ](builder: ArgBuilder) -> (list: ArgumentList)
    ensures
        list_arguments(list) == builder_arguments(builder),
;

/// A ciphertext block of zero bytes.
pub open spec fn zero_block() -> Seq<u8> {
    Seq::new(32, |i: int| 0u8)
}

/// The arguments of a computation whose only input is a placeholder: the
/// caller's key, the nonce, and a zero block in place of a ciphertext.
pub open spec fn placeholder_arguments(pubkey: Seq<u8>, nonce: u128) -> Seq<Argument> {
    seq![
        Argument::X25519Pubkey(pubkey),
        Argument::PlaintextU128(nonce),
        Argument::EncryptedU8(zero_block()),
    ]
}

/// The arguments of a computation that takes an encrypted contact list:
/// the caller's key, the nonce, the ciphertext of each of the 32 slots in
/// order, and the ciphertext of the count.
pub open spec fn contact_list_arguments(
    pubkey: Seq<u8>,
    nonce: u128,
    encrypted_hashes: Seq<[u8; 32]>,
    encrypted_count: Seq<u8>,
) -> Seq<Argument> {
    seq![Argument::X25519Pubkey(pubkey), Argument::PlaintextU128(nonce)] + Seq::new(
        32,
        |i: int| Argument::EncryptedU128(encrypted_hashes[i]@),
    ) + seq![Argument::EncryptedU32(encrypted_count)]
}

/// Builds the arguments of a computation whose only input is a placeholder.
pub fn placeholder_args(pubkey: [u8; 32], nonce: u128) -> (list: ArgumentList)
    ensures
        list_arguments(list) == placeholder_arguments(pubkey@, nonce),
{
    let zero: [u8; 32] = [0u8; 32];
    let builder = ArgBuilder::new().x25519_pubkey(pubkey).plaintext_u128(nonce).encrypted_u8(zero);
    let list = builder.build();
    proof {
        assert(zero@ =~= zero_block());
        assert(list_arguments(list) =~= placeholder_arguments(pubkey@, nonce));
    }
    list
}

/// Builds the arguments of a computation that takes an encrypted contact
/// list.
pub fn contact_list_args(
    pubkey: [u8; 32],
    nonce: u128,
    encrypted_hashes: &[[u8; 32]; 32],
    encrypted_count: [u8; 32],
) -> (list: ArgumentList)
    ensures
        list_arguments(list) == contact_list_arguments(
            pubkey@,
            nonce,
            encrypted_hashes@,
            encrypted_count@,
        ),
{
    let mut builder = ArgBuilder::new().x25519_pubkey(pubkey).plaintext_u128(nonce);
    let ghost head = seq![Argument::X25519Pubkey(pubkey@), Argument::PlaintextU128(nonce)];
    proof {
        assert(builder_arguments(builder) =~= head + Seq::new(
            0,
            |k: int| Argument::EncryptedU128(encrypted_hashes@[k]@),
        ));
    }

    // Each slot is the ciphertext of one 128-bit hash.
    let mut i: usize = 0;
    while i < 32
        invariant
            i <= 32,
            head == seq![Argument::X25519Pubkey(pubkey@), Argument::PlaintextU128(nonce)],
            builder_arguments(builder) == head + Seq::new(
                i as nat,
                |k: int| Argument::EncryptedU128(encrypted_hashes@[k]@),
            ),
        decreases 32 - i,
    {
        builder = builder.encrypted_u128(encrypted_hashes[i]);
        proof {
            assert(builder_arguments(builder) =~= head + Seq::new(
                (i + 1) as nat,
                |k: int| Argument::EncryptedU128(encrypted_hashes@[k]@),
            ));
        }
        i = i + 1;
    }
    builder = builder.encrypted_u32(encrypted_count);

    let list = builder.build();
    proof {
        assert(list_arguments(list) =~= contact_list_arguments(
            pubkey@,
            nonce,
            encrypted_hashes@,
            encrypted_count@,
        ));
    }
    list
}

} // verus!
