//! The durable nonce account of a payer: where it lives and how it comes to
//! exist.

use crate::address::Address;
use solana_program::pubkey::PubkeyError;
use vstd::prelude::*;
use vstd::string::*;

verus! {

/// Why `Pubkey::create_with_seed` turned its arguments down.
#[verifier::external_type_specification]
#[verifier::external_body]
pub struct ExPubkeyError(PubkeyError);

/// Longest seed, in bytes, that an address may be derived with.
pub const MAX_SEED_LEN: usize = 32;

/// Bytes in the data of a nonce account.
pub const NONCE_ACCOUNT_SPACE: usize = 80;

/// The trailing bytes that mark an owner whose addresses are derived in
/// another way: the ASCII text `ProgramDerivedAddress`.
pub open spec fn derived_owner_marker() -> Seq<u8> {
    seq![
        80u8, 114, 111, 103, 114, 97, 109, 68, 101, 114, 105, 118, 101, 100, 65, 100, 100, 114,
        101, 115, 115,
    ]
}

/// Whether an address can be derived with `seed` under `owner`.
pub open spec fn seed_derivation_allowed(seed: &str, owner: Seq<u8>) -> bool {
    seed.spec_bytes().len() <= MAX_SEED_LEN && owner.subrange(11, 32) != derived_owner_marker()
}

/// The address derived from a base address, a seed and an owner.
pub uninterp spec fn seeded_address(base: Seq<u8>, seed: Seq<char>, owner: Seq<u8>) -> Seq<u8>;

/// Calls `solana_program::pubkey::Pubkey::create_with_seed`.
///
/// Trusted: the call fails exactly when the seed is longer than
/// `MAX_SEED_LEN` bytes or the owner's last 21 bytes are the marker; where it
/// succeeds, the address is a function of the three arguments alone, named
/// `seeded_address`.
#[verifier::external_body]
fn create_with_seed(base: &Address, seed: &str, owner: &Address) -> (derived: Result<
    Address,
    PubkeyError,
>)
    ensures
        derived is Ok <==> seed_derivation_allowed(seed, owner@),
        derived matches Ok(a) ==> a@ == seeded_address(base@, seed@, owner@),
{
    match solana_program::pubkey::Pubkey::create_with_seed(
        &solana_program::pubkey::Pubkey::new_from_array(base.bytes),
        seed,
        &solana_program::pubkey::Pubkey::new_from_array(owner.bytes),
    ) {
        Ok(key) => Ok(Address { bytes: key.to_bytes() }),
        Err(e) => Err(e),
    }
}

/// The seed that nonce accounts are derived with.
pub open spec fn nonce_seed() -> Seq<char> {
    "nonce"@
}

/// The address of the system program, which owns nonce accounts: 32 zero
/// bytes.
pub open spec fn system_program() -> Seq<u8> {
    Seq::new(32, |i: int| 0u8)
}

/// The address of the nonce account of `payer`.
pub open spec fn nonce_address_of(payer: Seq<u8>) -> Seq<u8> {
    seeded_address(payer, nonce_seed(), system_program())
}

/// Derives the address of the nonce account of `payer`. It depends on the
/// payer alone.
pub fn nonce_address(payer: &Address) -> (address: Address)
    ensures
        address@ == nonce_address_of(payer@),
{
    let owner = Address { bytes: [0u8; 32] };
    let seed = "nonce";
    proof {
        reveal_strlit("nonce");
        is_ascii_spec_bytes(seed);
        assert(owner@ =~= system_program());
        assert(owner@.subrange(11, 32)[0] == 0u8);
        assert(derived_owner_marker()[0] == 80u8);
    }
    match create_with_seed(payer, seed, &owner) {
        Ok(address) => address,
        Err(_) => unreached(),
    }
}

} // verus!
