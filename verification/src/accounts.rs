//! The addresses that the program and its accounts live at.

use crate::address::Address;
use vstd::prelude::*;

verus! {

/// The mining program.
pub const ORE_PROGRAM_ID: [u8; 32] = [
    11, 116, 205, 230, 58, 32, 135, 174, 169, 27, 23, 84, 62, 171, 97, 192,
    161, 195, 87, 42, 157, 255, 218, 160, 175, 202, 144, 146, 164, 131, 106, 247,
];

/// The mint of the reward token.
pub const MINT_ADDRESS: [u8; 32] = [
    12, 0, 219, 204, 114, 75, 91, 157, 188, 9, 45, 32, 8, 66, 89, 60,
    105, 155, 90, 32, 139, 247, 130, 211, 129, 8, 16, 149, 217, 149, 244, 219,
];

/// The treasury account.
pub const TREASURY_ADDRESS: [u8; 32] = [
    214, 210, 243, 77, 74, 149, 83, 8, 233, 139, 135, 41, 154, 190, 17, 242,
    38, 66, 122, 128, 135, 117, 201, 135, 132, 186, 93, 70, 161, 86, 41, 133,
];

/// The token program.
pub const TOKEN_PROGRAM_ID: [u8; 32] = [
    6, 221, 246, 225, 215, 101, 161, 147, 217, 203, 225, 70, 206, 235, 121, 172,
    28, 180, 133, 237, 95, 91, 55, 145, 58, 140, 245, 133, 126, 255, 0, 169,
];

/// The associated token account program.
pub const ASSOCIATED_TOKEN_PROGRAM_ID: [u8; 32] = [
    140, 151, 37, 143, 78, 36, 137, 241, 187, 61, 16, 41, 20, 142, 13, 131,
    11, 90, 19, 153, 218, 255, 16, 132, 4, 142, 123, 216, 219, 233, 248, 89,
];

/// The seed of proof accounts: the ASCII text `proof`.
pub const PROOF_SEED: [u8; 5] = [112, 114, 111, 111, 102];

/// The program address found for the seeds under a program, with its bump
/// seed, if there is one.
pub uninterp spec fn program_address(seeds: Seq<Seq<u8>>, program: Seq<u8>) -> Option<
    (Seq<u8>, u8),
>;

/// The seeds as sequences of bytes.
pub open spec fn seeds_of(seeds: Seq<Vec<u8>>) -> Seq<Seq<u8>> {
    Seq::new(seeds.len(), |i: int| seeds[i]@)
}

/// Calls `solana_program::pubkey::Pubkey::try_find_program_address`.
///
/// Trusted: what is found, or that nothing is, is a function of the seeds and
/// the program alone, named `program_address`.
#[verifier::external_body]
fn try_find_program_address(seeds: &Vec<Vec<u8>>, program: &Address) -> (found: Option<
    (Address, u8),
>)
    ensures
        match found {
            Some((address, bump)) => program_address(seeds_of(seeds@), program@) == Some(
                (address@, bump),
            ),
            None => program_address(seeds_of(seeds@), program@) is None,
        },
{
    let parts: Vec<&[u8]> = seeds.iter().map(|s| s.as_slice()).collect();
    let program = solana_program::pubkey::Pubkey::new_from_array(program.bytes);
    match solana_program::pubkey::Pubkey::try_find_program_address(&parts, &program) {
        Some((key, bump)) => Some((Address { bytes: key.to_bytes() }, bump)),
        None => None,
    }
}

/// The bytes of `source` as a vector.
pub fn bytes_to_vec(source: &[u8]) -> (copy: Vec<u8>)
    ensures
        copy@ == source@,
{
    let mut copy: Vec<u8> = Vec::new();
    let mut i: usize = 0;
    while i < source.len()
        invariant
            i <= source@.len(),
            copy@ == source@.subrange(0, i as int),
        decreases source@.len() - i,
    {
        copy.push(source[i]);
        i = i + 1;
        assert(copy@ =~= source@.subrange(0, i as int));
    }
    assert(source@.subrange(0, i as int) =~= source@);
    copy
}

/// The seeds of the proof account of `identity`.
pub open spec fn proof_seeds(identity: Seq<u8>) -> Seq<Seq<u8>> {
    seq![PROOF_SEED@, identity]
}

/// The seeds of the token account of `owner` for the reward token.
pub open spec fn token_account_seeds(owner: Seq<u8>) -> Seq<Seq<u8>> {
    seq![owner, TOKEN_PROGRAM_ID@, MINT_ADDRESS@]
}

/// The address of the proof account of `identity`, if one can be derived.
pub open spec fn proof_address_of(identity: Seq<u8>) -> Option<Seq<u8>> {
    match program_address(proof_seeds(identity), ORE_PROGRAM_ID@) {
        Some((address, _)) => Some(address),
        None => None,
    }
}

/// The address of the token account of `owner` for the reward token, if one
/// can be derived.
pub open spec fn token_account_of(owner: Seq<u8>) -> Option<Seq<u8>> {
    match program_address(token_account_seeds(owner), ASSOCIATED_TOKEN_PROGRAM_ID@) {
        Some((address, _)) => Some(address),
        None => None,
    }
}

/// Derives the address of the proof account of `identity`.
pub fn proof_address(identity: &Address) -> (address: Option<Address>)
    ensures
        match address {
            Some(a) => proof_address_of(identity@) == Some(a@),
            None => proof_address_of(identity@) is None,
        },
{
    let mut seeds: Vec<Vec<u8>> = Vec::new();
    seeds.push(bytes_to_vec(PROOF_SEED.as_slice()));
    seeds.push(bytes_to_vec(identity.bytes.as_slice()));
    assert(seeds_of(seeds@) =~= proof_seeds(identity@));
    match try_find_program_address(&seeds, &Address { bytes: ORE_PROGRAM_ID }) {
        Some((address, _)) => Some(address),
        None => None,
    }
}

/// Derives the address of the token account of `owner` for the reward token.
pub fn token_account_address(owner: &Address) -> (address: Option<Address>)
    ensures
        match address {
            Some(a) => token_account_of(owner@) == Some(a@),
            None => token_account_of(owner@) is None,
        },
{
    let mut seeds: Vec<Vec<u8>> = Vec::new();
    seeds.push(bytes_to_vec(owner.bytes.as_slice()));
    seeds.push(bytes_to_vec(TOKEN_PROGRAM_ID.as_slice()));
    seeds.push(bytes_to_vec(MINT_ADDRESS.as_slice()));
    assert(seeds_of(seeds@) =~= token_account_seeds(owner@));
    match try_find_program_address(&seeds, &Address { bytes: ASSOCIATED_TOKEN_PROGRAM_ID }) {
        Some((address, _)) => Some(address),
        None => None,
    }
}

} // verus!
