//! The wire form of instructions: the program to run, the accounts it
//! touches and its payload.
//!
//! The payloads are those that the programs' own builders make. The client
//! puts them in order and never looks inside.

use crate::accounts::{
    program_address, proof_address, proof_seeds, token_account_address, token_account_seeds,
    ASSOCIATED_TOKEN_PROGRAM_ID, MINT_ADDRESS, ORE_PROGRAM_ID, TOKEN_PROGRAM_ID, TREASURY_ADDRESS,
};
use crate::address::Address;
use crate::instruction::Instruction;
use crate::nonce::nonce_seed;
use crate::records::{valid_bus_id, BUS_COUNT};
use solana_program::pubkey::Pubkey;
use vstd::prelude::*;

verus! {

/// An account that an instruction touches.
#[derive(Clone, Copy, Debug, PartialEq, Eq)]
pub struct AccountMeta {
    pub address: Address,
    pub is_signer: bool,
    pub is_writable: bool,
}

/// An account that an instruction touches, from its parts.
pub fn meta(address: [u8; 32], is_signer: bool, is_writable: bool) -> (account: AccountMeta)
    ensures
        account == (AccountMeta { address: Address { bytes: address }, is_signer, is_writable }),
{
    AccountMeta { address: Address { bytes: address }, is_signer, is_writable }
}

/// An instruction in wire form.
#[derive(Clone, Debug, PartialEq, Eq)]
pub struct EncodedInstruction {
    pub program_id: Address,
    pub accounts: Vec<AccountMeta>,
    pub data: Vec<u8>,
}

/// An instruction in wire form, from its parts.
pub fn wire(program_id: [u8; 32], accounts: Vec<AccountMeta>, data: Vec<u8>) -> (encoded:
    EncodedInstruction)
    ensures
        encoded == (EncodedInstruction {
            program_id: Address { bytes: program_id },
            accounts,
            data,
        }),
{
    EncodedInstruction { program_id: Address { bytes: program_id }, accounts, data }
}

/// What an instruction in wire form holds.
pub struct Encoding {
    pub program_id: Seq<u8>,
    pub accounts: Seq<AccountMeta>,
    pub data: Seq<u8>,
}

impl View for EncodedInstruction {
    type V = Encoding;

    open spec fn view(&self) -> Encoding {
        Encoding { program_id: self.program_id@, accounts: self.accounts@, data: self.data@ }
    }
}

/// What each of the instructions holds.
pub open spec fn encodings(encoded: Seq<EncodedInstruction>) -> Seq<Encoding> {
    Seq::new(encoded.len(), |i: int| encoded[i]@)
}

/// The wire form of a nonce advance.
pub uninterp spec fn advance_nonce_encoding(nonce_account: Seq<u8>, authority: Seq<u8>) -> Encoding;

/// The wire form of a compute unit limit.
pub uninterp spec fn unit_limit_encoding(units: u32) -> Encoding;

/// The wire form of a compute unit price.
pub uninterp spec fn unit_price_encoding(micro_lamports: u64) -> Encoding;

/// The wire form of a registration.
pub uninterp spec fn register_encoding(identity: Seq<u8>) -> Encoding;

/// The wire form of a submitted digest.
pub uninterp spec fn mine_encoding(
    identity: Seq<u8>,
    bus: u64,
    hash: Seq<u8>,
    nonce: u64,
) -> Encoding;

/// The wire form of a claim.
pub uninterp spec fn claim_encoding(
    identity: Seq<u8>,
    beneficiary: Seq<u8>,
    amount: u64,
) -> Encoding;

/// The wire form of a transfer of lamports.
pub uninterp spec fn transfer_encoding(from: Seq<u8>, to: Seq<u8>, lamports: u64) -> Encoding;

/// The wire form of the instructions that create a nonce account at an
/// address derived with a seed.
pub uninterp spec fn create_nonce_account_encoding(
    from: Seq<u8>,
    nonce_account: Seq<u8>,
    base: Seq<u8>,
    seed: Seq<char>,
    authority: Seq<u8>,
    lamports: u64,
) -> Seq<Encoding>;

/// The wire form of the creation of an associated token account.
pub uninterp spec fn create_token_account_encoding(
    funder: Seq<u8>,
    owner: Seq<u8>,
    mint: Seq<u8>,
    token_program: Seq<u8>,
) -> Encoding;

/// Calls `solana_program::system_instruction::advance_nonce_account`.
///
/// Trusted: the instruction is a function of the two addresses alone, named
/// `advance_nonce_encoding`.
#[verifier::external_body]
fn encode_advance_nonce(nonce_account: &Address, authority: &Address) -> (encoded:
    EncodedInstruction)
    ensures
        encoded@ == advance_nonce_encoding(nonce_account@, authority@),
{
    let ix = solana_program::system_instruction::advance_nonce_account(
        &Pubkey::new_from_array(nonce_account.bytes),
        &Pubkey::new_from_array(authority.bytes),
    );
    let metas =
        ix.accounts.iter().map(|a| meta(a.pubkey.to_bytes(), a.is_signer, a.is_writable));
    wire(ix.program_id.to_bytes(), metas.collect(), ix.data)
}

/// Calls `solana_sdk::compute_budget::ComputeBudgetInstruction::set_compute_unit_limit`.
///
/// Trusted: the instruction is a function of the limit alone, named
/// `unit_limit_encoding`.
#[verifier::external_body]
fn encode_unit_limit(units: u32) -> (encoded: EncodedInstruction)
    ensures
        encoded@ == unit_limit_encoding(units),
{
    let ix =
        solana_sdk::compute_budget::ComputeBudgetInstruction::set_compute_unit_limit(units);
    let metas =
        ix.accounts.iter().map(|a| meta(a.pubkey.to_bytes(), a.is_signer, a.is_writable));
    wire(ix.program_id.to_bytes(), metas.collect(), ix.data)
}

/// Calls `solana_sdk::compute_budget::ComputeBudgetInstruction::set_compute_unit_price`.
///
/// Trusted: the instruction is a function of the price alone, named
/// `unit_price_encoding`.
#[verifier::external_body]
fn encode_unit_price(micro_lamports: u64) -> (encoded: EncodedInstruction)
    ensures
        encoded@ == unit_price_encoding(micro_lamports),
{
    let ix = solana_sdk::compute_budget::ComputeBudgetInstruction::set_compute_unit_price(
        micro_lamports,
    );
    let metas =
        ix.accounts.iter().map(|a| meta(a.pubkey.to_bytes(), a.is_signer, a.is_writable));
    wire(ix.program_id.to_bytes(), metas.collect(), ix.data)
}

/// Calls `ore::instruction::register`.
///
/// Trusted: the instruction is a function of the identity alone, named
/// `register_encoding`. The builder derives the identity's proof address and
/// panics where there is none, which `requires` leaves out.
#[verifier::external_body]
fn encode_register(identity: &Address) -> (encoded: EncodedInstruction)
    requires
        program_address(proof_seeds(identity@), ORE_PROGRAM_ID@) is Some,
    ensures
        encoded@ == register_encoding(identity@),
{
    let ix = ore::instruction::register(
        Pubkey::new_from_array(identity.bytes),
    );
    let metas =
        ix.accounts.iter().map(|a| meta(a.pubkey.to_bytes(), a.is_signer, a.is_writable));
    wire(ix.program_id.to_bytes(), metas.collect(), ix.data)
}

/// Calls `ore::instruction::mine`, with the address that `ore::BUS_ADDRESSES`
/// holds for the shard.
///
/// Trusted: the instruction is a function of the four arguments alone, named
/// `mine_encoding`. The builder derives the identity's proof address and
/// panics where there is none; the table has `BUS_COUNT` entries. `requires`
/// leaves both out.
#[verifier::external_body]
fn encode_mine(identity: &Address, bus: u64, hash: &[u8; 32], nonce: u64) -> (encoded:
    EncodedInstruction)
    requires
        valid_bus_id(bus),
        program_address(proof_seeds(identity@), ORE_PROGRAM_ID@) is Some,
    ensures
        encoded@ == mine_encoding(identity@, bus, hash@, nonce),
{
    let ix = ore::instruction::mine(
        Pubkey::new_from_array(identity.bytes),
        ore::BUS_ADDRESSES[bus as usize],
        ore::state::Hash(*hash),
        nonce,
    );
    let metas =
        ix.accounts.iter().map(|a| meta(a.pubkey.to_bytes(), a.is_signer, a.is_writable));
    wire(ix.program_id.to_bytes(), metas.collect(), ix.data)
}

/// Calls `ore::instruction::claim`.
///
/// Trusted: the instruction is a function of the three arguments alone, named
/// `claim_encoding`. The builder derives the identity's proof address and
/// the treasury's token account and panics where there is none, which
/// `requires` leaves out.
#[verifier::external_body]
fn encode_claim(identity: &Address, beneficiary: &Address, amount: u64) -> (encoded:
    EncodedInstruction)
    requires
        program_address(proof_seeds(identity@), ORE_PROGRAM_ID@) is Some,
        program_address(token_account_seeds(TREASURY_ADDRESS@), ASSOCIATED_TOKEN_PROGRAM_ID@)
            is Some,
    ensures
        encoded@ == claim_encoding(identity@, beneficiary@, amount),
{
    let ix = ore::instruction::claim(
        Pubkey::new_from_array(identity.bytes),
        Pubkey::new_from_array(beneficiary.bytes),
        amount,
    );
    let metas =
        ix.accounts.iter().map(|a| meta(a.pubkey.to_bytes(), a.is_signer, a.is_writable));
    wire(ix.program_id.to_bytes(), metas.collect(), ix.data)
}

/// Calls `solana_program::system_instruction::transfer`.
///
/// Trusted: the instruction is a function of the three arguments alone, named
/// `transfer_encoding`.
#[verifier::external_body]
fn encode_transfer(from: &Address, to: &Address, lamports: u64) -> (encoded: EncodedInstruction)
    ensures
        encoded@ == transfer_encoding(from@, to@, lamports),
{
    let ix = solana_program::system_instruction::transfer(
        &Pubkey::new_from_array(from.bytes),
        &Pubkey::new_from_array(to.bytes),
        lamports,
    );
    let metas =
        ix.accounts.iter().map(|a| meta(a.pubkey.to_bytes(), a.is_signer, a.is_writable));
    wire(ix.program_id.to_bytes(), metas.collect(), ix.data)
}

/// Calls `solana_program::system_instruction::create_nonce_account_with_seed`.
///
/// Trusted: the instructions are a function of the six arguments alone,
/// named `create_nonce_account_encoding`.
#[verifier::external_body]
fn encode_create_nonce_account(
    from: &Address,
    nonce_account: &Address,
    base: &Address,
    seed: &str,
    authority: &Address,
    lamports: u64,
) -> (encoded: Vec<EncodedInstruction>)
    ensures
        encodings(encoded@) == create_nonce_account_encoding(
            from@,
            nonce_account@,
            base@,
            seed@,
            authority@,
            lamports,
        ),
{
    solana_program::system_instruction::create_nonce_account_with_seed(
        &Pubkey::new_from_array(from.bytes),
        &Pubkey::new_from_array(nonce_account.bytes),
        &Pubkey::new_from_array(base.bytes),
        seed,
        &Pubkey::new_from_array(authority.bytes),
        lamports,
    ).into_iter().map(|ix| {
        let metas =
            ix.accounts.iter().map(|a| meta(a.pubkey.to_bytes(), a.is_signer, a.is_writable));
        wire(ix.program_id.to_bytes(), metas.collect(), ix.data)
    }).collect()
}

/// Calls `spl_associated_token_account::instruction::create_associated_token_account`.
///
/// Trusted: the instruction is a function of the four addresses alone, named
/// `create_token_account_encoding`. The builder derives the owner's token
/// account and panics where there is none, which `requires` leaves out.
#[verifier::external_body]
fn encode_create_token_account(
    funder: &Address,
    owner: &Address,
    mint: &Address,
    token_program: &Address,
) -> (encoded: EncodedInstruction)
    requires
        program_address(seq![owner@, token_program@, mint@], ASSOCIATED_TOKEN_PROGRAM_ID@)
            is Some,
    ensures
        encoded@ == create_token_account_encoding(funder@, owner@, mint@, token_program@),
{
    let ix = spl_associated_token_account::instruction::create_associated_token_account(
        &Pubkey::new_from_array(funder.bytes),
        &Pubkey::new_from_array(owner.bytes),
        &Pubkey::new_from_array(mint.bytes),
        &Pubkey::new_from_array(token_program.bytes),
    );
    let metas =
        ix.accounts.iter().map(|a| meta(a.pubkey.to_bytes(), a.is_signer, a.is_writable));
    wire(ix.program_id.to_bytes(), metas.collect(), ix.data)
}

/// Whether the proof account of `identity` has an address.
pub open spec fn has_proof_address(identity: Seq<u8>) -> bool {
    program_address(proof_seeds(identity), ORE_PROGRAM_ID@) is Some
}

/// Whether `owner` has a token account for the reward token.
pub open spec fn has_token_account(owner: Seq<u8>) -> bool {
    program_address(token_account_seeds(owner), ASSOCIATED_TOKEN_PROGRAM_ID@) is Some
}

/// The wire form of an instruction: for each kind what its builder makes of
/// the instruction's fields. There is none for a shard outside the pool, nor
/// where an account that the builder derives has no address.
pub open spec fn encoding_of(ix: Instruction) -> Option<Seq<Encoding>> {
    match ix {
        Instruction::AdvanceNonce { nonce_account, authority } => Some(
            seq![advance_nonce_encoding(nonce_account@, authority@)],
        ),
        Instruction::SetComputeUnitLimit { units } => Some(seq![unit_limit_encoding(units)]),
        Instruction::SetComputeUnitPrice { micro_lamports } => Some(
            seq![unit_price_encoding(micro_lamports)],
        ),
        Instruction::Register { identity } => if has_proof_address(identity@) {
            Some(seq![register_encoding(identity@)])
        } else {
            None
        },
        Instruction::Mine { identity, bus, hash, nonce } => if valid_bus_id(bus)
            && has_proof_address(identity@) {
            Some(seq![mine_encoding(identity@, bus, hash@, nonce)])
        } else {
            None
        },
        Instruction::Claim { identity, beneficiary, amount } => if has_proof_address(identity@)
            && has_token_account(TREASURY_ADDRESS@) {
            Some(seq![claim_encoding(identity@, beneficiary@, amount)])
        } else {
            None
        },
        Instruction::Tip { payer, recipient, lamports } => Some(
            seq![transfer_encoding(payer@, recipient@, lamports)],
        ),
        Instruction::CreateNonceAccount { payer, nonce_account, lamports } => Some(
            create_nonce_account_encoding(
                payer@,
                nonce_account@,
                payer@,
                nonce_seed(),
                payer@,
                lamports,
            ),
        ),
        Instruction::CreateTokenAccount { payer, owner } => if has_token_account(owner@) {
            Some(
                seq![
                    create_token_account_encoding(
                        payer@,
                        owner@,
                        MINT_ADDRESS@,
                        TOKEN_PROGRAM_ID@,
                    ),
                ],
            )
        } else {
            None
        },
    }
}

/// The wire form of a list of instructions, in order; none where one of
/// them has none.
pub open spec fn encoding_of_all(ixs: Seq<Instruction>) -> Option<Seq<Encoding>>
    decreases ixs.len(),
{
    if ixs.len() == 0 {
        Some(seq![])
    } else {
        match (encoding_of_all(ixs.drop_last()), encoding_of(ixs.last())) {
            (Some(earlier), Some(last)) => Some(earlier + last),
            _ => None,
        }
    }
}

/// A list of the one instruction.
fn single(encoded: EncodedInstruction) -> (list: Vec<EncodedInstruction>)
    ensures
        encodings(list@) == seq![encoded@],
{
    let mut list: Vec<EncodedInstruction> = Vec::new();
    list.push(encoded);
    assert(encodings(list@) =~= seq![encoded@]);
    list
}

/// Puts an instruction into wire form.
pub fn encode(ix: &Instruction) -> (encoded: Option<Vec<EncodedInstruction>>)
    ensures
        match encoded {
            Some(list) => encoding_of(*ix) == Some(encodings(list@)),
            None => encoding_of(*ix) is None,
        },
{
    match ix {
        Instruction::AdvanceNonce { nonce_account, authority } => Some(
            single(encode_advance_nonce(nonce_account, authority)),
        ),
        Instruction::SetComputeUnitLimit { units } => Some(single(encode_unit_limit(*units))),
        Instruction::SetComputeUnitPrice { micro_lamports } => Some(
            single(encode_unit_price(*micro_lamports)),
        ),
        Instruction::Register { identity } => {
            if proof_address(identity).is_none() {
                return None;
            }
            Some(single(encode_register(identity)))
        },
        Instruction::Mine { identity, bus, hash, nonce } => {
            if *bus >= BUS_COUNT || proof_address(identity).is_none() {
                return None;
            }
            Some(single(encode_mine(identity, *bus, hash, *nonce)))
        },
        Instruction::Claim { identity, beneficiary, amount } => {
            if proof_address(identity).is_none() || token_account_address(
                &Address { bytes: TREASURY_ADDRESS },
            ).is_none() {
                return None;
            }
            Some(single(encode_claim(identity, beneficiary, *amount)))
        },
        Instruction::Tip { payer, recipient, lamports } => Some(
            single(encode_transfer(payer, recipient, *lamports)),
        ),
        Instruction::CreateNonceAccount { payer, nonce_account, lamports } => Some(
            encode_create_nonce_account(payer, nonce_account, payer, "nonce", payer, *lamports),
        ),
        Instruction::CreateTokenAccount { payer, owner } => {
            if token_account_address(owner).is_none() {
                return None;
            }
            Some(
                single(
                    encode_create_token_account(
                        payer,
                        owner,
                        &Address { bytes: MINT_ADDRESS },
                        &Address { bytes: TOKEN_PROGRAM_ID },
                    ),
                ),
            )
        },
    }
}

/// Puts a list of instructions into wire form, in order.
pub fn encode_all(ixs: &Vec<Instruction>) -> (encoded: Option<Vec<EncodedInstruction>>)
    ensures
        match encoded {
            Some(list) => encoding_of_all(ixs@) == Some(encodings(list@)),
            None => encoding_of_all(ixs@) is None,
        },
{
    let mut all: Vec<EncodedInstruction> = Vec::new();
    let mut i: usize = 0;
    assert(ixs@.subrange(0, 0) =~= Seq::<Instruction>::empty());
    assert(encodings(all@) =~= Seq::<Encoding>::empty());
    while i < ixs.len()
        invariant
            i <= ixs@.len(),
            encoding_of_all(ixs@.subrange(0, i as int)) == Some(encodings(all@)),
        decreases ixs@.len() - i,
    {
        proof {
            assert(ixs@.subrange(0, i + 1).drop_last() =~= ixs@.subrange(0, i as int));
        }
        match encode(&ixs[i]) {
            Some(mut list) => {
                let ghost before = encodings(all@);
                let ghost added = encodings(list@);
                all.append(&mut list);
                assert(encodings(all@) =~= before + added);
            },
            None => {
                proof {
                    lemma_none_spreads(ixs@, i + 1);
                }
                return None;
            },
        }
        i = i + 1;
    }
    assert(ixs@.subrange(0, i as int) =~= ixs@);
    Some(all)
}

/// A list has no wire form if one of its beginnings has none.
pub proof fn lemma_none_spreads(ixs: Seq<Instruction>, upto: int)
    requires
        0 <= upto <= ixs.len(),
        encoding_of_all(ixs.subrange(0, upto)) is None,
    ensures
        encoding_of_all(ixs) is None,
    decreases ixs.len() - upto,
{
    if upto < ixs.len() {
        assert(ixs.subrange(0, upto + 1).drop_last() =~= ixs.subrange(0, upto));
        lemma_none_spreads(ixs, upto + 1);
    } else {
        assert(ixs.subrange(0, upto) =~= ixs);
    }
}

} // verus!
