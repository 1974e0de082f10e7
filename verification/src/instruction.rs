//! The instructions that the client puts into its transactions, as plain
//! descriptions of what each one asks for.

use crate::address::Address;
use vstd::prelude::*;

verus! {

/// One instruction of a transaction.
#[derive(Clone, Copy, Debug, PartialEq, Eq)]
pub enum Instruction {
    /// Consumes the current value of a durable nonce account, on the
    /// authority's signature.
    AdvanceNonce { nonce_account: Address, authority: Address },
    /// Declares the compute units that the transaction may use.
    SetComputeUnitLimit { units: u32 },
    /// Declares the price paid per compute unit.
    SetComputeUnitPrice { micro_lamports: u64 },
    /// Opens the proof record of an identity.
    Register { identity: Address },
    /// Submits a digest found for an identity, to be paid from shard `bus`.
    Mine { identity: Address, bus: u64, hash: [u8; 32], nonce: u64 },
    /// Pays `amount` of an identity's claimable reward to `beneficiary`.
    Claim { identity: Address, beneficiary: Address, amount: u64 },
    /// Pays the relay's tip.
    Tip { payer: Address, recipient: Address, lamports: u64 },
    /// Creates and initialises the payer's durable nonce account, funded with
    /// `lamports`.
    CreateNonceAccount { payer: Address, nonce_account: Address, lamports: u64 },
    /// Creates the token account that receives an owner's rewards.
    CreateTokenAccount { payer: Address, owner: Address },
}

/// What a transaction does, which sets its compute budget per batched
/// identity.
#[derive(Clone, Copy, Debug, PartialEq, Eq)]
pub enum Operation {
    Register,
    Mine,
    Claim,
    CreateTokenAccount,
}

/// Compute units for one registration.
pub const CU_LIMIT_REGISTER: u32 = 7_660;

/// Compute units for one submitted digest.
pub const CU_LIMIT_MINE: u32 = 3_200;

/// Compute units for one claim.
pub const CU_LIMIT_CLAIM: u32 = 11_000;

/// Compute units for creating a token account.
pub const CU_LIMIT_ATA: u32 = 24_000;

/// Price per compute unit that overrides the configured fee on the relay path.
pub const RELAY_PRIORITY_FEE: u64 = 1_000;

/// What the relay is tipped for a bundle.
pub const TIP_LAMPORTS: u64 = 500_000;

/// The account that takes the relay's tips.
pub const TIP_ADDRESS: [u8; 32] = [
    137, 7, 125, 85, 165, 187, 19, 48, 118, 62, 183, 103, 245, 94, 192, 119,
    180, 26, 13, 7, 95, 125, 225, 215, 63, 186, 202, 60, 99, 213, 84, 113,
];

impl Operation {
    /// Compute units that one batched identity needs.
    pub open spec fn spec_unit_limit(&self) -> u32 {
        match self {
            Operation::Register => CU_LIMIT_REGISTER,
            Operation::Mine => CU_LIMIT_MINE,
            Operation::Claim => CU_LIMIT_CLAIM,
            Operation::CreateTokenAccount => CU_LIMIT_ATA,
        }
    }

    /// Compute units that one batched identity needs.
    pub fn unit_limit(&self) -> (units: u32)
        ensures
            units == self.spec_unit_limit(),
            units <= CU_LIMIT_ATA,
    {
        match self {
            Operation::Register => CU_LIMIT_REGISTER,
            Operation::Mine => CU_LIMIT_MINE,
            Operation::Claim => CU_LIMIT_CLAIM,
            Operation::CreateTokenAccount => CU_LIMIT_ATA,
        }
    }
}

} // verus!
