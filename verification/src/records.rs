//! The records that the program keeps on chain, and how their account data is
//! decoded.
//!
//! Every record starts with a one-byte tag and seven bytes that are skipped,
//! followed by its fields in order; integers are little-endian.

use crate::address::Address;
use crate::error::MinerError;
use vstd::bytes::*;
use vstd::prelude::*;
use vstd::slice::*;

verus! {

/// Number of reward shards in the pool.
pub const BUS_COUNT: u64 = 8;

/// Tag of a shard record.
pub const BUS_TAG: u8 = 100;

/// Tag of a proof record.
pub const PROOF_TAG: u8 = 101;

/// Tag of the treasury record.
pub const TREASURY_TAG: u8 = 102;

/// Length in bytes of a shard account's data.
pub const BUS_LEN: usize = 24;

/// Length in bytes of a proof account's data.
pub const PROOF_LEN: usize = 96;

/// Length in bytes of the treasury account's data.
pub const TREASURY_LEN: usize = 104;

/// An identity's proof-of-work state.
#[derive(Clone, Copy, Debug, PartialEq, Eq)]
pub struct ProofRecord {
    /// The identity that owns the record.
    pub authority: Address,
    /// Reward that the identity may claim, in the smallest unit.
    pub claimable_rewards: u64,
    /// The digest last accepted from the identity.
    pub hash: [u8; 32],
}

/// The program's global state.
#[derive(Clone, Copy, Debug, PartialEq, Eq)]
pub struct TreasuryRecord {
    /// The difficulty target.
    pub difficulty: [u8; 32],
    /// Reward paid for one accepted digest, in the smallest unit.
    pub reward_rate: u64,
}

/// One shard of the reward pool.
#[derive(Clone, Copy, Debug, PartialEq, Eq)]
pub struct BusRecord {
    /// The shard's id.
    pub id: u64,
    /// Reward that the shard can still pay out in this epoch.
    pub rewards: u64,
}

/// The 32 bytes of `data` in `from..to`.
fn field_bytes32(data: &[u8], from: usize, to: usize) -> (out: [u8; 32])
    requires
        from + 32 == to,
        to <= data@.len(),
    ensures
        out@ == data@.subrange(from as int, to as int),
{
    let mut out: [u8; 32] = [0u8; 32];
    let mut i: usize = 0;
    while i < 32
        invariant
            i <= 32,
            from + 32 == to,
            to <= data@.len(),
            forall|k: int| 0 <= k < i ==> out@[k] == data@[from + k],
        decreases 32 - i,
    {
        out[i] = data[from + i];
        i = i + 1;
    }
    assert(out@ =~= data@.subrange(from as int, to as int));
    out
}

/// The little-endian integer in the 8 bytes of `data` in `from..to`.
fn field_u64(data: &[u8], from: usize, to: usize) -> (value: u64)
    requires
        from + 8 == to,
        to <= data@.len(),
    ensures
        value == spec_u64_from_le_bytes(data@.subrange(from as int, to as int)),
{
    u64_from_le_bytes(slice_subrange(data, from, to))
}

/// Whether `data` has the length and the tag of a record.
pub open spec fn is_record(data: Seq<u8>, tag: u8, len: usize) -> bool {
    data.len() == len && data[0] == tag
}

impl ProofRecord {
    /// Whether the fields are those laid out in `data`.
    pub open spec fn laid_out_in(&self, data: Seq<u8>) -> bool {
        &&& self.authority@ == data.subrange(8, 40)
        &&& self.claimable_rewards == spec_u64_from_le_bytes(data.subrange(40, 48))
        &&& self.hash@ == data.subrange(48, 80)
    }

    /// Decodes the data of a proof account: `None` unless `data` has the
    /// length and the tag of a proof record.
    pub fn decode(data: &[u8]) -> (record: Option<ProofRecord>)
        ensures
            record is Some <==> is_record(data@, PROOF_TAG, PROOF_LEN),
            record matches Some(r) ==> r.laid_out_in(data@),
    {
        if data.len() != PROOF_LEN || data[0] != PROOF_TAG {
            return None;
        }
        Some(
            ProofRecord {
                authority: Address::new(field_bytes32(data, 8, 40)),
                claimable_rewards: field_u64(data, 40, 48),
                hash: field_bytes32(data, 48, 80),
            },
        )
    }
}

impl TreasuryRecord {
    /// Whether the fields are those laid out in `data`.
    pub open spec fn laid_out_in(&self, data: Seq<u8>) -> bool {
        &&& self.difficulty@ == data.subrange(48, 80)
        &&& self.reward_rate == spec_u64_from_le_bytes(data.subrange(88, 96))
    }

    /// Decodes the data of the treasury account: `None` unless `data` has the
    /// length and the tag of the treasury record.
    pub fn decode(data: &[u8]) -> (record: Option<TreasuryRecord>)
        ensures
            record is Some <==> is_record(data@, TREASURY_TAG, TREASURY_LEN),
            record matches Some(r) ==> r.laid_out_in(data@),
    {
        if data.len() != TREASURY_LEN || data[0] != TREASURY_TAG {
            return None;
        }
        Some(
            TreasuryRecord {
                difficulty: field_bytes32(data, 48, 80),
                reward_rate: field_u64(data, 88, 96),
            },
        )
    }
}

impl BusRecord {
    /// Whether the fields are those laid out in `data`.
    pub open spec fn laid_out_in(&self, data: Seq<u8>) -> bool {
        &&& self.id == spec_u64_from_le_bytes(data.subrange(8, 16))
        &&& self.rewards == spec_u64_from_le_bytes(data.subrange(16, 24))
    }

    /// Decodes the data of a shard account: `None` unless `data` has the
    /// length and the tag of a shard record.
    pub fn decode(data: &[u8]) -> (record: Option<BusRecord>)
        ensures
            record is Some <==> is_record(data@, BUS_TAG, BUS_LEN),
            record matches Some(r) ==> r.laid_out_in(data@),
    {
        if data.len() != BUS_LEN || data[0] != BUS_TAG {
            return None;
        }
        Some(BusRecord { id: field_u64(data, 8, 16), rewards: field_u64(data, 16, 24) })
    }
}

/// Whether `id` names a shard of the pool.
pub open spec fn valid_bus_id(id: u64) -> bool {
    id < BUS_COUNT
}

/// The proof record of an identity, from what a read of its proof account
/// returned: `account` is the account's data, or `None` where there is no
/// such account. Fails with `NotRegistered` when the account is absent or
/// its data is no proof record.
pub fn get_proof(account: Option<&[u8]>) -> (record: Result<ProofRecord, MinerError>)
    ensures
        match (account, record) {
            (Some(data), Ok(r)) => is_record(data@, PROOF_TAG, PROOF_LEN) && r.laid_out_in(data@),
            (Some(data), Err(e)) => !is_record(data@, PROOF_TAG, PROOF_LEN) && e
                == MinerError::NotRegistered,
            (None, Ok(_)) => false,
            (None, Err(e)) => e == MinerError::NotRegistered,
        },
{
    match account {
        Some(data) => match ProofRecord::decode(data) {
            Some(r) => Ok(r),
            None => Err(MinerError::NotRegistered),
        },
        None => Err(MinerError::NotRegistered),
    }
}

/// The treasury record, from what a read of the treasury account returned.
/// Fails with `RpcTransient` when the read gave no data or data that is no
/// treasury record.
pub fn get_treasury(account: Option<&[u8]>) -> (record: Result<TreasuryRecord, MinerError>)
    ensures
        match (account, record) {
            (Some(data), Ok(r)) => is_record(data@, TREASURY_TAG, TREASURY_LEN) && r.laid_out_in(
                data@,
            ),
            (Some(data), Err(e)) => !is_record(data@, TREASURY_TAG, TREASURY_LEN) && e
                == MinerError::RpcTransient,
            (None, Ok(_)) => false,
            (None, Err(e)) => e == MinerError::RpcTransient,
        },
{
    match account {
        Some(data) => match TreasuryRecord::decode(data) {
            Some(r) => Ok(r),
            None => Err(MinerError::RpcTransient),
        },
        None => Err(MinerError::RpcTransient),
    }
}

/// The record of shard `id`, from what a read of that shard's account
/// returned. Fails with `InvalidBusId` when `id` names no shard, whatever was
/// read, and with `RpcTransient` when the read gave no data or data that is
/// no shard record.
pub fn get_bus(id: u64, account: Option<&[u8]>) -> (record: Result<BusRecord, MinerError>)
    ensures
        !valid_bus_id(id) ==> record == Err::<BusRecord, MinerError>(MinerError::InvalidBusId),
        valid_bus_id(id) ==> match (account, record) {
            (Some(data), Ok(r)) => is_record(data@, BUS_TAG, BUS_LEN) && r.laid_out_in(data@),
            (Some(data), Err(e)) => !is_record(data@, BUS_TAG, BUS_LEN) && e
                == MinerError::RpcTransient,
            (None, Ok(_)) => false,
            (None, Err(e)) => e == MinerError::RpcTransient,
        },
{
    if id >= BUS_COUNT {
        return Err(MinerError::InvalidBusId);
    }
    match account {
        Some(data) => match BusRecord::decode(data) {
            Some(r) => Ok(r),
            None => Err(MinerError::RpcTransient),
        },
        None => Err(MinerError::RpcTransient),
    }
}

} // verus!
