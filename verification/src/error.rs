//! The faults that the client tells apart, and what each one calls for.

use vstd::prelude::*;

verus! {

/// A fault met while reading state or delivering a transaction.
#[derive(Clone, Debug, PartialEq, Eq)]
pub enum MinerError {
    /// A request to the network endpoint failed; asking again may succeed.
    RpcTransient,
    /// The simulation of a signed transaction reported an error. The
    /// transaction was not broadcast.
    SimulationFailed { error: String, logs: Vec<String> },
    /// The payer holds no funds to pay for a transaction.
    InsufficientBalance,
    /// An identity has no proof record, or one that cannot be decoded.
    NotRegistered,
    /// A shard id outside the pool.
    InvalidBusId,
    /// The bootstrap delivery gave up after its last attempt.
    MaxRetriesExceeded,
    /// The relay did not report on a bundle in time.
    RelayTimeout,
    /// The relay turned a bundle down for good.
    RelayFatal { reason: String },
}

/// What a fault calls for.
#[derive(Clone, Copy, Debug, PartialEq, Eq)]
pub enum Disposition {
    /// Repeat the step that failed.
    Retry,
    /// Give up this delivery attempt; the mining cycle goes on.
    AbortAttempt,
    /// Give up the operation.
    Abort,
    /// Give up for good.
    Fatal,
}

impl MinerError {
    /// The policy for this fault.
    pub open spec fn spec_disposition(&self) -> Disposition {
        match self {
            MinerError::RpcTransient => Disposition::Retry,
            MinerError::SimulationFailed { .. } => Disposition::AbortAttempt,
            MinerError::InsufficientBalance => Disposition::Abort,
            MinerError::NotRegistered => Disposition::Abort,
            MinerError::InvalidBusId => Disposition::Abort,
            MinerError::MaxRetriesExceeded => Disposition::Fatal,
            MinerError::RelayTimeout => Disposition::Retry,
            MinerError::RelayFatal { .. } => Disposition::AbortAttempt,
        }
    }

    /// The policy for this fault.
    pub fn disposition(&self) -> (d: Disposition)
        ensures
            d == self.spec_disposition(),
    {
        match self {
            MinerError::RpcTransient => Disposition::Retry,
            MinerError::SimulationFailed { .. } => Disposition::AbortAttempt,
            MinerError::InsufficientBalance => Disposition::Abort,
            MinerError::NotRegistered => Disposition::Abort,
            MinerError::InvalidBusId => Disposition::Abort,
            MinerError::MaxRetriesExceeded => Disposition::Fatal,
            MinerError::RelayTimeout => Disposition::Retry,
            MinerError::RelayFatal { .. } => Disposition::AbortAttempt,
        }
    }
}

} // verus!
