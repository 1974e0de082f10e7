//! Choosing a reward shard for a submission.
//!
//! A shard is sampled at random and read; it is taken only if it holds more
//! than a few rewards' worth, so that it is unlikely to be drained before the
//! submission lands.

use crate::error::MinerError;
use crate::records::{valid_bus_id, BusRecord, BUS_COUNT};
use vstd::prelude::*;

verus! {

/// A shard must hold more than this many times the reward rate.
pub const REWARD_MARGIN: u64 = 4;

/// Calls `rand::Rng::gen_range` on `rand::thread_rng()` with the range
/// `0..bound`.
///
/// Trusted: the sample lies in the range. Nothing else is claimed of it, and
/// two calls may differ. `gen_range` panics on an empty range, which
/// `requires` leaves out.
#[verifier::external_body]
fn random_below(bound: u64) -> (sample: u64)
    requires
        bound > 0,
    ensures
        sample < bound,
{
    rand::Rng::gen_range(&mut rand::thread_rng(), 0..bound)
}

/// Samples the id of a shard to try next.
pub fn sample_bus_id() -> (id: u64)
    ensures
        valid_bus_id(id),
{
    random_below(BUS_COUNT)
}

/// Whether a shard with `rewards` left can be expected to pay a reward of
/// `reward_rate` by the time a submission lands.
pub open spec fn sufficiently_funded(rewards: u64, reward_rate: u64) -> bool {
    rewards > REWARD_MARGIN * reward_rate
}

/// Tests a shard's rewards against the margin.
pub fn is_sufficiently_funded(rewards: u64, reward_rate: u64) -> (ok: bool)
    ensures
        ok == sufficiently_funded(rewards, reward_rate),
{
    match reward_rate.checked_mul(REWARD_MARGIN) {
        Some(threshold) => rewards > threshold,
        None => false,
    }
}

/// Decides on a sampled shard from what reading it returned: the shard is
/// taken if it was read and is sufficiently funded; otherwise another one
/// has to be sampled.
pub fn accept_bus(read: Result<BusRecord, MinerError>, reward_rate: u64) -> (chosen: Option<
    BusRecord,
>)
    ensures
        match read {
            Ok(bus) => chosen == if sufficiently_funded(bus.rewards, reward_rate) {
                Some(bus)
            } else {
                None
            },
            Err(_) => chosen is None,
        },
        chosen matches Some(bus) ==> bus.rewards > REWARD_MARGIN * reward_rate,
{
    match read {
        Ok(bus) => {
            if is_sufficiently_funded(bus.rewards, reward_rate) {
                Some(bus)
            } else {
                None
            }
        },
        Err(_) => None,
    }
}

} // verus!
