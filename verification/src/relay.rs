//! What the relay's answers mean for a bundle.

use crate::error::MinerError;
use vstd::prelude::*;
use vstd::string::*;

verus! {

/// The gap, in slots, within which the relay's next leader slot is close
/// enough to send a bundle.
pub const MAX_LEADER_GAP: u64 = 2;

/// Whether a bundle sent at `current_slot` would meet the relay's leader at
/// `next_leader_slot`: the leader's slot is not past and at most
/// `MAX_LEADER_GAP` slots ahead.
pub open spec fn leader_is_close(current_slot: u64, next_leader_slot: u64) -> bool {
    current_slot <= next_leader_slot && next_leader_slot - current_slot <= MAX_LEADER_GAP
}

/// Tests the gap to the relay's next leader slot.
pub fn is_leader_close(current_slot: u64, next_leader_slot: u64) -> (close: bool)
    ensures
        close == leader_is_close(current_slot, next_leader_slot),
{
    current_slot <= next_leader_slot && next_leader_slot - current_slot <= MAX_LEADER_GAP
}

/// Whether `needle` occurs in `hay` as a run of consecutive bytes.
pub open spec fn occurs_in(needle: Seq<u8>, hay: Seq<u8>) -> bool {
    exists|at: int| occurs_at(needle, hay, at)
}

/// Whether `needle` occurs in `hay` at offset `at`.
pub open spec fn occurs_at(needle: Seq<u8>, hay: Seq<u8>, at: int) -> bool {
    0 <= at && at + needle.len() <= hay.len() && hay.subrange(at, at + needle.len()) == needle
}

/// Whether `hay` has `needle` at offset `at`, where `last` is the last
/// offset that leaves room for it.
fn matches_at(hay: &[u8], needle: &[u8], at: usize, last: usize) -> (same: bool)
    requires
        at <= last,
        last + needle@.len() == hay@.len(),
        hay@.len() <= usize::MAX,
    ensures
        same == occurs_at(needle@, hay@, at as int),
{
    let mut k: usize = 0;
    while k < needle.len()
        invariant
            k <= needle@.len(),
            at <= last,
            last + needle@.len() == hay@.len(),
            hay@.len() <= usize::MAX,
            forall|j: int| 0 <= j < k ==> hay@[at + j] == needle@[j],
        decreases needle@.len() - k,
    {
        if hay[at + k] != needle[k] {
            assert(hay@.subrange(at as int, at + needle@.len())[k as int] != needle@[k as int]);
            return false;
        }
        k = k + 1;
    }
    assert(hay@.subrange(at as int, at + needle@.len()) =~= needle@);
    true
}

/// Searches `hay` for `needle`.
pub fn contains_bytes(hay: &[u8], needle: &[u8]) -> (found: bool)
    ensures
        found == occurs_in(needle@, hay@),
{
    if needle.len() > hay.len() {
        return false;
    }
    let last = hay.len() - needle.len();
    let mut at: usize = 0;
    loop
        invariant
            at <= last,
            last + needle@.len() == hay@.len(),
            hay@.len() <= usize::MAX,
            forall|i: int| 0 <= i < at ==> !occurs_at(needle@, hay@, i),
        decreases last - at,
    {
        if matches_at(hay, needle, at, last) {
            return true;
        }
        if at == last {
            return false;
        }
        at = at + 1;
    }
}

/// What a rejected bundle means.
#[derive(Clone, Copy, Debug, PartialEq, Eq)]
pub enum Rejection {
    /// The nonce that the transaction was signed against is gone: the
    /// transaction has been included by another way.
    AlreadyLanded,
    /// The relay did not report on the bundle in time.
    StatusTimeout,
    /// Anything else.
    Fatal,
}

/// The text by which the relay says that it no longer knows the value that a
/// transaction was signed against.
pub open spec fn stale_nonce_text() -> Seq<u8> {
    "Blockhash not found".spec_bytes()
}

/// The text by which the relay says that it has no status for a bundle yet.
pub open spec fn status_timeout_text() -> Seq<u8> {
    "Searcher service did not provide bundle status in time".spec_bytes()
}

/// What the relay's message `reason` means.
pub open spec fn rejection_of(reason: Seq<u8>) -> Rejection {
    if occurs_in(stale_nonce_text(), reason) {
        Rejection::AlreadyLanded
    } else if occurs_in(status_timeout_text(), reason) {
        Rejection::StatusTimeout
    } else {
        Rejection::Fatal
    }
}

/// Reads the relay's message on a rejected bundle.
pub fn classify_rejection(reason: &str) -> (rejection: Rejection)
    ensures
        rejection == rejection_of(reason.spec_bytes()),
{
    let text = reason.as_bytes();
    if contains_bytes(text, "Blockhash not found".as_bytes()) {
        Rejection::AlreadyLanded
    } else if contains_bytes(
        text,
        "Searcher service did not provide bundle status in time".as_bytes(),
    ) {
        Rejection::StatusTimeout
    } else {
        Rejection::Fatal
    }
}

impl Rejection {
    /// The fault that a rejection with the message `reason` amounts to; none
    /// where the transaction counts as landed.
    pub open spec fn spec_fault(&self, reason: String) -> Option<MinerError> {
        match self {
            Rejection::AlreadyLanded => None,
            Rejection::StatusTimeout => Some(MinerError::RelayTimeout),
            Rejection::Fatal => Some(MinerError::RelayFatal { reason }),
        }
    }

    /// The fault that a rejection with the message `reason` amounts to; none
    /// where the transaction counts as landed.
    pub fn fault(&self, reason: String) -> (fault: Option<MinerError>)
        ensures
            fault == self.spec_fault(reason),
    {
        match self {
            Rejection::AlreadyLanded => None,
            Rejection::StatusTimeout => Some(MinerError::RelayTimeout),
            Rejection::Fatal => Some(MinerError::RelayFatal { reason }),
        }
    }
}

} // verus!
