//! Proof-of-work puzzles: hashing a nonce, comparing digests with the
//! difficulty target, and scanning ranges of nonces.

use crate::address::{bytes32_eq, Address};
use vstd::bytes::*;
use vstd::prelude::*;

verus! {

/// The Keccak-256 digest of the given parts, absorbed in order.
pub uninterp spec fn keccak_hashv(parts: Seq<Seq<u8>>) -> Seq<u8>;

/// Calls `solana_program::keccak::hashv` on three byte slices.
///
/// Trusted: the digest is a function of the three slices alone, taken in
/// order, and that function is named `keccak_hashv`.
#[verifier::external_body]
fn keccak_hashv3(a: &[u8], b: &[u8], c: &[u8]) -> (digest: [u8; 32])
    ensures
        digest@ == keccak_hashv(seq![a@, b@, c@]),
{
    solana_program::keccak::hashv(&[a, b, c]).to_bytes()
}

/// The eight bytes of `nonce`, least significant first.
pub fn nonce_bytes(nonce: u64) -> (out: [u8; 8])
    ensures
        out@ == spec_u64_to_le_bytes(nonce),
{
    let out: [u8; 8] = [
        #[verifier::truncate] ((nonce & 0xff) as u8),
        #[verifier::truncate] (((nonce >> 8) & 0xff) as u8),
        #[verifier::truncate] (((nonce >> 16) & 0xff) as u8),
        #[verifier::truncate] (((nonce >> 24) & 0xff) as u8),
        #[verifier::truncate] (((nonce >> 32) & 0xff) as u8),
        #[verifier::truncate] (((nonce >> 40) & 0xff) as u8),
        #[verifier::truncate] (((nonce >> 48) & 0xff) as u8),
        #[verifier::truncate] (((nonce >> 56) & 0xff) as u8),
    ];
    proof {
        spec_u64_to_le_bytes_to_open(nonce);
        assert(out@ =~= spec_u64_to_le_bytes_open(nonce));
    }
    out
}

/// The unsigned integer that `bytes` spell, most significant byte first.
pub open spec fn be_value(bytes: Seq<u8>) -> nat
    decreases bytes.len(),
{
    if bytes.len() == 0 {
        0
    } else {
        be_value(bytes.drop_last()) * 256 + bytes.last() as nat
    }
}

/// A digest qualifies when, read as a big-endian unsigned integer, it does not
/// exceed the target.
pub open spec fn meets_target(digest: Seq<u8>, target: Seq<u8>) -> bool {
    be_value(digest) <= be_value(target)
}

/// Two byte strings of one length that first differ at `at` are ordered, as
/// big-endian integers, like their bytes at `at`.
pub proof fn lemma_be_value_first_difference(a: Seq<u8>, b: Seq<u8>, at: int)
    requires
        a.len() == b.len(),
        0 <= at < a.len(),
        forall|k: int| 0 <= k < at ==> a[k] == b[k],
        a[at] < b[at],
    ensures
        be_value(a) < be_value(b),
    decreases a.len(),
{
    let n = a.len() as int;
    if at == n - 1 {
        assert(a.drop_last() =~= b.drop_last());
    } else {
        lemma_be_value_first_difference(a.drop_last(), b.drop_last(), at);
    }
}

/// Whether `digest` does not exceed `target`, both read as big-endian unsigned
/// integers.
pub fn hash_meets_target(digest: &[u8; 32], target: &[u8; 32]) -> (ok: bool)
    ensures
        ok == meets_target(digest@, target@),
{
    let mut i: usize = 0;
    while i < 32
        invariant
            i <= 32,
            forall|k: int| 0 <= k < i ==> digest@[k] == target@[k],
        decreases 32 - i,
    {
        if digest[i] < target[i] {
            proof {
                lemma_be_value_first_difference(digest@, target@, i as int);
            }
            return true;
        }
        if digest[i] > target[i] {
            proof {
                lemma_be_value_first_difference(target@, digest@, i as int);
            }
            return false;
        }
        i = i + 1;
    }
    assert(digest@ =~= target@);
    true
}

/// A candidate answer to a puzzle: a nonce and the digest it hashes to.
#[derive(Clone, Copy, Debug, PartialEq, Eq)]
pub struct Solution {
    pub hash: [u8; 32],
    pub nonce: u64,
}

/// One proof-of-work puzzle: the identity that searches, the digest it last had
/// accepted, and the difficulty target.
#[derive(Clone, Copy, Debug, PartialEq, Eq)]
pub struct Puzzle {
    pub previous_hash: [u8; 32],
    pub identity: Address,
    pub target: [u8; 32],
}

impl Puzzle {
    /// The digest of `previous_hash || identity || little_endian(nonce)`.
    pub open spec fn hash_of(&self, nonce: u64) -> Seq<u8> {
        keccak_hashv(seq![self.previous_hash@, self.identity@, spec_u64_to_le_bytes(nonce)])
    }

    /// Whether the digest of `nonce` qualifies under the target.
    pub open spec fn accepts(&self, nonce: u64) -> bool {
        meets_target(self.hash_of(nonce), self.target@)
    }

    /// Whether `s` pairs a nonce with its digest and that digest qualifies.
    pub open spec fn solved_by(&self, s: Solution) -> bool {
        s.hash@ == self.hash_of(s.nonce) && self.accepts(s.nonce)
    }

    /// Hashes one nonce.
    pub fn hash(&self, nonce: u64) -> (digest: [u8; 32])
        ensures
            digest@ == self.hash_of(nonce),
    {
        let n = nonce_bytes(nonce);
        keccak_hashv3(self.previous_hash.as_slice(), self.identity.bytes.as_slice(), n.as_slice())
    }

    /// Recomputes the digest of `s.nonce` and checks it against `s.hash` and
    /// the target.
    pub fn check(&self, s: &Solution) -> (ok: bool)
        ensures
            ok == self.solved_by(*s),
    {
        let digest = self.hash(s.nonce);
        bytes32_eq(&digest, &s.hash) && hash_meets_target(&digest, &self.target)
    }

    /// Scans the nonces `first ..= last` in ascending order and returns the
    /// first whose digest qualifies, with that digest.
    pub fn search(&self, first: u64, last: u64) -> (found: Option<Solution>)
        ensures
            match found {
                Some(s) => {
                    &&& first <= s.nonce <= last
                    &&& self.solved_by(s)
                    &&& forall|n: u64| first <= n < s.nonce ==> !self.accepts(n)
                },
                None => forall|n: u64| first <= n <= last ==> !self.accepts(n),
            },
    {
        if first > last {
            return None;
        }
        let mut nonce: u64 = first;
        loop
            invariant
                first <= nonce <= last,
                forall|n: u64| first <= n < nonce ==> !self.accepts(n),
            decreases last - nonce,
        {
            let digest = self.hash(nonce);
            if hash_meets_target(&digest, &self.target) {
                return Some(Solution { hash: digest, nonce });
            }
            if nonce == last {
                return None;
            }
            nonce = nonce + 1;
        }
    }
}

/// Number of nonces a worker tries between two looks at the stop flag.
pub const CHECK_INTERVAL: u64 = 10_000;

/// Size of the nonce space, 2^64.
pub open spec fn nonce_space() -> int {
    0x1_0000_0000_0000_0000
}

/// Distance between the starting nonces of neighbouring workers.
pub open spec fn worker_stride(workers: u64) -> int {
    nonce_space() / (workers as int)
}

/// Starting nonce of worker `index` out of `workers`.
pub open spec fn worker_offset(index: u64, workers: u64) -> int {
    index * worker_stride(workers)
}

/// The workers' starting nonces increase with the worker's index and stay
/// inside the nonce space, so no two workers start at the same nonce.
pub proof fn lemma_worker_offsets_increase(i: u64, j: u64, workers: u64)
    requires
        i < j < workers,
    ensures
        0 <= worker_offset(i, workers) < worker_offset(j, workers) < nonce_space(),
{
    let stride = worker_stride(workers);
    let w = workers as int;
    assert(stride >= 1 && stride * w <= nonce_space()) by (nonlinear_arith)
        requires
            stride == nonce_space() / w,
            1 <= w < nonce_space(),
            nonce_space() == 0x1_0000_0000_0000_0000,
    ;
    assert(0 <= i * stride < j * stride && j * stride + stride <= stride * w) by (nonlinear_arith)
        requires
            0 <= i < j < w,
            stride >= 1,
    ;
}

/// The first worker starts at nonce zero and each next one a stride further.
pub proof fn lemma_worker_offsets_step(index: u64, workers: u64)
    requires
        index + 1 < workers,
    ensures
        worker_offset(0, workers) == 0,
        worker_offset((index + 1) as u64, workers) == worker_offset(index, workers) + worker_stride(
            workers,
        ),
{
    let stride = worker_stride(workers);
    assert((index + 1) * stride == index * stride + stride) by (nonlinear_arith);
}

/// Starting nonce of worker `index` when the nonce space is split between
/// `workers` workers; `None` when there is no such worker.
pub fn worker_start(index: u64, workers: u64) -> (start: Option<u64>)
    ensures
        index < workers ==> start == Some(worker_offset(index, workers) as u64)
            && worker_offset(index, workers) <= u64::MAX,
        index >= workers ==> start is None,
{
    if index >= workers {
        return None;
    }
    let space: u128 = 0x1_0000_0000_0000_0000;
    let stride: u128 = space / (workers as u128);
    proof {
        let w = workers as int;
        let st = worker_stride(workers);
        assert(stride == st);
        assert(st >= 1 && st * w <= nonce_space()) by (nonlinear_arith)
            requires
                st == nonce_space() / w,
                1 <= w < nonce_space(),
                nonce_space() == 0x1_0000_0000_0000_0000,
        ;
        assert(0 <= st * index && st * index + st <= st * w) by (nonlinear_arith)
            requires
                0 <= index < w,
                st >= 1,
        ;
        assert(st * index == index * st) by (nonlinear_arith);
    }
    let offset: u128 = stride * (index as u128);
    Some(offset as u64)
}

/// Last nonce that a worker at `nonce` tries before it next looks at the stop
/// flag.
pub open spec fn window_last(nonce: u64) -> int {
    nonce - nonce % CHECK_INTERVAL + CHECK_INTERVAL - 1
}

/// Whether a worker looks at the stop flag before it tries `nonce`.
pub open spec fn looks_at_flag(nonce: u64) -> bool {
    nonce % CHECK_INTERVAL == 0
}

/// What one stretch of a worker's search ended in.
#[derive(Clone, Copy, Debug, PartialEq, Eq)]
pub enum WorkerStep {
    /// The stop flag was set when the worker looked: it gives up.
    Stopped,
    /// A qualifying nonce was found.
    Found(Solution),
    /// Nothing qualified up to the next look at the flag; go on from here.
    Continue(u64),
    /// Nothing qualified up to the end of the nonce space.
    Exhausted,
}

impl Puzzle {
    /// Runs a worker from `nonce` up to its next look at the stop flag.
    ///
    /// `stop_requested` is the flag's value now; it counts only where the
    /// worker looks at it, at the nonces that `CHECK_INTERVAL` divides.
    pub fn worker_step(&self, nonce: u64, stop_requested: bool) -> (step: WorkerStep)
        ensures
            (stop_requested && looks_at_flag(nonce)) <==> step is Stopped,
            match step {
                WorkerStep::Stopped => true,
                WorkerStep::Found(s) => {
                    &&& nonce <= s.nonce <= window_last(nonce)
                    &&& self.solved_by(s)
                    &&& forall|n: u64| nonce <= n < s.nonce ==> !self.accepts(n)
                },
                WorkerStep::Continue(next) => {
                    &&& next == window_last(nonce) + 1
                    &&& forall|n: u64| nonce <= n < next ==> !self.accepts(n)
                },
                WorkerStep::Exhausted => {
                    &&& window_last(nonce) >= u64::MAX
                    &&& forall|n: u64| nonce <= n ==> !self.accepts(n)
                },
            },
    {
        let phase = nonce % CHECK_INTERVAL;
        if stop_requested && phase == 0 {
            return WorkerStep::Stopped;
        }
        let span = CHECK_INTERVAL - 1 - phase;
        let room = u64::MAX - nonce;
        if span < room {
            let last = nonce + span;
            match self.search(nonce, last) {
                Some(s) => WorkerStep::Found(s),
                None => WorkerStep::Continue(last + 1),
            }
        } else {
            match self.search(nonce, u64::MAX) {
                Some(s) => WorkerStep::Found(s),
                None => WorkerStep::Exhausted,
            }
        }
    }
}

/// The slot that the workers of one search share: it keeps the first
/// qualifying solution offered to it and turns every later one away.
pub struct ResultSlot {
    puzzle: Puzzle,
    winner: Option<Solution>,
}

impl ResultSlot {
    #[verifier::type_invariant]
    spec fn holds_only_solutions(self) -> bool {
        self.winner matches Some(s) ==> self.puzzle.solved_by(s)
    }

    /// The puzzle that the slot collects a solution of.
    pub closed spec fn puzzle(&self) -> Puzzle {
        self.puzzle
    }

    /// The solution that the slot holds, if any.
    pub closed spec fn winner(&self) -> Option<Solution> {
        self.winner
    }

    /// An empty slot for `puzzle`.
    pub fn new(puzzle: Puzzle) -> (slot: ResultSlot)
        ensures
            slot.puzzle() == puzzle,
            slot.winner() is None,
    {
        ResultSlot { puzzle, winner: None }
    }

    /// Offers a worker's solution. The slot takes it if it is empty and the
    /// solution is one of its puzzle; a slot that holds a solution keeps it.
    pub fn offer(&mut self, s: Solution) -> (accepted: bool)
        ensures
            final(self).puzzle() == old(self).puzzle(),
            accepted == (old(self).winner() is None && old(self).puzzle().solved_by(s)),
            final(self).winner() == if accepted {
                Some(s)
            } else {
                old(self).winner()
            },
    {
        if self.winner.is_some() {
            return false;
        }
        if !self.puzzle.check(&s) {
            return false;
        }
        self.winner = Some(s);
        true
    }

    /// What the search ended in: the winning solution, whose digest is the
    /// digest of its nonce and does not exceed the target.
    pub fn result(&self) -> (found: Option<Solution>)
        ensures
            found == self.winner(),
            found matches Some(s) ==> {
                &&& s.hash@ == self.puzzle().hash_of(s.nonce)
                &&& meets_target(s.hash@, self.puzzle().target@)
            },
    {
        proof {
            use_type_invariant(self);
        }
        self.winner
    }
}

} // verus!
