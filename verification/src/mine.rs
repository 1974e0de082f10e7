//! The mining cycle: make sure that every identity is registered, then over
//! and over fetch the state, claim where it is time to, search, pick a
//! shard and submit.
//!
//! The cycle is a state machine. Whoever drives it performs the action it
//! asks for and hands back what happened; the machine decides what comes
//! next. It has no last state: it runs until its driver stops.

use crate::address::Address;
use crate::bus::{is_sufficiently_funded, sufficiently_funded};
use crate::error::MinerError;
use crate::instruction::Operation;
use crate::miner::{Miner, SubmissionRequest};
use crate::pow::{Puzzle, Solution};
use crate::records::{valid_bus_id, BusRecord, ProofRecord, TreasuryRecord, BUS_COUNT};
use vstd::arithmetic::div_mod::{
    lemma_add_mod_noop_right, lemma_mod_bound, lemma_mod_twice, lemma_small_mod,
};
use vstd::prelude::*;

verus! {

/// How the cycle is to be run.
#[derive(Clone, Copy, Debug, PartialEq, Eq)]
pub struct MineConfig {
    /// Workers for each search.
    pub threads: u64,
    /// Whether rewards are claimed as the cycle goes.
    pub auto_claim: bool,
    /// A claim is made before the search of every cycle whose number this
    /// divides, the first cycle being number zero. Zero: never.
    pub claim_every: u64,
    /// Where claimed rewards are paid; the payer's token account if `None`.
    pub beneficiary: Option<Address>,
}

/// Cycles from one claim to the next, unless configured otherwise.
pub const CLAIM_CADENCE: u64 = 10;

/// Where the cycle stands.
#[derive(Debug, PartialEq, Eq)]
pub enum MinePhase {
    /// The identities are being registered.
    Registering,
    /// The treasury and the identities' proof records are being read.
    Fetching,
    /// Rewards are being claimed before the search.
    Claiming { reward_rate: u64, puzzles: Vec<Puzzle> },
    /// The puzzles are being searched.
    Searching { reward_rate: u64, puzzles: Vec<Puzzle> },
    /// A shard is being picked for the solutions found.
    SelectingBus { reward_rate: u64, solutions: Vec<Solution> },
    /// The solutions are being submitted.
    Submitting { reward_rate: u64, solutions: Vec<Solution> },
    /// The cycle broke off on a fault.
    Stopped,
}

/// What happened to the last action.
#[derive(Debug, PartialEq, Eq)]
pub enum MineEvent {
    /// Every identity is registered.
    Registered,
    /// The treasury and the proof record of each identity, in the session's
    /// order, were read.
    Fetched { treasury: TreasuryRecord, proofs: Vec<ProofRecord> },
    /// The claim is over, however it ended.
    Claimed,
    /// A solution was found for each puzzle, in the puzzles' order.
    Solved { solutions: Vec<Solution> },
    /// A shard was picked.
    BusSelected { bus: BusRecord },
    /// The transaction has landed.
    Submitted,
    /// The action failed.
    Failed { error: MinerError },
}

/// What the driver is to do next.
#[derive(Debug, PartialEq, Eq)]
pub enum MineAction {
    /// Register the identities that are not yet registered.
    Register,
    /// Read the treasury and every identity's proof record.
    Fetch,
    /// Claim the identities' rewards.
    Claim { beneficiary: Option<Address> },
    /// Search each puzzle with `threads` workers.
    Search { puzzles: Vec<Puzzle>, threads: u64 },
    /// Pick a shard that holds enough for a reward of `reward_rate`.
    SelectBus { reward_rate: u64 },
    /// Deliver the transaction.
    Submit { request: SubmissionRequest },
    /// Stop: the cycle broke off on this fault.
    Abort { error: MinerError },
    /// Nothing: the cycle broke off before.
    Halt,
}

impl MineConfig {
    /// Whether a claim is made in cycle number `cycle`.
    pub open spec fn claims_in(&self, cycle: u64) -> bool {
        self.auto_claim && self.claim_every > 0 && cycle % self.claim_every == 0
    }

    /// The number after `cycle`, counted round the cadence.
    pub open spec fn cycle_after(&self, cycle: u64) -> u64 {
        if self.claim_every == 0 {
            0
        } else {
            ((cycle + 1) % (self.claim_every as int)) as u64
        }
    }
}

impl MineConfig {
    /// The counter after `cycles` cycles have begun, from zero.
    pub open spec fn counter_after(&self, cycles: nat) -> u64
        decreases cycles,
    {
        if cycles == 0 {
            0
        } else {
            self.cycle_after(self.counter_after((cycles - 1) as nat))
        }
    }

    /// The counter goes round the cadence, so that a claim is made in cycle
    /// number `cycles`, the first being number zero, exactly when claims are
    /// switched on and the cadence divides that number.
    pub proof fn lemma_claims_every_nth_cycle(&self, cycles: nat)
        requires
            self.claim_every > 0,
        ensures
            self.counter_after(cycles) == (cycles as int) % (self.claim_every as int),
            self.claims_in(self.counter_after(cycles)) <==> self.auto_claim && (cycles as int) % (
            self.claim_every as int) == 0,
        decreases cycles,
    {
        let n = self.claim_every as int;
        lemma_mod_bound(cycles as int, n);
        lemma_mod_twice(cycles as int, n);
        if cycles > 0 {
            let before = (cycles - 1) as nat;
            self.lemma_claims_every_nth_cycle(before);
            let counter = self.counter_after(before) as int;
            lemma_add_mod_noop_right(1, before as int, n);
            lemma_mod_bound(counter + 1, n);
            assert((counter + 1) % n == (1 + (before as int) % n) % n);
            assert((1 + before as int) % n == (cycles as int) % n);
            assert(self.counter_after(cycles) == self.cycle_after(self.counter_after(before)));
        } else {
            lemma_small_mod(0, n as nat);
        }
    }
}

/// Whether there is one solution for each puzzle, in the puzzles' order.
pub open spec fn all_solved(puzzles: Seq<Puzzle>, solutions: Seq<Solution>) -> bool {
    &&& solutions.len() == puzzles.len()
    &&& forall|i: int| 0 <= i < puzzles.len() ==> (#[trigger] puzzles[i]).solved_by(solutions[i])
}

/// Checks each solution against its puzzle.
pub fn check_solutions(puzzles: &Vec<Puzzle>, solutions: &Vec<Solution>) -> (ok: bool)
    ensures
        ok == all_solved(puzzles@, solutions@),
{
    if solutions.len() != puzzles.len() {
        return false;
    }
    let mut i: usize = 0;
    while i < puzzles.len()
        invariant
            i <= puzzles@.len(),
            solutions@.len() == puzzles@.len(),
            forall|k: int| 0 <= k < i ==> (#[trigger] puzzles@[k]).solved_by(solutions@[k]),
        decreases puzzles@.len() - i,
    {
        if !puzzles[i].check(&solutions[i]) {
            return false;
        }
        i = i + 1;
    }
    true
}

/// The puzzle of each identity: its own last digest under the shared target.
pub open spec fn puzzles_of(
    signers: Seq<Address>,
    proofs: Seq<ProofRecord>,
    target: [u8; 32],
) -> Seq<Puzzle> {
    Seq::new(
        signers.len(),
        |i: int| Puzzle { previous_hash: proofs[i].hash, identity: signers[i], target },
    )
}

/// The mining cycle of one session.
pub struct Orchestrator {
    miner: Miner,
    config: MineConfig,
    cycle: u64,
    phase: MinePhase,
}

/// What a mining cycle holds.
pub struct OrchestratorView {
    /// The session that mines.
    pub miner: Miner,
    /// How the cycle is run.
    pub config: MineConfig,
    /// The number of the current cycle, counted round the cadence.
    pub cycle: u64,
    /// Where the cycle stands.
    pub phase: MinePhase,
}

impl View for Orchestrator {
    type V = OrchestratorView;

    closed spec fn view(&self) -> OrchestratorView {
        OrchestratorView {
            miner: self.miner,
            config: self.config,
            cycle: self.cycle,
            phase: self.phase,
        }
    }
}

impl Orchestrator {
    #[verifier::type_invariant]
    spec fn consistent(self) -> bool {
        &&& self.config.claim_every == 0 ==> self.cycle == 0
        &&& self.config.claim_every > 0 ==> self.cycle < self.config.claim_every
        &&& match self.phase {
            MinePhase::Claiming { puzzles, .. } => puzzles@.len() == self.miner@.signers.len(),
            MinePhase::Searching { puzzles, .. } => puzzles@.len() == self.miner@.signers.len(),
            MinePhase::SelectingBus { solutions, .. } => solutions@.len()
                == self.miner@.signers.len(),
            MinePhase::Submitting { solutions, .. } => solutions@.len()
                == self.miner@.signers.len(),
            _ => true,
        }
    }

    /// Whether the cycle asks for a search of `puzzles`.
    pub open spec fn asks_search(self, action: MineAction, puzzles: Seq<Puzzle>) -> bool {
        &&& action matches MineAction::Search { puzzles: asked, threads }
        &&& asked@ == puzzles
        &&& threads == self@.config.threads
    }

    /// Registering: on to the first fetch once everyone is registered; a
    /// failure breaks the cycle off.
    pub open spec fn after_registering(
        self,
        event: MineEvent,
        next: Orchestrator,
        action: MineAction,
    ) -> bool {
        match event {
            MineEvent::Registered => next@.phase is Fetching && action is Fetch,
            MineEvent::Failed { error } => {
                next@.phase is Stopped && action == (MineAction::Abort { error })
            },
            _ => next@.phase is Registering && action is Register,
        }
    }

    /// Fetching: with one proof record for each identity, on to the claim
    /// where the cycle's number calls for one, else to the search; either
    /// way the next cycle is counted. A failure breaks the cycle off.
    pub open spec fn after_fetching(
        self,
        event: MineEvent,
        next: Orchestrator,
        action: MineAction,
    ) -> bool {
        let signers = self@.miner@.signers;
        let config = self@.config;
        match event {
            MineEvent::Fetched { treasury, proofs } => if proofs@.len() == signers.len() {
                let puzzles = puzzles_of(signers, proofs@, treasury.difficulty);
                &&& next@.cycle == config.cycle_after(self@.cycle)
                &&& if config.claims_in(self@.cycle) {
                    &&& next@.phase matches MinePhase::Claiming { reward_rate, puzzles: kept }
                    &&& reward_rate == treasury.reward_rate
                    &&& kept@ == puzzles
                    &&& action == (MineAction::Claim { beneficiary: config.beneficiary })
                } else {
                    &&& next@.phase matches MinePhase::Searching { reward_rate, puzzles: kept }
                    &&& reward_rate == treasury.reward_rate
                    &&& kept@ == puzzles
                    &&& self.asks_search(action, puzzles)
                }
            } else {
                next@.cycle == self@.cycle && next@.phase is Fetching && action is Fetch
            },
            MineEvent::Failed { error } => {
                &&& next@.cycle == self@.cycle
                &&& next@.phase is Stopped
                &&& action == (MineAction::Abort { error })
            },
            _ => next@.cycle == self@.cycle && next@.phase is Fetching && action is Fetch,
        }
    }

    /// Claiming: on to the search once the claim is over, however it ended.
    pub open spec fn after_claiming(
        self,
        reward_rate: u64,
        puzzles: Vec<Puzzle>,
        event: MineEvent,
        next: Orchestrator,
        action: MineAction,
    ) -> bool {
        if event is Claimed || event is Failed {
            &&& next@.phase == (MinePhase::Searching { reward_rate, puzzles })
            &&& self.asks_search(action, puzzles@)
        } else {
            &&& next@.phase == self@.phase
            &&& action == (MineAction::Claim { beneficiary: self@.config.beneficiary })
        }
    }

    /// Searching: on to the choice of a shard with solutions of all the
    /// puzzles; anything else is searched again.
    pub open spec fn after_searching(
        self,
        reward_rate: u64,
        puzzles: Vec<Puzzle>,
        event: MineEvent,
        next: Orchestrator,
        action: MineAction,
    ) -> bool {
        if event matches MineEvent::Solved { solutions } && all_solved(puzzles@, solutions@) {
            &&& next@.phase == (MinePhase::SelectingBus {
                reward_rate,
                solutions: event->solutions,
            })
            &&& action == (MineAction::SelectBus { reward_rate })
        } else {
            &&& next@.phase == self@.phase
            &&& self.asks_search(action, puzzles@)
        }
    }

    /// Choosing a shard: on to the submission through a shard of the pool
    /// that is sufficiently funded; for any other, another is asked for.
    pub open spec fn after_selecting(
        self,
        reward_rate: u64,
        solutions: Vec<Solution>,
        event: MineEvent,
        next: Orchestrator,
        action: MineAction,
    ) -> bool {
        if event matches MineEvent::BusSelected { bus } && valid_bus_id(bus.id)
            && sufficiently_funded(bus.rewards, reward_rate) {
            &&& next@.phase == (MinePhase::Submitting { reward_rate, solutions })
            &&& action matches MineAction::Submit { request }
            &&& self@.miner@.builds(
                request,
                Operation::Mine,
                self@.miner@.mines(solutions@, event->bus.id),
                None,
                false,
            )
        } else {
            &&& next@.phase == self@.phase
            &&& action == (MineAction::SelectBus { reward_rate })
        }
    }

    /// Submitting: on to the next cycle once the transaction has landed;
    /// otherwise back to the choice of a shard, with the same solutions.
    pub open spec fn after_submitting(
        self,
        reward_rate: u64,
        solutions: Vec<Solution>,
        event: MineEvent,
        next: Orchestrator,
        action: MineAction,
    ) -> bool {
        if event is Submitted {
            next@.phase is Fetching && action is Fetch
        } else {
            &&& next@.phase == (MinePhase::SelectingBus { reward_rate, solutions })
            &&& action == (MineAction::SelectBus { reward_rate })
        }
    }

    /// Whether, on `event`, the cycle moves from this state to `next` and
    /// asks for `action`.
    pub open spec fn follows(
        self,
        event: MineEvent,
        next: Orchestrator,
        action: MineAction,
    ) -> bool {
        &&& next@.miner == self@.miner
        &&& next@.config == self@.config
        &&& self@.phase is Fetching || next@.cycle == self@.cycle
        &&& match self@.phase {
            MinePhase::Stopped => next@.phase is Stopped && action is Halt,
            MinePhase::Registering => self.after_registering(event, next, action),
            MinePhase::Fetching => self.after_fetching(event, next, action),
            MinePhase::Claiming { reward_rate, puzzles } => {
                self.after_claiming(reward_rate, puzzles, event, next, action)
            },
            MinePhase::Searching { reward_rate, puzzles } => {
                self.after_searching(reward_rate, puzzles, event, next, action)
            },
            MinePhase::SelectingBus { reward_rate, solutions } => {
                self.after_selecting(reward_rate, solutions, event, next, action)
            },
            MinePhase::Submitting { reward_rate, solutions } => {
                self.after_submitting(reward_rate, solutions, event, next, action)
            },
        }
    }
}

/// The puzzle of each identity, from the state just read.
fn make_puzzles(miner: &Miner, treasury: &TreasuryRecord, proofs: &Vec<ProofRecord>) -> (puzzles:
    Vec<Puzzle>)
    requires
        proofs@.len() == miner@.signers.len(),
    ensures
        puzzles@ == puzzles_of(miner@.signers, proofs@, treasury.difficulty),
{
    let signers = miner.signers();
    let mut puzzles: Vec<Puzzle> = Vec::new();
    let mut i: usize = 0;
    while i < signers.len()
        invariant
            i <= signers@.len(),
            proofs@.len() == signers@.len(),
            puzzles@ == puzzles_of(signers@, proofs@, treasury.difficulty).subrange(0, i as int),
        decreases signers@.len() - i,
    {
        puzzles.push(
            Puzzle {
                previous_hash: proofs[i].hash,
                identity: signers[i],
                target: treasury.difficulty,
            },
        );
        i = i + 1;
        assert(puzzles@ =~= puzzles_of(signers@, proofs@, treasury.difficulty).subrange(
            0,
            i as int,
        ));
    }
    assert(puzzles@ =~= puzzles_of(signers@, proofs@, treasury.difficulty));
    puzzles
}

/// A copy of the puzzles.
fn copy_puzzles(puzzles: &Vec<Puzzle>) -> (copy: Vec<Puzzle>)
    ensures
        copy@ == puzzles@,
{
    let mut copy: Vec<Puzzle> = Vec::new();
    let mut i: usize = 0;
    while i < puzzles.len()
        invariant
            i <= puzzles@.len(),
            copy@ == puzzles@.subrange(0, i as int),
        decreases puzzles@.len() - i,
    {
        copy.push(puzzles[i]);
        i = i + 1;
        assert(copy@ =~= puzzles@.subrange(0, i as int));
    }
    assert(puzzles@.subrange(0, i as int) =~= puzzles@);
    copy
}

impl Miner {
    /// Starts the mining cycle of this session. The first thing asked for is
    /// the registration of its identities.
    ///
    /// Where `auto_claim` is set, rewards are claimed before the search of
    /// the first cycle and of every `CLAIM_CADENCE`-th after it, and paid to
    /// `beneficiary`.
    pub fn mine(self, threads: u64, auto_claim: bool, beneficiary: Option<Address>) -> (begun: (
        Orchestrator,
        MineAction,
    ))
        ensures
            begun.0@.miner == self,
            begun.0@.config == (MineConfig {
                threads,
                auto_claim,
                claim_every: CLAIM_CADENCE,
                beneficiary,
            }),
            begun.0@.cycle == 0,
            begun.0@.phase is Registering,
            begun.1 is Register,
    {
        Orchestrator::start(
            self,
            MineConfig { threads, auto_claim, claim_every: CLAIM_CADENCE, beneficiary },
        )
    }
}

impl Orchestrator {
    /// Starts the mining cycle of a session with a cadence of one's own
    /// choice. The first thing asked for is the registration of the
    /// session's identities.
    pub fn start(miner: Miner, config: MineConfig) -> (begun: (Orchestrator, MineAction))
        ensures
            begun.0@.miner == miner,
            begun.0@.config == config,
            begun.0@.cycle == 0,
            begun.0@.phase is Registering,
            begun.1 is Register,
    {
        (
            Orchestrator { miner, config, cycle: 0, phase: MinePhase::Registering },
            MineAction::Register,
        )
    }
}

impl Orchestrator {
    /// The session that mines.
    pub fn session(&self) -> (miner: &Miner)
        ensures
            *miner == self@.miner,
    {
        &self.miner
    }

    /// How the cycle is run.
    pub fn config(&self) -> (config: MineConfig)
        ensures
            config == self@.config,
    {
        self.config
    }

    /// The number of the current cycle, counted round the cadence.
    pub fn cycle(&self) -> (cycle: u64)
        ensures
            cycle == self@.cycle,
    {
        self.cycle
    }

    /// Where the cycle stands.
    pub fn phase(&self) -> (phase: &MinePhase)
        ensures
            *phase == self@.phase,
    {
        &self.phase
    }

    /// Takes what happened to the last action and says what to do next.
    ///
    /// A cycle fetches the state, claims if the cycle's number calls for it,
    /// searches, picks a shard and submits. Solutions are taken only if each
    /// solves its puzzle, and a shard only if it is one of the pool and
    /// sufficiently funded. A submission that fails is made
    /// again through a newly picked shard, with the solutions already found.
    /// A failed registration or a failed read of the state breaks the cycle
    /// off. An event that the phase does not wait for leaves the cycle where
    /// it is and asks for the phase's action again.
    pub fn step(self, event: MineEvent) -> (next: (Orchestrator, MineAction))
        ensures
            self.follows(event, next.0, next.1),
    {
        proof {
            use_type_invariant(&self);
        }
        let Orchestrator { miner, config, cycle, phase } = self;
        match phase {
            MinePhase::Stopped => (
                Orchestrator { miner, config, cycle, phase: MinePhase::Stopped },
                MineAction::Halt,
            ),
            MinePhase::Registering => match event {
                MineEvent::Registered => (
                    Orchestrator { miner, config, cycle, phase: MinePhase::Fetching },
                    MineAction::Fetch,
                ),
                MineEvent::Failed { error } => (
                    Orchestrator { miner, config, cycle, phase: MinePhase::Stopped },
                    MineAction::Abort { error },
                ),
                _ => (
                    Orchestrator { miner, config, cycle, phase: MinePhase::Registering },
                    MineAction::Register,
                ),
            },
            MinePhase::Fetching => match event {
                MineEvent::Fetched { treasury, proofs } => {
                    if proofs.len() != miner.signers().len() {
                        return (
                            Orchestrator { miner, config, cycle, phase: MinePhase::Fetching },
                            MineAction::Fetch,
                        );
                    }
                    let reward_rate = treasury.reward_rate;
                    let puzzles = make_puzzles(&miner, &treasury, &proofs);
                    let claims = config.auto_claim && config.claim_every > 0 && cycle
                        % config.claim_every == 0;
                    let cycle = if config.claim_every == 0 {
                        0
                    } else {
                        (cycle + 1) % config.claim_every
                    };
                    if claims {
                        (
                            Orchestrator {
                                miner,
                                config,
                                cycle,
                                phase: MinePhase::Claiming { reward_rate, puzzles },
                            },
                            MineAction::Claim { beneficiary: config.beneficiary },
                        )
                    } else {
                        let asked = copy_puzzles(&puzzles);
                        (
                            Orchestrator {
                                miner,
                                config,
                                cycle,
                                phase: MinePhase::Searching { reward_rate, puzzles },
                            },
                            MineAction::Search { puzzles: asked, threads: config.threads },
                        )
                    }
                },
                MineEvent::Failed { error } => (
                    Orchestrator { miner, config, cycle, phase: MinePhase::Stopped },
                    MineAction::Abort { error },
                ),
                _ => (
                    Orchestrator { miner, config, cycle, phase: MinePhase::Fetching },
                    MineAction::Fetch,
                ),
            },
            MinePhase::Claiming { reward_rate, puzzles } => match event {
                MineEvent::Claimed | MineEvent::Failed { .. } => {
                    let asked = copy_puzzles(&puzzles);
                    (
                        Orchestrator {
                            miner,
                            config,
                            cycle,
                            phase: MinePhase::Searching { reward_rate, puzzles },
                        },
                        MineAction::Search { puzzles: asked, threads: config.threads },
                    )
                },
                _ => (
                    Orchestrator {
                        miner,
                        config,
                        cycle,
                        phase: MinePhase::Claiming { reward_rate, puzzles },
                    },
                    MineAction::Claim { beneficiary: config.beneficiary },
                ),
            },
            MinePhase::Searching { reward_rate, puzzles } => {
                match event {
                    MineEvent::Solved { solutions } if check_solutions(&puzzles, &solutions) => (
                        Orchestrator {
                            miner,
                            config,
                            cycle,
                            phase: MinePhase::SelectingBus { reward_rate, solutions },
                        },
                        MineAction::SelectBus { reward_rate },
                    ),
                    _ => {
                        let asked = copy_puzzles(&puzzles);
                        (
                            Orchestrator {
                                miner,
                                config,
                                cycle,
                                phase: MinePhase::Searching { reward_rate, puzzles },
                            },
                            MineAction::Search { puzzles: asked, threads: config.threads },
                        )
                    },
                }
            },
            MinePhase::SelectingBus { reward_rate, solutions } => match event {
                MineEvent::BusSelected { bus } if bus.id < BUS_COUNT && is_sufficiently_funded(
                    bus.rewards,
                    reward_rate,
                ) => {
                    let request = miner.mine_request(&solutions, bus.id);
                    (
                        Orchestrator {
                            miner,
                            config,
                            cycle,
                            phase: MinePhase::Submitting { reward_rate, solutions },
                        },
                        MineAction::Submit { request },
                    )
                },
                _ => (
                    Orchestrator {
                        miner,
                        config,
                        cycle,
                        phase: MinePhase::SelectingBus { reward_rate, solutions },
                    },
                    MineAction::SelectBus { reward_rate },
                ),
            },
            MinePhase::Submitting { reward_rate, solutions } => match event {
                MineEvent::Submitted => (
                    Orchestrator { miner, config, cycle, phase: MinePhase::Fetching },
                    MineAction::Fetch,
                ),
                _ => (
                    Orchestrator {
                        miner,
                        config,
                        cycle,
                        phase: MinePhase::SelectingBus { reward_rate, solutions },
                    },
                    MineAction::SelectBus { reward_rate },
                ),
            },
        }
    }
}

} // verus!
