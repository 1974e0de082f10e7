//! Delivery of a transaction signed against a recent block, for what cannot
//! use the payer's durable nonce: the creation of that nonce's account.
//!
//! The engine is a state machine with a bounded number of attempts. Each
//! attempt signs against a fresh block, broadcasts several times and polls
//! for a confirmation a few times.

use crate::error::MinerError;
use crate::instruction::Instruction;
use crate::miner::Miner;
use crate::nonce::nonce_address_of;
use vstd::prelude::*;

verus! {

/// Attempts after the first before the engine gives up.
pub const GATEWAY_RETRIES: u64 = 4;

/// Polls for a confirmation in one attempt.
pub const CONFIRM_RETRIES: u64 = 5;

/// Broadcasts that follow the first of an attempt.
pub const LOOP_SEND_COUNT: u64 = 10;

/// Milliseconds before each of the broadcasts that follow the first.
pub const LOOP_SEND_DELAY_MS: u64 = 400;

/// Milliseconds before each poll for a confirmation.
pub const CONFIRM_DELAY_MS: u64 = 2_000;

/// Milliseconds before a new attempt.
pub const RETRY_DELAY_MS: u64 = 200;

/// How far the network has come with a transaction.
#[derive(Clone, Copy, Debug, PartialEq, Eq)]
pub enum Commitment {
    Processed,
    Confirmed,
    Finalized,
}

impl Commitment {
    /// Whether the commitment is `Confirmed` at least.
    pub open spec fn spec_is_confirmed(&self) -> bool {
        self is Confirmed || self is Finalized
    }

    /// Whether the commitment is `Confirmed` at least.
    pub fn is_confirmed(&self) -> (confirmed: bool)
        ensures
            confirmed == self.spec_is_confirmed(),
    {
        match self {
            Commitment::Processed => false,
            Commitment::Confirmed => true,
            Commitment::Finalized => true,
        }
    }
}

/// Whether a signature's status is `Confirmed` at least. A signature without
/// a status has `None`.
pub open spec fn confirms(status: Option<Commitment>) -> bool {
    status matches Some(c) && c.spec_is_confirmed()
}

/// Whether one of the statuses is `Confirmed` at least.
pub open spec fn any_confirmed(statuses: Seq<Option<Commitment>>) -> bool {
    exists|i: int| 0 <= i < statuses.len() && confirms(#[trigger] statuses[i])
}

/// Looks for a status that is `Confirmed` at least.
pub fn has_confirmed(statuses: &Vec<Option<Commitment>>) -> (found: bool)
    ensures
        found == any_confirmed(statuses@),
{
    let mut i: usize = 0;
    while i < statuses.len()
        invariant
            i <= statuses@.len(),
            forall|k: int| 0 <= k < i ==> !confirms(#[trigger] statuses@[k]),
        decreases statuses@.len() - i,
    {
        match &statuses[i] {
            Some(c) => {
                if c.is_confirmed() {
                    return true;
                }
            },
            None => {},
        }
        i = i + 1;
    }
    false
}

/// Where a bootstrap delivery stands. `attempt` counts the attempts before
/// the current one.
#[derive(Clone, Copy, Debug, PartialEq, Eq)]
pub enum BootstrapPhase {
    /// The payer's balance is being read.
    CheckingBalance,
    /// A recent block is being fetched and the transaction signed against it.
    Signing { attempt: u64 },
    /// The attempt's first broadcast is under way.
    Sending { attempt: u64 },
    /// The attempt's further broadcasts are under way; `left` of them remain,
    /// the one under way included. `accepted` tells whether the endpoint
    /// took the first.
    Resending { attempt: u64, accepted: bool, left: u64 },
    /// The confirmation is being polled for; `left` polls remain, the one
    /// under way included.
    Confirming { attempt: u64, left: u64 },
    /// The delivery has ended.
    Finished,
}

/// A bootstrap delivery under way.
#[derive(Clone, Copy, Debug, PartialEq, Eq)]
pub struct Bootstrap {
    /// Whether an accepted broadcast is success enough.
    pub skip_confirm: bool,
    pub phase: BootstrapPhase,
}

/// What happened to the last action.
#[derive(Clone, Debug, PartialEq, Eq)]
pub enum BootstrapEvent {
    /// The payer's balance was read.
    Balance { lamports: u64 },
    /// The transaction was signed against a fresh block.
    Signed,
    /// A broadcast was made; `accepted` tells whether the endpoint took it.
    Sent { accepted: bool },
    /// The statuses of the signatures broadcast so far were polled.
    Statuses { statuses: Vec<Option<Commitment>> },
    /// The request failed.
    Failed,
}

/// What the driver is to do next.
#[derive(Clone, Debug, PartialEq, Eq)]
pub enum BootstrapAction {
    /// Read the payer's balance.
    ReadBalance,
    /// Fetch a recent block and sign the transaction against it.
    Sign,
    /// Wait, then fetch a recent block and sign the transaction against it.
    SignAfter { millis: u64 },
    /// Broadcast the transaction.
    Send,
    /// Wait, then broadcast the transaction.
    SendAfter { millis: u64 },
    /// Wait, then poll the statuses of the signatures broadcast so far.
    PollAfter { millis: u64 },
    /// Stop: the transaction has landed.
    Landed,
    /// Stop: the delivery failed.
    Failed(MinerError),
    /// Nothing: the delivery ended before.
    Halt,
}

impl BootstrapEvent {
    /// Whether the event reports a status that is `Confirmed` at least.
    pub open spec fn confirms(&self) -> bool {
        self matches BootstrapEvent::Statuses { statuses } && any_confirmed(statuses@)
    }
}

impl Bootstrap {
    /// This delivery, moved to `phase`.
    pub open spec fn at(self, phase: BootstrapPhase) -> Bootstrap {
        Bootstrap { skip_confirm: self.skip_confirm, phase }
    }

    /// What follows a failed attempt: a new attempt after a pause, or the
    /// end where the last attempt has been made.
    pub open spec fn spec_retry(self, attempt: u64) -> (Bootstrap, BootstrapAction) {
        if attempt >= GATEWAY_RETRIES {
            (
                self.at(BootstrapPhase::Finished),
                BootstrapAction::Failed(MinerError::MaxRetriesExceeded),
            )
        } else {
            (
                self.at(BootstrapPhase::Signing { attempt: (attempt + 1) as u64 }),
                BootstrapAction::SignAfter { millis: RETRY_DELAY_MS },
            )
        }
    }

    /// What follows the last broadcast of an attempt.
    pub open spec fn spec_after_broadcasts(self, attempt: u64, accepted: bool) -> (
        Bootstrap,
        BootstrapAction,
    ) {
        if !accepted {
            self.spec_retry(attempt)
        } else if self.skip_confirm {
            (self.at(BootstrapPhase::Finished), BootstrapAction::Landed)
        } else {
            (
                self.at(BootstrapPhase::Confirming { attempt, left: CONFIRM_RETRIES }),
                BootstrapAction::PollAfter { millis: CONFIRM_DELAY_MS },
            )
        }
    }

    /// What a delivery in this state makes of `event`: the state it moves to
    /// and the action it asks for.
    pub open spec fn spec_step(self, event: BootstrapEvent) -> (Bootstrap, BootstrapAction) {
        match self.phase {
            BootstrapPhase::Finished => (self, BootstrapAction::Halt),
            BootstrapPhase::CheckingBalance => match event {
                BootstrapEvent::Balance { lamports } => if lamports == 0 {
                    (
                        self.at(BootstrapPhase::Finished),
                        BootstrapAction::Failed(MinerError::InsufficientBalance),
                    )
                } else {
                    (self.at(BootstrapPhase::Signing { attempt: 0 }), BootstrapAction::Sign)
                },
                _ => (
                    self.at(BootstrapPhase::Finished),
                    BootstrapAction::Failed(MinerError::RpcTransient),
                ),
            },
            BootstrapPhase::Signing { attempt } => match event {
                BootstrapEvent::Signed => (
                    self.at(BootstrapPhase::Sending { attempt }),
                    BootstrapAction::Send,
                ),
                _ => (
                    self.at(BootstrapPhase::Finished),
                    BootstrapAction::Failed(MinerError::RpcTransient),
                ),
            },
            BootstrapPhase::Sending { attempt } => (
                self.at(
                    BootstrapPhase::Resending {
                        attempt,
                        accepted: event == (BootstrapEvent::Sent { accepted: true }),
                        left: LOOP_SEND_COUNT,
                    },
                ),
                BootstrapAction::SendAfter { millis: LOOP_SEND_DELAY_MS },
            ),
            BootstrapPhase::Resending { attempt, accepted, left } => if left > 1 {
                (
                    self.at(
                        BootstrapPhase::Resending { attempt, accepted, left: (left - 1) as u64 },
                    ),
                    BootstrapAction::SendAfter { millis: LOOP_SEND_DELAY_MS },
                )
            } else {
                self.spec_after_broadcasts(attempt, accepted)
            },
            BootstrapPhase::Confirming { attempt, left } => if event.confirms() {
                (self.at(BootstrapPhase::Finished), BootstrapAction::Landed)
            } else if left > 1 {
                (
                    self.at(BootstrapPhase::Confirming { attempt, left: (left - 1) as u64 }),
                    BootstrapAction::PollAfter { millis: CONFIRM_DELAY_MS },
                )
            } else {
                self.spec_retry(attempt)
            },
        }
    }

    /// A delivery that has yet to begin, and the action that begins it.
    pub fn start(skip_confirm: bool) -> (begun: (Bootstrap, BootstrapAction))
        ensures
            begun.0 == (Bootstrap { skip_confirm, phase: BootstrapPhase::CheckingBalance }),
            begun.1 == BootstrapAction::ReadBalance,
    {
        (
            Bootstrap { skip_confirm, phase: BootstrapPhase::CheckingBalance },
            BootstrapAction::ReadBalance,
        )
    }

    fn retry(self, attempt: u64) -> (next: (Bootstrap, BootstrapAction))
        ensures
            next == self.spec_retry(attempt),
    {
        if attempt >= GATEWAY_RETRIES {
            (
                Bootstrap { skip_confirm: self.skip_confirm, phase: BootstrapPhase::Finished },
                BootstrapAction::Failed(MinerError::MaxRetriesExceeded),
            )
        } else {
            (
                Bootstrap {
                    skip_confirm: self.skip_confirm,
                    phase: BootstrapPhase::Signing { attempt: attempt + 1 },
                },
                BootstrapAction::SignAfter { millis: RETRY_DELAY_MS },
            )
        }
    }

    fn after_broadcasts(self, attempt: u64, accepted: bool) -> (next: (
        Bootstrap,
        BootstrapAction,
    ))
        ensures
            next == self.spec_after_broadcasts(attempt, accepted),
    {
        if !accepted {
            self.retry(attempt)
        } else if self.skip_confirm {
            (
                Bootstrap { skip_confirm: self.skip_confirm, phase: BootstrapPhase::Finished },
                BootstrapAction::Landed,
            )
        } else {
            (
                Bootstrap {
                    skip_confirm: self.skip_confirm,
                    phase: BootstrapPhase::Confirming { attempt, left: CONFIRM_RETRIES },
                },
                BootstrapAction::PollAfter { millis: CONFIRM_DELAY_MS },
            )
        }
    }

    /// Takes what happened to the last action and says what to do next.
    ///
    /// A balance of zero ends the delivery with `InsufficientBalance`. A
    /// balance or a block that cannot be read ends it with `RpcTransient`.
    /// A broadcast that fails counts as one that the endpoint did not take,
    /// a poll that fails as one that found nothing.
    pub fn step(self, event: BootstrapEvent) -> (next: (Bootstrap, BootstrapAction))
        ensures
            next == self.spec_step(event),
    {
        let skip_confirm = self.skip_confirm;
        match self.phase {
            BootstrapPhase::Finished => (self, BootstrapAction::Halt),
            BootstrapPhase::CheckingBalance => match event {
                BootstrapEvent::Balance { lamports } => {
                    if lamports == 0 {
                        (
                            Bootstrap { skip_confirm, phase: BootstrapPhase::Finished },
                            BootstrapAction::Failed(MinerError::InsufficientBalance),
                        )
                    } else {
                        let phase = BootstrapPhase::Signing { attempt: 0 };
                        (Bootstrap { skip_confirm, phase }, BootstrapAction::Sign)
                    }
                },
                _ => (
                    Bootstrap { skip_confirm, phase: BootstrapPhase::Finished },
                    BootstrapAction::Failed(MinerError::RpcTransient),
                ),
            },
            BootstrapPhase::Signing { attempt } => match event {
                BootstrapEvent::Signed => (
                    Bootstrap { skip_confirm, phase: BootstrapPhase::Sending { attempt } },
                    BootstrapAction::Send,
                ),
                _ => (
                    Bootstrap { skip_confirm, phase: BootstrapPhase::Finished },
                    BootstrapAction::Failed(MinerError::RpcTransient),
                ),
            },
            BootstrapPhase::Sending { attempt } => {
                let accepted = match event {
                    BootstrapEvent::Sent { accepted } => accepted,
                    _ => false,
                };
                let left = LOOP_SEND_COUNT;
                (
                    Bootstrap {
                        skip_confirm,
                        phase: BootstrapPhase::Resending { attempt, accepted, left },
                    },
                    BootstrapAction::SendAfter { millis: LOOP_SEND_DELAY_MS },
                )
            },
            BootstrapPhase::Resending { attempt, accepted, left } => {
                if left > 1 {
                    (
                        Bootstrap {
                            skip_confirm,
                            phase: BootstrapPhase::Resending { attempt, accepted, left: left - 1 },
                        },
                        BootstrapAction::SendAfter { millis: LOOP_SEND_DELAY_MS },
                    )
                } else {
                    self.after_broadcasts(attempt, accepted)
                }
            },
            BootstrapPhase::Confirming { attempt, left } => {
                let confirmed = match &event {
                    BootstrapEvent::Statuses { statuses } => has_confirmed(statuses),
                    _ => false,
                };
                if confirmed {
                    (
                        Bootstrap { skip_confirm, phase: BootstrapPhase::Finished },
                        BootstrapAction::Landed,
                    )
                } else if left > 1 {
                    (
                        Bootstrap {
                            skip_confirm,
                            phase: BootstrapPhase::Confirming { attempt, left: left - 1 },
                        },
                        BootstrapAction::PollAfter { millis: CONFIRM_DELAY_MS },
                    )
                } else {
                    self.retry(attempt)
                }
            },
        }
    }
}

/// Attempts that may follow attempt number `attempt`.
pub open spec fn attempts_after(attempt: u64) -> int {
    if attempt >= GATEWAY_RETRIES {
        0
    } else {
        GATEWAY_RETRIES - attempt
    }
}

/// Most steps that one attempt takes: signing, the first broadcast, the
/// further broadcasts and the polls.
pub open spec fn steps_per_attempt() -> int {
    2 + LOOP_SEND_COUNT + CONFIRM_RETRIES
}

impl BootstrapPhase {
    /// A bound on the steps that a delivery in this phase still takes.
    pub open spec fn steps_left(&self) -> int {
        match self {
            BootstrapPhase::Finished => 0,
            BootstrapPhase::CheckingBalance => 1 + (GATEWAY_RETRIES + 1) * steps_per_attempt(),
            BootstrapPhase::Signing { attempt } => (attempts_after(*attempt) + 1)
                * steps_per_attempt(),
            BootstrapPhase::Sending { attempt } => (attempts_after(*attempt) + 1)
                * steps_per_attempt() - 1,
            BootstrapPhase::Resending { attempt, left, .. } => attempts_after(*attempt)
                * steps_per_attempt() + CONFIRM_RETRIES + if *left > 1 {
                *left as int
            } else {
                1
            },
            BootstrapPhase::Confirming { attempt, left } => attempts_after(*attempt)
                * steps_per_attempt() + if *left > 1 {
                *left as int
            } else {
                1
            },
        }
    }
}

impl Bootstrap {
    /// The state of a delivery after the events arrived in order.
    pub open spec fn after(self, events: Seq<BootstrapEvent>) -> Bootstrap
        decreases events.len(),
    {
        if events.len() == 0 {
            self
        } else {
            self.spec_step(events[0]).0.after(events.drop_first())
        }
    }

    /// Every step of a delivery that has not ended brings it nearer to its
    /// end, whatever happened to the last action.
    pub proof fn lemma_step_makes_progress(self, event: BootstrapEvent)
        requires
            !(self.phase is Finished),
        ensures
            0 <= self.spec_step(event).0.phase.steps_left() < self.phase.steps_left(),
    {
        let next = self.spec_step(event).0;
        match self.phase {
            BootstrapPhase::Signing { attempt } => {
                assert(0 <= attempts_after(attempt) * steps_per_attempt()) by (nonlinear_arith)
                    requires
                        0 <= attempts_after(attempt),
                        steps_per_attempt() == 17,
                ;
            },
            BootstrapPhase::Sending { attempt } => {
                assert(0 <= attempts_after(attempt) * steps_per_attempt()) by (nonlinear_arith)
                    requires
                        0 <= attempts_after(attempt),
                        steps_per_attempt() == 17,
                ;
            },
            BootstrapPhase::Resending { attempt, accepted, left } => {
                assert(0 <= attempts_after(attempt) * steps_per_attempt()) by (nonlinear_arith)
                    requires
                        0 <= attempts_after(attempt),
                        steps_per_attempt() == 17,
                ;
                if attempt < GATEWAY_RETRIES {
                    assert(attempts_after((attempt + 1) as u64) + 1 == attempts_after(attempt));
                }
            },
            BootstrapPhase::Confirming { attempt, left } => {
                assert(0 <= attempts_after(attempt) * steps_per_attempt()) by (nonlinear_arith)
                    requires
                        0 <= attempts_after(attempt),
                        steps_per_attempt() == 17,
                ;
                if attempt < GATEWAY_RETRIES {
                    assert(attempts_after((attempt + 1) as u64) + 1 == attempts_after(attempt));
                }
            },
            _ => {},
        }
    }

    /// A delivery ends within the bound of its phase: after that many
    /// events, whatever they are, it has finished.
    pub proof fn lemma_delivery_ends(self, events: Seq<BootstrapEvent>)
        requires
            events.len() >= self.phase.steps_left(),
        ensures
            self.after(events).phase is Finished,
        decreases events.len(),
    {
        if self.phase is Finished {
            self.lemma_finished_stays(events);
        } else {
            self.lemma_step_makes_progress(events[0]);
            self.spec_step(events[0]).0.lemma_delivery_ends(events.drop_first());
        }
    }

    /// A delivery that has ended stays ended.
    pub proof fn lemma_finished_stays(self, events: Seq<BootstrapEvent>)
        requires
            self.phase is Finished,
        ensures
            self.after(events) == self,
        decreases events.len(),
    {
        if events.len() > 0 {
            self.lemma_finished_stays(events.drop_first());
        }
    }
}

impl Miner {
    /// Begins the creation of the payer's nonce account, funded with
    /// `lamports`: the one instruction that creates it, and the delivery that
    /// carries it. The transaction cannot consume the nonce that it creates,
    /// so it is signed against a recent block, and it counts as landed only
    /// once it is confirmed.
    pub fn create_nonce_account(&self, lamports: u64) -> (begun: (
        Vec<Instruction>,
        Bootstrap,
        BootstrapAction,
    ))
        ensures
            begun.0@.len() == 1,
            begun.0@[0] matches Instruction::CreateNonceAccount {
                payer,
                nonce_account,
                lamports: funded,
            } && payer == self@.payer() && nonce_account@ == nonce_address_of(self@.payer()@)
                && funded == lamports,
            begun.1 == (Bootstrap { skip_confirm: false, phase: BootstrapPhase::CheckingBalance }),
            begun.2 == BootstrapAction::ReadBalance,
    {
        let payer = self.payer();
        let nonce_account = self.nonce_address();
        let mut instructions: Vec<Instruction> = Vec::new();
        instructions.push(Instruction::CreateNonceAccount { payer, nonce_account, lamports });
        let (delivery, first) = self.send_and_confirm(false);
        (instructions, delivery, first)
    }

    /// Begins the delivery of a transaction of this session that is signed
    /// against a recent block and by the payer alone. With `skip_confirm`,
    /// a broadcast that the endpoint took is success enough.
    pub fn send_and_confirm(&self, skip_confirm: bool) -> (begun: (Bootstrap, BootstrapAction))
        ensures
            begun.0 == (Bootstrap { skip_confirm, phase: BootstrapPhase::CheckingBalance }),
            begun.1 == BootstrapAction::ReadBalance,
    {
        Bootstrap::start(skip_confirm)
    }
}

} // verus!
