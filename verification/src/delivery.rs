//! Delivery of a transaction signed against the payer's durable nonce.
//!
//! The engine is a state machine. Whoever drives it performs the action it
//! asks for and hands back what happened; the engine decides what comes next.
//! It asks for a simulation before anything is submitted, and a transaction
//! whose simulation failed is never submitted.

use crate::error::MinerError;
use crate::miner::{Miner, Strategy, SubmissionRequest};
use crate::relay::{
    classify_rejection, is_leader_close, leader_is_close, rejection_of, Rejection,
};
use vstd::prelude::*;
use vstd::string::*;
use vstd::utf8::encode_utf8;

verus! {

/// Milliseconds between a broadcast and the poll for its signature.
pub const POLL_DELAY_MS: u64 = 400;

/// Milliseconds between two questions for the relay's next leader slot.
pub const LEADER_WAIT_MS: u64 = 500;

/// Where a delivery stands.
#[derive(Clone, Copy, Debug, PartialEq, Eq)]
pub enum Phase {
    /// The nonce is being read and the transaction signed against it.
    Signing,
    /// The signed transaction is being simulated.
    Simulating,
    /// The transaction is being broadcast.
    Sending,
    /// The signature's status is being polled.
    Polling,
    /// The relay's stream of bundle results is being subscribed to.
    Subscribing,
    /// The relay is being asked for its next leader slot.
    AwaitingLeader,
    /// The bundle is with the relay.
    Bundling,
    /// The delivery has ended.
    Finished,
}

/// A delivery under way.
#[derive(Clone, Copy, Debug, PartialEq, Eq)]
pub struct Delivery {
    pub strategy: Strategy,
    pub phase: Phase,
}

/// What happened to the last action.
#[derive(Clone, Debug, PartialEq, Eq)]
pub enum Event {
    /// The transaction was signed against the nonce's current value.
    Signed,
    /// The simulation came back, with the error it reported, if any, and its
    /// logs.
    Simulated { error: Option<String>, logs: Vec<String> },
    /// The transaction was handed to the endpoint.
    Sent,
    /// The signature's status was polled; `observed` tells whether the
    /// endpoint knows any status of it.
    Polled { observed: bool },
    /// The subscription to the relay's bundle results stands.
    Subscribed,
    /// The relay named its next leader slot.
    Leader { current_slot: u64, next_leader_slot: u64 },
    /// The relay reported the bundle as landed.
    BundleLanded,
    /// The relay failed or turned the bundle down, with its message.
    RelayError { reason: String },
    /// A request to the network endpoint failed.
    RpcFailed,
}

/// What the driver is to do next.
#[derive(Clone, Debug, PartialEq, Eq)]
pub enum Action {
    /// Read the nonce and sign the transaction against it.
    Sign,
    /// Simulate the signed transaction.
    Simulate,
    /// Broadcast the transaction, with the endpoint's own checks switched off.
    Send,
    /// Wait, then poll the signature's status.
    PollAfter { millis: u64 },
    /// Subscribe to the relay's bundle results.
    Subscribe,
    /// Ask the relay for its next leader slot.
    QueryLeader,
    /// Wait, then ask the relay for its next leader slot.
    QueryLeaderAfter { millis: u64 },
    /// Send the transaction to the relay as a bundle of one.
    SendBundle,
    /// Stop: the transaction has landed.
    Landed,
    /// Stop: the delivery failed.
    Failed(MinerError),
    /// Nothing: the delivery ended before.
    Halt,
}

impl Action {
    /// Whether the action hands the transaction to the network or the relay.
    pub open spec fn submits(&self) -> bool {
        self is Send || self is SendBundle
    }
}

impl Phase {
    /// The action that a phase waits on.
    pub open spec fn spec_pending(&self) -> Action {
        match self {
            Phase::Signing => Action::Sign,
            Phase::Simulating => Action::Simulate,
            Phase::Sending => Action::Send,
            Phase::Polling => Action::PollAfter { millis: POLL_DELAY_MS },
            Phase::Subscribing => Action::Subscribe,
            Phase::AwaitingLeader => Action::QueryLeader,
            Phase::Bundling => Action::SendBundle,
            Phase::Finished => Action::Halt,
        }
    }

    /// The action that a phase waits on.
    pub fn pending(&self) -> (action: Action)
        ensures
            action == self.spec_pending(),
    {
        match self {
            Phase::Signing => Action::Sign,
            Phase::Simulating => Action::Simulate,
            Phase::Sending => Action::Send,
            Phase::Polling => Action::PollAfter { millis: POLL_DELAY_MS },
            Phase::Subscribing => Action::Subscribe,
            Phase::AwaitingLeader => Action::QueryLeader,
            Phase::Bundling => Action::SendBundle,
            Phase::Finished => Action::Halt,
        }
    }

    /// Whether the transaction has passed its simulation.
    pub open spec fn cleared(&self) -> bool {
        !(self is Signing || self is Simulating)
    }
}

impl Delivery {
    /// This delivery, moved to `phase`.
    pub open spec fn at(self, phase: Phase) -> Delivery {
        Delivery { strategy: self.strategy, phase }
    }

    /// A delivery that has yet to begin, and the action that begins it.
    pub fn start(strategy: Strategy) -> (begun: (Delivery, Action))
        ensures
            begun.0 == (Delivery { strategy, phase: Phase::Signing }),
            begun.1 == Action::Sign,
    {
        (Delivery { strategy, phase: Phase::Signing }, Action::Sign)
    }

    /// What a delivery in this state makes of `event`: the state it moves to
    /// and the action it asks for.
    pub open spec fn spec_step(self, event: Event) -> (Delivery, Action) {
        match (self.phase, event) {
            (Phase::Finished, _) => (self, Action::Halt),
            (Phase::Signing, Event::Signed) => (self.at(Phase::Simulating), Action::Simulate),
            (Phase::Simulating, Event::Simulated { error: Some(error), logs }) => (
                self.at(Phase::Finished),
                Action::Failed(MinerError::SimulationFailed { error, logs }),
            ),
            (Phase::Simulating, Event::Simulated { error: None, .. }) => match self.strategy {
                Strategy::DirectPoll => (self.at(Phase::Sending), Action::Send),
                Strategy::BundleRelay => (self.at(Phase::Subscribing), Action::Subscribe),
            },
            (Phase::Sending, Event::Sent) => (
                self.at(Phase::Polling),
                Action::PollAfter { millis: POLL_DELAY_MS },
            ),
            (Phase::Polling, Event::Polled { observed }) => if observed {
                (self.at(Phase::Finished), Action::Landed)
            } else {
                (self.at(Phase::Sending), Action::Send)
            },
            (Phase::Subscribing, Event::Subscribed) => (
                self.at(Phase::AwaitingLeader),
                Action::QueryLeader,
            ),
            (Phase::AwaitingLeader, Event::Leader { current_slot, next_leader_slot }) => {
                if leader_is_close(current_slot, next_leader_slot) {
                    (self.at(Phase::Bundling), Action::SendBundle)
                } else {
                    (self, Action::QueryLeaderAfter { millis: LEADER_WAIT_MS })
                }
            },
            (Phase::Bundling, Event::BundleLanded) => (self.at(Phase::Finished), Action::Landed),
            (Phase::Bundling, Event::RelayError { reason }) => match rejection_of(
                encode_utf8(reason@),
            ) {
                Rejection::AlreadyLanded => (self.at(Phase::Finished), Action::Landed),
                Rejection::StatusTimeout => (self.at(Phase::AwaitingLeader), Action::QueryLeader),
                Rejection::Fatal => (
                    self.at(Phase::Finished),
                    Action::Failed(MinerError::RelayFatal { reason }),
                ),
            },
            (Phase::Subscribing, Event::RelayError { reason }) => (
                self.at(Phase::Finished),
                Action::Failed(MinerError::RelayFatal { reason }),
            ),
            (Phase::AwaitingLeader, Event::RelayError { reason }) => (
                self.at(Phase::Finished),
                Action::Failed(MinerError::RelayFatal { reason }),
            ),
            (phase, _) => (self, phase.spec_pending()),
        }
    }
}

impl Delivery {
    /// Takes what happened to the last action and says what to do next.
    ///
    /// An event that the phase does not wait for, a failed request among
    /// them, leaves the delivery where it is and asks for the phase's action
    /// again.
    pub fn step(self, event: Event) -> (next: (Delivery, Action))
        ensures
            next == self.spec_step(event),
    {
        let strategy = self.strategy;
        match (self.phase, event) {
            (Phase::Finished, _) => (self, Action::Halt),
            (Phase::Signing, Event::Signed) => (
                Delivery { strategy, phase: Phase::Simulating },
                Action::Simulate,
            ),
            (Phase::Simulating, Event::Simulated { error: Some(error), logs }) => (
                Delivery { strategy, phase: Phase::Finished },
                Action::Failed(MinerError::SimulationFailed { error, logs }),
            ),
            (Phase::Simulating, Event::Simulated { error: None, .. }) => match strategy {
                Strategy::DirectPoll => (
                    Delivery { strategy, phase: Phase::Sending },
                    Action::Send,
                ),
                Strategy::BundleRelay => (
                    Delivery { strategy, phase: Phase::Subscribing },
                    Action::Subscribe,
                ),
            },
            (Phase::Sending, Event::Sent) => (
                Delivery { strategy, phase: Phase::Polling },
                Action::PollAfter { millis: POLL_DELAY_MS },
            ),
            (Phase::Polling, Event::Polled { observed }) => {
                if observed {
                    (Delivery { strategy, phase: Phase::Finished }, Action::Landed)
                } else {
                    (Delivery { strategy, phase: Phase::Sending }, Action::Send)
                }
            },
            (Phase::Subscribing, Event::Subscribed) => (
                Delivery { strategy, phase: Phase::AwaitingLeader },
                Action::QueryLeader,
            ),
            (Phase::AwaitingLeader, Event::Leader { current_slot, next_leader_slot }) => {
                if is_leader_close(current_slot, next_leader_slot) {
                    (Delivery { strategy, phase: Phase::Bundling }, Action::SendBundle)
                } else {
                    (self, Action::QueryLeaderAfter { millis: LEADER_WAIT_MS })
                }
            },
            (Phase::Bundling, Event::BundleLanded) => (
                Delivery { strategy, phase: Phase::Finished },
                Action::Landed,
            ),
            (Phase::Bundling, Event::RelayError { reason }) => {
                match classify_rejection(reason.as_str()) {
                    Rejection::AlreadyLanded => (
                        Delivery { strategy, phase: Phase::Finished },
                        Action::Landed,
                    ),
                    Rejection::StatusTimeout => (
                        Delivery { strategy, phase: Phase::AwaitingLeader },
                        Action::QueryLeader,
                    ),
                    Rejection::Fatal => (
                        Delivery { strategy, phase: Phase::Finished },
                        Action::Failed(MinerError::RelayFatal { reason }),
                    ),
                }
            },
            (Phase::Subscribing, Event::RelayError { reason }) => (
                Delivery { strategy, phase: Phase::Finished },
                Action::Failed(MinerError::RelayFatal { reason }),
            ),
            (Phase::AwaitingLeader, Event::RelayError { reason }) => (
                Delivery { strategy, phase: Phase::Finished },
                Action::Failed(MinerError::RelayFatal { reason }),
            ),
            (phase, _) => (self, phase.pending()),
        }
    }
}

impl Event {
    /// Whether the event reports a simulation that found no error.
    pub open spec fn clean_simulation(&self) -> bool {
        self matches Event::Simulated { error: None, .. }
    }
}

impl Delivery {
    /// The actions that a delivery asks for, one after another, as the
    /// events arrive in order.
    pub open spec fn actions(self, events: Seq<Event>) -> Seq<Action>
        decreases events.len(),
    {
        if events.len() == 0 {
            seq![]
        } else {
            let (next, action) = self.spec_step(events[0]);
            seq![action] + next.actions(events.drop_first())
        }
    }

    /// One action is asked for per event.
    pub proof fn lemma_actions_len(self, events: Seq<Event>)
        ensures
            self.actions(events).len() == events.len(),
        decreases events.len(),
    {
        if events.len() > 0 {
            self.spec_step(events[0]).0.lemma_actions_len(events.drop_first());
        }
    }

    /// A delivery whose transaction has not passed its simulation submits
    /// nothing as long as no simulation comes back clean: whatever else
    /// happens, and in whatever order, the transaction is handed neither to
    /// the network nor to the relay. A simulation that reports an error ends
    /// the delivery.
    pub proof fn lemma_no_submission_without_clean_simulation(self, events: Seq<Event>)
        requires
            !self.phase.cleared(),
            forall|j: int| 0 <= j < events.len() ==> !events[j].clean_simulation(),
        ensures
            forall|k: int|
                0 <= k < self.actions(events).len() ==> !(#[trigger] self.actions(
                    events,
                )[k]).submits(),
        decreases events.len(),
    {
        if events.len() > 0 {
            let (next, action) = self.spec_step(events[0]);
            let rest = events.drop_first();
            assert(!events[0].clean_simulation());
            assert(!action.submits());
            assert forall|j: int| 0 <= j < rest.len() implies !rest[j].clean_simulation() by {
                assert(rest[j] == events[j + 1]);
            }
            if next.phase is Finished {
                next.lemma_finished_halts(rest);
            } else {
                next.lemma_no_submission_without_clean_simulation(rest);
            }
            assert forall|k: int| 0 <= k < self.actions(events).len() implies !(
            #[trigger] self.actions(events)[k]).submits() by {
                if k > 0 {
                    assert(self.actions(events)[k] == next.actions(rest)[k - 1]);
                }
            }
        }
    }

    /// What a delivery makes of a rejected bundle follows the policy for the
    /// fault that the rejection amounts to: no fault, and the transaction
    /// counts as landed; a fault to retry, and the relay is asked for its
    /// next leader slot again; any other, and the delivery fails with it.
    pub proof fn lemma_rejection_follows_policy(self, reason: String)
        requires
            self.phase is Bundling,
        ensures
            ({
                let (next, action) = self.spec_step(Event::RelayError { reason });
                match rejection_of(encode_utf8(reason@)).spec_fault(reason) {
                    None => next.phase is Finished && action is Landed,
                    Some(fault) => if fault.spec_disposition() is Retry {
                        next.phase is AwaitingLeader && action is QueryLeader
                    } else {
                        next.phase is Finished && action == Action::Failed(fault)
                    },
                }
            }),
    {
    }

    /// A delivery that has ended stays ended and asks for nothing more.
    pub proof fn lemma_finished_halts(self, events: Seq<Event>)
        requires
            self.phase is Finished,
        ensures
            forall|k: int|
                0 <= k < self.actions(events).len() ==> (#[trigger] self.actions(events)[k])
                    == Action::Halt,
        decreases events.len(),
    {
        if events.len() > 0 {
            let rest = events.drop_first();
            self.lemma_finished_halts(rest);
            assert forall|k: int| 0 <= k < self.actions(events).len() implies (
            #[trigger] self.actions(events)[k]) == Action::Halt by {
                if k > 0 {
                    assert(self.actions(events)[k] == self.actions(rest)[k - 1]);
                }
            }
        }
    }
}

impl Miner {
    /// Begins the delivery of a transaction of this session that consumes
    /// the payer's nonce: by the relay or by broadcast, as the request says.
    pub fn send_and_confirm_with_nonce(&self, request: &SubmissionRequest) -> (begun: (
        Delivery,
        Action,
    ))
        ensures
            begun.0 == (Delivery { strategy: request.strategy, phase: Phase::Signing }),
            begun.1 == Action::Sign,
    {
        Delivery::start(request.strategy)
    }
}

impl Phase {
    /// Whether the phase belongs to the relay path.
    pub open spec fn on_relay_path(&self) -> bool {
        self is Subscribing || self is AwaitingLeader || self is Bundling
    }

    /// Whether the phase belongs to the direct path.
    pub open spec fn on_direct_path(&self) -> bool {
        self is Sending || self is Polling
    }

    /// Whether the subscription to the relay's bundle results stands.
    pub open spec fn subscribed(&self) -> bool {
        self is AwaitingLeader || self is Bundling
    }
}

impl Action {
    /// Whether the action speaks to the relay.
    pub open spec fn uses_relay(&self) -> bool {
        self is Subscribe || self is QueryLeader || self is QueryLeaderAfter || self is SendBundle
    }

    /// Whether the action broadcasts to the network or polls it for the
    /// signature.
    pub open spec fn uses_broadcast(&self) -> bool {
        self is Send || self is PollAfter
    }
}

impl Delivery {
    /// The two ways of delivery exclude each other: a delivery that is not on
    /// the other way's path stays off it, whatever happens. By broadcast it
    /// never speaks to the relay, and by the relay it never broadcasts.
    pub proof fn lemma_strategies_exclude_each_other(self, events: Seq<Event>)
        requires
            self.strategy is DirectPoll ==> !self.phase.on_relay_path(),
            self.strategy is BundleRelay ==> !self.phase.on_direct_path(),
        ensures
            forall|k: int|
                0 <= k < self.actions(events).len() ==> {
                    let action = #[trigger] self.actions(events)[k];
                    &&& self.strategy is DirectPoll ==> !action.uses_relay()
                    &&& self.strategy is BundleRelay ==> !action.uses_broadcast()
                },
        decreases events.len(),
    {
        if events.len() > 0 {
            let (next, action) = self.spec_step(events[0]);
            let rest = events.drop_first();
            next.lemma_strategies_exclude_each_other(rest);
            assert forall|k: int| 0 <= k < self.actions(events).len() implies {
                let action = #[trigger] self.actions(events)[k];
                &&& self.strategy is DirectPoll ==> !action.uses_relay()
                &&& self.strategy is BundleRelay ==> !action.uses_broadcast()
            } by {
                if k > 0 {
                    assert(self.actions(events)[k] == next.actions(rest)[k - 1]);
                }
            }
        }
    }

    /// No bundle is sent before the subscription to the relay's results
    /// stands: as long as the relay has not confirmed the subscription, the
    /// delivery sends none, whatever else happens.
    pub proof fn lemma_no_bundle_before_subscription(self, events: Seq<Event>)
        requires
            !self.phase.subscribed(),
            forall|j: int| 0 <= j < events.len() ==> !(events[j] is Subscribed),
        ensures
            forall|k: int|
                0 <= k < self.actions(events).len() ==> !(#[trigger] self.actions(
                    events,
                )[k] is SendBundle),
        decreases events.len(),
    {
        if events.len() > 0 {
            let (next, action) = self.spec_step(events[0]);
            let rest = events.drop_first();
            assert(!(events[0] is Subscribed));
            assert forall|j: int| 0 <= j < rest.len() implies !(rest[j] is Subscribed) by {
                assert(rest[j] == events[j + 1]);
            }
            next.lemma_no_bundle_before_subscription(rest);
            assert forall|k: int| 0 <= k < self.actions(events).len() implies !(
            #[trigger] self.actions(events)[k] is SendBundle) by {
                if k > 0 {
                    assert(self.actions(events)[k] == next.actions(rest)[k - 1]);
                }
            }
        }
    }
}

} // verus!
