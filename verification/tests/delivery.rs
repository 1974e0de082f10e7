use ore_miner::address::Address;
use ore_miner::bootstrap::{
    has_confirmed, Bootstrap, BootstrapAction, BootstrapEvent, BootstrapPhase, Commitment,
    CONFIRM_RETRIES, GATEWAY_RETRIES, LOOP_SEND_COUNT,
};
use ore_miner::delivery::{Action, Delivery, Event, Phase, LEADER_WAIT_MS, POLL_DELAY_MS};
use ore_miner::error::MinerError;
use ore_miner::miner::{Miner, Strategy};
use ore_miner::relay::{classify_rejection, contains_bytes, is_leader_close, Rejection};

fn clean() -> Event {
    Event::Simulated { error: None, logs: vec!["ok".to_string()] }
}

fn every_event() -> Vec<Event> {
    vec![
        Event::Signed,
        Event::Simulated { error: Some("custom program error: 0x3".to_string()), logs: vec![] },
        Event::Sent,
        Event::Polled { observed: true },
        Event::Polled { observed: false },
        Event::Subscribed,
        Event::Leader { current_slot: 10, next_leader_slot: 11 },
        Event::BundleLanded,
        Event::RelayError { reason: "Blockhash not found".to_string() },
        Event::RpcFailed,
    ]
}

fn simulated(strategy: Strategy) -> (Delivery, Action) {
    let (d, a) = Delivery::start(strategy);
    assert_eq!(a, Action::Sign);
    let (d, a) = d.step(Event::Signed);
    assert_eq!(a, Action::Simulate);
    d.step(clean())
}

#[test]
fn simulation_error_prevents_any_submission() {
    for strategy in [Strategy::DirectPoll, Strategy::BundleRelay] {
        let (d, _) = Delivery::start(strategy);
        let (d, a) = d.step(Event::Signed);
        assert_eq!(a, Action::Simulate);
        let (mut d, a) = d.step(Event::Simulated {
            error: Some("InstructionError(3, Custom(1))".to_string()),
            logs: vec!["Program log: boom".to_string()],
        });
        assert_eq!(
            a,
            Action::Failed(MinerError::SimulationFailed {
                error: "InstructionError(3, Custom(1))".to_string(),
                logs: vec!["Program log: boom".to_string()],
            })
        );
        assert_eq!(d.phase, Phase::Finished);
        for event in every_event().into_iter().chain([clean()]) {
            let (next, action) = d.step(event);
            assert_eq!(action, Action::Halt);
            assert_eq!(next.phase, Phase::Finished);
            d = next;
        }
    }
}

#[test]
fn nothing_is_submitted_before_a_clean_simulation() {
    for strategy in [Strategy::DirectPoll, Strategy::BundleRelay] {
        for phase in [Phase::Signing, Phase::Simulating] {
            for first in every_event() {
                let mut d = Delivery { strategy, phase };
                let (next, action) = d.step(first);
                assert!(!matches!(action, Action::Send | Action::SendBundle));
                d = next;
                for second in every_event() {
                    let (_, action) = d.step(second);
                    assert!(!matches!(action, Action::Send | Action::SendBundle));
                }
            }
        }
    }
}

#[test]
fn resubmission_of_an_included_transaction_lands_on_the_next_poll() {
    let (d, a) = simulated(Strategy::DirectPoll);
    assert_eq!(a, Action::Send);
    let (d, a) = d.step(Event::Sent);
    assert_eq!(a, Action::PollAfter { millis: 400 });
    let (d, a) = d.step(Event::Polled { observed: false });
    assert_eq!(a, Action::Send);
    assert_eq!(d.phase, Phase::Sending);
    let (d, a) = d.step(Event::Sent);
    assert_eq!(a, Action::PollAfter { millis: POLL_DELAY_MS });
    let (d, a) = d.step(Event::Polled { observed: true });
    assert_eq!(a, Action::Landed);
    assert_eq!(d, Delivery { strategy: Strategy::DirectPoll, phase: Phase::Finished });
    let (_, a) = d.step(Event::Sent);
    assert_eq!(a, Action::Halt);
}

#[test]
fn direct_path_polls_without_limit() {
    let (mut d, mut a) = simulated(Strategy::DirectPoll);
    for _ in 0..1_000 {
        assert_eq!(a, Action::Send);
        let (next, action) = d.step(Event::Sent);
        assert_eq!(action, Action::PollAfter { millis: 400 });
        let (next, action) = next.step(Event::Polled { observed: false });
        d = next;
        a = action;
    }
    assert_eq!(d.phase, Phase::Sending);
}

#[test]
fn failed_requests_are_repeated() {
    let (d, a) = Delivery::start(Strategy::DirectPoll);
    assert_eq!(a, Action::Sign);
    let (d, a) = d.step(Event::RpcFailed);
    assert_eq!((d.phase, a), (Phase::Signing, Action::Sign));
    let (d, _) = d.step(Event::Signed);
    let (d, a) = d.step(Event::RpcFailed);
    assert_eq!((d.phase, a), (Phase::Simulating, Action::Simulate));
    let (d, _) = d.step(clean());
    let (d, a) = d.step(Event::RpcFailed);
    assert_eq!((d.phase, a), (Phase::Sending, Action::Send));
    let (d, _) = d.step(Event::Sent);
    let (d, a) = d.step(Event::RpcFailed);
    assert_eq!((d.phase, a), (Phase::Polling, Action::PollAfter { millis: 400 }));
    let (d, a) = d.step(Event::Subscribed);
    assert_eq!((d.phase, a), (Phase::Polling, Action::PollAfter { millis: 400 }));
}

#[test]
fn relay_path_subscribes_before_it_submits() {
    let (d, a) = simulated(Strategy::BundleRelay);
    assert_eq!(a, Action::Subscribe);
    assert_eq!(d.phase, Phase::Subscribing);
    let (d, a) = d.step(Event::Subscribed);
    assert_eq!(a, Action::QueryLeader);
    let (d, a) = d.step(Event::Leader { current_slot: 100, next_leader_slot: 103 });
    assert_eq!(a, Action::QueryLeaderAfter { millis: 500 });
    assert_eq!(d.phase, Phase::AwaitingLeader);
    let (d, a) = d.step(Event::Leader { current_slot: 101, next_leader_slot: 103 });
    assert_eq!(a, Action::SendBundle);
    let (d, a) = d.step(Event::BundleLanded);
    assert_eq!(a, Action::Landed);
    assert_eq!(d.phase, Phase::Finished);
    assert_eq!(LEADER_WAIT_MS, 500);
}

#[test]
fn relay_rejections_follow_the_policy() {
    let bundling = Delivery { strategy: Strategy::BundleRelay, phase: Phase::Bundling };
    let (d, a) = bundling.step(Event::RelayError {
        reason: "bundle rejected: Blockhash not found".to_string(),
    });
    assert_eq!((d.phase, a), (Phase::Finished, Action::Landed));
    let (d, a) = bundling.step(Event::RelayError {
        reason: "Searcher service did not provide bundle status in time".to_string(),
    });
    assert_eq!((d.phase, a), (Phase::AwaitingLeader, Action::QueryLeader));
    let (d, a) = bundling.step(Event::RelayError { reason: "bundle dropped".to_string() });
    assert_eq!(
        (d.phase, a),
        (
            Phase::Finished,
            Action::Failed(MinerError::RelayFatal { reason: "bundle dropped".to_string() })
        )
    );
    for phase in [Phase::Subscribing, Phase::AwaitingLeader] {
        let waiting = Delivery { strategy: Strategy::BundleRelay, phase };
        let (d, a) = waiting.step(Event::RelayError { reason: "unavailable".to_string() });
        assert_eq!(
            (d.phase, a),
            (
                Phase::Finished,
                Action::Failed(MinerError::RelayFatal { reason: "unavailable".to_string() })
            )
        );
    }
}

#[test]
fn relay_timeout_is_retried_without_limit() {
    let mut d = Delivery { strategy: Strategy::BundleRelay, phase: Phase::Bundling };
    for _ in 0..200 {
        let (next, a) = d.step(Event::RelayError {
            reason: "Searcher service did not provide bundle status in time".to_string(),
        });
        assert_eq!(a, Action::QueryLeader);
        let (next, a) = next.step(Event::Leader { current_slot: 7, next_leader_slot: 7 });
        assert_eq!(a, Action::SendBundle);
        d = next;
    }
    assert_eq!(d.phase, Phase::Bundling);
}

#[test]
fn classify_rejection_reads_the_message() {
    assert_eq!(classify_rejection("Blockhash not found"), Rejection::AlreadyLanded);
    assert_eq!(
        classify_rejection("rpc: Transaction simulation failed: Blockhash not found."),
        Rejection::AlreadyLanded
    );
    assert_eq!(
        classify_rejection("Searcher service did not provide bundle status in time"),
        Rejection::StatusTimeout
    );
    assert_eq!(
        classify_rejection(
            "Searcher service did not provide bundle status in time; Blockhash not found"
        ),
        Rejection::AlreadyLanded
    );
    assert_eq!(classify_rejection("blockhash not found"), Rejection::Fatal);
    assert_eq!(classify_rejection("Blockhash not foun"), Rejection::Fatal);
    assert_eq!(classify_rejection(""), Rejection::Fatal);
}

#[test]
fn contains_bytes_finds_runs() {
    assert!(contains_bytes(b"hello world", b"o w"));
    assert!(contains_bytes(b"hello world", b"hello world"));
    assert!(contains_bytes(b"hello world", b"d"));
    assert!(contains_bytes(b"hello world", b""));
    assert!(contains_bytes(b"", b""));
    assert!(!contains_bytes(b"", b"a"));
    assert!(!contains_bytes(b"hello", b"hello world"));
    assert!(!contains_bytes(b"hello world", b"ow"));
    assert!(contains_bytes(b"aaab", b"aab"));
}

#[test]
fn leader_is_close_within_two_slots() {
    assert!(is_leader_close(100, 100));
    assert!(is_leader_close(100, 101));
    assert!(is_leader_close(100, 102));
    assert!(!is_leader_close(100, 103));
    assert!(!is_leader_close(100, 99));
    assert!(!is_leader_close(u64::MAX, 0));
    assert!(is_leader_close(u64::MAX - 2, u64::MAX));
    assert!(!is_leader_close(0, u64::MAX));
}

#[test]
fn session_starts_deliveries_by_the_request_strategy() {
    let m = Miner::new("x".to_string(), 5, vec![Address::new([1; 32])], true).unwrap();
    let request = m.register(&vec![false]).unwrap();
    assert_eq!(
        m.send_and_confirm_with_nonce(&request),
        (Delivery { strategy: Strategy::BundleRelay, phase: Phase::Signing }, Action::Sign)
    );
    let ata = m.initialize_ata(false).unwrap();
    assert_eq!(
        m.send_and_confirm_with_nonce(&ata),
        (Delivery { strategy: Strategy::DirectPoll, phase: Phase::Signing }, Action::Sign)
    );
    assert_eq!(
        m.send_and_confirm(true),
        (
            Bootstrap { skip_confirm: true, phase: BootstrapPhase::CheckingBalance },
            BootstrapAction::ReadBalance
        )
    );
}

#[test]
fn bootstrap_refuses_an_empty_balance() {
    let (b, a) = Bootstrap::start(false);
    assert_eq!(a, BootstrapAction::ReadBalance);
    let (b, a) = b.step(BootstrapEvent::Balance { lamports: 0 });
    assert_eq!(a, BootstrapAction::Failed(MinerError::InsufficientBalance));
    assert_eq!(b.phase, BootstrapPhase::Finished);
    let (_, a) = b.step(BootstrapEvent::Signed);
    assert_eq!(a, BootstrapAction::Halt);
}

#[test]
fn bootstrap_fails_where_balance_or_block_cannot_be_read() {
    let (b, _) = Bootstrap::start(false);
    let (b, a) = b.step(BootstrapEvent::Failed);
    assert_eq!(a, BootstrapAction::Failed(MinerError::RpcTransient));
    assert_eq!(b.phase, BootstrapPhase::Finished);
    let (b, _) = Bootstrap::start(false);
    let (b, a) = b.step(BootstrapEvent::Balance { lamports: 1 });
    assert_eq!(a, BootstrapAction::Sign);
    let (b, a) = b.step(BootstrapEvent::Failed);
    assert_eq!(a, BootstrapAction::Failed(MinerError::RpcTransient));
    assert_eq!(b.phase, BootstrapPhase::Finished);
}

fn broadcast(b: Bootstrap, accepted: bool) -> (Bootstrap, BootstrapAction) {
    let (mut b, mut a) = b.step(BootstrapEvent::Signed);
    assert_eq!(a, BootstrapAction::Send);
    (b, a) = b.step(BootstrapEvent::Sent { accepted });
    for _ in 0..LOOP_SEND_COUNT {
        assert_eq!(a, BootstrapAction::SendAfter { millis: 400 });
        (b, a) = b.step(BootstrapEvent::Sent { accepted: !accepted });
    }
    (b, a)
}

#[test]
fn bootstrap_lands_on_a_confirmed_status() {
    let (b, _) = Bootstrap::start(false);
    let (b, _) = b.step(BootstrapEvent::Balance { lamports: 5_000 });
    assert_eq!(b.phase, BootstrapPhase::Signing { attempt: 0 });
    let (b, a) = broadcast(b, true);
    assert_eq!(a, BootstrapAction::PollAfter { millis: 2_000 });
    assert_eq!(b.phase, BootstrapPhase::Confirming { attempt: 0, left: 5 });
    let (b, a) = b.step(BootstrapEvent::Statuses {
        statuses: vec![None, Some(Commitment::Processed)],
    });
    assert_eq!(a, BootstrapAction::PollAfter { millis: 2_000 });
    assert_eq!(b.phase, BootstrapPhase::Confirming { attempt: 0, left: 4 });
    let (b, a) = b.step(BootstrapEvent::Statuses {
        statuses: vec![None, Some(Commitment::Confirmed)],
    });
    assert_eq!(a, BootstrapAction::Landed);
    assert_eq!(b.phase, BootstrapPhase::Finished);
}

#[test]
fn bootstrap_with_skip_confirm_trusts_the_broadcast() {
    let (b, _) = Bootstrap::start(true);
    let (b, _) = b.step(BootstrapEvent::Balance { lamports: 1 });
    let (b, a) = broadcast(b, true);
    assert_eq!(a, BootstrapAction::Landed);
    assert_eq!(b.phase, BootstrapPhase::Finished);
}

#[test]
fn bootstrap_gives_up_after_the_last_attempt() {
    let (b, _) = Bootstrap::start(false);
    let (mut b, mut a) = b.step(BootstrapEvent::Balance { lamports: 9 });
    let mut steps = 1;
    for attempt in 0..=GATEWAY_RETRIES {
        assert_eq!(b.phase, BootstrapPhase::Signing { attempt });
        if attempt == 0 {
            assert_eq!(a, BootstrapAction::Sign);
        } else {
            assert_eq!(a, BootstrapAction::SignAfter { millis: 200 });
        }
        (b, a) = broadcast(b, true);
        steps += 2 + LOOP_SEND_COUNT;
        for left in (1..=CONFIRM_RETRIES).rev() {
            assert_eq!(b.phase, BootstrapPhase::Confirming { attempt, left });
            assert_eq!(a, BootstrapAction::PollAfter { millis: 2_000 });
            let statuses = vec![Some(Commitment::Processed)];
            (b, a) = b.step(BootstrapEvent::Statuses { statuses });
            steps += 1;
        }
    }
    assert_eq!(a, BootstrapAction::Failed(MinerError::MaxRetriesExceeded));
    assert_eq!(b.phase, BootstrapPhase::Finished);
    assert_eq!(steps, 1 + 5 * 17);
}

#[test]
fn bootstrap_retries_a_refused_broadcast_without_polling() {
    let (b, _) = Bootstrap::start(false);
    let (mut b, _) = b.step(BootstrapEvent::Balance { lamports: 9 });
    let mut a;
    for attempt in 0..GATEWAY_RETRIES {
        (b, a) = broadcast(b, false);
        assert_eq!(a, BootstrapAction::SignAfter { millis: 200 });
        assert_eq!(b.phase, BootstrapPhase::Signing { attempt: attempt + 1 });
    }
    (b, a) = broadcast(b, false);
    assert_eq!(a, BootstrapAction::Failed(MinerError::MaxRetriesExceeded));
    assert_eq!(b.phase, BootstrapPhase::Finished);
}

#[test]
fn bootstrap_ends_whatever_happens() {
    let events = [
        BootstrapEvent::Balance { lamports: 3 },
        BootstrapEvent::Signed,
        BootstrapEvent::Sent { accepted: true },
        BootstrapEvent::Statuses { statuses: vec![None] },
        BootstrapEvent::Failed,
    ];
    for offset in 0..events.len() {
        for skip_confirm in [false, true] {
            let (mut b, _) = Bootstrap::start(skip_confirm);
            let mut steps = 0usize;
            while b.phase != BootstrapPhase::Finished {
                let event = events[(steps * 3 + offset) % events.len()].clone();
                b = b.step(event).0;
                steps += 1;
                assert!(steps <= 86);
            }
        }
    }
}

#[test]
fn has_confirmed_wants_confirmed_at_least() {
    assert!(!has_confirmed(&vec![]));
    assert!(!has_confirmed(&vec![None, Some(Commitment::Processed), None]));
    assert!(has_confirmed(&vec![None, Some(Commitment::Confirmed)]));
    assert!(has_confirmed(&vec![Some(Commitment::Finalized), None]));
    assert!(!Commitment::Processed.is_confirmed());
    assert!(Commitment::Confirmed.is_confirmed());
    assert!(Commitment::Finalized.is_confirmed());
}

#[test]
fn rejections_amount_to_faults() {
    assert_eq!(Rejection::AlreadyLanded.fault("x".to_string()), None);
    assert_eq!(Rejection::StatusTimeout.fault("x".to_string()), Some(MinerError::RelayTimeout));
    assert_eq!(
        Rejection::Fatal.fault("bundle dropped".to_string()),
        Some(MinerError::RelayFatal { reason: "bundle dropped".to_string() })
    );
    assert_eq!(
        classify_rejection("Searcher service did not provide bundle status in time")
            .fault(String::new()),
        Some(MinerError::RelayTimeout)
    );
}
