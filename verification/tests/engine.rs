use ifi_relayer::engine::{next_action, step, validate_request, ChainEvent, EngineAction, EngineState};
use ifi_relayer::{Address, GaslessTransaction, RelayError, RelayOutcome, TxHash};

const OURS: Address = Address { hi: 0, lo: 0xABCDEF };

fn request_with_tip(tip: Vec<u8>) -> GaslessTransaction {
    GaslessTransaction {
        chain_id: 258432,
        callpath: 1,
        cmd: vec![0x11, 0x22],
        conds: vec![0x33],
        tip,
        sig: vec![0x44; 65],
        submitted_at: 1_700_000_000,
    }
}

fn tip_to(receiver: Address, amount: u128) -> Vec<u8> {
    let mut tip = Vec::new();
    tip.extend_from_slice(&[0u8; 12]);
    tip.extend_from_slice(&7u32.to_be_bytes());
    tip.extend_from_slice(&9u128.to_be_bytes());
    tip.extend_from_slice(&[0u8; 16]);
    tip.extend_from_slice(&amount.to_be_bytes());
    tip.extend_from_slice(&[0u8; 12]);
    tip.extend_from_slice(&receiver.hi.to_be_bytes());
    tip.extend_from_slice(&receiver.lo.to_be_bytes());
    tip
}

#[test]
fn empty_tip_is_skipped_before_any_chain_work() {
    let tx = request_with_tip(Vec::new());
    assert_eq!(validate_request(&tx, OURS), Err(RelayOutcome::SkippedEmptyTip));
}

#[test]
fn empty_command_fails_the_request() {
    let mut tx = request_with_tip(tip_to(Address { hi: 0, lo: 0x100 }, 5));
    tx.cmd = Vec::new();
    assert_eq!(
        validate_request(&tx, OURS),
        Err(RelayOutcome::Failed(RelayError::EmptyCommand))
    );
}

#[test]
fn short_tip_fails_as_malformed() {
    let tx = request_with_tip(vec![1, 2, 3]);
    assert_eq!(
        validate_request(&tx, OURS),
        Err(RelayOutcome::Failed(RelayError::MalformedTip))
    );
}

#[test]
fn third_party_receiver_is_skipped_before_simulation() {
    let tx = request_with_tip(tip_to(Address { hi: 5, lo: 77 }, 5));
    assert_eq!(validate_request(&tx, OURS), Err(RelayOutcome::SkippedInvalidReceiver));
}

#[test]
fn reserved_sink_receiver_relays_through_to_confirmation() {
    // A tip routed to a reserved sink, worth far more than the gas cost.
    let tx = request_with_tip(tip_to(Address { hi: 0, lo: 0x100 }, u128::MAX / 2));
    let decoded = validate_request(&tx, OURS).unwrap();
    assert_eq!(decoded.amount, u128::MAX / 2);

    let hash = TxHash { hi: 0xAA, lo: 0xBB };
    let mut state = EngineState::Built;
    assert_eq!(next_action(&state), EngineAction::Simulate);
    state = step(state, ChainEvent::Quoted { gas_used: 21_000, gas_price: 20_000_000_000 });
    assert_eq!(next_action(&state), EngineAction::FetchTipValue);
    state = step(state, ChainEvent::TipValued { value: u128::MAX / 2 });
    assert_eq!(next_action(&state), EngineAction::BroadcastSigned);
    state = step(state, ChainEvent::Broadcast { tx_hash: hash });
    assert_eq!(next_action(&state), EngineAction::AwaitConfirmation { tx_hash: hash });
    state = step(state, ChainEvent::Confirmed);
    assert_eq!(
        next_action(&state),
        EngineAction::Finish { outcome: RelayOutcome::Submitted(hash) }
    );
}

#[test]
fn unprofitable_tip_is_skipped_without_broadcast() {
    let state = EngineState::GasEstimated { gas_used: 21_000, gas_price: 20_000_000_000 };
    // exactly the threshold: not profitable
    let settled = step(state, ChainEvent::TipValued { value: 462_000_000_000_000 });
    assert_eq!(settled, EngineState::Done { outcome: RelayOutcome::SkippedUnprofitable });
}

#[test]
fn oracle_failure_settles_as_unprofitable() {
    let state = EngineState::GasEstimated { gas_used: 21_000, gas_price: 20_000_000_000 };
    let settled = step(state, ChainEvent::TipValueUnavailable);
    assert_eq!(settled, EngineState::Done { outcome: RelayOutcome::SkippedUnprofitable });
}

#[test]
fn failed_simulation_fails_the_request() {
    let settled = step(EngineState::Built, ChainEvent::QuoteFailed);
    assert_eq!(
        settled,
        EngineState::Done { outcome: RelayOutcome::Failed(RelayError::SimulationFailed) }
    );
}

#[test]
fn failed_broadcast_fails_the_request() {
    let state = EngineState::Approved { gas_used: 21_000, gas_price: 20_000_000_000 };
    let settled = step(state, ChainEvent::BroadcastFailed);
    assert_eq!(
        settled,
        EngineState::Done { outcome: RelayOutcome::Failed(RelayError::SubmissionFailed) }
    );
}

#[test]
fn confirmation_timeout_is_its_own_failure() {
    let hash = TxHash { hi: 1, lo: 2 };
    let state = EngineState::Submitted { tx_hash: hash };
    let settled = step(state, ChainEvent::ConfirmationTimedOut);
    assert_eq!(
        settled,
        EngineState::Done { outcome: RelayOutcome::Failed(RelayError::ConfirmationTimeout) }
    );
}

#[test]
fn settled_requests_absorb_every_event() {
    let done = EngineState::Done { outcome: RelayOutcome::SkippedUnprofitable };
    for event in [
        ChainEvent::Quoted { gas_used: 1, gas_price: 1 },
        ChainEvent::QuoteFailed,
        ChainEvent::TipValued { value: u128::MAX },
        ChainEvent::TipValueUnavailable,
        ChainEvent::Broadcast { tx_hash: TxHash { hi: 0, lo: 0 } },
        ChainEvent::BroadcastFailed,
        ChainEvent::Confirmed,
        ChainEvent::ConfirmationTimedOut,
    ] {
        assert_eq!(step(done, event), done);
    }
}

#[test]
fn mismatched_events_change_nothing() {
    let built = EngineState::Built;
    assert_eq!(step(built, ChainEvent::Confirmed), built);
    let submitted = EngineState::Submitted { tx_hash: TxHash { hi: 3, lo: 4 } };
    assert_eq!(step(submitted, ChainEvent::QuoteFailed), submitted);
}
