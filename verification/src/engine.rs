//! The submission engine: the per-request decision pipeline.
//!
//! Each fetched request is first validated (`validate_request`): the command
//! must be non-empty, the tip must decode, and the tip receiver must pass
//! the receiver policy. A validated request then walks a state machine,
//! `Built → GasEstimated → Approved → Submitted → Done`, driven by the
//! chain-facing events the caller observes (gas simulation, the oracle's
//! tip valuation, broadcast, confirmation). The machine decides; the caller
//! performs whatever `next_action` names and hands the resulting event back.
//! Every path ends in `Done` with exactly one `RelayOutcome`.

use vstd::prelude::*;

use crate::codec::{decode_tip, spec_decode_tip};
use crate::policy::{is_valid_receiver_address, receiver_accepted};
use crate::profit::{profitable, tip_covers_gas_cost};
use crate::types::{Address, DecodedTip, GaslessTransaction, RelayError, RelayOutcome, TxHash};

verus! {

/// Where one request stands in the submission pipeline.
#[derive(Debug, Clone, Copy, PartialEq, Eq, Structural)]
pub enum EngineState {
    /// The call data is built; the call has not been simulated yet.
    Built,
    /// The call simulated successfully and the gas price is known; the tip
    /// has not been valued yet.
    GasEstimated { gas_used: u64, gas_price: u64 },
    /// The tip covers gas cost plus margin; nothing has been broadcast yet.
    Approved { gas_used: u64, gas_price: u64 },
    /// The signed transaction was broadcast; confirmation is pending.
    Submitted { tx_hash: TxHash },
    /// Terminal: the request's one outcome.
    Done { outcome: RelayOutcome },
}

/// What the engine's caller observed on the chain or at the oracle.
#[derive(Debug, Clone, Copy, PartialEq, Eq, Structural)]
pub enum ChainEvent {
    /// Simulation succeeded with this gas estimate, at this gas price.
    Quoted { gas_used: u64, gas_price: u64 },
    /// Simulating the call or querying the gas price failed.
    QuoteFailed,
    /// The oracle valued the tip at this many gas-token units (floored).
    TipValued { value: u128 },
    /// The oracle could not value the tip.
    TipValueUnavailable,
    /// The signed transaction was accepted under this hash.
    Broadcast { tx_hash: TxHash },
    /// Signing or broadcasting failed.
    BroadcastFailed,
    /// The configured number of confirmation blocks elapsed.
    Confirmed,
    /// Confirmation was not observed in time; the transaction may or may
    /// not have been mined.
    ConfirmationTimedOut,
}

/// What the engine's caller should do next for this request.
#[derive(Debug, Clone, Copy, PartialEq, Eq, Structural)]
pub enum EngineAction {
    /// Simulate the call against current chain state and fetch the gas price.
    Simulate,
    /// Ask the price oracle for the tip's value in gas-token units.
    FetchTipValue,
    /// Sign the transaction and broadcast it.
    BroadcastSigned,
    /// Wait for the transaction to be confirmed.
    AwaitConfirmation { tx_hash: TxHash },
    /// The request is settled; record its outcome.
    Finish { outcome: RelayOutcome },
}

/// What validating a request yields: its decoded tip, or the outcome that
/// settles it with no chain interaction at all.
pub open spec fn spec_validate_request(cmd: Seq<u8>, tip: Seq<u8>, our_address: Address) -> Result<
    DecodedTip,
    RelayOutcome,
> {
    if cmd.len() == 0 {
        Err(RelayOutcome::Failed(RelayError::EmptyCommand))
    } else if tip.len() == 0 {
        Err(RelayOutcome::SkippedEmptyTip)
    } else {
        match spec_decode_tip(tip) {
            Err(_) => Err(RelayOutcome::Failed(RelayError::MalformedTip)),
            Ok(decoded) => if receiver_accepted(decoded.receiver, our_address) {
                Ok(decoded)
            } else {
                Err(RelayOutcome::SkippedInvalidReceiver)
            },
        }
    }
}

/// Validates a fetched request before any chain interaction: an empty
/// command fails the request, an empty tip skips it, a tip that does not
/// decode fails it as malformed, and a tip routed to a receiver the policy
/// rejects skips it. Only a request whose tip decodes and whose receiver
/// pays this relayer proceeds, with its decoded tip.
pub fn validate_request(tx: &GaslessTransaction, our_address: Address) -> (r: Result<
    DecodedTip,
    RelayOutcome,
>)
    ensures
        r == spec_validate_request(tx.cmd@, tx.tip@, our_address),
{
    if tx.cmd.len() == 0 {
        return Err(RelayOutcome::Failed(RelayError::EmptyCommand));
    }
    if tx.tip.len() == 0 {
        return Err(RelayOutcome::SkippedEmptyTip);
    }
    match decode_tip(&tx.tip) {
        Err(_) => Err(RelayOutcome::Failed(RelayError::MalformedTip)),
        Ok(decoded) => {
            if is_valid_receiver_address(decoded.receiver, our_address) {
                Ok(decoded)
            } else {
                Err(RelayOutcome::SkippedInvalidReceiver)
            }
        },
    }
}

/// The transition relation of the submission engine. A terminal state
/// absorbs every event; an event that does not belong to the state leaves
/// the state unchanged.
pub open spec fn spec_step(state: EngineState, event: ChainEvent) -> EngineState {
    match (state, event) {
        (EngineState::Built, ChainEvent::Quoted { gas_used, gas_price }) =>
            EngineState::GasEstimated { gas_used, gas_price },
        (EngineState::Built, ChainEvent::QuoteFailed) => EngineState::Done {
            outcome: RelayOutcome::Failed(RelayError::SimulationFailed),
        },
        (EngineState::GasEstimated { gas_used, gas_price }, ChainEvent::TipValued { value }) => if
        profitable(value, gas_used, gas_price) {
            EngineState::Approved { gas_used, gas_price }
        } else {
            EngineState::Done { outcome: RelayOutcome::SkippedUnprofitable }
        },
        (EngineState::GasEstimated { .. }, ChainEvent::TipValueUnavailable) => EngineState::Done {
            outcome: RelayOutcome::SkippedUnprofitable,
        },
        (EngineState::Approved { .. }, ChainEvent::Broadcast { tx_hash }) => EngineState::Submitted {
            tx_hash,
        },
        (EngineState::Approved { .. }, ChainEvent::BroadcastFailed) => EngineState::Done {
            outcome: RelayOutcome::Failed(RelayError::SubmissionFailed),
        },
        (EngineState::Submitted { tx_hash }, ChainEvent::Confirmed) => EngineState::Done {
            outcome: RelayOutcome::Submitted(tx_hash),
        },
        (EngineState::Submitted { .. }, ChainEvent::ConfirmationTimedOut) => EngineState::Done {
            outcome: RelayOutcome::Failed(RelayError::ConfirmationTimeout),
        },
        _ => state,
    }
}

/// Advances one request by one observed event, per the engine's transition
/// relation: a failed simulation fails the request, an unprofitable or
/// unvalued tip skips it without broadcasting, a broadcast is awaited to
/// confirmation, and a confirmation timeout is surfaced as its own failure.
pub fn step(state: EngineState, event: ChainEvent) -> (r: EngineState)
    ensures
        r == spec_step(state, event),
{
    match (state, event) {
        (EngineState::Built, ChainEvent::Quoted { gas_used, gas_price }) =>
            EngineState::GasEstimated { gas_used, gas_price },
        (EngineState::Built, ChainEvent::QuoteFailed) => EngineState::Done {
            outcome: RelayOutcome::Failed(RelayError::SimulationFailed),
        },
        (EngineState::GasEstimated { gas_used, gas_price }, ChainEvent::TipValued { value }) => {
            if tip_covers_gas_cost(value, gas_used, gas_price) {
                EngineState::Approved { gas_used, gas_price }
            } else {
                EngineState::Done { outcome: RelayOutcome::SkippedUnprofitable }
            }
        },
        (EngineState::GasEstimated { .. }, ChainEvent::TipValueUnavailable) => EngineState::Done {
            outcome: RelayOutcome::SkippedUnprofitable,
        },
        (EngineState::Approved { .. }, ChainEvent::Broadcast { tx_hash }) => EngineState::Submitted {
            tx_hash,
        },
        (EngineState::Approved { .. }, ChainEvent::BroadcastFailed) => EngineState::Done {
            outcome: RelayOutcome::Failed(RelayError::SubmissionFailed),
        },
        (EngineState::Submitted { tx_hash }, ChainEvent::Confirmed) => EngineState::Done {
            outcome: RelayOutcome::Submitted(tx_hash),
        },
        (EngineState::Submitted { .. }, ChainEvent::ConfirmationTimedOut) => EngineState::Done {
            outcome: RelayOutcome::Failed(RelayError::ConfirmationTimeout),
        },
        (s, _) => s,
    }
}

/// Names what the caller should do in each state: simulate from `Built`,
/// value the tip from `GasEstimated`, broadcast from `Approved`, await
/// confirmation of the broadcast hash from `Submitted`, and record the
/// outcome once `Done`.
pub fn next_action(state: &EngineState) -> (r: EngineAction)
    ensures
        r == match *state {
            EngineState::Built => EngineAction::Simulate,
            EngineState::GasEstimated { .. } => EngineAction::FetchTipValue,
            EngineState::Approved { .. } => EngineAction::BroadcastSigned,
            EngineState::Submitted { tx_hash } => EngineAction::AwaitConfirmation { tx_hash },
            EngineState::Done { outcome } => EngineAction::Finish { outcome },
        },
{
    match *state {
        EngineState::Built => EngineAction::Simulate,
        EngineState::GasEstimated { .. } => EngineAction::FetchTipValue,
        EngineState::Approved { .. } => EngineAction::BroadcastSigned,
        EngineState::Submitted { tx_hash } => EngineAction::AwaitConfirmation { tx_hash },
        EngineState::Done { outcome } => EngineAction::Finish { outcome },
    }
}

/// An oracle failure settles the request as unprofitable: the engine fails
/// closed and never broadcasts on an unvalued tip.
pub proof fn lemma_oracle_failure_fails_closed(gas_used: u64, gas_price: u64)
    ensures
        spec_step(
            EngineState::GasEstimated { gas_used, gas_price },
            ChainEvent::TipValueUnavailable,
        ) == (EngineState::Done { outcome: RelayOutcome::SkippedUnprofitable }),
{
}

/// A settled request stays settled: every event leaves a terminal state
/// unchanged, so one request yields exactly one outcome.
pub proof fn lemma_done_is_terminal(outcome: RelayOutcome, event: ChainEvent)
    ensures
        spec_step(EngineState::Done { outcome }, event) == (EngineState::Done { outcome }),
{
}

/// The engine broadcasts only a profitable tip: from `GasEstimated`, the
/// only step that leads on toward broadcasting is a tip valuation that
/// strictly exceeds gas cost plus margin; every other valuation settles the
/// request as skipped, with nothing sent.
pub proof fn lemma_only_profitable_approved(
    gas_used: u64,
    gas_price: u64,
    value: u128,
)
    requires
        !profitable(value, gas_used, gas_price),
    ensures
        spec_step(
            EngineState::GasEstimated { gas_used, gas_price },
            ChainEvent::TipValued { value },
        ) == (EngineState::Done { outcome: RelayOutcome::SkippedUnprofitable }),
{
}

/// The gates cannot be stepped around: the one step that newly reaches
/// `Approved` is a tip valuation, at the approved gas figures, that is
/// strictly profitable; and the one step that newly reaches `Submitted` is a
/// broadcast out of `Approved`.
pub proof fn lemma_gates_cannot_be_bypassed(s: EngineState, e: ChainEvent)
    ensures
        spec_step(s, e) matches EngineState::Approved { gas_used, gas_price } ==> (s
            is Approved || (s == (EngineState::GasEstimated { gas_used, gas_price }) && (
        e matches ChainEvent::TipValued { value } && profitable(value, gas_used, gas_price)))),
        spec_step(s, e) is Submitted ==> (s is Submitted || (s is Approved
            && e is Broadcast)),
{
}

} // verus!
