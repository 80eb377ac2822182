//! Plain data types the relay pipeline works on.

use vstd::prelude::*;

verus! {

/// A 160-bit account address, split into its first 4 bytes (`hi`) and its
/// last 16 bytes (`lo`), both big-endian.
#[derive(Debug, Clone, Copy, PartialEq, Eq, Structural)]
pub struct Address {
    pub hi: u32,
    pub lo: u128,
}

/// A 256-bit transaction hash, split into its first 16 bytes (`hi`) and its
/// last 16 bytes (`lo`), both big-endian.
#[derive(Debug, Clone, Copy, PartialEq, Eq, Structural)]
pub struct TxHash {
    pub hi: u128,
    pub lo: u128,
}

/// A gas-abstracted transaction request, as served by an orchestrator.
///
/// `cmd`, `conds` and `sig` are opaque to the relayer: they are forwarded
/// to the target contract uninterpreted. `tip` encodes the relayer's
/// compensation and is the only field the relayer decodes.
#[derive(Debug, Clone)]
pub struct GaslessTransaction {
    pub chain_id: u64,
    pub callpath: u16,
    pub cmd: Vec<u8>,
    pub conds: Vec<u8>,
    pub tip: Vec<u8>,
    pub sig: Vec<u8>,
    pub submitted_at: u64,
}

/// Runtime configuration of the relayer, read-only after startup.
#[derive(Debug, Clone)]
pub struct RelayerOpts {
    pub private_key: String,
    pub transaction_api_url: Vec<String>,
    pub price_api_url: String,
    pub eth_rpc: String,
    pub poll_interval: u64,
    pub confirmation_blocks: u64,
    pub contract_address: String,
    pub log_level: String,
    pub timeout: u64,
    pub agree: bool,
}

/// A price lookup request: the token whose value in gas-token units is asked.
#[derive(Debug, Clone, Copy, PartialEq, Eq, Structural)]
pub struct PriceQuery {
    pub from: Address,
}

/// The three fields of a well-formed tip payload: the tip token, the tip
/// amount (at most 128 bits), and the address the tip is routed to.
#[derive(Debug, Clone, Copy, PartialEq, Eq, Structural)]
pub struct DecodedTip {
    pub token: Address,
    pub amount: u128,
    pub receiver: Address,
}

/// Everything that can go wrong while handling one relay request.
#[derive(Debug, Clone, Copy, PartialEq, Eq, Structural)]
pub enum RelayError {
    /// The tip payload is shorter than the three 32-byte words it must hold.
    MalformedTip,
    /// The user's call payload is empty.
    EmptyCommand,
    /// The tip is routed to an address this relayer does not collect from.
    InvalidReceiver,
    /// The price oracle could not value the tip.
    OracleUnavailable,
    /// A byte field the call encoder cannot represent (an empty one).
    EncodingRejected,
    /// Simulating the call (gas estimate or gas price query) failed.
    SimulationFailed,
    /// Signing or broadcasting the transaction failed.
    SubmissionFailed,
    /// The transaction was broadcast but confirmation was not observed in
    /// time; it may or may not have been mined.
    ConfirmationTimeout,
    /// An orchestrator address could not be reached.
    NetworkUnreachable,
}

/// The one outcome produced per relay request.
#[derive(Debug, Clone, Copy, PartialEq, Eq, Structural)]
pub enum RelayOutcome {
    /// The transaction was broadcast and confirmed under this hash.
    Submitted(TxHash),
    /// The tip is routed to a third party; nothing was simulated or sent.
    SkippedInvalidReceiver,
    /// The request carries no tip; nothing was simulated or sent.
    SkippedEmptyTip,
    /// The tip does not cover gas cost plus margin; nothing was broadcast.
    SkippedUnprofitable,
    /// The request was abandoned for this poll cycle for the given reason.
    Failed(RelayError),
}

} // verus!
