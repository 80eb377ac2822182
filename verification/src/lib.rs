//! A gas-abstracted transaction relayer library.
//!
//! The library holds the decision pipeline of a relayer: decoding and
//! validating the tip embedded in a relay request, deciding whether the tip
//! receiver entitles this relayer to collect, estimating profitability
//! against gas cost, building the on-chain call data, and stepping the
//! per-request submission state machine. Network transport, chain RPC and
//! key handling live outside the library.

use vstd::prelude::*;

pub mod calldata;
pub mod codec;
pub mod engine;
pub mod policy;
pub mod poller;
pub mod profit;
pub mod types;

pub use types::Address;
pub use types::DecodedTip;
pub use types::GaslessTransaction;
pub use types::PriceQuery;
pub use types::RelayError;
pub use types::RelayOutcome;
pub use types::RelayerOpts;
pub use types::TxHash;

verus! {

} // verus!
