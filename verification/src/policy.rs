//! The receiver policy: which tip receivers this relayer collects from.
//!
//! The target protocol reserves two well-known sink addresses that mean
//! "burn / no-op tip routing"; a tip routed to either of them, or to the
//! relayer's own address, pays this relayer. A tip routed anywhere else is
//! contractually owed to an unrelated party and the request is not worth
//! relaying.

use vstd::prelude::*;

use crate::types::Address;

verus! {

/// The protocol's first reserved sink address, `0x…0100`.
pub open spec fn reserved_sink_low() -> Address {
    Address { hi: 0, lo: 0x100 }
}

/// The protocol's second reserved sink address, `0x…0200`.
pub open spec fn reserved_sink_high() -> Address {
    Address { hi: 0, lo: 0x200 }
}

/// Whether a tip routed to `receiver` pays the relayer at `our_address`:
/// exactly the two reserved sinks and the relayer's own address qualify.
pub open spec fn receiver_accepted(receiver: Address, our_address: Address) -> bool {
    receiver == reserved_sink_low() || receiver == reserved_sink_high() || receiver
        == our_address
}

/// Decides whether the tip receiver is one this relayer is entitled to
/// collect from: one of the two reserved sink addresses, or the relayer's
/// own address. Every other receiver is rejected.
pub fn is_valid_receiver_address(receiver: Address, our_address: Address) -> (r: bool)
    ensures
        r == receiver_accepted(receiver, our_address),
{
    (receiver.hi == 0 && receiver.lo == 0x100) || (receiver.hi == 0 && receiver.lo == 0x200)
        || receiver == our_address
}

/// The policy accepts nothing outside the three listed addresses: any
/// receiver that is neither reserved sink nor the relayer's own address is
/// rejected.
pub proof fn lemma_policy_rejects_all_others(receiver: Address, our_address: Address)
    requires
        receiver != reserved_sink_low(),
        receiver != reserved_sink_high(),
        receiver != our_address,
    ensures
        !receiver_accepted(receiver, our_address),
{
}

/// The policy accepts each of the three listed addresses.
pub proof fn lemma_policy_accepts_listed(receiver: Address, our_address: Address)
    requires
        receiver == reserved_sink_low() || receiver == reserved_sink_high() || receiver
            == our_address,
    ensures
        receiver_accepted(receiver, our_address),
{
}

} // verus!
