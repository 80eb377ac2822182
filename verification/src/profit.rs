//! The profitability estimator: whether a tip covers gas cost plus margin.
//!
//! The tip's value is compared against the estimated gas cost with a 10%
//! margin on top (integer floor division on the margin term). The comparison
//! is strict: a tip worth exactly the threshold is not profitable. When the
//! price oracle fails, the estimator fails closed and reports not
//! profitable; it never propagates the failure.

use vstd::prelude::*;

verus! {

/// Whether a tip worth `tip_value` gas-token units pays for `gas_used` gas
/// at `gas_price` with a 10% margin: strictly more than
/// `gas_cost + gas_cost / 10`, where `gas_cost = gas_used * gas_price`.
pub open spec fn profitable(tip_value: u128, gas_used: u64, gas_price: u64) -> bool {
    tip_value > gas_used * gas_price + (gas_used * gas_price) / 10
}

/// Compares a tip's value in gas-token units against the gas cost plus the
/// 10% margin; strictly greater is profitable, equal is not.
pub fn tip_covers_gas_cost(tip_value: u128, gas_used: u64, gas_price: u64) -> (r: bool)
    ensures
        r == profitable(tip_value, gas_used, gas_price),
{
    proof {
        assert((gas_used as int) * (gas_price as int) <= (u64::MAX as int) * (u64::MAX as int))
            by (nonlinear_arith)
            requires
                gas_used <= u64::MAX,
                gas_price <= u64::MAX,
        ;
    }
    let gas_cost: u128 = (gas_used as u128) * (gas_price as u128);
    let margin: u128 = gas_cost / 10;
    if gas_cost <= u128::MAX - margin {
        tip_value > gas_cost + margin
    } else {
        false
    }
}

/// Decides whether relaying is economically worthwhile. `tip_value` is the
/// tip's value in gas-token units as the price oracle reported it, or `None`
/// when the oracle failed; an oracle failure always yields "not profitable"
/// (fail-closed), never an error.
pub fn estimate_if_transaction_is_profitable(
    tip_value: Option<u128>,
    gas_used: u64,
    gas_price: u64,
) -> (r: bool)
    ensures
        r == match tip_value {
            Option::Some(v) => profitable(v, gas_used, gas_price),
            Option::None => false,
        },
{
    match tip_value {
        Option::Some(v) => tip_covers_gas_cost(v, gas_used, gas_price),
        Option::None => false,
    }
}

} // verus!
