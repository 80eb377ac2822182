//! The call builder: ABI-encoding the on-chain `userCmdRelayer` call.
//!
//! The target contract exposes one fixed entry point,
//! `userCmdRelayer(uint16 callpath, bytes cmd, bytes conds, bytes relayerTip,
//! bytes signature)`. The encoding itself is done by the `clarity` ABI
//! encoder; this module pins down when it is called and that its result is a
//! function of the five fields alone.

use vstd::prelude::*;

use crate::types::{GaslessTransaction, RelayError};

verus! {

/// `clarity::Error`: the ABI encoder's error type, carried through opaquely.
#[verifier::external_type_specification]
#[verifier::external_body]
pub struct ExClarityError(clarity::Error);

/// The ABI encoding of a `userCmdRelayer(uint16,bytes,bytes,bytes,bytes)`
/// call with the given five arguments: the result of
/// `clarity::abi::encode_call`, a function of the arguments alone.
pub uninterp spec fn user_cmd_call_encoding(
    callpath: u16,
    cmd: Seq<u8>,
    conds: Seq<u8>,
    tip: Seq<u8>,
    sig: Seq<u8>,
) -> Seq<u8>;

/// Relies on `clarity::abi::encode_call` with the fixed
/// `userCmdRelayer(uint16,bytes,bytes,bytes,bytes)` signature: the signature
/// parses (braces, no spaces), its five arguments match the five tokens
/// handed over, and each token kind serializes without error, so the call
/// always returns `Ok`, and its result depends on the five arguments alone.
/// Serializing an empty bytes token underflows in the encoder's padding
/// arithmetic, so empty byte fields are left out by `requires`.
#[verifier::external_body]
fn encode_user_cmd_call(
    callpath: u16,
    cmd: &Vec<u8>,
    conds: &Vec<u8>,
    tip: &Vec<u8>,
    sig: &Vec<u8>,
) -> (r: Result<Vec<u8>, clarity::Error>)
    requires
        cmd@.len() > 0,
        conds@.len() > 0,
        tip@.len() > 0,
        sig@.len() > 0,
    ensures
        r is Ok,
        (r matches Ok(call) ==> call@ == user_cmd_call_encoding(
            callpath,
            cmd@,
            conds@,
            tip@,
            sig@,
        )),
{
    clarity::abi::encode_call(
        "userCmdRelayer(uint16,bytes,bytes,bytes,bytes)",
        &[
            callpath.into(),
            cmd.clone().into(),
            conds.clone().into(),
            tip.clone().into(),
            sig.clone().into(),
        ],
    )
}

/// Builds the call data of the `userCmdRelayer` call that relays `tx`:
/// deterministic in the request's fields. Fails with `EncodingRejected`
/// exactly when one of the four byte fields is empty, which the ABI encoder
/// cannot represent; nothing else fails.
pub fn build_user_cmd_call(tx: &GaslessTransaction) -> (r: Result<Vec<u8>, RelayError>)
    ensures
        (tx.cmd@.len() == 0 || tx.conds@.len() == 0 || tx.tip@.len() == 0 || tx.sig@.len()
            == 0) <==> r == Err::<Vec<u8>, RelayError>(RelayError::EncodingRejected),
        (r matches Ok(call) ==> call@ == user_cmd_call_encoding(
            tx.callpath,
            tx.cmd@,
            tx.conds@,
            tx.tip@,
            tx.sig@,
        )),
        r is Ok || r == Err::<Vec<u8>, RelayError>(RelayError::EncodingRejected),
{
    if tx.cmd.len() == 0 || tx.conds.len() == 0 || tx.tip.len() == 0 || tx.sig.len() == 0 {
        return Err(RelayError::EncodingRejected);
    }
    match encode_user_cmd_call(tx.callpath, &tx.cmd, &tx.conds, &tx.tip, &tx.sig) {
        Ok(call) => Ok(call),
        Err(_) => Err(RelayError::EncodingRejected),
    }
}

} // verus!
