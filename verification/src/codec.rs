//! The tip codec: decoding the fixed-layout tip payload of a relay request.
//!
//! A well-formed tip holds three 32-byte ABI words: the tip token address
//! (right-aligned in bytes 0..32), the tip amount (an unsigned integer of at
//! most 128 bits, right-aligned in bytes 32..64), and the receiver address
//! (right-aligned in bytes 64..96). Anything shorter fails to decode; bytes
//! past the third word are ignored, as the target contract's decoder does.

use vstd::prelude::*;

use crate::types::{Address, DecodedTip, RelayError};

verus! {

/// 256 raised to `n`: the number of values `n` bytes can take.
pub open spec fn pow256(n: nat) -> nat
    decreases n,
{
    if n == 0 {
        1
    } else {
        256 * pow256((n - 1) as nat)
    }
}

/// The unsigned integer a byte sequence denotes in big-endian order.
pub open spec fn be_bytes_val(s: Seq<u8>) -> nat
    decreases s.len(),
{
    if s.len() == 0 {
        0
    } else {
        (256 * be_bytes_val(s.drop_last()) + s.last()) as nat
    }
}

/// A big-endian value fits in as many bytes as spell it.
pub proof fn lemma_be_bytes_val_bound(s: Seq<u8>)
    ensures
        be_bytes_val(s) < pow256(s.len()),
    decreases s.len(),
{
    if s.len() > 0 {
        lemma_be_bytes_val_bound(s.drop_last());
    }
}

/// More bytes can spell no fewer values.
pub proof fn lemma_pow256_monotonic(i: nat, j: nat)
    requires
        i <= j,
    ensures
        pow256(i) <= pow256(j),
    decreases j,
{
    if i < j {
        lemma_pow256_monotonic(i, (j - 1) as nat);
    }
}

/// The address stored right-aligned in the 32-byte word of `s` that starts
/// at `off`: bytes `off + 12 .. off + 32`.
pub open spec fn word_address(s: Seq<u8>, off: int) -> Address {
    Address {
        hi: be_bytes_val(s.subrange(off + 12, off + 16)) as u32,
        lo: be_bytes_val(s.subrange(off + 16, off + 32)) as u128,
    }
}

/// The unsigned 128-bit integer stored right-aligned in the 32-byte word of
/// `s` that starts at `off`: bytes `off + 16 .. off + 32`.
pub open spec fn word_amount(s: Seq<u8>, off: int) -> u128 {
    be_bytes_val(s.subrange(off + 16, off + 32)) as u128
}

/// What decoding a tip payload yields: the three words, or `MalformedTip`
/// exactly when fewer than 96 bytes are given.
pub open spec fn spec_decode_tip(t: Seq<u8>) -> Result<DecodedTip, RelayError> {
    if t.len() < 96 {
        Err(RelayError::MalformedTip)
    } else {
        Ok(
            DecodedTip {
                token: word_address(t, 0),
                amount: word_amount(t, 32),
                receiver: word_address(t, 64),
            },
        )
    }
}

/// Reads `count` bytes of `bytes` starting at `start` as a big-endian
/// unsigned integer of at most 128 bits.
fn read_be_uint(bytes: &Vec<u8>, start: usize, count: usize) -> (r: u128)
    requires
        start + count <= bytes.len(),
        count <= 16,
    ensures
        r == be_bytes_val(bytes@.subrange(start as int, start + count)),
{
    let mut acc: u128 = 0;
    let mut j: usize = 0;
    proof {
        assert(bytes@.subrange(start as int, start as int) =~= Seq::<u8>::empty());
    }
    while j < count
        invariant
            j <= count,
            count <= 16,
            start + count <= bytes.len(),
            acc == be_bytes_val(bytes@.subrange(start as int, start + j)),
            acc < pow256(j as nat),
        decreases count - j,
    {
        let b = bytes[start + j];
        proof {
            let prefix = bytes@.subrange(start as int, start + j);
            let extended = bytes@.subrange(start as int, start + j + 1);
            assert(extended.drop_last() =~= prefix);
            assert(extended.last() == bytes@[start + j]);
            lemma_pow256_monotonic(j as nat, 15);
            assert(pow256(15) * 256 == pow256(16)) by {
                reveal_with_fuel(pow256, 17);
            }
            assert(pow256(16) == 0x1_0000_0000_0000_0000_0000_0000_0000_0000) by {
                reveal_with_fuel(pow256, 17);
            }
        }
        acc = acc * 256 + (b as u128);
        j = j + 1;
    }
    acc
}

/// Decodes a tip payload into its token, amount and receiver.
///
/// Fails with `MalformedTip` exactly when the payload is shorter than the
/// 96 bytes the three fixed-offset fields occupy; a payload of 96 bytes or
/// more always decodes, and the result is a pure function of the bytes.
pub fn decode_tip(tip: &Vec<u8>) -> (r: Result<DecodedTip, RelayError>)
    ensures
        r == spec_decode_tip(tip@),
{
    if tip.len() < 96 {
        return Err(RelayError::MalformedTip);
    }
    let token_hi = read_be_uint(tip, 12, 4);
    let token_lo = read_be_uint(tip, 16, 16);
    let amount = read_be_uint(tip, 48, 16);
    let receiver_hi = read_be_uint(tip, 76, 4);
    let receiver_lo = read_be_uint(tip, 80, 16);
    proof {
        lemma_be_bytes_val_bound(tip@.subrange(12, 16));
        lemma_be_bytes_val_bound(tip@.subrange(76, 80));
        assert(pow256(4) == 0x1_0000_0000) by {
            reveal_with_fuel(pow256, 5);
        }
    }
    Ok(
        DecodedTip {
            token: Address { hi: token_hi as u32, lo: token_lo },
            amount,
            receiver: Address { hi: receiver_hi as u32, lo: receiver_lo },
        },
    )
}

/// Every tip payload shorter than 96 bytes fails to decode, and it fails
/// with `MalformedTip`.
pub proof fn lemma_short_tip_malformed(t: Seq<u8>)
    requires
        t.len() < 96,
    ensures
        spec_decode_tip(t) == Err::<DecodedTip, RelayError>(RelayError::MalformedTip),
{
}

/// Decoding is deterministic: equal tip payloads decode to equal results,
/// with no other input involved.
pub proof fn lemma_decode_deterministic(a: Seq<u8>, b: Seq<u8>)
    requires
        a == b,
    ensures
        spec_decode_tip(a) == spec_decode_tip(b),
{
}

} // verus!
