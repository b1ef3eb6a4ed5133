//! Balance policy: byte footprints and minimum required balances.
//!
//! A registered record costs a fixed per-record overhead plus one byte per
//! byte of its identifier. The minimum balance an account must hold is that
//! footprint scaled by the configured price per byte. When no identifier is
//! given (the global bounds query) the policy prices the longest identifier
//! the protocol permits, as a conservative upper bound.

use vstd::arithmetic::mul::lemma_mul_inequality;
use vstd::arithmetic::mul::lemma_mul_is_commutative;
use vstd::prelude::*;

verus! {

/// Price in currency units charged per byte of storage footprint.
pub const PRICE_PER_BYTE: u128 = 10_000_000_000_000_000_000;

/// Fixed per-record overhead in bytes: the ledger's bookkeeping around one
/// record (balance and usage fields, keying structure), independent of the
/// identifier.
pub const RECORD_OVERHEAD: u64 = 40;

/// Longest identifier the protocol permits, in bytes.
pub const MAX_IDENTIFIER_LENGTH: u64 = 64;

/// Byte length of an identifier, as the store keys it.
pub open spec fn id_byte_len(id: Seq<char>) -> nat {
    vstd::utf8::encode_utf8(id).len()
}

/// Byte footprint of one record keyed by an identifier of `len` bytes.
pub open spec fn footprint_of_len(len: nat) -> int {
    RECORD_OVERHEAD + len
}

/// Byte footprint of the record keyed by `id`.
pub open spec fn footprint_of(id: Seq<char>) -> int {
    footprint_of_len(id_byte_len(id))
}

/// Minimum balance required for a record keyed by an identifier of `len`
/// bytes, as unbounded arithmetic.
pub open spec fn required_min_of_len(len: nat) -> int {
    PRICE_PER_BYTE * footprint_of_len(len)
}

/// Minimum balance required for the record keyed by `id`.
pub open spec fn required_min_of(id: Seq<char>) -> int {
    required_min_of_len(id_byte_len(id))
}

/// The required minimum fits a 128-bit amount for every identifier length
/// that fits 64 bits.
pub proof fn lemma_required_min_fits(len: nat)
    requires
        len <= u64::MAX,
    ensures
        0 <= required_min_of_len(len) <= u128::MAX,
{
    let fp = footprint_of_len(len);
    let fp_max = footprint_of_len(u64::MAX as nat);
    lemma_mul_is_commutative(PRICE_PER_BYTE as int, fp);
    lemma_mul_is_commutative(PRICE_PER_BYTE as int, fp_max);
    lemma_mul_inequality(fp, fp_max, PRICE_PER_BYTE as int);
    lemma_mul_inequality(0, fp, PRICE_PER_BYTE as int);
}

/// Computes the required minimum balance for an identifier of `len` bytes.
pub fn required_min_for_len(len: u64) -> (r: u128)
    ensures
        r == required_min_of_len(len as nat),
{
    proof {
        lemma_required_min_fits(len as nat);
        lemma_mul_is_commutative(PRICE_PER_BYTE as int, footprint_of_len(len as nat));
    }
    (RECORD_OVERHEAD as u128 + len as u128) * PRICE_PER_BYTE
}

/// Byte footprint of the record keyed by `identifier`, or `None` where it
/// does not fit the 64-bit usage counter.
pub fn footprint_checked(identifier: &String) -> (r: Option<u64>)
    requires
        id_byte_len(identifier@) <= usize::MAX,
    ensures
        r is Some <==> footprint_of(identifier@) <= u64::MAX,
        r matches Some(f) ==> f == footprint_of(identifier@),
{
    let len: usize = identifier.as_str().len();
    if len as u64 <= u64::MAX - RECORD_OVERHEAD {
        Some(RECORD_OVERHEAD + len as u64)
    } else {
        None
    }
}

} // verus!
