//! Secret scalars of secp256k1 as 32-byte big-endian strings.

use vstd::prelude::*;

verus! {

/// Length in bytes of a scalar and of a field element.
pub const SCALAR_LEN: usize = 32;

/// The number that a byte string denotes when read most significant byte first.
pub open spec fn be_value(bytes: Seq<u8>) -> nat
    decreases bytes.len(),
{
    if bytes.len() == 0 {
        0
    } else {
        be_value(bytes.drop_last()) * 256 + bytes.last() as nat
    }
}

/// The order of the secp256k1 group.
pub open spec fn group_order() -> nat {
    0xFFFFFFFF_FFFFFFFF_FFFFFFFF_FFFFFFFE_BAAEDCE6_AF48A03B_BFD25E8C_D0364141nat
}

/// A secret scalar is 32 bytes that denote a number from 1 to the group order less 1.
pub open spec fn scalar_valid(bytes: Seq<u8>) -> bool {
    &&& bytes.len() == SCALAR_LEN
    &&& 0 < be_value(bytes) < group_order()
}

/// Bytes that are all zero denote zero.
pub proof fn lemma_zero_bytes_denote_zero(bytes: Seq<u8>)
    requires
        forall|i: int| 0 <= i < bytes.len() ==> bytes[i] == 0,
    ensures
        be_value(bytes) == 0,
    decreases bytes.len(),
{
    if bytes.len() > 0 {
        lemma_zero_bytes_denote_zero(bytes.drop_last());
    }
}

/// A scalar in range is never the zero scalar: one of its bytes is not zero.
pub proof fn lemma_valid_scalar_is_not_zero(bytes: Seq<u8>)
    requires
        scalar_valid(bytes),
    ensures
        exists|i: int| 0 <= i < bytes.len() && bytes[i] != 0,
{
    if forall|i: int| 0 <= i < bytes.len() ==> bytes[i] == 0 {
        lemma_zero_bytes_denote_zero(bytes);
    }
}

/// The error of `elliptic-curve`: it carries nothing but that a key was
/// refused.
#[verifier::external_type_specification]
#[verifier::external_body]
pub struct ExCurveError(elliptic_curve::Error);

/// `SecretKey::from_slice` of `elliptic-curve`, for secp256k1, on 32 bytes.
///
/// Assumed: it accepts exactly the big-endian encodings of the numbers from 1
/// to the group order less 1. (The crate also pads shorter inputs; the length
/// is fixed here so that a key has one encoding.)
#[verifier::external_body]
pub(crate) fn scalar_parses(bytes: &[u8]) -> (r: Result<(), elliptic_curve::Error>)
    requires
        bytes@.len() == SCALAR_LEN,
    ensures
        r is Ok <==> scalar_valid(bytes@),
{
    k256::SecretKey::from_slice(bytes).map(|_| ())
}

} // verus!
