//! Trusted declarations for the outside crates the bindings lean on.
//!
//! Each item here either declares an outside type so that it can stand in
//! signatures, names what such a value holds, or wraps a single outside call
//! behind a contract that states what the call's own source shows.

use vstd::prelude::*;

use crate::encoding::be_sint;
use vstd::string::StringSliceAdditionalSpecFns;

verus! {

#[verifier::external_type_specification]
#[verifier::external_body]
pub struct ExBytes(bytes::Bytes);

/// What a shared byte buffer holds.
pub uninterp spec fn bytes_content(b: bytes::Bytes) -> Seq<u8>;

/// Relies on bytes::Bytes::copy_from_slice: the new buffer holds a copy of
/// the given slice.
#[verifier::external_body]
pub fn bytes_copy_from_slice(data: &[u8]) -> (r: bytes::Bytes)
    ensures
        bytes_content(r) == data@,
{
    bytes::Bytes::copy_from_slice(data)
}

#[verifier::external_type_specification]
#[verifier::external_body]
pub struct ExBigInt(num_bigint::BigInt);

/// The integer an arbitrary-precision bignum holds.
pub uninterp spec fn bigint_value(n: num_bigint::BigInt) -> int;

/// Relies on num_bigint::BigInt::from_signed_bytes_be: the bytes are read as
/// big-endian two's complement, a first bit of 1 giving a negative value and
/// no bytes at all giving zero.
#[verifier::external_body]
pub fn bigint_from_signed_bytes_be(digits: &[u8]) -> (r: num_bigint::BigInt)
    ensures
        bigint_value(r) == be_sint(digits@),
{
    num_bigint::BigInt::from_signed_bytes_be(digits)
}

#[verifier::external_type_specification]
#[verifier::external_body]
pub struct ExBigDecimal(bigdecimal::BigDecimal);

/// The unscaled integer an arbitrary-precision decimal holds.
pub uninterp spec fn bigdecimal_unscaled(d: bigdecimal::BigDecimal) -> int;

/// The scale an arbitrary-precision decimal holds; the denoted number is
/// `unscaled * 10^(-scale)`.
pub uninterp spec fn bigdecimal_scale(d: bigdecimal::BigDecimal) -> int;

/// Relies on bigdecimal::BigDecimal::from((BigInt, i64)): the decimal is made
/// of exactly the given unscaled integer and scale.
#[verifier::external_body]
pub fn bigdecimal_from_bigint_and_scale(int_val: num_bigint::BigInt, scale: i64) -> (r:
    bigdecimal::BigDecimal)
    ensures
        bigdecimal_unscaled(r) == bigint_value(int_val),
        bigdecimal_scale(r) == scale,
{
    bigdecimal::BigDecimal::from((int_val, scale))
}

/// Relies on std::str::from_utf8: it returns a string exactly when the bytes
/// are valid UTF-8, and then that string's bytes are the input.
#[verifier::external_body]
pub fn try_str_from_utf8<'a>(v: &'a [u8]) -> (r: Option<&'a str>)
    ensures
        match r {
            Some(s) => vstd::utf8::valid_utf8(v@) && s.spec_bytes() == v@,
            None => !vstd::utf8::valid_utf8(v@),
        },
{
    std::str::from_utf8(v).ok()
}

} // verus!
