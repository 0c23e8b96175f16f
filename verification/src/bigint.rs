//! Arbitrary-precision integers, as immediates and constant arguments hold
//! them. The type is `num_bigint::BigInt`; what each operation used here does
//! to the integer it stands for is stated without proof.

use num_bigint::BigInt;
use num_bigint::Sign;
use vstd::arithmetic::power2::pow2;
use vstd::prelude::*;

verus! {

#[verifier::external_type_specification]
#[verifier::external_body]
pub struct ExBigInt(BigInt);

/// The mathematical integer that a `BigInt` stands for.
pub uninterp spec fn bigint_value(b: BigInt) -> int;

/// The number whose base-256 digits, least significant first, are `bytes`.
pub open spec fn le_bytes_value(bytes: Seq<u8>) -> int
    decreases bytes.len(),
{
    if bytes.len() == 0 {
        0
    } else {
        bytes[0] as int + 256 * le_bytes_value(bytes.subrange(1, bytes.len() as int))
    }
}

/// The number of a list of digits is its first digit plus 256 times the
/// number of the digits after it.
pub proof fn lemma_le_bytes_value_step(bytes: Seq<u8>, from: int)
    requires
        0 <= from < bytes.len(),
    ensures
        le_bytes_value(bytes.skip(from)) == bytes[from] + 256 * le_bytes_value(
            bytes.skip(from + 1),
        ),
{
    let rest = bytes.skip(from);
    assert(rest.subrange(1, rest.len() as int) =~= bytes.skip(from + 1));
}

/// `BigInt::from_bytes_le` with `Sign::Plus`: the bytes are read as the
/// base-256 digits of a non-negative number, least significant first.
#[verifier::external_body]
pub(crate) fn bigint_from_bytes_le(bytes: &[u8]) -> (r: BigInt)
    ensures
        bigint_value(r) == le_bytes_value(bytes@),
{
    BigInt::from_bytes_le(Sign::Plus, bytes)
}

/// `BigInt::from` on an `i64`: the result stands for the same number.
#[verifier::external_body]
pub(crate) fn bigint_from_i64(n: i64) -> (r: BigInt)
    ensures
        bigint_value(r) == n,
{
    BigInt::from(n)
}

/// `i16::try_from` on a `&BigInt`: the number itself where an `i16` can hold
/// it, and an error, given here as `None`, where it cannot.
#[verifier::external_body]
pub(crate) fn bigint_to_i16(b: &BigInt) -> (r: Option<i16>)
    ensures
        i16::MIN <= bigint_value(*b) <= i16::MAX ==> r == Some(bigint_value(*b) as i16),
        !(i16::MIN <= bigint_value(*b) <= i16::MAX) ==> r.is_none(),
{
    i16::try_from(b).ok()
}

/// `u16::try_from` on a `&BigInt`: the number itself where a `u16` can hold
/// it, and an error, given here as `None`, where it cannot.
#[verifier::external_body]
pub(crate) fn bigint_to_u16(b: &BigInt) -> (r: Option<u16>)
    ensures
        0 <= bigint_value(*b) <= u16::MAX ==> r == Some(bigint_value(*b) as u16),
        !(0 <= bigint_value(*b) <= u16::MAX) ==> r.is_none(),
{
    u16::try_from(b).ok()
}

/// `Shl<u32>` of `BigInt`: a left shift by `bits` multiplies by two to the
/// power `bits`. The shift is kept small so that the result's size stays
/// far from what memory holds.
#[verifier::external_body]
pub(crate) fn bigint_shl(b: BigInt, bits: u32) -> (r: BigInt)
    requires
        bits <= 4096,
    ensures
        bigint_value(r) == bigint_value(b) * pow2(bits as nat),
{
    b << bits
}

/// `PartialOrd::ge` of `BigInt`: the order is that of the integers.
#[verifier::external_body]
pub(crate) fn bigint_ge(a: &BigInt, b: &BigInt) -> (r: bool)
    ensures
        r == (bigint_value(*a) >= bigint_value(*b)),
{
    a >= b
}

/// `Clone::clone` of `BigInt`: the copy stands for the same number.
#[verifier::external_body]
pub(crate) fn bigint_clone(b: &BigInt) -> (r: BigInt)
    ensures
        bigint_value(r) == bigint_value(*b),
{
    b.clone()
}

} // verus!
