//! The arbitrary-precision arithmetic substrate: `num_bigint::BigUint`
//! carried as an opaque value, with the handful of operations the scheme
//! needs, each stated over the natural number the value holds.

use vstd::prelude::*;
use vstd::arithmetic::power2::pow2;

verus! {

/// `num_bigint::BigUint`, declared so that its values can flow through
/// verified code.
#[verifier::external_type_specification]
#[verifier::external_body]
pub struct ExBigUint(num_bigint::BigUint);

/// `rand::rngs::StdRng`, the concrete cryptographically-secure randomness
/// source handed in by callers, declared so that it can be passed through
/// verified code.
#[verifier::external_type_specification]
#[verifier::external_body]
pub struct ExStdRng(rand::rngs::StdRng);

/// The natural number that a `BigUint` holds.
pub uninterp spec fn big_val(x: num_bigint::BigUint) -> nat;

/// Relies on `<BigUint as From<u64>>::from`: the constructed big integer
/// holds exactly the given value.
#[verifier::external_body]
pub(crate) fn big_from_u64(x: u64) -> (r: num_bigint::BigUint)
    ensures
        big_val(r) == x as nat,
{
    num_bigint::BigUint::from(x)
}

/// Relies on `<BigUint as Clone>::clone`: the copy holds the same value.
pub assume_specification[ <num_bigint::BigUint as Clone>::clone ](
    a: &num_bigint::BigUint,
) -> (r: num_bigint::BigUint)
    ensures
        big_val(r) == big_val(*a),
;

/// Relies on `<&BigUint as Add>::add`: exact arbitrary-precision addition.
#[verifier::external_body]
pub(crate) fn big_add(a: &num_bigint::BigUint, b: &num_bigint::BigUint) -> (r: num_bigint::BigUint)
    ensures
        big_val(r) == big_val(*a) + big_val(*b),
{
    a + b
}

/// Relies on `<&BigUint as Mul>::mul`: exact arbitrary-precision
/// multiplication.
#[verifier::external_body]
pub(crate) fn big_mul(a: &num_bigint::BigUint, b: &num_bigint::BigUint) -> (r: num_bigint::BigUint)
    ensures
        big_val(r) == big_val(*a) * big_val(*b),
{
    a * b
}

/// Relies on `<&BigUint as Rem>::rem`: the Euclidean remainder. The
/// divisor must not be zero, for which the operation panics.
#[verifier::external_body]
pub(crate) fn big_mod(a: &num_bigint::BigUint, m: &num_bigint::BigUint) -> (r: num_bigint::BigUint)
    requires
        big_val(*m) >= 1,
    ensures
        big_val(r) == big_val(*a) % big_val(*m),
{
    a % m
}

/// Relies on `<&BigUint as Shr<u64>>::shr`: shifting right by `k` divides
/// by `2^k`, rounding down.
#[verifier::external_body]
pub(crate) fn big_shr(a: &num_bigint::BigUint, k: u64) -> (r: num_bigint::BigUint)
    ensures
        big_val(r) == big_val(*a) / pow2(k as nat),
{
    a >> k
}

/// Relies on `<&BigUint as Shl<u64>>::shl`: shifting left by `k`
/// multiplies by `2^k`.
#[verifier::external_body]
pub(crate) fn big_shl(a: &num_bigint::BigUint, k: u64) -> (r: num_bigint::BigUint)
    ensures
        big_val(r) == big_val(*a) * pow2(k as nat),
{
    a << k
}

/// Relies on `BigUint::bit`: tells whether the bit at position `i` of the
/// held value is set.
#[verifier::external_body]
pub(crate) fn big_bit(a: &num_bigint::BigUint, i: u64) -> (r: bool)
    ensures
        r == ((big_val(*a) / pow2(i as nat)) % 2 == 1),
{
    a.bit(i)
}

/// Relies on `<BigUint as num_traits::Zero>::is_zero`: tells whether the
/// held value is zero.
#[verifier::external_body]
pub(crate) fn big_is_zero(a: &num_bigint::BigUint) -> (r: bool)
    ensures
        r == (big_val(*a) == 0),
{
    num_traits::Zero::is_zero(a)
}

/// Relies on `<BigUint as PartialEq>::eq`: equality of the held values.
#[verifier::external_body]
pub(crate) fn big_eq(a: &num_bigint::BigUint, b: &num_bigint::BigUint) -> (r: bool)
    ensures
        r == (big_val(*a) == big_val(*b)),
{
    a == b
}

/// Relies on `<BigUint as PartialOrd>::lt`: the order of the held values.
#[verifier::external_body]
pub(crate) fn big_lt(a: &num_bigint::BigUint, b: &num_bigint::BigUint) -> (r: bool)
    ensures
        r == (big_val(*a) < big_val(*b)),
{
    a < b
}

/// Relies on `num_bigint::RandBigInt::gen_biguint`: draws a uniformly
/// random value of the given bit size, so the result lies below `2^bits`.
/// Nothing else is assumed of the draw.
#[verifier::external_body]
pub(crate) fn rng_draw(rng: &mut rand::rngs::StdRng, bits: u64) -> (r: num_bigint::BigUint)
    ensures
        big_val(r) < pow2(bits as nat),
{
    num_bigint::RandBigInt::gen_biguint(rng, bits)
}

} // verus!
