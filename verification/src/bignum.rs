//! The arbitrary-precision integers of `num_bigint`, as the verifier sees them.
//!
//! A `BigUint` is opaque here. All that is known of one is the natural number
//! it represents, `nat_of`, and what the operations below say about that
//! number. None of these statements is proved: each records what `num_bigint`
//! (or `rand`) documents for the operation it names.

use vstd::prelude::*;
use vstd::arithmetic::power::pow;
use num_bigint::BigUint;
use num_bigint::RandBigInt;
use rand::rngs::ThreadRng;

verus! {

/// `num_bigint::BigUint`, an unsigned integer of unbounded size.
#[verifier::external_type_specification]
#[verifier::external_body]
pub struct ExBigUint(num_bigint::BigUint);

/// `rand::rngs::ThreadRng`, the handle of the thread-local generator.
#[verifier::external_type_specification]
#[verifier::external_body]
pub struct ExThreadRng(rand::rngs::ThreadRng);

/// The natural number that a `BigUint` represents.
pub uninterp spec fn nat_of(n: BigUint) -> nat;

/// `BigUint::modpow`: the result represents `base^exponent mod modulus`.
/// The method panics on a zero modulus, which the precondition excludes.
pub assume_specification[ BigUint::modpow ](
    base: &BigUint,
    exponent: &BigUint,
    modulus: &BigUint,
) -> (r: BigUint)
    requires
        nat_of(*modulus) != 0,
    ensures
        nat_of(r) == pow(nat_of(*base) as int, nat_of(*exponent)) % (nat_of(*modulus) as int),
;

/// `rand::thread_rng`: hands out the generator of the calling thread, which
/// the operating system seeds. Nothing is claimed of the handle. The call
/// panics where the operating system has no entropy to seed it with.
pub assume_specification[ rand::thread_rng ]() -> (rng: ThreadRng)
;

/// `BigUint::from` on a `u32`: the result represents `n`.
#[verifier::external_body]
pub(crate) fn from_u32(n: u32) -> (r: BigUint)
    ensures
        nat_of(r) == n,
{
    BigUint::from(n)
}

/// `&BigUint * &BigUint`: the result represents the product.
#[verifier::external_body]
pub(crate) fn times(a: &BigUint, b: &BigUint) -> (r: BigUint)
    ensures
        nat_of(r) == nat_of(*a) * nat_of(*b),
{
    a * b
}

/// `&BigUint - &BigUint`: the result represents the difference. The
/// operator panics when the difference would be negative, which the
/// precondition excludes.
#[verifier::external_body]
pub(crate) fn minus(a: &BigUint, b: &BigUint) -> (r: BigUint)
    requires
        nat_of(*a) >= nat_of(*b),
    ensures
        nat_of(r) == nat_of(*a) - nat_of(*b),
{
    a - b
}

/// `&BigUint % &BigUint`: the result represents the remainder of the
/// division of `a` by `m`. The operator panics on a zero divisor, which the
/// precondition excludes.
#[verifier::external_body]
pub(crate) fn remainder(a: &BigUint, m: &BigUint) -> (r: BigUint)
    requires
        nat_of(*m) != 0,
    ensures
        nat_of(r) == nat_of(*a) % nat_of(*m),
{
    a % m
}

/// `>=` on `BigUint`: the order of the numbers represented.
#[verifier::external_body]
pub(crate) fn at_least(a: &BigUint, b: &BigUint) -> (r: bool)
    ensures
        r == (nat_of(*a) >= nat_of(*b)),
{
    a >= b
}

/// `==` on `BigUint`: two values are equal exactly when they represent the
/// same number.
#[verifier::external_body]
pub(crate) fn same(a: &BigUint, b: &BigUint) -> (r: bool)
    ensures
        r == (nat_of(*a) == nat_of(*b)),
{
    a == b
}

/// `RandBigInt::gen_biguint_below`: draws a number below `bound`, by
/// rejection: it draws as many random bits as `bound` has until the number
/// they form is below `bound`. The method panics on a zero bound, which the
/// precondition excludes. Which number comes out depends on the generator,
/// so only the range is stated.
#[verifier::external_body]
pub(crate) fn draw_below(rng: &mut ThreadRng, bound: &BigUint) -> (r: BigUint)
    requires
        nat_of(*bound) != 0,
    ensures
        nat_of(r) < nat_of(*bound),
{
    rng.gen_biguint_below(bound)
}

} // verus!
