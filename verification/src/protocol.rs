//! The four operations of the protocol.

use vstd::prelude::*;
use vstd::arithmetic::div_mod::{lemma_mod_add_multiples_vanish, lemma_sub_mod_noop_right};
use num_bigint::BigUint;
use rand::thread_rng;
use crate::bignum::{at_least, draw_below, from_u32, minus, nat_of, remainder, same, times};
use crate::modular::{accepts, congruence_holds, mod_exp, response};

verus! {

/// Why the engine refuses to compute.
#[derive(Clone, Copy, Debug, PartialEq, Eq, Structural)]
pub enum ProtocolError {
    /// A modulus below one: no residue exists modulo zero.
    InvalidModulus,
}

/// Tells whether `modulus` can serve as a modulus (`p`, `q`, or the limit of
/// a random draw): every operation of the engine asks for one of at least
/// one, and this is the test to make before calling them. The `try_`
/// functions below make it themselves.
pub fn validate_modulus(modulus: &BigUint) -> (r: Result<(), ProtocolError>)
    ensures
        r is Ok <==> nat_of(*modulus) >= 1,
        r is Err ==> r->Err_0 == ProtocolError::InvalidModulus,
{
    let one = from_u32(1);
    if at_least(modulus, &one) {
        Ok(())
    } else {
        Err(ProtocolError::InvalidModulus)
    }
}

/// Modular exponentiation: `num^exponent mod modulus`, for a modulus of at
/// least one.
pub fn exponentiate(num: &BigUint, exponent: &BigUint, modulus: &BigUint) -> (r: BigUint)
    requires
        nat_of(*modulus) >= 1,
    ensures
        nat_of(r) == mod_exp(nat_of(*num), nat_of(*exponent), nat_of(*modulus)),
        nat_of(r) < nat_of(*modulus),
{
    num.modpow(exponent, modulus)
}

/// The prover's response to the challenge `c`: `(k - c * x) mod q`, always
/// in `[0, q)`.
pub fn solve(k: &BigUint, c: &BigUint, x: &BigUint, q: &BigUint) -> (s: BigUint)
    requires
        nat_of(*q) >= 1,
    ensures
        nat_of(s) == response(nat_of(*k), nat_of(*c), nat_of(*x), nat_of(*q)),
        nat_of(s) < nat_of(*q),
{
    let product = times(c, x);
    if at_least(k, &product) {
        remainder(&minus(k, &product), q)
    } else {
        let excess = remainder(&minus(&product, k), q);
        let s = remainder(&minus(q, &excess), q);
        proof {
            let m = nat_of(*q) as int;
            let d = nat_of(product) - nat_of(*k);
            lemma_sub_mod_noop_right(m, d, m);
            lemma_mod_add_multiples_vanish(-d, m);
        }
        s
    }
}

/// The right-hand side of one congruence, `g^s * y^c mod p`, compared with
/// the commitment `r`.
fn check_congruence(r: &BigUint, y: &BigUint, g: &BigUint, c: &BigUint, s: &BigUint, p: &BigUint)
    -> (ok: bool)
    requires
        nat_of(*p) >= 1,
    ensures
        ok == congruence_holds(
            nat_of(*r),
            nat_of(*y),
            nat_of(*g),
            nat_of(*c),
            nat_of(*s),
            nat_of(*p),
        ),
{
    let expected = remainder(&times(&g.modpow(s, p), &y.modpow(c, p)), p);
    same(r, &expected)
}

/// The verifier's decision on a response `s` to the challenge `c`.
pub fn verify(
    r1: &BigUint,
    r2: &BigUint,
    y1: &BigUint,
    y2: &BigUint,
    alpha: &BigUint,
    beta: &BigUint,
    c: &BigUint,
    s: &BigUint,
    p: &BigUint,
) -> (ok: bool)
    requires
        nat_of(*p) >= 1,
    ensures
        ok == accepts(
            nat_of(*r1),
            nat_of(*r2),
            nat_of(*y1),
            nat_of(*y2),
            nat_of(*alpha),
            nat_of(*beta),
            nat_of(*c),
            nat_of(*s),
            nat_of(*p),
        ),
{
    let cond1 = check_congruence(r1, y1, alpha, c, s, p);
    let cond2 = check_congruence(r2, y2, beta, c, s, p);
    cond1 && cond2
}

/// A number drawn from `[0, limit)` with the thread's secure generator.
pub fn generate_random(limit: &BigUint) -> (r: BigUint)
    requires
        nat_of(*limit) >= 1,
    ensures
        nat_of(r) < nat_of(*limit),
{
    let mut rng = thread_rng();
    draw_below(&mut rng, limit)
}

/// `exponentiate` for callers that have not validated the modulus: an
/// invalid one is rejected before anything is computed.
pub fn try_exponentiate(num: &BigUint, exponent: &BigUint, modulus: &BigUint) -> (r: Result<
    BigUint,
    ProtocolError,
>)
    ensures
        r is Ok <==> nat_of(*modulus) >= 1,
        r is Ok ==> nat_of(r->Ok_0) == mod_exp(
            nat_of(*num),
            nat_of(*exponent),
            nat_of(*modulus),
        ),
        r is Err ==> r->Err_0 == ProtocolError::InvalidModulus,
{
    match validate_modulus(modulus) {
        Ok(()) => Ok(exponentiate(num, exponent, modulus)),
        Err(e) => Err(e),
    }
}

/// `solve` for callers that have not validated the order `q`: an invalid
/// one is rejected before anything is computed.
pub fn try_solve(k: &BigUint, c: &BigUint, x: &BigUint, q: &BigUint) -> (r: Result<
    BigUint,
    ProtocolError,
>)
    ensures
        r is Ok <==> nat_of(*q) >= 1,
        r is Ok ==> nat_of(r->Ok_0) == response(nat_of(*k), nat_of(*c), nat_of(*x), nat_of(*q)),
        r is Err ==> r->Err_0 == ProtocolError::InvalidModulus,
{
    match validate_modulus(q) {
        Ok(()) => Ok(solve(k, c, x, q)),
        Err(e) => Err(e),
    }
}

/// `verify` for callers that have not validated the modulus `p`: an invalid
/// one is rejected before anything is computed. A proof that does not hold
/// is no error: it is `Ok(false)`.
pub fn try_verify(
    r1: &BigUint,
    r2: &BigUint,
    y1: &BigUint,
    y2: &BigUint,
    alpha: &BigUint,
    beta: &BigUint,
    c: &BigUint,
    s: &BigUint,
    p: &BigUint,
) -> (r: Result<bool, ProtocolError>)
    ensures
        r is Ok <==> nat_of(*p) >= 1,
        r is Ok ==> r->Ok_0 == accepts(
            nat_of(*r1),
            nat_of(*r2),
            nat_of(*y1),
            nat_of(*y2),
            nat_of(*alpha),
            nat_of(*beta),
            nat_of(*c),
            nat_of(*s),
            nat_of(*p),
        ),
        r is Err ==> r->Err_0 == ProtocolError::InvalidModulus,
{
    match validate_modulus(p) {
        Ok(()) => Ok(verify(r1, r2, y1, y2, alpha, beta, c, s, p)),
        Err(e) => Err(e),
    }
}

/// `generate_random` for callers that have not validated the limit: below a
/// limit of zero there is nothing to draw, and the limit is rejected.
pub fn try_generate_random(limit: &BigUint) -> (r: Result<BigUint, ProtocolError>)
    ensures
        r is Ok <==> nat_of(*limit) >= 1,
        r is Ok ==> nat_of(r->Ok_0) < nat_of(*limit),
        r is Err ==> r->Err_0 == ProtocolError::InvalidModulus,
{
    match validate_modulus(limit) {
        Ok(()) => Ok(generate_random(limit)),
        Err(e) => Err(e),
    }
}

} // verus!
