//! The mathematics of the protocol, over natural numbers.

use vstd::prelude::*;
use vstd::arithmetic::power::pow;

verus! {

/// `base^exponent mod modulus`.
pub open spec fn mod_exp(base: nat, exponent: nat, modulus: nat) -> nat
    recommends
        modulus >= 1,
{
    (pow(base as int, exponent) % (modulus as int)) as nat
}

/// The prover's response `(k - c * x) mod q`: the difference is taken over
/// the integers and then reduced into `[0, q)`.
pub open spec fn response(k: nat, c: nat, x: nat, q: nat) -> nat
    recommends
        q >= 1,
{
    ((k - c * x) % (q as int)) as nat
}

/// One congruence of the verifier: `r == g^s * y^c mod p`.
pub open spec fn congruence_holds(r: nat, y: nat, g: nat, c: nat, s: nat, p: nat) -> bool
    recommends
        p >= 1,
{
    r == (mod_exp(g, s, p) * mod_exp(y, c, p)) % p
}

/// What the verifier accepts: both congruences, one for each generator.
pub open spec fn accepts(
    r1: nat,
    r2: nat,
    y1: nat,
    y2: nat,
    alpha: nat,
    beta: nat,
    c: nat,
    s: nat,
    p: nat,
) -> bool
    recommends
        p >= 1,
{
    congruence_holds(r1, y1, alpha, c, s, p) && congruence_holds(r2, y2, beta, c, s, p)
}

} // verus!
