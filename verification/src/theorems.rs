//! What holds of the protocol as a whole: an honest prover is always
//! accepted, a prover that answers with another secret is accepted for one
//! challenge only, and responses are canonical.

use vstd::prelude::*;
use vstd::arithmetic::div_mod::{
    lemma_add_mod_noop,
    lemma_fundamental_div_mod,
    lemma_mod_bound,
    lemma_mod_equivalence,
    lemma_mod_multiples_basic,
    lemma_small_mod,
};
use vstd::arithmetic::mul::{lemma_mul_is_commutative, lemma_mul_nonnegative};
use vstd::arithmetic::power::lemma_pow0;
use crate::congruence::{
    has_order,
    lemma_equal_powers_congruent_exponents,
    lemma_mod_exp_adds,
    lemma_mod_exp_congruent_exponents,
    lemma_mod_exp_multiplies,
    order_divides,
};
use crate::modular::{accepts, congruence_holds, mod_exp, response};

verus! {

/// `n` is a prime number.
pub open spec fn is_prime(n: nat) -> bool {
    n >= 2 && forall|d: nat| 1 < d < n ==> #[trigger] (n % d) != 0
}

/// The group parameters are valid: `p` and `q` are prime, `q` divides
/// `p - 1`, and both generators have order `q` modulo `p`.
pub open spec fn valid_parameters(p: nat, q: nat, alpha: nat, beta: nat) -> bool {
    &&& is_prime(p)
    &&& is_prime(q)
    &&& (p - 1) % (q as int) == 0
    &&& has_order(alpha, q, p)
    &&& has_order(beta, q, p)
}

/// A prime divides no product of two positive numbers below it.
pub proof fn lemma_prime_divides_no_small_product(q: nat, a: nat, b: nat)
    requires
        is_prime(q),
        0 < a < q,
        0 < b < q,
    ensures
        (a * b) % q != 0,
    decreases a,
{
    if a == 1 {
        assert(a * b == b) by (nonlinear_arith)
            requires
                a == 1,
        ;
        lemma_small_mod(b, q);
    } else {
        let t = q / a;
        let r = q % a;
        lemma_fundamental_div_mod(q as int, a as int);
        lemma_mod_bound(q as int, a as int);
        assert(r != 0);
        lemma_prime_divides_no_small_product(q, r, b);
        if (a * b) % q == 0 {
            let j = (a * b) / q;
            lemma_fundamental_div_mod((a * b) as int, q as int);
            assert(r * b == (b - t * j) * q) by (nonlinear_arith)
                requires
                    q == a * t + r,
                    a * b == q * j,
            ;
            lemma_mod_multiples_basic(b - t * j, q as int);
            assert(false);
        }
    }
}

/// The right-hand side of a congruence on an honest public value `g^x` is a
/// single power of `g`: `g^s * (g^x)^c == g^(s + x * c)` modulo `p`.
pub proof fn lemma_congruence_exponent(g: nat, x: nat, c: nat, s: nat, p: nat)
    requires
        p >= 1,
    ensures
        (mod_exp(g, s, p) * mod_exp(mod_exp(g, x, p), c, p)) % p == mod_exp(g, s + x * c, p),
{
    lemma_mod_exp_multiplies(g, x, c, p);
    lemma_mod_exp_adds(g, s, x * c, p);
}

/// The response added to `c * x` is congruent to `k` modulo `q`.
pub proof fn lemma_response_restores_commitment(k: nat, c: nat, x: nat, q: nat)
    requires
        q >= 1,
    ensures
        (response(k, c, x, q) + x * c) % q == k % q,
{
    let m = q as int;
    let cx = (c * x) as int;
    lemma_mul_is_commutative(c as int, x as int);
    lemma_mul_nonnegative(c as int, x as int);
    lemma_mod_bound(k - cx, m);
    lemma_add_mod_noop(k - cx, cx, m);
    lemma_add_mod_noop((k - cx) % m, cx, m);
    assert(((k - cx) % m) % m == (k - cx) % m) by {
        lemma_small_mod(((k - cx) % m) as nat, q);
    }
}

/// A response is canonical: it lies in `[0, q)`, and it is zero where `k` is
/// congruent to `c * x` modulo `q`.
pub proof fn theorem_response_range(k: nat, c: nat, x: nat, q: nat)
    requires
        q >= 1,
    ensures
        response(k, c, x, q) < q,
        k % q == (c * x) % q ==> response(k, c, x, q) == 0,
{
    let m = q as int;
    lemma_mod_bound(k - c * x, m);
    lemma_mul_nonnegative(c as int, x as int);
    lemma_mod_equivalence(k as int, (c * x) as int, m);
}

/// Any base to the power zero is one, reduced modulo the modulus: one for a
/// modulus above one, zero for the modulus one.
pub proof fn theorem_zero_exponent(base: nat, modulus: nat)
    requires
        modulus >= 1,
    ensures
        mod_exp(base, 0, modulus) == 1nat % modulus,
        modulus > 1 ==> mod_exp(base, 0, modulus) == 1,
{
    lemma_pow0(base as int);
    if modulus > 1 {
        lemma_small_mod(1, modulus);
    }
}

/// One congruence, on honest commitment and public value, holds for the
/// response computed with the same secret.
pub proof fn lemma_honest_congruence(g: nat, k: nat, x: nat, c: nat, q: nat, p: nat)
    requires
        order_divides(g, q, p),
    ensures
        congruence_holds(mod_exp(g, k, p), mod_exp(g, x, p), g, c, response(k, c, x, q), p),
{
    let s = response(k, c, x, q);
    lemma_congruence_exponent(g, x, c, s, p);
    lemma_response_restores_commitment(k, c, x, q);
    lemma_mul_nonnegative(x as int, c as int);
    lemma_mod_exp_congruent_exponents(g, s + x * c, k, q, p);
}

/// Completeness: with valid parameters, the verifier accepts the commitments
/// `alpha^k, beta^k`, the public values `alpha^x, beta^x` and the response
/// `(k - c * x) mod q`, whatever the secret `x`, the ephemeral secret `k` and
/// the challenge `c` are.
pub proof fn theorem_completeness(
    p: nat,
    q: nat,
    alpha: nat,
    beta: nat,
    x: nat,
    k: nat,
    c: nat,
)
    requires
        valid_parameters(p, q, alpha, beta),
    ensures
        accepts(
            mod_exp(alpha, k, p),
            mod_exp(beta, k, p),
            mod_exp(alpha, x, p),
            mod_exp(beta, x, p),
            alpha,
            beta,
            c,
            response(k, c, x, q),
            p,
        ),
{
    lemma_honest_congruence(alpha, k, x, c, q, p);
    lemma_honest_congruence(beta, k, x, c, q, p);
}

/// One congruence, on honest commitment and public value `g^x`, holds for
/// the response computed with a secret `w` exactly where `c * x` and `c * w`
/// are congruent modulo the order of `g`.
pub proof fn lemma_congruence_decides(g: nat, k: nat, x: nat, w: nat, c: nat, q: nat, p: nat)
    requires
        has_order(g, q, p),
    ensures
        congruence_holds(mod_exp(g, k, p), mod_exp(g, x, p), g, c, response(k, c, w, q), p)
            <==> (c * x) % q == (c * w) % q,
{
    let s = response(k, c, w, q);
    let m = q as int;
    let cx = (c * x) as int;
    let cw = (c * w) as int;
    lemma_mul_nonnegative(c as int, x as int);
    lemma_mul_nonnegative(c as int, w as int);
    lemma_mul_is_commutative(c as int, x as int);
    lemma_congruence_exponent(g, x, c, s, p);
    // s + c * x is congruent to k + (c * x - c * w) modulo q
    lemma_mod_bound(k - cw, m);
    lemma_add_mod_noop(k - cw, cx, m);
    lemma_add_mod_noop((k - cw) % m, cx, m);
    lemma_small_mod(((k - cw) % m) as nat, q);
    assert((s + cx) % m == (k + (cx - cw)) % m);
    lemma_mod_equivalence(k + (cx - cw), k as int, m);
    lemma_mod_equivalence(cx, cw, m);
    if (s + x * c) % q == k % q {
        lemma_mod_exp_congruent_exponents(g, s + x * c, k, q, p);
    }
    if mod_exp(g, k, p) == mod_exp(g, s + x * c, p) {
        lemma_equal_powers_congruent_exponents(g, k, s + x * c, q, p);
    }
}

/// Soundness: with valid parameters, a response computed with a secret `w`
/// other than the secret `x` behind the public values is accepted for the
/// challenge zero and for no other challenge in `[0, q)`. A challenge drawn
/// uniformly from `[0, q)` therefore exposes the wrong secret with
/// probability `1 - 1/q`.
pub proof fn theorem_soundness(
    p: nat,
    q: nat,
    alpha: nat,
    beta: nat,
    x: nat,
    w: nat,
    k: nat,
    c: nat,
)
    requires
        valid_parameters(p, q, alpha, beta),
        x < q,
        w < q,
        x != w,
        c < q,
    ensures
        accepts(
            mod_exp(alpha, k, p),
            mod_exp(beta, k, p),
            mod_exp(alpha, x, p),
            mod_exp(beta, x, p),
            alpha,
            beta,
            c,
            response(k, c, w, q),
            p,
        ) <==> c == 0,
{
    lemma_congruence_decides(alpha, k, x, w, c, q, p);
    lemma_congruence_decides(beta, k, x, w, c, q, p);
    let m = q as int;
    if c == 0 {
        assert(c * x == 0 && c * w == 0) by (nonlinear_arith)
            requires
                c == 0,
        ;
    } else {
        let hi = if x > w { x } else { w };
        let lo = if x > w { w } else { x };
        let d = (hi - lo) as nat;
        lemma_prime_divides_no_small_product(q, c, d);
        assert(c * d == c * hi - c * lo) by (nonlinear_arith)
            requires
                d == hi - lo,
        ;
        lemma_mod_equivalence((c * hi) as int, (c * lo) as int, m);
    }
}

} // verus!
