//! Lemmas on powers taken modulo `p`, and on the order of a generator.

use vstd::prelude::*;
use vstd::arithmetic::div_mod::{
    lemma_fundamental_div_mod,
    lemma_mod_bound,
    lemma_mul_mod_noop_general,
    lemma_small_mod,
};
use vstd::arithmetic::mul::lemma_mul_nonnegative;
use vstd::arithmetic::power::{
    lemma1_pow,
    lemma_pow1,
    lemma_pow_adds,
    lemma_pow_mod_noop,
    lemma_pow_multiplies,
    pow,
};
use crate::modular::mod_exp;

verus! {

/// `g^q` is congruent to one modulo `p`: the order of `g` divides `q`.
pub open spec fn order_divides(g: nat, q: nat, p: nat) -> bool {
    p >= 1 && q >= 1 && mod_exp(g, q, p) == 1nat % p
}

/// `g` has order `q` modulo `p`: `q` is the least positive exponent that
/// takes `g` to one.
pub open spec fn has_order(g: nat, q: nat, p: nat) -> bool {
    order_divides(g, q, p) && forall|e: nat| 0 < e < q ==> #[trigger] mod_exp(g, e, p) != 1nat % p
}

/// A power taken modulo `p` lies in `[0, p)`.
pub proof fn lemma_mod_exp_range(g: nat, e: nat, p: nat)
    requires
        p >= 1,
    ensures
        mod_exp(g, e, p) < p,
        mod_exp(g, e, p) as int == pow(g as int, e) % (p as int),
{
    lemma_mod_bound(pow(g as int, e), p as int);
}

/// Exponents add under multiplication: `g^a * g^b == g^(a + b)` modulo `p`.
pub proof fn lemma_mod_exp_adds(g: nat, a: nat, b: nat, p: nat)
    requires
        p >= 1,
    ensures
        (mod_exp(g, a, p) * mod_exp(g, b, p)) % p == mod_exp(g, a + b, p),
{
    let gi = g as int;
    let pi = p as int;
    lemma_mod_exp_range(g, a, p);
    lemma_mod_exp_range(g, b, p);
    lemma_mod_exp_range(g, a + b, p);
    lemma_pow_adds(gi, a, b);
    lemma_mul_mod_noop_general(pow(gi, a), pow(gi, b), pi);
    lemma_mul_nonnegative(mod_exp(g, a, p) as int, mod_exp(g, b, p) as int);
}

/// One more factor: `g^e == g^(e - 1) * g` modulo `p`.
pub proof fn lemma_mod_exp_step(g: nat, e: nat, p: nat)
    requires
        p >= 1,
        e >= 1,
    ensures
        mod_exp(g, e, p) == (mod_exp(g, (e - 1) as nat, p) * g) % p,
{
    let before = mod_exp(g, (e - 1) as nat, p);
    lemma_mod_exp_adds(g, (e - 1) as nat, 1, p);
    lemma_pow1(g as int);
    lemma_mod_exp_range(g, 1, p);
    lemma_mod_exp_range(g, (e - 1) as nat, p);
    lemma_mul_mod_noop_general(before as int, g as int, p as int);
}

/// Exponents multiply under iteration: `(g^x)^c == g^(x * c)` modulo `p`.
pub proof fn lemma_mod_exp_multiplies(g: nat, x: nat, c: nat, p: nat)
    requires
        p >= 1,
    ensures
        mod_exp(mod_exp(g, x, p), c, p) == mod_exp(g, x * c, p),
{
    let gi = g as int;
    let pi = p as int;
    lemma_mod_exp_range(g, x, p);
    lemma_pow_mod_noop(pow(gi, x), c, pi);
    lemma_pow_multiplies(gi, x, c);
}

/// Where the order of `g` divides `q`, every multiple of `q` takes `g` to one.
pub proof fn lemma_mod_exp_multiple_of_order(g: nat, q: nat, t: nat, p: nat)
    requires
        order_divides(g, q, p),
    ensures
        mod_exp(g, q * t, p) == 1nat % p,
{
    let pi = p as int;
    lemma_mod_exp_multiplies(g, q, t, p);
    lemma_mod_exp_range(g, q, p);
    assert(mod_exp(g, q, p) as int == 1int % pi);
    lemma_pow_mod_noop(1, t, pi);
    lemma1_pow(t);
}

/// Where the order of `g` divides `q`, exponents count modulo `q` only.
pub proof fn lemma_mod_exp_congruent_exponents(g: nat, a: nat, b: nat, q: nat, p: nat)
    requires
        order_divides(g, q, p),
        a % q == b % q,
    ensures
        mod_exp(g, a, p) == mod_exp(g, b, p),
{
    lemma_mod_exp_reduces_exponent(g, a, q, p);
    lemma_mod_exp_reduces_exponent(g, b, q, p);
}

/// Where the order of `g` divides `q`, `g^a == g^(a mod q)` modulo `p`.
pub proof fn lemma_mod_exp_reduces_exponent(g: nat, a: nat, q: nat, p: nat)
    requires
        order_divides(g, q, p),
    ensures
        mod_exp(g, a, p) == mod_exp(g, a % q, p),
{
    let pi = p as int;
    let t = a / q;
    let r = a % q;
    lemma_fundamental_div_mod(a as int, q as int);
    lemma_mul_nonnegative(q as int, t as int);
    assert(a == q * t + r);
    lemma_mod_exp_adds(g, q * t, r, p);
    lemma_mod_exp_multiple_of_order(g, q, t, p);
    lemma_mod_exp_range(g, r, p);
    let w = mod_exp(g, r, p) as int;
    lemma_mul_mod_noop_general(1, w, pi);
    assert((1int % pi) * w % pi == (1 * w) % pi);
    lemma_small_mod(w as nat, p);
}

/// An exponent that takes a generator of order `q` to one is a multiple of `q`.
pub proof fn lemma_order_divides_exponent(g: nat, d: nat, q: nat, p: nat)
    requires
        has_order(g, q, p),
        mod_exp(g, d, p) == 1nat % p,
    ensures
        d % q == 0,
{
    lemma_mod_exp_reduces_exponent(g, d, q, p);
    lemma_mod_bound(d as int, q as int);
    let r = d % q;
    if r != 0 {
        assert(mod_exp(g, r, p) != 1nat % p);
    }
}

/// A generator of order `q` takes two exponents to the same power only where
/// they are congruent modulo `q`.
pub proof fn lemma_equal_powers_congruent_exponents(g: nat, a: nat, b: nat, q: nat, p: nat)
    requires
        has_order(g, q, p),
        mod_exp(g, a, p) == mod_exp(g, b, p),
    ensures
        a % q == b % q,
{
    let ra = a % q;
    let rb = b % q;
    lemma_mod_bound(a as int, q as int);
    lemma_mod_bound(b as int, q as int);
    lemma_mod_exp_reduces_exponent(g, a, q, p);
    lemma_mod_exp_reduces_exponent(g, b, q, p);
    let back = (q - rb) as nat;
    lemma_mod_exp_adds(g, ra, back, p);
    lemma_mod_exp_adds(g, rb, back, p);
    assert(rb + back == q);
    assert(mod_exp(g, ra + back, p) == 1nat % p);
    lemma_order_divides_exponent(g, ra + back, q, p);
    let n = (ra + back) as int;
    let m = q as int;
    assert(n == m) by {
        lemma_fundamental_div_mod(n, m);
        let t = n / m;
        assert(n == m * t);
        assert(0 < n < 2 * m);
        assert(t == 1) by (nonlinear_arith)
            requires
                n == m * t,
                0 < n < 2 * m,
        ;
    }
}

} // verus!
