//! A group small enough to check by hand: the subgroup of order 11 of the
//! residues modulo 23, with the generators 4 and 9. It shows that the
//! hypotheses of the theorems can be met.

use vstd::prelude::*;
use vstd::arithmetic::power::lemma_pow0;
use crate::congruence::lemma_mod_exp_step;
use crate::modular::mod_exp;
use crate::theorems::{is_prime, valid_parameters};

verus! {

proof fn lemma_eleven_and_twenty_three_are_prime()
    ensures
        is_prime(11),
        is_prime(23),
{
    assert forall|d: nat| 1 < d < 11 implies #[trigger] (11nat % d) != 0 by {
        assert(d == 2 || d == 3 || d == 4 || d == 5 || d == 6 || d == 7 || d == 8 || d == 9 || d
            == 10);
    }
    assert forall|d: nat| 1 < d < 23 implies #[trigger] (23nat % d) != 0 by {
        assert(d == 2 || d == 3 || d == 4 || d == 5 || d == 6 || d == 7 || d == 8 || d == 9 || d
            == 10 || d == 11 || d == 12 || d == 13 || d == 14 || d == 15 || d == 16 || d == 17 || d
            == 18 || d == 19 || d == 20 || d == 21 || d == 22);
    }
}

/// The powers of 4 modulo 23, up to the eleventh, which is the first to be one.
proof fn lemma_powers_of_four()
    ensures
        mod_exp(4, 1, 23) == 4,
        mod_exp(4, 2, 23) == 16,
        mod_exp(4, 3, 23) == 18,
        mod_exp(4, 4, 23) == 3,
        mod_exp(4, 5, 23) == 12,
        mod_exp(4, 6, 23) == 2,
        mod_exp(4, 7, 23) == 8,
        mod_exp(4, 8, 23) == 9,
        mod_exp(4, 9, 23) == 13,
        mod_exp(4, 10, 23) == 6,
        mod_exp(4, 11, 23) == 1,
{
    lemma_pow0(4);
    assert(mod_exp(4, 0, 23) == 1);
    lemma_mod_exp_step(4, 1, 23);
    lemma_mod_exp_step(4, 2, 23);
    lemma_mod_exp_step(4, 3, 23);
    lemma_mod_exp_step(4, 4, 23);
    lemma_mod_exp_step(4, 5, 23);
    lemma_mod_exp_step(4, 6, 23);
    lemma_mod_exp_step(4, 7, 23);
    lemma_mod_exp_step(4, 8, 23);
    lemma_mod_exp_step(4, 9, 23);
    lemma_mod_exp_step(4, 10, 23);
    lemma_mod_exp_step(4, 11, 23);
}

/// The powers of 9 modulo 23, up to the eleventh, which is the first to be one.
proof fn lemma_powers_of_nine()
    ensures
        mod_exp(9, 1, 23) == 9,
        mod_exp(9, 2, 23) == 12,
        mod_exp(9, 3, 23) == 16,
        mod_exp(9, 4, 23) == 6,
        mod_exp(9, 5, 23) == 8,
        mod_exp(9, 6, 23) == 3,
        mod_exp(9, 7, 23) == 4,
        mod_exp(9, 8, 23) == 13,
        mod_exp(9, 9, 23) == 2,
        mod_exp(9, 10, 23) == 18,
        mod_exp(9, 11, 23) == 1,
{
    lemma_pow0(9);
    assert(mod_exp(9, 0, 23) == 1);
    lemma_mod_exp_step(9, 1, 23);
    lemma_mod_exp_step(9, 2, 23);
    lemma_mod_exp_step(9, 3, 23);
    lemma_mod_exp_step(9, 4, 23);
    lemma_mod_exp_step(9, 5, 23);
    lemma_mod_exp_step(9, 6, 23);
    lemma_mod_exp_step(9, 7, 23);
    lemma_mod_exp_step(9, 8, 23);
    lemma_mod_exp_step(9, 9, 23);
    lemma_mod_exp_step(9, 10, 23);
    lemma_mod_exp_step(9, 11, 23);
}

/// The parameters `p = 23`, `q = 11`, `alpha = 4`, `beta = 9` are valid.
pub proof fn lemma_small_group_is_valid()
    ensures
        valid_parameters(23, 11, 4, 9),
{
    lemma_eleven_and_twenty_three_are_prime();
    lemma_powers_of_four();
    lemma_powers_of_nine();
    assert forall|e: nat| 0 < e < 11 implies #[trigger] mod_exp(4, e, 23) != 1nat % 23 by {
        assert(e == 1 || e == 2 || e == 3 || e == 4 || e == 5 || e == 6 || e == 7 || e == 8 || e
            == 9 || e == 10);
    }
    assert forall|e: nat| 0 < e < 11 implies #[trigger] mod_exp(9, e, 23) != 1nat % 23 by {
        assert(e == 1 || e == 2 || e == 3 || e == 4 || e == 5 || e == 6 || e == 7 || e == 8 || e
            == 9 || e == 10);
    }
}

} // verus!
