//! Arithmetic engine of the Chaum-Pedersen sigma protocol: a prover shows that
//! it knows one exponent `x` with `y1 = alpha^x mod p` and `y2 = beta^x mod p`
//! without disclosing it.
//!
//! All numbers are arbitrary-precision unsigned integers. Contracts are stated
//! over the natural number that each of them stands for.

pub mod bignum;
pub mod congruence;
pub mod modular;
pub mod protocol;
pub mod small_group;
pub mod theorems;

pub use protocol::{
    exponentiate, generate_random, solve, try_exponentiate, try_generate_random, try_solve,
    try_verify, validate_modulus, verify, ProtocolError,
};
