use chaum_pedersen::{
    try_exponentiate, try_generate_random, try_solve, try_verify, ProtocolError,
};
use num_bigint::BigUint;

fn big(n: u32) -> BigUint {
    BigUint::from(n)
}

#[test]
fn try_exponentiate_rejects_zero_modulus() {
    assert_eq!(
        try_exponentiate(&big(4), &big(6), &big(0)),
        Err(ProtocolError::InvalidModulus)
    );
    assert_eq!(
        try_exponentiate(&big(0), &big(0), &big(0)),
        Err(ProtocolError::InvalidModulus)
    );
}

#[test]
fn try_exponentiate_computes_with_valid_modulus() {
    assert_eq!(try_exponentiate(&big(4), &big(6), &big(23)), Ok(big(2)));
    assert_eq!(try_exponentiate(&big(9), &big(7), &big(23)), Ok(big(4)));
    assert_eq!(try_exponentiate(&big(4), &big(6), &big(1)), Ok(big(0)));
}

#[test]
fn try_solve_rejects_zero_order() {
    assert_eq!(
        try_solve(&big(7), &big(4), &big(6), &big(0)),
        Err(ProtocolError::InvalidModulus)
    );
    assert_eq!(
        try_solve(&big(30), &big(2), &big(3), &big(0)),
        Err(ProtocolError::InvalidModulus)
    );
}

#[test]
fn try_solve_computes_with_valid_order() {
    assert_eq!(try_solve(&big(7), &big(4), &big(6), &big(11)), Ok(big(5)));
    assert_eq!(try_solve(&big(2), &big(4), &big(6), &big(11)), Ok(big(0)));
    assert_eq!(try_solve(&big(30), &big(2), &big(3), &big(11)), Ok(big(2)));
}

#[test]
fn try_verify_rejects_zero_modulus() {
    assert_eq!(
        try_verify(
            &big(8),
            &big(4),
            &big(2),
            &big(3),
            &big(4),
            &big(9),
            &big(4),
            &big(5),
            &big(0)
        ),
        Err(ProtocolError::InvalidModulus)
    );
}

#[test]
fn try_verify_reports_a_failed_proof_as_false() {
    assert_eq!(
        try_verify(
            &big(8),
            &big(4),
            &big(2),
            &big(3),
            &big(4),
            &big(9),
            &big(4),
            &big(5),
            &big(23)
        ),
        Ok(true)
    );
    assert_eq!(
        try_verify(
            &big(8),
            &big(4),
            &big(2),
            &big(3),
            &big(4),
            &big(9),
            &big(4),
            &big(6),
            &big(23)
        ),
        Ok(false)
    );
}

#[test]
fn try_generate_random_rejects_zero_limit() {
    assert_eq!(try_generate_random(&big(0)), Err(ProtocolError::InvalidModulus));
}

#[test]
fn try_generate_random_draws_below_valid_limit() {
    assert_eq!(try_generate_random(&big(1)), Ok(big(0)));
    for _ in 0..100 {
        let v = try_generate_random(&big(11));
        assert!(matches!(v, Ok(ref n) if *n < big(11)));
    }
}
