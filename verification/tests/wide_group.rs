use chaum_pedersen::{exponentiate, generate_random, solve, verify};
use num_bigint::BigUint;

fn dec(digits: &str) -> BigUint {
    BigUint::parse_bytes(digits.as_bytes(), 10).unwrap()
}

fn p() -> BigUint {
    dec("112620090685395401211370675685199950962464192332566350105744718658437669228463")
}

fn q() -> BigUint {
    dec("56310045342697700605685337842599975481232096166283175052872359329218834614231")
}

fn alpha() -> BigUint {
    dec("99226839314658495345773250589463361213967274316378814416973748064820592257878")
}

fn beta() -> BigUint {
    dec("70804194643145884344840223368135507043842732285651249925606545007743526016635")
}

fn secret() -> BigUint {
    dec("15752530772627838214232315544196962566959680635250472970274644323949857628846")
}

fn ephemeral() -> BigUint {
    dec("29739677418286076569451440761597880900283320782693608509157054941405659821678")
}

fn challenge() -> BigUint {
    dec("49339021272416163617162348105876593801216262859761443831697427853293115116541")
}

#[test]
fn wide_group_generators_have_order_q() {
    assert_eq!(exponentiate(&alpha(), &q(), &p()), BigUint::from(1u32));
    assert_eq!(exponentiate(&beta(), &q(), &p()), BigUint::from(1u32));
}

#[test]
fn wide_group_public_values_and_commitments() {
    assert_eq!(
        exponentiate(&alpha(), &secret(), &p()),
        dec("56325233146181973162007440965198528459463775401536518429731213875780668507172")
    );
    assert_eq!(
        exponentiate(&beta(), &secret(), &p()),
        dec("84093966154714643121000846522643956345360494603598695515775128357419612615837")
    );
    assert_eq!(
        exponentiate(&alpha(), &ephemeral(), &p()),
        dec("36046127802941784780210631960201911990480860705032225417842347826076879442857")
    );
    assert_eq!(
        exponentiate(&beta(), &ephemeral(), &p()),
        dec("83112045874885797396331204852001928639952684636171623329814044205280248574013")
    );
}

#[test]
fn wide_group_exponentiate_with_even_modulus() {
    let m = dec("1606938044258990275541962092341162602522202993782792847647054");
    assert_eq!(
        exponentiate(&alpha(), &secret(), &m),
        dec("764616426824994390528132400028345174280831795843658521834280")
    );
}

#[test]
fn wide_group_response() {
    assert_eq!(
        solve(&ephemeral(), &challenge(), &secret(), &q()),
        dec("35440089536273650280723517873625522270037653634643548496435459965087345471647")
    );
}

#[test]
fn wide_group_honest_round_is_accepted() {
    let y1 = exponentiate(&alpha(), &secret(), &p());
    let y2 = exponentiate(&beta(), &secret(), &p());
    let r1 = exponentiate(&alpha(), &ephemeral(), &p());
    let r2 = exponentiate(&beta(), &ephemeral(), &p());
    let s = solve(&ephemeral(), &challenge(), &secret(), &q());
    assert!(verify(&r1, &r2, &y1, &y2, &alpha(), &beta(), &challenge(), &s, &p()));
}

#[test]
fn wide_group_wrong_secret_is_rejected() {
    let wrong = dec("10793413034842651975172230266959843625614223901456315850380109995024224721071");
    let y1 = exponentiate(&alpha(), &secret(), &p());
    let y2 = exponentiate(&beta(), &secret(), &p());
    let r1 = exponentiate(&alpha(), &ephemeral(), &p());
    let r2 = exponentiate(&beta(), &ephemeral(), &p());
    let s = solve(&ephemeral(), &challenge(), &wrong, &q());
    assert_eq!(
        s,
        dec("29354851179887985221487200431029707437545224204896424996464069960263566733605")
    );
    assert!(!verify(&r1, &r2, &y1, &y2, &alpha(), &beta(), &challenge(), &s, &p()));
    let zero = BigUint::from(0u32);
    let s0 = solve(&ephemeral(), &zero, &wrong, &q());
    assert!(verify(&r1, &r2, &y1, &y2, &alpha(), &beta(), &zero, &s0, &p()));
}

#[test]
fn wide_group_random_rounds_are_accepted() {
    let y1 = exponentiate(&alpha(), &secret(), &p());
    let y2 = exponentiate(&beta(), &secret(), &p());
    for _ in 0..10 {
        let k = generate_random(&q());
        let c = generate_random(&q());
        let r1 = exponentiate(&alpha(), &k, &p());
        let r2 = exponentiate(&beta(), &k, &p());
        let s = solve(&k, &c, &secret(), &q());
        assert!(s < q());
        assert!(verify(&r1, &r2, &y1, &y2, &alpha(), &beta(), &c, &s, &p()));
    }
}
