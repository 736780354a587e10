use cenote::compartment::{Compartment, Params, WATER_VAPOR_PRESSURE};
use cenote::error::DecoError;
use cenote::units::{Pressure, Ratio, Time, ONE};

fn bar(x: f64) -> Pressure {
    Pressure::from_nbar((x * 1e9).round() as i64)
}

fn min(x: f64) -> Time {
    Time::from_secs((x * 60.0).round() as i64)
}

fn ratio(x: f64) -> Ratio {
    Ratio::from_nano((x * 1e9).round() as i128)
}

fn plus_vapor(p: Pressure) -> Pressure {
    Pressure::from_nbar(p.nbar + WATER_VAPOR_PRESSURE)
}

fn in_bar(p: Pressure) -> f64 {
    p.nbar as f64 / 1e9
}

fn assert_approx(lhs: f64, rhs: f64, tol: f64) {
    assert!((lhs - rhs).abs() <= tol, "left {} right {} tol {}", lhs, rhs, tol);
}

#[test]
fn test_params_new_valid() {
    let params = Params::new(min(3.0)).unwrap();
    assert_eq!(params.hl, min(3.0));
    assert_approx(in_bar(params.a), 1.3867225487012695, 1e-9);
    assert_approx(params.b.nano as f64 / 1e9, 0.42764973081037405, 1e-9);
}

#[test]
fn test_params_new_invalid() {
    assert_eq!(Params::new(min(0.0)).unwrap_err(), DecoError::InvalidParameter);
}

#[test]
fn test_compartment_new_valid() {
    let compartment = Compartment::new(min(3.0), bar(3.0)).unwrap();
    assert_eq!(compartment.params.hl, min(3.0));
    assert_approx(in_bar(compartment.params.a), 1.3867225487012695, 1e-9);
    assert_approx(compartment.params.b.nano as f64 / 1e9, 0.42764973081037405, 1e-9);
    assert_approx(in_bar(compartment.pressure), 3.0, 1e-9);
    assert_approx(in_bar(compartment.m0), 0.6899176677703485, 1e-9);
}

#[test]
fn test_compartment_new_invalid() {
    assert_eq!(
        Compartment::new(min(0.0), bar(3.0)).unwrap_err(),
        DecoError::InvalidParameter
    );
}

#[test]
fn test_compartment_set() {
    let compartment = Compartment::new(min(3.0), bar(3.0)).unwrap();
    assert_approx(in_bar(compartment.m0), 0.6899176677703485, 1e-9);
}

#[test]
fn test_compartment_pressure_change() {
    let compartment = Compartment::new(min(3.0), bar(3.0)).unwrap();
    // stays the same when ambient pressure is the same, accounting for water vapor pressure
    assert_eq!(
        compartment.pressure_change(&plus_vapor(bar(3.0)), &min(100.0)).nbar,
        0
    );
    assert_eq!(
        compartment.pressure_change(&plus_vapor(bar(4.0)), &min(6.0)),
        bar(0.75)
    );
}

#[test]
fn test_compartment_constant_pressure_update() {
    let mut compartment = Compartment::new(min(3.0), bar(3.0)).unwrap();
    compartment.constant_pressure_update(&plus_vapor(bar(4.0)), &min(6.0));
    assert_eq!(compartment.pressure, bar(3.75));
}

#[test]
fn test_compartment_variable_pressure_update() {
    let mut compartment = Compartment::new(min(3.0), bar(3.0)).unwrap();
    // the compartment pressure is updated to the mean ambient pressure
    compartment.variable_pressure_update(
        &plus_vapor(bar(2.0)),
        &plus_vapor(bar(4.0)),
        &min(100.0),
    );
    assert_approx(in_bar(compartment.pressure), 3.0, 1e-9);
}

#[test]
fn test_compartment_gradient_at() {
    let compartment = Compartment::new(min(3.0), bar(3.0)).unwrap();
    assert_eq!(compartment.gradient_at(&bar(3.0)).unwrap().nano, 0);
    assert_eq!(
        compartment.gradient_at(&compartment.m0).unwrap().nano,
        ONE as i128
    );
    let p = compartment.pressure.nbar;
    let halfway = Pressure::from_nbar(p - (p - compartment.m0.nbar) / 2);
    assert_eq!(compartment.gradient_at(&halfway).unwrap(), ratio(0.5));
}

#[test]
fn test_compartment_ceiling() {
    let tol = 1e-9;
    let compartment = Compartment::new(min(3.0), bar(3.0)).unwrap();
    assert_approx(in_bar(compartment.ceiling(ratio(1.0))), in_bar(compartment.m0), tol);
    assert_approx(in_bar(compartment.ceiling(ratio(0.0))), in_bar(compartment.pressure), tol);
    let p = compartment.pressure.nbar;
    assert_approx(
        in_bar(compartment.ceiling(ratio(0.5))),
        in_bar(Pressure::from_nbar(p - (p - compartment.m0.nbar) / 2)),
        tol,
    );
}

#[test]
fn params_reject_negative_half_life() {
    assert_eq!(Params::new(min(-1.0)).unwrap_err(), DecoError::InvalidParameter);
    assert_eq!(
        Compartment::new(Time::from_secs(-1), bar(1.0)).unwrap_err(),
        DecoError::InvalidParameter
    );
}

#[test]
fn params_follow_root_formulas() {
    // t = 8 min: a = 2 / cbrt(8) = 1 bar, b = 1.005 - 1 / sqrt(8)
    let params = Params::new(min(8.0)).unwrap();
    assert_eq!(params.a, bar(1.0));
    assert_approx(params.b.nano as f64 / 1e9, 1.005 - 1.0 / 8.0f64.sqrt(), 1e-9);
    // t = 1 min: a = 2, b = 0.005
    let params = Params::new(min(1.0)).unwrap();
    assert_eq!(params.a, bar(2.0));
    assert_eq!(params.b, ratio(0.005));
    // t = 635 min
    let params = Params::new(min(635.0)).unwrap();
    assert_approx(in_bar(params.a), 2.0 / 635.0f64.cbrt(), 1e-9);
    assert_approx(params.b.nano as f64 / 1e9, 1.005 - 1.0 / 635.0f64.sqrt(), 1e-9);
}

#[test]
fn m0_follows_coefficients() {
    let compartment = Compartment::new(min(8.0), bar(3.0)).unwrap();
    // (3 - 1) * b
    let b = compartment.params.b.nano as f64 / 1e9;
    assert_approx(in_bar(compartment.m0), 2.0 * b, 1e-9);
}

#[test]
fn gradient_degenerate_when_pressure_is_m0() {
    // at this pressure (p - a) * b rounds back to p for a three minute half-life
    let compartment = Compartment::new(min(3.0), Pressure::from_nbar(-1_036_133_914)).unwrap();
    assert_eq!(compartment.pressure, compartment.m0);
    assert_eq!(
        compartment.gradient_at(&compartment.m0).unwrap_err(),
        DecoError::DegenerateGradient
    );
}

#[test]
fn gradient_negative_while_absorbing() {
    let compartment = Compartment::new(min(3.0), bar(3.0)).unwrap();
    // ambient above the compartment pressure
    assert!(compartment.gradient_at(&bar(4.0)).unwrap().nano < 0);
}

#[test]
fn ceiling_is_affine_in_gradient() {
    let compartment = Compartment::new(min(5.0), bar(2.5)).unwrap();
    let p = compartment.pressure.nbar;
    let m0 = compartment.m0.nbar;
    assert_eq!(compartment.ceiling(ratio(1.0)).nbar, m0);
    assert_eq!(compartment.ceiling(ratio(0.0)).nbar, p);
    for k in 0..=10 {
        let g = k as f64 / 10.0;
        let expected = p as f64 - (p - m0) as f64 * g;
        assert_approx(compartment.ceiling(ratio(g)).nbar as f64, expected, 1.0);
    }
}

#[test]
fn pressure_change_over_fraction_of_half_life() {
    // half a half-life: 1 - 2^-0.5 of the gap
    let compartment = Compartment::new(min(4.0), bar(1.0)).unwrap();
    let change = compartment.pressure_change(&plus_vapor(bar(2.0)), &min(2.0));
    assert_approx(in_bar(change), 1.0 - 0.5f64.sqrt(), 1e-8);
}

#[test]
fn outgassing_lowers_pressure() {
    let mut compartment = Compartment::new(min(4.0), bar(3.0)).unwrap();
    compartment.constant_pressure_update(&plus_vapor(bar(1.0)), &min(4.0));
    assert_eq!(compartment.pressure, bar(2.0));
    assert_approx(
        in_bar(compartment.m0),
        (2.0 - in_bar(compartment.params.a)) * (compartment.params.b.nano as f64 / 1e9),
        1e-8,
    );
}
