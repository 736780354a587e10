use cenote::units::ONE;
use cenote::utils::{interpolate, InterpolateError};

fn fx(v: &[f64]) -> Vec<i64> {
    v.iter().map(|x| (x * ONE as f64).round() as i64).collect()
}

fn at(x: f64) -> i64 {
    (x * ONE as f64).round() as i64
}

#[test]
fn utils_test_interpolate() {
    let xs = fx(&[0.0, 1.0, 2.0, 3.0]);
    let ys = fx(&[0.0, 1.0, 4.0, 9.0]);
    let empty: Vec<i64> = vec![];
    let one = fx(&[0.0]);

    assert_eq!(interpolate(&xs, &ys, at(-1.0)), Err(InterpolateError::OutOfRange));
    assert_eq!(interpolate(&xs, &ys, at(0.0)), Ok(at(0.0)));
    assert_eq!(interpolate(&xs, &ys, at(0.5)), Ok(at(0.5)));
    assert_eq!(interpolate(&xs, &ys, at(1.0)), Ok(at(1.0)));
    assert_eq!(interpolate(&xs, &ys, at(1.5)), Ok(at(2.5)));
    assert_eq!(interpolate(&xs, &ys, at(2.0)), Ok(at(4.0)));
    assert_eq!(interpolate(&xs, &ys, at(2.5)), Ok(at(6.5)));
    assert_eq!(interpolate(&xs, &ys, at(3.0)), Ok(at(9.0)));
    assert_eq!(interpolate(&xs, &ys, at(4.0)), Err(InterpolateError::OutOfRange));
    assert_eq!(interpolate(&empty, &empty, at(0.0)), Err(InterpolateError::TooFewPoints));
    assert_eq!(interpolate(&one, &one, at(0.0)), Err(InterpolateError::TooFewPoints));
}

#[test]
fn test_utils_test_interpolate() {
    let xs = fx(&[0.0, 1.0, 2.0, 3.0]);
    let ys = fx(&[0.0, 1.0, 4.0, 9.0]);

    assert_eq!(interpolate(&xs, &ys, at(-1.0)).ok(), None);
    assert_eq!(interpolate(&xs, &ys, at(0.0)).ok(), Some(at(0.0)));
    assert_eq!(interpolate(&xs, &ys, at(0.5)).ok(), Some(at(0.5)));
    assert_eq!(interpolate(&xs, &ys, at(1.0)).ok(), Some(at(1.0)));
    assert_eq!(interpolate(&xs, &ys, at(1.5)).ok(), Some(at(2.5)));
    assert_eq!(interpolate(&xs, &ys, at(2.0)).ok(), Some(at(4.0)));
    assert_eq!(interpolate(&xs, &ys, at(2.5)).ok(), Some(at(6.5)));
    assert_eq!(interpolate(&xs, &ys, at(3.0)).ok(), Some(at(9.0)));
    assert_eq!(interpolate(&xs, &ys, at(4.0)).ok(), None);
}

#[test]
fn interpolate_length_mismatch() {
    let xs = fx(&[0.0, 1.0, 2.0]);
    let ys = fx(&[0.0, 1.0]);
    assert_eq!(interpolate(&xs, &ys, at(0.5)), Err(InterpolateError::LengthMismatch));
}

#[test]
fn interpolate_decreasing_segment() {
    let xs = fx(&[0.0, 2.0]);
    let ys = fx(&[10.0, 4.0]);
    assert_eq!(interpolate(&xs, &ys, at(0.5)), Ok(at(8.5)));
}
