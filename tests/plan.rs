use cenote::error::DecoError;
use cenote::mix::Mix;
use cenote::plan::{Point, Profile, Segment};
use cenote::units::{Depth, Time};
use cenote::water::Water;

fn min(x: f64) -> Time {
    Time::from_secs((x * 60.0).round() as i64)
}

fn meter(x: f64) -> Depth {
    Depth::from_mm((x * 1e3).round() as i64)
}

#[test]
fn test_point_new() {
    let time = min(0.0);
    let depth = meter(0.0);
    let mix = Mix::air();
    let point = Point::new(time, depth, mix).unwrap();
    assert_eq!(point.time, time);
    assert_eq!(point.depth, depth);
    assert_eq!(point.mix, mix);
    assert!(Point::new(min(-1.0), depth, mix).is_err());
    assert!(Point::new(time, meter(-1.0), mix).is_err());
}

#[test]
fn test_profile_new() {
    let water = Water::Fresh;
    let segments = vec![
        Segment { duration: min(10.0), end_depth: meter(10.0), mix: Mix::air() },
        Segment { duration: min(10.0), end_depth: meter(20.0), mix: Mix::air() },
    ];
    let profile = Profile::new(water, segments).unwrap();
    assert_eq!(profile.points.len(), 3);
    assert_eq!(profile.points[0].time, min(0.0));
    assert_eq!(profile.points[0].depth, meter(0.0));
    assert_eq!(profile.points[0].mix, Mix::air());
    assert_eq!(profile.points[1].time, min(10.0));
    assert_eq!(profile.points[1].depth, meter(10.0));
    assert_eq!(profile.points[1].mix, Mix::air());
    assert_eq!(profile.points[2].time, min(20.0));
    assert_eq!(profile.points[2].depth, meter(20.0));
    assert_eq!(profile.points[2].mix, Mix::air());
}

#[test]
fn profile_needs_a_segment() {
    assert_eq!(
        Profile::new(Water::Salt, vec![]).unwrap_err(),
        DecoError::InvalidParameter
    );
}
