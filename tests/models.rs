use cenote::models::Model;
use cenote::units::{Pressure, Time};

fn min(x: f64) -> Time {
    Time::from_secs((x * 60.0).round() as i64)
}

#[test]
fn test_zhl6a_compartments_at() {
    let model = Model::Zhl16a;
    let pressure = Pressure::from_nbar(1_000_000_000);
    let compartments = model.compartments_at(pressure);
    assert_eq!(compartments.len(), 17);
    for (i, compartment) in compartments.iter().enumerate() {
        assert_eq!(compartment.params.hl, model.half_lives()[i]);
        assert_eq!(compartment.pressure, pressure);
    }
}

#[test]
fn zhl16a_catalog() {
    let half_lives = Model::Zhl16a.half_lives();
    assert_eq!(half_lives.len(), 17);
    assert_eq!(half_lives[0], min(4.0));
    assert_eq!(half_lives[16], min(635.0));
    for pair in half_lives.windows(2) {
        assert!(pair[0].secs < pair[1].secs);
    }
    let minutes = [
        4.0, 5.0, 8.0, 12.5, 18.5, 27.0, 38.3, 54.3, 77.0, 109.0, 146.0, 187.0, 239.0, 305.0,
        390.0, 498.0, 635.0,
    ];
    for (i, m) in minutes.iter().enumerate() {
        assert_eq!(half_lives[i], min(*m));
    }
}
