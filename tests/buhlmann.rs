use cenote::buhlmann::{Buhlmann, Compartments};
use cenote::compartment::Compartment;
use cenote::error::DecoError;
use cenote::mix::{Breath, Mix};
use cenote::models::Model;
use cenote::units::{Pressure, Ratio, Time, ONE};

fn bar(x: f64) -> Pressure {
    Pressure::from_nbar((x * 1e9).round() as i64)
}

fn min(x: f64) -> Time {
    Time::from_secs((x * 60.0).round() as i64)
}

#[test]
fn test_zhl6a_compartments_new() {
    let model = Model::Zhl16a;
    let breath = Breath::surface_air();
    let compartments = Compartments::new(&model, &breath.partial_pressure);
    assert_eq!(compartments.n2.len(), 17);
    for (i, compartment) in compartments.n2.iter().enumerate() {
        assert_eq!(compartment.params.hl, model.half_lives()[i]);
        assert_eq!(compartment.pressure, breath.partial_pressure.n2);
    }
}

#[test]
fn test_compartments_constant_pressure_update() {
    let breath = Breath::new(&bar(4.0), &Mix::air());
    let model = Model::Zhl16a;
    let duration = min(10.0);
    let surface_air = Breath::surface_air();

    let mut compartments = Compartments::new(&model, &surface_air.partial_pressure);
    compartments.constant_pressure_update(&breath.partial_pressure, &duration);

    let mut expected_compartments = Compartments::new(&model, &surface_air.partial_pressure);
    for (i, expected_compartment) in expected_compartments.n2.iter_mut().enumerate() {
        expected_compartment.constant_pressure_update(&breath.partial_pressure.n2, &duration);
        assert_eq!(expected_compartment.pressure, compartments.n2[i].pressure);
    }
}

#[test]
fn test_compartments_variable_pressure_update() {
    let breath_start = Breath::surface_air();
    let breath_end = Breath::new(&bar(4.0), &Mix::air());
    let model = Model::Zhl16a;
    let duration = min(10.0);

    let mut compartments = Compartments::new(&model, &breath_start.partial_pressure);
    compartments.variable_pressure_update(
        &breath_start.partial_pressure,
        &breath_end.partial_pressure,
        &duration,
    );

    let mut expected_compartments = Compartments::new(&model, &breath_start.partial_pressure);
    for (i, expected_compartment) in expected_compartments.n2.iter_mut().enumerate() {
        expected_compartment.variable_pressure_update(
            &breath_start.partial_pressure.n2,
            &breath_end.partial_pressure.n2,
            &duration,
        );
        assert_eq!(expected_compartment.pressure, compartments.n2[i].pressure);
    }
}

#[test]
fn test_compartments_ceilings() {
    let breath = Breath::new(&bar(4.0), &Mix::air());
    let model = Model::Zhl16a;
    let duration = min(10.0);
    let surface_air = Breath::surface_air();

    let mut compartments = Compartments::new(&model, &surface_air.partial_pressure);
    compartments.constant_pressure_update(&breath.partial_pressure, &duration);

    let half = Ratio::from_nano(500_000_000);
    let ceilings = compartments.ceilings(half);
    assert_eq!(ceilings.len(), compartments.n2.len());
    for (i, compartment) in compartments.n2.iter().enumerate() {
        assert_eq!(ceilings[i], compartment.ceiling(half));
    }
}

#[test]
fn test_buhlmann_new() {
    let surface_air = Breath::surface_air();
    let buhlmann = Buhlmann::new(&surface_air);
    assert_eq!(buhlmann.compartments.n2.len(), 17);
    for (i, compartment) in buhlmann.compartments.n2.iter().enumerate() {
        assert_eq!(compartment.params.hl, Model::Zhl16a.half_lives()[i]);
        assert_eq!(compartment.pressure, surface_air.partial_pressure.n2);
    }
}

#[test]
fn test_buhlmann_constant_breath_update() {
    let breath = Breath::new(&bar(4.0), &Mix::air());
    let model = Model::Zhl16a;
    let duration = min(10.0);
    let surface_air = Breath::surface_air();

    let mut buhlmann = Buhlmann::new(&surface_air);
    buhlmann
        .constant_breath_update(&breath, &duration)
        .expect("Failed to update buhlmann");

    let mut expected_compartments = Compartments::new(&model, &surface_air.partial_pressure);
    for (i, expected_compartment) in expected_compartments.n2.iter_mut().enumerate() {
        expected_compartment.constant_pressure_update(&breath.partial_pressure.n2, &duration);
        assert_eq!(expected_compartment.pressure, buhlmann.compartments.n2[i].pressure);
    }
}

#[test]
fn test_buhlmann_variable_breath_update() {
    let breath_start = Breath::surface_air();
    let breath_end = Breath::new(&bar(4.0), &breath_start.mix);
    let model = Model::Zhl16a;
    let duration = min(10.0);

    let mut buhlmann = Buhlmann::new(&breath_start);
    buhlmann
        .variable_breath_update(&breath_start, &breath_end, &duration)
        .expect("Failed to update buhlmann");

    let mut expected_compartments = Compartments::new(&model, &breath_start.partial_pressure);
    for (i, expected_compartment) in expected_compartments.n2.iter_mut().enumerate() {
        expected_compartment.variable_pressure_update(
            &breath_start.partial_pressure.n2,
            &breath_end.partial_pressure.n2,
            &duration,
        );
        assert_eq!(expected_compartment.pressure, buhlmann.compartments.n2[i].pressure);
    }
}

#[test]
fn test_buhlmann_ceiling() {
    let breath = Breath::new(&bar(4.0), &Mix::air());
    let model = Model::Zhl16a;
    let duration = min(10.0);
    let surface_air = Breath::surface_air();

    let mut buhlmann = Buhlmann::new(&surface_air);
    buhlmann
        .constant_breath_update(&breath, &duration)
        .expect("Failed to update buhlmann");

    let mut expected_compartments = Compartments::new(&model, &surface_air.partial_pressure);
    for (i, expected_compartment) in expected_compartments.n2.iter_mut().enumerate() {
        expected_compartment.constant_pressure_update(&breath.partial_pressure.n2, &duration);
        assert_eq!(expected_compartment.pressure, buhlmann.compartments.n2[i].pressure);
    }

    let expected_ceiling = expected_compartments.ceiling(Ratio::from_nano(ONE as i128));
    let ceiling = buhlmann.ceiling();
    assert_eq!(ceiling, expected_ceiling);
}

#[test]
fn variable_breath_update_refuses_mix_change() {
    let breath_start = Breath::surface_air();
    let nitrox = Mix::new(Ratio::from_nano(320_000_000)).unwrap();
    let breath_end = Breath::new(&bar(4.0), &nitrox);
    let mut buhlmann = Buhlmann::new(&breath_start);
    let before: Vec<Pressure> = buhlmann.compartments.n2.iter().map(|c| c.pressure).collect();
    assert_eq!(
        buhlmann.variable_breath_update(&breath_start, &breath_end, &min(10.0)),
        Err(DecoError::MixMismatch)
    );
    let after: Vec<Pressure> = buhlmann.compartments.n2.iter().map(|c| c.pressure).collect();
    assert_eq!(before, after);
}

#[test]
fn controlling_ceiling_is_maximum_not_first() {
    // two compartments with different histories: the slow one stays loaded
    let fast = Compartment::new(min(4.0), bar(1.0)).unwrap();
    let slow = Compartment::new(min(635.0), bar(1.0)).unwrap();
    let mut compartments = Compartments { n2: vec![fast, slow] };
    let deep = Breath::new(&bar(5.0), &Mix::air());
    compartments.constant_pressure_update(&deep.partial_pressure, &min(60.0));
    // only the fast compartment is brought back to the surface
    let surface = Breath::surface_air();
    compartments.n2[0].constant_pressure_update(&surface.partial_pressure.n2, &min(60.0));
    let one = Ratio::from_nano(ONE as i128);
    let ceilings = compartments.ceilings(one);
    let max = ceilings.iter().map(|p| p.nbar).max().unwrap();
    assert!(ceilings[1].nbar > ceilings[0].nbar);
    assert_eq!(compartments.ceiling(one).nbar, max);
    assert_ne!(compartments.ceiling(one), ceilings[0]);

    let reversed = Compartments { n2: vec![compartments.n2[1], compartments.n2[0]] };
    assert_eq!(reversed.ceiling(one).nbar, max);
}

#[test]
fn buhlmann_ceiling_is_largest_m0() {
    let mut buhlmann = Buhlmann::new(&Breath::surface_air());
    buhlmann
        .constant_breath_update(&Breath::new(&bar(4.0), &Mix::air()), &min(30.0))
        .unwrap();
    let largest = buhlmann.compartments.n2.iter().map(|c| c.m0.nbar).max().unwrap();
    assert_eq!(buhlmann.ceiling().nbar, largest);
}

fn drive<D: cenote::deco::Deco>(model: &mut D, breath: &Breath, duration: &Time) -> Pressure {
    model.constant_breath_update(breath, duration).unwrap();
    model.ceiling()
}

#[test]
fn deco_trait_drives_buhlmann() {
    let breath = Breath::new(&bar(4.0), &Mix::air());
    let mut through_trait = Buhlmann::new(&Breath::surface_air());
    let mut direct = Buhlmann::new(&Breath::surface_air());
    let ceiling = drive(&mut through_trait, &breath, &min(20.0));
    direct.constant_breath_update(&breath, &min(20.0)).unwrap();
    assert_eq!(ceiling, direct.ceiling());
}

fn ramp<D: cenote::deco::Deco>(
    model: &mut D,
    start: &Breath,
    end: &Breath,
    duration: &Time,
) -> Result<(), DecoError> {
    model.variable_breath_update(start, end, duration)
}

#[test]
fn deco_trait_refuses_mix_change() {
    let start = Breath::surface_air();
    let end = Breath::new(&bar(4.0), &Mix::new(Ratio::from_nano(500_000_000)).unwrap());
    let mut model = Buhlmann::new(&start);
    let before: Vec<Pressure> = model.compartments.n2.iter().map(|c| c.pressure).collect();
    assert_eq!(ramp(&mut model, &start, &end, &min(5.0)), Err(DecoError::MixMismatch));
    let after: Vec<Pressure> = model.compartments.n2.iter().map(|c| c.pressure).collect();
    assert_eq!(before, after);
}

#[test]
fn equilibrium_set_is_fixed() {
    let breath = Breath::new(&bar(3.0), &Mix::air());
    let equilibrium =
        Pressure::from_nbar(breath.partial_pressure.n2.nbar - cenote::compartment::WATER_VAPOR_PRESSURE);
    let mut compartments = Compartments::new(&Model::Zhl16a, &cenote::mix::PartialPressure {
        o2: breath.partial_pressure.o2,
        n2: equilibrium,
    });
    let before = compartments.n2.clone();
    compartments.constant_pressure_update(&breath.partial_pressure, &min(45.0));
    assert_eq!(compartments.n2, before);
}
