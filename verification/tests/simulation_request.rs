//! The full check of a simulation request and the resolution of its model.

use suspension_core::bike::BikeModelInput;
use suspension_core::error::{InputError, QuarterParam};
use suspension_core::params::ResolvedQuarterParams;
use suspension_core::request::SimulationOptions;
use suspension_core::road::RoadProfileInput;
use suspension_core::simulation::{resolve_model, ModelInput, SimulationRequest};

fn b(x: f64) -> u64 {
    x.to_bits()
}

fn quarter() -> ModelInput {
    ModelInput::Quarter {
        ms: Some(b(290.0)),
        mu: Some(b(40.0)),
        k: Some(b(22_000.0)),
        c: Some(b(1_500.0)),
        kt: Some(b(190_000.0)),
    }
}

fn options() -> SimulationOptions {
    SimulationOptions {
        rake_angle_deg: None,
        fn_target_hz: None,
        zeta_target: None,
        front_travel_mm: None,
        rear_travel_mm: None,
        preload_mm: None,
    }
}

fn request(model: ModelInput, options: SimulationOptions, road: RoadProfileInput) -> SimulationRequest {
    SimulationRequest { model, options, road_profile: road }
}

#[test]
fn checks_run_in_order() {
    let good_road = RoadProfileInput::Step { height: b(0.05) };
    let bad_road = RoadProfileInput::Step { height: b(2.0) };
    let bad_options = SimulationOptions { preload_mm: Some(b(-1.0)), ..options() };
    assert_eq!(request(quarter(), options(), good_road).validate(), Ok(()));
    assert_eq!(request(quarter(), options(), bad_road).validate(), Err(InputError::HeightOutOfRange));
    assert_eq!(request(quarter(), bad_options, bad_road).validate(), Err(InputError::PreloadNegative));
    let missing = ModelInput::Quarter { ms: Some(b(290.0)), mu: None, k: None, c: None, kt: None };
    assert_eq!(
        request(missing, bad_options, bad_road).validate(),
        Err(InputError::MissingParameter(QuarterParam::Mu))
    );
}

#[test]
fn models_resolve_to_a_quarter_car() {
    let (p, summary) = resolve_model(&quarter()).unwrap();
    assert_eq!(f64::from_bits(p.ms), 290.0);
    assert!(summary.is_none());

    let bike = BikeModelInput {
        ms_front: b(90.0),
        ms_rear: b(110.0),
        mu_front: b(15.0),
        mu_rear: b(18.0),
        k_front: b(12_000.0),
        k_rear: b(15_000.0),
        c_front: b(800.0),
        c_rear: b(900.0),
        kt_front: None,
        kt_rear: None,
        front_weight_distribution_pct: None,
        rider_mass_kg: None,
    };
    let nat = |k: f64, m: f64| b((k / m).sqrt() / (2.0 * std::f64::consts::PI));
    let equivalent = ResolvedQuarterParams { ms: b(101.0), mu: b(16.65), k: b(13_650.0), c: b(855.0), kt: b(130_000.0) };
    let model = ModelInput::Bike {
        model: bike,
        fallback_kt: None,
        fn_front: nat(12_000.0, 90.0),
        fn_rear: nat(15_000.0, 110.0),
        mass_share_pct: b(45.0),
        equivalent,
    };
    let (p, summary) = resolve_model(&model).unwrap();
    assert_eq!(p.ms, b(101.0));
    let s = summary.unwrap();
    assert_eq!(f64::from_bits(s.front_weight_distribution_pct), 45.0);
    assert_eq!(f64::from_bits(s.kt_rear), 130_000.0);

    let unstable = ModelInput::Bike {
        model: bike,
        fallback_kt: None,
        fn_front: nat(12_000.0, 90.0),
        fn_rear: nat(15_000.0, 110.0),
        mass_share_pct: b(45.0),
        equivalent: ResolvedQuarterParams { mu: b(101.0), ..equivalent },
    };
    assert_eq!(resolve_model(&unstable).err(), Some(InputError::BikeEquivalentUnstable));
    assert_eq!(
        request(unstable, options(), RoadProfileInput::Step { height: b(0.05) }).validate(),
        Err(InputError::BikeEquivalentUnstable)
    );
}
