//! Optional simulation fields, FRF grid defaults and sweep request checks.

use suspension_core::request::{bottom_out, travel_limit, TravelLimit};
use suspension_core::error::InputError;
use suspension_core::request::{frf_sweep_range, validate_sweep_request, SimulationOptions};
use suspension_core::road::RoadProfileInput;

fn b(x: f64) -> u64 {
    x.to_bits()
}

fn none() -> SimulationOptions {
    SimulationOptions {
        rake_angle_deg: None,
        fn_target_hz: None,
        zeta_target: None,
        front_travel_mm: None,
        rear_travel_mm: None,
        preload_mm: None,
    }
}

#[test]
fn optional_fields() {
    assert_eq!(none().validate(), Ok(()));
    let o = SimulationOptions { rake_angle_deg: Some(b(14.9)), ..none() };
    assert_eq!(o.validate(), Err(InputError::RakeAngleOutOfRange));
    let o = SimulationOptions { rake_angle_deg: Some(b(40.0)), fn_target_hz: Some(b(4.5)), ..none() };
    assert_eq!(o.validate(), Err(InputError::FnTargetOutOfRange));
    let o = SimulationOptions { zeta_target: Some(b(f64::NAN)), ..none() };
    assert_eq!(o.validate(), Err(InputError::ZetaTargetOutOfRange));
    let o = SimulationOptions { front_travel_mm: Some(b(0.0)), ..none() };
    assert_eq!(o.validate(), Err(InputError::FrontTravelNotPositive));
    let o = SimulationOptions { rear_travel_mm: Some(b(-3.0)), ..none() };
    assert_eq!(o.validate(), Err(InputError::RearTravelNotPositive));
    let o = SimulationOptions { preload_mm: Some(b(-0.1)), ..none() };
    assert_eq!(o.validate(), Err(InputError::PreloadNegative));
    let o = SimulationOptions { preload_mm: Some(b(0.0)), front_travel_mm: Some(b(120.0)), ..none() };
    assert_eq!(o.validate(), Ok(()));
}

#[test]
fn frf_defaults_and_bounds() {
    let g = frf_sweep_range(None, None, None).unwrap();
    assert_eq!(f64::from_bits(g.f_min), 0.5);
    assert_eq!(f64::from_bits(g.f_max), 25.0);
    assert_eq!(g.n_points, 100);
    let g = frf_sweep_range(Some(b(0.001)), Some(b(10.0)), Some(3)).unwrap();
    assert_eq!(f64::from_bits(g.f_min), 0.001f64.max(0.01));
    assert_eq!(g.n_points, 10);
    let g = frf_sweep_range(Some(b(f64::NAN)), None, Some(10_000)).unwrap();
    assert_eq!(f64::from_bits(g.f_min), f64::NAN.max(0.01));
    assert_eq!(g.n_points, 500);
    assert_eq!(frf_sweep_range(Some(b(5.0)), Some(b(5.0)), None).err(), Some(InputError::FrequencyRangeEmpty));
    assert_eq!(frf_sweep_range(None, Some(b(0.2)), None).err(), Some(InputError::FrequencyRangeEmpty));
}

#[test]
fn sweep_ranges_and_steps() {
    let road = RoadProfileInput::Step { height: b(0.05) };
    let k = [b(15_000.0), b(30_000.0)];
    let c = [b(500.0), b(3_000.0)];
    assert_eq!(validate_sweep_request(k, c, &road, None), Ok(10));
    assert_eq!(validate_sweep_request(k, c, &road, Some(1)), Ok(2));
    assert_eq!(validate_sweep_request(k, c, &road, Some(50)), Ok(20));
    assert_eq!(validate_sweep_request(k, c, &road, Some(7)), Ok(7));
    assert_eq!(
        validate_sweep_request([b(0.0), b(1.0)], c, &road, None),
        Err(InputError::SpringRangeNotPositive)
    );
    assert_eq!(
        validate_sweep_request([k[1], k[0]], c, &road, None),
        Err(InputError::SpringRangeNotIncreasing)
    );
    assert_eq!(
        validate_sweep_request(k, [b(-1.0), b(1.0)], &road, None),
        Err(InputError::DampingRangeNegative)
    );
    assert_eq!(
        validate_sweep_request(k, [b(1.0), b(1.0)], &road, None),
        Err(InputError::DampingRangeNotIncreasing)
    );
    assert_eq!(
        validate_sweep_request(k, c, &RoadProfileInput::Step { height: b(2.0) }, None),
        Err(InputError::HeightOutOfRange)
    );
}

#[test]
fn travel_limit_rules() {
    let f = Some(b(120.0));
    let r = Some(b(140.0));
    assert_eq!(travel_limit(f, r, None), TravelLimit::Mean { front: b(120.0), rear: b(140.0) });
    assert_eq!(
        travel_limit(f, r, Some(None)),
        TravelLimit::Blend { front: b(120.0), rear: b(140.0), front_pct: b(50.0) }
    );
    assert_eq!(
        travel_limit(f, r, Some(Some(b(45.0)))),
        TravelLimit::Blend { front: b(120.0), rear: b(140.0), front_pct: b(45.0) }
    );
    assert_eq!(travel_limit(f, None, Some(None)), TravelLimit::Single(b(120.0)));
    assert_eq!(travel_limit(None, r, None), TravelLimit::Single(b(140.0)));
    assert_eq!(travel_limit(None, None, Some(None)), TravelLimit::Unlimited);

    assert!(bottom_out(b(130.0), Some(b(120.0))));
    assert!(!bottom_out(b(120.0), Some(b(120.0))));
    assert!(!bottom_out(b(500.0), None));
    assert!(!bottom_out(b(f64::NAN), Some(b(120.0))));
}
