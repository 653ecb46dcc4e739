//! Motorcycle model checks and reduction to a quarter-car.

use suspension_core::bike::{
    bike_tyre_stiffness, front_weight_share, resolve_bike_to_quarter, validate_bike_model, BikeModelInput,
};
use suspension_core::error::InputError;
use suspension_core::params::ResolvedQuarterParams;

fn b(x: f64) -> u64 {
    x.to_bits()
}

fn bike() -> BikeModelInput {
    BikeModelInput {
        ms_front: b(90.0),
        ms_rear: b(110.0),
        mu_front: b(15.0),
        mu_rear: b(18.0),
        k_front: b(12_000.0),
        k_rear: b(15_000.0),
        c_front: b(800.0),
        c_rear: b(900.0),
        kt_front: None,
        kt_rear: None,
        front_weight_distribution_pct: None,
        rider_mass_kg: None,
    }
}

fn natural(k: f64, m: f64) -> u64 {
    ((k / m).sqrt() / (2.0 * std::f64::consts::PI)).to_bits()
}

fn check(m: &BikeModelInput) -> Result<(), InputError> {
    let fr = natural(f64::from_bits(m.k_front), f64::from_bits(m.ms_front));
    let rr = natural(f64::from_bits(m.k_rear), f64::from_bits(m.ms_rear));
    validate_bike_model(m, fr, rr)
}

#[test]
fn a_plausible_bike_passes() {
    assert_eq!(check(&bike()), Ok(()));
}

#[test]
fn each_refusal_of_the_bike_model() {
    let mut m = bike();
    m.ms_rear = b(0.0);
    assert_eq!(check(&m), Err(InputError::BikeSprungMassNotPositive));
    let mut m = bike();
    m.mu_front = b(-1.0);
    assert_eq!(check(&m), Err(InputError::BikeUnsprungMassNotPositive));
    let mut m = bike();
    m.k_front = b(0.0);
    assert_eq!(check(&m), Err(InputError::BikeSpringRateNotPositive));
    let mut m = bike();
    m.c_rear = b(-1.0);
    assert_eq!(check(&m), Err(InputError::BikeDampingNegative));
    let mut m = bike();
    m.mu_rear = b(110.0);
    assert_eq!(check(&m), Err(InputError::BikeUnsprungNotLighter));
    let mut m = bike();
    m.front_weight_distribution_pct = Some(b(70.0));
    assert_eq!(check(&m), Err(InputError::FrontWeightDistributionOutOfRange));
    let mut m = bike();
    m.front_weight_distribution_pct = Some(b(35.0));
    assert_eq!(check(&m), Ok(()));
    let mut m = bike();
    m.rider_mass_kg = Some(b(150.0));
    assert_eq!(check(&m), Err(InputError::BikeRiderMassOutOfRange));
    let mut m = bike();
    m.kt_front = Some(b(0.0));
    assert_eq!(check(&m), Err(InputError::FrontTyreStiffnessNotPositive));
    let mut m = bike();
    m.kt_rear = Some(b(-5.0));
    assert_eq!(check(&m), Err(InputError::RearTyreStiffnessNotPositive));
    let mut m = bike();
    m.k_front = b(100_000.0); // about 5.3 Hz
    assert_eq!(check(&m), Err(InputError::BikeNaturalFrequencyOutOfRange));
}

#[test]
fn tyre_stiffness_fallbacks() {
    let mut m = bike();
    assert_eq!(bike_tyre_stiffness(&m, None), (b(130_000.0), b(130_000.0)));
    assert_eq!(bike_tyre_stiffness(&m, Some(b(150_000.0))), (b(150_000.0), b(150_000.0)));
    m.kt_front = Some(b(120_000.0));
    assert_eq!(bike_tyre_stiffness(&m, Some(b(150_000.0))), (b(120_000.0), b(150_000.0)));
}

#[test]
fn resolution_blends_and_reports() {
    let m = bike();
    let share = 100.0 * 90.0 / (90.0 + 110.0);
    assert_eq!(front_weight_share(&m, b(share)), b(share));
    let wf = share / 100.0;
    let wr = (100.0 - share) / 100.0;
    let eq = ResolvedQuarterParams {
        ms: b(wf * 90.0 + wr * 110.0),
        mu: b(wf * 15.0 + wr * 18.0),
        k: b(wf * 12_000.0 + wr * 15_000.0),
        c: b(wf * 800.0 + wr * 900.0),
        kt: b(130_000.0),
    };
    let fr = natural(12_000.0, 90.0);
    let rr = natural(15_000.0, 110.0);
    let s = resolve_bike_to_quarter(&m, None, fr, rr, b(share), eq).unwrap();
    assert_eq!(f64::from_bits(s.front_weight_distribution_pct), 45.0);
    assert_eq!(f64::from_bits(s.rider_mass_kg), 75.0);
    assert_eq!(f64::from_bits(s.kt_front), 130_000.0);
    assert_eq!(s.equivalent.ms, eq.ms);

    let mut given = bike();
    given.front_weight_distribution_pct = Some(b(52.0));
    given.rider_mass_kg = Some(b(80.0));
    assert_eq!(front_weight_share(&given, b(share)), b(52.0));
    let s = resolve_bike_to_quarter(&given, None, fr, rr, b(share), eq).unwrap();
    assert_eq!(f64::from_bits(s.front_weight_distribution_pct), 52.0);
    assert_eq!(f64::from_bits(s.rider_mass_kg), 80.0);

    let bad = ResolvedQuarterParams { kt: b(0.0), ..eq };
    assert_eq!(resolve_bike_to_quarter(&m, None, fr, rr, b(share), bad).err(), Some(InputError::BikeEquivalentInvalid));
    let unstable = ResolvedQuarterParams { mu: eq.ms, ..eq };
    assert_eq!(
        resolve_bike_to_quarter(&m, None, fr, rr, b(share), unstable).err(),
        Some(InputError::BikeEquivalentUnstable)
    );
    let mut invalid = bike();
    invalid.ms_front = b(-1.0);
    assert_eq!(
        resolve_bike_to_quarter(&invalid, None, fr, rr, b(share), eq).err(),
        Some(InputError::BikeSprungMassNotPositive)
    );
}
