//! Motorcycle tables and validation.

use suspension_core::moto::moto_range_warnings;
use suspension_core::error::InputError;
use suspension_core::moto::{MotoAxle, MotoClass, MotoConfig, MotoSuspType};

fn f(x: u64) -> f64 {
    f64::from_bits(x)
}

fn cfg(c: MotoClass, a: MotoAxle) -> MotoConfig {
    MotoConfig {
        moto_class: c,
        axle: a,
        susp_type: MotoSuspType::UsdFork,
        dry_mass_kg: 249.0f64.to_bits(),
        rider_mass_kg: 80.0f64.to_bits(),
        front_weight_distribution_pct: None,
        rake_angle_deg: Some(27.5f64.to_bits()),
        fn_target_hz: None,
        zeta_target: None,
    }
}

#[test]
fn adventure_front_example() {
    let m = cfg(MotoClass::Adventure, MotoAxle::Front);
    assert_eq!(m.validate(), Ok(()));
    assert_eq!((f(m.dry_mass_range().0), f(m.dry_mass_range().1)), (200.0, 260.0));
    assert_eq!(f(m.default_axle_load_fraction()), 0.48);
    assert_eq!(f(m.unsprung_fraction()), 0.17);
    assert_eq!(f(m.default_rake_deg()), 27.5);
    assert_eq!(f(m.default_fn_hz()), 2.2);
    assert_eq!(f(m.default_zeta()), 0.28);
    assert_eq!(f(m.tyre_stiffness()), 110_000.0);
    let (rake, fn_hz, zeta) = m.ride_targets();
    assert_eq!((f(rake), f(fn_hz), f(zeta)), (27.5, 2.2, 0.28));
}

#[test]
fn class_and_axle_tables() {
    let e = cfg(MotoClass::ElectricMoto, MotoAxle::Rear);
    assert_eq!(f(e.default_axle_load_fraction()), 0.56);
    assert_eq!(f(cfg(MotoClass::ElectricMoto, MotoAxle::Front).default_axle_load_fraction()), 0.44);
    assert_eq!(f(cfg(MotoClass::Commuter, MotoAxle::Rear).default_axle_load_fraction()), 0.52);
    assert_eq!(f(e.default_fn_hz()), 1.9);
    assert_eq!(f(e.tyre_stiffness()), 165_000.0);
    let s = cfg(MotoClass::Supersport, MotoAxle::Rear);
    assert_eq!(f(s.default_zeta()), 0.38);
    assert_eq!(f(cfg(MotoClass::Supersport, MotoAxle::Front).default_zeta()), 0.35);
    assert_eq!(f(cfg(MotoClass::Offroad, MotoAxle::Rear).default_zeta()), 0.25);
    assert_eq!(f(cfg(MotoClass::Offroad, MotoAxle::Front).default_fn_hz()), 3.0);
    assert_eq!(f(cfg(MotoClass::Scooter, MotoAxle::Front).tyre_stiffness()), 90_000.0);
    assert_eq!(f(cfg(MotoClass::Heavyweight, MotoAxle::Rear).tyre_stiffness()), 135_000.0);
    assert_eq!(f(MotoConfig { susp_type: MotoSuspType::TelescopicFork, ..s }.unsprung_fraction()), 0.21);
    assert_eq!(f(MotoConfig { susp_type: MotoSuspType::Paralever, ..s }.unsprung_fraction()), 0.15);
    let no_rake = MotoConfig { rake_angle_deg: None, ..s };
    assert_eq!(f(no_rake.ride_targets().0), 23.0);
}

#[test]
fn documented_dry_mass_ranges() {
    let classes = [
        (MotoClass::Scooter, 100.0, 160.0),
        (MotoClass::Commuter, 140.0, 200.0),
        (MotoClass::Middleweight, 180.0, 220.0),
        (MotoClass::Supersport, 195.0, 210.0),
        (MotoClass::Heavyweight, 220.0, 280.0),
        (MotoClass::Adventure, 200.0, 260.0),
        (MotoClass::Offroad, 100.0, 130.0),
        (MotoClass::ElectricMoto, 200.0, 280.0),
    ];
    for (c, lo, hi) in classes {
        let m = cfg(c, MotoAxle::Rear);
        assert_eq!((f(m.dry_mass_range().0), f(m.dry_mass_range().1)), (lo, hi), "{:?}", c);
    }
}

#[test]
fn moto_validation() {
    let ok = cfg(MotoClass::Adventure, MotoAxle::Front);
    assert_eq!(
        MotoConfig { dry_mass_kg: 300.0f64.to_bits(), ..ok }.validate(),
        Err(InputError::DryMassOutOfRange { min: 200.0f64.to_bits(), max: 260.0f64.to_bits() })
    );
    assert_eq!(MotoConfig { rider_mass_kg: 135.0f64.to_bits(), ..ok }.validate(),
               Err(InputError::MotoRiderMassOutOfRange));
    assert_eq!(MotoConfig { front_weight_distribution_pct: Some(30.0f64.to_bits()), ..ok }.validate(),
               Err(InputError::FrontWeightDistributionOutOfRange));
    assert_eq!(MotoConfig { rake_angle_deg: Some(41.0f64.to_bits()), ..ok }.validate(),
               Err(InputError::MotoRakeAngleOutOfRange));
    assert_eq!(MotoConfig { fn_target_hz: Some(0.7f64.to_bits()), ..ok }.validate(),
               Err(InputError::MotoFnTargetOutOfRange));
    assert_eq!(MotoConfig { zeta_target: Some(0.9f64.to_bits()), ..ok }.validate(),
               Err(InputError::ZetaTargetOutOfRange));
}

#[test]
fn derived_moto_warnings() {
    assert_eq!(moto_range_warnings(2.2f64.to_bits(), 0.3f64.to_bits()), (false, false));
    assert_eq!(moto_range_warnings(1.1f64.to_bits(), 0.6f64.to_bits()), (true, true));
    assert_eq!(moto_range_warnings(4.0f64.to_bits(), 0.15f64.to_bits()), (false, false));
}
