//! Passenger-car tables against the floating-point formulas they stand for.

use suspension_core::vehicle::{vehicle_range_warnings, RangeWarnings};
use suspension_core::error::InputError;
use suspension_core::vehicle::{AxlePosition, Powertrain, SuspensionType, VehicleClass, VehicleConfig};

const CLASSES: [VehicleClass; 7] = [
    VehicleClass::Subcompact,
    VehicleClass::Compact,
    VehicleClass::Midsize,
    VehicleClass::Fullsize,
    VehicleClass::Suv,
    VehicleClass::Truck,
    VehicleClass::Sports,
];
const POWERTRAINS: [Powertrain; 4] =
    [Powertrain::Gasoline, Powertrain::Diesel, Powertrain::HybridEv, Powertrain::BatteryEv];

fn cfg(c: VehicleClass, p: Powertrain, gvm: f64) -> VehicleConfig {
    VehicleConfig {
        vehicle_class: c,
        powertrain: p,
        axle_position: AxlePosition::Front,
        suspension_type: SuspensionType::MacPherson,
        gross_vehicle_mass: gvm.to_bits(),
        fn_target_hz: None,
        zeta_target: None,
    }
}

fn f(x: u64) -> f64 {
    f64::from_bits(x)
}

fn expected_fn(c: VehicleClass, p: Powertrain) -> f64 {
    let base = match c {
        VehicleClass::Sports => 1.5,
        VehicleClass::Truck => 1.4,
        VehicleClass::Suv => 1.2,
        VehicleClass::Fullsize => 1.1,
        VehicleClass::Midsize => 1.2,
        VehicleClass::Compact => 1.3,
        VehicleClass::Subcompact => 1.3,
    };
    match p {
        Powertrain::BatteryEv => (base - 0.15_f64).clamp(0.9_f64, 1.2_f64),
        Powertrain::HybridEv => (base - 0.08_f64).max(0.9_f64),
        _ => base,
    }
}

fn expected_kt(c: VehicleClass, p: Powertrain) -> f64 {
    let base = match c {
        VehicleClass::Subcompact => 170_000.0,
        VehicleClass::Compact => 180_000.0,
        VehicleClass::Midsize => 190_000.0,
        VehicleClass::Fullsize => 200_000.0,
        VehicleClass::Suv => 210_000.0,
        VehicleClass::Truck => 250_000.0,
        VehicleClass::Sports => 185_000.0,
    };
    match p {
        Powertrain::BatteryEv => base * 1.13,
        Powertrain::HybridEv => base * 1.07,
        Powertrain::Diesel => base * 1.05,
        Powertrain::Gasoline => base,
    }
}

#[test]
fn frequency_and_tyre_tables_match_the_formulas() {
    for &c in &CLASSES {
        for &p in &POWERTRAINS {
            let v = cfg(c, p, 1500.0);
            assert_eq!(f(v.default_fn_hz()), expected_fn(c, p), "{:?} {:?}", c, p);
            assert_eq!(f(v.tyre_stiffness()), expected_kt(c, p), "{:?} {:?}", c, p);
        }
    }
}

#[test]
fn documented_class_ranges_and_ev_frequencies() {
    let expected = [
        (900.0, 1200.0),
        (1200.0, 1500.0),
        (1500.0, 1900.0),
        (1900.0, 2400.0),
        (1800.0, 2800.0),
        (2500.0, 4000.0),
        (1200.0, 1600.0),
    ];
    for (i, &c) in CLASSES.iter().enumerate() {
        let (lo, hi) = cfg(c, Powertrain::Gasoline, 1500.0).gvm_range();
        assert_eq!((f(lo), f(hi)), expected[i], "{:?}", c);
        let ev = f(cfg(c, Powertrain::BatteryEv, 1500.0).default_fn_hz());
        assert!((0.9..=1.2).contains(&ev), "{:?} {}", c, ev);
        for p in [Powertrain::Gasoline, Powertrain::Diesel] {
            let ice = f(cfg(c, p, 1500.0).default_fn_hz());
            assert!((1.0..=1.5).contains(&ice), "{:?} {}", c, ice);
        }
    }
    assert_eq!(InputError::GrossVehicleMassOutOfRange { min: 0, max: 0 }.message(), "gross_vehicle_mass out of SAE J2168 range");
}

#[test]
fn ranges_fractions_and_damping() {
    let v = cfg(VehicleClass::Midsize, Powertrain::Gasoline, 1700.0);
    assert_eq!((f(v.gvm_range().0), f(v.gvm_range().1)), (1500.0, 1900.0));
    assert_eq!(f(v.corner_load_fraction()), 0.55);
    assert_eq!(f(VehicleConfig { axle_position: AxlePosition::Rear, ..v }.corner_load_fraction()), 0.45);
    assert_eq!(f(cfg(VehicleClass::Midsize, Powertrain::HybridEv, 1700.0).corner_load_fraction()), 0.50);
    assert_eq!(f(v.unsprung_fraction()), 0.15);
    assert_eq!(f(VehicleConfig { suspension_type: SuspensionType::SolidAxle, ..v }.unsprung_fraction()), 0.22);
    assert_eq!(f(VehicleConfig { suspension_type: SuspensionType::DoubleWishbone, ..v }.unsprung_fraction()), 0.12);
    assert_eq!(f(VehicleConfig { suspension_type: SuspensionType::MultiLink, ..v }.unsprung_fraction()), 0.13);
    assert_eq!(f(v.default_zeta()), 0.30);
    assert_eq!(f(cfg(VehicleClass::Sports, Powertrain::BatteryEv, 1200.0).default_zeta()), 0.35);
    assert_eq!(f(cfg(VehicleClass::Truck, Powertrain::BatteryEv, 3000.0).default_zeta()), 0.30);
    assert_eq!(f(cfg(VehicleClass::Suv, Powertrain::BatteryEv, 2000.0).default_zeta()), 0.25);
    assert_eq!(f(cfg(VehicleClass::Suv, Powertrain::HybridEv, 2000.0).default_zeta()), 0.27);
    assert_eq!((f(cfg(VehicleClass::Truck, Powertrain::Diesel, 3000.0).gvm_range().1)), 4000.0);
}

#[test]
fn vehicle_validation() {
    let v = cfg(VehicleClass::Midsize, Powertrain::BatteryEv, 2100.0);
    assert_eq!(
        v.validate(),
        Err(InputError::GrossVehicleMassOutOfRange { min: 1500.0f64.to_bits(), max: 1900.0f64.to_bits() })
    );
    assert_eq!(cfg(VehicleClass::Midsize, Powertrain::BatteryEv, 1900.0).validate(), Ok(()));
    let ok = cfg(VehicleClass::Compact, Powertrain::Gasoline, 1300.0);
    assert_eq!(VehicleConfig { fn_target_hz: Some(3.5f64.to_bits()), ..ok }.validate(),
               Err(InputError::VehicleFnTargetOutOfRange));
    assert_eq!(VehicleConfig { zeta_target: Some(0.05f64.to_bits()), ..ok }.validate(),
               Err(InputError::ZetaTargetOutOfRange));
    // the bounds are tested with `<` and `>`, so NaN passes
    assert_eq!(VehicleConfig { fn_target_hz: Some(f64::NAN.to_bits()), ..ok }.validate(), Ok(()));
    assert_eq!(cfg(VehicleClass::Compact, Powertrain::Gasoline, f64::NAN).validate(), Ok(()));
}

#[test]
fn ride_targets_prefer_the_request() {
    let v = cfg(VehicleClass::Compact, Powertrain::Gasoline, 1300.0);
    let (fn_hz, zeta) = v.ride_targets();
    assert_eq!((f(fn_hz), f(zeta)), (1.3, 0.30));
    let w = VehicleConfig { fn_target_hz: Some(1.1f64.to_bits()), zeta_target: Some(0.4f64.to_bits()), ..v };
    let (fn_hz, zeta) = w.ride_targets();
    assert_eq!((f(fn_hz), f(zeta)), (1.1, 0.4));
}

#[test]
fn derived_range_warnings() {
    let w = vehicle_range_warnings(1.2f64.to_bits(), 12.0f64.to_bits(), 0.3f64.to_bits());
    assert_eq!(w, RangeWarnings { fn_sprung: false, fn_unsprung: false, zeta: false });
    let w = vehicle_range_warnings(2.1f64.to_bits(), 7.9f64.to_bits(), 0.5f64.to_bits());
    assert_eq!(w, RangeWarnings { fn_sprung: true, fn_unsprung: true, zeta: false });
    let w = vehicle_range_warnings(0.8f64.to_bits(), 18.5f64.to_bits(), 0.19f64.to_bits());
    assert_eq!(w, RangeWarnings { fn_sprung: false, fn_unsprung: true, zeta: true });
}
