//! Passenger-car corner: suspension targets derived from the vehicle class,
//! powertrain, axle and suspension architecture.

use vstd::prelude::*;
use crate::error::{verdict, InputError};
use crate::ieee::{float_le, float_lt, is_nan, lt};
use crate::request::{ZETA_MAX, ZETA_MIN};

verus! {

/// Vehicle class; governs the gross vehicle mass range.
#[derive(Clone, Copy, Debug, PartialEq, Eq, Structural)]
pub enum VehicleClass {
    Subcompact,
    Compact,
    Midsize,
    Fullsize,
    Suv,
    Truck,
    Sports,
}

/// Powertrain; shifts load distribution, ride targets and tyre stiffness.
#[derive(Clone, Copy, Debug, PartialEq, Eq, Structural)]
pub enum Powertrain {
    Gasoline,
    Diesel,
    HybridEv,
    BatteryEv,
}

/// Axle of the corner.
#[derive(Clone, Copy, Debug, PartialEq, Eq, Structural)]
pub enum AxlePosition {
    Front,
    Rear,
}

/// Suspension architecture; sets the unsprung mass fraction.
#[derive(Clone, Copy, Debug, PartialEq, Eq, Structural)]
pub enum SuspensionType {
    MacPherson,
    DoubleWishbone,
    MultiLink,
    SolidAxle,
}

/// A vehicle corner to derive suspension parameters for.  Masses and
/// targets are binary64 bit patterns.
#[derive(Clone, Copy, Debug)]
pub struct VehicleConfig {
    pub vehicle_class: VehicleClass,
    pub powertrain: Powertrain,
    pub axle_position: AxlePosition,
    pub suspension_type: SuspensionType,
    /// Gross vehicle mass [kg].
    pub gross_vehicle_mass: u64,
    /// Ride natural frequency target [Hz].
    pub fn_target_hz: Option<u64>,
    /// Damping ratio target.
    pub zeta_target: Option<u64>,
}

/// `0.5`
pub const VEHICLE_FN_MIN_HZ: u64 = 0x3FE0_0000_0000_0000;
/// `3.0`
pub const VEHICLE_FN_MAX_HZ: u64 = 0x4008_0000_0000_0000;

/// Gross vehicle mass range [kg] of each class: subcompact 900–1200,
/// compact 1200–1500, midsize 1500–1900, fullsize 1900–2400, SUV
/// 1800–2800, truck 2500–4000, sports 1200–1600.
pub open spec fn gvm_bounds(c: VehicleClass) -> (u64, u64) {
    match c {
        VehicleClass::Subcompact => (0x408C_2000_0000_0000, 0x4092_C000_0000_0000),  // 900 .. 1200 kg
        VehicleClass::Compact => (0x4092_C000_0000_0000, 0x4097_7000_0000_0000),  // 1200 .. 1500 kg
        VehicleClass::Midsize => (0x4097_7000_0000_0000, 0x409D_B000_0000_0000),  // 1500 .. 1900 kg
        VehicleClass::Fullsize => (0x409D_B000_0000_0000, 0x40A2_C000_0000_0000),  // 1900 .. 2400 kg
        VehicleClass::Suv => (0x409C_2000_0000_0000, 0x40A5_E000_0000_0000),  // 1800 .. 2800 kg
        VehicleClass::Truck => (0x40A3_8800_0000_0000, 0x40AF_4000_0000_0000),  // 2500 .. 4000 kg
        VehicleClass::Sports => (0x4092_C000_0000_0000, 0x4099_0000_0000_0000),  // 1200 .. 1600 kg
    }
}

/// Share of the vehicle mass carried by one axle: 55 / 45 % front / rear
/// for combustion engines, 50 / 50 % for hybrids and battery EVs.
pub open spec fn corner_load_fraction_of(a: AxlePosition, p: Powertrain) -> u64 {
    let electric = p == Powertrain::BatteryEv || p == Powertrain::HybridEv;
    match (a, electric) {
        (AxlePosition::Front, false) => 0x3FE1_9999_9999_999A,  // 0.55
        (AxlePosition::Rear, false) => 0x3FDC_CCCC_CCCC_CCCD,  // 0.45
        (_, true) => 0x3FE0_0000_0000_0000,  // 0.50
    }
}

/// Unsprung share of the corner mass for each architecture.
pub open spec fn unsprung_fraction_of(s: SuspensionType) -> u64 {
    match s {
        SuspensionType::DoubleWishbone => 0x3FBE_B851_EB85_1EB8,  // 0.12
        SuspensionType::MultiLink => 0x3FC0_A3D7_0A3D_70A4,  // 0.13
        SuspensionType::MacPherson => 0x3FC3_3333_3333_3333,  // 0.15
        SuspensionType::SolidAxle => 0x3FCC_28F5_C28F_5C29,  // 0.22
    }
}

/// Default ride frequency [Hz]: 1.5 sports, 1.4 truck, 1.2 SUV and
/// midsize, 1.1 fullsize, 1.3 compact and subcompact; battery EVs
/// `(base - 0.15)` kept within the battery-isolation range 0.9–1.2 Hz,
/// hybrids `(base - 0.08).max(0.9)`, each value as binary64 arithmetic
/// gives it.
pub open spec fn default_fn_hz_of(c: VehicleClass, p: Powertrain) -> u64 {
    match (c, p) {
        (VehicleClass::Subcompact, Powertrain::Gasoline) => 0x3FF4_CCCC_CCCC_CCCD,  // 1.3
        (VehicleClass::Subcompact, Powertrain::Diesel) => 0x3FF4_CCCC_CCCC_CCCD,  // 1.3
        (VehicleClass::Subcompact, Powertrain::HybridEv) => 0x3FF3_851E_B851_EB85,  // 1.22
        (VehicleClass::Subcompact, Powertrain::BatteryEv) => 0x3FF2_6666_6666_6667,  // 1.1500000000000001
        (VehicleClass::Compact, Powertrain::Gasoline) => 0x3FF4_CCCC_CCCC_CCCD,  // 1.3
        (VehicleClass::Compact, Powertrain::Diesel) => 0x3FF4_CCCC_CCCC_CCCD,  // 1.3
        (VehicleClass::Compact, Powertrain::HybridEv) => 0x3FF3_851E_B851_EB85,  // 1.22
        (VehicleClass::Compact, Powertrain::BatteryEv) => 0x3FF2_6666_6666_6667,  // 1.1500000000000001
        (VehicleClass::Midsize, Powertrain::Gasoline) => 0x3FF3_3333_3333_3333,  // 1.2
        (VehicleClass::Midsize, Powertrain::Diesel) => 0x3FF3_3333_3333_3333,  // 1.2
        (VehicleClass::Midsize, Powertrain::HybridEv) => 0x3FF1_EB85_1EB8_51EB,  // 1.1199999999999999
        (VehicleClass::Midsize, Powertrain::BatteryEv) => 0x3FF0_CCCC_CCCC_CCCD,  // 1.05
        (VehicleClass::Fullsize, Powertrain::Gasoline) => 0x3FF1_9999_9999_999A,  // 1.1
        (VehicleClass::Fullsize, Powertrain::Diesel) => 0x3FF1_9999_9999_999A,  // 1.1
        (VehicleClass::Fullsize, Powertrain::HybridEv) => 0x3FF0_51EB_851E_B852,  // 1.02
        (VehicleClass::Fullsize, Powertrain::BatteryEv) => 0x3FEE_6666_6666_6667,  // 0.9500000000000001
        (VehicleClass::Suv, Powertrain::Gasoline) => 0x3FF3_3333_3333_3333,  // 1.2
        (VehicleClass::Suv, Powertrain::Diesel) => 0x3FF3_3333_3333_3333,  // 1.2
        (VehicleClass::Suv, Powertrain::HybridEv) => 0x3FF1_EB85_1EB8_51EB,  // 1.1199999999999999
        (VehicleClass::Suv, Powertrain::BatteryEv) => 0x3FF0_CCCC_CCCC_CCCD,  // 1.05
        (VehicleClass::Truck, Powertrain::Gasoline) => 0x3FF6_6666_6666_6666,  // 1.4
        (VehicleClass::Truck, Powertrain::Diesel) => 0x3FF6_6666_6666_6666,  // 1.4
        (VehicleClass::Truck, Powertrain::HybridEv) => 0x3FF5_1EB8_51EB_851E,  // 1.3199999999999998
        (VehicleClass::Truck, Powertrain::BatteryEv) => 0x3FF3_3333_3333_3333,  // 1.2
        (VehicleClass::Sports, Powertrain::Gasoline) => 0x3FF8_0000_0000_0000,  // 1.5
        (VehicleClass::Sports, Powertrain::Diesel) => 0x3FF8_0000_0000_0000,  // 1.5
        (VehicleClass::Sports, Powertrain::HybridEv) => 0x3FF6_B851_EB85_1EB8,  // 1.42
        (VehicleClass::Sports, Powertrain::BatteryEv) => 0x3FF3_3333_3333_3333,  // 1.2
    }
}

/// Default damping ratio: 0.35 sports, 0.30 trucks, else 0.25 battery EV,
/// 0.27 hybrid, 0.30 otherwise.
pub open spec fn default_zeta_of(c: VehicleClass, p: Powertrain) -> u64 {
    if c == VehicleClass::Sports {
        0x3FD6_6666_6666_6666  // 0.35
    } else if c == VehicleClass::Truck {
        0x3FD3_3333_3333_3333  // 0.30
    } else if p == Powertrain::BatteryEv {
        0x3FD0_0000_0000_0000  // 0.25
    } else if p == Powertrain::HybridEv {
        0x3FD1_47AE_147A_E148  // 0.27
    } else {
        0x3FD3_3333_3333_3333  // 0.30
    }
}

/// Tyre radial stiffness [N/m]: the class base (170 000 subcompact to
/// 250 000 truck) times 1.13 for battery EVs, 1.07 for hybrids, 1.05 for
/// diesels, each product as binary64 arithmetic gives it.
pub open spec fn tyre_stiffness_of(c: VehicleClass, p: Powertrain) -> u64 {
    match (c, p) {
        (VehicleClass::Subcompact, Powertrain::Gasoline) => 0x4104_C080_0000_0000,  // 170000.0
        (VehicleClass::Subcompact, Powertrain::Diesel) => 0x4105_CA20_0000_0000,  // 178500.0
        (VehicleClass::Subcompact, Powertrain::HybridEv) => 0x4106_3460_0000_0000,  // 181900.0
        (VehicleClass::Subcompact, Powertrain::BatteryEv) => 0x4107_731F_FFFF_FFFF,  // 192099.99999999997
        (VehicleClass::Compact, Powertrain::Gasoline) => 0x4105_F900_0000_0000,  // 180000.0
        (VehicleClass::Compact, Powertrain::Diesel) => 0x4107_1240_0000_0000,  // 189000.0
        (VehicleClass::Compact, Powertrain::HybridEv) => 0x4107_82C0_0000_0000,  // 192600.0
        (VehicleClass::Compact, Powertrain::BatteryEv) => 0x4108_D43F_FFFF_FFFF,  // 203399.99999999997
        (VehicleClass::Midsize, Powertrain::Gasoline) => 0x4107_3180_0000_0000,  // 190000.0
        (VehicleClass::Midsize, Powertrain::Diesel) => 0x4108_5A60_0000_0000,  // 199500.0
        (VehicleClass::Midsize, Powertrain::HybridEv) => 0x4108_D120_0000_0000,  // 203300.0
        (VehicleClass::Midsize, Powertrain::BatteryEv) => 0x410A_355F_FFFF_FFFF,  // 214699.99999999997
        (VehicleClass::Fullsize, Powertrain::Gasoline) => 0x4108_6A00_0000_0000,  // 200000.0
        (VehicleClass::Fullsize, Powertrain::Diesel) => 0x4109_A280_0000_0000,  // 210000.0
        (VehicleClass::Fullsize, Powertrain::HybridEv) => 0x410A_1F80_0000_0000,  // 214000.0
        (VehicleClass::Fullsize, Powertrain::BatteryEv) => 0x410B_967F_FFFF_FFFF,  // 225999.99999999997
        (VehicleClass::Suv, Powertrain::Gasoline) => 0x4109_A280_0000_0000,  // 210000.0
        (VehicleClass::Suv, Powertrain::Diesel) => 0x410A_EAA0_0000_0000,  // 220500.0
        (VehicleClass::Suv, Powertrain::HybridEv) => 0x410B_6DE0_0000_0000,  // 224700.0
        (VehicleClass::Suv, Powertrain::BatteryEv) => 0x410C_F79F_FFFF_FFFF,  // 237299.99999999997
        (VehicleClass::Truck, Powertrain::Gasoline) => 0x410E_8480_0000_0000,  // 250000.0
        (VehicleClass::Truck, Powertrain::Diesel) => 0x4110_0590_0000_0000,  // 262500.0
        (VehicleClass::Truck, Powertrain::HybridEv) => 0x4110_53B0_0000_0000,  // 267500.0
        (VehicleClass::Truck, Powertrain::BatteryEv) => 0x4111_3E10_0000_0000,  // 282500.0
        (VehicleClass::Sports, Powertrain::Gasoline) => 0x4106_9540_0000_0000,  // 185000.0
        (VehicleClass::Sports, Powertrain::Diesel) => 0x4107_B650_0000_0000,  // 194250.0
        (VehicleClass::Sports, Powertrain::HybridEv) => 0x4108_29F0_0000_0000,  // 197950.0
        (VehicleClass::Sports, Powertrain::BatteryEv) => 0x4109_84CF_FFFF_FFFF,  // 209049.99999999997
    }
}

/// The refusal for a vehicle configuration, if any: gross vehicle mass
/// below or above its class range, ride frequency target below 0.5 or
/// above 3.0 Hz, damping ratio target below 0.1 or above 0.8.
pub open spec fn vehicle_error(v: VehicleConfig) -> Option<InputError> {
    let (min, max) = gvm_bounds(v.vehicle_class);
    if float_lt(v.gross_vehicle_mass, min) || float_lt(max, v.gross_vehicle_mass) {
        Some(InputError::GrossVehicleMassOutOfRange { min, max })
    } else if v.fn_target_hz matches Some(f) && (float_lt(f, VEHICLE_FN_MIN_HZ) || float_lt(
        VEHICLE_FN_MAX_HZ,
        f,
    )) {
        Some(InputError::VehicleFnTargetOutOfRange)
    } else if v.zeta_target matches Some(z) && (float_lt(z, ZETA_MIN) || float_lt(ZETA_MAX, z)) {
        Some(InputError::ZetaTargetOutOfRange)
    } else {
        None
    }
}

/// Which derived characteristics fall outside the recommended ranges:
/// ride frequency [0.8, 2.0] Hz, wheel-hop frequency [8, 18] Hz, damping
/// ratio [0.20, 0.50], each tested as `x < lo || x > hi`.
#[derive(Clone, Copy, Debug, PartialEq, Eq, Structural)]
pub struct RangeWarnings {
    pub fn_sprung: bool,
    pub fn_unsprung: bool,
    pub zeta: bool,
}

/// `x < lo || x > hi` on binary64 values.
pub open spec fn outside_range(x: u64, lo: u64, hi: u64) -> bool {
    float_lt(x, lo) || float_lt(hi, x)
}

/// The warnings for a derived passenger-car corner.
pub fn vehicle_range_warnings(fn_sprung: u64, fn_unsprung: u64, zeta: u64) -> (r: RangeWarnings)
    ensures
        r.fn_sprung == outside_range(fn_sprung, 0x3FE9_9999_9999_999A, 0x4000_0000_0000_0000),
        r.fn_unsprung == outside_range(fn_unsprung, 0x4020_0000_0000_0000, 0x4032_0000_0000_0000),
        r.zeta == outside_range(zeta, 0x3FC9_9999_9999_999A, 0x3FE0_0000_0000_0000),
{
    RangeWarnings {
        fn_sprung: lt(fn_sprung, 0x3FE9_9999_9999_999A) || lt(0x4000_0000_0000_0000, fn_sprung),
        fn_unsprung: lt(fn_unsprung, 0x4020_0000_0000_0000) || lt(0x4032_0000_0000_0000, fn_unsprung),
        zeta: lt(zeta, 0x3FC9_9999_9999_999A) || lt(0x3FE0_0000_0000_0000, zeta),
    }
}

impl VehicleConfig {
    /// Check the gross vehicle mass against its class and the optional
    /// targets against their ranges.
    pub fn validate(&self) -> (r: Result<(), InputError>)
        ensures
            r == verdict(vehicle_error(*self)),
    {
        let (min, max) = self.gvm_range();
        if lt(self.gross_vehicle_mass, min) || lt(max, self.gross_vehicle_mass) {
            return Err(InputError::GrossVehicleMassOutOfRange { min, max });
        }
        if let Some(f) = self.fn_target_hz {
            if lt(f, VEHICLE_FN_MIN_HZ) || lt(VEHICLE_FN_MAX_HZ, f) {
                return Err(InputError::VehicleFnTargetOutOfRange);
            }
        }
        if let Some(z) = self.zeta_target {
            if lt(z, ZETA_MIN) || lt(ZETA_MAX, z) {
                return Err(InputError::ZetaTargetOutOfRange);
            }
        }
        Ok(())
    }

    /// Gross vehicle mass range [kg] of the class.
    pub fn gvm_range(&self) -> (r: (u64, u64))
        ensures
            r == gvm_bounds(self.vehicle_class),
    {
        match self.vehicle_class {
            VehicleClass::Subcompact => (0x408C_2000_0000_0000, 0x4092_C000_0000_0000),  // 900 .. 1200 kg
            VehicleClass::Compact => (0x4092_C000_0000_0000, 0x4097_7000_0000_0000),  // 1200 .. 1500 kg
            VehicleClass::Midsize => (0x4097_7000_0000_0000, 0x409D_B000_0000_0000),  // 1500 .. 1900 kg
            VehicleClass::Fullsize => (0x409D_B000_0000_0000, 0x40A2_C000_0000_0000),  // 1900 .. 2400 kg
            VehicleClass::Suv => (0x409C_2000_0000_0000, 0x40A5_E000_0000_0000),  // 1800 .. 2800 kg
            VehicleClass::Truck => (0x40A3_8800_0000_0000, 0x40AF_4000_0000_0000),  // 2500 .. 4000 kg
            VehicleClass::Sports => (0x4092_C000_0000_0000, 0x4099_0000_0000_0000),  // 1200 .. 1600 kg
        }
    }

    /// Share of the vehicle mass on this corner's axle.
    pub fn corner_load_fraction(&self) -> (r: u64)
        ensures
            r == corner_load_fraction_of(self.axle_position, self.powertrain),
    {
        let electric = match self.powertrain {
            Powertrain::BatteryEv | Powertrain::HybridEv => true,
            _ => false,
        };
        match (self.axle_position, electric) {
            (AxlePosition::Front, false) => 0x3FE1_9999_9999_999A,
            (AxlePosition::Rear, false) => 0x3FDC_CCCC_CCCC_CCCD,
            (_, true) => 0x3FE0_0000_0000_0000,
        }
    }

    /// Unsprung share of the corner mass.
    pub fn unsprung_fraction(&self) -> (r: u64)
        ensures
            r == unsprung_fraction_of(self.suspension_type),
    {
        match self.suspension_type {
            SuspensionType::DoubleWishbone => 0x3FBE_B851_EB85_1EB8,
            SuspensionType::MultiLink => 0x3FC0_A3D7_0A3D_70A4,
            SuspensionType::MacPherson => 0x3FC3_3333_3333_3333,
            SuspensionType::SolidAxle => 0x3FCC_28F5_C28F_5C29,
        }
    }

    /// Default ride natural frequency [Hz]: within 0.9–1.2 Hz for battery
    /// EVs and within the 1.0–1.5 Hz comfort range for combustion engines.
    pub fn default_fn_hz(&self) -> (r: u64)
        ensures
            r == default_fn_hz_of(self.vehicle_class, self.powertrain),
            self.powertrain == Powertrain::BatteryEv ==> float_le(0x3FEC_CCCC_CCCC_CCCD, r)
                && float_le(r, 0x3FF3_3333_3333_3333),
            self.powertrain == Powertrain::Gasoline || self.powertrain == Powertrain::Diesel
                ==> float_le(0x3FF0_0000_0000_0000, r) && float_le(r, 0x3FF8_0000_0000_0000),
    {
        match (self.vehicle_class, self.powertrain) {
            (VehicleClass::Subcompact, Powertrain::Gasoline) => 0x3FF4_CCCC_CCCC_CCCD,  // 1.3
            (VehicleClass::Subcompact, Powertrain::Diesel) => 0x3FF4_CCCC_CCCC_CCCD,  // 1.3
            (VehicleClass::Subcompact, Powertrain::HybridEv) => 0x3FF3_851E_B851_EB85,  // 1.22
            (VehicleClass::Subcompact, Powertrain::BatteryEv) => 0x3FF2_6666_6666_6667,  // 1.1500000000000001
            (VehicleClass::Compact, Powertrain::Gasoline) => 0x3FF4_CCCC_CCCC_CCCD,  // 1.3
            (VehicleClass::Compact, Powertrain::Diesel) => 0x3FF4_CCCC_CCCC_CCCD,  // 1.3
            (VehicleClass::Compact, Powertrain::HybridEv) => 0x3FF3_851E_B851_EB85,  // 1.22
            (VehicleClass::Compact, Powertrain::BatteryEv) => 0x3FF2_6666_6666_6667,  // 1.1500000000000001
            (VehicleClass::Midsize, Powertrain::Gasoline) => 0x3FF3_3333_3333_3333,  // 1.2
            (VehicleClass::Midsize, Powertrain::Diesel) => 0x3FF3_3333_3333_3333,  // 1.2
            (VehicleClass::Midsize, Powertrain::HybridEv) => 0x3FF1_EB85_1EB8_51EB,  // 1.1199999999999999
            (VehicleClass::Midsize, Powertrain::BatteryEv) => 0x3FF0_CCCC_CCCC_CCCD,  // 1.05
            (VehicleClass::Fullsize, Powertrain::Gasoline) => 0x3FF1_9999_9999_999A,  // 1.1
            (VehicleClass::Fullsize, Powertrain::Diesel) => 0x3FF1_9999_9999_999A,  // 1.1
            (VehicleClass::Fullsize, Powertrain::HybridEv) => 0x3FF0_51EB_851E_B852,  // 1.02
            (VehicleClass::Fullsize, Powertrain::BatteryEv) => 0x3FEE_6666_6666_6667,  // 0.9500000000000001
            (VehicleClass::Suv, Powertrain::Gasoline) => 0x3FF3_3333_3333_3333,  // 1.2
            (VehicleClass::Suv, Powertrain::Diesel) => 0x3FF3_3333_3333_3333,  // 1.2
            (VehicleClass::Suv, Powertrain::HybridEv) => 0x3FF1_EB85_1EB8_51EB,  // 1.1199999999999999
            (VehicleClass::Suv, Powertrain::BatteryEv) => 0x3FF0_CCCC_CCCC_CCCD,  // 1.05
            (VehicleClass::Truck, Powertrain::Gasoline) => 0x3FF6_6666_6666_6666,  // 1.4
            (VehicleClass::Truck, Powertrain::Diesel) => 0x3FF6_6666_6666_6666,  // 1.4
            (VehicleClass::Truck, Powertrain::HybridEv) => 0x3FF5_1EB8_51EB_851E,  // 1.3199999999999998
            (VehicleClass::Truck, Powertrain::BatteryEv) => 0x3FF3_3333_3333_3333,  // 1.2
            (VehicleClass::Sports, Powertrain::Gasoline) => 0x3FF8_0000_0000_0000,  // 1.5
            (VehicleClass::Sports, Powertrain::Diesel) => 0x3FF8_0000_0000_0000,  // 1.5
            (VehicleClass::Sports, Powertrain::HybridEv) => 0x3FF6_B851_EB85_1EB8,  // 1.42
            (VehicleClass::Sports, Powertrain::BatteryEv) => 0x3FF3_3333_3333_3333,  // 1.2
        }
    }

    /// Default damping ratio.
    pub fn default_zeta(&self) -> (r: u64)
        ensures
            r == default_zeta_of(self.vehicle_class, self.powertrain),
    {
        match (self.vehicle_class, self.powertrain) {
            (VehicleClass::Sports, _) => 0x3FD6_6666_6666_6666,
            (VehicleClass::Truck, _) => 0x3FD3_3333_3333_3333,
            (_, Powertrain::BatteryEv) => 0x3FD0_0000_0000_0000,
            (_, Powertrain::HybridEv) => 0x3FD1_47AE_147A_E148,
            _ => 0x3FD3_3333_3333_3333,
        }
    }

    /// Tyre radial stiffness [N/m].
    pub fn tyre_stiffness(&self) -> (r: u64)
        ensures
            r == tyre_stiffness_of(self.vehicle_class, self.powertrain),
    {
        match (self.vehicle_class, self.powertrain) {
            (VehicleClass::Subcompact, Powertrain::Gasoline) => 0x4104_C080_0000_0000,  // 170000.0
            (VehicleClass::Subcompact, Powertrain::Diesel) => 0x4105_CA20_0000_0000,  // 178500.0
            (VehicleClass::Subcompact, Powertrain::HybridEv) => 0x4106_3460_0000_0000,  // 181900.0
            (VehicleClass::Subcompact, Powertrain::BatteryEv) => 0x4107_731F_FFFF_FFFF,  // 192099.99999999997
            (VehicleClass::Compact, Powertrain::Gasoline) => 0x4105_F900_0000_0000,  // 180000.0
            (VehicleClass::Compact, Powertrain::Diesel) => 0x4107_1240_0000_0000,  // 189000.0
            (VehicleClass::Compact, Powertrain::HybridEv) => 0x4107_82C0_0000_0000,  // 192600.0
            (VehicleClass::Compact, Powertrain::BatteryEv) => 0x4108_D43F_FFFF_FFFF,  // 203399.99999999997
            (VehicleClass::Midsize, Powertrain::Gasoline) => 0x4107_3180_0000_0000,  // 190000.0
            (VehicleClass::Midsize, Powertrain::Diesel) => 0x4108_5A60_0000_0000,  // 199500.0
            (VehicleClass::Midsize, Powertrain::HybridEv) => 0x4108_D120_0000_0000,  // 203300.0
            (VehicleClass::Midsize, Powertrain::BatteryEv) => 0x410A_355F_FFFF_FFFF,  // 214699.99999999997
            (VehicleClass::Fullsize, Powertrain::Gasoline) => 0x4108_6A00_0000_0000,  // 200000.0
            (VehicleClass::Fullsize, Powertrain::Diesel) => 0x4109_A280_0000_0000,  // 210000.0
            (VehicleClass::Fullsize, Powertrain::HybridEv) => 0x410A_1F80_0000_0000,  // 214000.0
            (VehicleClass::Fullsize, Powertrain::BatteryEv) => 0x410B_967F_FFFF_FFFF,  // 225999.99999999997
            (VehicleClass::Suv, Powertrain::Gasoline) => 0x4109_A280_0000_0000,  // 210000.0
            (VehicleClass::Suv, Powertrain::Diesel) => 0x410A_EAA0_0000_0000,  // 220500.0
            (VehicleClass::Suv, Powertrain::HybridEv) => 0x410B_6DE0_0000_0000,  // 224700.0
            (VehicleClass::Suv, Powertrain::BatteryEv) => 0x410C_F79F_FFFF_FFFF,  // 237299.99999999997
            (VehicleClass::Truck, Powertrain::Gasoline) => 0x410E_8480_0000_0000,  // 250000.0
            (VehicleClass::Truck, Powertrain::Diesel) => 0x4110_0590_0000_0000,  // 262500.0
            (VehicleClass::Truck, Powertrain::HybridEv) => 0x4110_53B0_0000_0000,  // 267500.0
            (VehicleClass::Truck, Powertrain::BatteryEv) => 0x4111_3E10_0000_0000,  // 282500.0
            (VehicleClass::Sports, Powertrain::Gasoline) => 0x4106_9540_0000_0000,  // 185000.0
            (VehicleClass::Sports, Powertrain::Diesel) => 0x4107_B650_0000_0000,  // 194250.0
            (VehicleClass::Sports, Powertrain::HybridEv) => 0x4108_29F0_0000_0000,  // 197950.0
            (VehicleClass::Sports, Powertrain::BatteryEv) => 0x4109_84CF_FFFF_FFFF,  // 209049.99999999997
        }
    }

    /// Ride frequency [Hz] and damping ratio the derivation aims at: the
    /// targets given, else the defaults.
    pub fn ride_targets(&self) -> (r: (u64, u64))
        ensures
            r.0 == (match self.fn_target_hz {
                Some(f) => f,
                None => default_fn_hz_of(self.vehicle_class, self.powertrain),
            }),
            r.1 == (match self.zeta_target {
                Some(z) => z,
                None => default_zeta_of(self.vehicle_class, self.powertrain),
            }),
    {
        let f = match self.fn_target_hz {
            Some(f) => f,
            None => self.default_fn_hz(),
        };
        let z = match self.zeta_target {
            Some(z) => z,
            None => self.default_zeta(),
        };
        (f, z)
    }
}

// ---------------------------------------------------------------------------
// Laws
// ---------------------------------------------------------------------------

/// The documented class ranges of the gross vehicle mass [kg], each a
/// non-empty interval.
pub proof fn lemma_gvm_ranges(c: VehicleClass)
    ensures
        float_lt(gvm_bounds(c).0, gvm_bounds(c).1),
        c == VehicleClass::Subcompact ==> gvm_bounds(c) == (0x408C_2000_0000_0000u64, 0x4092_C000_0000_0000u64),  // 900, 1200
        c == VehicleClass::Compact ==> gvm_bounds(c) == (0x4092_C000_0000_0000u64, 0x4097_7000_0000_0000u64),  // 1200, 1500
        c == VehicleClass::Midsize ==> gvm_bounds(c) == (0x4097_7000_0000_0000u64, 0x409D_B000_0000_0000u64),  // 1500, 1900
        c == VehicleClass::Fullsize ==> gvm_bounds(c) == (0x409D_B000_0000_0000u64, 0x40A2_C000_0000_0000u64),  // 1900, 2400
        c == VehicleClass::Suv ==> gvm_bounds(c) == (0x409C_2000_0000_0000u64, 0x40A5_E000_0000_0000u64),  // 1800, 2800
        c == VehicleClass::Truck ==> gvm_bounds(c) == (0x40A3_8800_0000_0000u64, 0x40AF_4000_0000_0000u64),  // 2500, 4000
        c == VehicleClass::Sports ==> gvm_bounds(c) == (0x4092_C000_0000_0000u64, 0x4099_0000_0000_0000u64),  // 1200, 1600
{
}

/// Electric corners (battery or hybrid) carry half the load on either
/// axle; combustion-engine corners carry 55 % at the front and 45 % at the
/// rear.  So the share never depends on the axle for an electric
/// powertrain, and never on the kind of combustion engine.
pub proof fn lemma_corner_load_split(a: AxlePosition, p: Powertrain)
    ensures
        p == Powertrain::BatteryEv || p == Powertrain::HybridEv ==> corner_load_fraction_of(a, p)
            == 0x3FE0_0000_0000_0000u64,  // 0.50
        (p == Powertrain::Gasoline || p == Powertrain::Diesel) && a == AxlePosition::Front
            ==> corner_load_fraction_of(a, p) == 0x3FE1_9999_9999_999Au64,  // 0.55
        (p == Powertrain::Gasoline || p == Powertrain::Diesel) && a == AxlePosition::Rear
            ==> corner_load_fraction_of(a, p) == 0x3FDC_CCCC_CCCC_CCCDu64,  // 0.45
        p == Powertrain::BatteryEv || p == Powertrain::HybridEv ==> corner_load_fraction_of(
            AxlePosition::Front,
            p,
        ) == corner_load_fraction_of(AxlePosition::Rear, p),
        float_lt(
            corner_load_fraction_of(AxlePosition::Rear, Powertrain::Gasoline),
            corner_load_fraction_of(AxlePosition::Front, Powertrain::Gasoline),
        ),
{
}

/// Unsprung fractions: double wishbone 0.12 < multi-link 0.13 < MacPherson
/// 0.15 < solid axle 0.22.
pub proof fn lemma_unsprung_fractions()
    ensures
        unsprung_fraction_of(SuspensionType::DoubleWishbone) == 0x3FBE_B851_EB85_1EB8u64,
        unsprung_fraction_of(SuspensionType::MultiLink) == 0x3FC0_A3D7_0A3D_70A4u64,
        unsprung_fraction_of(SuspensionType::MacPherson) == 0x3FC3_3333_3333_3333u64,
        unsprung_fraction_of(SuspensionType::SolidAxle) == 0x3FCC_28F5_C28F_5C29u64,
        float_lt(
            unsprung_fraction_of(SuspensionType::DoubleWishbone),
            unsprung_fraction_of(SuspensionType::MultiLink),
        ),
        float_lt(
            unsprung_fraction_of(SuspensionType::MultiLink),
            unsprung_fraction_of(SuspensionType::MacPherson),
        ),
        float_lt(
            unsprung_fraction_of(SuspensionType::MacPherson),
            unsprung_fraction_of(SuspensionType::SolidAxle),
        ),
{
}

/// Default ride frequencies: combustion engines (gasoline and diesel alike)
/// use the class base — 1.3 subcompact and compact, 1.2 midsize and SUV,
/// 1.1 fullsize, 1.4 truck, 1.5 sports; battery EVs stay within 0.9–1.2 Hz
/// and sit below hybrids, which sit below combustion engines and no lower
/// than 0.9 Hz.
pub proof fn lemma_default_fn_targets(c: VehicleClass)
    ensures
        default_fn_hz_of(c, Powertrain::Gasoline) == default_fn_hz_of(c, Powertrain::Diesel),
        c == VehicleClass::Subcompact || c == VehicleClass::Compact ==> default_fn_hz_of(
            c,
            Powertrain::Gasoline,
        ) == 0x3FF4_CCCC_CCCC_CCCDu64,  // 1.3
        c == VehicleClass::Midsize || c == VehicleClass::Suv ==> default_fn_hz_of(
            c,
            Powertrain::Gasoline,
        ) == 0x3FF3_3333_3333_3333u64,  // 1.2
        c == VehicleClass::Fullsize ==> default_fn_hz_of(c, Powertrain::Gasoline)
            == 0x3FF1_9999_9999_999Au64,  // 1.1
        c == VehicleClass::Truck ==> default_fn_hz_of(c, Powertrain::Gasoline)
            == 0x3FF6_6666_6666_6666u64,  // 1.4
        c == VehicleClass::Sports ==> default_fn_hz_of(c, Powertrain::Gasoline)
            == 0x3FF8_0000_0000_0000u64,  // 1.5
        float_le(0x3FEC_CCCC_CCCC_CCCD, default_fn_hz_of(c, Powertrain::BatteryEv)),
        float_le(default_fn_hz_of(c, Powertrain::BatteryEv), 0x3FF3_3333_3333_3333),
        float_lt(default_fn_hz_of(c, Powertrain::BatteryEv), default_fn_hz_of(c, Powertrain::HybridEv)),
        float_lt(default_fn_hz_of(c, Powertrain::HybridEv), default_fn_hz_of(c, Powertrain::Gasoline)),
        float_le(0x3FEC_CCCC_CCCC_CCCD, default_fn_hz_of(c, Powertrain::HybridEv)),
{
}

/// Default damping ratios: 0.35 for sports cars and 0.30 for trucks
/// whatever the powertrain; otherwise 0.25 for battery EVs, 0.27 for
/// hybrids and 0.30 for combustion engines.
pub proof fn lemma_default_damping(c: VehicleClass, p: Powertrain)
    ensures
        c == VehicleClass::Sports ==> default_zeta_of(c, p) == 0x3FD6_6666_6666_6666u64,
        c == VehicleClass::Truck ==> default_zeta_of(c, p) == 0x3FD3_3333_3333_3333u64,
        c != VehicleClass::Sports && c != VehicleClass::Truck && p == Powertrain::BatteryEv
            ==> default_zeta_of(c, p) == 0x3FD0_0000_0000_0000u64,
        c != VehicleClass::Sports && c != VehicleClass::Truck && p == Powertrain::HybridEv
            ==> default_zeta_of(c, p) == 0x3FD1_47AE_147A_E148u64,
        c != VehicleClass::Sports && c != VehicleClass::Truck && (p == Powertrain::Gasoline || p
            == Powertrain::Diesel) ==> default_zeta_of(c, p) == 0x3FD3_3333_3333_3333u64,
{
}

/// Tyre stiffness: gasoline cars use the class base (170 000 subcompact,
/// 180 000 compact, 190 000 midsize, 200 000 fullsize, 210 000 SUV,
/// 250 000 truck, 185 000 sports N/m); diesels are stiffer, hybrids
/// stiffer still and battery EVs stiffest.
pub proof fn lemma_tyre_stiffness_order(c: VehicleClass)
    ensures
        c == VehicleClass::Subcompact ==> tyre_stiffness_of(c, Powertrain::Gasoline) == 0x4104_C080_0000_0000u64,
        c == VehicleClass::Compact ==> tyre_stiffness_of(c, Powertrain::Gasoline) == 0x4105_F900_0000_0000u64,
        c == VehicleClass::Midsize ==> tyre_stiffness_of(c, Powertrain::Gasoline) == 0x4107_3180_0000_0000u64,
        c == VehicleClass::Fullsize ==> tyre_stiffness_of(c, Powertrain::Gasoline) == 0x4108_6A00_0000_0000u64,
        c == VehicleClass::Suv ==> tyre_stiffness_of(c, Powertrain::Gasoline) == 0x4109_A280_0000_0000u64,
        c == VehicleClass::Truck ==> tyre_stiffness_of(c, Powertrain::Gasoline) == 0x410E_8480_0000_0000u64,
        c == VehicleClass::Sports ==> tyre_stiffness_of(c, Powertrain::Gasoline) == 0x4106_9540_0000_0000u64,
        float_lt(tyre_stiffness_of(c, Powertrain::Gasoline), tyre_stiffness_of(c, Powertrain::Diesel)),
        float_lt(tyre_stiffness_of(c, Powertrain::Diesel), tyre_stiffness_of(c, Powertrain::HybridEv)),
        float_lt(tyre_stiffness_of(c, Powertrain::HybridEv), tyre_stiffness_of(c, Powertrain::BatteryEv)),
{
}

/// A gross vehicle mass outside the class range is refused with that
/// range, before anything else is checked; an accepted configuration has
/// its mass in the range and its targets within 0.5–3.0 Hz and 0.1–0.8
/// (values that are NaN aside, which no comparison refuses); and a
/// configuration with every value in range is accepted.
pub proof fn lemma_vehicle_validation(v: VehicleConfig)
    ensures
        float_lt(v.gross_vehicle_mass, gvm_bounds(v.vehicle_class).0) || float_lt(
            gvm_bounds(v.vehicle_class).1,
            v.gross_vehicle_mass,
        ) ==> vehicle_error(v) == Some(
            InputError::GrossVehicleMassOutOfRange {
                min: gvm_bounds(v.vehicle_class).0,
                max: gvm_bounds(v.vehicle_class).1,
            },
        ),
        vehicle_error(v) is None && !is_nan(v.gross_vehicle_mass) ==> float_le(
            gvm_bounds(v.vehicle_class).0,
            v.gross_vehicle_mass,
        ) && float_le(v.gross_vehicle_mass, gvm_bounds(v.vehicle_class).1),
        vehicle_error(v) is None ==> (v.fn_target_hz matches Some(f) ==> (!is_nan(f) ==> float_le(
            VEHICLE_FN_MIN_HZ,
            f,
        ) && float_le(f, VEHICLE_FN_MAX_HZ))),
        vehicle_error(v) is None ==> (v.zeta_target matches Some(z) ==> (!is_nan(z) ==> float_le(
            ZETA_MIN,
            z,
        ) && float_le(z, ZETA_MAX))),
        float_le(gvm_bounds(v.vehicle_class).0, v.gross_vehicle_mass) && float_le(
            v.gross_vehicle_mass,
            gvm_bounds(v.vehicle_class).1,
        ) && (v.fn_target_hz matches Some(f) ==> float_le(VEHICLE_FN_MIN_HZ, f) && float_le(
            f,
            VEHICLE_FN_MAX_HZ,
        )) && (v.zeta_target matches Some(z) ==> float_le(ZETA_MIN, z) && float_le(z, ZETA_MAX))
            ==> vehicle_error(v) is None,
{
}

/// A derived characteristic is flagged exactly when it is outside its
/// recommended range — ride frequency 0.8–2.0 Hz, wheel-hop 8–18 Hz,
/// damping ratio 0.20–0.50 — a NaN being flagged by no comparison.
pub proof fn lemma_vehicle_warnings(x: u64)
    ensures
        outside_range(x, 0x3FE9_9999_9999_999A, 0x4000_0000_0000_0000) <==> !is_nan(x) && !(
        float_le(0x3FE9_9999_9999_999A, x) && float_le(x, 0x4000_0000_0000_0000)),
        outside_range(x, 0x4020_0000_0000_0000, 0x4032_0000_0000_0000) <==> !is_nan(x) && !(
        float_le(0x4020_0000_0000_0000, x) && float_le(x, 0x4032_0000_0000_0000)),
        outside_range(x, 0x3FC9_9999_9999_999A, 0x3FE0_0000_0000_0000) <==> !is_nan(x) && !(
        float_le(0x3FC9_9999_9999_999A, x) && float_le(x, 0x3FE0_0000_0000_0000)),
{
}

} // verus!
