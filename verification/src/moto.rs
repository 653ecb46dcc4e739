//! Motorcycle axle: suspension targets derived from the class, the axle
//! and the suspension architecture.

use vstd::prelude::*;
use crate::bike::{optional_within, PCT_35, PCT_65};
use crate::error::{verdict, InputError};
use crate::ieee::{float_le, float_lt, is_nan, lt, within};
use crate::request::{RAKE_MAX_DEG, RAKE_MIN_DEG, ZETA_MAX, ZETA_MIN};
use crate::vehicle::outside_range;

verus! {

/// Motorcycle class; governs the dry mass range and the defaults.
#[derive(Clone, Copy, Debug, PartialEq, Eq, Structural)]
pub enum MotoClass {
    Scooter,
    Commuter,
    Middleweight,
    Supersport,
    Heavyweight,
    Adventure,
    Offroad,
    ElectricMoto,
}

/// Axle of the motorcycle.
#[derive(Clone, Copy, Debug, PartialEq, Eq, Structural)]
pub enum MotoAxle {
    Front,
    Rear,
}

/// Motorcycle suspension architecture.
#[derive(Clone, Copy, Debug, PartialEq, Eq, Structural)]
pub enum MotoSuspType {
    TelescopicFork,
    UsdFork,
    Monoshock,
    DualShock,
    Telelever,
    Paralever,
}

/// A motorcycle axle to derive suspension parameters for.  Masses, angles
/// and targets are binary64 bit patterns.
#[derive(Clone, Copy, Debug)]
pub struct MotoConfig {
    pub moto_class: MotoClass,
    pub axle: MotoAxle,
    pub susp_type: MotoSuspType,
    /// Dry mass without rider and fuel [kg].
    pub dry_mass_kg: u64,
    /// Rider mass [kg], part of the sprung mass.
    pub rider_mass_kg: u64,
    /// Front static weight distribution [%].
    pub front_weight_distribution_pct: Option<u64>,
    /// Steering head rake [degrees].
    pub rake_angle_deg: Option<u64>,
    /// Ride natural frequency target [Hz].
    pub fn_target_hz: Option<u64>,
    /// Damping ratio target.
    pub zeta_target: Option<u64>,
}

/// `40.0`
pub const MOTO_RIDER_MIN_KG: u64 = 0x4044_0000_0000_0000;
/// `130.0`
pub const MOTO_RIDER_MAX_KG: u64 = 0x4060_4000_0000_0000;
/// `0.8`
pub const MOTO_FN_MIN_HZ: u64 = 0x3FE9_9999_9999_999A;
/// `4.0`
pub const MOTO_FN_MAX_HZ: u64 = 0x4010_0000_0000_0000;

/// Dry mass range [kg] of each class: scooter 100–160, commuter 140–200,
/// middleweight 180–220, supersport 195–210, heavyweight 220–280,
/// adventure 200–260, off-road 100–130, electric 200–280.
pub open spec fn dry_mass_bounds(c: MotoClass) -> (u64, u64) {
    match c {
        MotoClass::Scooter => (0x4059_0000_0000_0000, 0x4064_0000_0000_0000),
        MotoClass::Commuter => (0x4061_8000_0000_0000, 0x4069_0000_0000_0000),
        MotoClass::Middleweight => (0x4066_8000_0000_0000, 0x406B_8000_0000_0000),
        MotoClass::Supersport => (0x4068_6000_0000_0000, 0x406A_4000_0000_0000),
        MotoClass::Heavyweight => (0x406B_8000_0000_0000, 0x4071_8000_0000_0000),
        MotoClass::Adventure => (0x4069_0000_0000_0000, 0x4070_4000_0000_0000),
        MotoClass::Offroad => (0x4059_0000_0000_0000, 0x4060_4000_0000_0000),
        MotoClass::ElectricMoto => (0x4069_0000_0000_0000, 0x4071_8000_0000_0000),
    }
}

/// Share of the total mass on an axle when no distribution is given:
/// 48 / 52 % front / rear, 44 / 56 % for electric motorcycles.
pub open spec fn default_axle_load_fraction_of(a: MotoAxle, c: MotoClass) -> u64 {
    match (a, c == MotoClass::ElectricMoto) {
        (MotoAxle::Front, false) => 0x3FDE_B851_EB85_1EB8,
        (MotoAxle::Rear, false) => 0x3FE0_A3D7_0A3D_70A4,
        (MotoAxle::Front, true) => 0x3FDC_28F5_C28F_5C29,
        (MotoAxle::Rear, true) => 0x3FE1_EB85_1EB8_51EC,
    }
}

/// Unsprung share of the axle mass: USD fork 0.17, telescopic fork 0.21,
/// Telelever 0.14, monoshock 0.16, dual shock 0.18, Paralever 0.15.
pub open spec fn moto_unsprung_fraction_of(s: MotoSuspType) -> u64 {
    match s {
        MotoSuspType::UsdFork => 0x3FC5_C28F_5C28_F5C3,
        MotoSuspType::TelescopicFork => 0x3FCA_E147_AE14_7AE1,
        MotoSuspType::Telelever => 0x3FC1_EB85_1EB8_51EC,
        MotoSuspType::Monoshock => 0x3FC4_7AE1_47AE_147B,
        MotoSuspType::DualShock => 0x3FC7_0A3D_70A3_D70A,
        MotoSuspType::Paralever => 0x3FC3_3333_3333_3333,
    }
}

/// Default rake [degrees]: scooter 27, commuter 26, middleweight 25,
/// supersport 23, heavyweight 26, adventure 27.5, off-road 28, electric 25.
pub open spec fn default_rake_deg_of(c: MotoClass) -> u64 {
    match c {
        MotoClass::Scooter => 0x403B_0000_0000_0000,
        MotoClass::Commuter => 0x403A_0000_0000_0000,
        MotoClass::Middleweight => 0x4039_0000_0000_0000,
        MotoClass::Supersport => 0x4037_0000_0000_0000,
        MotoClass::Heavyweight => 0x403A_0000_0000_0000,
        MotoClass::Adventure => 0x403B_8000_0000_0000,
        MotoClass::Offroad => 0x403C_0000_0000_0000,
        MotoClass::ElectricMoto => 0x4039_0000_0000_0000,
    }
}

/// Default ride frequency [Hz]: front off-road 3.0, adventure 2.2,
/// supersport 2.5, electric 2.0, others 2.2; rear off-road 2.8,
/// adventure 2.0, supersport 2.8, electric 1.9, others 2.2.
pub open spec fn moto_default_fn_hz_of(a: MotoAxle, c: MotoClass) -> u64 {
    match (a, c) {
        (MotoAxle::Front, MotoClass::Offroad) => 0x4008_0000_0000_0000,
        (MotoAxle::Front, MotoClass::Adventure) => 0x4001_9999_9999_999A,
        (MotoAxle::Front, MotoClass::Supersport) => 0x4004_0000_0000_0000,
        (MotoAxle::Front, MotoClass::ElectricMoto) => 0x4000_0000_0000_0000,
        (MotoAxle::Front, _) => 0x4001_9999_9999_999A,
        (MotoAxle::Rear, MotoClass::Offroad) => 0x4006_6666_6666_6666,
        (MotoAxle::Rear, MotoClass::Adventure) => 0x4000_0000_0000_0000,
        (MotoAxle::Rear, MotoClass::Supersport) => 0x4006_6666_6666_6666,
        (MotoAxle::Rear, MotoClass::ElectricMoto) => 0x3FFE_6666_6666_6666,
        (MotoAxle::Rear, _) => 0x4001_9999_9999_999A,
    }
}

/// Default damping ratio: off-road 0.25, supersport rear 0.38, supersport
/// front 0.35, adventure and electric 0.28, others 0.30.
pub open spec fn moto_default_zeta_of(c: MotoClass, a: MotoAxle) -> u64 {
    match (c, a) {
        (MotoClass::Offroad, _) => 0x3FD0_0000_0000_0000,
        (MotoClass::Supersport, MotoAxle::Rear) => 0x3FD8_51EB_851E_B852,
        (MotoClass::Supersport, _) => 0x3FD6_6666_6666_6666,
        (MotoClass::Adventure, _) => 0x3FD1_EB85_1EB8_51EC,
        (MotoClass::ElectricMoto, _) => 0x3FD1_EB85_1EB8_51EC,
        _ => 0x3FD3_3333_3333_3333,
    }
}

/// Tyre radial stiffness [N/m] per axle and class.
pub open spec fn moto_tyre_stiffness_of(a: MotoAxle, c: MotoClass) -> u64 {
    match (a, c) {
        (MotoAxle::Front, MotoClass::Scooter) => 0x40F5_F900_0000_0000,
        (MotoAxle::Front, MotoClass::Offroad) => 0x40F1_1700_0000_0000,
        (MotoAxle::Front, MotoClass::Supersport) => 0x4101_1700_0000_0000,
        (MotoAxle::Front, MotoClass::Adventure) => 0x40FA_DB00_0000_0000,
        (MotoAxle::Front, MotoClass::ElectricMoto) => 0x4101_B340_0000_0000,
        (MotoAxle::Front, _) => 0x40FD_4C00_0000_0000,
        (MotoAxle::Rear, MotoClass::Scooter) => 0x40F8_6A00_0000_0000,
        (MotoAxle::Rear, MotoClass::Offroad) => 0x40F2_4F80_0000_0000,
        (MotoAxle::Rear, MotoClass::Supersport) => 0x4103_8800_0000_0000,
        (MotoAxle::Rear, MotoClass::Adventure) => 0x40FE_8480_0000_0000,
        (MotoAxle::Rear, MotoClass::ElectricMoto) => 0x4104_2440_0000_0000,
        (MotoAxle::Rear, _) => 0x4100_7AC0_0000_0000,
    }
}

/// The refusal for a motorcycle configuration, if any, the first failing
/// check: dry mass within its class range, rider mass in [40, 130] kg,
/// front weight distribution in [35, 65] %, rake in [15, 40]°, ride
/// frequency target in [0.8, 4.0] Hz, damping ratio target in [0.1, 0.8].
/// Each bound is tested as the comparison `x < lo || x > hi`, except the
/// weight distribution, which must lie in the closed range.
pub open spec fn moto_error(m: MotoConfig) -> Option<InputError> {
    let (min, max) = dry_mass_bounds(m.moto_class);
    if float_lt(m.dry_mass_kg, min) || float_lt(max, m.dry_mass_kg) {
        Some(InputError::DryMassOutOfRange { min, max })
    } else if float_lt(m.rider_mass_kg, MOTO_RIDER_MIN_KG) || float_lt(
        MOTO_RIDER_MAX_KG,
        m.rider_mass_kg,
    ) {
        Some(InputError::MotoRiderMassOutOfRange)
    } else if !optional_within(m.front_weight_distribution_pct, PCT_35, PCT_65) {
        Some(InputError::FrontWeightDistributionOutOfRange)
    } else if m.rake_angle_deg matches Some(r) && (float_lt(r, RAKE_MIN_DEG) || float_lt(
        RAKE_MAX_DEG,
        r,
    )) {
        Some(InputError::MotoRakeAngleOutOfRange)
    } else if m.fn_target_hz matches Some(f) && (float_lt(f, MOTO_FN_MIN_HZ) || float_lt(
        MOTO_FN_MAX_HZ,
        f,
    )) {
        Some(InputError::MotoFnTargetOutOfRange)
    } else if m.zeta_target matches Some(z) && (float_lt(z, ZETA_MIN) || float_lt(ZETA_MAX, z)) {
        Some(InputError::ZetaTargetOutOfRange)
    } else {
        None
    }
}

/// Which derived characteristics of a motorcycle axle fall outside the
/// recommended ranges: ride frequency [1.2, 4.0] Hz, damping ratio
/// [0.15, 0.55], each tested as `x < lo || x > hi`.  The first component
/// is the ride frequency, the second the damping ratio.
pub fn moto_range_warnings(fn_sprung: u64, zeta: u64) -> (r: (bool, bool))
    ensures
        r.0 == outside_range(fn_sprung, 0x3FF3_3333_3333_3333, 0x4010_0000_0000_0000),
        r.1 == outside_range(zeta, 0x3FC3_3333_3333_3333, 0x3FE1_9999_9999_999A),
{
    (
        lt(fn_sprung, 0x3FF3_3333_3333_3333) || lt(0x4010_0000_0000_0000, fn_sprung),
        lt(zeta, 0x3FC3_3333_3333_3333) || lt(0x3FE1_9999_9999_999A, zeta),
    )
}

impl MotoConfig {
    /// Dry mass range [kg] of the class.
    pub fn dry_mass_range(&self) -> (r: (u64, u64))
        ensures
            r == dry_mass_bounds(self.moto_class),
    {
        match self.moto_class {
            MotoClass::Scooter => (0x4059_0000_0000_0000, 0x4064_0000_0000_0000),
            MotoClass::Commuter => (0x4061_8000_0000_0000, 0x4069_0000_0000_0000),
            MotoClass::Middleweight => (0x4066_8000_0000_0000, 0x406B_8000_0000_0000),
            MotoClass::Supersport => (0x4068_6000_0000_0000, 0x406A_4000_0000_0000),
            MotoClass::Heavyweight => (0x406B_8000_0000_0000, 0x4071_8000_0000_0000),
            MotoClass::Adventure => (0x4069_0000_0000_0000, 0x4070_4000_0000_0000),
            MotoClass::Offroad => (0x4059_0000_0000_0000, 0x4060_4000_0000_0000),
            MotoClass::ElectricMoto => (0x4069_0000_0000_0000, 0x4071_8000_0000_0000),
        }
    }

    /// Check the configuration against its ranges.
    pub fn validate(&self) -> (r: Result<(), InputError>)
        ensures
            r == verdict(moto_error(*self)),
    {
        let (min, max) = self.dry_mass_range();
        if lt(self.dry_mass_kg, min) || lt(max, self.dry_mass_kg) {
            return Err(InputError::DryMassOutOfRange { min, max });
        }
        if lt(self.rider_mass_kg, MOTO_RIDER_MIN_KG) || lt(MOTO_RIDER_MAX_KG, self.rider_mass_kg) {
            return Err(InputError::MotoRiderMassOutOfRange);
        }
        if let Some(p) = self.front_weight_distribution_pct {
            if !within(p, PCT_35, PCT_65) {
                return Err(InputError::FrontWeightDistributionOutOfRange);
            }
        }
        if let Some(r) = self.rake_angle_deg {
            if lt(r, RAKE_MIN_DEG) || lt(RAKE_MAX_DEG, r) {
                return Err(InputError::MotoRakeAngleOutOfRange);
            }
        }
        if let Some(f) = self.fn_target_hz {
            if lt(f, MOTO_FN_MIN_HZ) || lt(MOTO_FN_MAX_HZ, f) {
                return Err(InputError::MotoFnTargetOutOfRange);
            }
        }
        if let Some(z) = self.zeta_target {
            if lt(z, ZETA_MIN) || lt(ZETA_MAX, z) {
                return Err(InputError::ZetaTargetOutOfRange);
            }
        }
        Ok(())
    }

    /// Share of the total mass on this axle when no weight distribution is
    /// given.
    pub fn default_axle_load_fraction(&self) -> (r: u64)
        ensures
            r == default_axle_load_fraction_of(self.axle, self.moto_class),
    {
        let electric = match self.moto_class {
            MotoClass::ElectricMoto => true,
            _ => false,
        };
        match (self.axle, electric) {
            (MotoAxle::Front, false) => 0x3FDE_B851_EB85_1EB8,
            (MotoAxle::Rear, false) => 0x3FE0_A3D7_0A3D_70A4,
            (MotoAxle::Front, true) => 0x3FDC_28F5_C28F_5C29,
            (MotoAxle::Rear, true) => 0x3FE1_EB85_1EB8_51EC,
        }
    }

    /// Unsprung share of the axle mass.
    pub fn unsprung_fraction(&self) -> (r: u64)
        ensures
            r == moto_unsprung_fraction_of(self.susp_type),
    {
        match self.susp_type {
            MotoSuspType::UsdFork => 0x3FC5_C28F_5C28_F5C3,
            MotoSuspType::TelescopicFork => 0x3FCA_E147_AE14_7AE1,
            MotoSuspType::Telelever => 0x3FC1_EB85_1EB8_51EC,
            MotoSuspType::Monoshock => 0x3FC4_7AE1_47AE_147B,
            MotoSuspType::DualShock => 0x3FC7_0A3D_70A3_D70A,
            MotoSuspType::Paralever => 0x3FC3_3333_3333_3333,
        }
    }

    /// Default rake [degrees] of the class.
    pub fn default_rake_deg(&self) -> (r: u64)
        ensures
            r == default_rake_deg_of(self.moto_class),
    {
        match self.moto_class {
            MotoClass::Scooter => 0x403B_0000_0000_0000,
            MotoClass::Commuter => 0x403A_0000_0000_0000,
            MotoClass::Middleweight => 0x4039_0000_0000_0000,
            MotoClass::Supersport => 0x4037_0000_0000_0000,
            MotoClass::Heavyweight => 0x403A_0000_0000_0000,
            MotoClass::Adventure => 0x403B_8000_0000_0000,
            MotoClass::Offroad => 0x403C_0000_0000_0000,
            MotoClass::ElectricMoto => 0x4039_0000_0000_0000,
        }
    }

    /// Default ride natural frequency [Hz].
    pub fn default_fn_hz(&self) -> (r: u64)
        ensures
            r == moto_default_fn_hz_of(self.axle, self.moto_class),
    {
        match (self.axle, self.moto_class) {
            (MotoAxle::Front, MotoClass::Offroad) => 0x4008_0000_0000_0000,
            (MotoAxle::Front, MotoClass::Adventure) => 0x4001_9999_9999_999A,
            (MotoAxle::Front, MotoClass::Supersport) => 0x4004_0000_0000_0000,
            (MotoAxle::Front, MotoClass::ElectricMoto) => 0x4000_0000_0000_0000,
            (MotoAxle::Front, _) => 0x4001_9999_9999_999A,
            (MotoAxle::Rear, MotoClass::Offroad) => 0x4006_6666_6666_6666,
            (MotoAxle::Rear, MotoClass::Adventure) => 0x4000_0000_0000_0000,
            (MotoAxle::Rear, MotoClass::Supersport) => 0x4006_6666_6666_6666,
            (MotoAxle::Rear, MotoClass::ElectricMoto) => 0x3FFE_6666_6666_6666,
            (MotoAxle::Rear, _) => 0x4001_9999_9999_999A,
        }
    }

    /// Default damping ratio.
    pub fn default_zeta(&self) -> (r: u64)
        ensures
            r == moto_default_zeta_of(self.moto_class, self.axle),
    {
        match (self.moto_class, self.axle) {
            (MotoClass::Offroad, _) => 0x3FD0_0000_0000_0000,
            (MotoClass::Supersport, MotoAxle::Rear) => 0x3FD8_51EB_851E_B852,
            (MotoClass::Supersport, _) => 0x3FD6_6666_6666_6666,
            (MotoClass::Adventure, _) => 0x3FD1_EB85_1EB8_51EC,
            (MotoClass::ElectricMoto, _) => 0x3FD1_EB85_1EB8_51EC,
            _ => 0x3FD3_3333_3333_3333,
        }
    }

    /// Tyre radial stiffness [N/m].
    pub fn tyre_stiffness(&self) -> (r: u64)
        ensures
            r == moto_tyre_stiffness_of(self.axle, self.moto_class),
    {
        match (self.axle, self.moto_class) {
            (MotoAxle::Front, MotoClass::Scooter) => 0x40F5_F900_0000_0000,
            (MotoAxle::Front, MotoClass::Offroad) => 0x40F1_1700_0000_0000,
            (MotoAxle::Front, MotoClass::Supersport) => 0x4101_1700_0000_0000,
            (MotoAxle::Front, MotoClass::Adventure) => 0x40FA_DB00_0000_0000,
            (MotoAxle::Front, MotoClass::ElectricMoto) => 0x4101_B340_0000_0000,
            (MotoAxle::Front, _) => 0x40FD_4C00_0000_0000,
            (MotoAxle::Rear, MotoClass::Scooter) => 0x40F8_6A00_0000_0000,
            (MotoAxle::Rear, MotoClass::Offroad) => 0x40F2_4F80_0000_0000,
            (MotoAxle::Rear, MotoClass::Supersport) => 0x4103_8800_0000_0000,
            (MotoAxle::Rear, MotoClass::Adventure) => 0x40FE_8480_0000_0000,
            (MotoAxle::Rear, MotoClass::ElectricMoto) => 0x4104_2440_0000_0000,
            (MotoAxle::Rear, _) => 0x4100_7AC0_0000_0000,
        }
    }

    /// Rake [degrees], ride frequency [Hz] and damping ratio the derivation
    /// uses: the values given, else the defaults.
    pub fn ride_targets(&self) -> (r: (u64, u64, u64))
        ensures
            r.0 == (match self.rake_angle_deg {
                Some(v) => v,
                None => default_rake_deg_of(self.moto_class),
            }),
            r.1 == (match self.fn_target_hz {
                Some(v) => v,
                None => moto_default_fn_hz_of(self.axle, self.moto_class),
            }),
            r.2 == (match self.zeta_target {
                Some(v) => v,
                None => moto_default_zeta_of(self.moto_class, self.axle),
            }),
    {
        let rake = match self.rake_angle_deg {
            Some(v) => v,
            None => self.default_rake_deg(),
        };
        let f = match self.fn_target_hz {
            Some(v) => v,
            None => self.default_fn_hz(),
        };
        let z = match self.zeta_target {
            Some(v) => v,
            None => self.default_zeta(),
        };
        (rake, f, z)
    }
}

// ---------------------------------------------------------------------------
// Laws
// ---------------------------------------------------------------------------

/// The documented dry mass range [kg] of each class, each non-empty.
pub proof fn lemma_dry_mass_ranges(c: MotoClass)
    ensures
        float_lt(dry_mass_bounds(c).0, dry_mass_bounds(c).1),
        c == MotoClass::Scooter ==> dry_mass_bounds(c) == (0x4059_0000_0000_0000u64, 0x4064_0000_0000_0000u64),  // 100, 160
        c == MotoClass::Commuter ==> dry_mass_bounds(c) == (0x4061_8000_0000_0000u64, 0x4069_0000_0000_0000u64),  // 140, 200
        c == MotoClass::Middleweight ==> dry_mass_bounds(c) == (0x4066_8000_0000_0000u64, 0x406B_8000_0000_0000u64),  // 180, 220
        c == MotoClass::Supersport ==> dry_mass_bounds(c) == (0x4068_6000_0000_0000u64, 0x406A_4000_0000_0000u64),  // 195, 210
        c == MotoClass::Heavyweight ==> dry_mass_bounds(c) == (0x406B_8000_0000_0000u64, 0x4071_8000_0000_0000u64),  // 220, 280
        c == MotoClass::Adventure ==> dry_mass_bounds(c) == (0x4069_0000_0000_0000u64, 0x4070_4000_0000_0000u64),  // 200, 260
        c == MotoClass::Offroad ==> dry_mass_bounds(c) == (0x4059_0000_0000_0000u64, 0x4060_4000_0000_0000u64),  // 100, 130
        c == MotoClass::ElectricMoto ==> dry_mass_bounds(c) == (0x4069_0000_0000_0000u64, 0x4071_8000_0000_0000u64),  // 200, 280
{
}

/// A dry mass below or above the class range is refused with that range,
/// before anything else is checked.  An accepted configuration has its dry
/// mass in the class range, its rider mass in 40–130 kg, its front weight
/// distribution in 35–65 %, its rake in 15–40°, its ride frequency target
/// in 0.8–4.0 Hz and its damping ratio target in 0.1–0.8 (NaN values
/// aside, except for the weight distribution, which a NaN fails); and a
/// configuration with every value in range is accepted.
pub proof fn lemma_moto_validation(m: MotoConfig)
    ensures
        float_lt(m.dry_mass_kg, dry_mass_bounds(m.moto_class).0) ==> moto_error(m) == Some(
            InputError::DryMassOutOfRange {
                min: dry_mass_bounds(m.moto_class).0,
                max: dry_mass_bounds(m.moto_class).1,
            },
        ),
        float_lt(dry_mass_bounds(m.moto_class).1, m.dry_mass_kg) ==> moto_error(m) == Some(
            InputError::DryMassOutOfRange {
                min: dry_mass_bounds(m.moto_class).0,
                max: dry_mass_bounds(m.moto_class).1,
            },
        ),
        moto_error(m) is None && !is_nan(m.dry_mass_kg) ==> float_le(
            dry_mass_bounds(m.moto_class).0,
            m.dry_mass_kg,
        ) && float_le(m.dry_mass_kg, dry_mass_bounds(m.moto_class).1),
        moto_error(m) is None && !is_nan(m.rider_mass_kg) ==> float_le(
            MOTO_RIDER_MIN_KG,
            m.rider_mass_kg,
        ) && float_le(m.rider_mass_kg, MOTO_RIDER_MAX_KG),
        moto_error(m) is None ==> (m.front_weight_distribution_pct matches Some(p) ==> float_le(
            PCT_35,
            p,
        ) && float_le(p, PCT_65)),
        moto_error(m) is None ==> (m.rake_angle_deg matches Some(r) ==> (!is_nan(r) ==> float_le(
            RAKE_MIN_DEG,
            r,
        ) && float_le(r, RAKE_MAX_DEG))),
        moto_error(m) is None ==> (m.fn_target_hz matches Some(f) ==> (!is_nan(f) ==> float_le(
            MOTO_FN_MIN_HZ,
            f,
        ) && float_le(f, MOTO_FN_MAX_HZ))),
        moto_error(m) is None ==> (m.zeta_target matches Some(z) ==> (!is_nan(z) ==> float_le(
            ZETA_MIN,
            z,
        ) && float_le(z, ZETA_MAX))),
        float_le(dry_mass_bounds(m.moto_class).0, m.dry_mass_kg) && float_le(
            m.dry_mass_kg,
            dry_mass_bounds(m.moto_class).1,
        ) && float_le(MOTO_RIDER_MIN_KG, m.rider_mass_kg) && float_le(
            m.rider_mass_kg,
            MOTO_RIDER_MAX_KG,
        ) && (m.front_weight_distribution_pct matches Some(p) ==> float_le(PCT_35, p) && float_le(
            p,
            PCT_65,
        )) && (m.rake_angle_deg matches Some(r) ==> float_le(RAKE_MIN_DEG, r) && float_le(
            r,
            RAKE_MAX_DEG,
        )) && (m.fn_target_hz matches Some(f) ==> float_le(MOTO_FN_MIN_HZ, f) && float_le(
            f,
            MOTO_FN_MAX_HZ,
        )) && (m.zeta_target matches Some(z) ==> float_le(ZETA_MIN, z) && float_le(z, ZETA_MAX))
            ==> moto_error(m) is None,
{
}

/// Default axle shares: 48 % front and 52 % rear, shifted rearward to
/// 44 % / 56 % for electric motorcycles; the two axles of a class add up
/// to the whole.
pub proof fn lemma_default_axle_loads(c: MotoClass)
    ensures
        c != MotoClass::ElectricMoto ==> default_axle_load_fraction_of(MotoAxle::Front, c)
            == 0x3FDE_B851_EB85_1EB8u64 && default_axle_load_fraction_of(MotoAxle::Rear, c) == 0x3FE0_A3D7_0A3D_70A4u64,
        c == MotoClass::ElectricMoto ==> default_axle_load_fraction_of(MotoAxle::Front, c)
            == 0x3FDC_28F5_C28F_5C29u64 && default_axle_load_fraction_of(MotoAxle::Rear, c) == 0x3FE1_EB85_1EB8_51ECu64,
        float_lt(
            default_axle_load_fraction_of(MotoAxle::Front, MotoClass::ElectricMoto),
            default_axle_load_fraction_of(MotoAxle::Front, MotoClass::Commuter),
        ),
{
}

/// Unsprung fractions: Telelever 0.14 < Paralever 0.15 < monoshock 0.16 <
/// USD fork 0.17 < dual shock 0.18 < telescopic fork 0.21.
pub proof fn lemma_moto_unsprung_fractions()
    ensures
        moto_unsprung_fraction_of(MotoSuspType::Telelever) == 0x3FC1_EB85_1EB8_51ECu64,
        moto_unsprung_fraction_of(MotoSuspType::Paralever) == 0x3FC3_3333_3333_3333u64,
        moto_unsprung_fraction_of(MotoSuspType::Monoshock) == 0x3FC4_7AE1_47AE_147Bu64,
        moto_unsprung_fraction_of(MotoSuspType::UsdFork) == 0x3FC5_C28F_5C28_F5C3u64,
        moto_unsprung_fraction_of(MotoSuspType::DualShock) == 0x3FC7_0A3D_70A3_D70Au64,
        moto_unsprung_fraction_of(MotoSuspType::TelescopicFork) == 0x3FCA_E147_AE14_7AE1u64,
        float_lt(moto_unsprung_fraction_of(MotoSuspType::UsdFork), moto_unsprung_fraction_of(MotoSuspType::TelescopicFork)),
{
}

/// The documented default rake of each class [degrees].
pub proof fn lemma_default_rakes(c: MotoClass)
    ensures
        c == MotoClass::Scooter ==> default_rake_deg_of(c) == 0x403B_0000_0000_0000u64,  // 27.0
        c == MotoClass::Commuter ==> default_rake_deg_of(c) == 0x403A_0000_0000_0000u64,  // 26.0
        c == MotoClass::Middleweight ==> default_rake_deg_of(c) == 0x4039_0000_0000_0000u64,  // 25.0
        c == MotoClass::Supersport ==> default_rake_deg_of(c) == 0x4037_0000_0000_0000u64,  // 23.0
        c == MotoClass::Heavyweight ==> default_rake_deg_of(c) == 0x403A_0000_0000_0000u64,  // 26.0
        c == MotoClass::Adventure ==> default_rake_deg_of(c) == 0x403B_8000_0000_0000u64,  // 27.5
        c == MotoClass::Offroad ==> default_rake_deg_of(c) == 0x403C_0000_0000_0000u64,  // 28.0
        c == MotoClass::ElectricMoto ==> default_rake_deg_of(c) == 0x4039_0000_0000_0000u64,  // 25.0
{
}

/// Default ride frequencies [Hz] per axle and class.
pub proof fn lemma_moto_default_fn(c: MotoClass)
    ensures
        c == MotoClass::Scooter ==> moto_default_fn_hz_of(MotoAxle::Front, c) == 0x4001_9999_9999_999Au64,  // 2.2
        c == MotoClass::Commuter ==> moto_default_fn_hz_of(MotoAxle::Front, c) == 0x4001_9999_9999_999Au64,  // 2.2
        c == MotoClass::Middleweight ==> moto_default_fn_hz_of(MotoAxle::Front, c) == 0x4001_9999_9999_999Au64,  // 2.2
        c == MotoClass::Supersport ==> moto_default_fn_hz_of(MotoAxle::Front, c) == 0x4004_0000_0000_0000u64,  // 2.5
        c == MotoClass::Heavyweight ==> moto_default_fn_hz_of(MotoAxle::Front, c) == 0x4001_9999_9999_999Au64,  // 2.2
        c == MotoClass::Adventure ==> moto_default_fn_hz_of(MotoAxle::Front, c) == 0x4001_9999_9999_999Au64,  // 2.2
        c == MotoClass::Offroad ==> moto_default_fn_hz_of(MotoAxle::Front, c) == 0x4008_0000_0000_0000u64,  // 3.0
        c == MotoClass::ElectricMoto ==> moto_default_fn_hz_of(MotoAxle::Front, c) == 0x4000_0000_0000_0000u64,  // 2.0
        c == MotoClass::Scooter ==> moto_default_fn_hz_of(MotoAxle::Rear, c) == 0x4001_9999_9999_999Au64,  // 2.2
        c == MotoClass::Commuter ==> moto_default_fn_hz_of(MotoAxle::Rear, c) == 0x4001_9999_9999_999Au64,  // 2.2
        c == MotoClass::Middleweight ==> moto_default_fn_hz_of(MotoAxle::Rear, c) == 0x4001_9999_9999_999Au64,  // 2.2
        c == MotoClass::Supersport ==> moto_default_fn_hz_of(MotoAxle::Rear, c) == 0x4006_6666_6666_6666u64,  // 2.8
        c == MotoClass::Heavyweight ==> moto_default_fn_hz_of(MotoAxle::Rear, c) == 0x4001_9999_9999_999Au64,  // 2.2
        c == MotoClass::Adventure ==> moto_default_fn_hz_of(MotoAxle::Rear, c) == 0x4000_0000_0000_0000u64,  // 2.0
        c == MotoClass::Offroad ==> moto_default_fn_hz_of(MotoAxle::Rear, c) == 0x4006_6666_6666_6666u64,  // 2.8
        c == MotoClass::ElectricMoto ==> moto_default_fn_hz_of(MotoAxle::Rear, c) == 0x3FFE_6666_6666_6666u64,  // 1.9
{
}

/// Default damping ratios: off-road 0.25 on both axles, supersport 0.35
/// front and a firmer 0.38 rear, adventure and electric 0.28, others 0.30,
/// the same on both axles except for supersports.
pub proof fn lemma_moto_default_damping(c: MotoClass, a: MotoAxle)
    ensures
        c == MotoClass::Offroad ==> moto_default_zeta_of(c, a) == 0x3FD0_0000_0000_0000u64,
        c == MotoClass::Supersport && a == MotoAxle::Front ==> moto_default_zeta_of(c, a) == 0x3FD6_6666_6666_6666u64,
        c == MotoClass::Supersport && a == MotoAxle::Rear ==> moto_default_zeta_of(c, a) == 0x3FD8_51EB_851E_B852u64,
        c == MotoClass::Adventure || c == MotoClass::ElectricMoto ==> moto_default_zeta_of(c, a) == 0x3FD1_EB85_1EB8_51ECu64,
        c == MotoClass::Scooter || c == MotoClass::Commuter || c == MotoClass::Middleweight || c
            == MotoClass::Heavyweight ==> moto_default_zeta_of(c, a) == 0x3FD3_3333_3333_3333u64,
        c != MotoClass::Supersport ==> moto_default_zeta_of(c, MotoAxle::Front) == moto_default_zeta_of(c, MotoAxle::Rear),
{
}

/// Tyre stiffness [N/m] per axle and class; the rear tyre is stiffer than
/// the front one in every class.
pub proof fn lemma_moto_tyre_stiffness(c: MotoClass)
    ensures
        float_lt(moto_tyre_stiffness_of(MotoAxle::Front, c), moto_tyre_stiffness_of(MotoAxle::Rear, c)),
        c == MotoClass::Scooter ==> moto_tyre_stiffness_of(MotoAxle::Front, c) == 0x40F5_F900_0000_0000u64,  // 90000
        c == MotoClass::Commuter ==> moto_tyre_stiffness_of(MotoAxle::Front, c) == 0x40FD_4C00_0000_0000u64,  // 120000
        c == MotoClass::Middleweight ==> moto_tyre_stiffness_of(MotoAxle::Front, c) == 0x40FD_4C00_0000_0000u64,  // 120000
        c == MotoClass::Supersport ==> moto_tyre_stiffness_of(MotoAxle::Front, c) == 0x4101_1700_0000_0000u64,  // 140000
        c == MotoClass::Heavyweight ==> moto_tyre_stiffness_of(MotoAxle::Front, c) == 0x40FD_4C00_0000_0000u64,  // 120000
        c == MotoClass::Adventure ==> moto_tyre_stiffness_of(MotoAxle::Front, c) == 0x40FA_DB00_0000_0000u64,  // 110000
        c == MotoClass::Offroad ==> moto_tyre_stiffness_of(MotoAxle::Front, c) == 0x40F1_1700_0000_0000u64,  // 70000
        c == MotoClass::ElectricMoto ==> moto_tyre_stiffness_of(MotoAxle::Front, c) == 0x4101_B340_0000_0000u64,  // 145000
        c == MotoClass::Scooter ==> moto_tyre_stiffness_of(MotoAxle::Rear, c) == 0x40F8_6A00_0000_0000u64,  // 100000
        c == MotoClass::Commuter ==> moto_tyre_stiffness_of(MotoAxle::Rear, c) == 0x4100_7AC0_0000_0000u64,  // 135000
        c == MotoClass::Middleweight ==> moto_tyre_stiffness_of(MotoAxle::Rear, c) == 0x4100_7AC0_0000_0000u64,  // 135000
        c == MotoClass::Supersport ==> moto_tyre_stiffness_of(MotoAxle::Rear, c) == 0x4103_8800_0000_0000u64,  // 160000
        c == MotoClass::Heavyweight ==> moto_tyre_stiffness_of(MotoAxle::Rear, c) == 0x4100_7AC0_0000_0000u64,  // 135000
        c == MotoClass::Adventure ==> moto_tyre_stiffness_of(MotoAxle::Rear, c) == 0x40FE_8480_0000_0000u64,  // 125000
        c == MotoClass::Offroad ==> moto_tyre_stiffness_of(MotoAxle::Rear, c) == 0x40F2_4F80_0000_0000u64,  // 75000
        c == MotoClass::ElectricMoto ==> moto_tyre_stiffness_of(MotoAxle::Rear, c) == 0x4104_2440_0000_0000u64,  // 165000
{
}

/// A derived characteristic of a motorcycle axle is flagged exactly when
/// it is outside its range — ride frequency 1.2–4.0 Hz, damping ratio
/// 0.15–0.55 — a NaN being flagged by no comparison.
pub proof fn lemma_moto_warnings(x: u64)
    ensures
        outside_range(x, 0x3FF3_3333_3333_3333u64, 0x4010_0000_0000_0000u64) <==> !is_nan(x) && !(float_le(0x3FF3_3333_3333_3333u64, x) && float_le(x, 0x4010_0000_0000_0000u64)),
        outside_range(x, 0x3FC3_3333_3333_3333u64, 0x3FE1_9999_9999_999Au64) <==> !is_nan(x) && !(float_le(0x3FC3_3333_3333_3333u64, x) && float_le(x, 0x3FE1_9999_9999_999Au64)),
{
}

} // verus!
