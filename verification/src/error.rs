//! The reasons a request is refused, each with the message the API answers.

use vstd::prelude::*;

verus! {

/// One of the five quarter-car parameters.
#[derive(Clone, Copy, Debug, PartialEq, Eq, Structural)]
pub enum QuarterParam {
    /// Sprung mass `ms`.
    Ms,
    /// Unsprung mass `mu`.
    Mu,
    /// Spring rate `k`.
    K,
    /// Damping coefficient `c`.
    C,
    /// Tyre stiffness `kt`.
    Kt,
}

/// Why a request was refused.  Bounds carried by a variant are binary64 bit
/// patterns.
#[derive(Clone, Copy, Debug, PartialEq, Eq, Structural)]
pub enum InputError {
    BikeSprungMassNotPositive,
    BikeUnsprungMassNotPositive,
    BikeSpringRateNotPositive,
    BikeDampingNegative,
    BikeUnsprungNotLighter,
    FrontWeightDistributionOutOfRange,
    BikeRiderMassOutOfRange,
    FrontTyreStiffnessNotPositive,
    RearTyreStiffnessNotPositive,
    BikeNaturalFrequencyOutOfRange,
    BikeEquivalentInvalid,
    BikeEquivalentUnstable,
    HeightOutOfRange,
    AmplitudeNotPositive,
    FrequencyNotPositive,
    RoughnessNotPositive,
    SpeedNotPositive,
    /// A quarter-car parameter is absent and no bike model was given.
    MissingParameter(QuarterParam),
    /// `ms`, `mu`, `k` or `kt` is not positive.
    ParameterNotPositive(QuarterParam),
    DampingNegative,
    UnsprungNotLighter,
    RakeAngleOutOfRange,
    FnTargetOutOfRange,
    ZetaTargetOutOfRange,
    FrontTravelNotPositive,
    RearTravelNotPositive,
    PreloadNegative,
    FrequencyRangeEmpty,
    SpringRangeNotPositive,
    SpringRangeNotIncreasing,
    DampingRangeNegative,
    DampingRangeNotIncreasing,
    /// Gross vehicle mass outside `[min, max]` of its class.
    GrossVehicleMassOutOfRange { min: u64, max: u64 },
    VehicleFnTargetOutOfRange,
    /// Motorcycle dry mass outside `[min, max]` of its class.
    DryMassOutOfRange { min: u64, max: u64 },
    MotoRiderMassOutOfRange,
    MotoRakeAngleOutOfRange,
    MotoFnTargetOutOfRange,
}

/// The message answered for each refusal.  The two mass ranges are answered
/// with their bounds and class appended by the caller.
pub open spec fn message_text(e: InputError) -> Seq<char> {
    match e {
        InputError::BikeSprungMassNotPositive => "bike sprung masses must be positive"@,
        InputError::BikeUnsprungMassNotPositive => "bike unsprung masses must be positive"@,
        InputError::BikeSpringRateNotPositive => "bike spring rates must be positive"@,
        InputError::BikeDampingNegative => "bike damping values must be non-negative"@,
        InputError::BikeUnsprungNotLighter => "bike unsprung mass must be less than sprung mass on each axle"@,
        InputError::FrontWeightDistributionOutOfRange => "front_weight_distribution_pct must be between 35 and 65"@,
        InputError::BikeRiderMassOutOfRange => "rider_mass_kg must be between 40 and 140"@,
        InputError::FrontTyreStiffnessNotPositive => "kt_front must be positive"@,
        InputError::RearTyreStiffnessNotPositive => "kt_rear must be positive"@,
        InputError::BikeNaturalFrequencyOutOfRange => "bike ride natural frequencies must be in a realistic range (0.8–3.5 Hz)"@,
        InputError::BikeEquivalentInvalid => "resolved bike equivalent parameters are invalid"@,
        InputError::BikeEquivalentUnstable => "resolved bike model is unstable: equivalent unsprung mass must be less than sprung mass"@,
        InputError::HeightOutOfRange => "height must be between 0 and 1 m"@,
        InputError::AmplitudeNotPositive => "amplitude must be positive"@,
        InputError::FrequencyNotPositive => "freq_hz must be positive"@,
        InputError::RoughnessNotPositive => "roughness_coefficient must be positive"@,
        InputError::SpeedNotPositive => "vehicle_speed_mps must be positive"@,
        InputError::MissingParameter(p) => match p {
            QuarterParam::Ms => "ms is required unless bike model is provided"@,
            QuarterParam::Mu => "mu is required unless bike model is provided"@,
            QuarterParam::K => "k is required unless bike model is provided"@,
            QuarterParam::C => "c is required unless bike model is provided"@,
            QuarterParam::Kt => "kt is required unless bike model is provided"@,
        },
        InputError::ParameterNotPositive(p) => match p {
            QuarterParam::Ms => "ms must be positive"@,
            QuarterParam::Mu => "mu must be positive"@,
            QuarterParam::K => "k must be positive"@,
            QuarterParam::C => "c must be positive"@,
            QuarterParam::Kt => "kt must be positive"@,
        },
        InputError::DampingNegative => "c must be non-negative"@,
        InputError::UnsprungNotLighter => "unsprung mass must be less than sprung mass"@,
        InputError::RakeAngleOutOfRange => "rake_angle_deg must be between 15 and 40"@,
        InputError::FnTargetOutOfRange => "fn_target_hz must be between 0.5 and 4.0"@,
        InputError::ZetaTargetOutOfRange => "zeta_target must be between 0.1 and 0.8"@,
        InputError::FrontTravelNotPositive => "front_travel_mm must be positive"@,
        InputError::RearTravelNotPositive => "rear_travel_mm must be positive"@,
        InputError::PreloadNegative => "preload_mm must be non-negative"@,
        InputError::FrequencyRangeEmpty => "f_min must be less than f_max"@,
        InputError::SpringRangeNotPositive => "k_range values must be positive"@,
        InputError::SpringRangeNotIncreasing => "k_range[0] must be less than k_range[1]"@,
        InputError::DampingRangeNegative => "c_range values must be non-negative"@,
        InputError::DampingRangeNotIncreasing => "c_range[0] must be less than c_range[1]"@,
        InputError::GrossVehicleMassOutOfRange { .. } => "gross_vehicle_mass out of SAE J2168 range"@,
        InputError::VehicleFnTargetOutOfRange => "fn_target_hz must be between 0.5 and 3.0 Hz"@,
        InputError::DryMassOutOfRange { .. } => "dry_mass_kg out of SAE J1299 range"@,
        InputError::MotoRiderMassOutOfRange => "rider_mass_kg must be between 40 and 130 kg"@,
        InputError::MotoRakeAngleOutOfRange => "rake_angle_deg must be between 15° and 40°"@,
        InputError::MotoFnTargetOutOfRange => "fn_target_hz must be between 0.8 and 4.0 Hz"@,
    }
}

/// `Ok(())` when no refusal applies, else `Err` of the refusal.
pub open spec fn verdict(e: Option<InputError>) -> Result<(), InputError> {
    match e {
        Some(err) => Err(err),
        None => Ok(()),
    }
}

impl InputError {
    /// The message answered for this refusal.
    pub fn message(&self) -> (r: &'static str)
        ensures
            r@ == message_text(*self),
    {
        match self {
            InputError::BikeSprungMassNotPositive => "bike sprung masses must be positive",
            InputError::BikeUnsprungMassNotPositive => "bike unsprung masses must be positive",
            InputError::BikeSpringRateNotPositive => "bike spring rates must be positive",
            InputError::BikeDampingNegative => "bike damping values must be non-negative",
            InputError::BikeUnsprungNotLighter => "bike unsprung mass must be less than sprung mass on each axle",
            InputError::FrontWeightDistributionOutOfRange => "front_weight_distribution_pct must be between 35 and 65",
            InputError::BikeRiderMassOutOfRange => "rider_mass_kg must be between 40 and 140",
            InputError::FrontTyreStiffnessNotPositive => "kt_front must be positive",
            InputError::RearTyreStiffnessNotPositive => "kt_rear must be positive",
            InputError::BikeNaturalFrequencyOutOfRange => "bike ride natural frequencies must be in a realistic range (0.8–3.5 Hz)",
            InputError::BikeEquivalentInvalid => "resolved bike equivalent parameters are invalid",
            InputError::BikeEquivalentUnstable => "resolved bike model is unstable: equivalent unsprung mass must be less than sprung mass",
            InputError::HeightOutOfRange => "height must be between 0 and 1 m",
            InputError::AmplitudeNotPositive => "amplitude must be positive",
            InputError::FrequencyNotPositive => "freq_hz must be positive",
            InputError::RoughnessNotPositive => "roughness_coefficient must be positive",
            InputError::SpeedNotPositive => "vehicle_speed_mps must be positive",
            InputError::MissingParameter(p) => match p {
                QuarterParam::Ms => "ms is required unless bike model is provided",
                QuarterParam::Mu => "mu is required unless bike model is provided",
                QuarterParam::K => "k is required unless bike model is provided",
                QuarterParam::C => "c is required unless bike model is provided",
                QuarterParam::Kt => "kt is required unless bike model is provided",
            },
            InputError::ParameterNotPositive(p) => match p {
                QuarterParam::Ms => "ms must be positive",
                QuarterParam::Mu => "mu must be positive",
                QuarterParam::K => "k must be positive",
                QuarterParam::C => "c must be positive",
                QuarterParam::Kt => "kt must be positive",
            },
            InputError::DampingNegative => "c must be non-negative",
            InputError::UnsprungNotLighter => "unsprung mass must be less than sprung mass",
            InputError::RakeAngleOutOfRange => "rake_angle_deg must be between 15 and 40",
            InputError::FnTargetOutOfRange => "fn_target_hz must be between 0.5 and 4.0",
            InputError::ZetaTargetOutOfRange => "zeta_target must be between 0.1 and 0.8",
            InputError::FrontTravelNotPositive => "front_travel_mm must be positive",
            InputError::RearTravelNotPositive => "rear_travel_mm must be positive",
            InputError::PreloadNegative => "preload_mm must be non-negative",
            InputError::FrequencyRangeEmpty => "f_min must be less than f_max",
            InputError::SpringRangeNotPositive => "k_range values must be positive",
            InputError::SpringRangeNotIncreasing => "k_range[0] must be less than k_range[1]",
            InputError::DampingRangeNegative => "c_range values must be non-negative",
            InputError::DampingRangeNotIncreasing => "c_range[0] must be less than c_range[1]",
            InputError::GrossVehicleMassOutOfRange { .. } => "gross_vehicle_mass out of SAE J2168 range",
            InputError::VehicleFnTargetOutOfRange => "fn_target_hz must be between 0.5 and 3.0 Hz",
            InputError::DryMassOutOfRange { .. } => "dry_mass_kg out of SAE J1299 range",
            InputError::MotoRiderMassOutOfRange => "rider_mass_kg must be between 40 and 130 kg",
            InputError::MotoRakeAngleOutOfRange => "rake_angle_deg must be between 15° and 40°",
            InputError::MotoFnTargetOutOfRange => "fn_target_hz must be between 0.8 and 4.0 Hz",
        }
    }
}

} // verus!
