//! Two-axle motorcycle model given front and rear, reduced to one
//! equivalent quarter-car.

use vstd::prelude::*;
use crate::error::{verdict, InputError};
use crate::ieee::{float_le, float_lt, is_nan, le, lt, within, ZERO};
use crate::params::{stable, ResolvedQuarterParams};

verus! {

/// `35.0`
pub const PCT_35: u64 = 0x4041_8000_0000_0000;
/// `65.0`
pub const PCT_65: u64 = 0x4050_4000_0000_0000;
/// `50.0`, the front weight distribution [%] assumed when none is given.
pub const PCT_50: u64 = 0x4049_0000_0000_0000;
/// `40.0`
pub const RIDER_MIN_KG: u64 = 0x4044_0000_0000_0000;
/// `140.0`
pub const RIDER_MAX_KG: u64 = 0x4061_8000_0000_0000;
/// `75.0`, the rider mass [kg] reported when none is given.
pub const DEFAULT_RIDER_KG: u64 = 0x4052_C000_0000_0000;
/// `0.8`
pub const BIKE_FN_MIN_HZ: u64 = 0x3FE9_9999_9999_999A;
/// `3.5`
pub const BIKE_FN_MAX_HZ: u64 = 0x400C_0000_0000_0000;
/// `130000.0`, the tyre stiffness [N/m] used when neither the axle nor the
/// request gives one.
pub const DEFAULT_BIKE_KT: u64 = 0x40FF_BD00_0000_0000;

/// Front and rear parameters of a motorcycle, as binary64 bit patterns.
#[derive(Clone, Copy, Debug)]
pub struct BikeModelInput {
    pub ms_front: u64,
    pub ms_rear: u64,
    pub mu_front: u64,
    pub mu_rear: u64,
    pub k_front: u64,
    pub k_rear: u64,
    pub c_front: u64,
    pub c_rear: u64,
    pub kt_front: Option<u64>,
    pub kt_rear: Option<u64>,
    pub front_weight_distribution_pct: Option<u64>,
    pub rider_mass_kg: Option<u64>,
}

/// The two-axle parameters a motorcycle resolved to, with the equivalent
/// quarter-car.
#[derive(Clone, Copy, Debug)]
pub struct BikeResolvedSummary {
    pub ms_front: u64,
    pub ms_rear: u64,
    pub mu_front: u64,
    pub mu_rear: u64,
    pub k_front: u64,
    pub k_rear: u64,
    pub c_front: u64,
    pub c_rear: u64,
    pub kt_front: u64,
    pub kt_rear: u64,
    pub front_weight_distribution_pct: u64,
    pub rider_mass_kg: u64,
    pub equivalent: ResolvedQuarterParams,
}

/// `Some(x)` lies in `[lo, hi]`; `None` passes.
pub open spec fn optional_within(x: Option<u64>, lo: u64, hi: u64) -> bool {
    match x {
        Some(v) => float_le(lo, v) && float_le(v, hi),
        None => true,
    }
}

/// The front weight distribution that is checked: the given one, else 50 %.
pub open spec fn checked_front_pct(b: BikeModelInput) -> u64 {
    match b.front_weight_distribution_pct {
        Some(p) => p,
        None => PCT_50,
    }
}

/// The refusal for a motorcycle model, if any, the first failing check.
/// `fn_front` and `fn_rear` are the ride natural frequencies of the axles.
pub open spec fn bike_model_error(b: BikeModelInput, fn_front: u64, fn_rear: u64) -> Option<
    InputError,
> {
    if float_le(b.ms_front, ZERO) || float_le(b.ms_rear, ZERO) {
        Some(InputError::BikeSprungMassNotPositive)
    } else if float_le(b.mu_front, ZERO) || float_le(b.mu_rear, ZERO) {
        Some(InputError::BikeUnsprungMassNotPositive)
    } else if float_le(b.k_front, ZERO) || float_le(b.k_rear, ZERO) {
        Some(InputError::BikeSpringRateNotPositive)
    } else if float_lt(b.c_front, ZERO) || float_lt(b.c_rear, ZERO) {
        Some(InputError::BikeDampingNegative)
    } else if float_le(b.ms_front, b.mu_front) || float_le(b.ms_rear, b.mu_rear) {
        Some(InputError::BikeUnsprungNotLighter)
    } else if !optional_within(Some(checked_front_pct(b)), PCT_35, PCT_65) {
        Some(InputError::FrontWeightDistributionOutOfRange)
    } else if !optional_within(b.rider_mass_kg, RIDER_MIN_KG, RIDER_MAX_KG) {
        Some(InputError::BikeRiderMassOutOfRange)
    } else if b.kt_front matches Some(v) && float_le(v, ZERO) {
        Some(InputError::FrontTyreStiffnessNotPositive)
    } else if b.kt_rear matches Some(v) && float_le(v, ZERO) {
        Some(InputError::RearTyreStiffnessNotPositive)
    } else if !optional_within(Some(fn_front), BIKE_FN_MIN_HZ, BIKE_FN_MAX_HZ)
        || !optional_within(Some(fn_rear), BIKE_FN_MIN_HZ, BIKE_FN_MAX_HZ) {
        Some(InputError::BikeNaturalFrequencyOutOfRange)
    } else {
        None
    }
}

/// Check a motorcycle model: positive masses and spring rates,
/// non-negative damping, each unsprung mass lighter than its sprung mass,
/// front weight distribution in [35, 65] %, rider mass in [40, 140] kg,
/// positive tyre stiffnesses, and both ride natural frequencies in
/// [0.8, 3.5] Hz.  `fn_front` and `fn_rear` are `sqrt(k/ms)/(2π)` of each
/// axle, evaluated by the caller in floating point.
pub fn validate_bike_model(b: &BikeModelInput, fn_front: u64, fn_rear: u64) -> (r: Result<
    (),
    InputError,
>)
    ensures
        r == verdict(bike_model_error(*b, fn_front, fn_rear)),
{
    if le(b.ms_front, ZERO) || le(b.ms_rear, ZERO) {
        return Err(InputError::BikeSprungMassNotPositive);
    }
    if le(b.mu_front, ZERO) || le(b.mu_rear, ZERO) {
        return Err(InputError::BikeUnsprungMassNotPositive);
    }
    if le(b.k_front, ZERO) || le(b.k_rear, ZERO) {
        return Err(InputError::BikeSpringRateNotPositive);
    }
    if lt(b.c_front, ZERO) || lt(b.c_rear, ZERO) {
        return Err(InputError::BikeDampingNegative);
    }
    if le(b.ms_front, b.mu_front) || le(b.ms_rear, b.mu_rear) {
        return Err(InputError::BikeUnsprungNotLighter);
    }
    let wf = match b.front_weight_distribution_pct {
        Some(p) => p,
        None => PCT_50,
    };
    if !within(wf, PCT_35, PCT_65) {
        return Err(InputError::FrontWeightDistributionOutOfRange);
    }
    if let Some(rider) = b.rider_mass_kg {
        if !within(rider, RIDER_MIN_KG, RIDER_MAX_KG) {
            return Err(InputError::BikeRiderMassOutOfRange);
        }
    }
    if let Some(ktf) = b.kt_front {
        if le(ktf, ZERO) {
            return Err(InputError::FrontTyreStiffnessNotPositive);
        }
    }
    if let Some(ktr) = b.kt_rear {
        if le(ktr, ZERO) {
            return Err(InputError::RearTyreStiffnessNotPositive);
        }
    }
    if !within(fn_front, BIKE_FN_MIN_HZ, BIKE_FN_MAX_HZ) || !within(
        fn_rear,
        BIKE_FN_MIN_HZ,
        BIKE_FN_MAX_HZ,
    ) {
        return Err(InputError::BikeNaturalFrequencyOutOfRange);
    }
    Ok(())
}

/// The tyre stiffness an axle uses: its own, else the request's, else
/// 130000 N/m.
pub open spec fn axle_kt(own: Option<u64>, fallback_kt: Option<u64>) -> u64 {
    match own {
        Some(v) => v,
        None => match fallback_kt {
            Some(f) => f,
            None => DEFAULT_BIKE_KT,
        },
    }
}

/// Front and rear tyre stiffness of a motorcycle.
pub fn bike_tyre_stiffness(b: &BikeModelInput, fallback_kt: Option<u64>) -> (r: (u64, u64))
    ensures
        r.0 == axle_kt(b.kt_front, fallback_kt),
        r.1 == axle_kt(b.kt_rear, fallback_kt),
{
    let kt_fallback = match fallback_kt {
        Some(f) => f,
        None => DEFAULT_BIKE_KT,
    };
    let front = match b.kt_front {
        Some(v) => v,
        None => kt_fallback,
    };
    let rear = match b.kt_rear {
        Some(v) => v,
        None => kt_fallback,
    };
    (front, rear)
}

/// The front weight distribution [%] that weights the two axles: the given
/// one, else `mass_share_pct`, the front share of the sprung mass.
pub open spec fn blend_front_pct(b: BikeModelInput, mass_share_pct: u64) -> u64 {
    match b.front_weight_distribution_pct {
        Some(p) => p,
        None => mass_share_pct,
    }
}

/// The front weight distribution [%] that weights the two axles.
/// `mass_share_pct` is `100 · ms_front / (ms_front + ms_rear)` (or 50 when
/// that sum is not positive), evaluated by the caller in floating point.
pub fn front_weight_share(b: &BikeModelInput, mass_share_pct: u64) -> (r: u64)
    ensures
        r == blend_front_pct(*b, mass_share_pct),
{
    match b.front_weight_distribution_pct {
        Some(p) => p,
        None => mass_share_pct,
    }
}

/// The refusal for an equivalent quarter-car, if any.
pub open spec fn equivalent_error(e: ResolvedQuarterParams) -> Option<InputError> {
    if float_le(e.mu, ZERO) || float_le(e.ms, ZERO) || float_le(e.k, ZERO) || float_le(e.kt, ZERO) {
        Some(InputError::BikeEquivalentInvalid)
    } else if float_le(e.ms, e.mu) {
        Some(InputError::BikeEquivalentUnstable)
    } else {
        None
    }
}

/// The summary of a motorcycle that passed every check.
pub open spec fn bike_summary(
    b: BikeModelInput,
    fallback_kt: Option<u64>,
    mass_share_pct: u64,
    equivalent: ResolvedQuarterParams,
) -> BikeResolvedSummary {
    BikeResolvedSummary {
        ms_front: b.ms_front,
        ms_rear: b.ms_rear,
        mu_front: b.mu_front,
        mu_rear: b.mu_rear,
        k_front: b.k_front,
        k_rear: b.k_rear,
        c_front: b.c_front,
        c_rear: b.c_rear,
        kt_front: axle_kt(b.kt_front, fallback_kt),
        kt_rear: axle_kt(b.kt_rear, fallback_kt),
        front_weight_distribution_pct: blend_front_pct(b, mass_share_pct),
        rider_mass_kg: match b.rider_mass_kg {
            Some(r) => r,
            None => DEFAULT_RIDER_KG,
        },
        equivalent,
    }
}

/// Reduce a motorcycle to one quarter-car.  The model is checked first
/// (`validate_bike_model`), then the equivalent quarter-car: its masses,
/// spring rate and tyre stiffness must be positive and its unsprung mass
/// lighter than its sprung mass.
///
/// `equivalent` is the blend of the two axles weighted by
/// `front_weight_share(b, mass_share_pct)` / 100 (front) and the rest
/// (rear), with the tyre stiffnesses of `bike_tyre_stiffness`; the caller
/// evaluates it, and the natural frequencies, in floating point.
pub fn resolve_bike_to_quarter(
    b: &BikeModelInput,
    fallback_kt: Option<u64>,
    fn_front: u64,
    fn_rear: u64,
    mass_share_pct: u64,
    equivalent: ResolvedQuarterParams,
) -> (r: Result<BikeResolvedSummary, InputError>)
    ensures
        match bike_model_error(*b, fn_front, fn_rear) {
            Some(e) => r == Err::<BikeResolvedSummary, InputError>(e),
            None => match equivalent_error(equivalent) {
                Some(e) => r == Err::<BikeResolvedSummary, InputError>(e),
                None => r matches Ok(s) && s == bike_summary(
                    *b,
                    fallback_kt,
                    mass_share_pct,
                    equivalent,
                ),
            },
        },
        r matches Ok(s) ==> stable(s.equivalent),
{
    validate_bike_model(b, fn_front, fn_rear)?;
    if le(equivalent.mu, ZERO) || le(equivalent.ms, ZERO) || le(equivalent.k, ZERO) || le(
        equivalent.kt,
        ZERO,
    ) {
        return Err(InputError::BikeEquivalentInvalid);
    }
    if le(equivalent.ms, equivalent.mu) {
        return Err(InputError::BikeEquivalentUnstable);
    }
    let (kt_front, kt_rear) = bike_tyre_stiffness(b, fallback_kt);
    let wf = front_weight_share(b, mass_share_pct);
    let rider_mass_kg = match b.rider_mass_kg {
        Some(r) => r,
        None => DEFAULT_RIDER_KG,
    };
    Ok(BikeResolvedSummary {
        ms_front: b.ms_front,
        ms_rear: b.ms_rear,
        mu_front: b.mu_front,
        mu_rear: b.mu_rear,
        k_front: b.k_front,
        k_rear: b.k_rear,
        c_front: b.c_front,
        c_rear: b.c_rear,
        kt_front,
        kt_rear,
        front_weight_distribution_pct: wf,
        rider_mass_kg,
        equivalent,
    })
}

// ---------------------------------------------------------------------------
// Laws
// ---------------------------------------------------------------------------

/// An axle's own tyre stiffness, when given, is the one it uses, whatever
/// the request's; an axle without one uses the request's, and 130000 N/m
/// when the request has none either.
pub proof fn lemma_axle_tyre_stiffness(own: Option<u64>, fallback_kt: Option<u64>)
    ensures
        own matches Some(v) ==> axle_kt(own, fallback_kt) == v,
        own is None ==> (fallback_kt matches Some(f) ==> axle_kt(own, fallback_kt) == f),
        own is None && fallback_kt is None ==> axle_kt(own, fallback_kt) == 0x40FF_BD00_0000_0000u64,
{
}

/// A motorcycle model passes exactly when: both sprung masses, both
/// unsprung masses and both spring rates are not `<= 0`, neither damping is
/// `< 0`, neither unsprung mass is `>=` its sprung mass, the front weight
/// distribution (50 % when absent) lies in [35, 65], a given rider mass
/// lies in [40, 140], a given tyre stiffness is not `<= 0`, and both ride
/// frequencies lie in [0.8, 3.5] Hz.  A sprung mass `<= 0` is the first
/// refusal.  Without NaNs, an accepted model has `0 < mu < ms` per axle.
pub proof fn lemma_bike_validation(b: BikeModelInput, fn_front: u64, fn_rear: u64)
    ensures
        bike_model_error(b, fn_front, fn_rear) is None <==> {
            &&& !float_le(b.ms_front, 0) && !float_le(b.ms_rear, 0)
            &&& !float_le(b.mu_front, 0) && !float_le(b.mu_rear, 0)
            &&& !float_le(b.k_front, 0) && !float_le(b.k_rear, 0)
            &&& !float_lt(b.c_front, 0) && !float_lt(b.c_rear, 0)
            &&& !float_le(b.ms_front, b.mu_front) && !float_le(b.ms_rear, b.mu_rear)
            &&& (match b.front_weight_distribution_pct {
                Some(p) => float_le(PCT_35, p) && float_le(p, PCT_65),
                None => true,
            })
            &&& (b.rider_mass_kg matches Some(r) ==> float_le(RIDER_MIN_KG, r) && float_le(
                r,
                RIDER_MAX_KG,
            ))
            &&& (b.kt_front matches Some(k) ==> !float_le(k, 0))
            &&& (b.kt_rear matches Some(k) ==> !float_le(k, 0))
            &&& float_le(BIKE_FN_MIN_HZ, fn_front) && float_le(fn_front, BIKE_FN_MAX_HZ)
            &&& float_le(BIKE_FN_MIN_HZ, fn_rear) && float_le(fn_rear, BIKE_FN_MAX_HZ)
        },
        float_le(b.ms_front, 0) || float_le(b.ms_rear, 0) ==> bike_model_error(b, fn_front, fn_rear)
            == Some(InputError::BikeSprungMassNotPositive),
        bike_model_error(b, fn_front, fn_rear) is None && !is_nan(b.ms_front) && !is_nan(b.mu_front)
            ==> float_lt(0, b.mu_front) && float_lt(b.mu_front, b.ms_front),
        bike_model_error(b, fn_front, fn_rear) is None && !is_nan(b.ms_rear) && !is_nan(b.mu_rear)
            ==> float_lt(0, b.mu_rear) && float_lt(b.mu_rear, b.ms_rear),
{
}

/// The equivalent quarter-car passes exactly when its masses, spring rate
/// and tyre stiffness are not `<= 0` and its unsprung mass is not `>=` its
/// sprung mass.
pub proof fn lemma_equivalent_check(e: ResolvedQuarterParams)
    ensures
        equivalent_error(e) is None <==> !float_le(e.mu, 0) && !float_le(e.ms, 0) && !float_le(e.k, 0)
            && !float_le(e.kt, 0) && !float_le(e.ms, e.mu),
{
}

/// The summary of a resolved bike keeps the model's masses, spring rates
/// and dampings, the tyre stiffness each axle uses, the given front weight
/// distribution (else the sprung-mass share), the given rider mass (else
/// 75 kg), and the equivalent quarter-car.
pub proof fn lemma_bike_summary(
    b: BikeModelInput,
    fallback_kt: Option<u64>,
    mass_share_pct: u64,
    equivalent: ResolvedQuarterParams,
)
    ensures
        ({
            let s = bike_summary(b, fallback_kt, mass_share_pct, equivalent);
            &&& s.ms_front == b.ms_front && s.ms_rear == b.ms_rear
            &&& s.mu_front == b.mu_front && s.mu_rear == b.mu_rear
            &&& s.k_front == b.k_front && s.k_rear == b.k_rear
            &&& s.c_front == b.c_front && s.c_rear == b.c_rear
            &&& (b.kt_front matches Some(v) ==> s.kt_front == v)
            &&& (b.kt_rear matches Some(v) ==> s.kt_rear == v)
            &&& (b.front_weight_distribution_pct matches Some(p) ==> s.front_weight_distribution_pct == p)
            &&& (b.front_weight_distribution_pct is None ==> s.front_weight_distribution_pct == mass_share_pct)
            &&& (b.rider_mass_kg matches Some(r) ==> s.rider_mass_kg == r)
            &&& (b.rider_mass_kg is None ==> s.rider_mass_kg == 0x4052_C000_0000_0000u64)
            &&& s.equivalent == equivalent
        }),
{
}

} // verus!
