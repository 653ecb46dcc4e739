//! Request-level checks and defaults of the simulation, FRF and sweep
//! endpoints.

use vstd::prelude::*;
use crate::bike::optional_within;
use crate::error::{verdict, InputError};
use crate::ieee::{float_le, float_lt, is_nan, le, lt, nan, within, ZERO};
use crate::road::{road_profile_error, RoadProfileInput};

verus! {

/// `15.0`
pub const RAKE_MIN_DEG: u64 = 0x402E_0000_0000_0000;
/// `40.0`
pub const RAKE_MAX_DEG: u64 = 0x4044_0000_0000_0000;
/// `0.5`
pub const FN_TARGET_MIN_HZ: u64 = 0x3FE0_0000_0000_0000;
/// `4.0`
pub const FN_TARGET_MAX_HZ: u64 = 0x4010_0000_0000_0000;
/// `0.1`
pub const ZETA_MIN: u64 = 0x3FB9_9999_9999_999A;
/// `0.8`
pub const ZETA_MAX: u64 = 0x3FE9_9999_9999_999A;
/// `0.5`, the default lowest FRF frequency [Hz].
pub const FRF_DEFAULT_F_MIN: u64 = 0x3FE0_0000_0000_0000;
/// `0.01`, the floor of the lowest FRF frequency [Hz].
pub const FRF_F_FLOOR: u64 = 0x3F84_7AE1_47AE_147B;
/// `25.0`, the default highest FRF frequency [Hz].
pub const FRF_DEFAULT_F_MAX: u64 = 0x4039_0000_0000_0000;
/// Default and bounds of the number of FRF points.
pub const FRF_DEFAULT_POINTS: usize = 100;
pub const FRF_MIN_POINTS: usize = 10;
pub const FRF_MAX_POINTS: usize = 500;
/// Default and bounds of the sweep grid size per axis.
pub const SWEEP_DEFAULT_STEPS: usize = 10;
pub const SWEEP_MIN_STEPS: usize = 2;
pub const SWEEP_MAX_STEPS: usize = 20;

/// The optional tuning fields of a simulation request, as binary64 bit
/// patterns.
#[derive(Clone, Copy, Debug)]
pub struct SimulationOptions {
    pub rake_angle_deg: Option<u64>,
    pub fn_target_hz: Option<u64>,
    pub zeta_target: Option<u64>,
    pub front_travel_mm: Option<u64>,
    pub rear_travel_mm: Option<u64>,
    pub preload_mm: Option<u64>,
}

/// The refusal for the optional fields, if any: rake in [15, 40]°, ride
/// frequency target in [0.5, 4.0] Hz, damping ratio target in [0.1, 0.8],
/// positive travels and non-negative preload, checked in that order.
pub open spec fn options_error(o: SimulationOptions) -> Option<InputError> {
    if !optional_within(o.rake_angle_deg, RAKE_MIN_DEG, RAKE_MAX_DEG) {
        Some(InputError::RakeAngleOutOfRange)
    } else if !optional_within(o.fn_target_hz, FN_TARGET_MIN_HZ, FN_TARGET_MAX_HZ) {
        Some(InputError::FnTargetOutOfRange)
    } else if !optional_within(o.zeta_target, ZETA_MIN, ZETA_MAX) {
        Some(InputError::ZetaTargetOutOfRange)
    } else if o.front_travel_mm matches Some(v) && float_le(v, ZERO) {
        Some(InputError::FrontTravelNotPositive)
    } else if o.rear_travel_mm matches Some(v) && float_le(v, ZERO) {
        Some(InputError::RearTravelNotPositive)
    } else if o.preload_mm matches Some(v) && float_lt(v, ZERO) {
        Some(InputError::PreloadNegative)
    } else {
        None
    }
}

/// `x` is present and outside `[lo, hi]`.
fn outside(x: Option<u64>, lo: u64, hi: u64) -> (r: bool)
    ensures
        r == !optional_within(x, lo, hi),
{
    match x {
        Some(v) => !within(v, lo, hi),
        None => false,
    }
}

impl SimulationOptions {
    /// Check the optional fields of a simulation request.
    pub fn validate(&self) -> (r: Result<(), InputError>)
        ensures
            r == verdict(options_error(*self)),
    {
        if outside(self.rake_angle_deg, RAKE_MIN_DEG, RAKE_MAX_DEG) {
            return Err(InputError::RakeAngleOutOfRange);
        }
        if outside(self.fn_target_hz, FN_TARGET_MIN_HZ, FN_TARGET_MAX_HZ) {
            return Err(InputError::FnTargetOutOfRange);
        }
        if outside(self.zeta_target, ZETA_MIN, ZETA_MAX) {
            return Err(InputError::ZetaTargetOutOfRange);
        }
        if let Some(v) = self.front_travel_mm {
            if le(v, ZERO) {
                return Err(InputError::FrontTravelNotPositive);
            }
        }
        if let Some(v) = self.rear_travel_mm {
            if le(v, ZERO) {
                return Err(InputError::RearTravelNotPositive);
            }
        }
        if let Some(v) = self.preload_mm {
            if lt(v, ZERO) {
                return Err(InputError::PreloadNegative);
            }
        }
        Ok(())
    }
}

/// How the suspension travel limit [mm] of a simulation is formed from the
/// travels given.
#[derive(Clone, Copy, Debug, PartialEq, Eq, Structural)]
pub enum TravelLimit {
    /// `front_pct / 100 · front + (1 - front_pct / 100) · rear`, for a bike
    /// model with both travels.
    Blend { front: u64, rear: u64, front_pct: u64 },
    /// `0.5 · (front + rear)`, both travels without a bike model.
    Mean { front: u64, rear: u64 },
    /// Only one travel given: it is the limit.
    Single(u64),
    /// No travel given: no limit.
    Unlimited,
}

/// The travel limit rule for the given travels; `bike_front_pct` is
/// `Some` of the bike model's front weight distribution (itself optional,
/// 50 % when absent) when the request has a bike model.
pub open spec fn travel_limit_of(
    front: Option<u64>,
    rear: Option<u64>,
    bike_front_pct: Option<Option<u64>>,
) -> TravelLimit {
    match (front, rear) {
        (Some(f), Some(r)) => match bike_front_pct {
            Some(p) => TravelLimit::Blend {
                front: f,
                rear: r,
                front_pct: match p {
                    Some(v) => v,
                    None => crate::bike::PCT_50,
                },
            },
            None => TravelLimit::Mean { front: f, rear: r },
        },
        (Some(f), None) => TravelLimit::Single(f),
        (None, Some(r)) => TravelLimit::Single(r),
        (None, None) => TravelLimit::Unlimited,
    }
}

/// Choose how the travel limit is formed.
pub fn travel_limit(front: Option<u64>, rear: Option<u64>, bike_front_pct: Option<Option<u64>>) -> (r:
    TravelLimit)
    ensures
        r == travel_limit_of(front, rear, bike_front_pct),
{
    match (front, rear) {
        (Some(f), Some(r)) => match bike_front_pct {
            Some(p) => TravelLimit::Blend {
                front: f,
                rear: r,
                front_pct: match p {
                    Some(v) => v,
                    None => crate::bike::PCT_50,
                },
            },
            None => TravelLimit::Mean { front: f, rear: r },
        },
        (Some(f), None) => TravelLimit::Single(f),
        (None, Some(r)) => TravelLimit::Single(r),
        (None, None) => TravelLimit::Unlimited,
    }
}

/// The suspension bottoms out when the largest travel [mm] exceeds the
/// limit; without a limit it never does.
pub fn bottom_out(max_travel_mm: u64, limit_mm: Option<u64>) -> (r: bool)
    ensures
        r == (limit_mm matches Some(l) && float_lt(l, max_travel_mm)),
{
    match limit_mm {
        Some(l) => lt(l, max_travel_mm),
        None => false,
    }
}

/// `x` clamped to `[lo, hi]`.
pub open spec fn clamped(x: int, lo: int, hi: int) -> int {
    if x < lo {
        lo
    } else if x > hi {
        hi
    } else {
        x
    }
}

/// `x.clamp(lo, hi)` for `lo <= hi`.
fn clamp_usize(x: usize, lo: usize, hi: usize) -> (r: usize)
    requires
        lo <= hi,
    ensures
        r == clamped(x as int, lo as int, hi as int),
{
    if x < lo {
        lo
    } else if x > hi {
        hi
    } else {
        x
    }
}

/// The frequency grid of an FRF request.
#[derive(Clone, Copy, Debug)]
pub struct FrfRange {
    /// Lowest frequency [Hz], binary64 bits.
    pub f_min: u64,
    /// Highest frequency [Hz], binary64 bits.
    pub f_max: u64,
    /// Number of log-spaced points.
    pub n_points: usize,
}

/// `f64::max(x, 0.01)`: the floor when `x` is NaN or below it, else `x`.
pub open spec fn floored_f_min(x: u64) -> u64 {
    if is_nan(x) || float_lt(x, FRF_F_FLOOR) {
        FRF_F_FLOOR
    } else {
        x
    }
}

/// The FRF frequency grid a request asks for, if it is not empty.
pub open spec fn frf_range_result(f_min: Option<u64>, f_max: Option<u64>, n_points: Option<usize>) -> Result<
    FrfRange,
    InputError,
> {
    let lo = floored_f_min(
        match f_min {
            Some(v) => v,
            None => FRF_DEFAULT_F_MIN,
        },
    );
    let hi = match f_max {
        Some(v) => v,
        None => FRF_DEFAULT_F_MAX,
    };
    let n = clamped(
        match n_points {
            Some(v) => v as int,
            None => FRF_DEFAULT_POINTS as int,
        },
        FRF_MIN_POINTS as int,
        FRF_MAX_POINTS as int,
    );
    if float_le(hi, lo) {
        Err(InputError::FrequencyRangeEmpty)
    } else {
        Ok(FrfRange { f_min: lo, f_max: hi, n_points: n as usize })
    }
}

/// Defaults and bounds of an FRF request: lowest frequency 0.5 Hz by
/// default and at least 0.01 Hz, highest 25 Hz by default, 100 points by
/// default clamped to [10, 500]; refused when the lowest frequency is not
/// below the highest.
pub fn frf_sweep_range(f_min: Option<u64>, f_max: Option<u64>, n_points: Option<usize>) -> (r: Result<
    FrfRange,
    InputError,
>)
    ensures
        r == frf_range_result(f_min, f_max, n_points),
        r matches Ok(g) ==> FRF_MIN_POINTS <= g.n_points <= FRF_MAX_POINTS,
        r matches Ok(g) ==> float_le(FRF_F_FLOOR, g.f_min),
        r matches Ok(g) ==> (!is_nan(g.f_max) ==> float_lt(g.f_min, g.f_max)),
{
    let requested = match f_min {
        Some(v) => v,
        None => FRF_DEFAULT_F_MIN,
    };
    let lo = if nan(requested) || lt(requested, FRF_F_FLOOR) {
        FRF_F_FLOOR
    } else {
        requested
    };
    let hi = match f_max {
        Some(v) => v,
        None => FRF_DEFAULT_F_MAX,
    };
    let n = clamp_usize(
        match n_points {
            Some(v) => v,
            None => FRF_DEFAULT_POINTS,
        },
        FRF_MIN_POINTS,
        FRF_MAX_POINTS,
    );
    if le(hi, lo) {
        return Err(InputError::FrequencyRangeEmpty);
    }
    Ok(FrfRange { f_min: lo, f_max: hi, n_points: n })
}

/// The refusal for the ranges and road of a sweep, if any.
pub open spec fn sweep_error(k_range: [u64; 2], c_range: [u64; 2], road: RoadProfileInput) -> Option<
    InputError,
> {
    if float_le(k_range@[0], ZERO) || float_le(k_range@[1], ZERO) {
        Some(InputError::SpringRangeNotPositive)
    } else if float_le(k_range@[1], k_range@[0]) {
        Some(InputError::SpringRangeNotIncreasing)
    } else if float_lt(c_range@[0], ZERO) {
        Some(InputError::DampingRangeNegative)
    } else if float_le(c_range@[1], c_range@[0]) {
        Some(InputError::DampingRangeNotIncreasing)
    } else {
        road_profile_error(road)
    }
}

/// Unless a bound is NaN (which no comparison refuses), accepted ranges
/// satisfy `0 < k_min < k_max` and `0 <= c_min < c_max`.
pub open spec fn ordered_ranges(k_range: [u64; 2], c_range: [u64; 2]) -> bool {
    &&& !is_nan(k_range@[0]) && !is_nan(k_range@[1]) ==> float_lt(ZERO, k_range@[0]) && float_lt(
        k_range@[0],
        k_range@[1],
    )
    &&& !is_nan(c_range@[0]) && !is_nan(c_range@[1]) ==> float_le(ZERO, c_range@[0]) && float_lt(
        c_range@[0],
        c_range@[1],
    )
}

/// Check the spring-rate and damping ranges and the road of a sweep, and
/// return the grid size per axis: 10 by default, clamped to [2, 20].
pub fn validate_sweep_request(
    k_range: [u64; 2],
    c_range: [u64; 2],
    road: &RoadProfileInput,
    steps: Option<usize>,
) -> (r: Result<usize, InputError>)
    ensures
        match sweep_error(k_range, c_range, *road) {
            Some(e) => r == Err::<usize, InputError>(e),
            None => r matches Ok(n) && n == clamped(
                match steps {
                    Some(v) => v as int,
                    None => SWEEP_DEFAULT_STEPS as int,
                },
                SWEEP_MIN_STEPS as int,
                SWEEP_MAX_STEPS as int,
            ),
        },
        r matches Ok(n) ==> SWEEP_MIN_STEPS <= n <= SWEEP_MAX_STEPS,
        r is Ok ==> ordered_ranges(k_range, c_range),
{
    if le(k_range[0], ZERO) || le(k_range[1], ZERO) {
        return Err(InputError::SpringRangeNotPositive);
    }
    if le(k_range[1], k_range[0]) {
        return Err(InputError::SpringRangeNotIncreasing);
    }
    if lt(c_range[0], ZERO) {
        return Err(InputError::DampingRangeNegative);
    }
    if le(c_range[1], c_range[0]) {
        return Err(InputError::DampingRangeNotIncreasing);
    }
    road.validate()?;
    let requested = match steps {
        Some(v) => v,
        None => SWEEP_DEFAULT_STEPS,
    };
    Ok(clamp_usize(requested, SWEEP_MIN_STEPS, SWEEP_MAX_STEPS))
}

// ---------------------------------------------------------------------------
// Laws
// ---------------------------------------------------------------------------

/// The optional fields pass exactly when a given rake lies in [15, 40]°, a
/// given ride frequency target in [0.5, 4.0] Hz, a given damping ratio
/// target in [0.1, 0.8] (a NaN in any of these fails), given travels are
/// not `<= 0` and a given preload is not `< 0`.
pub proof fn lemma_options_check(o: SimulationOptions)
    ensures
        options_error(o) is None <==> {
            &&& (o.rake_angle_deg matches Some(r) ==> float_le(RAKE_MIN_DEG, r) && float_le(r, RAKE_MAX_DEG))
            &&& (o.fn_target_hz matches Some(f) ==> float_le(FN_TARGET_MIN_HZ, f) && float_le(
                f,
                FN_TARGET_MAX_HZ,
            ))
            &&& (o.zeta_target matches Some(z) ==> float_le(ZETA_MIN, z) && float_le(z, ZETA_MAX))
            &&& (o.front_travel_mm matches Some(t) ==> !float_le(t, 0))
            &&& (o.rear_travel_mm matches Some(t) ==> !float_le(t, 0))
            &&& (o.preload_mm matches Some(p) ==> !float_lt(p, 0))
        },
        o.rake_angle_deg is None && o.fn_target_hz is None ==> (o.zeta_target matches Some(z) ==> (
        !(float_le(ZETA_MIN, z) && float_le(z, ZETA_MAX)) ==> options_error(o) == Some(
            InputError::ZetaTargetOutOfRange,
        ))),
{
}

/// The FRF grid: the requested point count clamped to [10, 500] — kept as
/// is inside that range — or 100 when none is requested; the requested
/// lowest frequency when it is at least 0.01 Hz, 0.01 Hz when it is below
/// or NaN, 0.5 Hz when none is requested; the requested highest frequency,
/// else 25 Hz; refused exactly when the highest is `<=` the lowest.
pub proof fn lemma_frf_grid(f_min: Option<u64>, f_max: Option<u64>, n_points: Option<usize>)
    ensures
        ({
            let lo = match f_min {
                Some(x) => if is_nan(x) || float_lt(x, FRF_F_FLOOR) {
                    FRF_F_FLOOR
                } else {
                    x
                },
                None => FRF_DEFAULT_F_MIN,
            };
            let hi = match f_max {
                Some(x) => x,
                None => FRF_DEFAULT_F_MAX,
            };
            &&& frf_range_result(f_min, f_max, n_points) is Err <==> float_le(hi, lo)
            &&& frf_range_result(f_min, f_max, n_points) is Err ==> frf_range_result(
                f_min,
                f_max,
                n_points,
            ) == Err::<FrfRange, InputError>(InputError::FrequencyRangeEmpty)
            &&& frf_range_result(f_min, f_max, n_points) matches Ok(g) ==> {
                &&& g.f_min == lo
                &&& g.f_max == hi
                &&& (n_points is None ==> g.n_points == 100)
                &&& (n_points matches Some(v) ==> (10 <= v <= 500 ==> g.n_points == v))
                &&& (n_points matches Some(v) ==> (v < 10 ==> g.n_points == 10))
                &&& (n_points matches Some(v) ==> (v > 500 ==> g.n_points == 500))
            }
        }),
{
}

/// A sweep request passes exactly when both spring-rate bounds are not
/// `<= 0` and the upper is not `<=` the lower, the lower damping bound is
/// not `< 0` and the upper not `<=` the lower, and the road passes; its
/// grid size is the requested one clamped to [2, 20] — kept as is inside
/// that range — or 10 when none is requested.
pub proof fn lemma_sweep_request(
    k_range: [u64; 2],
    c_range: [u64; 2],
    road: RoadProfileInput,
    steps: Option<usize>,
)
    ensures
        sweep_error(k_range, c_range, road) is None <==> {
            &&& !float_le(k_range@[0], 0) && !float_le(k_range@[1], 0)
            &&& !float_le(k_range@[1], k_range@[0])
            &&& !float_lt(c_range@[0], 0) && !float_le(c_range@[1], c_range@[0])
            &&& road_profile_error(road) is None
        },
        steps is None ==> clamped(SWEEP_DEFAULT_STEPS as int, SWEEP_MIN_STEPS as int, SWEEP_MAX_STEPS as int) == 10,
        steps matches Some(v) ==> (2 <= v <= 20 ==> clamped(v as int, SWEEP_MIN_STEPS as int, SWEEP_MAX_STEPS as int) == v),
        steps matches Some(v) ==> (v < 2 ==> clamped(v as int, SWEEP_MIN_STEPS as int, SWEEP_MAX_STEPS as int) == 2),
        steps matches Some(v) ==> (v > 20 ==> clamped(v as int, SWEEP_MIN_STEPS as int, SWEEP_MAX_STEPS as int) == 20),
{
}

/// The travel limit: both travels with a bike blend them by the bike's
/// front weight distribution (50 % when absent), both without a bike take
/// their mean, one travel alone is the limit, none means no limit.
pub proof fn lemma_travel_limit(front: Option<u64>, rear: Option<u64>, bike_front_pct: Option<Option<u64>>)
    ensures
        front is None && rear is None ==> travel_limit_of(front, rear, bike_front_pct) == TravelLimit::Unlimited,
        front matches Some(f) ==> (rear is None ==> travel_limit_of(front, rear, bike_front_pct)
            == TravelLimit::Single(f)),
        rear matches Some(r) ==> (front is None ==> travel_limit_of(front, rear, bike_front_pct)
            == TravelLimit::Single(r)),
        front is Some && rear is Some && bike_front_pct is None ==> travel_limit_of(
            front,
            rear,
            bike_front_pct,
        ) == (TravelLimit::Mean { front: front->0, rear: rear->0 }),
        front is Some && rear is Some && bike_front_pct is Some ==> travel_limit_of(
            front,
            rear,
            bike_front_pct,
        ) == (TravelLimit::Blend {
            front: front->0,
            rear: rear->0,
            front_pct: match bike_front_pct->0 {
                Some(p) => p,
                None => 0x4049_0000_0000_0000u64,
            },
        }),
{
}

} // verus!
