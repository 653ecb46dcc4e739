//! Road excitation profiles: the request form, its validation, and the
//! deterministic generator of random phases for ISO 8608 roads.

use vstd::prelude::*;
use crate::error::{verdict, InputError};
use crate::ieee::{float_le, float_lt, le, lt, ZERO};

verus! {

/// `1.0`
pub const ONE: u64 = 0x3FF0_0000_0000_0000;

/// Road input profile handed to the simulation.  Fields are binary64 bit
/// patterns.
#[derive(Clone, Copy, Debug)]
pub enum RoadProfile {
    /// Single step of the given height [m], applied at t = 0.5 s.
    Step { height: u64 },
    /// Sinusoidal road `amplitude · sin(2π · freq_hz · t)`.
    Sine { amplitude: u64, freq_hz: u64 },
    /// ISO 8608 random road of roughness coefficient Gd(n0) [m³/cycle]
    /// driven at the given forward speed [m/s].
    Iso8608 { roughness_coefficient: u64, vehicle_speed_mps: u64 },
}

/// Road profile as a client sends it, tagged by `"type"`.
#[derive(Clone, Copy, Debug)]
pub enum RoadProfileInput {
    Step { height: u64 },
    Sine { amplitude: u64, freq_hz: u64 },
    Iso8608 { roughness_coefficient: u64, vehicle_speed_mps: u64 },
}

/// The refusal for a road profile, if any: the first failing check.
pub open spec fn road_profile_error(p: RoadProfileInput) -> Option<InputError> {
    match p {
        RoadProfileInput::Step { height } => if float_le(height, ZERO) || float_lt(ONE, height) {
            Some(InputError::HeightOutOfRange)
        } else {
            None
        },
        RoadProfileInput::Sine { amplitude, freq_hz } => if float_le(amplitude, ZERO) {
            Some(InputError::AmplitudeNotPositive)
        } else if float_le(freq_hz, ZERO) {
            Some(InputError::FrequencyNotPositive)
        } else {
            None
        },
        RoadProfileInput::Iso8608 { roughness_coefficient, vehicle_speed_mps } => if float_le(
            roughness_coefficient,
            ZERO,
        ) {
            Some(InputError::RoughnessNotPositive)
        } else if float_le(vehicle_speed_mps, ZERO) {
            Some(InputError::SpeedNotPositive)
        } else {
            None
        },
    }
}

impl RoadProfileInput {
    /// The profile the simulation runs, with the same parameters.
    pub fn into_core(self) -> (r: RoadProfile)
        ensures
            r == (match self {
                RoadProfileInput::Step { height } => RoadProfile::Step { height },
                RoadProfileInput::Sine { amplitude, freq_hz } => RoadProfile::Sine {
                    amplitude,
                    freq_hz,
                },
                RoadProfileInput::Iso8608 { roughness_coefficient, vehicle_speed_mps } =>
                    RoadProfile::Iso8608 { roughness_coefficient, vehicle_speed_mps },
            }),
    {
        match self {
            RoadProfileInput::Step { height } => RoadProfile::Step { height },
            RoadProfileInput::Sine { amplitude, freq_hz } => RoadProfile::Sine { amplitude, freq_hz },
            RoadProfileInput::Iso8608 { roughness_coefficient, vehicle_speed_mps } =>
                RoadProfile::Iso8608 { roughness_coefficient, vehicle_speed_mps },
        }
    }

    /// Check the profile parameters: a step height in (0, 1] m, and positive
    /// amplitude, frequency, roughness and speed.
    pub fn validate(&self) -> (r: Result<(), InputError>)
        ensures
            r == verdict(road_profile_error(*self)),
    {
        match self {
            RoadProfileInput::Step { height } => {
                if le(*height, ZERO) || lt(ONE, *height) {
                    return Err(InputError::HeightOutOfRange);
                }
            },
            RoadProfileInput::Sine { amplitude, freq_hz } => {
                if le(*amplitude, ZERO) {
                    return Err(InputError::AmplitudeNotPositive);
                }
                if le(*freq_hz, ZERO) {
                    return Err(InputError::FrequencyNotPositive);
                }
            },
            RoadProfileInput::Iso8608 { roughness_coefficient, vehicle_speed_mps } => {
                if le(*roughness_coefficient, ZERO) {
                    return Err(InputError::RoughnessNotPositive);
                }
                if le(*vehicle_speed_mps, ZERO) {
                    return Err(InputError::SpeedNotPositive);
                }
            },
        }
        Ok(())
    }

    /// The label stored with a simulation run.
    pub fn label(&self) -> (r: &'static str)
        ensures
            r@ == (match *self {
                RoadProfileInput::Step { .. } => "step"@,
                RoadProfileInput::Sine { .. } => "sine"@,
                RoadProfileInput::Iso8608 { .. } => "iso8608"@,
            }),
    {
        match self {
            RoadProfileInput::Step { .. } => "step",
            RoadProfileInput::Sine { .. } => "sine",
            RoadProfileInput::Iso8608 { .. } => "iso8608",
        }
    }
}

// ---------------------------------------------------------------------------
// Random phases of the ISO 8608 synthesis
// ---------------------------------------------------------------------------

/// Seed of the phase generator; fixed so that every run sees the same road.
pub const ISO8608_SEED: u64 = 0xDEAD_BEEF_1234_5678;

/// Multiplier of the linear congruential generator.
pub const LCG_MULTIPLIER: u64 = 6364136223846793005;

/// Increment of the linear congruential generator.
pub const LCG_INCREMENT: u64 = 1442695040888963407;

/// The largest draw, `u64::MAX >> 33`; a draw divided by it is the phase
/// as a fraction of a full turn.
pub const DRAW_MAX: u64 = 0x7FFF_FFFF;

/// One generator step: `s · a + c` modulo 2⁶⁴.
pub open spec fn lcg_next(s: u64) -> u64 {
    ((s as nat * LCG_MULTIPLIER as nat + LCG_INCREMENT as nat) % 0x1_0000_0000_0000_0000nat) as u64
}

/// The generator state after `n` steps from the seed.
pub open spec fn lcg_state(n: nat) -> u64
    decreases n,
{
    if n == 0 {
        ISO8608_SEED
    } else {
        lcg_next(lcg_state((n - 1) as nat))
    }
}

/// The draw of a state: its top 31 bits.
pub open spec fn draw_of(s: u64) -> u64 {
    s / 0x2_0000_0000
}

/// Advance the generator one step and return the top 31 bits of the new
/// state.
pub fn lcg_draw(seed: &mut u64) -> (draw: u64)
    ensures
        *final(seed) == lcg_next(*old(seed)),
        draw == draw_of(*final(seed)),
        draw <= DRAW_MAX,
{
    let s = *seed;
    let m = s.wrapping_mul(LCG_MULTIPLIER);
    let next = m.wrapping_add(LCG_INCREMENT);
    proof {
        let p = s as nat * LCG_MULTIPLIER as nat;
        let r = 0x1_0000_0000_0000_0000nat;
        assert(m == p % r);
        vstd::arithmetic::div_mod::lemma_add_mod_noop(p as int, LCG_INCREMENT as int, r as int);
        vstd::arithmetic::div_mod::lemma_small_mod(LCG_INCREMENT as nat, r);
        if m + LCG_INCREMENT > u64::MAX {
            vstd::arithmetic::div_mod::lemma_fundamental_div_mod_converse(
                (m + LCG_INCREMENT) as int, r as int, 1, (m + LCG_INCREMENT - r) as int);
        } else {
            vstd::arithmetic::div_mod::lemma_small_mod((m + LCG_INCREMENT) as nat, r);
        }
    }
    *seed = next;
    let draw = next >> 33;
    assert(next >> 33u64 == next / 0x2_0000_0000u64) by (bit_vector);
    draw
}

/// The first `count` phase draws of the ISO 8608 synthesis, one per
/// frequency bin, starting from the fixed seed.
pub fn phase_draws(count: usize) -> (draws: Vec<u64>)
    ensures
        draws@.len() == count,
        forall|i: int| 0 <= i < count ==> #[trigger] draws@[i] == draw_of(lcg_state((i + 1) as nat)),
        forall|i: int| 0 <= i < count ==> #[trigger] draws@[i] <= DRAW_MAX,
{
    let mut seed = ISO8608_SEED;
    let mut draws: Vec<u64> = Vec::new();
    for i in 0..count
        invariant
            draws@.len() == i,
            seed == lcg_state(i as nat),
            forall|j: int| 0 <= j < i ==> #[trigger] draws@[j] == draw_of(lcg_state((j + 1) as nat)),
            forall|j: int| 0 <= j < i ==> #[trigger] draws@[j] <= DRAW_MAX,
    {
        let d = lcg_draw(&mut seed);
        draws.push(d);
    }
    draws
}

/// A road profile passes exactly when: a step's height is not `<= 0` and
/// not `> 1` m; a sine's amplitude and frequency are not `<= 0`; an ISO
/// 8608 road's roughness and speed are not `<= 0`.
pub proof fn lemma_road_profile_check(p: RoadProfileInput)
    ensures
        road_profile_error(p) is None <==> match p {
            RoadProfileInput::Step { height } => !float_le(height, 0) && !float_lt(ONE, height),
            RoadProfileInput::Sine { amplitude, freq_hz } => !float_le(amplitude, 0) && !float_le(
                freq_hz,
                0,
            ),
            RoadProfileInput::Iso8608 { roughness_coefficient, vehicle_speed_mps } => !float_le(
                roughness_coefficient,
                0,
            ) && !float_le(vehicle_speed_mps, 0),
        },
        p matches RoadProfileInput::Step { height } ==> (road_profile_error(p) is Some ==> road_profile_error(p)
            == Some(InputError::HeightOutOfRange)),
{
}

} // verus!
