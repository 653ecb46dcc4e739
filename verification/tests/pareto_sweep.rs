//! The sweep-and-front scenarios: a spring/damper grid simulated in
//! floating point on a step road, filtered by the verified Pareto front.

use suspension_core::pareto::{extract_pareto_front, ParetoPoint};
use suspension_core::road::RoadProfile;
use suspension_core::sweep::sweep_grid;

const DT: f64 = 0.001;
const N_STEPS: usize = 5_001;
const PI: f64 = std::f64::consts::PI;

fn precompute(profile: &RoadProfile, dt: f64, n_steps: usize) -> Vec<f64> {
    match *profile {
        RoadProfile::Step { height } => {
            let height = f64::from_bits(height);
            (0..n_steps).map(|i| if i as f64 * dt > 0.5 { height } else { 0.0 }).collect()
        }
        _ => panic!("only the step road is simulated here"),
    }
}

/// ISO 2631-1 Wk gain at frequency `f` [Hz] (case: floating point).
fn wk_gain(f: f64) -> f64 {
    match f {
        f if f < 0.5 => 0.0,
        f if f < 2.0 => 0.5,
        f if f < 4.0 => 0.5 + 0.5 * (f - 2.0) / 2.0,
        f if f < 12.5 => 1.0,
        f if f < 80.0 => 12.5 / f,
        _ => 0.0,
    }
}

/// Frequency-weighted RMS of a body acceleration series by Goertzel bins
/// (case: floating point).
fn iso2631_weighted_rms(acc: &[f64], dt: f64) -> f64 {
    let n = acc.len();
    let n_f = n as f64;
    let fs = 1.0 / dt;
    let k_min = ((0.5 * n_f / fs).ceil() as usize).max(1);
    let k_max = ((80.0 * n_f / fs).floor() as usize).min(n / 2);
    let mut weighted_energy = 0.0_f64;
    for k in k_min..=k_max {
        let f = k as f64 * fs / n_f;
        let w = wk_gain(f);
        if w == 0.0 {
            continue;
        }
        let omega = 2.0 * PI * k as f64 / n_f;
        let coeff = 2.0 * omega.cos();
        let (mut s_prev, mut s_prev2) = (0.0_f64, 0.0_f64);
        for &a in acc.iter() {
            let s = a + coeff * s_prev - s_prev2;
            s_prev2 = s_prev;
            s_prev = s;
        }
        let re = s_prev - s_prev2 * omega.cos();
        let im = s_prev2 * omega.sin();
        let power = 2.0 * (re * re + im * im) / (n_f * n_f);
        weighted_energy += w * w * power;
    }
    weighted_energy.sqrt()
}

/// Full simulation output for one (k, c, road) run.
#[derive(Debug, Clone)]
struct SimulationResult {
    zeta: f64,
    mass_ratio: f64,
    recommended_mu: f64,
    time: Vec<f64>,
    body_user: Vec<f64>,
    wheel_user: Vec<f64>,
    rms_body_acc: f64,
    rms_tire_force: f64,
    max_suspension_travel: f64,
    iso2631_weighted_rms: f64,
}

/// State derivatives of the two-mass model (case: floating point).
fn derivatives(
    x1: f64, x2: f64, x3: f64, x4: f64,
    ms: f64, mu: f64, k: f64, c: f64, kt: f64, r: f64,
) -> (f64, f64, f64, f64) {
    let dx1 = x2;
    let dx2 = (-c * (x2 - x4) - k * (x1 - x3)) / ms;
    let dx3 = x4;
    let dx4 = (c * (x2 - x4) + k * (x1 - x3) - kt * (x3 - r)) / mu;
    (dx1, dx2, dx3, dx4)
}

/// RK4 simulation of the quarter-car over 5 s (case: floating point).
fn run_simulation(ms: f64, mu: f64, k: f64, c: f64, kt: f64, profile: &RoadProfile) -> SimulationResult {
    let dt = DT;
    let n_steps = N_STEPS;
    let road = precompute(profile, dt, n_steps);
    let (mut x1, mut x2, mut x3, mut x4) = (0.0_f64, 0.0_f64, 0.0_f64, 0.0_f64);
    let mut time_vec = Vec::with_capacity(n_steps);
    let mut body_vec = Vec::with_capacity(n_steps);
    let mut wheel_vec = Vec::with_capacity(n_steps);
    let mut acc_vec = Vec::with_capacity(n_steps);
    let mut sum_acc_sq: f64 = 0.0;
    let mut sum_tire_sq: f64 = 0.0;
    let mut max_travel: f64 = 0.0;
    for step in 0..n_steps {
        let t = step as f64 * dt;
        let r = road[step];
        time_vec.push(t);
        body_vec.push(x1);
        wheel_vec.push(x3);
        let a_s = (-c * (x2 - x4) - k * (x1 - x3)) / ms;
        acc_vec.push(a_s);
        sum_acc_sq += a_s * a_s;
        let f_t = kt * (x3 - r);
        sum_tire_sq += f_t * f_t;
        let travel = (x1 - x3).abs();
        if travel > max_travel {
            max_travel = travel;
        }
        if step < n_steps - 1 {
            let r_mid = (r + road[step + 1]) / 2.0;
            let r_next = road[step + 1];
            let (k1_1, k1_2, k1_3, k1_4) = derivatives(x1, x2, x3, x4, ms, mu, k, c, kt, r);
            let (k2_1, k2_2, k2_3, k2_4) = derivatives(
                x1 + dt * k1_1 / 2.0, x2 + dt * k1_2 / 2.0,
                x3 + dt * k1_3 / 2.0, x4 + dt * k1_4 / 2.0,
                ms, mu, k, c, kt, r_mid);
            let (k3_1, k3_2, k3_3, k3_4) = derivatives(
                x1 + dt * k2_1 / 2.0, x2 + dt * k2_2 / 2.0,
                x3 + dt * k2_3 / 2.0, x4 + dt * k2_4 / 2.0,
                ms, mu, k, c, kt, r_mid);
            let (k4_1, k4_2, k4_3, k4_4) = derivatives(
                x1 + dt * k3_1, x2 + dt * k3_2,
                x3 + dt * k3_3, x4 + dt * k3_4,
                ms, mu, k, c, kt, r_next);
            x1 += dt / 6.0 * (k1_1 + 2.0 * k2_1 + 2.0 * k3_1 + k4_1);
            x2 += dt / 6.0 * (k1_2 + 2.0 * k2_2 + 2.0 * k3_2 + k4_2);
            x3 += dt / 6.0 * (k1_3 + 2.0 * k2_3 + 2.0 * k3_3 + k4_3);
            x4 += dt / 6.0 * (k1_4 + 2.0 * k2_4 + 2.0 * k3_4 + k4_4);
        }
    }
    let n_f = n_steps as f64;
    SimulationResult {
        zeta: c / (2.0 * (k * ms).sqrt()),
        mass_ratio: mu / ms,
        recommended_mu: 0.12 * ms,
        time: time_vec,
        body_user: body_vec,
        wheel_user: wheel_vec,
        rms_body_acc: (sum_acc_sq / n_f).sqrt(),
        rms_tire_force: (sum_tire_sq / n_f).sqrt(),
        max_suspension_travel: max_travel,
        iso2631_weighted_rms: iso2631_weighted_rms(&acc_vec, dt),
    }
}


fn parameter_sweep(
    ms: f64, mu: f64, kt: f64,
    k_values: &[f64], c_values: &[f64],
    profile: &RoadProfile,
) -> Vec<ParetoPoint> {
    let k_bits: Vec<u64> = k_values.iter().map(|v| v.to_bits()).collect();
    let c_bits: Vec<u64> = c_values.iter().map(|v| v.to_bits()).collect();
    let mut results = Vec::new();
    for (k, c) in sweep_grid(&k_bits, &c_bits) {
        let r = run_simulation(ms, mu, f64::from_bits(k), f64::from_bits(c), kt, profile);
        results.push(ParetoPoint {
            k,
            c,
            zeta: r.zeta.to_bits(),
            rms_body_acc: r.rms_body_acc.to_bits(),
            rms_tire_force: r.rms_tire_force.to_bits(),
            max_suspension_travel: r.max_suspension_travel.to_bits(),
            iso2631_weighted_rms: r.iso2631_weighted_rms.to_bits(),
        });
    }
    results
}

fn linspace(start: f64, end: f64, n: usize) -> Vec<f64> {
    if n == 1 {
        return vec![start];
    }
    (0..n).map(|i| start + (end - start) * i as f64 / (n - 1) as f64).collect()
}

fn params() -> (f64, f64, f64, f64, f64) {
    let ms = 290.0;
    let mu = 40.0;
    let k = 22_000.0;
    let kt = 190_000.0;
    let c = 1_500.0;
    (ms, mu, k, c, kt)
}

fn step_road() -> RoadProfile {
    RoadProfile::Step { height: 0.05f64.to_bits() }
}

fn f(bits: u64) -> f64 {
    f64::from_bits(bits)
}

#[test]
fn pareto_front_subset_of_sweep() {
    let (ms, mu, k, c, kt) = params();
    let k_vals = linspace(k * 0.7, k * 1.3, 5);
    let c_vals = linspace(c * 0.5, c * 2.0, 5);
    let profile = step_road();

    let all = parameter_sweep(ms, mu, kt, &k_vals, &c_vals, &profile);
    let pareto = extract_pareto_front(&all);

    assert!(!pareto.is_empty());
    assert!(pareto.len() <= all.len());
}

#[test]
fn pareto_points_not_dominated() {
    let (ms, mu, k, c, kt) = params();
    let k_vals = linspace(k * 0.7, k * 1.3, 6);
    let c_vals = linspace(c * 0.5, c * 2.0, 6);
    let profile = step_road();
    let all = parameter_sweep(ms, mu, kt, &k_vals, &c_vals, &profile);
    let pareto = extract_pareto_front(&all);

    for p in &pareto {
        for q in &pareto {
            let q_dominates_p =
                f(q.iso2631_weighted_rms) <= f(p.iso2631_weighted_rms) &&
                    f(q.rms_tire_force) <= f(p.rms_tire_force) &&
                    f(q.max_suspension_travel) <= f(p.max_suspension_travel) &&
                    (f(q.iso2631_weighted_rms) < f(p.iso2631_weighted_rms) ||
                        f(q.rms_tire_force) < f(p.rms_tire_force) ||
                        f(q.max_suspension_travel) < f(p.max_suspension_travel));
            assert!(!q_dominates_p,
                    "Pareto point (k={}, c={}) is dominated — front extraction bug",
                    f(p.k), f(p.c));
        }
    }
}

#[test]
fn sweep_front_matches_float_filter() {
    let (ms, mu, k, c, kt) = params();
    let k_vals = linspace(k * 0.7, k * 1.3, 4);
    let c_vals = linspace(c * 0.5, c * 2.0, 4);
    let all = parameter_sweep(ms, mu, kt, &k_vals, &c_vals, &step_road());
    assert_eq!(all.len(), 16);
    // k outer, c inner
    assert_eq!(f(all[5].k), k_vals[1]);
    assert_eq!(f(all[5].c), c_vals[1]);
    let expected: Vec<(u64, u64)> = all
        .iter()
        .filter(|cand| {
            !all.iter().any(|o| {
                f(o.iso2631_weighted_rms) <= f(cand.iso2631_weighted_rms)
                    && f(o.rms_tire_force) <= f(cand.rms_tire_force)
                    && f(o.max_suspension_travel) <= f(cand.max_suspension_travel)
                    && (f(o.iso2631_weighted_rms) < f(cand.iso2631_weighted_rms)
                        || f(o.rms_tire_force) < f(cand.rms_tire_force)
                        || f(o.max_suspension_travel) < f(cand.max_suspension_travel))
            })
        })
        .map(|p| (p.k, p.c))
        .collect();
    let got: Vec<(u64, u64)> = extract_pareto_front(&all).iter().map(|p| (p.k, p.c)).collect();
    assert_eq!(got, expected);
}
