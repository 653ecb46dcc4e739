//! The Pareto filter on hand-made points.

use suspension_core::pareto::{check_dominates, extract_pareto_front, ParetoPoint};

fn point(id: f64, iso: f64, tire: f64, travel: f64) -> ParetoPoint {
    ParetoPoint {
        k: id.to_bits(),
        c: 0.0f64.to_bits(),
        zeta: 0.0f64.to_bits(),
        rms_body_acc: 0.0f64.to_bits(),
        rms_tire_force: tire.to_bits(),
        max_suspension_travel: travel.to_bits(),
        iso2631_weighted_rms: iso.to_bits(),
    }
}

fn ids(points: &[ParetoPoint]) -> Vec<f64> {
    points.iter().map(|p| f64::from_bits(p.k)).collect()
}

#[test]
fn empty_sweep_has_empty_front() {
    assert!(extract_pareto_front(&[]).is_empty());
}

#[test]
fn dominated_points_are_dropped_in_order() {
    let pts = vec![
        point(1.0, 1.0, 1.0, 1.0),
        point(2.0, 2.0, 2.0, 2.0), // dominated by 1
        point(3.0, 0.5, 3.0, 1.0), // trade-off
        point(4.0, 1.0, 1.0, 1.0), // equal to 1: not dominated
        point(5.0, 1.0, 1.0, 1.5), // dominated by 1 (travel)
    ];
    assert_eq!(ids(&extract_pareto_front(&pts)), vec![1.0, 3.0, 4.0]);
}

#[test]
fn dominance_needs_one_strict_improvement() {
    let a = point(1.0, 1.0, 1.0, 1.0);
    let b = point(2.0, 1.0, 1.0, 1.0);
    let c = point(3.0, 1.0, 0.9, 1.0);
    assert!(!check_dominates(&a, &b));
    assert!(!check_dominates(&a, &a));
    assert!(check_dominates(&c, &a));
    assert!(!check_dominates(&a, &c));
}

#[test]
fn nan_points_stay_on_the_front() {
    let pts = vec![
        point(1.0, f64::NAN, 1.0, 1.0),
        point(2.0, 0.1, 0.1, 0.1),
        point(3.0, 0.2, 0.2, 0.2),
    ];
    assert_eq!(ids(&extract_pareto_front(&pts)), vec![1.0, 2.0]);
}

#[test]
fn front_of_front_is_the_front() {
    let pts = vec![
        point(1.0, 3.0, 1.0, 2.0),
        point(2.0, 1.0, 3.0, 2.0),
        point(3.0, 2.0, 2.0, 2.0),
        point(4.0, 3.0, 3.0, 3.0),
        point(5.0, 2.0, 2.0, 1.0),
    ];
    let front = extract_pareto_front(&pts);
    assert_eq!(ids(&front), vec![1.0, 2.0, 5.0]);
    assert_eq!(ids(&extract_pareto_front(&front)), ids(&front));
}

#[test]
fn negative_zero_ties_with_zero() {
    let pts = vec![point(1.0, 0.0, 1.0, 1.0), point(2.0, -0.0, 1.0, 1.0)];
    assert_eq!(ids(&extract_pareto_front(&pts)), vec![1.0, 2.0]);
}
