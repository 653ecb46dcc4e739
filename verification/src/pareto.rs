//! Pareto-front extraction over the results of a spring/damper sweep.
//!
//! Three objectives are minimised: ISO 2631 weighted RMS acceleration (ride
//! comfort), RMS tyre force (road holding) and maximum suspension travel
//! (packaging).  A point is kept when no point of the sweep dominates it:
//! `<=` on all three objectives and `<` on at least one, with binary64
//! comparison semantics (see `ieee`).

use vstd::prelude::*;
use crate::ieee::{float_le, float_lt, is_nan, order_key, le, lt};

verus! {

/// One grid point of a parameter sweep with its metrics.  Every field holds
/// the bit pattern of a binary64 value.
#[derive(Clone, Copy, Debug)]
pub struct ParetoPoint {
    /// Spring rate [N/m].
    pub k: u64,
    /// Damping coefficient [N·s/m].
    pub c: u64,
    /// Damping ratio.
    pub zeta: u64,
    /// RMS body acceleration [m/s²].
    pub rms_body_acc: u64,
    /// RMS tyre force [N].
    pub rms_tire_force: u64,
    /// Maximum absolute suspension travel [m].
    pub max_suspension_travel: u64,
    /// ISO 2631-1 frequency-weighted RMS acceleration [m/s²].
    pub iso2631_weighted_rms: u64,
}

/// `other` is at least as good as `candidate` on every objective and
/// strictly better on one.
pub open spec fn dominates(other: ParetoPoint, candidate: ParetoPoint) -> bool {
    &&& float_le(other.iso2631_weighted_rms, candidate.iso2631_weighted_rms)
    &&& float_le(other.rms_tire_force, candidate.rms_tire_force)
    &&& float_le(other.max_suspension_travel, candidate.max_suspension_travel)
    &&& (float_lt(other.iso2631_weighted_rms, candidate.iso2631_weighted_rms)
        || float_lt(other.rms_tire_force, candidate.rms_tire_force)
        || float_lt(other.max_suspension_travel, candidate.max_suspension_travel))
}

/// Some point of `points` dominates `candidate`.
pub open spec fn dominated_in(points: Seq<ParetoPoint>, candidate: ParetoPoint) -> bool {
    exists|j: int| 0 <= j < points.len() && #[trigger] dominates(points[j], candidate)
}

/// The predicate that keeps a point: nothing in `points` dominates it.
pub open spec fn undominated_in(points: Seq<ParetoPoint>) -> spec_fn(ParetoPoint) -> bool {
    |p: ParetoPoint| !dominated_in(points, p)
}

/// The Pareto front of `points`: the undominated points, in sweep order.
pub open spec fn pareto_front(points: Seq<ParetoPoint>) -> Seq<ParetoPoint> {
    points.filter(undominated_in(points))
}

/// Whether `other` dominates `candidate`.
pub fn check_dominates(other: &ParetoPoint, candidate: &ParetoPoint) -> (r: bool)
    ensures
        r == dominates(*other, *candidate),
{
    le(other.iso2631_weighted_rms, candidate.iso2631_weighted_rms)
        && le(other.rms_tire_force, candidate.rms_tire_force)
        && le(other.max_suspension_travel, candidate.max_suspension_travel)
        && (lt(other.iso2631_weighted_rms, candidate.iso2631_weighted_rms)
            || lt(other.rms_tire_force, candidate.rms_tire_force)
            || lt(other.max_suspension_travel, candidate.max_suspension_travel))
}

/// Whether some point of `points` dominates `candidate`.
fn is_dominated(points: &[ParetoPoint], candidate: &ParetoPoint) -> (r: bool)
    ensures
        r == dominated_in(points@, *candidate),
{
    let n = points.len();
    for j in 0..n
        invariant
            n == points@.len(),
            forall|m: int| 0 <= m < j ==> !dominates(#[trigger] points@[m], *candidate),
    {
        if check_dominates(&points[j], candidate) {
            return true;
        }
    }
    false
}

/// Extract the Pareto-optimal subset of a sweep: every point that no point
/// of the sweep dominates, in the order of the sweep.
pub fn extract_pareto_front(points: &[ParetoPoint]) -> (front: Vec<ParetoPoint>)
    ensures
        front@ == pareto_front(points@),
{
    let n = points.len();
    let ghost keep = undominated_in(points@);
    let mut front: Vec<ParetoPoint> = Vec::new();
    for i in 0..n
        invariant
            n == points@.len(),
            keep == undominated_in(points@),
            front@ == points@.take(i as int).filter(keep),
    {
        let candidate = points[i];
        let dominated = is_dominated(points, &candidate);
        proof {
            assert(points@.take(i + 1) =~= points@.take(i as int).push(candidate));
            points@.take(i as int).lemma_filter_push(candidate, keep);
        }
        if !dominated {
            front.push(candidate);
        }
    }
    proof {
        assert(points@.take(n as int) =~= points@);
    }
    front
}

// ---------------------------------------------------------------------------
// Laws
// ---------------------------------------------------------------------------

/// Dominance is a strict partial order: no point dominates itself, it is
/// transitive, and two points never dominate each other.
pub proof fn lemma_dominance_strict_order(a: ParetoPoint, b: ParetoPoint, c: ParetoPoint)
    ensures
        !dominates(a, a),
        dominates(a, b) && dominates(b, c) ==> dominates(a, c),
        dominates(a, b) ==> !dominates(b, a),
{
}

/// The sum of the order keys of the three objectives.
spec fn score(p: ParetoPoint) -> int {
    order_key(p.iso2631_weighted_rms) + order_key(p.rms_tire_force) + order_key(
        p.max_suspension_travel,
    )
}

proof fn lemma_dominance_lowers_score(other: ParetoPoint, candidate: ParetoPoint)
    requires
        dominates(other, candidate),
    ensures
        score(other) < score(candidate),
{
}

proof fn lemma_min_score_exists(points: Seq<ParetoPoint>) -> (m: int)
    requires
        points.len() > 0,
    ensures
        0 <= m < points.len(),
        forall|j: int| 0 <= j < points.len() ==> score(points[m]) <= score(#[trigger] points[j]),
    decreases points.len(),
{
    if points.len() == 1 {
        0
    } else {
        let rest = points.drop_last();
        let m0 = lemma_min_score_exists(rest);
        assert(forall|j: int| 0 <= j < rest.len() ==> rest[j] == points[j]);
        let last = points.len() - 1;
        if score(points[last]) < score(points[m0]) {
            last
        } else {
            m0
        }
    }
}

proof fn lemma_filter_keeps_all<A>(s: Seq<A>, pred: spec_fn(A) -> bool)
    requires
        forall|i: int| 0 <= i < s.len() ==> pred(#[trigger] s[i]),
    ensures
        s.filter(pred) == s,
    decreases s.len(),
{
    reveal(Seq::filter);
    if s.len() > 0 {
        let rest = s.drop_last();
        assert(forall|i: int| 0 <= i < rest.len() ==> rest[i] == s[i]);
        lemma_filter_keeps_all(rest, pred);
        assert(pred(s[s.len() - 1]));
        assert(rest.push(s.last()) =~= s);
    }
}

/// Every point of the front is a point of the sweep, and the front is no
/// longer than the sweep.
pub proof fn lemma_front_within_sweep(points: Seq<ParetoPoint>)
    ensures
        pareto_front(points).len() <= points.len(),
        forall|i: int|
            0 <= i < pareto_front(points).len() ==> points.contains(
                #[trigger] pareto_front(points)[i],
            ),
{
    broadcast use vstd::seq_lib::group_filter_ensures;

    let keep = undominated_in(points);
    let front = points.filter(keep);
    assert forall|i: int| 0 <= i < front.len() implies points.contains(#[trigger] front[i]) by {
        assert(front.contains(front[i]));
        points.lemma_filter_contains_rev(keep, front[i]);
    }
}

/// No point of the sweep (in particular, no other point of the front)
/// dominates a point of the front.
pub proof fn lemma_front_not_dominated(points: Seq<ParetoPoint>)
    ensures
        forall|i: int, j: int|
            0 <= i < pareto_front(points).len() && 0 <= j < points.len() ==> !dominates(
                #[trigger] points[j],
                #[trigger] pareto_front(points)[i],
            ),
        forall|i: int, j: int|
            0 <= i < pareto_front(points).len() && 0 <= j < pareto_front(points).len()
                ==> !dominates(
                #[trigger] pareto_front(points)[j],
                #[trigger] pareto_front(points)[i],
            ),
{
    broadcast use vstd::seq_lib::group_filter_ensures;

    let keep = undominated_in(points);
    let front = points.filter(keep);
    assert forall|i: int, j: int|
        0 <= i < front.len() && 0 <= j < points.len() implies !dominates(
        #[trigger] points[j],
        #[trigger] front[i],
    ) by {
        assert(keep(front[i]));
    }
    lemma_front_within_sweep(points);
    assert forall|i: int, j: int|
        0 <= i < front.len() && 0 <= j < front.len() implies !dominates(
        #[trigger] front[j],
        #[trigger] front[i],
    ) by {
        assert(points.contains(front[j]));
        let k = choose|k: int| 0 <= k < points.len() && points[k] == front[j];
        assert(keep(front[i]));
        assert(!dominates(points[k], front[i]));
    }
}

/// Every point of the sweep that nothing dominates is on the front.
pub proof fn lemma_front_keeps_undominated(points: Seq<ParetoPoint>)
    ensures
        forall|i: int|
            0 <= i < points.len() && !dominated_in(points, #[trigger] points[i])
                ==> pareto_front(points).contains(points[i]),
{
    broadcast use vstd::seq_lib::group_filter_ensures;

    let keep = undominated_in(points);
    assert forall|i: int|
        0 <= i < points.len() && !dominated_in(points, #[trigger] points[i]) implies points.filter(
        keep,
    ).contains(points[i]) by {
        assert(keep(points[i]));
    }
}

/// A non-empty sweep has a non-empty front.
pub proof fn lemma_front_nonempty(points: Seq<ParetoPoint>)
    requires
        points.len() > 0,
    ensures
        pareto_front(points).len() > 0,
{
    broadcast use vstd::seq_lib::group_filter_ensures;

    let m = lemma_min_score_exists(points);
    assert(!dominated_in(points, points[m])) by {
        if dominated_in(points, points[m]) {
            let j = choose|j: int| 0 <= j < points.len() && #[trigger] dominates(points[j], points[m]);
            lemma_dominance_lowers_score(points[j], points[m]);
            assert(score(points[m]) <= score(points[j]));
        }
    }
    let keep = undominated_in(points);
    assert(keep(points[m]));
    assert(points.filter(keep).contains(points[m]));
}

/// Extracting the front of a front changes nothing.
pub proof fn lemma_front_idempotent(points: Seq<ParetoPoint>)
    ensures
        pareto_front(pareto_front(points)) == pareto_front(points),
{
    let front = pareto_front(points);
    lemma_front_not_dominated(points);
    assert forall|i: int| 0 <= i < front.len() implies #[trigger] undominated_in(front)(front[i]) by {
        if dominated_in(front, front[i]) {
            let j = choose|j: int| 0 <= j < front.len() && #[trigger] dominates(front[j], front[i]);
            assert(!dominates(front[j], front[i]));
        }
    }
    lemma_filter_keeps_all(front, undominated_in(front));
}

/// A point with a NaN objective is never dominated and dominates nothing.
pub proof fn lemma_nan_point_incomparable(p: ParetoPoint, q: ParetoPoint)
    requires
        is_nan(p.iso2631_weighted_rms) || is_nan(p.rms_tire_force) || is_nan(
            p.max_suspension_travel,
        ),
    ensures
        !dominates(p, q),
        !dominates(q, p),
{
}

/// What dominance means: being `<=` on all three objectives and `<` on one
/// of them dominates; being worse (`>`) on any objective, or equal on all
/// three, does not; and the damping, spring rate, body acceleration and
/// ratio play no part.
pub proof fn lemma_dominance_meaning(o: ParetoPoint, c: ParetoPoint)
    ensures
        float_le(o.iso2631_weighted_rms, c.iso2631_weighted_rms) && float_le(
            o.rms_tire_force,
            c.rms_tire_force,
        ) && float_le(o.max_suspension_travel, c.max_suspension_travel) && float_lt(
            o.iso2631_weighted_rms,
            c.iso2631_weighted_rms,
        ) ==> dominates(o, c),
        float_le(o.iso2631_weighted_rms, c.iso2631_weighted_rms) && float_le(
            o.rms_tire_force,
            c.rms_tire_force,
        ) && float_le(o.max_suspension_travel, c.max_suspension_travel) && float_lt(
            o.rms_tire_force,
            c.rms_tire_force,
        ) ==> dominates(o, c),
        float_le(o.iso2631_weighted_rms, c.iso2631_weighted_rms) && float_le(
            o.rms_tire_force,
            c.rms_tire_force,
        ) && float_le(o.max_suspension_travel, c.max_suspension_travel) && float_lt(
            o.max_suspension_travel,
            c.max_suspension_travel,
        ) ==> dominates(o, c),
        float_lt(c.iso2631_weighted_rms, o.iso2631_weighted_rms) ==> !dominates(o, c),
        float_lt(c.rms_tire_force, o.rms_tire_force) ==> !dominates(o, c),
        float_lt(c.max_suspension_travel, o.max_suspension_travel) ==> !dominates(o, c),
        o.iso2631_weighted_rms == c.iso2631_weighted_rms && o.rms_tire_force == c.rms_tire_force
            && o.max_suspension_travel == c.max_suspension_travel ==> !dominates(o, c),
        dominates(o, c) == dominates(
            ParetoPoint { k: 0, c: 0, zeta: 0, rms_body_acc: 0, ..o },
            ParetoPoint { k: 1, c: 1, zeta: 1, rms_body_acc: 1, ..c },
        ),
{
}

} // verus!
