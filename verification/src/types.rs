//! The parameter bundle and the values that travel with it.

use crate::scalar::{lemma_less_than_transitive, Scalar, ONE_BITS};
use vstd::prelude::*;

verus! {

/// The curve families. `Linear` is `Classic` with its exponent fixed at two;
/// `Noaccel` is the identity curve.
#[derive(Clone, Copy, Debug, PartialEq, Eq, Structural)]
pub enum AccelMode {
    Linear,
    Classic,
    Jump,
    Natural,
    Synchronous,
    Power,
    Motivity,
    Lookup,
    Noaccel,
}

/// Which capping parameters a capped family reads.
#[derive(Clone, Copy, Debug, PartialEq, Eq, Structural)]
pub enum CapMode {
    InputOutput,
    Input,
    Output,
}

/// The domain in which output points are expressed.
#[derive(Clone, Copy, Debug, PartialEq, Eq, Structural)]
pub enum PointScaling {
    Sens,
    Velocity,
    Gain,
    Libinput,
    LibinputDebug,
    LookupVelocity,
    LookupSens,
}

/// One sample: input speed and output multiplier.
#[derive(Clone, Copy, Debug, PartialEq, Eq, Structural)]
pub struct Point {
    pub x: Scalar,
    pub y: Scalar,
}

impl Point {
    /// IEEE equality of both coordinates.
    pub open spec fn same(self, other: Point) -> bool {
        self.x.same(other.x) && self.y.same(other.y)
    }

    /// IEEE equality of both coordinates.
    pub fn is_same_as(&self, other: &Point) -> (r: bool)
        ensures
            r == self.same(*other),
    {
        self.x.is_same_as(&other.x) && self.y.is_same_as(&other.y)
    }
}

/// Whether the points' `x` strictly increase from each point to every later
/// one.
pub open spec fn strictly_increasing(points: Seq<Point>) -> bool {
    forall|i: int, j: int|
        0 <= i < j < points.len() ==> (#[trigger] points[i]).x.lt((#[trigger] points[j]).x)
}

/// Whether each point's `x` is below that of the point after it.
pub open spec fn stepwise_increasing(points: Seq<Point>) -> bool {
    forall|i: int| 0 <= i < points.len() - 1 ==> (#[trigger] points[i]).x.lt(points[i + 1].x)
}

/// Growing from each point to the next is the same as growing from each point
/// to every later one.
pub proof fn lemma_stepwise_is_strict(points: Seq<Point>)
    ensures
        stepwise_increasing(points) == strictly_increasing(points),
{
    if stepwise_increasing(points) {
        assert forall|i: int, j: int| 0 <= i < j < points.len() implies (#[trigger] points[i]).x.lt(
            (#[trigger] points[j]).x,
        ) by {
            lemma_stepwise_reaches(points, i, j);
        }
    }
}

proof fn lemma_stepwise_reaches(points: Seq<Point>, i: int, j: int)
    requires
        stepwise_increasing(points),
        0 <= i < j < points.len(),
    ensures
        points[i].x.lt(points[j].x),
    decreases j - i,
{
    if j > i + 1 {
        lemma_stepwise_reaches(points, i, j - 1);
        lemma_less_than_transitive(points[i].x, points[j - 1].x, points[j].x);
    }
}

/// Whether the points' `x` strictly increase.
pub fn is_strictly_increasing(points: &Vec<Point>) -> (r: bool)
    ensures
        r == strictly_increasing(points@),
{
    let n: usize = points.len();
    if n == 0 {
        return true;
    }
    let mut i: usize = 1;
    while i < n
        invariant
            n == points.len(),
            1 <= i <= n,
            stepwise_increasing(points@.take(i as int)),
        decreases n - i,
    {
        if !points[i - 1].x.is_less_than(&points[i].x) {
            proof {
                lemma_stepwise_is_strict(points@);
            }
            return false;
        }
        proof {
            let before = points@.take(i as int);
            let after = points@.take(i + 1);
            assert forall|k: int| 0 <= k < after.len() - 1 implies (#[trigger] after[k]).x.lt(
                after[k + 1].x,
            ) by {
                if k < i - 1 {
                    assert(before[k] == after[k]);
                }
            }
        }
        i = i + 1;
    }
    proof {
        lemma_stepwise_is_strict(points@);
        assert(points@.take(i as int) =~= points@);
    }
    true
}

/// A sampled curve: its points in order, and the spacing of the grid that
/// they were sampled on.
pub struct CurvegenResult {
    pub points: Vec<Point>,
    pub step_size: Scalar,
}

impl CurvegenResult {
    /// Whether the curve is in order: `x` strictly increases along it.
    pub open spec fn ordered(&self) -> bool {
        strictly_increasing(self.points@)
    }

    /// Whether nothing was sampled yet: no points, unit step.
    pub open spec fn is_blank(&self) -> bool {
        self.points@.len() == 0 && self.step_size.bits == ONE_BITS
    }

    /// The curve before anything was sampled.
    pub fn blank() -> (r: CurvegenResult)
        ensures
            r.is_blank(),
    {
        CurvegenResult { points: Vec::new(), step_size: Scalar::from_bits(ONE_BITS) }
    }

    /// Whether `x` strictly increases along the curve.
    pub fn is_ordered(&self) -> (r: bool)
        ensures
            r == self.ordered(),
    {
        is_strictly_increasing(&self.points)
    }
}

} // verus!
