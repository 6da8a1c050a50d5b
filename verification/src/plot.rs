//! What the plot of a curve has to show.

use crate::scalar::{Scalar, MAX_BITS, ZERO_BITS};
use crate::types::Point;
use vstd::prelude::*;

verus! {

/// Whether a point lies in a range of input speeds. A point whose `x` cannot
/// be compared is not outside.
pub open spec fn within(point: Point, from: Scalar, upto: Scalar) -> bool {
    !point.x.lt(from) && !upto.lt(point.x)
}

/// The least and the greatest `y` seen so far, after one more point.
pub open spec fn extend(seen: (Scalar, Scalar), point: Point, from: Scalar, upto: Scalar) -> (
    Scalar,
    Scalar,
) {
    if within(point, from, upto) {
        (
            if point.y.lt(seen.0) {
                point.y
            } else {
                seen.0
            },
            if seen.1.lt(point.y) {
                point.y
            } else {
                seen.1
            },
        )
    } else {
        seen
    }
}

/// The least and the greatest `y` among the points of a range. The search
/// for the least starts at the largest finite value, the search for the
/// greatest at zero, and that is what comes out where no point is in range.
pub open spec fn extent(points: Seq<Point>, from: Scalar, upto: Scalar) -> (Scalar, Scalar)
    decreases points.len(),
{
    if points.len() == 0 {
        (Scalar { bits: MAX_BITS }, Scalar { bits: ZERO_BITS })
    } else {
        extend(extent(points.drop_last(), from, upto), points.last(), from, upto)
    }
}

/// No point of the range lies below the least or above the greatest `y` of
/// the extent, and neither end is not a number.
pub proof fn lemma_extent_bounds(points: Seq<Point>, from: Scalar, upto: Scalar)
    ensures
        !extent(points, from, upto).0.is_nan(),
        !extent(points, from, upto).1.is_nan(),
        forall|i: int|
            0 <= i < points.len() && within(#[trigger] points[i], from, upto) ==> {
                &&& !points[i].y.lt(extent(points, from, upto).0)
                &&& !extent(points, from, upto).1.lt(points[i].y)
            },
    decreases points.len(),
{
    if points.len() > 0 {
        let rest = points.drop_last();
        lemma_extent_bounds(rest, from, upto);
        assert forall|i: int|
            0 <= i < points.len() && within(#[trigger] points[i], from, upto) implies {
            &&& !points[i].y.lt(extent(points, from, upto).0)
            &&& !extent(points, from, upto).1.lt(points[i].y)
        } by {
            if i < points.len() - 1 {
                assert(rest[i] == points[i]);
            }
        }
    }
}

/// Each end of the extent is the `y` of a point of the range, unless it is
/// still where the search started.
pub proof fn lemma_extent_attained(points: Seq<Point>, from: Scalar, upto: Scalar)
    ensures
        extent(points, from, upto).0.bits == MAX_BITS || exists|i: int|
            0 <= i < points.len() && within(#[trigger] points[i], from, upto) && points[i].y
                == extent(points, from, upto).0,
        extent(points, from, upto).1.bits == ZERO_BITS || exists|i: int|
            0 <= i < points.len() && within(#[trigger] points[i], from, upto) && points[i].y
                == extent(points, from, upto).1,
    decreases points.len(),
{
    if points.len() > 0 {
        let rest = points.drop_last();
        let last = points.len() - 1;
        lemma_extent_attained(rest, from, upto);
        let before = extent(rest, from, upto);
        let after = extent(points, from, upto);
        if after.0.bits != MAX_BITS {
            if after.0 == before.0 {
                let i = choose|i: int|
                    0 <= i < rest.len() && within(#[trigger] rest[i], from, upto) && rest[i].y
                        == before.0;
                assert(points[i] == rest[i]);
            } else {
                assert(within(points[last], from, upto) && points[last].y == after.0);
            }
        }
        if after.1.bits != ZERO_BITS {
            if after.1 == before.1 {
                let i = choose|i: int|
                    0 <= i < rest.len() && within(#[trigger] rest[i], from, upto) && rest[i].y
                        == before.1;
                assert(points[i] == rest[i]);
            } else {
                assert(within(points[last], from, upto) && points[last].y == after.1);
            }
        }
    }
}

/// The least and the greatest `y` among the points of a range.
pub fn y_extent(points: &Vec<Point>, from: Scalar, upto: Scalar) -> (r: (Scalar, Scalar))
    ensures
        r == extent(points@, from, upto),
{
    let mut least: Scalar = Scalar::from_bits(MAX_BITS);
    let mut greatest: Scalar = Scalar::from_bits(ZERO_BITS);
    let n: usize = points.len();
    let mut i: usize = 0;
    while i < n
        invariant
            n == points.len(),
            i <= n,
            (least, greatest) == extent(points@.take(i as int), from, upto),
        decreases n - i,
    {
        let point: Point = points[i];
        proof {
            assert(points@.take(i + 1).drop_last() =~= points@.take(i as int));
            assert(points@.take(i + 1).last() == point);
        }
        if !(point.x.is_less_than(&from) || upto.is_less_than(&point.x)) {
            if point.y.is_less_than(&least) {
                least = point.y;
            }
            if greatest.is_less_than(&point.y) {
                greatest = point.y;
            }
        }
        i = i + 1;
    }
    assert(points@.take(n as int) =~= points@);
    (least, greatest)
}

} // verus!
