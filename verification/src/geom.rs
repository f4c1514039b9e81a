//! Points in screen space, their validity bound, and point picking.

use vstd::prelude::*;

verus! {

/// Largest coordinate a point may carry.  The bound is chosen so that the
/// corner-cutting blend `(3 * a + b) / 4` never overflows a `u64`.
pub const COORD_LIMIT: u64 = 0x3FFF_FFFF_FFFF_FFFF;

/// A point in screen space.  A value type: no identity beyond position.
#[derive(Clone, Copy, PartialEq, Eq, Structural, Debug)]
pub struct Point {
    pub x: u64,
    pub y: u64,
}

/// Both coordinates fit under the overflow bound.
pub open spec fn valid_point(p: Point) -> bool {
    p.x <= COORD_LIMIT && p.y <= COORD_LIMIT
}

/// Every point of the sequence is valid.
pub open spec fn valid_points(s: Seq<Point>) -> bool {
    forall|i: int| 0 <= i < s.len() ==> valid_point(#[trigger] s[i])
}

/// Squared Euclidean distance between two points.
pub open spec fn dist2(a: Point, b: Point) -> int {
    (a.x - b.x) * (a.x - b.x) + (a.y - b.y) * (a.y - b.y)
}

/// A fresh vector holding the same points.
pub fn copy_points(src: &Vec<Point>) -> (r: Vec<Point>)
    ensures
        r@ == src@,
{
    let mut r: Vec<Point> = Vec::new();
    let mut i: usize = 0;
    while i < src.len()
        invariant
            i <= src@.len(),
            r@ == src@.subrange(0, i as int),
        decreases src@.len() - i,
    {
        r.push(src[i]);
        assert(r@ =~= src@.subrange(0, i + 1 as int));
        i = i + 1;
    }
    assert(r@ =~= src@);
    r
}

/// The index of the control point nearest to `target`, among those within
/// `max_dist` of it; `None` when every point is farther away.  Ties go to
/// the highest index, as repeated picks at the same spot grab the point
/// added last.
pub fn closest_point_index(points: &Vec<Point>, target: Point, max_dist: u64) -> (r: Option<
    usize,
>)
    requires
        valid_points(points@),
        valid_point(target),
    ensures
        match r {
            Some(i) => {
                &&& i < points@.len()
                &&& dist2(points@[i as int], target) <= max_dist * max_dist
                &&& forall|j: int|
                    0 <= j < i ==> dist2(#[trigger] points@[j], target) >= dist2(
                        points@[i as int],
                        target,
                    )
                &&& forall|j: int|
                    i < j < points@.len() ==> dist2(#[trigger] points@[j], target) > dist2(
                        points@[i as int],
                        target,
                    )
            },
            None => forall|j: int|
                0 <= j < points@.len() ==> dist2(#[trigger] points@[j], target) > max_dist
                    * max_dist,
        },
{
    let mut best_i: Option<usize> = None;
    assert(max_dist * max_dist <= u128::MAX) by (nonlinear_arith)
        requires max_dist <= u64::MAX;
    let mut best_d2: u128 = (max_dist as u128) * (max_dist as u128);
    let mut i: usize = 0;
    while i < points.len()
        invariant
            valid_points(points@),
            valid_point(target),
            i <= points@.len(),
            best_i is None ==> best_d2 == max_dist * max_dist && forall|j: int|
                0 <= j < i ==> dist2(#[trigger] points@[j], target) > max_dist * max_dist,
            best_i matches Some(b) ==> {
                &&& b < i
                &&& best_d2 == dist2(points@[b as int], target)
                &&& best_d2 <= max_dist * max_dist
                &&& forall|j: int|
                    0 <= j < b ==> dist2(#[trigger] points@[j], target) >= best_d2
                &&& forall|j: int|
                    b < j < i ==> dist2(#[trigger] points@[j], target) > best_d2
            },
        decreases points@.len() - i,
    {
        let p = points[i];
        let dx: u64 = if p.x >= target.x {
            p.x - target.x
        } else {
            target.x - p.x
        };
        let dy: u64 = if p.y >= target.y {
            p.y - target.y
        } else {
            target.y - p.y
        };
        assert(dx * dx == (p.x - target.x) * (p.x - target.x) && dy * dy == (p.y - target.y) * (
        p.y - target.y)) by (nonlinear_arith)
            requires
                dx == if p.x >= target.x { p.x - target.x } else { target.x - p.x },
                dy == if p.y >= target.y { p.y - target.y } else { target.y - p.y },
        ;
        assert(dx * dx + dy * dy <= u128::MAX) by (nonlinear_arith)
            requires dx <= COORD_LIMIT && dy <= COORD_LIMIT;
        let d2: u128 = (dx as u128) * (dx as u128) + (dy as u128) * (dy as u128);
        assert(d2 == dist2(points@[i as int], target));
        if d2 <= best_d2 {
            best_d2 = d2;
            best_i = Some(i);
        }
        i = i + 1;
    }
    best_i
}

} // verus!
