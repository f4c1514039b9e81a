//! The refinement engine: one Chaikin corner-cutting pass, and the ladder
//! of successive passes that the animation steps through.
//!
//! A pass over `n >= 3` points keeps both endpoints and replaces each
//! interior corner with two cuts on its edges, at the fixed 1/4 - 3/4
//! split; the result has `2 * n - 2` points.  Below 3 points there is no
//! interior corner to cut and the pass is the identity.

use vstd::prelude::*;

use crate::geom::{copy_points, valid_point, valid_points, Point, COORD_LIMIT};
use crate::MAX_STEPS;

verus! {

/// The cut 1/4 of the way from `a` to `b` (coordinates blended
/// independently, rounding down).
pub open spec fn cut_q(a: Point, b: Point) -> Point {
    Point { x: ((3 * a.x + b.x) / 4) as u64, y: ((3 * a.y + b.y) / 4) as u64 }
}

/// The cut 3/4 of the way from `a` to `b`.
pub open spec fn cut_r(a: Point, b: Point) -> Point {
    Point { x: ((a.x + 3 * b.x) / 4) as u64, y: ((a.y + 3 * b.y) / 4) as u64 }
}

/// Element `j` of one corner-cutting pass over `s`, for `s.len() >= 3` and
/// `0 <= j < 2 * s.len() - 2`.  The first and last elements are the
/// endpoints of `s`; between them the far cut of edge `i` sits at `2*i + 1`
/// and the near cut of edge `i` at `2*i`.
pub open spec fn refined_at(s: Seq<Point>, j: int) -> Point {
    if j == 0 {
        s[0]
    } else if j == 2 * s.len() - 3 {
        s[s.len() - 1]
    } else if j % 2 == 1 {
        cut_r(s[(j - 1) / 2], s[(j - 1) / 2 + 1])
    } else {
        cut_q(s[j / 2], s[j / 2 + 1])
    }
}

/// One corner-cutting pass: the identity below 3 points, else the
/// `2 * s.len() - 2` points described by `refined_at`.
pub open spec fn refine_spec(s: Seq<Point>) -> Seq<Point> {
    if s.len() < 3 {
        s
    } else {
        Seq::new((2 * s.len() - 2) as nat, |j: int| refined_at(s, j))
    }
}

/// Cutting an edge between valid points yields valid points: the blend
/// `(3 * a + b) / 4` stays within the coordinate bound.
pub proof fn lemma_cut_valid(a: Point, b: Point)
    requires
        valid_point(a),
        valid_point(b),
    ensures
        valid_point(cut_q(a, b)),
        valid_point(cut_r(a, b)),
{
    assert(0 <= (3 * a.x + b.x) / 4 <= COORD_LIMIT) by (nonlinear_arith)
        requires a.x <= COORD_LIMIT && b.x <= COORD_LIMIT;
    assert(0 <= (3 * a.y + b.y) / 4 <= COORD_LIMIT) by (nonlinear_arith)
        requires a.y <= COORD_LIMIT && b.y <= COORD_LIMIT;
    assert(0 <= (a.x + 3 * b.x) / 4 <= COORD_LIMIT) by (nonlinear_arith)
        requires a.x <= COORD_LIMIT && b.x <= COORD_LIMIT;
    assert(0 <= (a.y + 3 * b.y) / 4 <= COORD_LIMIT) by (nonlinear_arith)
        requires a.y <= COORD_LIMIT && b.y <= COORD_LIMIT;
}

/// A pass keeps every point within the coordinate bound.
pub proof fn lemma_refine_valid(s: Seq<Point>)
    requires
        valid_points(s),
    ensures
        valid_points(refine_spec(s)),
{
    if s.len() >= 3 {
        let r = refine_spec(s);
        assert forall|j: int| 0 <= j < r.len() implies valid_point(#[trigger] r[j]) by {
            assert(r[j] == refined_at(s, j));
            if j == 0 {
            } else if j == 2 * s.len() - 3 {
            } else if j % 2 == 1 {
                let i = (j - 1) / 2;
                assert(0 <= i && i + 1 < s.len()) by (nonlinear_arith)
                    requires 1 <= j && j < 2 * s.len() - 3 && j % 2 == 1 && i == (j - 1) / 2;
                lemma_cut_valid(s[i], s[i + 1]);
            } else {
                let i = j / 2;
                assert(1 <= i && i + 1 < s.len()) by (nonlinear_arith)
                    requires 1 <= j && j < 2 * s.len() - 3 && j % 2 == 0 && i == j / 2;
                lemma_cut_valid(s[i], s[i + 1]);
            }
        }
    }
}

/// A pass is the identity on fewer than 3 points.
pub proof fn lemma_refine_short_identity(s: Seq<Point>)
    requires
        s.len() < 3,
    ensures
        refine_spec(s) == s,
{
}

/// A pass over `n >= 3` points yields exactly `2 * n - 2` points.
pub proof fn lemma_refine_len(s: Seq<Point>)
    requires
        s.len() >= 3,
    ensures
        refine_spec(s).len() == 2 * s.len() - 2,
{
}

/// A pass preserves both endpoints unchanged.
pub proof fn lemma_refine_endpoints(s: Seq<Point>)
    requires
        s.len() >= 3,
    ensures
        refine_spec(s)[0] == s[0],
        refine_spec(s)[refine_spec(s).len() - 1] == s[s.len() - 1],
{
}

/// One corner-cutting pass, executably: a fresh vector equal to
/// `refine_spec` of the input.
pub fn chaikin_algo(points: &Vec<Point>) -> (r: Vec<Point>)
    requires
        valid_points(points@),
    ensures
        r@ == refine_spec(points@),
        valid_points(r@),
        points@.len() < 3 ==> r@ == points@,
        points@.len() >= 3 ==> r@.len() == 2 * points@.len() - 2,
        points@.len() >= 3 ==> r@[0] == points@[0] && r@[r@.len() - 1] == points@[points@.len()
            - 1],
{
    proof {
        lemma_refine_valid(points@);
    }
    let n = points.len();
    if n < 3 {
        return copy_points(points);
    }
    let ghost target = refine_spec(points@);
    let mut out: Vec<Point> = Vec::new();
    out.push(points[0]);
    assert(out@ =~= target.subrange(0, 1));
    let mut i: usize = 0;
    while i < n - 1
        invariant
            3 <= n == points@.len(),
            valid_points(points@),
            target == refine_spec(points@),
            target.len() == 2 * n - 2,
            i <= n - 1,
            out@.len() == if i == 0 { 1int } else if i < n - 1 { 2 * i } else { 2 * n - 3 },
            out@ == target.subrange(0, out@.len() as int),
        decreases n - 1 - i,
    {
        let p0 = points[i];
        let p1 = points[i + 1];
        if i > 0 {
            let qx = (3 * p0.x + p1.x) / 4;
            let qy = (3 * p0.y + p1.y) / 4;
            assert(Point { x: qx, y: qy } == cut_q(points@[i as int], points@[i as int + 1]));
            assert(refined_at(points@, 2 * i) == cut_q(points@[i as int], points@[i as int + 1]))
                by (nonlinear_arith)
                requires
                    1 <= i < n - 1,
                    n == points@.len(),
                    n >= 3,
            ;
            out.push(Point { x: qx, y: qy });
            assert(out@ =~= target.subrange(0, out@.len() as int));
        }
        if i < n - 2 {
            let rx = (p0.x + 3 * p1.x) / 4;
            let ry = (p0.y + 3 * p1.y) / 4;
            assert(Point { x: rx, y: ry } == cut_r(points@[i as int], points@[i as int + 1]));
            assert(refined_at(points@, 2 * i + 1) == cut_r(
                points@[i as int],
                points@[i as int + 1],
            )) by (nonlinear_arith)
                requires
                    0 <= i < n - 2,
                    n == points@.len(),
                    n >= 3,
            ;
            out.push(Point { x: rx, y: ry });
            assert(out@ =~= target.subrange(0, out@.len() as int));
        }
        i = i + 1;
    }
    out.push(points[n - 1]);
    assert(out@ =~= target);
    out
}

/// Ladder level `k`: the corner-cutting pass applied `k` times to the
/// control polygon; level 0 is the control polygon itself.
pub open spec fn ladder_level(control: Seq<Point>, k: nat) -> Seq<Point>
    decreases k,
{
    if k == 0 {
        control
    } else {
        refine_spec(ladder_level(control, (k - 1) as nat))
    }
}

/// The refinement ladder: level 0 is a copy of `control`, and each later
/// level is one corner-cutting pass over the level before it, up to
/// `MAX_STEPS` passes.
pub fn build_steps(control: &Vec<Point>) -> (steps: Vec<Vec<Point>>)
    requires
        valid_points(control@),
    ensures
        steps@.len() == MAX_STEPS + 1,
        forall|k: int| 0 <= k <= MAX_STEPS ==> #[trigger] steps@[k]@ == ladder_level(
            control@,
            k as nat,
        ),
        steps@[0]@ == control@,
        forall|k: int| 1 <= k <= MAX_STEPS ==> #[trigger] steps@[k]@ == refine_spec(
            steps@[k - 1]@,
        ),
{
    let mut steps: Vec<Vec<Point>> = Vec::new();
    steps.push(copy_points(control));
    let mut cur: Vec<Point> = copy_points(control);
    let mut k: usize = 0;
    while k < MAX_STEPS
        invariant
            k <= MAX_STEPS,
            valid_points(control@),
            valid_points(cur@),
            cur@ == ladder_level(control@, k as nat),
            steps@.len() == k + 1,
            forall|j: int| 0 <= j <= k ==> #[trigger] steps@[j]@ == ladder_level(
                control@,
                j as nat,
            ),
        decreases MAX_STEPS - k,
    {
        cur = chaikin_algo(&cur);
        steps.push(copy_points(&cur));
        k = k + 1;
    }
    steps
}

} // verus!
