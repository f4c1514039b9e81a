use chaikin::geom::{closest_point_index, Point};
use chaikin::refine::{build_steps, chaikin_algo};
use chaikin::MAX_STEPS;

fn pt(x: u64, y: u64) -> Point {
    Point { x, y }
}

#[test]
fn refine_is_identity_on_empty() {
    let points: Vec<Point> = vec![];
    assert_eq!(chaikin_algo(&points), points);
}

#[test]
fn refine_is_identity_on_one_point() {
    let points = vec![pt(5, 9)];
    assert_eq!(chaikin_algo(&points), points);
}

#[test]
fn refine_is_identity_on_two_points() {
    let points = vec![pt(0, 0), pt(10, 0)];
    assert_eq!(chaikin_algo(&points), points);
}

#[test]
fn refine_three_points_exact_values() {
    // A right angle, at 4 units per screen pixel: (0,0), (10,0), (10,10).
    let points = vec![pt(0, 0), pt(40, 0), pt(40, 40)];
    let refined = chaikin_algo(&points);
    // Endpoints kept; the corner is cut at 3/4 of the first edge and 1/4
    // of the second: (7.5, 0) and (10, 2.5) in pixels.
    assert_eq!(refined, vec![pt(0, 0), pt(30, 0), pt(40, 10), pt(40, 40)]);
}

#[test]
fn refine_length_and_endpoints() {
    let points = vec![pt(0, 0), pt(100, 0), pt(100, 100), pt(0, 100), pt(0, 200)];
    let refined = chaikin_algo(&points);
    assert_eq!(refined.len(), 2 * points.len() - 2);
    assert_eq!(refined[0], points[0]);
    assert_eq!(refined[refined.len() - 1], points[points.len() - 1]);
}

#[test]
fn ladder_has_max_steps_plus_one_levels() {
    let control = vec![pt(0, 0), pt(400, 0), pt(400, 400)];
    let steps = build_steps(&control);
    assert_eq!(steps.len(), MAX_STEPS + 1);
    let empty: Vec<Point> = vec![];
    let empty_steps = build_steps(&empty);
    assert_eq!(empty_steps.len(), MAX_STEPS + 1);
}

#[test]
fn ladder_level_zero_is_the_control_polygon() {
    let control = vec![pt(1, 2), pt(3, 4), pt(5, 6), pt(7, 8)];
    let steps = build_steps(&control);
    assert_eq!(steps[0], control);
}

#[test]
fn ladder_levels_compose_by_refinement() {
    let control = vec![pt(0, 0), pt(4096, 0), pt(4096, 4096), pt(0, 4096)];
    let steps = build_steps(&control);
    for k in 1..=MAX_STEPS {
        assert_eq!(steps[k], chaikin_algo(&steps[k - 1]));
    }
}

#[test]
fn ladder_collapses_below_three_points() {
    let control = vec![pt(3, 3), pt(9, 9)];
    let steps = build_steps(&control);
    for level in &steps {
        assert_eq!(*level, control);
    }
}

#[test]
fn picks_the_nearest_point_within_radius() {
    let points = vec![pt(0, 0), pt(100, 100), pt(10, 0)];
    assert_eq!(closest_point_index(&points, pt(12, 1), 5), Some(2));
}

#[test]
fn pick_ties_go_to_the_point_added_last() {
    let points = vec![pt(0, 0), pt(10, 0), pt(0, 0)];
    assert_eq!(closest_point_index(&points, pt(1, 0), 5), Some(2));
}

#[test]
fn pick_accepts_a_point_exactly_on_the_radius() {
    let points = vec![pt(3, 4)];
    assert_eq!(closest_point_index(&points, pt(0, 0), 5), Some(0));
}

#[test]
fn pick_declines_when_everything_is_out_of_reach() {
    let points = vec![pt(0, 0), pt(10, 0)];
    assert_eq!(closest_point_index(&points, pt(100, 100), 12), None);
    let empty: Vec<Point> = vec![];
    assert_eq!(closest_point_index(&empty, pt(0, 0), 12), None);
}
