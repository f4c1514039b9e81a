use chaikin::geom::Point;
use chaikin::session::Session;
use chaikin::{MAX_STEPS, STEP_DURATION_MS};

fn pt(x: u64, y: u64) -> Point {
    Point { x, y }
}

#[test]
fn single_point_stays_static_under_start() {
    let mut s = Session::new();
    s.add_point(pt(0, 0));
    s.start_animation();
    assert!(!s.is_animating());
    assert_eq!(s.display_sequence(), vec![pt(0, 0)]);
}

#[test]
fn two_points_stay_static_regardless_of_animation_calls() {
    let mut s = Session::new();
    s.add_point(pt(0, 0));
    s.add_point(pt(10, 0));
    let line = vec![pt(0, 0), pt(10, 0)];
    assert_eq!(s.display_sequence(), line);
    s.start_animation();
    assert!(!s.is_animating());
    assert_eq!(s.display_sequence(), line);
    s.tick(STEP_DURATION_MS);
    s.tick(STEP_DURATION_MS);
    assert_eq!(s.display_sequence(), line);
}

#[test]
fn three_points_animate_through_exact_levels() {
    // A right angle at 16 units per screen pixel: (0,0), (10,0), (10,10).
    let mut s = Session::new();
    s.add_point(pt(0, 0));
    s.add_point(pt(160, 0));
    s.add_point(pt(160, 160));
    s.start_animation();
    assert!(s.is_animating());
    assert_eq!(s.current_level(), 1);
    assert_eq!(
        s.display_sequence(),
        vec![pt(0, 0), pt(120, 0), pt(160, 40), pt(160, 160)]
    );
    s.tick(STEP_DURATION_MS);
    assert_eq!(s.current_level(), 2);
    let level_two = s.display_sequence();
    assert_eq!(level_two.len(), 6);
    assert_eq!(
        level_two,
        vec![
            pt(0, 0),
            pt(90, 0),
            pt(130, 10),
            pt(150, 30),
            pt(160, 70),
            pt(160, 160)
        ]
    );
}

#[test]
fn animation_wraps_back_to_level_one() {
    let mut s = Session::new();
    s.add_point(pt(0, 0));
    s.add_point(pt(400, 0));
    s.add_point(pt(400, 400));
    s.start_animation();
    assert_eq!(s.current_level(), 1);
    for expected in [2, 3, 4, 5, 6, 7, 1] {
        s.tick(STEP_DURATION_MS);
        assert_eq!(s.current_level(), expected);
    }
    assert!(s.is_animating());
}

#[test]
fn a_short_tick_does_not_advance_the_level() {
    let mut s = Session::new();
    s.add_point(pt(0, 0));
    s.add_point(pt(400, 0));
    s.add_point(pt(400, 400));
    s.start_animation();
    s.tick(STEP_DURATION_MS - 1);
    assert_eq!(s.current_level(), 1);
    s.tick(1);
    assert_eq!(s.current_level(), 2);
}

#[test]
fn ticking_while_idle_changes_nothing() {
    let mut s = Session::new();
    s.add_point(pt(0, 0));
    s.add_point(pt(400, 0));
    s.add_point(pt(400, 400));
    s.tick(10 * STEP_DURATION_MS);
    assert!(!s.is_animating());
    assert_eq!(s.current_level(), 1);
    assert_eq!(s.display_sequence().len(), 3);
}

#[test]
fn clear_resets_everything() {
    let mut s = Session::new();
    s.add_point(pt(0, 0));
    s.add_point(pt(400, 0));
    s.add_point(pt(400, 400));
    s.start_animation();
    s.tick(STEP_DURATION_MS);
    s.clear();
    assert!(!s.is_animating());
    assert_eq!(s.display_sequence(), Vec::<Point>::new());
    assert_eq!(s.control_points().len(), 0);
    assert_eq!(s.current_level(), 1);
}

#[test]
fn starting_on_an_empty_session_is_declined() {
    let mut s = Session::new();
    s.start_animation();
    assert!(!s.is_animating());
    assert_eq!(s.display_sequence(), Vec::<Point>::new());
}

#[test]
fn editing_while_running_keeps_the_animation_going() {
    let mut s = Session::new();
    s.add_point(pt(0, 0));
    s.add_point(pt(400, 0));
    s.add_point(pt(400, 400));
    s.start_animation();
    s.tick(STEP_DURATION_MS);
    assert_eq!(s.current_level(), 2);
    // Append a fourth point mid-animation: the level is kept and the
    // ladder is rebuilt over the larger polygon.
    s.add_point(pt(0, 400));
    assert!(s.is_animating());
    assert_eq!(s.current_level(), 2);
    // Level 1 of 4 points has 2*4-2 = 6 points; level 2 has 2*6-2 = 10.
    assert_eq!(s.display_sequence().len(), 10);
}

#[test]
fn dragging_moves_a_point_and_survives_a_stale_index() {
    let mut s = Session::new();
    s.add_point(pt(0, 0));
    s.add_point(pt(10, 0));
    s.begin_drag(1);
    s.update_drag(pt(20, 20));
    s.end_drag();
    assert_eq!(s.display_sequence(), vec![pt(0, 0), pt(20, 20)]);
    // An out-of-range pick is declined and drags nothing.
    s.begin_drag(5);
    s.update_drag(pt(30, 30));
    assert_eq!(s.display_sequence(), vec![pt(0, 0), pt(20, 20)]);
}

#[test]
fn level_count_matches_max_steps_under_wrap() {
    // Ticking exactly MAX_STEPS times from a fresh start lands back on 1.
    let mut s = Session::new();
    s.add_point(pt(0, 0));
    s.add_point(pt(160, 0));
    s.add_point(pt(160, 160));
    s.start_animation();
    for _ in 0..MAX_STEPS {
        s.tick(STEP_DURATION_MS);
    }
    assert_eq!(s.current_level(), 1);
}
