//! The step sequencer: one interactive session owning the control polygon
//! and the animation state, queried by a presentation loop once per frame.
//!
//! States are `Idle` (`!running`) and `Running`.  While running, the level
//! on display walks 1 ..= MAX_STEPS and wraps back to 1, advancing one
//! level each time the timer fills a whole `STEP_DURATION_MS`.  Editing
//! the control polygon never cancels a running animation; the ladder is
//! simply rebuilt against the edited polygon at the next query.

use vstd::prelude::*;

use crate::geom::{copy_points, valid_point, valid_points, Point};
use crate::refine::{build_steps, ladder_level};
use crate::{MAX_STEPS, STEP_DURATION_MS};

verus! {

/// An interactive session: the control polygon, the drag handle, and the
/// animation state machine.
pub struct Session {
    control: Vec<Point>,
    dragging: Option<usize>,
    running: bool,
    timer_ms: u64,
    level: usize,
}

impl Session {
    /// The control polygon, in insertion order.
    pub closed spec fn control_spec(self) -> Seq<Point> {
        self.control@
    }

    /// Index of the point being dragged, if a drag is in progress.
    pub closed spec fn dragging_spec(self) -> Option<usize> {
        self.dragging
    }

    /// Whether the animation is running.
    pub closed spec fn running_spec(self) -> bool {
        self.running
    }

    /// Time spent in the current level, in milliseconds.
    pub closed spec fn timer_spec(self) -> int {
        self.timer_ms as int
    }

    /// The refinement level on display while running.
    pub closed spec fn level_spec(self) -> int {
        self.level as int
    }

    /// Session invariant: the level stays in 1 ..= MAX_STEPS, the timer
    /// never reaches a full step, the animation only runs over a polygon
    /// with at least 3 points, all points are valid, and a drag handle
    /// points at an existing point.
    pub open spec fn wf(self) -> bool {
        &&& valid_points(self.control_spec())
        &&& 1 <= self.level_spec() <= MAX_STEPS
        &&& 0 <= self.timer_spec() < STEP_DURATION_MS
        &&& (self.running_spec() ==> self.control_spec().len() >= 3)
        &&& (self.dragging_spec() is Some ==> self.dragging_spec()->0
            < self.control_spec().len())
    }

    /// What should be drawn right now: ladder level `level` of the current
    /// control polygon while running, the raw control polygon otherwise.
    pub open spec fn display_spec(self) -> Seq<Point> {
        if self.running_spec() {
            ladder_level(self.control_spec(), self.level_spec() as nat)
        } else {
            self.control_spec()
        }
    }

    /// The session after one clock tick of `dt_ms` milliseconds.
    pub closed spec fn tick_spec(self, dt_ms: u64) -> Session {
        if !self.running {
            self
        } else if self.timer_ms + dt_ms >= STEP_DURATION_MS {
            Session {
                timer_ms: 0,
                level: if self.level >= MAX_STEPS {
                    1
                } else {
                    (self.level + 1) as usize
                },
                ..self
            }
        } else {
            Session { timer_ms: (self.timer_ms + dt_ms) as u64, ..self }
        }
    }

    /// A fresh idle session with no control points.
    pub fn new() -> (s: Session)
        ensures
            s.wf(),
            !s.running_spec(),
            s.control_spec() == Seq::<Point>::empty(),
            s.dragging_spec() is None,
            s.timer_spec() == 0,
            s.level_spec() == 1,
    {
        let s = Session {
            control: Vec::new(),
            dragging: None,
            running: false,
            timer_ms: 0,
            level: 1,
        };
        assert(s.control_spec() =~= Seq::<Point>::empty());
        s
    }

    /// Append a control point.  The animation state is untouched: editing
    /// while running keeps the same level against the rebuilt ladder.
    pub fn add_point(&mut self, p: Point)
        requires
            old(self).wf(),
            valid_point(p),
        ensures
            final(self).wf(),
            final(self).control_spec() == old(self).control_spec().push(p),
            final(self).dragging_spec() == old(self).dragging_spec(),
            final(self).running_spec() == old(self).running_spec(),
            final(self).timer_spec() == old(self).timer_spec(),
            final(self).level_spec() == old(self).level_spec(),
    {
        self.control.push(p);
    }

    /// Pick the point at `index` for dragging; declined silently when no
    /// such point exists.
    pub fn begin_drag(&mut self, index: usize)
        requires
            old(self).wf(),
        ensures
            final(self).wf(),
            index < old(self).control_spec().len() ==> final(self).dragging_spec() == Some(
                index,
            ),
            index >= old(self).control_spec().len() ==> final(self).dragging_spec()
                == old(self).dragging_spec(),
            final(self).control_spec() == old(self).control_spec(),
            final(self).running_spec() == old(self).running_spec(),
            final(self).timer_spec() == old(self).timer_spec(),
            final(self).level_spec() == old(self).level_spec(),
    {
        if index < self.control.len() {
            self.dragging = Some(index);
        }
    }

    /// Move the dragged point to `p`; declined silently when no drag is in
    /// progress.
    pub fn update_drag(&mut self, p: Point)
        requires
            old(self).wf(),
            valid_point(p),
        ensures
            final(self).wf(),
            match old(self).dragging_spec() {
                Some(i) => final(self).control_spec() == old(self).control_spec().update(
                    i as int,
                    p,
                ),
                None => final(self).control_spec() == old(self).control_spec(),
            },
            final(self).dragging_spec() == old(self).dragging_spec(),
            final(self).running_spec() == old(self).running_spec(),
            final(self).timer_spec() == old(self).timer_spec(),
            final(self).level_spec() == old(self).level_spec(),
    {
        match self.dragging {
            Some(i) => {
                self.control.set(i, p);
            },
            None => {},
        }
    }

    /// Release the drag handle.
    pub fn end_drag(&mut self)
        requires
            old(self).wf(),
        ensures
            final(self).wf(),
            final(self).dragging_spec() is None,
            final(self).control_spec() == old(self).control_spec(),
            final(self).running_spec() == old(self).running_spec(),
            final(self).timer_spec() == old(self).timer_spec(),
            final(self).level_spec() == old(self).level_spec(),
    {
        self.dragging = None;
    }

    /// Start the animation.  Declined silently on an empty polygon; on 1
    /// or 2 points the request resets the clock but the display stays
    /// static, since refinement is the identity there; on 3 or more points
    /// the animation runs from level 1.
    pub fn start_animation(&mut self)
        requires
            old(self).wf(),
        ensures
            final(self).wf(),
            final(self).control_spec() == old(self).control_spec(),
            final(self).dragging_spec() == old(self).dragging_spec(),
            old(self).control_spec().len() == 0 ==> final(self).running_spec()
                == old(self).running_spec() && final(self).timer_spec() == old(self).timer_spec()
                && final(self).level_spec() == old(self).level_spec(),
            old(self).control_spec().len() >= 1 ==> final(self).running_spec()
                == (old(self).control_spec().len() >= 3) && final(self).timer_spec() == 0
                && final(self).level_spec() == 1,
    {
        if self.control.len() >= 1 {
            self.running = self.control.len() >= 3;
            self.timer_ms = 0;
            self.level = 1;
        }
    }

    /// Reset: drop all control points, cancel any drag and any running
    /// animation, and return the clock and level to their idle values.
    /// Afterwards nothing is displayed and nothing is animating.
    pub fn clear(&mut self)
        ensures
            final(self).wf(),
            final(self).control_spec() == Seq::<Point>::empty(),
            final(self).dragging_spec() is None,
            !final(self).running_spec(),
            final(self).timer_spec() == 0,
            final(self).level_spec() == 1,
            final(self).display_spec() == Seq::<Point>::empty(),
    {
        self.control = Vec::new();
        self.dragging = None;
        self.running = false;
        self.timer_ms = 0;
        self.level = 1;
        assert(self.control_spec() =~= Seq::<Point>::empty());
    }

    /// Advance the clock by `dt_ms`.  While running, a tick that fills the
    /// step duration moves the display up one level, wrapping from
    /// MAX_STEPS back to 1; at most one level per tick.  Idle sessions are
    /// unchanged.
    pub fn tick(&mut self, dt_ms: u64)
        requires
            old(self).wf(),
        ensures
            final(self).wf(),
            *final(self) == old(self).tick_spec(dt_ms),
            final(self).control_spec() == old(self).control_spec(),
            final(self).dragging_spec() == old(self).dragging_spec(),
            final(self).running_spec() == old(self).running_spec(),
            !old(self).running_spec() ==> final(self).timer_spec() == old(self).timer_spec()
                && final(self).level_spec() == old(self).level_spec(),
            old(self).running_spec() && old(self).timer_spec() + dt_ms < STEP_DURATION_MS
                ==> final(self).timer_spec() == old(self).timer_spec() + dt_ms
                && final(self).level_spec() == old(self).level_spec(),
            old(self).running_spec() && old(self).timer_spec() + dt_ms >= STEP_DURATION_MS
                ==> final(self).timer_spec() == 0 && final(self).level_spec() == (if old(
                self).level_spec() >= MAX_STEPS {
                1int
            } else {
                old(self).level_spec() + 1
            }),
    {
        if self.running {
            let remaining = STEP_DURATION_MS - self.timer_ms;
            if dt_ms >= remaining {
                self.timer_ms = 0;
                self.level = if self.level >= MAX_STEPS {
                    1
                } else {
                    self.level + 1
                };
            } else {
                self.timer_ms = self.timer_ms + dt_ms;
            }
        }
    }

    /// What to draw right now: ladder level `level` of the current control
    /// polygon while running, the raw control polygon otherwise.
    pub fn display_sequence(&self) -> (r: Vec<Point>)
        requires
            self.wf(),
        ensures
            r@ == self.display_spec(),
    {
        if self.running {
            let steps = build_steps(&self.control);
            copy_points(&steps[self.level])
        } else {
            copy_points(&self.control)
        }
    }

    /// Whether the animation is running.
    pub fn is_animating(&self) -> (b: bool)
        ensures
            b == self.running_spec(),
    {
        self.running
    }

    /// The refinement level currently on display while running.
    pub fn current_level(&self) -> (l: usize)
        ensures
            l == self.level_spec(),
    {
        self.level
    }

    /// The control polygon, for drawing and hit-testing.
    pub fn control_points(&self) -> (r: &Vec<Point>)
        ensures
            r@ == self.control_spec(),
    {
        &self.control
    }
}

/// The session after `n` clock ticks of one full step duration each.
pub open spec fn full_step_ticks(s: Session, n: nat) -> Session
    decreases n,
{
    if n == 0 {
        s
    } else {
        full_step_ticks(s, (n - 1) as nat).tick_spec(STEP_DURATION_MS)
    }
}

/// The animation loops: from a freshly started session (running at level
/// 1 with an empty timer), ticking for exactly `MAX_STEPS` full step
/// durations walks through every level once and returns the display to
/// level 1 with an empty timer, the control polygon untouched.
pub proof fn lemma_animation_wrap(s: Session)
    requires
        s.wf(),
        s.running_spec(),
        s.level_spec() == 1,
        s.timer_spec() == 0,
    ensures
        full_step_ticks(s, MAX_STEPS as nat).wf(),
        full_step_ticks(s, MAX_STEPS as nat).running_spec(),
        full_step_ticks(s, MAX_STEPS as nat).level_spec() == 1,
        full_step_ticks(s, MAX_STEPS as nat).timer_spec() == 0,
        full_step_ticks(s, MAX_STEPS as nat).control_spec() == s.control_spec(),
{
    reveal_with_fuel(full_step_ticks, 9);
    let s1 = full_step_ticks(s, 1);
    let s2 = full_step_ticks(s, 2);
    let s3 = full_step_ticks(s, 3);
    let s4 = full_step_ticks(s, 4);
    let s5 = full_step_ticks(s, 5);
    let s6 = full_step_ticks(s, 6);
    let s7 = full_step_ticks(s, 7);
    assert(s1 == s.tick_spec(STEP_DURATION_MS) && s1.level_spec() == 2);
    assert(s2 == s1.tick_spec(STEP_DURATION_MS) && s2.level_spec() == 3);
    assert(s3 == s2.tick_spec(STEP_DURATION_MS) && s3.level_spec() == 4);
    assert(s4 == s3.tick_spec(STEP_DURATION_MS) && s4.level_spec() == 5);
    assert(s5 == s4.tick_spec(STEP_DURATION_MS) && s5.level_spec() == 6);
    assert(s6 == s5.tick_spec(STEP_DURATION_MS) && s6.level_spec() == 7);
    assert(s7 == s6.tick_spec(STEP_DURATION_MS) && s7.level_spec() == 1);
}

} // verus!
