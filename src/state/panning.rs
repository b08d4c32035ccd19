use crate::model::position::{trunc_div, Px};
use vstd::prelude::*;

verus! {

/// Positions and velocities are held in thousandths of a pixel.
pub const SUBPIXELS: i64 = 1000;

/// Bound on the magnitude of a tracked position.
pub const POSITION_LIMIT: i64 = 2305843009213693952;

/// Bound on the magnitude of a position taken from a pointer.
pub const POINTER_LIMIT: i64 = 2199023255552;

/// Phase of a pan gesture.
#[derive(Clone, Copy, Debug, PartialEq, Eq, Structural)]
pub enum Status {
    Idle,
    Panning,
    Free,
}

/// State of a pan gesture: where it began, where it is, and how fast it
/// last moved.
#[derive(Clone, Copy, Debug)]
pub struct State {
    /// status which tells if moving is in progress
    pub status: Status,
    /// origin of movement, thousandths of a pixel
    pub origin: (i64, i64),
    /// position of movement, thousandths of a pixel
    pub position: (i64, i64),
    /// velocity of the last movement, thousandths of a pixel per millisecond
    pub velocity: (i64, i64),
    /// time of the last sample, in milliseconds
    pub time: u64,
}

/// `|v| <= limit`.
pub open spec fn within(v: int, limit: int) -> bool {
    -limit <= v <= limit
}

/// A pointer position in thousandths of a pixel.
pub open spec fn scaled(xy: (i32, i32)) -> (i64, i64) {
    ((xy.0 * SUBPIXELS) as i64, (xy.1 * SUBPIXELS) as i64)
}

/// Milliseconds between two samples, at least one.
pub open spec fn interval(prev: u64, now: u64) -> int {
    if now > prev {
        now - prev
    } else {
        1
    }
}

impl State {
    /// Origin and position within their bounds.
    pub open spec fn wf(&self) -> bool {
        &&& within(self.origin.0 as int, POINTER_LIMIT as int)
        &&& within(self.origin.1 as int, POINTER_LIMIT as int)
        &&& within(self.position.0 as int, POSITION_LIMIT as int)
        &&& within(self.position.1 as int, POSITION_LIMIT as int)
    }

    /// `position - origin` in whole pixels, rounded toward zero; see `offset`.
    pub open spec fn offset_spec(&self) -> Px {
        Px {
            x: trunc_div(self.position.0 - self.origin.0, SUBPIXELS as int) as i64,
            y: trunc_div(self.position.1 - self.origin.1, SUBPIXELS as int) as i64,
        }
    }

    /// A gesture that has not begun.
    pub fn new() -> (r: State)
        ensures
            r.wf(),
            r.status == Status::Idle,
            r.origin == (0i64, 0i64),
            r.position == (0i64, 0i64),
            r.velocity == (0i64, 0i64),
            r.time == 0,
    {
        State { status: Status::Idle, origin: (0, 0), position: (0, 0), velocity: (0, 0), time: 0 }
    }

    /// Begins a gesture at pointer position `xy` at time `now`.
    pub fn begin(&mut self, xy: (i32, i32), now: u64)
        ensures
            final(self).wf(),
            final(self).status == Status::Panning,
            final(self).origin == scaled(xy),
            final(self).position == scaled(xy),
            final(self).velocity == (0i64, 0i64),
            final(self).time == now,
    {
        let p = (xy.0 as i64 * SUBPIXELS, xy.1 as i64 * SUBPIXELS);
        self.status = Status::Panning;
        self.origin = p;
        self.position = p;
        self.time = now;
        self.velocity = (0, 0);
    }

    /// Releases the gesture; returns the velocity of its last movement,
    /// with which momentum can start.
    pub fn release(&mut self) -> (r: (i64, i64))
        ensures
            *final(self) == (State { status: Status::Free, ..*old(self) }),
            r == old(self).velocity,
    {
        self.status = Status::Free;
        self.velocity
    }

    /// Ends the gesture; returns its offset.
    pub fn end(&mut self) -> (r: Px)
        requires
            old(self).wf(),
        ensures
            *final(self) == (State { status: Status::Idle, ..*old(self) }),
            r == old(self).offset_spec(),
    {
        self.status = Status::Idle;
        self.offset()
    }

    /// Moves the gesture to pointer position `xy` at time `now`; the
    /// velocity becomes the movement since the previous sample divided by
    /// the milliseconds since it (at least one), rounded toward zero.
    pub fn set_position(&mut self, xy: (i32, i32), now: u64)
        requires
            old(self).wf(),
        ensures
            final(self).wf(),
            final(self).status == old(self).status,
            final(self).origin == old(self).origin,
            final(self).position == scaled(xy),
            final(self).velocity.0 == trunc_div(
                scaled(xy).0 - old(self).position.0,
                interval(old(self).time, now),
            ),
            final(self).velocity.1 == trunc_div(
                scaled(xy).1 - old(self).position.1,
                interval(old(self).time, now),
            ),
            final(self).time == now,
    {
        let p = (xy.0 as i64 * SUBPIXELS, xy.1 as i64 * SUBPIXELS);
        let dt: u64 = if now > self.time {
            now - self.time
        } else {
            1
        };
        let dx = p.0 as i128 - self.position.0 as i128;
        let dy = p.1 as i128 - self.position.1 as i128;
        let vx = dx / dt as i128;
        let vy = dy / dt as i128;
        proof {
            lemma_trunc_div_smaller(dx as int, dt as int);
            lemma_trunc_div_smaller(dy as int, dt as int);
        }
        self.velocity = (vx as i64, vy as i64);
        self.position = p;
        self.time = now;
    }

    /// Moves the position by `xy` without touching the velocity; momentum
    /// drives the gesture this way after release.
    pub fn add_relative(&mut self, xy: (i64, i64))
        requires
            old(self).wf(),
            within(old(self).position.0 + xy.0, POSITION_LIMIT as int),
            within(old(self).position.1 + xy.1, POSITION_LIMIT as int),
        ensures
            final(self).wf(),
            *final(self) == (State {
                position: (
                    (old(self).position.0 + xy.0) as i64,
                    (old(self).position.1 + xy.1) as i64,
                ),
                ..*old(self)
            }),
    {
        self.position.0 = self.position.0 + xy.0;
        self.position.1 = self.position.1 + xy.1;
    }

    /// Phase of the gesture.
    pub fn status(&self) -> (r: Status)
        ensures
            r == self.status,
    {
        self.status
    }

    /// How far the gesture has moved from its origin, in whole pixels,
    /// rounded toward zero.
    pub fn offset(&self) -> (r: Px)
        requires
            self.wf(),
        ensures
            r == self.offset_spec(),
    {
        let dx = self.position.0 - self.origin.0;
        let dy = self.position.1 - self.origin.1;
        proof {
            lemma_trunc_div_smaller(dx as int, SUBPIXELS as int);
            lemma_trunc_div_smaller(dy as int, SUBPIXELS as int);
        }
        Px { x: dx / SUBPIXELS, y: dy / SUBPIXELS }
    }
}

/// Division rounding toward zero by a positive number does not grow the
/// magnitude.
pub proof fn lemma_trunc_div_smaller(a: int, d: int)
    requires
        d >= 1,
    ensures
        within(trunc_div(a, d), if a < 0 { -a } else { a }),
{
    if a >= 0 {
        vstd::arithmetic::div_mod::lemma_div_is_ordered_by_denominator(a, 1, d);
    } else {
        vstd::arithmetic::div_mod::lemma_div_is_ordered_by_denominator(-a, 1, d);
    }
}

impl Default for Status {
    fn default() -> (r: Status)
        ensures
            r == Status::Idle,
    {
        Status::Idle
    }
}

} // verus!
