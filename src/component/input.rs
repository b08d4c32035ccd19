use crate::model::position::Px;
use crate::state::inertia::{self, abs, lemma_decay_bound, TICK_UNIT};
use crate::state::panning::{self, lemma_trunc_div_smaller, within, POINTER_LIMIT, POSITION_LIMIT};
use vstd::prelude::*;

verus! {

/// What a pointer gesture means to the map.
#[derive(Clone, Copy, Debug, PartialEq, Eq, Structural)]
pub enum InputEvent {
    Click,
    DoubleClick,
    MoveBegin,
    Move,
    MoveEnd,
}

/// Pointer input, with the time in milliseconds where it matters.
#[derive(Clone, Copy, Debug, PartialEq, Eq, Structural)]
pub enum Msg {
    /// a click at a position on the map element
    Click(i32, i32),
    /// a double click at a position on the map element
    DoubleClick(i32, i32),
    /// the pointer moved to a screen position
    Move(i32, i32, u64),
    /// the pointer went down at a screen position
    MoveBegin(i32, i32, u64),
    /// the pointer went up or left
    MoveRelease(u64),
    /// an animation frame came
    Decelerate(u64),
}

/// A notice to the map: a pixel position or offset, and what happened.
pub type Notice = (Px, InputEvent);

/// Turns pointer input into map gestures: pans that follow the pointer,
/// then glide on with decaying momentum after release.
#[derive(Clone, Copy, Debug)]
pub struct Input {
    pub panning: panning::State,
    pub inertia: inertia::State,
    /// time of the last momentum step, in milliseconds
    pub frame_time: u64,
}

/// The origin, the position that notices without one carry.
pub open spec fn zero() -> Px {
    Px { x: 0, y: 0 }
}

/// Millionths of a second between two frames `prev` and `now` given in
/// milliseconds, at most one second.
pub open spec fn frame_dt(prev: u64, now: u64) -> int {
    if now > prev {
        if (now - prev) * 1000 > TICK_UNIT {
            TICK_UNIT as int
        } else {
            (now - prev) * 1000
        }
    } else {
        0
    }
}

/// The pan state moved on by `v`.
pub open spec fn glide(p: panning::State, v: (i64, i64)) -> panning::State {
    panning::State {
        position: ((p.position.0 + v.0) as i64, (p.position.1 + v.1) as i64),
        ..p
    }
}

impl Input {
    /// Bounds that keep all arithmetic in range: a pan that follows the
    /// pointer stays near pointer positions, and one that glides has room
    /// for all the distance its momentum still covers.
    pub open spec fn wf(&self) -> bool {
        &&& self.panning.wf()
        &&& self.inertia.wf()
        &&& self.panning.status == panning::Status::Panning ==> {
            &&& within(self.panning.position.0 as int, POINTER_LIMIT as int)
            &&& within(self.panning.position.1 as int, POINTER_LIMIT as int)
            &&& within(self.panning.velocity.0 as int, 2 * POINTER_LIMIT)
            &&& within(self.panning.velocity.1 as int, 2 * POINTER_LIMIT)
        }
        &&& self.panning.status == panning::Status::Free ==> {
            &&& self.inertia.status == inertia::Status::InProgress
            &&& abs(self.panning.position.0 as int) + 12 * abs(self.inertia.velocity.0 as int)
                <= POSITION_LIMIT
            &&& abs(self.panning.position.1 as int) + 12 * abs(self.inertia.velocity.1 as int)
                <= POSITION_LIMIT
        }
    }

    /// One momentum step of `dt` millionths of a second at time `now`.
    pub open spec fn step_spec(&self, dt: int, now: u64) -> (Input, Seq<Notice>) {
        let inertia = self.inertia.tick_spec(dt);
        let moved = glide(self.panning, inertia.velocity);
        let notice = (moved.offset_spec(), InputEvent::Move);
        if inertia.status == inertia::Status::Ended {
            (
                Input {
                    panning: panning::State { status: panning::Status::Idle, ..moved },
                    inertia,
                    frame_time: now,
                },
                seq![notice, (zero(), InputEvent::MoveEnd)],
            )
        } else {
            (Input { panning: moved, inertia, frame_time: now }, seq![notice])
        }
    }

    /// The state after `msg`, and the notices that it sends, in order.
    pub open spec fn update_spec(&self, msg: Msg) -> (Input, Seq<Notice>) {
        match msg {
            Msg::Click(x, y) => (*self, seq![(Px { x: x as i64, y: y as i64 }, InputEvent::Click)]),
            Msg::DoubleClick(x, y) => (
                *self,
                seq![(Px { x: x as i64, y: y as i64 }, InputEvent::DoubleClick)],
            ),
            Msg::Move(x, y, now) => {
                if self.panning.status == panning::Status::Panning {
                    let p = self.panning;
                    let dt = panning::interval(p.time, now);
                    let moved = panning::State {
                        position: panning::scaled((x, y)),
                        velocity: (
                            trunc_div_i64(panning::scaled((x, y)).0 - p.position.0, dt),
                            trunc_div_i64(panning::scaled((x, y)).1 - p.position.1, dt),
                        ),
                        time: now,
                        ..p
                    };
                    (
                        Input { panning: moved, ..*self },
                        seq![(moved.offset_spec(), InputEvent::Move)],
                    )
                } else {
                    (*self, seq![])
                }
            },
            Msg::MoveBegin(x, y, now) => {
                let begun = panning::State {
                    status: panning::Status::Panning,
                    origin: panning::scaled((x, y)),
                    position: panning::scaled((x, y)),
                    velocity: (0, 0),
                    time: now,
                };
                let ended = if self.panning.status != panning::Status::Idle {
                    seq![(zero(), InputEvent::MoveEnd)]
                } else {
                    seq![]
                };
                (Input { panning: begun, ..*self }, ended.push((zero(), InputEvent::MoveBegin)))
            },
            Msg::MoveRelease(now) => {
                if self.panning.status == panning::Status::Panning {
                    let released = Input {
                        panning: panning::State { status: panning::Status::Free, ..self.panning },
                        inertia: inertia::State {
                            status: inertia::Status::InProgress,
                            velocity: self.panning.velocity,
                            slow_factor: inertia::SLOW_FACTOR,
                        },
                        frame_time: now,
                    };
                    released.step_spec(0, now)
                } else {
                    (*self, seq![])
                }
            },
            Msg::Decelerate(now) => {
                if self.panning.status == panning::Status::Free {
                    self.step_spec(frame_dt(self.frame_time, now), now)
                } else {
                    (*self, seq![])
                }
            },
        }
    }

    /// No gesture going on.
    pub fn new() -> (r: Input)
        ensures
            r.wf(),
            r.panning.status == panning::Status::Idle,
    {
        Input {
            panning: panning::State::new(),
            inertia: inertia::State::begin((0, 0)),
            frame_time: 0,
        }
    }

    /// Whether momentum wants another animation frame.
    pub fn wants_frame(&self) -> (r: bool)
        ensures
            r == (self.panning.status == panning::Status::Free),
    {
        self.panning.status() == panning::Status::Free
    }

    /// One momentum step: decay the velocity, glide by it, report the
    /// offset, and end the gesture once the motion has stopped.
    fn step(&mut self, dt: u64, now: u64) -> (r: Vec<Notice>)
        requires
            old(self).wf(),
            old(self).panning.status == panning::Status::Free,
            dt <= TICK_UNIT,
        ensures
            final(self).wf(),
            (*final(self), r@) == old(self).step_spec(dt as int, now),
    {
        let ghost p0 = self.panning.position;
        let ghost v0 = self.inertia.velocity;
        let v = self.inertia.tick(dt);
        proof {
            assert(abs(p0.0 + v.0) + 12 * abs(v.0 as int) <= abs(p0.0 as int) + 12 * abs(v0.0 as int));
            assert(abs(p0.1 + v.1) + 12 * abs(v.1 as int) <= abs(p0.1 as int) + 12 * abs(v0.1 as int));
        }
        self.panning.add_relative(v);
        self.frame_time = now;
        let mut notices: Vec<Notice> = Vec::new();
        notices.push((self.panning.offset(), InputEvent::Move));
        if self.inertia.status() == inertia::Status::Ended {
            let _ = self.panning.end();
            notices.push((Px { x: 0, y: 0 }, InputEvent::MoveEnd));
        }
        proof {
            assert(notices@ =~= old(self).step_spec(dt as int, now).1);
        }
        notices
    }

    /// Handles one input message; returns the notices for the map, in order.
    pub fn update(&mut self, msg: Msg) -> (r: Vec<Notice>)
        requires
            old(self).wf(),
        ensures
            final(self).wf(),
            (*final(self), r@) == old(self).update_spec(msg),
    {
        let mut notices: Vec<Notice> = Vec::new();
        match msg {
            Msg::Click(x, y) => {
                notices.push((Px { x: x as i64, y: y as i64 }, InputEvent::Click));
            },
            Msg::DoubleClick(x, y) => {
                notices.push((Px { x: x as i64, y: y as i64 }, InputEvent::DoubleClick));
            },
            Msg::Move(x, y, now) => {
                if self.panning.status() == panning::Status::Panning {
                    let ghost p0 = self.panning;
                    self.panning.set_position((x, y), now);
                    proof {
                        lemma_trunc_div_smaller(
                            panning::scaled((x, y)).0 - p0.position.0,
                            panning::interval(p0.time, now),
                        );
                        lemma_trunc_div_smaller(
                            panning::scaled((x, y)).1 - p0.position.1,
                            panning::interval(p0.time, now),
                        );
                    }
                    notices.push((self.panning.offset(), InputEvent::Move));
                }
            },
            Msg::MoveBegin(x, y, now) => {
                if self.panning.status() != panning::Status::Idle {
                    notices.push((Px { x: 0, y: 0 }, InputEvent::MoveEnd));
                }
                self.panning.begin((x, y), now);
                notices.push((Px { x: 0, y: 0 }, InputEvent::MoveBegin));
            },
            Msg::MoveRelease(now) => {
                if self.panning.status() == panning::Status::Panning {
                    self.inertia = inertia::State::begin(self.panning.release());
                    self.frame_time = now;
                    notices = self.step(0, now);
                }
            },
            Msg::Decelerate(now) => {
                if self.panning.status() == panning::Status::Free {
                    let dt: u64 = if now > self.frame_time {
                        if now - self.frame_time > TICK_UNIT / 1000 {
                            TICK_UNIT
                        } else {
                            (now - self.frame_time) * 1000
                        }
                    } else {
                        0
                    };
                    notices = self.step(dt, now);
                }
            },
        }
        proof {
            assert(notices@ =~= old(self).update_spec(msg).1);
        }
        notices
    }
}

/// A momentum step moves the pan only in the direction of travel, on each
/// axis, and the velocity keeps its direction: the offset grows
/// monotonically while the gesture glides.
pub proof fn lemma_glide_keeps_direction(s: Input, dt: int, now: u64)
    requires
        s.wf(),
        s.panning.status == panning::Status::Free,
        dt >= 0,
    ensures
        ({
            let (t, _) = s.step_spec(dt, now);
            &&& s.inertia.velocity.0 >= 0 ==> t.panning.position.0 >= s.panning.position.0
                && t.inertia.velocity.0 >= 0
            &&& s.inertia.velocity.0 <= 0 ==> t.panning.position.0 <= s.panning.position.0
                && t.inertia.velocity.0 <= 0
            &&& s.inertia.velocity.1 >= 0 ==> t.panning.position.1 >= s.panning.position.1
                && t.inertia.velocity.1 >= 0
            &&& s.inertia.velocity.1 <= 0 ==> t.panning.position.1 <= s.panning.position.1
                && t.inertia.velocity.1 <= 0
        }),
{
    lemma_decay_bound(s.inertia.velocity.0 as int, s.inertia.slow_factor as int, dt);
    lemma_decay_bound(s.inertia.velocity.1 as int, s.inertia.slow_factor as int, dt);
}

/// `trunc_div` of a pointer movement by an interval, as an `i64`.
pub open spec fn trunc_div_i64(a: int, d: int) -> i64 {
    crate::model::position::trunc_div(a, d) as i64
}

} // verus!
