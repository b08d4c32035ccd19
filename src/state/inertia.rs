use crate::model::position::trunc_div;
use vstd::prelude::*;

verus! {

/// Damping applied per tick, in hundredths of the velocity kept.
pub const SLOW_FACTOR: i64 = 92;

/// Speed, in thousandths of a pixel per tick, below which the motion stops.
pub const STOP_SPEED: i64 = 500;

/// Ticks are measured in millionths of a second.
pub const TICK_UNIT: u64 = 1000000;

/// Whether the motion is still going.
#[derive(Clone, Copy, Debug, PartialEq, Eq, Structural)]
pub enum Status {
    Ended,
    InProgress,
}

/// Momentum that follows a released pan: a velocity that decays every tick.
#[derive(Clone, Copy, Debug)]
pub struct State {
    /// status which tells if moving is in progress
    pub status: Status,
    /// velocity vector, thousandths of a pixel per tick
    pub velocity: (i64, i64),
    /// hundredths of the velocity kept per tick
    pub slow_factor: i64,
}

/// `|v|`.
pub open spec fn abs(v: int) -> int {
    if v < 0 {
        -v
    } else {
        v
    }
}

/// One component of the velocity after a tick of `dt` millionths of a
/// second: `v * slow/100 * (1 - dt)`, with `dt` taken as at most one second,
/// rounded toward zero.
pub open spec fn decay(v: int, slow: int, dt: int) -> int {
    let d = if dt > TICK_UNIT {
        TICK_UNIT as int
    } else {
        dt
    };
    trunc_div(v * (slow * (TICK_UNIT - d)), 100 * TICK_UNIT)
}

/// A decayed component keeps at most `slow` hundredths of the original,
/// and so is never larger, and keeps its sign.
pub proof fn lemma_decay_bound(v: int, slow: int, dt: int)
    requires
        0 <= slow <= SLOW_FACTOR,
        0 <= dt,
    ensures
        100 * abs(decay(v, slow, dt)) <= slow * abs(v),
        100 * abs(decay(v, slow, dt)) <= SLOW_FACTOR * abs(v),
        abs(decay(v, slow, dt)) <= abs(v),
        v != 0 ==> abs(decay(v, slow, dt)) < abs(v),
        decay(v, slow, dt) == 0 || (decay(v, slow, dt) < 0) == (v < 0),
{
    let d = if dt > TICK_UNIT {
        TICK_UNIT as int
    } else {
        dt
    };
    let f = slow * (TICK_UNIT - d);
    let a = abs(v);
    assert(0 <= f <= slow * TICK_UNIT) by (nonlinear_arith)
        requires
            f == slow * (TICK_UNIT - d),
            0 <= d <= TICK_UNIT,
            0 <= slow,
    ;
    assert(0 <= a * f <= a * (slow * TICK_UNIT)) by (nonlinear_arith)
        requires
            0 <= f <= slow * TICK_UNIT,
            0 <= a,
    ;
    let q = (a * f) / (100 * TICK_UNIT);
    assert(q >= 0);
    if v < 0 {
        assert(v * f == -(a * f)) by (nonlinear_arith)
            requires
                a == -v,
        ;
        if a * f == 0 {
            assert(q == 0);
        }
    } else {
        assert(v * f == a * f);
    }
    assert(abs(decay(v, slow, dt)) == q);
    assert(100 * q <= slow * a) by (nonlinear_arith)
        requires
            q == (a * f) / (100 * TICK_UNIT),
            0 <= a * f <= a * (slow * TICK_UNIT),
    ;
    assert(slow * a <= 92 * a) by (nonlinear_arith)
        requires
            0 <= slow <= 92,
            0 <= a,
    ;
}

impl State {
    /// The damping keeps at most `SLOW_FACTOR` hundredths per tick.
    pub open spec fn wf(&self) -> bool {
        0 <= self.slow_factor <= SLOW_FACTOR
    }

    /// The state after one tick of `dt` millionths of a second; see `tick`.
    pub open spec fn tick_spec(&self, dt: int) -> State {
        let vx = decay(self.velocity.0 as int, self.slow_factor as int, dt);
        let vy = decay(self.velocity.1 as int, self.slow_factor as int, dt);
        if abs(vx) < STOP_SPEED && abs(vy) < STOP_SPEED {
            State { status: Status::Ended, velocity: (0, 0), slow_factor: self.slow_factor }
        } else {
            State { status: self.status, velocity: (vx as i64, vy as i64), slow_factor: self.slow_factor }
        }
    }

    /// The state after `n` ticks of `dt` each.
    pub open spec fn ticks(&self, dt: int, n: nat) -> State
        decreases n,
    {
        if n == 0 {
            *self
        } else {
            self.tick_spec(dt).ticks(dt, (n - 1) as nat)
        }
    }

    /// Sum of the magnitudes of the velocity components.
    pub open spec fn speed(&self) -> int {
        abs(self.velocity.0 as int) + abs(self.velocity.1 as int)
    }

    /// Momentum in progress with the given velocity.
    pub fn begin(velocity: (i64, i64)) -> (r: State)
        ensures
            r.wf(),
            r == (State { status: Status::InProgress, velocity, slow_factor: SLOW_FACTOR }),
    {
        State { status: Status::InProgress, slow_factor: SLOW_FACTOR, velocity }
    }

    /// Decays the velocity by one tick of `dt` millionths of a second; once
    /// both components are below `STOP_SPEED` the velocity becomes zero and
    /// the motion ends. Returns the new velocity, the displacement for this
    /// tick.
    pub fn tick(&mut self, dt: u64) -> (r: (i64, i64))
        requires
            old(self).wf(),
        ensures
            *final(self) == old(self).tick_spec(dt as int),
            final(self).wf(),
            r == final(self).velocity,
            100 * abs(r.0 as int) <= SLOW_FACTOR * abs(old(self).velocity.0 as int),
            100 * abs(r.1 as int) <= SLOW_FACTOR * abs(old(self).velocity.1 as int),
            old(self).velocity != (0i64, 0i64) ==> final(self).speed() < old(self).speed(),
    {
        let d: u64 = if dt > TICK_UNIT {
            TICK_UNIT
        } else {
            dt
        };
        proof {
            assert(0 <= self.slow_factor * (TICK_UNIT - d) <= 92000000) by (nonlinear_arith)
                requires
                    0 <= self.slow_factor <= 92,
                    0 <= d <= TICK_UNIT,
            ;
        }
        let f: i128 = self.slow_factor as i128 * (TICK_UNIT - d) as i128;
        proof {
            let v0 = self.velocity.0 as int;
            let v1 = self.velocity.1 as int;
            assert(-(i64::MAX as int + 1) * 92000000 <= v0 * f <= (i64::MAX as int) * 92000000)
                by (nonlinear_arith)
                requires
                    0 <= f <= 92000000,
                    i64::MIN <= v0 <= i64::MAX,
            ;
            assert(-(i64::MAX as int + 1) * 92000000 <= v1 * f <= (i64::MAX as int) * 92000000)
                by (nonlinear_arith)
                requires
                    0 <= f <= 92000000,
                    i64::MIN <= v1 <= i64::MAX,
            ;
            lemma_decay_bound(self.velocity.0 as int, self.slow_factor as int, dt as int);
            lemma_decay_bound(self.velocity.1 as int, self.slow_factor as int, dt as int);
        }
        let vx = (self.velocity.0 as i128 * f / 100000000) as i64;
        let vy = (self.velocity.1 as i128 * f / 100000000) as i64;
        if -STOP_SPEED < vx && vx < STOP_SPEED && -STOP_SPEED < vy && vy < STOP_SPEED {
            self.velocity = (0, 0);
            self.status = Status::Ended;
        } else {
            self.velocity = (vx, vy);
        }
        self.velocity
    }

    /// Whether the motion is still going.
    pub fn status(&self) -> (r: Status)
        ensures
            r == self.status,
    {
        self.status
    }
}

/// A state at rest that has ended stays so under further ticks.
pub proof fn lemma_rest_stays(s: State, dt: int, n: nat)
    requires
        s.wf(),
        s.status == Status::Ended,
        s.velocity == (0i64, 0i64),
        dt >= 0,
    ensures
        s.ticks(dt, n) == s,
    decreases n,
{
    if n > 0 {
        assert(decay(0, s.slow_factor as int, dt) == 0);
        assert(s.tick_spec(dt) == s);
        lemma_rest_stays(s.tick_spec(dt), dt, (n - 1) as nat);
    }
}

/// Momentum ends: for any velocity and any fixed tick length, after
/// `speed + 1` ticks (or more) the motion has ended with zero velocity.
pub proof fn lemma_inertia_ends(s: State, dt: int, n: nat)
    requires
        s.wf(),
        dt >= 0,
        n > s.speed(),
    ensures
        s.ticks(dt, n).status == Status::Ended,
        s.ticks(dt, n).velocity == (0i64, 0i64),
    decreases n,
{
    let s1 = s.tick_spec(dt);
    lemma_decay_bound(s.velocity.0 as int, s.slow_factor as int, dt);
    lemma_decay_bound(s.velocity.1 as int, s.slow_factor as int, dt);
    if s1.status == Status::Ended && s1.velocity == (0i64, 0i64) {
        lemma_rest_stays(s1, dt, (n - 1) as nat);
    } else {
        assert(s1.speed() < s.speed());
        lemma_inertia_ends(s1, dt, (n - 1) as nat);
    }
}

impl Default for Status {
    fn default() -> (r: Status)
        ensures
            r == Status::InProgress,
    {
        Status::InProgress
    }
}

} // verus!
