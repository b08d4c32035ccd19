use vstd::prelude::*;

verus! {

/// Whether a movement is going on.
#[derive(Clone, Copy, Debug, PartialEq, Eq, Structural)]
pub enum Status {
    NotMoving,
    Moving,
}

/// A movement summed up from relative steps.
#[derive(Clone, Copy, Debug)]
pub struct State {
    /// status which tells if moving is in progress
    pub status: Status,
    /// position of movement
    pub position: (i32, i32),
}

impl State {
    /// No movement going on, at the origin.
    pub fn new() -> (r: State)
        ensures
            r.status == Status::NotMoving,
            r.position == (0i32, 0i32),
    {
        State { status: Status::NotMoving, position: (0, 0) }
    }

    /// Begins a movement from the origin.
    pub fn begin(&mut self)
        ensures
            final(self).status == Status::Moving,
            final(self).position == (0i32, 0i32),
    {
        self.status = Status::Moving;
        self.position = (0, 0);
    }

    /// Ends the movement; returns where it got to.
    pub fn end(&mut self) -> (r: (i32, i32))
        ensures
            final(self).status == Status::NotMoving,
            final(self).position == old(self).position,
            r == old(self).position,
    {
        self.status = Status::NotMoving;
        self.position
    }

    /// Adds one step to the movement.
    pub fn add_movement(&mut self, movement: (i32, i32))
        requires
            i32::MIN <= old(self).position.0 + movement.0 <= i32::MAX,
            i32::MIN <= old(self).position.1 + movement.1 <= i32::MAX,
        ensures
            final(self).status == old(self).status,
            final(self).position.0 == old(self).position.0 + movement.0,
            final(self).position.1 == old(self).position.1 + movement.1,
    {
        self.position = (self.position.0 + movement.0, self.position.1 + movement.1);
    }

    /// Whether a movement is going on.
    pub fn is_moving(&self) -> (r: bool)
        ensures
            r == (self.status == Status::Moving),
    {
        self.status == Status::Moving
    }
}

impl Default for Status {
    fn default() -> (r: Status)
        ensures
            r == Status::NotMoving,
    {
        Status::NotMoving
    }
}

} // verus!
