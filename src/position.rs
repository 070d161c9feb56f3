use vstd::prelude::*;

use crate::angle::{angle_delta, shortest_delta};

verus! {

/// Position integrator: accumulates the signed motion between successive raw
/// encoder samples and remembers the last sample as the mechanical angle.
pub struct Position {
    angle: u16,
    position: i32,
}

impl Position {
    /// The mechanical angle: the last raw sample.
    pub closed spec fn angle_spec(&self) -> u16 {
        self.angle
    }

    /// The accumulated position (wraps over the `i32` range).
    pub closed spec fn position_spec(&self) -> i32 {
        self.position
    }

    /// The integrator after one more raw sample.
    pub open spec fn next_position(&self, raw: u16) -> i32 {
        self.position_spec().wrapping_add(angle_delta(self.angle_spec(), raw) as i32)
    }

    pub fn new() -> (r: Self)
        ensures
            r.angle_spec() == 0,
            r.position_spec() == 0,
    {
        Position { angle: 0, position: 0 }
    }

    /// Feed one raw angular sample.
    pub fn tick(&mut self, raw: u16)
        ensures
            final(self).angle_spec() == raw,
            final(self).position_spec() == old(self).next_position(raw),
    {
        let delta: i32 = shortest_delta(self.angle, raw);
        self.position = self.position.wrapping_add(delta);
        self.angle = raw;
    }

    pub fn angle(&self) -> (r: u16)
        ensures
            r == self.angle_spec(),
    {
        self.angle
    }

    pub fn position(&self) -> (r: i32)
        ensures
            r == self.position_spec(),
    {
        self.position
    }
}

} // verus!
