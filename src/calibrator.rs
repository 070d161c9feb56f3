use vstd::prelude::*;

use crate::angle::{advance_angle, wrap_angle};

verus! {

/// Electrical-angle step forced on each calibration tick.
pub const CALIBRATION_STEP: u16 = 64;

/// Angle calibrator: forces a rotating electrical angle for one second of
/// ticks, then records the offset between that angle and the measured
/// position and from then on corrects mechanical angles by it.
pub struct AngleCalibrator {
    duration: u32,
    elapsed: u32,
    angle: u16,
    offset: u16,
    ready: bool,
}

/// Number of calibration ticks for a tick frequency (at least one).
pub open spec fn calibration_ticks(frequency: u16) -> int {
    if frequency == 0 {
        1
    } else {
        frequency as int
    }
}

impl AngleCalibrator {
    pub closed spec fn duration_spec(&self) -> int {
        self.duration as int
    }

    pub closed spec fn elapsed_spec(&self) -> int {
        self.elapsed as int
    }

    pub closed spec fn angle_spec(&self) -> u16 {
        self.angle
    }

    pub closed spec fn offset_spec(&self) -> u16 {
        self.offset
    }

    pub closed spec fn ready_spec(&self) -> bool {
        self.ready
    }

    pub open spec fn wf(&self) -> bool {
        &&& 1 <= self.duration_spec() <= 65535
        &&& 0 <= self.elapsed_spec() <= self.duration_spec()
        &&& self.ready_spec() <==> self.elapsed_spec() == self.duration_spec()
    }

    /// The forced angle after one more calibration tick.
    pub open spec fn next_angle(&self) -> int {
        if self.ready_spec() {
            self.angle_spec() as int
        } else {
            wrap_angle(self.angle_spec() + CALIBRATION_STEP)
        }
    }

    /// A calibrator that has not started yet, timed for `frequency`.
    pub open spec fn is_fresh(&self, frequency: u16) -> bool {
        &&& self.wf()
        &&& self.duration_spec() == calibration_ticks(frequency)
        &&& self.elapsed_spec() == 0
        &&& self.angle_spec() == 0
        &&& self.offset_spec() == 0
        &&& !self.ready_spec()
    }

    /// `next` is this calibrator after one tick at `position`.
    pub open spec fn ticks_to(&self, next: Self, position: i32) -> bool {
        &&& next.wf()
        &&& next.angle_spec() == self.next_angle()
        &&& next.duration_spec() == self.duration_spec()
        &&& self.ready_spec() ==> next == *self
        &&& !self.ready_spec() ==> {
            &&& next.elapsed_spec() == self.elapsed_spec() + 1
            &&& next.ready_spec() == (next.elapsed_spec() == next.duration_spec())
            &&& next.ready_spec() ==> next.offset_spec() as int == wrap_angle(
                next.angle_spec() - position,
            )
            &&& !next.ready_spec() ==> next.offset_spec() == self.offset_spec()
        }
    }

    pub fn new(frequency: u16) -> (r: Self)
        ensures
            r.is_fresh(frequency),
    {
        let duration: u32 = if frequency == 0 {
            1
        } else {
            frequency as u32
        };
        AngleCalibrator { duration, elapsed: 0, angle: 0, offset: 0, ready: false }
    }

    /// One calibration tick: advance the forced angle, and once the duration
    /// has run out record the offset to `position` and report completion.
    /// After completion the forced angle holds still.
    pub fn tick(&mut self, position: i32) -> (r: u16)
        requires
            old(self).wf(),
        ensures
            old(self).ticks_to(*final(self), position),
            r == final(self).angle_spec(),
    {
        if !self.ready {
            self.angle = advance_angle(self.angle, CALIBRATION_STEP as i32);
            self.elapsed = self.elapsed + 1;
            if self.elapsed == self.duration {
                self.ready = true;
                let mechanical: u16 = (position & 0xffff) as u16;
                proof {
                    assert((position & 0xffff) as int == position % 65536) by (bit_vector);
                }
                self.offset = advance_angle(self.angle, -(mechanical as i32));
            }
        }
        self.angle
    }

    /// Whether calibration has completed.
    pub fn is_ready(&self) -> (r: bool)
        ensures
            r == self.ready_spec(),
    {
        self.ready
    }

    /// Correct a (filtered) mechanical angle by the calibrated offset.
    /// Returns the completion flag and the corrected electrical angle.
    pub fn get_correction(&self, angle: u16) -> (r: (bool, u16))
        ensures
            r.0 == self.ready_spec(),
            r.1 as int == wrap_angle(angle + self.offset_spec()),
    {
        (self.ready, advance_angle(angle, self.offset as i32))
    }
}

} // verus!
