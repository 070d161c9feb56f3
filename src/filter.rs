use vstd::prelude::*;

use crate::angle::{advance_angle, angle_delta, shortest_delta, wrap_angle};
use crate::duty::div_toward_zero;

verus! {

/// First-order low-pass filter on angles: each sample moves the output by
/// the shortest step toward the input, divided by `smoothing + 1`.
pub struct FilterLPF {
    value: u16,
    smoothing: u16,
}

impl FilterLPF {
    pub closed spec fn value_spec(&self) -> u16 {
        self.value
    }

    pub closed spec fn smoothing_spec(&self) -> u16 {
        self.smoothing
    }

    /// The output after feeding `input`.
    pub open spec fn next_value(&self, input: u16) -> int {
        wrap_angle(
            self.value_spec() + div_toward_zero(
                angle_delta(self.value_spec(), input),
                self.smoothing_spec() + 1,
            ),
        )
    }

    /// A filter starting at `initial`; a `smoothing` of zero passes its input through.
    pub fn new(initial: u16, smoothing: u16) -> (r: Self)
        ensures
            r.value_spec() == initial,
            r.smoothing_spec() == smoothing,
    {
        FilterLPF { value: initial, smoothing }
    }

    /// Feed one sample and return the filtered angle.
    pub fn tick(&mut self, input: u16) -> (r: u16)
        ensures
            r as int == old(self).next_value(input),
            final(self).value_spec() == r,
            final(self).smoothing_spec() == old(self).smoothing_spec(),
    {
        let delta: i32 = shortest_delta(self.value, input);
        let magnitude: u32 = if delta >= 0 {
            delta as u32
        } else {
            (-delta) as u32
        };
        let divisor: u32 = self.smoothing as u32 + 1;
        let q: u32 = magnitude / divisor;
        proof {
            assert(q <= magnitude) by (nonlinear_arith)
                requires
                    q == magnitude / divisor,
                    divisor >= 1,
            ;
        }
        let step: i32 = if delta >= 0 {
            q as i32
        } else {
            -(q as i32)
        };
        self.value = advance_angle(self.value, step);
        self.value
    }
}

} // verus!
