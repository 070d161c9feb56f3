use vstd::prelude::*;

use crate::duty::DUTY_MAX;

verus! {

/// Largest raw sample of the supply ADC; larger samples are clamped to it.
pub const ADC_FULL_SCALE: u16 = 4095;

/// A raw sample clamped to the ADC's range.
pub open spec fn clamp_sample(raw: u16) -> int {
    if raw > ADC_FULL_SCALE {
        ADC_FULL_SCALE as int
    } else {
        raw as int
    }
}

/// Calibrated voltage of a raw sample: full scale reads as `max_voltage`.
pub open spec fn calibrated_voltage(raw: u16, max_voltage: int) -> int {
    clamp_sample(raw) * max_voltage / (ADC_FULL_SCALE as int)
}

/// Supply scale normalised so that `max_voltage` reads as the largest duty.
pub open spec fn normalized_voltage(voltage: int, max_voltage: int) -> int {
    if max_voltage == 0 {
        0
    } else {
        voltage * (DUTY_MAX as int) / max_voltage
    }
}

/// Supply regulator: turns a raw bus-voltage sample into a calibrated voltage
/// and a normalised scale factor.
pub struct SupplyVoltage {
    max_voltage: i32,
    voltage: i32,
    norm: i16,
}

impl SupplyVoltage {
    pub closed spec fn max_voltage_spec(&self) -> int {
        self.max_voltage as int
    }

    pub closed spec fn voltage_spec(&self) -> int {
        self.voltage as int
    }

    pub closed spec fn norm_spec(&self) -> int {
        self.norm as int
    }

    pub open spec fn wf(&self) -> bool {
        &&& self.max_voltage_spec() >= 0
        &&& 0 <= self.voltage_spec() <= self.max_voltage_spec()
        &&& 0 <= self.norm_spec() <= DUTY_MAX
    }

    /// A regulator scaled to `max_voltage`; a negative bound counts as zero.
    pub fn new(max_voltage: i32) -> (r: Self)
        ensures
            r.wf(),
            r.max_voltage_spec() == if max_voltage < 0 {
                0
            } else {
                max_voltage as int
            },
            r.voltage_spec() == 0,
            r.norm_spec() == 0,
    {
        let max_voltage: i32 = if max_voltage < 0 {
            0
        } else {
            max_voltage
        };
        SupplyVoltage { max_voltage, voltage: 0, norm: 0 }
    }

    /// Feed one raw sample; never fails.
    pub fn tick(&mut self, raw: u16)
        requires
            old(self).wf(),
        ensures
            final(self).wf(),
            final(self).max_voltage_spec() == old(self).max_voltage_spec(),
            final(self).voltage_spec() == calibrated_voltage(raw, old(self).max_voltage_spec()),
            final(self).norm_spec() == normalized_voltage(
                final(self).voltage_spec(),
                old(self).max_voltage_spec(),
            ),
    {
        let sample: u64 = if raw > ADC_FULL_SCALE {
            ADC_FULL_SCALE as u64
        } else {
            raw as u64
        };
        let max: u64 = self.max_voltage as u64;
        proof {
            assert(sample * max <= 4095 * 0x7fff_ffff) by (nonlinear_arith)
                requires
                    sample <= 4095,
                    max <= 0x7fff_ffff,
            ;
        }
        let product: u64 = sample * max;
        let voltage: u64 = product / (ADC_FULL_SCALE as u64);
        proof {
            assert(voltage <= max) by (nonlinear_arith)
                requires
                    sample <= 4095,
                    product == sample * max,
                    voltage == product / 4095,
            ;
        }
        let norm: u64 = if max == 0 {
            0
        } else {
            let scaled: u64 = voltage * (DUTY_MAX as u64);
            let n: u64 = scaled / max;
            proof {
                assert(n <= DUTY_MAX) by (nonlinear_arith)
                    requires
                        voltage <= max,
                        max > 0,
                        scaled == voltage * 32767,
                        n == scaled / max,
                ;
            }
            n
        };
        self.voltage = voltage as i32;
        self.norm = norm as i16;
    }

    /// Calibrated voltage of the last sample.
    pub fn voltage(&self) -> (r: i32)
        ensures
            r as int == self.voltage_spec(),
    {
        self.voltage
    }

    /// Normalised supply scale of the last sample.
    pub fn voltage_norm(&self) -> (r: i16)
        ensures
            r as int == self.norm_spec(),
    {
        self.norm
    }
}

} // verus!
