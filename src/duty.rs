use vstd::prelude::*;

verus! {

/// Largest magnitude a duty value may take.
pub const DUTY_MAX: i16 = 32767;

/// Clamp an integer into the symmetric duty range.
pub open spec fn clamp_duty(x: int) -> int {
    if x > DUTY_MAX as int {
        DUTY_MAX as int
    } else if x < -(DUTY_MAX as int) {
        -(DUTY_MAX as int)
    } else {
        x
    }
}

/// Saturate an integer into the `i16` range of a duty amplitude.
pub open spec fn clamp_amplitude(x: int) -> int {
    if x > i16::MAX as int {
        i16::MAX as int
    } else if x < i16::MIN as int {
        i16::MIN as int
    } else {
        x
    }
}

/// Division rounding toward zero, as integer division does at run time.
pub open spec fn div_toward_zero(n: int, d: int) -> int
    recommends
        d > 0,
{
    if n >= 0 {
        n / d
    } else {
        -((-n) / d)
    }
}

/// The requested duty for a terminal voltage against a calibrated supply
/// voltage: `(voltage_on_motor * 2^15) / (supply_voltage + 1)`, saturated
/// where it would overflow an `i16`.
pub open spec fn duty_amplitude_spec(voltage_on_motor: int, supply_voltage: int) -> int {
    clamp_amplitude(div_toward_zero(voltage_on_motor * 32768, supply_voltage + 1))
}

/// Duty amplitude for a requested terminal voltage. The `+ 1` in the
/// denominator keeps the division defined when no supply voltage is present;
/// a ratio beyond the representable range saturates instead of wrapping.
pub fn duty_amplitude(voltage_on_motor: i32, supply_voltage: i32) -> (r: i16)
    requires
        supply_voltage >= 0,
    ensures
        r as int == duty_amplitude_spec(voltage_on_motor as int, supply_voltage as int),
{
    let magnitude: u64 = if voltage_on_motor >= 0 {
        voltage_on_motor as u64
    } else {
        (-(voltage_on_motor as i64)) as u64
    };
    let numerator: u64 = magnitude * 32768;
    let denominator: u64 = supply_voltage as u64 + 1;
    let quotient: u64 = numerator / denominator;
    proof {
        assert(numerator as int == magnitude * 32768);
    }
    if voltage_on_motor >= 0 {
        if quotient > i16::MAX as u64 {
            i16::MAX
        } else {
            quotient as i16
        }
    } else if quotient >= 32768 {
        i16::MIN
    } else {
        -(quotient as i16)
    }
}

/// For any requested voltage and any non-negative calibrated voltage the duty
/// amplitude is the ideal ratio wherever that fits an `i16`; where it would
/// overflow, the amplitude is the bound on that side (it never wraps).
pub proof fn amplitude_saturates(voltage_on_motor: i32, supply_voltage: i32)
    requires
        supply_voltage >= 0,
    ensures
        i16::MIN <= duty_amplitude_spec(voltage_on_motor as int, supply_voltage as int)
            <= i16::MAX,
        ({
            let ratio = div_toward_zero(voltage_on_motor * 32768, supply_voltage + 1);
            let amplitude = duty_amplitude_spec(voltage_on_motor as int, supply_voltage as int);
            &&& ratio > i16::MAX ==> amplitude == i16::MAX
            &&& ratio < i16::MIN ==> amplitude == i16::MIN
            &&& i16::MIN <= ratio <= i16::MAX ==> amplitude == ratio
        }),
{
}

/// With a calibrated voltage of zero the guard makes the denominator one:
/// the amplitude is the saturated numerator, defined for every request.
pub proof fn zero_supply_is_defined(voltage_on_motor: i32)
    ensures
        duty_amplitude_spec(voltage_on_motor as int, 0) == clamp_amplitude(voltage_on_motor * 32768),
{
}

} // verus!
