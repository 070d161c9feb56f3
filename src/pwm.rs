use vstd::prelude::*;

use crate::angle::wrap_angle;
use crate::duty::{clamp_duty, div_toward_zero, DUTY_MAX};

verus! {

/// Pole arrangement of the driven motor.
#[derive(Clone, Copy, Debug, PartialEq, Eq, Structural)]
pub enum MotorType {
    /// One winding across one bridge pair.
    Dc,
    /// Two windings in quadrature.
    Stepper,
    /// Three windings spaced a third of a turn apart.
    Bldc,
}

/// Order in which the windings' terminals are wired to the four outputs.
#[derive(Clone, Copy, Debug, PartialEq, Eq, Structural)]
pub enum PhasePattern {
    Abcd,
    Acbd,
    Adbc,
}

/// Regulation scheme the synthesizer is configured for.
#[derive(Clone, Copy, Debug, PartialEq, Eq, Structural)]
pub enum ControlMode {
    Voltage,
    CurrentAB,
}

/// Motor and wiring descriptor.
#[derive(Clone, Copy, Debug, PartialEq, Eq, Structural)]
pub struct Motor {
    pub pole_type: MotorType,
    pub connection: PhasePattern,
}

impl Motor {
    /// A stepper wired in the natural order.
    pub fn new() -> (r: Self)
        ensures
            r.pole_type == MotorType::Stepper,
            r.connection == PhasePattern::Abcd,
    {
        Motor { pole_type: MotorType::Stepper, connection: PhasePattern::Abcd }
    }
}

/// Triangle approximation of the cosine over one revolution, in duty units.
pub open spec fn wave(angle: int) -> int {
    let p = wrap_angle(angle);
    let d = if p >= 32768 {
        p - 32768
    } else {
        32768 - p
    };
    clamp_duty(2 * d - 32768)
}

/// A wave value scaled by a duty amplitude.
pub open spec fn scaled(w: int, amplitude: int) -> int {
    div_toward_zero(w * amplitude, 32768)
}

/// Winding drive on output slot `i` before the wiring pattern is applied.
pub open spec fn winding_drive(pole_type: MotorType, angle: int, amplitude: int, i: int) -> int {
    match pole_type {
        MotorType::Dc => {
            if i == 0 {
                amplitude
            } else if i == 1 {
                -amplitude
            } else {
                0
            }
        },
        MotorType::Stepper => {
            let a = scaled(wave(angle), amplitude);
            let b = scaled(wave(angle - 16384), amplitude);
            if i == 0 {
                a
            } else if i == 1 {
                -a
            } else if i == 2 {
                b
            } else {
                -b
            }
        },
        MotorType::Bldc => {
            if i == 0 {
                scaled(wave(angle), amplitude)
            } else if i == 1 {
                scaled(wave(angle - 21845), amplitude)
            } else if i == 2 {
                scaled(wave(angle - 43690), amplitude)
            } else {
                0
            }
        },
    }
}

/// Which winding slot feeds output `i` under a wiring pattern.
pub open spec fn slot_of(connection: PhasePattern, i: int) -> int {
    match connection {
        PhasePattern::Abcd => i,
        PhasePattern::Acbd => {
            if i == 1 {
                2
            } else if i == 2 {
                1
            } else {
                i
            }
        },
        PhasePattern::Adbc => {
            if i == 1 {
                3
            } else if i == 2 {
                1
            } else if i == 3 {
                2
            } else {
                0
            }
        },
    }
}

/// Duty on output `i`: nothing without supply, else the wired winding drive
/// plus compensation, saturated.
pub open spec fn output_duty(
    motor: Motor,
    angle: int,
    amplitude: int,
    supply_scale: int,
    compensation: int,
    i: int,
) -> int {
    if supply_scale <= 0 {
        0
    } else {
        clamp_duty(
            winding_drive(motor.pole_type, angle, amplitude, slot_of(motor.connection, i))
                + compensation,
        )
    }
}

/// PWM synthesizer: maps an electrical angle and amplitude onto four duties.
pub struct DriverPWM {
    motor: Motor,
    mode: ControlMode,
}

fn triangle(angle: u16) -> (r: i32)
    ensures
        r as int == wave(angle as int),
        -32767 <= r <= 32767,
{
    let p: i32 = angle as i32;
    let d: i32 = if p >= 32768 {
        p - 32768
    } else {
        32768 - p
    };
    let v: i32 = 2 * d - 32768;
    if v > 32767 {
        32767
    } else if v < -32767 {
        -32767
    } else {
        v
    }
}

fn scale(w: i32, amplitude: i16) -> (r: i32)
    requires
        -32767 <= w <= 32767,
    ensures
        r as int == scaled(w as int, amplitude as int),
        -32767 <= r <= 32767,
{
    proof {
        assert(-32767 * 32768 <= w * amplitude <= 32767 * 32768) by (nonlinear_arith)
            requires
                -32767 <= w <= 32767,
                -32768 <= amplitude <= 32767,
        ;
    }
    let product: i64 = w as i64 * amplitude as i64;
    let magnitude: u64 = if product >= 0 {
        product as u64
    } else {
        (-product) as u64
    };
    let q: u64 = magnitude / 32768;
    if product >= 0 {
        q as i32
    } else {
        -(q as i32)
    }
}

fn saturate(x: i32) -> (r: i16)
    ensures
        r as int == clamp_duty(x as int),
{
    if x > DUTY_MAX as i32 {
        DUTY_MAX
    } else if x < -(DUTY_MAX as i32) {
        -DUTY_MAX
    } else {
        x as i16
    }
}

impl DriverPWM {
    pub closed spec fn motor_spec(&self) -> Motor {
        self.motor
    }

    pub closed spec fn mode_spec(&self) -> ControlMode {
        self.mode
    }

    pub fn new(motor: Motor, mode: ControlMode) -> (r: Self)
        ensures
            r.motor_spec() == motor,
            r.mode_spec() == mode,
    {
        DriverPWM { motor, mode }
    }

    pub fn change_motor_mode(&mut self, pole_type: MotorType)
        ensures
            final(self).motor_spec() == (Motor { pole_type, ..old(self).motor_spec() }),
            final(self).mode_spec() == old(self).mode_spec(),
    {
        self.motor.pole_type = pole_type;
    }

    pub fn change_phase_mode(&mut self, connection: PhasePattern)
        ensures
            final(self).motor_spec() == (Motor { connection, ..old(self).motor_spec() }),
            final(self).mode_spec() == old(self).mode_spec(),
    {
        self.motor.connection = connection;
    }

    /// Four duties for `(angle, amplitude)`, the supply scale and a
    /// per-output compensation term.
    pub fn tick(&self, command: (u16, i16), supply_scale: i16, compensation: [i16; 4]) -> (r: [i16; 4])
        ensures
            forall|i: int|
                0 <= i < 4 ==> r[i] as int == output_duty(
                    self.motor_spec(),
                    command.0 as int,
                    command.1 as int,
                    supply_scale as int,
                    compensation[i] as int,
                    i,
                ),
    {
        let (angle, amplitude) = command;
        let mut drive: [i32; 4] = [0; 4];
        match self.motor.pole_type {
            MotorType::Dc => {
                drive = [amplitude as i32, -(amplitude as i32), 0, 0];
            },
            MotorType::Stepper => {
                let a: i32 = scale(triangle(angle), amplitude);
                let b: i32 = scale(triangle(angle.wrapping_sub(16384)), amplitude);
                drive = [a, -a, b, -b];
            },
            MotorType::Bldc => {
                let u: i32 = scale(triangle(angle), amplitude);
                let v: i32 = scale(triangle(angle.wrapping_sub(21845)), amplitude);
                let w: i32 = scale(triangle(angle.wrapping_sub(43690)), amplitude);
                drive = [u, v, w, 0];
            },
        }
        let wired: [i32; 4] = match self.motor.connection {
            PhasePattern::Abcd => drive,
            PhasePattern::Acbd => [drive[0], drive[2], drive[1], drive[3]],
            PhasePattern::Adbc => [drive[0], drive[3], drive[1], drive[2]],
        };
        if supply_scale <= 0 {
            return [0; 4];
        }
        [
            saturate(wired[0] + compensation[0] as i32),
            saturate(wired[1] + compensation[1] as i32),
            saturate(wired[2] + compensation[2] as i32),
            saturate(wired[3] + compensation[3] as i32),
        ]
    }
}

} // verus!
