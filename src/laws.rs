use vstd::prelude::*;

use crate::pwm::{output_duty, Motor};
use crate::{reconfigured, tick_relation, DriverStatus, MotorController};

verus! {

/// Calibration completion drives the state machine monotonically: a
/// calibrating controller becomes Ready on exactly the tick on which the
/// calibrator reports completion (not before), and a Ready controller, or a
/// completed calibrator, stays so on every later tick.
pub proof fn completion_is_monotone(
    pre: MotorController,
    post: MotorController,
    voltage_on_motor: i32,
    encoder_pos: u16,
    supply: u16,
    out: [i16; 4],
)
    requires
        pre.wf(),
        tick_relation(pre, post, voltage_on_motor, encoder_pos, supply, out),
    ensures
        pre.status_spec() == DriverStatus::Calibrating && post.calibrator().ready_spec()
            ==> post.status_spec() == DriverStatus::Ready,
        pre.status_spec() == DriverStatus::Calibrating && !post.calibrator().ready_spec()
            ==> post.status_spec() == DriverStatus::Calibrating,
        pre.status_spec() == DriverStatus::Ready ==> post.status_spec() == DriverStatus::Ready,
        pre.calibrator().ready_spec() ==> post.calibrator().ready_spec(),
{
}

/// In the Error state a tick drives nothing: the amplitude is zero whatever
/// the requested voltage and supply reading, the state stays Error, and the
/// duties are those of a zero amplitude.
pub proof fn error_forces_zero_drive(
    pre: MotorController,
    post: MotorController,
    voltage_on_motor: i32,
    encoder_pos: u16,
    supply: u16,
    out: [i16; 4],
)
    requires
        pre.status_spec() == DriverStatus::Error,
        tick_relation(pre, post, voltage_on_motor, encoder_pos, supply, out),
    ensures
        post.amplitude_spec() == 0,
        post.status_spec() == DriverStatus::Error,
        forall|i: int|
            0 <= i < 4 ==> out[i] as int == output_duty(
                pre.synth().motor_spec(),
                pre.angle_el_spec() as int,
                0,
                post.regulator().norm_spec(),
                0,
                i,
            ),
{
}

/// The array a tick returns is exactly what the controller then holds, and
/// so what `get_pwm` reads back.
pub proof fn pwm_reads_back_last_tick(
    pre: MotorController,
    post: MotorController,
    voltage_on_motor: i32,
    encoder_pos: u16,
    supply: u16,
    out: [i16; 4],
)
    requires
        tick_relation(pre, post, voltage_on_motor, encoder_pos, supply, out),
    ensures
        post.pwm_spec() == out,
{
}

/// Changing the motor or wiring configuration leaves the driver state and
/// the calibration progress as they were.
pub proof fn reconfiguration_keeps_progress(pre: MotorController, post: MotorController, motor: Motor)
    requires
        reconfigured(pre, post, motor),
    ensures
        post.status_spec() == pre.status_spec(),
        post.calibrator() == pre.calibrator(),
{
}

} // verus!
