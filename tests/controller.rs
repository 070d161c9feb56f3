use tunepulse_algo::pwm::{MotorType, PhasePattern};
use tunepulse_algo::{DriverStatus, MotorController};

fn stepper(frequency: u16) -> MotorController {
    MotorController::new(MotorType::Stepper, PhasePattern::Abcd, frequency, 12000)
}

#[test]
fn new_starts_calibrating_with_zero_duty() {
    let mut c = stepper(1000);
    assert_eq!(c.driver_status(), DriverStatus::Calibrating);
    assert_eq!(c.get_pwm(), [0; 4]);
    assert_eq!(c.amplitude(), 0);
    assert_eq!(c.angle_el(), 0);
}

#[test]
fn calibrating_tick_uses_forced_angle_and_saturated_amplitude() {
    let mut c = stepper(1000);
    let out = c.tick(16384, 1000, 2048);
    // forced angle: one calibration step from zero
    assert_eq!(c.angle_el(), 64);
    // 16384 * 2^15 / (6001 + 1) is far above the duty range
    assert_eq!(c.amplitude(), 32767);
    assert_eq!(out, [32639, -32639, 127, -127]);
    assert_eq!(c.driver_status(), DriverStatus::Calibrating);

    // the encoder reading does not reach the output while calibrating
    let mut d = stepper(1000);
    assert_eq!(d.tick(16384, 30000, 2048), out);
}

#[test]
fn completion_flips_to_ready_on_its_tick() {
    let mut c = stepper(5);
    for _ in 0..4 {
        c.tick(1000, 0, 2048);
        assert_eq!(c.driver_status(), DriverStatus::Calibrating);
    }
    c.tick(1000, 0, 2048);
    assert_eq!(c.driver_status(), DriverStatus::Ready);
    assert_eq!(c.ticks_ready(), 0);
    c.tick(1000, 0, 2048);
    assert_eq!(c.driver_status(), DriverStatus::Ready);
    assert_eq!(c.ticks_ready(), 1);
}

#[test]
fn ready_tick_applies_calibrated_offset() {
    let mut c = stepper(1);
    // completes at once: forced angle 64 against mechanical position 0
    c.tick(0, 0, 2048);
    assert_eq!(c.driver_status(), DriverStatus::Ready);
    assert_eq!(c.angle_el(), 64);
    c.tick(0, 100, 2048);
    assert_eq!(c.angle_el(), 164);
}

#[test]
fn error_state_forces_zero_drive() {
    let mut c = stepper(1000);
    c.tick(16384, 1000, 2048);
    c.enter_error();
    assert_eq!(c.driver_status(), DriverStatus::Error);
    let out = c.tick(16384, 1200, 4095);
    assert_eq!(c.amplitude(), 0);
    assert_eq!(out, [0; 4]);
    c.tick(-20000, 7, 0);
    assert_eq!(c.amplitude(), 0);
    assert_eq!(c.driver_status(), DriverStatus::Error);
}

#[test]
fn get_pwm_returns_last_tick_output() {
    let mut c = stepper(1000);
    let first = c.tick(500, 10, 3000);
    assert_eq!(c.get_pwm(), first);
    let second = c.tick(-16384, 20, 2048);
    assert_eq!(c.get_pwm(), second);
    assert_eq!(c.get_pwm(), second);
}

#[test]
fn mode_changes_keep_state_and_progress() {
    let mut c = stepper(2);
    c.tick(1000, 0, 2048);
    c.change_motor_mode(MotorType::Bldc);
    c.change_phase_mode(PhasePattern::Acbd);
    assert_eq!(c.driver_status(), DriverStatus::Calibrating);
    c.tick(1000, 0, 2048);
    assert_eq!(c.driver_status(), DriverStatus::Ready);
    c.change_motor_mode(MotorType::Dc);
    assert_eq!(c.driver_status(), DriverStatus::Ready);
}

#[test]
fn zero_supply_gives_no_drive() {
    let mut c = stepper(1000);
    let out = c.tick(16384, 0, 0);
    // 16384 * 2^15 / (0 + 1) saturates, but there is no supply to drive
    assert_eq!(c.amplitude(), 32767);
    assert_eq!(out, [0; 4]);
    c.tick(-1, 0, 0);
    assert_eq!(c.amplitude(), -32768);
}
