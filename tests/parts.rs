use tunepulse_algo::angle::{advance_angle, shortest_delta};
use tunepulse_algo::calibrator::AngleCalibrator;
use tunepulse_algo::duty::duty_amplitude;
use tunepulse_algo::filter::FilterLPF;
use tunepulse_algo::position::Position;
use tunepulse_algo::pwm::{ControlMode, DriverPWM, Motor, MotorType, PhasePattern};
use tunepulse_algo::supply::SupplyVoltage;

#[test]
fn amplitude_is_the_voltage_ratio() {
    assert_eq!(duty_amplitude(100, 32767), 100);
    assert_eq!(duty_amplitude(-100, 32767), -100);
    assert_eq!(duty_amplitude(1, 1), 16384);
    assert_eq!(duty_amplitude(-3, 7), -12288);
    assert_eq!(duty_amplitude(0, 12000), 0);
}

#[test]
fn amplitude_saturates_instead_of_wrapping() {
    assert_eq!(duty_amplitude(16384, 6001), 32767);
    assert_eq!(duty_amplitude(-16384, 6001), -32768);
    assert_eq!(duty_amplitude(i32::MAX, 0), 32767);
    assert_eq!(duty_amplitude(i32::MIN, 0), -32768);
    // the numerator needs more than 32 bits
    assert_eq!(duty_amplitude(100000, 200000), 16383);
}

#[test]
fn amplitude_with_zero_supply_is_defined() {
    assert_eq!(duty_amplitude(0, 0), 0);
    assert_eq!(duty_amplitude(1, 0), 32767);
    // the exact ratio -32768 fits an i16 and is kept
    assert_eq!(duty_amplitude(-1, 0), -32768);
    assert_eq!(duty_amplitude(-2, 0), -32768);
}

#[test]
fn supply_calibration_and_scale() {
    let mut s = SupplyVoltage::new(12000);
    assert_eq!(s.voltage(), 0);
    s.tick(2048);
    assert_eq!(s.voltage(), 6001);
    assert_eq!(s.voltage_norm(), 16386);
    s.tick(5000);
    assert_eq!(s.voltage(), 12000);
    assert_eq!(s.voltage_norm(), 32767);
    let mut z = SupplyVoltage::new(-5);
    z.tick(4095);
    assert_eq!(z.voltage(), 0);
    assert_eq!(z.voltage_norm(), 0);
}

#[test]
fn position_takes_shortest_step() {
    let mut p = Position::new();
    p.tick(1000);
    assert_eq!(p.position(), 1000);
    p.tick(65000);
    assert_eq!(p.position(), -536);
    assert_eq!(p.angle(), 65000);
}

#[test]
fn angle_helpers_wrap() {
    assert_eq!(shortest_delta(65530, 4), 10);
    assert_eq!(shortest_delta(4, 65530), -10);
    assert_eq!(advance_angle(65530, 10), 4);
    assert_eq!(advance_angle(4, -10), 65530);
}

#[test]
fn filter_moves_toward_input() {
    let mut pass = FilterLPF::new(0, 0);
    assert_eq!(pass.tick(500), 500);
    let mut half = FilterLPF::new(0, 1);
    assert_eq!(half.tick(100), 50);
    let mut wrap = FilterLPF::new(10, 1);
    assert_eq!(wrap.tick(65530), 2);
}

#[test]
fn calibrator_records_offset_on_completion() {
    let mut c = AngleCalibrator::new(3);
    assert_eq!(c.tick(0), 64);
    assert_eq!(c.tick(0), 128);
    assert!(!c.is_ready());
    assert_eq!(c.tick(100), 192);
    assert!(c.is_ready());
    assert_eq!(c.get_correction(10), (true, 102));
    assert_eq!(c.tick(5000), 192);
}

#[test]
fn synthesizer_layouts() {
    let dc = DriverPWM::new(Motor { pole_type: MotorType::Dc, connection: PhasePattern::Abcd }, ControlMode::CurrentAB);
    assert_eq!(dc.tick((0, 1000), 100, [0; 4]), [1000, -1000, 0, 0]);
    assert_eq!(dc.tick((0, 1000), 0, [0; 4]), [0; 4]);
    assert_eq!(dc.tick((0, 1000), 100, [32767, 5, 0, 0]), [32767, -995, 0, 0]);

    assert_eq!(dc.tick((0, -32768), 100, [0; 4]), [-32767, 32767, 0, 0]);

    let st = DriverPWM::new(Motor { pole_type: MotorType::Stepper, connection: PhasePattern::Acbd }, ControlMode::CurrentAB);
    assert_eq!(st.tick((0, 32767), 100, [0; 4]), [32766, 0, -32766, 0]);
    assert_eq!(st.tick((0, -32768), 100, [0; 4]), [-32767, 0, 32767, 0]);

    let mut bl = DriverPWM::new(Motor::new(), ControlMode::CurrentAB);
    bl.change_motor_mode(MotorType::Bldc);
    assert_eq!(bl.tick((0, 32767), 100, [0; 4]), [32766, -10921, -10923, 0]);
    bl.change_phase_mode(PhasePattern::Adbc);
    assert_eq!(bl.tick((0, 32767), 100, [0; 4]), [32766, 0, -10921, -10923]);
}
