use vstd::prelude::*;

pub mod angle;
pub mod calibrator;
pub mod duty;
pub mod filter;
pub mod laws;
pub mod position;
pub mod pwm;
pub mod supply;

use crate::angle::wrap_angle;
use crate::calibrator::AngleCalibrator;
use crate::duty::{duty_amplitude, duty_amplitude_spec};
use crate::filter::FilterLPF;
use crate::position::Position;
use crate::pwm::{ControlMode, DriverPWM, Motor, MotorType, PhasePattern, output_duty};
use crate::supply::{SupplyVoltage, calibrated_voltage, normalized_voltage};

verus! {

/// Lifecycle state of the controller.
#[derive(Clone, Copy, Debug, PartialEq, Eq, Structural)]
pub enum DriverStatus {
    Calibrating,
    Ready,
    Error,
}

/// The per-tick motor control core: it feeds the sensors into the position
/// integrator and supply regulator, runs the calibration / run / fault state
/// machine, and turns the requested voltage into four phase duties.
pub struct MotorController {
    motor: DriverPWM,     // duty synthesis for the configured motor and wiring
    frequency: u16,       // ticks per second
    pwm: [i16; 4],        // duties of the last tick
    position: Position,   // integrated encoder position
    driver_status: DriverStatus,
    angle_el: u16,        // electrical angle; wraps over one revolution
    amplitude: i16,       // duty amplitude of the last tick
    direction: i16,       // rotation direction (1 forward, -1 backward)
    speed: i16,           // calibration speed, steps per tick
    angle_calibrator: AngleCalibrator,
    filter: FilterLPF,    // smooths the mechanical angle while Ready
    supply: SupplyVoltage,
    ticker: i32,          // ticks run while Ready; kept for later scheduling use
}

/// What one `tick` does: `post` is `pre` after a tick with the given inputs,
/// and `out` is the duty array it returned.
pub open spec fn tick_relation(
    pre: MotorController,
    post: MotorController,
    voltage_on_motor: i32,
    encoder_pos: u16,
    supply: u16,
    out: [i16; 4],
) -> bool {
    let voltage = calibrated_voltage(supply, pre.regulator().max_voltage_spec());
    &&& post.wf()
    // sensors
    &&& post.integrator().angle_spec() == encoder_pos
    &&& post.integrator().position_spec() == pre.integrator().next_position(encoder_pos)
    &&& post.regulator().max_voltage_spec() == pre.regulator().max_voltage_spec()
    &&& post.regulator().voltage_spec() == voltage
    &&& post.regulator().norm_spec() == normalized_voltage(
        voltage,
        pre.regulator().max_voltage_spec(),
    )
    // amplitude: the saturated voltage ratio, forced to zero in Error
    &&& post.amplitude_spec() as int == if pre.status_spec() == DriverStatus::Error {
        0
    } else {
        duty_amplitude_spec(voltage_on_motor as int, voltage)
    }
    // state machine
    &&& match pre.status_spec() {
        DriverStatus::Ready => {
            &&& post.status_spec() == DriverStatus::Ready
            &&& post.ticker_spec() == pre.ticker_spec().wrapping_add(1)
            &&& post.lpf().smoothing_spec() == pre.lpf().smoothing_spec()
            &&& post.lpf().value_spec() as int == pre.lpf().next_value(encoder_pos)
            &&& post.calibrator() == pre.calibrator()
            &&& post.angle_el_spec() as int == wrap_angle(
                post.lpf().value_spec() + pre.calibrator().offset_spec(),
            )
        },
        DriverStatus::Error => {
            &&& post.status_spec() == DriverStatus::Error
            &&& post.ticker_spec() == pre.ticker_spec()
            &&& post.lpf() == pre.lpf()
            &&& post.calibrator() == pre.calibrator()
            &&& post.angle_el_spec() == pre.angle_el_spec()
        },
        DriverStatus::Calibrating => {
            &&& pre.calibrator().ticks_to(post.calibrator(), post.integrator().position_spec())
            &&& post.angle_el_spec() == post.calibrator().angle_spec()
            &&& post.status_spec() == if post.calibrator().ready_spec() {
                DriverStatus::Ready
            } else {
                DriverStatus::Calibrating
            }
            &&& post.ticker_spec() == pre.ticker_spec()
            &&& post.lpf() == pre.lpf()
        },
    }
    // configuration is untouched
    &&& post.synth() == pre.synth()
    &&& post.frequency_spec() == pre.frequency_spec()
    &&& post.motion_spec() == pre.motion_spec()
    // output: the synthesizer's duties with no compensation, stored and returned
    &&& forall|i: int|
        0 <= i < 4 ==> out[i] as int == output_duty(
            pre.synth().motor_spec(),
            post.angle_el_spec() as int,
            post.amplitude_spec() as int,
            post.regulator().norm_spec(),
            0,
            i,
        )
    &&& post.pwm_spec() == out
}

/// `post` is `pre` with only its configuration of the synthesizer replaced
/// by `motor`: state, calibration progress and outputs are kept.
pub open spec fn reconfigured(pre: MotorController, post: MotorController, motor: Motor) -> bool {
    &&& post.wf()
    &&& post.synth().motor_spec() == motor
    &&& post.synth().mode_spec() == pre.synth().mode_spec()
    &&& post.status_spec() == pre.status_spec()
    &&& post.calibrator() == pre.calibrator()
    &&& post.pwm_spec() == pre.pwm_spec()
    &&& post.amplitude_spec() == pre.amplitude_spec()
    &&& post.angle_el_spec() == pre.angle_el_spec()
    &&& post.ticker_spec() == pre.ticker_spec()
    &&& post.frequency_spec() == pre.frequency_spec()
    &&& post.motion_spec() == pre.motion_spec()
    &&& post.integrator() == pre.integrator()
    &&& post.lpf() == pre.lpf()
    &&& post.regulator() == pre.regulator()
}

impl MotorController {
    pub closed spec fn status_spec(&self) -> DriverStatus {
        self.driver_status
    }

    pub closed spec fn pwm_spec(&self) -> [i16; 4] {
        self.pwm
    }

    pub closed spec fn amplitude_spec(&self) -> i16 {
        self.amplitude
    }

    pub closed spec fn angle_el_spec(&self) -> u16 {
        self.angle_el
    }

    pub closed spec fn ticker_spec(&self) -> i32 {
        self.ticker
    }

    pub closed spec fn frequency_spec(&self) -> u16 {
        self.frequency
    }

    pub closed spec fn motion_spec(&self) -> (i16, i16) {
        (self.direction, self.speed)
    }

    pub closed spec fn synth(&self) -> DriverPWM {
        self.motor
    }

    pub closed spec fn integrator(&self) -> Position {
        self.position
    }

    pub closed spec fn calibrator(&self) -> AngleCalibrator {
        self.angle_calibrator
    }

    pub closed spec fn lpf(&self) -> FilterLPF {
        self.filter
    }

    pub closed spec fn regulator(&self) -> SupplyVoltage {
        self.supply
    }

    pub open spec fn wf(&self) -> bool {
        &&& self.regulator().wf()
        &&& self.calibrator().wf()
        &&& forall|i: int| 0 <= i < 4 ==> -32767 <= #[trigger] self.pwm_spec()@[i] <= 32767
        &&& self.status_spec() == DriverStatus::Calibrating ==> !self.calibrator().ready_spec()
    }

    pub fn new(motor_type: MotorType, connection: PhasePattern, frequency: u16, max_sup_voltage: i32) -> (r: Self)
        ensures
            r.wf(),
            r.status_spec() == DriverStatus::Calibrating,
            forall|i: int| 0 <= i < 4 ==> r.pwm_spec()[i] == 0,
            r.amplitude_spec() == 0,
            r.angle_el_spec() == 0,
            r.motion_spec() == (0i16, 0i16),
            r.ticker_spec() == 0,
            r.frequency_spec() == frequency,
            r.synth().motor_spec() == (Motor { pole_type: motor_type, connection }),
            r.synth().mode_spec() == ControlMode::CurrentAB,
            r.integrator().position_spec() == 0,
            r.integrator().angle_spec() == 0,
            r.calibrator().is_fresh(frequency),
            r.lpf().value_spec() == 0,
            r.lpf().smoothing_spec() == 0,
            r.regulator().max_voltage_spec() == if max_sup_voltage < 0 {
                0
            } else {
                max_sup_voltage as int
            },
            r.regulator().voltage_spec() == 0,
            r.regulator().norm_spec() == 0,
    {
        let mut motor = Motor::new();
        motor.pole_type = motor_type;
        motor.connection = connection;
        let control_mode = ControlMode::CurrentAB;
        MotorController {
            motor: DriverPWM::new(motor, control_mode),
            frequency,
            position: Position::new(),
            driver_status: DriverStatus::Calibrating,
            angle_el: 0,
            pwm: [0; 4],
            amplitude: 0,
            direction: 0,
            speed: 0,
            angle_calibrator: AngleCalibrator::new(frequency),
            filter: FilterLPF::new(0, 0),
            supply: SupplyVoltage::new(max_sup_voltage),
            ticker: 0,
        }
    }
    /// One control period: feed the sensors, compute the saturated duty
    /// amplitude, run the state machine and synthesize the four duties,
    /// which are stored and returned.
    pub fn tick(&mut self, voltage_on_motor: i32, encoder_pos: u16, supply: u16) -> (r: [i16; 4])
        requires
            old(self).wf(),
        ensures
            tick_relation(*old(self), *final(self), voltage_on_motor, encoder_pos, supply, r),
    {
        self.position.tick(encoder_pos);
        self.supply.tick(supply);
        let voltage: i32 = self.supply.voltage();
        self.amplitude = duty_amplitude(voltage_on_motor, voltage);
        let sup_norm: i16 = self.supply.voltage_norm();
        match self.driver_status {
            DriverStatus::Ready => {
                self.ticker = self.ticker.wrapping_add(1);
                let filtered: u16 = self.filter.tick(self.position.angle());
                self.angle_el = self.angle_calibrator.get_correction(filtered).1;
            },
            DriverStatus::Error => {
                self.amplitude = 0;
            },
            DriverStatus::Calibrating => {
                self.angle_el = self.angle_calibrator.tick(self.position.position());
                if self.angle_calibrator.is_ready() {
                    self.driver_status = DriverStatus::Ready;
                }
            },
        }
        // Feed-forward hook of the synthesizer; no compensation is applied yet.
        let compensation: [i16; 4] = [0; 4];
        self.pwm = self.motor.tick((self.angle_el, self.amplitude), sup_norm, compensation);
        self.pwm
    }

    /// Replace the motor's pole arrangement; takes effect on the next tick.
    pub fn change_motor_mode(&mut self, motor: MotorType)
        requires
            old(self).wf(),
        ensures
            reconfigured(
                *old(self),
                *final(self),
                Motor { pole_type: motor, ..old(self).synth().motor_spec() },
            ),
    {
        self.motor.change_motor_mode(motor);
        assert(self.pwm_spec()@ == old(self).pwm_spec()@);
    }

    /// Replace the phase wiring pattern; takes effect on the next tick.
    pub fn change_phase_mode(&mut self, connection: PhasePattern)
        requires
            old(self).wf(),
        ensures
            reconfigured(
                *old(self),
                *final(self),
                Motor { connection, ..old(self).synth().motor_spec() },
            ),
    {
        self.motor.change_phase_mode(connection);
        assert(self.pwm_spec()@ == old(self).pwm_spec()@);
    }

    /// The duties of the last tick (all zero before the first).
    pub fn get_pwm(&mut self) -> (r: [i16; 4])
        ensures
            *final(self) == *old(self),
            r == old(self).pwm_spec(),
    {
        self.pwm
    }

    /// Enter the Error state, which forces zero drive on every later tick.
    /// The core itself has no fault trigger: this is the entry for a
    /// supervisor that detects one.
    pub fn enter_error(&mut self)
        requires
            old(self).wf(),
        ensures
            final(self).wf(),
            final(self).status_spec() == DriverStatus::Error,
            final(self).pwm_spec() == old(self).pwm_spec(),
            final(self).amplitude_spec() == old(self).amplitude_spec(),
            final(self).angle_el_spec() == old(self).angle_el_spec(),
            final(self).calibrator() == old(self).calibrator(),
            final(self).synth() == old(self).synth(),
            final(self).integrator() == old(self).integrator(),
            final(self).lpf() == old(self).lpf(),
            final(self).regulator() == old(self).regulator(),
            final(self).ticker_spec() == old(self).ticker_spec(),
            final(self).frequency_spec() == old(self).frequency_spec(),
            final(self).motion_spec() == old(self).motion_spec(),
    {
        self.driver_status = DriverStatus::Error;
        assert(self.pwm_spec()@ == old(self).pwm_spec()@);
    }

    pub fn driver_status(&self) -> (r: DriverStatus)
        ensures
            r == self.status_spec(),
    {
        self.driver_status
    }

    pub fn amplitude(&self) -> (r: i16)
        ensures
            r == self.amplitude_spec(),
    {
        self.amplitude
    }

    pub fn angle_el(&self) -> (r: u16)
        ensures
            r == self.angle_el_spec(),
    {
        self.angle_el
    }

    pub fn ticks_ready(&self) -> (r: i32)
        ensures
            r == self.ticker_spec(),
    {
        self.ticker
    }
}

} // verus!
