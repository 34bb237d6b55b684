//! The flight controller: mode state machine, command dispatch, estimators
//! and the per-mode control laws. Hardware stays outside: sensor samples
//! come in as arguments, and everything to send or actuate goes out through
//! an `Outbox`.

use vstd::prelude::*;
use crate::codec::{Command, Mode};
use crate::fx::Fx;
use crate::ypr::YawPitchRoll;
use crate::pid::PID;
use crate::filters::{ButterWorth, Kalman};

verus! {

/// Tick rate of the control loop, in Hz.
pub const TICK_FREQ: u64 = 100;

/// A motor command and the pause that follows it, in delay units.
#[derive(Clone, Copy, Debug, PartialEq, Eq)]
pub struct MotorWrite {
    pub speeds: [u16; 4],
    pub delay_after: u32,
}

/// What one call asks of the outside world, in order.
pub struct Outbox {
    /// Commands to send to the peer as live frames.
    pub sent: Vec<Command>,
    /// Motor commands.
    pub motors: Vec<MotorWrite>,
    /// Serialized commands read back from the log, to send again as live frames.
    pub relay: Vec<Vec<u8>>,
}

impl Outbox {
    pub fn new() -> (r: Outbox)
        ensures
            r.sent@.len() == 0,
            r.motors@.len() == 0,
            r.relay@.len() == 0,
    {
        Outbox { sent: Vec::new(), motors: Vec::new(), relay: Vec::new() }
    }
}

/// Modes under the transition lockout.
pub open spec fn is_operation(m: Mode) -> bool {
    match m {
        Mode::Manual | Mode::Calibration | Mode::YawControlled | Mode::FullControl | Mode::Raw
        | Mode::Height => true,
        _ => false,
    }
}

/// Modes in which reference and gain commands are applied.
pub open spec fn accepts_settings(m: Mode) -> bool {
    match m {
        Mode::Manual | Mode::YawControlled | Mode::FullControl | Mode::Raw | Mode::Height => true,
        _ => false,
    }
}

/// The mode after a request for `req` in mode `cur`: an operation mode
/// lets only Safe and Panic through; any other mode accepts every request.
pub open spec fn next_mode(cur: Mode, req: Mode) -> Mode {
    if is_operation(cur) && !(req == Mode::Safe || req == Mode::Panic) {
        cur
    } else {
        req
    }
}

/// From an operation mode only a Safe or Panic request changes the mode;
/// from Safe, Panic or LogOut every request is honoured.
pub proof fn lemma_mode_transitions(cur: Mode, req: Mode)
    ensures
        is_operation(cur) && (req == Mode::Safe || req == Mode::Panic) ==> next_mode(cur, req)
            == req,
        is_operation(cur) && !(req == Mode::Safe || req == Mode::Panic) ==> next_mode(cur, req)
            == cur,
        (cur == Mode::Safe || cur == Mode::Panic || cur == Mode::LogOut) ==> next_mode(cur, req)
            == req,
{
}

fn mode_is_operation(m: Mode) -> (r: bool)
    ensures
        r == is_operation(m),
{
    match m {
        Mode::Manual | Mode::Calibration | Mode::YawControlled | Mode::FullControl | Mode::Raw
        | Mode::Height => true,
        _ => false,
    }
}

fn mode_accepts_settings(m: Mode) -> (r: bool)
    ensures
        r == accepts_settings(m),
{
    match m {
        Mode::Manual | Mode::YawControlled | Mode::FullControl | Mode::Raw | Mode::Height => true,
        _ => false,
    }
}

/// Height-hold state.
pub struct Height {
    pub pid: PID,
    pub current_throttle: Fx,
    pub prev_high: Fx,
    pub prev_error: Fx,
    pub current_high: Fx,
    pub calibration_p: Fx,
    pub butterworth: ButterWorth,
}

impl Height {
    pub fn new() -> (r: Height)
        ensures
            r.current_high.bits == 0,
            r.calibration_p.bits == 0,
            r.prev_error.bits == 0,
    {
        Height {
            pid: PID::new(),
            prev_high: Fx::zero(),
            current_throttle: Fx::zero(),
            prev_error: Fx::zero(),
            current_high: Fx::zero(),
            calibration_p: Fx::zero(),
            butterworth: ButterWorth::new(),
        }
    }

    /// Passes the height estimate through the low-pass filter.
    pub fn height_update(&mut self)
        ensures
            *final(self) == (Height {
                butterworth: old(self).butterworth.next(old(self).current_high).0,
                current_high: old(self).butterworth.next(old(self).current_high).1,
                ..*old(self)
            }),
    {
        self.current_high = self.butterworth.filter(self.current_high);
    }
}

/// State of the raw (unfused) estimator.
pub struct RawData {
    pub prev_ypr: YawPitchRoll,
    pub current_ypr: YawPitchRoll,
    pub calibration_ypr_raw: YawPitchRoll,
    pub kalman: Kalman,
    pub butterworth: ButterWorth,
    pub roll_offset: Fx,
    /// The fused roll of the previous sample, before its offset: the
    /// reference for the roll unwrap.
    pub prev_raw_roll: Fx,
}

impl RawData {
    pub open spec fn wf(&self) -> bool {
        self.kalman.wf()
    }

    pub fn new() -> (r: RawData)
        ensures
            r.wf(),
            r.current_ypr == YawPitchRoll::zero_spec(),
            r.prev_ypr == YawPitchRoll::zero_spec(),
            r.calibration_ypr_raw == YawPitchRoll::zero_spec(),
            r.roll_offset.bits == 0,
            r.prev_raw_roll.bits == 0,
    {
        RawData {
            prev_ypr: YawPitchRoll::new(),
            current_ypr: YawPitchRoll::new(),
            calibration_ypr_raw: YawPitchRoll::new(),
            kalman: Kalman::new(),
            butterworth: ButterWorth::new(),
            roll_offset: Fx::zero(),
            prev_raw_roll: Fx::zero(),
        }
    }
}

/// The flight controller.
pub struct Drone {
    pub mode: Mode,
    /// Reference angles from the joystick.
    pub js_ypr: YawPitchRoll,
    /// Throttle reference from the joystick.
    pub js_t: i16,
    pub prev_sensor_ypr: YawPitchRoll,
    pub calibration_ypr: YawPitchRoll,
    pub calibration_ypr_raw: YawPitchRoll,
    /// Previous pitch and roll errors, for the derivative terms.
    pub prev_error_ypr: YawPitchRoll,
    /// Fused attitude at the previous control step, for the yaw rate.
    pub prev_sensor_ypr_control: YawPitchRoll,
    /// Current fused attitude.
    pub sensor_ypr: YawPitchRoll,
    /// Euler angles of the previous orientation sample, before offsets and
    /// calibration: the reference for the yaw and roll unwrap.
    pub prev_raw_ypr: YawPitchRoll,
    /// Attitude demand handed to the mixer.
    pub motor_ypr: YawPitchRoll,
    pub yaw_pid: PID,
    pub pitch_pid: PID,
    pub roll_pid: PID,
    pub yaw_offset: Fx,
    pub roll_offset: Fx,
    pub prev_time: Fx,
    /// Flash read cursor for replay.
    pub pc_counter: u32,
    /// Flash write cursor for logging.
    pub current_point: u32,
    pub raw_data: RawData,
    pub height: Height,
}

impl Drone {
    pub open spec fn wf(&self) -> bool {
        self.raw_data.wf()
    }

    pub fn new() -> (r: Drone)
        ensures
            r.wf(),
            r.mode == Mode::Safe,
            r.js_t == 0,
            r.js_ypr == YawPitchRoll::zero_spec(),
            r.sensor_ypr == YawPitchRoll::zero_spec(),
            r.prev_sensor_ypr == YawPitchRoll::zero_spec(),
            r.prev_sensor_ypr_control == YawPitchRoll::zero_spec(),
            r.prev_error_ypr == YawPitchRoll::zero_spec(),
            r.prev_raw_ypr == YawPitchRoll::zero_spec(),
            r.calibration_ypr == YawPitchRoll::zero_spec(),
            r.calibration_ypr_raw == YawPitchRoll::zero_spec(),
            r.motor_ypr == YawPitchRoll::zero_spec(),
            r.yaw_pid == PID::new_spec(),
            r.pitch_pid == PID::new_spec(),
            r.roll_pid == PID::new_spec(),
            r.yaw_offset.bits == 0 && r.roll_offset.bits == 0 && r.prev_time.bits == 0,
            r.pc_counter == 0 && r.current_point == 0,
            r.raw_data.current_ypr == YawPitchRoll::zero_spec(),
            r.raw_data.roll_offset.bits == 0 && r.raw_data.prev_raw_roll.bits == 0,
            r.height.current_high.bits == 0 && r.height.calibration_p.bits == 0,
            r.height.prev_error.bits == 0,
    {
        Drone {
            mode: Mode::Safe,
            js_ypr: YawPitchRoll::new(),
            js_t: 0,
            prev_sensor_ypr: YawPitchRoll::new(),
            prev_sensor_ypr_control: YawPitchRoll::new(),
            calibration_ypr: YawPitchRoll::new(),
            calibration_ypr_raw: YawPitchRoll::new(),
            prev_error_ypr: YawPitchRoll::new(),
            sensor_ypr: YawPitchRoll::new(),
            prev_raw_ypr: YawPitchRoll::new(),
            motor_ypr: YawPitchRoll::new(),
            yaw_pid: PID::new(),
            pitch_pid: PID::new(),
            roll_pid: PID::new(),
            yaw_offset: Fx::zero(),
            roll_offset: Fx::zero(),
            prev_time: Fx::zero(),
            pc_counter: 0,
            current_point: 0,
            raw_data: RawData::new(),
            height: Height::new(),
        }
    }

    /// Applies the transition rule to a request for `mode`; nothing but the
    /// mode changes.
    pub fn mode_limit_check(&mut self, mode: Mode)
        ensures
            *final(self) == (Drone { mode: next_mode(old(self).mode, mode), ..*old(self) }),
    {
        if mode_is_operation(self.mode) {
            if mode == Mode::Safe || mode == Mode::Panic {
                self.mode = mode;
            }
        } else {
            self.mode = mode;
        }
    }

    /// Handles a mode request; an accepted change of mode is reported to the
    /// peer, a dropped request is not.
    pub fn mode_match(&mut self, mode: Mode, out: &mut Outbox)
        ensures
            *final(self) == (Drone { mode: next_mode(old(self).mode, mode), ..*old(self) }),
            mode_reported(old(self).mode, final(self).mode, old(out).sent@, final(out).sent@),
            final(out).motors@ == old(out).motors@,
            final(out).relay@ == old(out).relay@,
    {
        let before = self.mode;
        self.mode_limit_check(mode);
        if self.mode != before {
            out.sent.push(Command::ModeChange { mode: self.mode });
        }
    }
}

/// A change of mode is reported to the peer; an unchanged mode is not.
pub open spec fn mode_reported(before: Mode, after: Mode, old_sent: Seq<Command>, sent: Seq<Command>) -> bool {
    if after != before {
        sent == old_sent.push(Command::ModeChange { mode: after })
    } else {
        sent == old_sent
    }
}

/// The controller after a reference or gain command, and the echo it sends
/// back, if any. Any other command changes nothing.
pub open spec fn setting_result(d: Drone, cmd: Command) -> (Drone, Option<Command>) {
    match cmd {
        Command::ThrottleSet { num } => (Drone { js_t: num, ..d }, Some(Command::ThrottleSet { num })),
        Command::YawSet { num } => (
            Drone { js_ypr: YawPitchRoll { yaw: Fx { bits: num }, ..d.js_ypr }, ..d },
            Some(Command::YawSet { num }),
        ),
        Command::PitchSet { num } => (
            Drone { js_ypr: YawPitchRoll { pitch: Fx { bits: num }, ..d.js_ypr }, ..d },
            None,
        ),
        Command::RollSet { num } => (
            Drone { js_ypr: YawPitchRoll { roll: Fx { bits: num }, ..d.js_ypr }, ..d },
            None,
        ),
        Command::YawPSet { num } => (
            Drone { yaw_pid: PID { p: gain(num), ..d.yaw_pid }, ..d },
            Some(Command::YawPSet { num }),
        ),
        Command::YawDSet { num } => (
            Drone { yaw_pid: PID { d: gain(num), ..d.yaw_pid }, ..d },
            Some(Command::YawDSet { num }),
        ),
        Command::PitchPSet { num } => (
            Drone { pitch_pid: PID { p: gain(num), ..d.pitch_pid }, ..d },
            Some(Command::PitchPSet { num }),
        ),
        Command::PitchDSet { num } => (
            Drone { pitch_pid: PID { d: gain(num), ..d.pitch_pid }, ..d },
            Some(Command::PitchDSet { num }),
        ),
        Command::RollPSet { num } => (
            Drone { roll_pid: PID { p: gain(num), ..d.roll_pid }, ..d },
            Some(Command::RollPSet { num }),
        ),
        Command::RollDSet { num } => (
            Drone { roll_pid: PID { d: gain(num), ..d.roll_pid }, ..d },
            Some(Command::RollDSet { num }),
        ),
        _ => (d, None),
    }
}

/// A whole-number gain.
pub open spec fn gain(num: i16) -> Fx {
    Fx { bits: (num as int * 1024) as i32 }
}

/// `sent` is `before` followed by the echo, if any.
pub open spec fn echoed(before: Seq<Command>, sent: Seq<Command>, echo: Option<Command>) -> bool {
    match echo {
        Some(c) => sent == before.push(c),
        None => sent == before,
    }
}

impl Drone {
    fn set_gain(num: i16) -> (r: (Fx, i16))
        ensures
            r.0 == gain(num),
            r.1 == num,
    {
        let g = Fx::from_int(num as i64);
        (g, g.to_int() as i16)
    }

    fn commandmatch(&mut self, cmd: Command, out: &mut Outbox)
        ensures
            *final(self) == setting_result(*old(self), cmd).0,
            echoed(old(out).sent@, final(out).sent@, setting_result(*old(self), cmd).1),
            final(out).motors@ == old(out).motors@,
            final(out).relay@ == old(out).relay@,
    {
        match cmd {
            Command::ThrottleSet { num } => {
                self.js_t = num;
                out.sent.push(Command::ThrottleSet { num });
            },
            Command::YawSet { num } => {
                self.js_ypr.yaw = Fx::from_bits(num);
                out.sent.push(Command::YawSet { num });
            },
            Command::PitchSet { num } => {
                self.js_ypr.pitch = Fx::from_bits(num);
            },
            Command::RollSet { num } => {
                self.js_ypr.roll = Fx::from_bits(num);
            },
            Command::YawPSet { num } => {
                let (g, echo) = Drone::set_gain(num);
                self.yaw_pid.p = g;
                out.sent.push(Command::YawPSet { num: echo });
            },
            Command::YawDSet { num } => {
                let (g, echo) = Drone::set_gain(num);
                self.yaw_pid.d = g;
                out.sent.push(Command::YawDSet { num: echo });
            },
            Command::PitchPSet { num } => {
                let (g, echo) = Drone::set_gain(num);
                self.pitch_pid.p = g;
                out.sent.push(Command::PitchPSet { num: echo });
            },
            Command::PitchDSet { num } => {
                let (g, echo) = Drone::set_gain(num);
                self.pitch_pid.d = g;
                out.sent.push(Command::PitchDSet { num: echo });
            },
            Command::RollPSet { num } => {
                let (g, echo) = Drone::set_gain(num);
                self.roll_pid.p = g;
                out.sent.push(Command::RollPSet { num: echo });
            },
            Command::RollDSet { num } => {
                let (g, echo) = Drone::set_gain(num);
                self.roll_pid.d = g;
                out.sent.push(Command::RollDSet { num: echo });
            },
            _ => {},
        }
    }

    /// Dispatches one inbound command. Mode requests always go through the
    /// transition rule; reference and gain commands are applied only in the
    /// modes that take settings; everything else is ignored.
    pub fn process_command(&mut self, cmd: Command, out: &mut Outbox)
        ensures
            cmd matches Command::ModeChange { mode } ==> *final(self) == (Drone {
                mode: next_mode(old(self).mode, mode),
                ..*old(self)
            }) && mode_reported(old(self).mode, final(self).mode, old(out).sent@, final(out).sent@),
            !(cmd is ModeChange) && accepts_settings(old(self).mode) ==> *final(self)
                == setting_result(*old(self), cmd).0 && echoed(
                old(out).sent@,
                final(out).sent@,
                setting_result(*old(self), cmd).1,
            ),
            !(cmd is ModeChange) && !accepts_settings(old(self).mode) ==> *final(self) == *old(self)
                && final(out).sent@ == old(out).sent@,
            final(out).motors@ == old(out).motors@,
            final(out).relay@ == old(out).relay@,
    {
        match cmd {
            Command::ModeChange { mode } => {
                self.mode_match(mode, out);
            },
            _ => {
                if mode_accepts_settings(self.mode) {
                    self.commandmatch(cmd, out);
                }
            },
        }
    }
}

} // verus!
