//! The control law of each flight mode, and the telemetry reports.

use vstd::prelude::*;
use crate::codec::{Command, Mode, Message, log_payload};
use crate::datalog::{next_read, replay_step};
use crate::drone::{Drone, Height, Outbox, MotorWrite, RawData, TICK_FREQ};
use crate::datalog::{LogWrite, datalog, placement, SLOT_LEN};
use crate::codec::log_frame;
use crate::scheduler::{telemetry_due, telemetry_schedule};
use crate::estimate::{RawSample, attitude_result, fused_next, raw_next};
use crate::fx::{Fx, sat, mul_bits, div_bits};
use crate::mixer::{calc_motors, mixed};
use crate::pid::{PID, yaw_law, yaw_output, scaled};
use crate::ypr::{YawPitchRoll, Quaternion};

verus! {

/// One full sensor sample: the fused orientation, the raw inertial
/// reading and the barometric pressure.
#[derive(Clone, Copy, Debug, PartialEq, Eq)]
pub struct SensorSample {
    pub quaternion: Quaternion,
    pub raw: RawSample,
    pub pressure: u32,
}

/// Samples taken by one calibration.
pub const CALIBRATION_SAMPLES: usize = 20;

/// Stick throttle above which the stick overrides height hold.
pub const HEIGHT_OVERRIDE_THROTTLE: i16 = -185;

/// Everything one control step reads from the hardware.
pub struct TickInput {
    /// Microseconds since the last inbound byte.
    pub dt: u128,
    /// Sensor samples: `samples_needed` of them for the current mode.
    pub samples: Vec<SensorSample>,
    /// The motor speeds currently commanded.
    pub motors: [u16; 4],
    /// The log slot at the replay cursor, in LogOut mode.
    pub log_slot: Vec<u8>,
}

/// Sensor samples the control law of mode `m` reads.
pub open spec fn samples_needed(m: Mode) -> nat {
    match m {
        Mode::Calibration => CALIBRATION_SAMPLES as nat,
        Mode::YawControlled | Mode::FullControl | Mode::Raw | Mode::Height => 1,
        _ => 0,
    }
}

/// Sensor samples the control law of mode `m` reads; see `samples_needed`.
pub fn samples_for(m: Mode) -> (r: usize)
    ensures
        r == samples_needed(m),
{
    match m {
        Mode::Calibration => CALIBRATION_SAMPLES,
        Mode::YawControlled | Mode::FullControl | Mode::Raw | Mode::Height => 1,
        _ => 0,
    }
}

/// Whether `w` commands every motor to `speed` and then waits `delay`.
pub open spec fn all_motors(w: MotorWrite, speed: int, delay: int) -> bool {
    &&& w.speeds@ == seq![speed as u16, speed as u16, speed as u16, speed as u16]
    &&& w.delay_after == delay
}

/// The panic ramp from the current motor speeds: four stages, the first at
/// the average of the four speeds divided by 8, each later one half the one
/// before, with fixed pauses, then all motors off.
pub open spec fn panic_ramp(motors: Seq<u16>, writes: Seq<MotorWrite>) -> bool {
    let s1 = ((motors[0] + motors[1] + motors[2] + motors[3]) / 4) / 8;
    &&& writes.len() == 5
    &&& all_motors(writes[0], s1, 200)
    &&& all_motors(writes[1], s1 / 2, 100)
    &&& all_motors(writes[2], s1 / 4, 100)
    &&& all_motors(writes[3], s1 / 8, 100)
    &&& all_motors(writes[4], 0, 0)
}

/// Sum of raw values, saturating at each step.
pub open spec fn sat_sum(s: Seq<int>) -> int
    decreases s.len(),
{
    if s.len() == 0 {
        0
    } else {
        sat(sat_sum(s.drop_last()) + s.last())
    }
}

/// Mean of raw values: their saturated sum divided by their count.
pub open spec fn mean_bits(s: Seq<int>) -> int {
    div_bits(sat_sum(s), s.len() * 1024int)
}

/// Mean of a run of values.
pub fn average(values: &Vec<Fx>) -> (r: Fx)
    requires
        1 <= values@.len() <= 0x1F_FFFF,
    ensures
        r.bits == mean_bits(values@.map_values(|v: Fx| v.bits as int)),
{
    let ghost bits = values@.map_values(|v: Fx| v.bits as int);
    let mut total = Fx::zero();
    let mut i: usize = 0;
    while i < values.len()
        invariant
            0 <= i <= values@.len(),
            bits == values@.map_values(|v: Fx| v.bits as int),
            total.bits == sat_sum(bits.subrange(0, i as int)),
        decreases values.len() - i,
    {
        proof {
            assert(bits.subrange(0, i + 1).drop_last() == bits.subrange(0, i as int));
        }
        total = total.add(values[i]);
        i = i + 1;
    }
    proof {
        assert(bits.subrange(0, bits.len() as int) == bits);
    }
    total.div(Fx::from_int(values.len() as i64))
}

/// The throttle that height hold commands, given the stick throttle and
/// the height estimate: a proportional law on `-stick - 50 * height` with
/// gain `-0.05 * 20`, overridden by the stick throttle itself whenever the
/// stick is above the override threshold.
pub open spec fn height_throttle(js_t: int, current_high: int) -> int {
    if js_t > HEIGHT_OVERRIDE_THROTTLE {
        js_t * 1024
    } else {
        mul_bits(mul_bits(-51int, 20 * 1024int), height_error(js_t, current_high))
    }
}

/// Raw value of the height error: target `-stick` less the scaled height.
pub open spec fn height_error(js_t: int, current_high: int) -> int {
    sat(-js_t * 1024 - mul_bits(current_high, 50 * 1024int))
}

/// Whether `sent` is `before` followed by the three attitude reports.
pub open spec fn attitude_reported(before: Seq<Command>, sent: Seq<Command>, yaw: i32, pitch: i32, roll: i32) -> bool {
    sent == before + seq![
        Command::Trueyaw { num: yaw },
        Command::Truepitch { num: pitch },
        Command::Trueroll { num: roll },
    ]
}

/// Whether `out` gained exactly one motor write, of the mixer output for
/// `ypr` and `throttle`.
pub open spec fn mixed_once(old_out: Seq<MotorWrite>, new_out: Seq<MotorWrite>, ypr: YawPitchRoll, throttle: Fx) -> bool {
    &&& new_out.len() == old_out.len() + 1
    &&& new_out.drop_last() == old_out
    &&& mixed(new_out.last().speeds@, ypr, throttle)
    &&& new_out.last().delay_after == 0
}

/// Only the commands sent changed in the outbox.
pub open spec fn only_sent(o0: Outbox, o1: Outbox) -> bool {
    o1.motors@ == o0.motors@ && o1.relay@ == o0.relay@
}

/// Raw value of the fused yaw rate between the previous control step and
/// the attitude `now`: the change of yaw times the tick rate.
pub open spec fn yaw_rate(prev: YawPitchRoll, now: YawPitchRoll) -> int {
    scaled(TICK_FREQ as int, sat(now.yaw.bits - prev.yaw.bits))
}

/// Raw throttle demand of the stick.
pub open spec fn stick_throttle(d: Drone) -> Fx {
    Fx { bits: (d.js_t as int * 1024) as i32 }
}

/// Safe mode: motors off and the joystick references cleared; nothing else
/// changes.
pub open spec fn safe_law(d0: Drone, d1: Drone, o0: Outbox, o1: Outbox) -> bool {
    &&& d1 == (Drone { js_ypr: YawPitchRoll::zero_spec(), js_t: 0, ..d0 })
    &&& o1.motors@ == o0.motors@.push(MotorWrite { speeds: [0u16, 0u16, 0u16, 0u16], delay_after: 0 })
    &&& o1.sent@ == o0.sent@
    &&& o1.relay@ == o0.relay@
}

/// Panic mode: references cleared, motors ramped down and stopped, then
/// the mode goes to Safe, which is reported.
pub open spec fn panic_law(d0: Drone, d1: Drone, motors: [u16; 4], o0: Outbox, o1: Outbox) -> bool {
    &&& d1 == (Drone { mode: Mode::Safe, js_ypr: YawPitchRoll::zero_spec(), js_t: 0, ..d0 })
    &&& o1.motors@.subrange(0, o0.motors@.len() as int) == o0.motors@
    &&& panic_ramp(motors@, o1.motors@.subrange(o0.motors@.len() as int, o1.motors@.len() as int))
    &&& o1.sent@ == o0.sent@.push(Command::ModeChange { mode: Mode::Safe })
    &&& o1.relay@ == o0.relay@
}

/// The demand of manual mode: the stick through fixed scales.
pub open spec fn manual_demand(js: YawPitchRoll) -> YawPitchRoll {
    YawPitchRoll {
        yaw: Fx { bits: scaled(100, js.yaw.bits as int) as i32 },
        pitch: Fx { bits: scaled(500, js.pitch.bits as int) as i32 },
        roll: Fx { bits: scaled(500, js.roll.bits as int) as i32 },
    }
}

pub open spec fn manual_law(d0: Drone, d1: Drone, o0: Outbox, o1: Outbox) -> bool {
    &&& d1 == (Drone { motor_ypr: manual_demand(d0.js_ypr), ..d0 })
    &&& mixed_once(o0.motors@, o1.motors@, d1.motor_ypr, stick_throttle(d0))
    &&& o1.sent@ == o0.sent@ && o1.relay@ == o0.relay@
}

/// Yaw-controlled mode on orientation sample `q`: yaw-rate law on the fused
/// attitude, pitch and roll straight from the stick.
pub open spec fn yaw_mode_law(d0: Drone, d1: Drone, q: Quaternion, o0: Outbox, o1: Outbox) -> bool {
    let s = fused_next(d0, q);
    let demand = YawPitchRoll {
        yaw: Fx {
            bits: yaw_output(d0.yaw_pid, 1024, d0.js_ypr.yaw.bits as int, yaw_rate(d0.prev_sensor_ypr_control, s.sensor_ypr)) as i32,
        },
        ..manual_demand(d0.js_ypr)
    };
    &&& d1 == (Drone { motor_ypr: demand, prev_sensor_ypr_control: s.sensor_ypr, ..s })
    &&& mixed_once(o0.motors@, o1.motors@, d1.motor_ypr, stick_throttle(d0))
    &&& o1.sent@ == o0.sent@ && o1.relay@ == o0.relay@
}

/// Full-control mode on orientation sample `q`: all three laws on the
/// fused attitude, which is reported.
pub open spec fn full_law(d0: Drone, d1: Drone, q: Quaternion, o0: Outbox, o1: Outbox) -> bool {
    let s = fused_next(d0, q);
    let a = attitude_result(s, s.sensor_ypr, 1024, yaw_rate(d0.prev_sensor_ypr_control, s.sensor_ypr), (10, 500), (10, 500));
    &&& d1 == (Drone { prev_sensor_ypr_control: s.sensor_ypr, ..a })
    &&& attitude_reported(o0.sent@, o1.sent@, s.sensor_ypr.yaw.bits, s.sensor_ypr.pitch.bits, s.sensor_ypr.roll.bits)
    &&& mixed_once(o0.motors@, o1.motors@, d1.motor_ypr, stick_throttle(d0))
    &&& o1.relay@ == o0.relay@
}

/// Raw mode on inertial sample `raw`: the full-control structure on the raw
/// estimate, whose yaw is a rate; the raw estimates are reported.
pub open spec fn raw_law(d0: Drone, d1: Drone, raw: RawSample, o0: Outbox, o1: Outbox) -> bool {
    let s = Drone {
        raw_data: raw_next(d0.raw_data, raw, d0.calibration_ypr_raw, d0.mode != Mode::Calibration),
        ..d0
    };
    let c = s.raw_data.current_ypr;
    let a = attitude_result(s, c, 717, c.yaw.bits as int, (15, 150), (10, 100));
    &&& d1 == (Drone { prev_sensor_ypr_control: d0.sensor_ypr, ..a })
    &&& attitude_reported(o0.sent@, o1.sent@, c.yaw.bits, s.raw_data.kalman.pitchphi.bits, s.raw_data.kalman.rollphi.bits)
    &&& mixed_once(o0.motors@, o1.motors@, d1.motor_ypr, stick_throttle(d0))
    &&& o1.relay@ == o0.relay@
}

/// The controller after height hold: fixed gains, the held throttle, the
/// error and height remembered.
pub open spec fn height_hold(d: Drone) -> Drone {
    let h = d.height.current_high.bits as int;
    Drone {
        height: Height {
            pid: PID { p: Fx { bits: 20480i32 }, i: Fx { bits: 0i32 }, d: Fx { bits: 20480i32 } },
            current_throttle: Fx { bits: height_throttle(d.js_t as int, h) as i32 },
            prev_error: Fx { bits: height_error(d.js_t as int, h) as i32 },
            prev_high: d.height.current_high,
            ..d.height
        },
        ..d
    }
}

/// The held-throttle report of height hold.
pub open spec fn height_speed(d: Drone) -> Command {
    Command::Speed {
        num: mul_bits(mul_bits(-51int, 20 * 1024int), height_error(d.js_t as int, d.height.current_high.bits as int)) as i32,
    }
}

/// The controller after the height estimate went through its filter.
pub open spec fn height_filtered(d: Drone) -> Drone {
    let (b, h) = d.height.butterworth.next(d.height.current_high);
    Drone { height: Height { butterworth: b, current_high: h, ..d.height }, ..d }
}

/// Height mode on orientation sample `q`: the full-control laws with the
/// throttle from height hold on the filtered height estimate.
pub open spec fn height_law(d0: Drone, d1: Drone, q: Quaternion, o0: Outbox, o1: Outbox) -> bool {
    let s = fused_next(d0, q);
    let h = height_hold(height_filtered(s));
    let a = attitude_result(h, s.sensor_ypr, 1024, yaw_rate(d0.prev_sensor_ypr_control, s.sensor_ypr), (10, 500), (10, 500));
    &&& d1 == (Drone { prev_sensor_ypr_control: s.sensor_ypr, ..a })
    &&& attitude_reported(o0.sent@.push(height_speed(height_filtered(s))), o1.sent@, s.sensor_ypr.yaw.bits, s.sensor_ypr.pitch.bits, s.sensor_ypr.roll.bits)
    &&& mixed_once(o0.motors@, o1.motors@, d1.motor_ypr, d1.height.current_throttle)
    &&& o1.relay@ == o0.relay@
}

impl Drone {
    fn send_attitude(&self, ypr: YawPitchRoll, pitch: Fx, roll: Fx, out: &mut Outbox)
        ensures
            attitude_reported(old(out).sent@, final(out).sent@, ypr.yaw.bits, pitch.bits, roll.bits),
            final(out).motors@ == old(out).motors@,
            final(out).relay@ == old(out).relay@,
    {
        out.sent.push(Command::Trueyaw { num: ypr.yaw.to_bits() });
        out.sent.push(Command::Truepitch { num: pitch.to_bits() });
        out.sent.push(Command::Trueroll { num: roll.to_bits() });
        assert(out.sent@ =~= old(out).sent@ + seq![
            Command::Trueyaw { num: ypr.yaw.bits },
            Command::Truepitch { num: pitch.bits },
            Command::Trueroll { num: roll.bits },
        ]);
    }

    fn set_motors(&self, ypr: YawPitchRoll, throttle: Fx, out: &mut Outbox)
        ensures
            mixed_once(old(out).motors@, final(out).motors@, ypr, throttle),
            final(out).sent@ == old(out).sent@,
            final(out).relay@ == old(out).relay@,
    {
        let speeds = calc_motors(ypr, throttle);
        out.motors.push(MotorWrite { speeds, delay_after: 0 });
        proof {
            assert(out.motors@.drop_last() == old(out).motors@);
        }
    }

    /// Safe mode: motors off and the joystick references cleared.
    pub fn safe_operate(&mut self, out: &mut Outbox)
        ensures
            safe_law(*old(self), *final(self), *old(out), *final(out)),
    {
        out.motors.push(MotorWrite { speeds: [0, 0, 0, 0], delay_after: 0 });
        self.js_ypr = YawPitchRoll::new();
        self.js_t = 0;
    }

    /// Panic mode: joystick references cleared, motors ramped down in four
    /// halving stages and stopped, then the mode goes to Safe.
    pub fn panic_operate(&mut self, motors: [u16; 4], out: &mut Outbox)
        requires
            old(self).mode == Mode::Panic,
        ensures
            panic_law(*old(self), *final(self), motors, *old(out), *final(out)),
    {
        self.js_ypr = YawPitchRoll::new();
        self.js_t = 0;
        let total: u32 = motors[0] as u32 + motors[1] as u32 + motors[2] as u32 + motors[3] as u32;
        let stage1 = ((total / 4) / 8) as u16;
        let stage2 = stage1 / 2;
        let stage3 = stage2 / 2;
        let stage4 = stage3 / 2;
        let ghost n = out.motors@.len();
        out.motors.push(MotorWrite { speeds: [stage1, stage1, stage1, stage1], delay_after: 200 });
        out.motors.push(MotorWrite { speeds: [stage2, stage2, stage2, stage2], delay_after: 100 });
        out.motors.push(MotorWrite { speeds: [stage3, stage3, stage3, stage3], delay_after: 100 });
        out.motors.push(MotorWrite { speeds: [stage4, stage4, stage4, stage4], delay_after: 100 });
        out.motors.push(MotorWrite { speeds: [0, 0, 0, 0], delay_after: 0 });
        self.process_command(Command::ModeChange { mode: Mode::Safe }, out);
        proof {
            let w = out.motors@.subrange(n as int, out.motors@.len() as int);
            assert(w[0] == out.motors@[n as int]);
            let s1 = (total / 4) / 8;
            assert(stage3 as int == s1 / 4);
            assert(stage4 as int == s1 / 8);
            assert(out.motors@.subrange(0, n as int) == old(out).motors@);
            assert(panic_ramp(motors@, w));
            assert(self.mode == Mode::Safe);
            assert(*self == (Drone { mode: Mode::Safe, js_ypr: YawPitchRoll::zero_spec(), js_t: 0, ..*old(self) }));
            assert(out.sent@ == old(out).sent@.push(Command::ModeChange { mode: Mode::Safe }));
        }
    }

    /// Manual mode: stick to motors through fixed scales and the mixer.
    pub fn manual_operate(&mut self, out: &mut Outbox)
        ensures
            manual_law(*old(self), *final(self), *old(out), *final(out)),
    {
        self.motor_ypr.yaw = Fx::from_int(100).mul(self.js_ypr.yaw);
        self.motor_ypr.pitch = Fx::from_int(500).mul(self.js_ypr.pitch);
        self.motor_ypr.roll = Fx::from_int(500).mul(self.js_ypr.roll);
        self.set_motors(self.motor_ypr, Fx::from_int(self.js_t as i64), out);
    }

    /// Yaw-controlled mode: closed-loop yaw rate, pitch and roll from the stick.
    pub fn yaw_operate(&mut self, q: Quaternion, out: &mut Outbox)
        ensures
            yaw_mode_law(*old(self), *final(self), q, *old(out), *final(out)),
    {
        self.read_sensor_ypr(q);
        let rate = Fx::from_int(TICK_FREQ as i64).mul(self.sensor_ypr.yaw.sub(self.prev_sensor_ypr_control.yaw));
        self.motor_ypr.yaw = yaw_law(&self.yaw_pid, 1024, self.js_ypr.yaw, rate);
        self.motor_ypr.roll = Fx::from_int(500).mul(self.js_ypr.roll);
        self.motor_ypr.pitch = Fx::from_int(500).mul(self.js_ypr.pitch);
        self.set_motors(self.motor_ypr, Fx::from_int(self.js_t as i64), out);
        self.prev_sensor_ypr_control = self.sensor_ypr;
    }

    /// Full-control mode: yaw rate, pitch and roll all closed-loop on the
    /// fused attitude, which is reported to the peer.
    pub fn full_operate(&mut self, q: Quaternion, out: &mut Outbox)
        ensures
            full_law(*old(self), *final(self), q, *old(out), *final(out)),
    {
        self.read_sensor_ypr(q);
        let rate = Fx::from_int(TICK_FREQ as i64).mul(self.sensor_ypr.yaw.sub(self.prev_sensor_ypr_control.yaw));
        let actual = self.sensor_ypr;
        self.attitude_control(actual, 1024, rate, (10, 500), (10, 500));
        self.send_attitude(self.sensor_ypr, self.sensor_ypr.pitch, self.sensor_ypr.roll, out);
        self.set_motors(self.motor_ypr, Fx::from_int(self.js_t as i64), out);
        self.prev_sensor_ypr_control = self.sensor_ypr;
    }

    /// Raw mode: the full-control structure on the raw estimator, whose yaw
    /// is a rate; the raw estimates are reported to the peer.
    pub fn raw_operate(&mut self, raw: RawSample, out: &mut Outbox)
        requires
            old(self).wf(),
        ensures
            final(self).wf(),
            raw_law(*old(self), *final(self), raw, *old(out), *final(out)),
    {
        self.read_raw_sensor(raw);
        let actual = self.raw_data.current_ypr;
        self.attitude_control(actual, 717, actual.yaw, (15, 150), (10, 100));
        self.prev_sensor_ypr_control = self.sensor_ypr;
        self.send_attitude(
            self.raw_data.current_ypr,
            self.raw_data.kalman.pitchphi,
            self.raw_data.kalman.rollphi,
            out,
        );
        self.set_motors(self.motor_ypr, Fx::from_int(self.js_t as i64), out);
    }

    /// Height hold: sets the held throttle from the height estimate and
    /// reports it to the peer.
    pub fn calc_high_throttle(&mut self, out: &mut Outbox)
        ensures
            *final(self) == height_hold(*old(self)),
            final(out).sent@ == old(out).sent@.push(height_speed(*old(self))),
            only_sent(*old(out), *final(out)),
    {
        self.height.pid = PID { p: Fx::from_int(20), i: Fx::zero(), d: Fx::from_int(20) };
        let t_ref = Fx::from_int(-(self.js_t as i64));
        let t_act = self.height.current_high.mul(Fx::from_int(50));
        let p_error = t_ref.sub(t_act);
        self.height.current_throttle = Fx::from_bits(-51).mul(self.height.pid.p).mul(p_error);
        out.sent.push(Command::Speed { num: self.height.current_throttle.to_bits() });
        self.height.prev_error = p_error;
        self.height.prev_high = self.height.current_high;
        if self.js_t > HEIGHT_OVERRIDE_THROTTLE {
            self.height.current_throttle = Fx::from_int(self.js_t as i64);
        }
    }

    /// Height mode: full attitude control with the throttle from height hold.
    pub fn height_operate(&mut self, q: Quaternion, out: &mut Outbox)
        ensures
            height_law(*old(self), *final(self), q, *old(out), *final(out)),
    {
        self.read_sensor_ypr(q);
        self.height.height_update();
        self.calc_high_throttle(out);
        let rate = Fx::from_int(TICK_FREQ as i64).mul(self.sensor_ypr.yaw.sub(self.prev_sensor_ypr_control.yaw));
        let actual = self.sensor_ypr;
        self.attitude_control(actual, 1024, rate, (10, 500), (10, 500));
        self.send_attitude(self.sensor_ypr, self.sensor_ypr.pitch, self.sensor_ypr.roll, out);
        self.set_motors(self.motor_ypr, self.height.current_throttle, out);
        self.prev_sensor_ypr_control = self.sensor_ypr;
    }
}

/// Log replay on the slot `slot` read at the replay cursor: its record is
/// handed on for retransmission when it decodes, and the cursor moves on,
/// wrapping to 0 at the end of the region.
pub open spec fn log_out_law(d0: Drone, d1: Drone, slot: Seq<u8>, o0: Outbox, o1: Outbox) -> bool {
    let (reads, next) = replay_step(d0.pc_counter as int);
    &&& d1 == (Drone { pc_counter: next as u32, ..d0 })
    &&& (reads && log_payload(slot) is Some) ==> o1.relay@.len() == o0.relay@.len() + 1
        && o1.relay@.drop_last() == o0.relay@ && Some(o1.relay@.last()@) == log_payload(slot)
    &&& !(reads && log_payload(slot) is Some) ==> o1.relay@ == o0.relay@
    &&& o1.sent@ == o0.sent@ && o1.motors@ == o0.motors@
}

/// The controller after a barometer reading for the height report.
pub open spec fn height_sampled(d: Drone, pressure: u32) -> Drone {
    Drone {
        height: Height {
            current_high: Fx { bits: sat(d.height.calibration_p.bits - sat(pressure * 1024)) as i32 },
            ..d.height
        },
        ..d
    }
}

/// The calibration run starts with both turn offsets at zero.
pub open spec fn calibration_start(d: Drone) -> Drone {
    Drone { yaw_offset: Fx { bits: 0 }, roll_offset: Fx { bits: 0 }, ..d }
}

/// The controller after the fused estimator took the samples `qs`.
pub open spec fn calibration_trace(d: Drone, qs: Seq<Quaternion>) -> Drone
    decreases qs.len(),
{
    if qs.len() == 0 {
        d
    } else {
        fused_next(calibration_trace(d, qs.drop_last()), qs.last())
    }
}

/// The fused attitudes seen while calibrating, one per sample.
pub open spec fn calibration_attitudes(d: Drone, qs: Seq<Quaternion>) -> Seq<YawPitchRoll> {
    Seq::new(qs.len(), |j: int| calibration_trace(d, qs.subrange(0, j + 1)).sensor_ypr)
}

/// The raw estimator after the samples `raws`, taken while calibrating.
pub open spec fn raw_calibration_trace(start: RawData, cal: YawPitchRoll, raws: Seq<RawSample>) -> RawData
    decreases raws.len(),
{
    if raws.len() == 0 {
        start
    } else {
        raw_next(raw_calibration_trace(start, cal, raws.drop_last()), raws.last(), cal, false)
    }
}

/// The raw attitudes seen while calibrating, one per sample.
pub open spec fn raw_calibration_attitudes(start: RawData, cal: YawPitchRoll, raws: Seq<RawSample>) -> Seq<YawPitchRoll> {
    Seq::new(raws.len(), |j: int| raw_calibration_trace(start, cal, raws.subrange(0, j + 1)).current_ypr)
}

pub open spec fn raw_samples(samples: Seq<SensorSample>) -> Seq<RawSample> {
    samples.map_values(|s: SensorSample| s.raw)
}

pub open spec fn quaternions(samples: Seq<SensorSample>) -> Seq<Quaternion> {
    samples.map_values(|s: SensorSample| s.quaternion)
}

pub open spec fn pressures(samples: Seq<SensorSample>) -> Seq<int> {
    samples.map_values(|s: SensorSample| sat(s.pressure * 1024))
}

pub open spec fn yaws(s: Seq<YawPitchRoll>) -> Seq<int> {
    s.map_values(|y: YawPitchRoll| y.yaw.bits as int)
}

pub open spec fn pitches(s: Seq<YawPitchRoll>) -> Seq<int> {
    s.map_values(|y: YawPitchRoll| y.pitch.bits as int)
}

pub open spec fn rolls(s: Seq<YawPitchRoll>) -> Seq<int> {
    s.map_values(|y: YawPitchRoll| y.roll.bits as int)
}

/// Component-wise mean of attitudes.
pub open spec fn mean_ypr(s: Seq<YawPitchRoll>) -> YawPitchRoll {
    YawPitchRoll {
        yaw: Fx { bits: mean_bits(yaws(s)) as i32 },
        pitch: Fx { bits: mean_bits(pitches(s)) as i32 },
        roll: Fx { bits: mean_bits(rolls(s)) as i32 },
    }
}

/// The controller after calibrating on `samples`: both estimators ran on
/// every sample with the turn offsets reset; the means of their outputs and
/// of the pressures are the new calibration; the mode is Safe.
pub open spec fn calibration_result(d0: Drone, samples: Seq<SensorSample>) -> Drone {
    let c0 = calibration_start(d0);
    let qs = quaternions(samples);
    let rws = raw_samples(samples);
    Drone {
        mode: Mode::Safe,
        raw_data: raw_calibration_trace(d0.raw_data, d0.calibration_ypr_raw, rws),
        calibration_ypr: mean_ypr(calibration_attitudes(c0, qs)),
        calibration_ypr_raw: mean_ypr(raw_calibration_attitudes(d0.raw_data, d0.calibration_ypr_raw, rws)),
        height: Height { calibration_p: Fx { bits: mean_bits(pressures(samples)) as i32 }, ..d0.height },
        ..calibration_trace(c0, qs)
    }
}

/// Calibration: see `calibration_result`; the last uncorrected fused
/// attitude is reported, then the change to Safe.
pub open spec fn calibration_law(d0: Drone, d1: Drone, samples: Seq<SensorSample>, o0: Outbox, o1: Outbox) -> bool {
    let a = calibration_trace(calibration_start(d0), quaternions(samples)).sensor_ypr;
    &&& d1 == calibration_result(d0, samples)
    &&& o1.sent@ == o0.sent@ + seq![
        Command::Trueyaw { num: a.yaw.bits },
        Command::Truepitch { num: a.pitch.bits },
        Command::Trueroll { num: a.roll.bits },
        Command::ModeChange { mode: Mode::Safe },
    ]
    &&& only_sent(o0, o1)
}

impl Drone {
    /// Decodes the log slot read at the replay cursor.
    pub fn pick_up_message(&self, slot: &[u8]) -> (r: Option<Vec<u8>>)
        ensures
            r matches Some(p) ==> log_payload(slot@) == Some(p@),
            r is None ==> log_payload(slot@) is None,
    {
        Message::get_message_log(slot)
    }

    /// Log replay: reads the slot at the replay cursor, hands its record on
    /// for retransmission when it decodes, and moves the cursor on.
    pub fn log_out_operate(&mut self, slot: &[u8], out: &mut Outbox)
        ensures
            log_out_law(*old(self), *final(self), slot@, *old(out), *final(out)),
    {
        let (reads, next) = next_read(self.pc_counter);
        if reads {
            match self.pick_up_message(slot) {
                Some(p) => {
                    out.relay.push(p);
                    proof {
                        assert(out.relay@.drop_last() == old(out).relay@);
                    }
                },
                None => {},
            }
        }
        self.pc_counter = next;
    }

    /// A barometer reading taken for the height report: the height estimate
    /// becomes the calibration pressure less the reading, which is reported.
    pub fn height_sample(&mut self, pressure: u32) -> (r: Command)
        ensures
            *final(self) == height_sampled(*old(self), pressure),
            r == (Command::Height { num: final(self).height.current_high.bits }),
    {
        let pr = Fx::from_int(pressure as i64);
        self.height.current_high = self.height.calibration_p.sub(pr);
        Command::Height { num: self.height.current_high.to_bits() }
    }

    /// Calibration: samples both estimators and the barometer once per
    /// sample, with the turn offsets reset; the means become the new
    /// calibration of the fused attitude, the raw attitude and the height
    /// baseline; the last uncorrected fused attitude is reported; then the
    /// mode goes to Safe.
    pub fn calibration_operate(&mut self, samples: &Vec<SensorSample>, out: &mut Outbox)
        requires
            old(self).wf(),
            old(self).mode == Mode::Calibration,
            samples@.len() == CALIBRATION_SAMPLES,
        ensures
            final(self).wf(),
            calibration_law(*old(self), *final(self), samples@, *old(out), *final(out)),
    {
        let ghost d0 = *self;
        self.roll_offset = Fx::zero();
        self.yaw_offset = Fx::zero();
        let ghost c0 = *self;
        let ghost qs = quaternions(samples@);
        let ghost rws = raw_samples(samples@);
        let ghost rd0 = self.raw_data;
        let ghost cal0 = self.calibration_ypr_raw;
        let mut ys: Vec<Fx> = Vec::new();
        let mut ps: Vec<Fx> = Vec::new();
        let mut rs: Vec<Fx> = Vec::new();
        let mut raw_y: Vec<Fx> = Vec::new();
        let mut raw_p: Vec<Fx> = Vec::new();
        let mut raw_r: Vec<Fx> = Vec::new();
        let mut heights: Vec<Fx> = Vec::new();
        let mut i: usize = 0;
        proof {
            assert(c0 == calibration_start(d0));
            assert(qs.subrange(0, 0).len() == 0);
            assert(rws.subrange(0, 0).len() == 0);
        }
        while i < samples.len()
            invariant
                0 <= i <= samples@.len() == CALIBRATION_SAMPLES,
                qs == quaternions(samples@),
                rws == raw_samples(samples@),
                c0.mode == Mode::Calibration,
                c0.calibration_ypr_raw == cal0,
                self.wf(),
                self.mode == Mode::Calibration,
                self.calibration_ypr_raw == cal0,
                self.height == d0.height,
                *self == (Drone {
                    raw_data: raw_calibration_trace(rd0, cal0, rws.subrange(0, i as int)),
                    ..calibration_trace(c0, qs.subrange(0, i as int))
                }),
                ys@.len() == i && ps@.len() == i && rs@.len() == i,
                raw_y@.len() == i && raw_p@.len() == i && raw_r@.len() == i && heights@.len() == i,
                forall|j: int| 0 <= j < i ==> (#[trigger] ys@[j]).bits == calibration_trace(c0, qs.subrange(0, j + 1)).sensor_ypr.yaw.bits,
                forall|j: int| 0 <= j < i ==> (#[trigger] ps@[j]).bits == calibration_trace(c0, qs.subrange(0, j + 1)).sensor_ypr.pitch.bits,
                forall|j: int| 0 <= j < i ==> (#[trigger] rs@[j]).bits == calibration_trace(c0, qs.subrange(0, j + 1)).sensor_ypr.roll.bits,
                forall|j: int| 0 <= j < i ==> (#[trigger] raw_y@[j]).bits == raw_calibration_trace(rd0, cal0, rws.subrange(0, j + 1)).current_ypr.yaw.bits,
                forall|j: int| 0 <= j < i ==> (#[trigger] raw_p@[j]).bits == raw_calibration_trace(rd0, cal0, rws.subrange(0, j + 1)).current_ypr.pitch.bits,
                forall|j: int| 0 <= j < i ==> (#[trigger] raw_r@[j]).bits == raw_calibration_trace(rd0, cal0, rws.subrange(0, j + 1)).current_ypr.roll.bits,
                forall|j: int| 0 <= j < i ==> (#[trigger] heights@[j]).bits == sat(samples@[j].pressure * 1024),
            decreases samples.len() - i,
        {
            proof {
                assert(qs.subrange(0, i + 1).drop_last() == qs.subrange(0, i as int));
                assert(qs.subrange(0, i + 1).last() == samples@[i as int].quaternion);
                assert(rws.subrange(0, i + 1).drop_last() == rws.subrange(0, i as int));
                assert(rws.subrange(0, i + 1).last() == samples@[i as int].raw);
            }
            self.read_sensor_ypr(samples[i].quaternion);
            self.read_raw_sensor(samples[i].raw);
            heights.push(Fx::from_int(samples[i].pressure as i64));
            ys.push(self.sensor_ypr.yaw);
            ps.push(self.sensor_ypr.pitch);
            rs.push(self.sensor_ypr.roll);
            raw_y.push(self.raw_data.current_ypr.yaw);
            raw_p.push(self.raw_data.current_ypr.pitch);
            raw_r.push(self.raw_data.current_ypr.roll);
            i = i + 1;
        }
        self.calibration_ypr_raw = YawPitchRoll {
            yaw: average(&raw_y),
            pitch: average(&raw_p),
            roll: average(&raw_r),
        };
        self.calibration_ypr = YawPitchRoll { yaw: average(&ys), pitch: average(&ps), roll: average(&rs) };
        proof {
            let fused = calibration_attitudes(c0, qs);
            assert(ys@.map_values(|v: Fx| v.bits as int) =~= yaws(fused));
            assert(ps@.map_values(|v: Fx| v.bits as int) =~= pitches(fused));
            assert(rs@.map_values(|v: Fx| v.bits as int) =~= rolls(fused));
            assert(heights@.map_values(|v: Fx| v.bits as int) =~= pressures(samples@));
            let raw = raw_calibration_attitudes(rd0, cal0, rws);
            assert(raw_y@.map_values(|v: Fx| v.bits as int) =~= yaws(raw));
            assert(raw_p@.map_values(|v: Fx| v.bits as int) =~= pitches(raw));
            assert(raw_r@.map_values(|v: Fx| v.bits as int) =~= rolls(raw));
            assert(qs.subrange(0, qs.len() as int) == qs);
            assert(rws.subrange(0, rws.len() as int) == rws);
        }
        self.send_attitude(self.sensor_ypr, self.sensor_ypr.pitch, self.sensor_ypr.roll, out);
        self.height.calibration_p = average(&heights);
        self.process_command(Command::ModeChange { mode: Mode::Safe }, out);
        proof {
            assert(out.sent@ =~= old(out).sent@ + seq![
                Command::Trueyaw { num: self.sensor_ypr.yaw.bits },
                Command::Truepitch { num: self.sensor_ypr.pitch.bits },
                Command::Trueroll { num: self.sensor_ypr.roll.bits },
                Command::ModeChange { mode: Mode::Safe },
            ]);
        }
    }
}

/// Whether the joystick references are echoed in mode `m`.
pub open spec fn echoes_joystick(m: Mode) -> bool {
    m == Mode::Manual || m == Mode::YawControlled || m == Mode::FullControl || m == Mode::Raw
}

/// The joystick echo of the stick-driven modes.
pub open spec fn joystick_echo(d: Drone) -> Seq<Command> {
    if echoes_joystick(d.mode) {
        seq![
            Command::YawBack { num: d.js_ypr.yaw.bits },
            Command::PitchBack { num: d.js_ypr.pitch.bits },
            Command::RollBack { num: d.js_ypr.roll.bits },
            Command::ThrottleBack { num: d.js_t },
        ]
    } else {
        Seq::empty()
    }
}

/// The report of the four motor speeds.
pub open spec fn motor_report(motor: [u16; 4]) -> Seq<Command> {
    seq![
        Command::Motor1 { num: motor[0] },
        Command::Motor2 { num: motor[1] },
        Command::Motor3 { num: motor[2] },
        Command::Motor4 { num: motor[3] },
    ]
}

/// The telemetry of tick `tick` outside LogOut: the joystick echo every
/// ninth tick, the motor speeds every other tick, the height every sixth.
pub open spec fn telemetry(d: Drone, tick: int, motors: [u16; 4], pressure: u32) -> Seq<Command> {
    let (m, j, h) = telemetry_due(tick);
    (if j { joystick_echo(d) } else { Seq::empty() }) + (if m { motor_report(motors) } else {
        Seq::empty()
    }) + (if h {
        seq![Command::Height { num: height_sampled(d, pressure).height.current_high.bits }]
    } else {
        Seq::empty()
    })
}

impl Drone {
    /// Runs the control law of the current mode once.
    pub fn operate(&mut self, input: &TickInput, out: &mut Outbox)
        requires
            old(self).wf(),
            input.samples@.len() >= samples_needed(old(self).mode),
            old(self).mode == Mode::Calibration ==> input.samples@.len() == CALIBRATION_SAMPLES,
        ensures
            final(self).wf(),
            old(self).mode == Mode::Safe ==> safe_law(*old(self), *final(self), *old(out), *final(out)),
            old(self).mode == Mode::Panic ==> panic_law(*old(self), *final(self), input.motors, *old(out), *final(out)),
            old(self).mode == Mode::Manual ==> manual_law(*old(self), *final(self), *old(out), *final(out)),
            old(self).mode == Mode::Calibration ==> calibration_law(*old(self), *final(self), input.samples@, *old(out), *final(out)),
            old(self).mode == Mode::YawControlled ==> yaw_mode_law(*old(self), *final(self), input.samples@[0].quaternion, *old(out), *final(out)),
            old(self).mode == Mode::FullControl ==> full_law(*old(self), *final(self), input.samples@[0].quaternion, *old(out), *final(out)),
            old(self).mode == Mode::Raw ==> raw_law(*old(self), *final(self), input.samples@[0].raw, *old(out), *final(out)),
            old(self).mode == Mode::Height ==> height_law(*old(self), *final(self), input.samples@[0].quaternion, *old(out), *final(out)),
            old(self).mode == Mode::LogOut ==> log_out_law(*old(self), *final(self), input.log_slot@, *old(out), *final(out)),
    {
        match self.mode {
            Mode::Safe => {
                self.safe_operate(out);
            },
            Mode::Panic => {
                self.panic_operate(input.motors, out);
            },
            Mode::Manual => {
                self.manual_operate(out);
            },
            Mode::Calibration => {
                self.calibration_operate(&input.samples, out);
            },
            Mode::Raw => {
                self.raw_operate(input.samples[0].raw, out);
            },
            Mode::YawControlled => {
                self.yaw_operate(input.samples[0].quaternion, out);
            },
            Mode::FullControl => {
                self.full_operate(input.samples[0].quaternion, out);
            },
            Mode::Height => {
                self.height_operate(input.samples[0].quaternion, out);
            },
            Mode::LogOut => {
                self.log_out_operate(input.log_slot.as_slice(), out);
            },
        }
    }

    /// The estimator step of a logging tick: outside LogOut both estimators
    /// take the sample and `true` is returned; in LogOut nothing happens.
    pub fn log_sample(&mut self, s: SensorSample) -> (r: bool)
        requires
            old(self).wf(),
        ensures
            final(self).wf(),
            r == (old(self).mode != Mode::LogOut),
            r ==> *final(self) == (Drone {
                raw_data: raw_next(
                    old(self).raw_data,
                    s.raw,
                    old(self).calibration_ypr_raw,
                    old(self).mode != Mode::Calibration,
                ),
                ..fused_next(*old(self), s.quaternion)
            }),
            !r ==> *final(self) == *old(self),
    {
        if self.mode == Mode::LogOut {
            false
        } else {
            self.read_sensor_ypr(s.quaternion);
            self.read_raw_sensor(s.raw);
            true
        }
    }

    /// Places a serialized snapshot record in the log at the write cursor and
    /// moves the cursor on; `None` for a record too long for a frame.
    pub fn log_record(&mut self, record: Vec<u8>) -> (r: Option<LogWrite>)
        ensures
            record@.len() <= 255 ==> r is Some,
            r matches Some(w) ==> w.frame@ == log_frame(record@) && (w.address as int, w.next as int, w.erase_first)
                == placement(old(self).current_point as int, SLOT_LEN as int)
                && *final(self) == (Drone { current_point: w.next, ..*old(self) }),
            r is None ==> *final(self) == *old(self),
    {
        if record.len() > 255 {
            return None;
        }
        let w = datalog(record, self.current_point);
        self.current_point = w.next;
        Some(w)
    }

    /// The periodic telemetry of tick `tick`, outside LogOut only; the
    /// height report also updates the height estimate.
    pub fn tick_telemetry(&mut self, tick: u64, motors: [u16; 4], pressure: u32, out: &mut Outbox)
        ensures
            old(self).mode == Mode::LogOut ==> *final(self) == *old(self) && final(out).sent@ == old(out).sent@,
            old(self).mode != Mode::LogOut ==> final(out).sent@ == old(out).sent@ + telemetry(
                *old(self),
                tick as int,
                motors,
                pressure,
            ) && *final(self) == (if telemetry_due(tick as int).2 {
                height_sampled(*old(self), pressure)
            } else {
                *old(self)
            }),
            only_sent(*old(out), *final(out)),
    {
        if self.mode == Mode::LogOut {
            return;
        }
        let ghost d0 = *self;
        let ghost s0 = out.sent@;
        let (motors_due, joystick_due, height_due) = telemetry_schedule(tick);
        if joystick_due {
            send_configure_joystick_vals(self, out);
        }
        let ghost s1 = out.sent@;
        if motors_due {
            send_motor_vals(motors, out);
        }
        let ghost s2 = out.sent@;
        if height_due {
            let report = self.height_sample(pressure);
            out.sent.push(report);
        }
        proof {
            let a: Seq<Command> = if joystick_due { joystick_echo(d0) } else { Seq::empty() };
            let b: Seq<Command> = if motors_due { motor_report(motors) } else { Seq::empty() };
            assert(s1 =~= s0 + a);
            assert(s2 =~= s0 + a + b);
            assert(out.sent@ =~= s0 + telemetry(d0, tick as int, motors, pressure));
        }
    }
}

/// Reports the current motor speeds, one command per motor.
pub fn send_motor_vals(motor: [u16; 4], out: &mut Outbox)
    ensures
        final(out).sent@ == old(out).sent@ + motor_report(motor),
        only_sent(*old(out), *final(out)),
{
    out.sent.push(Command::Motor1 { num: motor[0] });
    out.sent.push(Command::Motor2 { num: motor[1] });
    out.sent.push(Command::Motor3 { num: motor[2] });
    out.sent.push(Command::Motor4 { num: motor[3] });
    assert(out.sent@ =~= old(out).sent@ + motor_report(motor));
}

/// Reports an attitude, as after calibration.
pub fn send_calibration_vals(ypr: YawPitchRoll, out: &mut Outbox)
    ensures
        attitude_reported(old(out).sent@, final(out).sent@, ypr.yaw.bits, ypr.pitch.bits, ypr.roll.bits),
        only_sent(*old(out), *final(out)),
{
    out.sent.push(Command::Trueyaw { num: ypr.yaw.to_bits() });
    out.sent.push(Command::Truepitch { num: ypr.pitch.to_bits() });
    out.sent.push(Command::Trueroll { num: ypr.roll.to_bits() });
    assert(out.sent@ =~= old(out).sent@ + seq![
        Command::Trueyaw { num: ypr.yaw.bits },
        Command::Truepitch { num: ypr.pitch.bits },
        Command::Trueroll { num: ypr.roll.bits },
    ]);
}

/// Echoes the joystick references to the peer in the stick-driven modes.
pub fn send_configure_joystick_vals(drone: &Drone, out: &mut Outbox)
    ensures
        final(out).sent@ == old(out).sent@ + joystick_echo(*drone),
        only_sent(*old(out), *final(out)),
{
    if drone.mode == Mode::Manual || drone.mode == Mode::YawControlled || drone.mode == Mode::FullControl
        || drone.mode == Mode::Raw {
        out.sent.push(Command::YawBack { num: drone.js_ypr.yaw.to_bits() });
        out.sent.push(Command::PitchBack { num: drone.js_ypr.pitch.to_bits() });
        out.sent.push(Command::RollBack { num: drone.js_ypr.roll.to_bits() });
        out.sent.push(Command::ThrottleBack { num: drone.js_t });
        assert(out.sent@ =~= old(out).sent@ + joystick_echo(*drone));
    } else {
        assert(out.sent@ =~= old(out).sent@ + joystick_echo(*drone));
    }
}

} // verus!
