//! The two attitude estimators of the flight controller, and the attitude
//! laws they feed.

use vstd::prelude::*;
use crate::codec::Mode;
use crate::drone::{Drone, RawData};
use crate::filters::{Kalman, DEG2RAD_BITS};
use crate::fx::{Fx, sat, mul_bits};
use crate::pid::{pd_law, pd_output, yaw_law, yaw_output};
use crate::ypr::{YawPitchRoll, Quaternion, euler_of, unwrapped_offset, unwrap_offset};

verus! {

/// One reading of the inertial sensors, as raw integers.
#[derive(Clone, Copy, Debug, PartialEq, Eq)]
pub struct RawSample {
    pub ax: i16,
    pub ay: i16,
    pub az: i16,
    pub gx: i16,
    pub gy: i16,
    pub gz: i16,
}

/// The fused attitude: Euler angles `e` with the turn offsets added, pitch
/// negated, and the calibration subtracted when `subtract` holds.
pub open spec fn fused_attitude(e: YawPitchRoll, yaw_offset: Fx, roll_offset: Fx, cal: YawPitchRoll, subtract: bool) -> YawPitchRoll {
    let yaw = sat(e.yaw.bits + yaw_offset.bits);
    let pitch = sat(-e.pitch.bits);
    let roll = sat(e.roll.bits + roll_offset.bits);
    if subtract {
        YawPitchRoll {
            yaw: Fx { bits: sat(yaw - cal.yaw.bits) as i32 },
            pitch: Fx { bits: sat(pitch - cal.pitch.bits) as i32 },
            roll: Fx { bits: sat(roll - cal.roll.bits) as i32 },
        }
    } else {
        YawPitchRoll {
            yaw: Fx { bits: yaw as i32 },
            pitch: Fx { bits: pitch as i32 },
            roll: Fx { bits: roll as i32 },
        }
    }
}

/// The raw attitude: the filtered yaw rate, the negated fused pitch and the
/// fused roll with its turn offset, less the calibration when `subtract` holds.
pub open spec fn raw_attitude(rate: Fx, k: Kalman, roll_offset: Fx, cal: YawPitchRoll, subtract: bool) -> YawPitchRoll {
    let pitch = sat(-k.pitchphi.bits);
    let roll = sat(k.rollphi.bits + roll_offset.bits);
    if subtract {
        YawPitchRoll {
            yaw: Fx { bits: sat(rate.bits - cal.yaw.bits) as i32 },
            pitch: Fx { bits: sat(pitch - cal.pitch.bits) as i32 },
            roll: Fx { bits: sat(roll - cal.roll.bits) as i32 },
        }
    } else {
        YawPitchRoll { yaw: rate, pitch: Fx { bits: pitch as i32 }, roll: Fx { bits: roll as i32 } }
    }
}

/// The raw estimator after one sample. The roll unwrap compares the fused
/// roll of this sample with the one of the previous sample.
pub open spec fn raw_next(rd: RawData, raw: RawSample, cal: YawPitchRoll, subtract: bool) -> RawData {
    let k = rd.kalman.next(
        Fx { bits: (raw.ax as int * 1024) as i32 },
        Fx { bits: (raw.ay as int * 1024) as i32 },
        Fx { bits: (raw.az as int * 1024) as i32 },
        Fx { bits: (raw.gx as int * 1024) as i32 },
        Fx { bits: (raw.gy as int * 1024) as i32 },
    );
    let (b, rate) = rd.butterworth.next(Fx { bits: mul_bits(raw.gz as int * 1024, DEG2RAD_BITS as int) as i32 });
    let ro = Fx { bits: unwrapped_offset(rd.prev_raw_roll.bits as int, rd.roll_offset.bits as int, k.rollphi.bits as int) as i32 };
    RawData {
        prev_ypr: rd.current_ypr,
        current_ypr: raw_attitude(rate, k, ro, cal, subtract),
        calibration_ypr_raw: rd.calibration_ypr_raw,
        kalman: k,
        butterworth: b,
        roll_offset: ro,
        prev_raw_roll: k.rollphi,
    }
}

/// The controller after one fused orientation sample `q`: yaw and roll
/// unwrapped against the Euler angles of the previous sample, pitch
/// negated, calibration subtracted except while calibrating.
pub open spec fn fused_next(d: Drone, q: Quaternion) -> Drone {
    let e = euler_of(q);
    let yo = Fx { bits: unwrapped_offset(d.prev_raw_ypr.yaw.bits as int, d.yaw_offset.bits as int, e.yaw.bits as int) as i32 };
    let ro = Fx { bits: unwrapped_offset(d.prev_raw_ypr.roll.bits as int, d.roll_offset.bits as int, e.roll.bits as int) as i32 };
    Drone {
        prev_sensor_ypr: d.sensor_ypr,
        prev_raw_ypr: e,
        yaw_offset: yo,
        roll_offset: ro,
        sensor_ypr: fused_attitude(e, yo, ro, d.calibration_ypr, d.mode != Mode::Calibration),
        ..d
    }
}

/// The controller after the attitude laws for the measured attitude
/// `actual` and yaw rate `rate`: the yaw-rate law with gain `yaw_k` (raw),
/// and PD laws with scales `(kp, kd)` for pitch and roll. Only the mixer
/// demand and the remembered pitch and roll errors change.
pub open spec fn attitude_result(
    d: Drone,
    actual: YawPitchRoll,
    yaw_k: int,
    rate: int,
    pitch_k: (int, int),
    roll_k: (int, int),
) -> Drone {
    Drone {
        motor_ypr: YawPitchRoll {
            yaw: Fx { bits: yaw_output(d.yaw_pid, yaw_k, d.js_ypr.yaw.bits as int, rate) as i32 },
            pitch: Fx {
                bits: pd_output(
                    d.pitch_pid,
                    pitch_k.0,
                    pitch_k.1,
                    d.js_ypr.pitch.bits as int,
                    actual.pitch.bits as int,
                    d.prev_error_ypr.pitch.bits as int,
                ) as i32,
            },
            roll: Fx {
                bits: pd_output(
                    d.roll_pid,
                    roll_k.0,
                    roll_k.1,
                    d.js_ypr.roll.bits as int,
                    actual.roll.bits as int,
                    d.prev_error_ypr.roll.bits as int,
                ) as i32,
            },
        },
        prev_error_ypr: YawPitchRoll {
            pitch: Fx { bits: sat(d.js_ypr.pitch.bits - actual.pitch.bits) as i32 },
            roll: Fx { bits: sat(d.js_ypr.roll.bits - actual.roll.bits) as i32 },
            ..d.prev_error_ypr
        },
        ..d
    }
}

impl Drone {
    /// Takes a fused orientation sample: converts it to Euler angles,
    /// unwraps yaw and roll, negates pitch and subtracts the calibration
    /// (except while calibrating).
    pub fn read_sensor_ypr(&mut self, q: Quaternion)
        ensures
            *final(self) == fused_next(*old(self), q),
    {
        let sensor = YawPitchRoll::from_quaternion(q);
        self.prev_sensor_ypr = self.sensor_ypr;
        self.yaw_offset = unwrap_offset(self.prev_raw_ypr.yaw, self.yaw_offset, sensor.yaw);
        self.roll_offset = unwrap_offset(self.prev_raw_ypr.roll, self.roll_offset, sensor.roll);
        self.prev_raw_ypr = sensor;
        let mut current = YawPitchRoll {
            yaw: sensor.yaw.add(self.yaw_offset),
            pitch: sensor.pitch.neg(),
            roll: sensor.roll.add(self.roll_offset),
        };
        if self.mode != Mode::Calibration {
            current = current.sub(&self.calibration_ypr);
        }
        self.sensor_ypr = current;
    }

    /// Takes a raw inertial sample: fuses tilt and gyro rates, low-pass
    /// filters the yaw rate (degrees to radians), unwraps roll, negates
    /// pitch and subtracts the raw calibration (except while calibrating).
    pub fn read_raw_sensor(&mut self, raw: RawSample)
        requires
            old(self).wf(),
        ensures
            final(self).wf(),
            *final(self) == (Drone {
                raw_data: raw_next(
                    old(self).raw_data,
                    raw,
                    old(self).calibration_ypr_raw,
                    old(self).mode != Mode::Calibration,
                ),
                ..*old(self)
            }),
    {
        self.raw_data.prev_ypr = self.raw_data.current_ypr;
        let acc_x = Fx::from_int(raw.ax as i64);
        let acc_y = Fx::from_int(raw.ay as i64);
        let acc_z = Fx::from_int(raw.az as i64);
        let speed_x = Fx::from_int(raw.gx as i64);
        let speed_y = Fx::from_int(raw.gy as i64);
        let speed_z = Fx::from_int(raw.gz as i64).mul(Fx::from_bits(DEG2RAD_BITS));
        self.raw_data.kalman.filtering(acc_x, acc_y, acc_z, speed_x, speed_y);
        let rate = self.raw_data.butterworth.filter(speed_z);
        self.raw_data.roll_offset = unwrap_offset(
            self.raw_data.prev_raw_roll,
            self.raw_data.roll_offset,
            self.raw_data.kalman.rollphi,
        );
        self.raw_data.prev_raw_roll = self.raw_data.kalman.rollphi;
        let mut current = YawPitchRoll {
            yaw: rate,
            pitch: self.raw_data.kalman.pitchphi.neg(),
            roll: self.raw_data.kalman.rollphi.add(self.raw_data.roll_offset),
        };
        if self.mode != Mode::Calibration {
            current = current.sub(&self.calibration_ypr_raw);
        }
        self.raw_data.current_ypr = current;
    }

    /// The attitude laws: yaw rate with raw gain `yaw_k`, pitch and roll PD
    /// laws with the given scales. Sets the mixer demand and the remembered
    /// errors.
    pub(crate) fn attitude_control(
        &mut self,
        actual: YawPitchRoll,
        yaw_k: i32,
        rate: Fx,
        pitch_k: (i64, i64),
        roll_k: (i64, i64),
    )
        ensures
            *final(self) == attitude_result(
                *old(self),
                actual,
                yaw_k as int,
                rate.bits as int,
                (pitch_k.0 as int, pitch_k.1 as int),
                (roll_k.0 as int, roll_k.1 as int),
            ),
    {
        self.motor_ypr.yaw = yaw_law(&self.yaw_pid, yaw_k, self.js_ypr.yaw, rate);
        let (pitch, pitch_error) = pd_law(
            &self.pitch_pid,
            pitch_k.0,
            pitch_k.1,
            self.js_ypr.pitch,
            actual.pitch,
            self.prev_error_ypr.pitch,
        );
        self.motor_ypr.pitch = pitch;
        self.prev_error_ypr.pitch = pitch_error;
        let (roll, roll_error) = pd_law(
            &self.roll_pid,
            roll_k.0,
            roll_k.1,
            self.js_ypr.roll,
            actual.roll,
            self.prev_error_ypr.roll,
        );
        self.motor_ypr.roll = roll;
        self.prev_error_ypr.roll = roll_error;
    }
}

} // verus!
