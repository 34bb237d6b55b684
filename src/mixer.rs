//! The quad-X thrust mixer: from throttle, roll, pitch and yaw demand to
//! four motor speed commands.

use vstd::prelude::*;
use crate::fx::{Fx, sat, mul_bits, fx_sqrt};
use crate::ypr::{YawPitchRoll, is_root};

verus! {

/// Throttle demand of -50: above it the stick counts as released.
pub const MIN_THROTTLE_BITS: i32 = -51200;

/// Least speed of each motor while the throttle is engaged.
pub const MIN_MOTOR_SPEED: u16 = 180;

/// Lift/roll/pitch gain of the mixer, and yaw gain.
pub const LIFT_GAIN: i64 = 1000;
pub const YAW_GAIN: i64 = 7000;

/// Squared-speed demands of the four motors: lift weight 0.25, roll and
/// pitch weight 0.5, yaw weight 0.25, pitch row inverted.
pub open spec fn demands(ypr: YawPitchRoll, throttle: Fx) -> Seq<int> {
    let lift = mul_bits(-256, throttle.bits as int);
    let roll = mul_bits(512, ypr.roll.bits as int);
    let pitch = mul_bits(512, ypr.pitch.bits as int);
    let yaw = mul_bits(mul_bits(256, ypr.yaw.bits as int), YAW_GAIN * 1024);
    let b = LIFT_GAIN * 1024;
    seq![
        sat(mul_bits(sat(lift - pitch), b) - yaw),
        sat(mul_bits(sat(lift - roll), b) + yaw),
        sat(mul_bits(sat(lift + pitch), b) - yaw),
        sat(mul_bits(sat(lift + roll), b) + yaw),
    ]
}

/// Whether `root` is the rounded-down square root of a positive demand `a`,
/// or zero for any other demand.
pub open spec fn root_of(root: int, a: int) -> bool {
    if a > 0 {
        is_root(root, a)
    } else {
        root == 0
    }
}

/// Whether `m` is the command of a motor whose squared demand is `a`: the
/// square root of a positive demand (zero otherwise), floored at the least
/// speed when the throttle is engaged, in whole units rounded down.
pub open spec fn motor_speed(m: int, a: int, engaged: bool) -> bool {
    exists|root: int|
        #[trigger] root_of(root, a) && m == (if engaged && root < 180 * 1024 {
            180 * 1024int
        } else {
            root
        }) / 1024
}

fn motor_of(a: Fx, engaged: bool) -> (r: u16)
    ensures
        motor_speed(r as int, a.bits as int, engaged),
        engaged ==> r >= MIN_MOTOR_SPEED,
{
    let root = if a.bits > 0 { fx_sqrt(a) } else { Fx::zero() };
    proof {
        if a.bits > 0 {
            assert(root.bits <= 0x17_0000) by (nonlinear_arith)
                requires
                    root.bits * root.bits <= a.bits * 1024,
                    a.bits <= i32::MAX,
                    root.bits >= 0,
            ;
        }
    }
    let floored = if engaged && root.bits < 180 * 1024 { Fx::from_bits(180 * 1024) } else { root };
    let m = floored.to_int();
    proof {
        let w = root.bits as int;
        assert(root_of(w, a.bits as int) && m == (if engaged
            && w < 180 * 1024 {
            180 * 1024int
        } else {
            w
        }) / 1024);
        assert(0 <= floored.bits <= 0x17_0000);
        assert(0 <= m <= 1472);
    }
    let r = m as u16;
    assert(r as int == m as int);
    r
}

/// Whether `r` are the four motor speeds for the demand.
pub open spec fn mixed(r: Seq<u16>, ypr: YawPitchRoll, throttle: Fx) -> bool {
    &&& r.len() == 4
    &&& throttle.bits > MIN_THROTTLE_BITS ==> r == seq![0u16, 0u16, 0u16, 0u16]
    &&& throttle.bits <= MIN_THROTTLE_BITS ==> forall|i: int|
        0 <= i < 4 ==> motor_speed(
            #[trigger] r[i] as int,
            demands(ypr, throttle)[i],
            throttle.bits < MIN_THROTTLE_BITS,
        )
}

/// The four motor speeds for the demand. A throttle above the dead zone
/// commands every motor to zero.
pub fn calc_motors(ypr: YawPitchRoll, throttle: Fx) -> (r: [u16; 4])
    ensures
        mixed(r@, ypr, throttle),
        throttle.bits > MIN_THROTTLE_BITS ==> r@ == seq![0u16, 0u16, 0u16, 0u16],
        throttle.bits <= MIN_THROTTLE_BITS ==> forall|i: int|
            0 <= i < 4 ==> motor_speed(
                #[trigger] r@[i] as int,
                demands(ypr, throttle)[i],
                throttle.bits < MIN_THROTTLE_BITS,
            ),
        throttle.bits < MIN_THROTTLE_BITS ==> forall|i: int|
            0 <= i < 4 ==> #[trigger] r@[i] >= MIN_MOTOR_SPEED,
{
    let min_throttle = Fx::from_bits(MIN_THROTTLE_BITS);
    if throttle.gt(min_throttle) {
        return [0, 0, 0, 0];
    }
    let qrtr = Fx::from_bits(256);
    let half = Fx::from_bits(512);
    let b = Fx::from_int(LIFT_GAIN);
    let d = Fx::from_int(YAW_GAIN);
    let lift = qrtr.neg().mul(throttle);
    let yaw = qrtr.mul(ypr.yaw).mul(d);
    let a1 = lift.sub(half.mul(ypr.pitch)).mul(b).sub(yaw);
    let a2 = lift.sub(half.mul(ypr.roll)).mul(b).add(yaw);
    let a3 = lift.add(half.mul(ypr.pitch)).mul(b).sub(yaw);
    let a4 = lift.add(half.mul(ypr.roll)).mul(b).add(yaw);
    let engaged = throttle.lt(min_throttle);
    let r = [motor_of(a1, engaged), motor_of(a2, engaged), motor_of(a3, engaged), motor_of(a4, engaged)];
    proof {
        let ds = demands(ypr, throttle);
        assert(ds[0] == a1.bits && ds[1] == a2.bits && ds[2] == a3.bits && ds[3] == a4.bits);
    }
    r
}

} // verus!
