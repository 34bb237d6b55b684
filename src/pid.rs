//! Proportional-derivative gains and the per-axis control laws.

use vstd::prelude::*;
use crate::fx::{Fx, sat, mul_bits, div_bits};

verus! {

/// Gains of one axis; the integral gain is reserved.
#[derive(Clone, Copy, Debug, PartialEq, Eq)]
pub struct PID {
    pub p: Fx,
    pub i: Fx,
    pub d: Fx,
}

/// Whether both gains are below one, so the axis falls back to the stick.
pub open spec fn untuned(pid: PID) -> bool {
    pid.p.bits < 1024 && pid.d.bits < 1024
}

impl PID {
    /// All gains zero.
    pub open spec fn new_spec() -> PID {
        PID { p: Fx { bits: 0 }, i: Fx { bits: 0 }, d: Fx { bits: 0 } }
    }

    pub fn new() -> (r: PID)
        ensures
            r == PID::new_spec(),
    {
        PID { p: Fx::zero(), i: Fx::zero(), d: Fx::zero() }
    }

    /// A general PD law: returns the control value and the new error.
    /// Below a proportional gain of one, the control value is the reference
    /// scaled by 1500.
    pub fn clac_pid(
        &mut self,
        last_error: Fx,
        val_ref: Fx,
        val_act: Fx,
        dt: Fx,
        p_scale: Fx,
        d_scale: Fx,
    ) -> (r: (Fx, Fx))
        requires
            dt.bits != 0,
        ensures
            *final(self) == *old(self),
            r.1.bits == sat(val_ref.bits - val_act.bits),
            old(self).p.bits < 1024 ==> r.0.bits == mul_bits(1500 * 1024int, val_ref.bits as int),
            old(self).p.bits >= 1024 ==> r.0.bits == sat(
                mul_bits(mul_bits(old(self).p.bits as int, p_scale.bits as int), r.1.bits as int)
                    + div_bits(
                    mul_bits(
                        mul_bits(old(self).d.bits as int, d_scale.bits as int),
                        sat(r.1.bits - last_error.bits),
                    ),
                    dt.bits as int,
                ),
            ),
    {
        let error = val_ref.sub(val_act);
        let p_gain = self.p.mul(p_scale).mul(error);
        let d_gain = self.d.mul(d_scale).mul(error.sub(last_error)).div(dt);
        let mut calc = p_gain.add(d_gain);
        if self.p.bits < 1024 {
            calc = Fx::from_int(1500).mul(val_ref);
        }
        (calc, error)
    }
}

/// Raw value of `k * a` for a whole number `k`.
pub open spec fn scaled(k: int, a: int) -> int {
    mul_bits(sat(k * 1024), a)
}

/// The PD law of a pitch or roll axis: `kp * p * e + kd * d * (e - e_prev)`
/// with `e = reference - actual`; with both gains below one, the stick
/// reference scaled by 500 instead.
pub open spec fn pd_output(pid: PID, kp: int, kd: int, reference: int, actual: int, prev_error: int) -> int {
    let e = sat(reference - actual);
    if untuned(pid) {
        scaled(500, reference)
    } else {
        sat(mul_bits(scaled(kp, pid.p.bits as int), e) + mul_bits(
            scaled(kd, pid.d.bits as int),
            sat(e - prev_error),
        ))
    }
}

/// One step of a pitch or roll PD law; returns the output and the error
/// to remember for the next step.
pub fn pd_law(pid: &PID, kp: i64, kd: i64, reference: Fx, actual: Fx, prev_error: Fx) -> (r: (Fx, Fx))
    ensures
        r.0.bits == pd_output(*pid, kp as int, kd as int, reference.bits as int, actual.bits as int, prev_error.bits as int),
        r.1.bits == sat(reference.bits - actual.bits),
{
    let p_error = reference.sub(actual);
    // one tick at the 100 Hz tick rate: the derivative scale is TICK_FREQ / 100
    let d_error = p_error.sub(prev_error).mul(Fx::from_int(1));
    proof {
        assert(mul_bits(sat(p_error.bits - prev_error.bits), 1024) == sat(p_error.bits - prev_error.bits)) by (nonlinear_arith);
    }
    let mut out = Fx::from_int(kp).mul(pid.p).mul(p_error).add(
        Fx::from_int(kd).mul(pid.d).mul(d_error),
    );
    if pid.p.bits < 1024 && pid.d.bits < 1024 {
        out = Fx::from_int(500).mul(reference);
    }
    (out, p_error)
}

/// The yaw-rate law: `k * p * (3 * stick - rate)`; with both gains below
/// one, the stick scaled by 100 instead. `k_bits` is the raw value of `k`.
pub open spec fn yaw_output(pid: PID, k_bits: int, stick: int, rate: int) -> int {
    if untuned(pid) {
        scaled(100, stick)
    } else {
        mul_bits(mul_bits(k_bits, pid.p.bits as int), sat(scaled(3, stick) - rate))
    }
}

pub fn yaw_law(pid: &PID, k_bits: i32, stick: Fx, rate: Fx) -> (r: Fx)
    ensures
        r.bits == yaw_output(*pid, k_bits as int, stick.bits as int, rate.bits as int),
{
    let ref_velocity = Fx::from_int(3).mul(stick);
    let mut out = Fx::from_bits(k_bits).mul(pid.p).mul(ref_velocity.sub(rate));
    if pid.p.bits < 1024 && pid.d.bits < 1024 {
        out = Fx::from_int(100).mul(stick);
    }
    out
}

} // verus!
