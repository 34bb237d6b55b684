//! The first-order low-pass filter and the complementary filter that fuses
//! accelerometer tilt with gyro rates.

use vstd::prelude::*;
use crate::fx::{Fx, sat, mul_bits, div_bits, trunc_div};
use crate::ypr::{angle_of, angle_bits};

verus! {

/// Cut-off and sampling frequency of the low-pass filter, in Hz.
pub const CUT_OFF_FREQ: i64 = 10;
pub const SAMPLING_FREQ: i64 = 100;

/// Degrees to radians, as the fixed-point value nearest 0.017.
pub const DEG2RAD_BITS: i32 = 17;

/// First-order low-pass filter: `y[n] = b0 x[n] + b1 x[n-1] + a1 y[n-1]`.
pub struct ButterWorth {
    pub cutoff_freq: Fx,
    pub sampling_freq: Fx,
    pub a1: Fx,
    pub b0: Fx,
    pub b1: Fx,
    pub prev_input: Fx,
    pub prev_output: Fx,
}

/// The coefficients for a ratio `n` of sampling to cut-off frequency:
/// `b0 = b1 = 1 / (2n)` and `a1 = 1 - 1/n`.
pub open spec fn coefficients(n: int) -> (int, int, int) {
    let b = div_bits(1024, mul_bits(2048, n));
    (b, b, sat(1024 - div_bits(1024, n)))
}

impl ButterWorth {
    pub fn new() -> (r: ButterWorth)
        ensures
            r.cutoff_freq.bits == CUT_OFF_FREQ * 1024,
            r.sampling_freq.bits == SAMPLING_FREQ * 1024,
            (r.b0.bits as int, r.b1.bits as int, r.a1.bits as int) == coefficients(
                div_bits(SAMPLING_FREQ * 1024, CUT_OFF_FREQ * 1024),
            ),
            r.prev_input.bits == 0,
            r.prev_output.bits == 0,
    {
        let mut butterworth = ButterWorth {
            cutoff_freq: Fx::from_int(CUT_OFF_FREQ),
            sampling_freq: Fx::from_int(SAMPLING_FREQ),
            a1: Fx::zero(),
            b0: Fx::zero(),
            b1: Fx::zero(),
            prev_input: Fx::zero(),
            prev_output: Fx::zero(),
        };
        proof {
            assert(104857600int / 10240int == 10240) by (nonlinear_arith);
            assert(trunc_div(104857600int, 10240int) == 10240);
            assert(div_bits(102400, 10240) == 10240);
            assert(20971520int / 1024int == 20480) by (nonlinear_arith);
            assert(mul_bits(2048, 10240) == 20480);
        }
        butterworth.calculate_coefficients();
        butterworth
    }

    fn calculate_coefficients(&mut self)
        requires
            old(self).cutoff_freq.bits != 0,
            div_bits(old(self).sampling_freq.bits as int, old(self).cutoff_freq.bits as int) != 0,
            mul_bits(
                2048,
                div_bits(old(self).sampling_freq.bits as int, old(self).cutoff_freq.bits as int),
            ) != 0,
        ensures
            (final(self).b0.bits as int, final(self).b1.bits as int, final(self).a1.bits as int)
                == coefficients(
                div_bits(old(self).sampling_freq.bits as int, old(self).cutoff_freq.bits as int),
            ),
            final(self).cutoff_freq == old(self).cutoff_freq,
            final(self).sampling_freq == old(self).sampling_freq,
            final(self).prev_input == old(self).prev_input,
            final(self).prev_output == old(self).prev_output,
    {
        let one = Fx::from_int(1);
        let n = self.sampling_freq.div(self.cutoff_freq);
        self.b0 = one.div(Fx::from_int(2).mul(n));
        self.b1 = one.div(Fx::from_int(2).mul(n));
        self.a1 = one.sub(one.div(n));
    }

    /// Whether `new` is this filter after `input` gave `output`.
    pub open spec fn filtered(self, new: ButterWorth, input: Fx, output: Fx) -> bool {
        &&& output.bits == sat(
            sat(mul_bits(self.b0.bits as int, input.bits as int) + mul_bits(
                self.b1.bits as int,
                self.prev_input.bits as int,
            )) + mul_bits(self.a1.bits as int, self.prev_output.bits as int),
        )
        &&& new.prev_input == input
        &&& new.prev_output == output
        &&& new.a1 == self.a1 && new.b0 == self.b0 && new.b1 == self.b1
        &&& new.cutoff_freq == self.cutoff_freq && new.sampling_freq == self.sampling_freq
    }

    /// The filter after `input`, and its output.
    pub open spec fn next(self, input: Fx) -> (ButterWorth, Fx) {
        let out = Fx {
            bits: sat(
                sat(mul_bits(self.b0.bits as int, input.bits as int) + mul_bits(
                    self.b1.bits as int,
                    self.prev_input.bits as int,
                )) + mul_bits(self.a1.bits as int, self.prev_output.bits as int),
            ) as i32,
        };
        (ButterWorth { prev_input: input, prev_output: out, ..self }, out)
    }

    /// Filters one sample and remembers it.
    pub fn filter(&mut self, input: Fx) -> (r: Fx)
        ensures
            old(self).filtered(*final(self), input, r),
            (*final(self), r) == old(self).next(input),
    {
        let output = self.b0.mul(input).add(self.b1.mul(self.prev_input)).add(
            self.a1.mul(self.prev_output),
        );
        self.prev_input = input;
        self.prev_output = output;
        output
    }
}

/// Complementary filter state for pitch and roll.
pub struct Kalman {
    pub pitchp: Fx,
    pub pitchb: Fx,
    pub pitchphi: Fx,
    pub pitch_c1: Fx,
    pub pitch_c2: Fx,
    pub rollp: Fx,
    pub rollb: Fx,
    pub rollphi: Fx,
    pub roll_c1: Fx,
    pub roll_c2: Fx,
}

/// One axis of the fusion: `(rate, angle, bias)` after a gyro reading
/// `gyro` (degrees per second) and an accelerometer angle `acc_angle`.
/// The predicted angle is `angle + (rate - bias) / 100`; its error against
/// the accelerometer corrects the angle by `error / c1` and the bias by
/// `(error / 0.01) / c2`.
pub open spec fn fuse_axis(angle: int, bias: int, c1: int, c2: int, gyro: int, acc_angle: int) -> (
    int,
    int,
    int,
) {
    let rate = sat(mul_bits(gyro, DEG2RAD_BITS as int) - bias);
    let predicted = sat(angle + div_bits(rate, 102400));
    let e = sat(predicted - acc_angle);
    (rate, sat(angle - div_bits(e, c1)), sat(bias + div_bits(div_bits(e, 10), c2)))
}

impl Kalman {
    pub open spec fn wf(&self) -> bool {
        self.pitch_c1.bits != 0 && self.pitch_c2.bits != 0 && self.roll_c1.bits != 0
            && self.roll_c2.bits != 0
    }

    pub fn new() -> (r: Kalman)
        ensures
            r.wf(),
            r.pitchp.bits == 0 && r.pitchb.bits == 0 && r.pitchphi.bits == 0,
            r.rollp.bits == 0 && r.rollb.bits == 0 && r.rollphi.bits == 0,
            r.pitch_c1.bits == 1024 && r.roll_c1.bits == 1024,
            r.pitch_c2.bits == 1000 * 1024 && r.roll_c2.bits == 1000 * 1024,
    {
        Kalman {
            pitchp: Fx::zero(),
            pitchb: Fx::zero(),
            pitchphi: Fx::zero(),
            pitch_c1: Fx::from_int(1),
            pitch_c2: Fx::from_int(1000),
            rollp: Fx::zero(),
            rollb: Fx::zero(),
            rollphi: Fx::zero(),
            roll_c1: Fx::from_int(1),
            roll_c2: Fx::from_int(1000),
        }
    }

    fn fuse(angle: Fx, bias: Fx, c1: Fx, c2: Fx, gyro: Fx, acc_angle: Fx) -> (r: (Fx, Fx, Fx))
        requires
            c1.bits != 0,
            c2.bits != 0,
        ensures
            (r.0.bits as int, r.1.bits as int, r.2.bits as int) == fuse_axis(
                angle.bits as int,
                bias.bits as int,
                c1.bits as int,
                c2.bits as int,
                gyro.bits as int,
                acc_angle.bits as int,
            ),
    {
        let rate = gyro.mul(Fx::from_bits(DEG2RAD_BITS)).sub(bias);
        let predicted = angle.add(rate.div(Fx::from_int(100)));
        let e = predicted.sub(acc_angle);
        let new_angle = angle.sub(e.div(c1));
        let new_bias = bias.add(e.div(Fx::from_bits(10)).div(c2));
        (rate, new_angle, new_bias)
    }

    /// Whether `new` is this filter after fusing `(ax, ay, az)` with the
    /// gyro rates `spx` (roll) and `spy` (pitch).
    pub open spec fn fused(self, new: Kalman, ax: Fx, ay: Fx, az: Fx, spx: Fx, spy: Fx) -> bool {
        &&& new.pitch_c1 == self.pitch_c1 && new.pitch_c2 == self.pitch_c2
        &&& new.roll_c1 == self.roll_c1 && new.roll_c2 == self.roll_c2
        &&& (new.pitchp.bits as int, new.pitchphi.bits as int, new.pitchb.bits as int)
            == fuse_axis(
            self.pitchphi.bits as int,
            self.pitchb.bits as int,
            self.pitch_c1.bits as int,
            self.pitch_c2.bits as int,
            spy.bits as int,
            angle_bits(ax.bits as int, az.bits as int),
        )
        &&& (new.rollp.bits as int, new.rollphi.bits as int, new.rollb.bits as int) == fuse_axis(
            self.rollphi.bits as int,
            self.rollb.bits as int,
            self.roll_c1.bits as int,
            self.roll_c2.bits as int,
            spx.bits as int,
            angle_bits(ay.bits as int, az.bits as int),
        )
    }

    /// The filter after fusing `(ax, ay, az)` with the gyro rates `spx`
    /// (roll) and `spy` (pitch).
    pub open spec fn next(self, ax: Fx, ay: Fx, az: Fx, spx: Fx, spy: Fx) -> Kalman {
        let (pp, pphi, pb) = fuse_axis(
            self.pitchphi.bits as int,
            self.pitchb.bits as int,
            self.pitch_c1.bits as int,
            self.pitch_c2.bits as int,
            spy.bits as int,
            angle_bits(ax.bits as int, az.bits as int),
        );
        let (rp, rphi, rb) = fuse_axis(
            self.rollphi.bits as int,
            self.rollb.bits as int,
            self.roll_c1.bits as int,
            self.roll_c2.bits as int,
            spx.bits as int,
            angle_bits(ay.bits as int, az.bits as int),
        );
        Kalman {
            pitchp: Fx { bits: pp as i32 },
            pitchphi: Fx { bits: pphi as i32 },
            pitchb: Fx { bits: pb as i32 },
            rollp: Fx { bits: rp as i32 },
            rollphi: Fx { bits: rphi as i32 },
            rollb: Fx { bits: rb as i32 },
            ..self
        }
    }

    /// Fuses one accelerometer reading `(ax, ay, az)` and the gyro rates
    /// about x (roll) and y (pitch).
    pub fn filtering(&mut self, ax: Fx, ay: Fx, az: Fx, spx: Fx, spy: Fx)
        requires
            old(self).wf(),
        ensures
            final(self).wf(),
            *final(self) == old(self).next(ax, ay, az, spx, spy),
            old(self).fused(*final(self), ax, ay, az, spx, spy),
    {
        let pitchsphi = angle_of(ax, az);
        let rollsphi = angle_of(ay, az);
        let (pp, pphi, pb) = Kalman::fuse(
            self.pitchphi,
            self.pitchb,
            self.pitch_c1,
            self.pitch_c2,
            spy,
            pitchsphi,
        );
        self.pitchp = pp;
        self.pitchphi = pphi;
        self.pitchb = pb;
        let (rp, rphi, rb) = Kalman::fuse(
            self.rollphi,
            self.rollb,
            self.roll_c1,
            self.roll_c2,
            spx,
            rollsphi,
        );
        self.rollp = rp;
        self.rollphi = rphi;
        self.rollb = rb;
    }
}

} // verus!
