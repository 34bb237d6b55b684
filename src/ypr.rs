//! Yaw/pitch/roll triples, the quaternion-to-Euler conversion of the fused
//! estimator, and the continuity unwrap of yaw and roll.

use vstd::prelude::*;
use crate::fx::{Fx, sat, mul_bits, abs, atan2_of, fx_atan2, fx_sqrt};

verus! {

/// 2.5 rad: a sample beyond this on one side after one beyond its negation
/// on the other side is a full turn.
pub const WRAP_LIMIT_BITS: i32 = 2560;

/// 2π as the fixed-point constant `PI * 2` (π rounded down to 3216/1024).
pub const TWO_PI_BITS: i32 = 6432;

/// Largest ratio `|y| / |x|` handed to the arctangent.
pub const ATAN_RATIO: i64 = 0x8_0000;

#[derive(Clone, Copy, Debug, PartialEq, Eq)]
pub struct YawPitchRoll {
    pub yaw: Fx,
    pub pitch: Fx,
    pub roll: Fx,
}

/// An orientation quaternion, in fixed point.
#[derive(Clone, Copy, Debug, PartialEq, Eq)]
pub struct Quaternion {
    pub w: Fx,
    pub x: Fx,
    pub y: Fx,
    pub z: Fx,
}

impl YawPitchRoll {
    pub open spec fn is_zero(self) -> bool {
        self.yaw.bits == 0 && self.pitch.bits == 0 && self.roll.bits == 0
    }

    pub open spec fn zero_spec() -> YawPitchRoll {
        YawPitchRoll { yaw: Fx { bits: 0 }, pitch: Fx { bits: 0 }, roll: Fx { bits: 0 } }
    }

    pub fn new() -> (r: YawPitchRoll)
        ensures
            r.is_zero(),
            r == YawPitchRoll::zero_spec(),
    {
        YawPitchRoll { yaw: Fx::zero(), pitch: Fx::zero(), roll: Fx::zero() }
    }

    /// Component-wise difference.
    pub fn sub(&self, other: &YawPitchRoll) -> (r: YawPitchRoll)
        ensures
            r.yaw.bits == sat(self.yaw.bits - other.yaw.bits),
            r.pitch.bits == sat(self.pitch.bits - other.pitch.bits),
            r.roll.bits == sat(self.roll.bits - other.roll.bits),
    {
        YawPitchRoll {
            yaw: self.yaw.sub(other.yaw),
            pitch: self.pitch.sub(other.pitch),
            roll: self.roll.sub(other.roll),
        }
    }
}

/// Nudges the least representable value up by one, so it can be negated.
pub open spec fn off_min(a: int) -> int {
    if a == i32::MIN as int {
        a + 1
    } else {
        a
    }
}

/// Raw value of the angle of the point `(x, y)`. Where `x` is too small
/// next to `y` for the fixed-point quotient `y / x`, the point is taken as
/// lying on the vertical axis.
pub open spec fn angle_bits(y: int, x: int) -> int {
    let y1 = off_min(y);
    let x1 = off_min(x);
    if x1 == 0 || abs(y1) <= ATAN_RATIO * abs(x1) {
        atan2_of(y1, x1)
    } else {
        atan2_of(y1, 0)
    }
}

/// The angle of the point `(x, y)`; see `angle_bits`.
pub fn angle_of(y: Fx, x: Fx) -> (r: Fx)
    ensures
        r.bits == angle_bits(y.bits as int, x.bits as int),
{
    let y1 = if y.bits == i32::MIN { Fx::from_bits(i32::MIN + 1) } else { y };
    let x1 = if x.bits == i32::MIN { Fx::from_bits(i32::MIN + 1) } else { x };
    let ay: i64 = if y1.bits < 0 { -(y1.bits as i64) } else { y1.bits as i64 };
    let ax: i64 = if x1.bits < 0 { -(x1.bits as i64) } else { x1.bits as i64 };
    if x1.bits == 0 || ay <= ATAN_RATIO * ax {
        fx_atan2(y1, x1)
    } else {
        fx_atan2(y1, Fx::zero())
    }
}

/// Raw value of the square root, rounded down.
pub open spec fn is_root(r: int, a: int) -> bool {
    r >= 0 && r * r <= a * 1024 && a * 1024 < (r + 1) * (r + 1)
}

/// The rounded-down square root of a non-negative raw value.
pub open spec fn root_bits(a: int) -> int {
    choose|r: int| is_root(r, a)
}

/// A rounded-down square root is unique, so it is `root_bits`.
pub proof fn lemma_root_unique(r: int, a: int)
    requires
        is_root(r, a),
    ensures
        root_bits(a) == r,
{
    let c = root_bits(a);
    assert(is_root(c, a));
    if c < r {
        assert((c + 1) * (c + 1) <= r * r) by (nonlinear_arith)
            requires c + 1 <= r, c >= 0;
    } else if c > r {
        assert((r + 1) * (r + 1) <= c * c) by (nonlinear_arith)
            requires r + 1 <= c, r >= 0;
    }
}

/// The Euler angles of a quaternion: yaw, pitch and roll from the standard
/// arctangent identities, in saturating fixed point.
pub open spec fn euler_yaw(q: Quaternion) -> int {
    let (w, x, y, z) = (q.w.bits as int, q.x.bits as int, q.y.bits as int, q.z.bits as int);
    let two_xy = mul_bits(mul_bits(2048, x), y);
    let two_wz = mul_bits(mul_bits(2048, w), z);
    let two_ww = mul_bits(mul_bits(2048, w), w);
    let two_xx = mul_bits(mul_bits(2048, x), x);
    angle_bits(sat(two_xy - two_wz), sat(sat(two_ww + two_xx) - 1024))
}

pub open spec fn gravity(q: Quaternion) -> (int, int, int) {
    let (w, x, y, z) = (q.w.bits as int, q.x.bits as int, q.y.bits as int, q.z.bits as int);
    let gx = mul_bits(2048, sat(mul_bits(x, z) - mul_bits(w, y)));
    let gy = mul_bits(2048, sat(mul_bits(w, x) + mul_bits(y, z)));
    let gz = sat(sat(sat(mul_bits(w, w) - mul_bits(x, x)) - mul_bits(y, y)) + mul_bits(z, z));
    (gx, gy, gz)
}

pub open spec fn euler_roll(q: Quaternion) -> int {
    let (gx, gy, gz) = gravity(q);
    angle_bits(gy, gz)
}

pub open spec fn euler_pitch(q: Quaternion) -> int {
    let (gx, gy, gz) = gravity(q);
    angle_bits(gx, root_bits(sat(mul_bits(gy, gy) + mul_bits(gz, gz))))
}

/// The Euler angles of a quaternion.
pub open spec fn euler_of(q: Quaternion) -> YawPitchRoll {
    YawPitchRoll {
        yaw: Fx { bits: euler_yaw(q) as i32 },
        pitch: Fx { bits: euler_pitch(q) as i32 },
        roll: Fx { bits: euler_roll(q) as i32 },
    }
}

impl YawPitchRoll {
    /// Converts an orientation quaternion to Euler angles.
    pub fn from_quaternion(q: Quaternion) -> (r: YawPitchRoll)
        ensures
            r.yaw.bits == euler_yaw(q),
            r.roll.bits == euler_roll(q),
            r.pitch.bits == euler_pitch(q),
            r == euler_of(q),
    {
        let two = Fx::from_int(2);
        let one = Fx::from_int(1);
        let (w, x, y, z) = (q.w, q.x, q.y, q.z);
        let gx = two.mul(x.mul(z).sub(w.mul(y)));
        let gy = two.mul(w.mul(x).add(y.mul(z)));
        let gz = w.mul(w).sub(x.mul(x)).sub(y.mul(y)).add(z.mul(z));
        let yaw = angle_of(
            two.mul(x).mul(y).sub(two.mul(w).mul(z)),
            two.mul(w).mul(w).add(two.mul(x).mul(x)).sub(one),
        );
        let gg = gy.mul(gy);
        let zz = gz.mul(gz);
        proof {
            assert(gg.bits >= 0) by (nonlinear_arith)
                requires gg.bits == mul_bits(gy.bits as int, gy.bits as int);
            assert(zz.bits >= 0) by (nonlinear_arith)
                requires zz.bits == mul_bits(gz.bits as int, gz.bits as int);
        }
        let n = gg.add(zz);
        let root = fx_sqrt(n);
        let pitch = angle_of(gx, root);
        let roll = angle_of(gy, gz);
        proof {
            lemma_root_unique(root.bits as int, n.bits as int);
        }
        YawPitchRoll { yaw, pitch, roll }
    }
}

impl From<Quaternion> for YawPitchRoll {
    fn from(q: Quaternion) -> (r: YawPitchRoll)
        ensures
            r == euler_of(q),
    {
        YawPitchRoll::from_quaternion(q)
    }
}

impl vstd::std_specs::convert::FromSpecImpl<Quaternion> for YawPitchRoll {
    open spec fn obeys_from_spec() -> bool {
        true
    }

    open spec fn from_spec(q: Quaternion) -> YawPitchRoll {
        euler_of(q)
    }
}

/// Whether the raw measurement jumps across the ±π seam between two
/// consecutive samples: from beyond +2.5 rad to below -2.5 rad (downward),
/// or the reverse (upward).
pub open spec fn crosses_down(prev: int, sample: int) -> bool {
    prev > WRAP_LIMIT_BITS && sample < -WRAP_LIMIT_BITS
}

pub open spec fn crosses_up(prev: int, sample: int) -> bool {
    prev < -WRAP_LIMIT_BITS && sample > WRAP_LIMIT_BITS
}

/// The offset after a raw sample `sample` that follows the raw sample
/// `prev`: 2π more on a downward crossing, 2π less on an upward one,
/// unchanged otherwise.
pub open spec fn unwrapped_offset(prev: int, offset: int, sample: int) -> int {
    if crosses_down(prev, sample) {
        sat(offset + TWO_PI_BITS)
    } else if crosses_up(prev, sample) {
        sat(offset - TWO_PI_BITS)
    } else {
        offset
    }
}

/// The full-rotation offset to add to the raw sample `sample`, given the
/// previous raw sample `prev` and the current offset.
pub fn unwrap_offset(prev: Fx, offset: Fx, sample: Fx) -> (r: Fx)
    ensures
        r.bits == unwrapped_offset(prev.bits as int, offset.bits as int, sample.bits as int),
{
    let limit = Fx::from_bits(WRAP_LIMIT_BITS);
    let neg_limit = Fx::from_bits(-WRAP_LIMIT_BITS);
    let two_pi = Fx::from_bits(TWO_PI_BITS);
    if prev.gt(limit) && sample.lt(neg_limit) {
        offset.add(two_pi)
    } else if prev.lt(neg_limit) && sample.gt(limit) {
        offset.sub(two_pi)
    } else {
        offset
    }
}

/// State of one unwrapped axis after a run of raw samples: the last raw
/// sample and the offset.
pub open spec fn unwrap_run(prev: int, offset: int, samples: Seq<int>) -> (int, int)
    decreases samples.len(),
{
    if samples.len() == 0 {
        (prev, offset)
    } else {
        let (p, o) = unwrap_run(prev, offset, samples.drop_last());
        let s = samples.last();
        (s, unwrapped_offset(p, o, s))
    }
}

/// Whether some pair of consecutive samples of the run crosses the seam.
pub open spec fn run_crosses(prev: int, offset: int, samples: Seq<int>) -> bool
    decreases samples.len(),
{
    if samples.len() == 0 {
        false
    } else {
        let (p, o) = unwrap_run(prev, offset, samples.drop_last());
        run_crosses(prev, offset, samples.drop_last()) || crosses_down(p, samples.last())
            || crosses_up(p, samples.last())
    }
}

/// A run of samples that never crosses the seam leaves the offset where it
/// was: the unwrap adds no drift.
pub proof fn lemma_unwrap_no_drift(prev: int, offset: int, samples: Seq<int>)
    requires
        !run_crosses(prev, offset, samples),
    ensures
        unwrap_run(prev, offset, samples).1 == offset,
    decreases samples.len(),
{
    if samples.len() > 0 {
        lemma_unwrap_no_drift(prev, offset, samples.drop_last());
    }
}

/// Each crossing moves the offset by exactly one turn, while the offset
/// stays inside the representable range.
pub proof fn lemma_unwrap_one_turn(prev: int, offset: int, sample: int)
    requires
        i32::MIN + TWO_PI_BITS <= offset <= i32::MAX - TWO_PI_BITS,
    ensures
        crosses_down(prev, sample) ==> unwrapped_offset(prev, offset, sample) == offset
            + TWO_PI_BITS,
        crosses_up(prev, sample) ==> unwrapped_offset(prev, offset, sample) == offset
            - TWO_PI_BITS,
        !crosses_down(prev, sample) && !crosses_up(prev, sample)
            ==> unwrapped_offset(prev, offset, sample) == offset,
{
}

/// Downward crossings less upward crossings over a run.
pub open spec fn net_turns(prev: int, offset: int, samples: Seq<int>) -> int
    decreases samples.len(),
{
    if samples.len() == 0 {
        0
    } else {
        let (p, o) = unwrap_run(prev, offset, samples.drop_last());
        let s = samples.last();
        net_turns(prev, offset, samples.drop_last()) + if crosses_down(p, s) {
            1int
        } else if crosses_up(p, s) {
            -1int
        } else {
            0int
        }
    }
}

/// Over any run, the offset is the starting offset plus one turn per
/// downward crossing and minus one per upward crossing, as long as the run
/// is too short to push the offset out of the representable range.
pub proof fn lemma_unwrap_counts_turns(prev: int, offset: int, samples: Seq<int>)
    requires
        i32::MIN + TWO_PI_BITS * samples.len() <= offset <= i32::MAX - TWO_PI_BITS * samples.len(),
    ensures
        unwrap_run(prev, offset, samples).1 == offset + TWO_PI_BITS * net_turns(prev, offset, samples),
        -samples.len() <= net_turns(prev, offset, samples) <= samples.len(),
    decreases samples.len(),
{
    if samples.len() > 0 {
        let n = samples.len();
        lemma_unwrap_counts_turns(prev, offset, samples.drop_last());
        let t = net_turns(prev, offset, samples.drop_last());
        assert(TWO_PI_BITS * t <= TWO_PI_BITS * (n - 1)) by (nonlinear_arith)
            requires t <= n - 1;
        assert(TWO_PI_BITS * t >= -TWO_PI_BITS * (n - 1)) by (nonlinear_arith)
            requires t >= -(n - 1);
        assert(TWO_PI_BITS * n == TWO_PI_BITS * (n - 1) + TWO_PI_BITS) by (nonlinear_arith);
    }
}

} // verus!
