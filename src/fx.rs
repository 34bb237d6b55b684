//! Signed fixed-point numbers with 22 integer bits and 10 fractional bits,
//! held as their raw bit pattern. Every operation saturates at the bounds of
//! the representation and rounds as the `fixed` crate's saturating operations
//! do.

use vstd::prelude::*;
use fixed::types::I22F10;

verus! {

pub open spec fn sat(x: int) -> int {
    if x > i32::MAX as int {
        i32::MAX as int
    } else if x < i32::MIN as int {
        i32::MIN as int
    } else {
        x
    }
}

/// Quotient of `a / b` rounded towards zero, as Rust integer division does.
pub open spec fn trunc_div(a: int, b: int) -> int {
    let q = abs(a) / abs(b);
    if (a < 0) != (b < 0) {
        -q
    } else {
        q
    }
}

pub open spec fn abs(a: int) -> int {
    if a < 0 {
        -a
    } else {
        a
    }
}

/// Raw value of the product of two raw values: rounded down, then saturated.
pub open spec fn mul_bits(a: int, b: int) -> int {
    sat((a * b) / 1024)
}

/// Raw value of the quotient of two raw values: rounded towards zero, then saturated.
pub open spec fn div_bits(a: int, b: int) -> int {
    sat(trunc_div(a * 1024, b))
}

/// A fixed-point number; its value is `bits / 1024`.
#[derive(Clone, Copy, Debug, PartialEq, Eq)]
pub struct Fx {
    pub bits: i32,
}

impl Fx {
    pub open spec fn val(self) -> int {
        self.bits as int
    }

    pub fn from_bits(bits: i32) -> (r: Fx)
        ensures
            r.bits == bits,
    {
        Fx { bits }
    }

    pub fn to_bits(self) -> (r: i32)
        ensures
            r == self.bits,
    {
        self.bits
    }

    pub fn zero() -> (r: Fx)
        ensures
            r.bits == 0,
    {
        Fx { bits: 0 }
    }

    /// The number `n`, saturated to the representable range.
    pub fn from_int(n: i64) -> (r: Fx)
        ensures
            r.bits == sat(n * 1024),
    {
        if n > (i32::MAX / 1024) as i64 {
            Fx { bits: i32::MAX }
        } else if n < (i32::MIN / 1024) as i64 {
            Fx { bits: i32::MIN }
        } else {
            Fx { bits: (n * 1024) as i32 }
        }
    }

    /// The integer part, rounded down.
    pub fn to_int(self) -> (r: i32)
        ensures
            r == self.bits as int / 1024,
    {
        floor_div_1024(self.bits as i64) as i32
    }

    pub fn add(self, o: Fx) -> (r: Fx)
        ensures
            r.bits == sat(self.bits + o.bits),
    {
        Fx { bits: clamp_i64(self.bits as i64 + o.bits as i64) }
    }

    pub fn sub(self, o: Fx) -> (r: Fx)
        ensures
            r.bits == sat(self.bits - o.bits),
    {
        Fx { bits: clamp_i64(self.bits as i64 - o.bits as i64) }
    }

    pub fn neg(self) -> (r: Fx)
        ensures
            r.bits == sat(-self.bits),
    {
        Fx { bits: clamp_i64(-(self.bits as i64)) }
    }

    pub fn mul(self, o: Fx) -> (r: Fx)
        ensures
            r.bits == mul_bits(self.bits as int, o.bits as int),
    {
        let a = self.bits as i64;
        let b = o.bits as i64;
        proof {
            lemma_i32_product_bound(self.bits as int, o.bits as int);
        }
        let p: i64 = a * b;
        Fx { bits: clamp_i64(floor_div_1024(p)) }
    }

    pub fn div(self, o: Fx) -> (r: Fx)
        requires
            o.bits != 0,
        ensures
            r.bits == div_bits(self.bits as int, o.bits as int),
    {
        let a = self.bits as i64 * 1024;
        let b = o.bits as i64;
        let ua: u64 = if a < 0 { (-a) as u64 } else { a as u64 };
        let ub: u64 = if b < 0 { (-b) as u64 } else { b as u64 };
        let q: u64 = ua / ub;
        proof {
            assert(q <= ua) by (nonlinear_arith)
                requires q == ua / ub, ub >= 1;
        }
        let sq: i64 = if (a < 0) != (b < 0) { -(q as i64) } else { q as i64 };
        Fx { bits: clamp_i64(sq) }
    }

    pub fn lt(self, o: Fx) -> (r: bool)
        ensures
            r == (self.bits < o.bits),
    {
        self.bits < o.bits
    }

    pub fn gt(self, o: Fx) -> (r: bool)
        ensures
            r == (self.bits > o.bits),
    {
        self.bits > o.bits
    }
}

proof fn lemma_i32_product_bound(a: int, b: int)
    requires
        i32::MIN <= a <= i32::MAX,
        i32::MIN <= b <= i32::MAX,
    ensures
        -0x4000_0000_0000_0000 <= a * b <= 0x4000_0000_0000_0000,
{
    assert(-0x4000_0000_0000_0000 <= a * b <= 0x4000_0000_0000_0000) by (nonlinear_arith)
        requires
            -0x8000_0000 <= a <= 0x8000_0000,
            -0x8000_0000 <= b <= 0x8000_0000,
    ;
}

/// Saturating narrowing of a 64-bit value.
fn clamp_i64(x: i64) -> (r: i32)
    ensures
        r == sat(x as int),
{
    if x > i32::MAX as i64 {
        i32::MAX
    } else if x < i32::MIN as i64 {
        i32::MIN
    } else {
        x as i32
    }
}

/// `x / 1024`, rounded down.
fn floor_div_1024(x: i64) -> (r: i64)
    ensures
        r == x as int / 1024,
{
    if x >= 0 {
        x / 1024
    } else {
        let n: i64 = -(x + 1);
        let q: i64 = n / 1024;
        proof {
            assert((x as int) / 1024 == -(q as int) - 1) by (nonlinear_arith)
                requires n == -(x + 1), q == n / 1024, n >= 0;
        }
        -q - 1
    }
}

/// Relies on `fixed`'s `FixedI32::sqrt`: the greatest number whose square is
/// at most the argument (rounded down); it panics on a negative argument,
/// and with 22 integer bits it cannot overflow.
#[verifier::external_body]
pub(crate) fn fx_sqrt(a: Fx) -> (r: Fx)
    requires
        a.bits >= 0,
    ensures
        r.bits >= 0,
        r.bits * r.bits <= a.bits * 1024,
        a.bits * 1024 < (r.bits + 1) * (r.bits + 1),
{
    Fx { bits: I22F10::from_bits(a.bits).sqrt().to_bits() }
}

/// The raw value of `cordic::atan2(y, x)` on two raw values.
pub uninterp spec fn atan2_of(y: int, x: int) -> int;

/// Relies on `cordic::atan2` over `I22F10`: the angle of the point `(x, y)`.
/// Its quotient `y / x` and the rotations that follow stay in range when
/// `|y| <= 2^19 |x|`, and it negates both arguments, so neither is the least
/// representable value.
#[verifier::external_body]
pub(crate) fn fx_atan2(y: Fx, x: Fx) -> (r: Fx)
    requires
        y.bits > i32::MIN,
        x.bits > i32::MIN,
        x.bits != 0 ==> abs(y.bits as int) <= 0x8_0000 * abs(x.bits as int),
    ensures
        r.bits == atan2_of(y.bits as int, x.bits as int),
{
    Fx { bits: cordic::atan2(I22F10::from_bits(y.bits), I22F10::from_bits(x.bits)).to_bits() }
}

} // verus!
