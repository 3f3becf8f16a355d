//! Exact fixed-point scalars.
//!
//! Every coordinate, radius, stroke weight and colour channel in the engine
//! is an `Fx`: a signed 48.16 fixed-point number stored in an `i64`.  The
//! represented value is `bits / 65536`.  All arithmetic is exact integer
//! arithmetic on the bit patterns, so contracts can state results to the bit.
//!
//! Multiplication and division round toward zero, matching the way the
//! engine's casts truncate.

use vstd::prelude::*;

verus! {

/// Round-toward-zero division of `p` by a positive divisor `d`.
pub open spec fn tz_div(p: int, d: int) -> int {
    if p >= 0 {
        p / d
    } else {
        -((-p) / d)
    }
}

/// The product of two fixed-point values, in bits: `a * b / 65536`,
/// rounded toward zero.
pub open spec fn fx_mul(a: int, b: int) -> int {
    tz_div(a * b, 65536)
}

/// The quotient of two fixed-point values, in bits: `a * 65536 / b`,
/// rounded toward zero.  Meaningful for `b > 0`.
pub open spec fn fx_div(a: int, b: int) -> int {
    tz_div(a * 65536, b)
}

/// A 48.16 fixed-point number; the value represented is `bits / 65536`.
#[derive(Clone, Copy, Debug, PartialEq, Eq, Structural)]
pub struct Fx {
    pub bits: i64,
}

impl View for Fx {
    type V = int;

    open spec fn view(&self) -> int {
        self.bits as int
    }
}

impl Fx {
    /// The fixed-point representation of the integer `n`.
    pub fn from_int(n: i64) -> (r: Fx)
        requires
            -0x4000_0000_0000 <= n <= 0x4000_0000_0000,
        ensures
            r@ == n * 65536,
    {
        Fx { bits: n * 65536 }
    }

    pub fn zero() -> (r: Fx)
        ensures
            r@ == 0,
    {
        Fx { bits: 0 }
    }

    pub fn one() -> (r: Fx)
        ensures
            r@ == 65536,
    {
        Fx { bits: 65536 }
    }

    pub fn add(self, o: Fx) -> (r: Fx)
        requires
            i64::MIN <= self@ + o@ <= i64::MAX,
        ensures
            r@ == self@ + o@,
    {
        Fx { bits: self.bits + o.bits }
    }

    pub fn sub(self, o: Fx) -> (r: Fx)
        requires
            i64::MIN <= self@ - o@ <= i64::MAX,
        ensures
            r@ == self@ - o@,
    {
        Fx { bits: self.bits - o.bits }
    }

    pub fn neg(self) -> (r: Fx)
        requires
            self@ != i64::MIN,
        ensures
            r@ == -self@,
    {
        Fx { bits: -self.bits }
    }

    /// Fixed-point multiplication, rounded toward zero.
    pub fn mul(self, o: Fx) -> (r: Fx)
        requires
            i64::MIN <= fx_mul(self@, o@) <= i64::MAX,
        ensures
            r@ == fx_mul(self@, o@),
    {
        let p: i128 = (self.bits as i128) * (o.bits as i128);
        let q: i128 = if p >= 0 {
            ((p as u128) / 65536u128) as i128
        } else {
            let m: u128 = ((-p) as u128) / 65536u128;
            -(m as i128)
        };
        assert(q == fx_mul(self@, o@));
        Fx { bits: q as i64 }
    }

    /// Fixed-point division by a positive fixed-point value, rounded
    /// toward zero.
    pub fn div_fx(self, o: Fx) -> (r: Fx)
        requires
            o@ > 0,
            i64::MIN <= fx_div(self@, o@) <= i64::MAX,
        ensures
            r@ == fx_div(self@, o@),
    {
        let p: i128 = (self.bits as i128) * 65536;
        let d: u128 = o.bits as u128;
        let q: i128 = if p >= 0 {
            ((p as u128) / d) as i128
        } else {
            let m: u128 = ((-p) as u128) / d;
            -(m as i128)
        };
        assert(q == fx_div(self@, o@));
        Fx { bits: q as i64 }
    }

    /// Division by a positive integer, rounded toward zero.  The result's
    /// magnitude never exceeds the argument's, so it always fits.
    pub fn div_int(self, d: i64) -> (r: Fx)
        requires
            d > 0,
        ensures
            r@ == tz_div(self@, d as int),
    {
        let q: i128 = if self.bits >= 0 {
            ((self.bits as u128) / (d as u128)) as i128
        } else {
            let m: u128 = ((-(self.bits as i128)) as u128) / (d as u128);
            -(m as i128)
        };
        proof {
            lemma_tz_div_bound(self@, d as int);
        }
        assert(q == tz_div(self@, d as int));
        Fx { bits: q as i64 }
    }

    /// The remainder after dividing a non-negative value by a positive
    /// integer divisor given in bits.
    pub fn rem_bits(self, m: i64) -> (r: Fx)
        requires
            self@ >= 0,
            m > 0,
        ensures
            r@ == self@ % (m as int),
    {
        Fx { bits: ((self.bits as u64) % (m as u64)) as i64 }
    }

    /// The integer part of the value, rounded toward zero.
    pub fn trunc(self) -> (r: i64)
        ensures
            r == tz_div(self@, 65536),
    {
        let q: i128 = if self.bits >= 0 {
            ((self.bits as u128) / 65536u128) as i128
        } else {
            let m: u128 = ((-(self.bits as i128)) as u128) / 65536u128;
            -(m as i128)
        };
        proof {
            lemma_tz_div_bound(self@, 65536);
        }
        assert(q == tz_div(self@, 65536));
        q as i64
    }

    pub fn min(self, o: Fx) -> (r: Fx)
        ensures
            r@ == if self@ <= o@ { self@ } else { o@ },
    {
        if self.bits <= o.bits {
            self
        } else {
            o
        }
    }

    pub fn max(self, o: Fx) -> (r: Fx)
        ensures
            r@ == if self@ >= o@ { self@ } else { o@ },
    {
        if self.bits >= o.bits {
            self
        } else {
            o
        }
    }

    pub fn abs(self) -> (r: Fx)
        requires
            self@ != i64::MIN,
        ensures
            r@ == if self@ >= 0 { self@ } else { -self@ },
    {
        if self.bits >= 0 {
            self
        } else {
            Fx { bits: -self.bits }
        }
    }
}

/// Truncating division by a positive divisor never grows the magnitude.
pub proof fn lemma_tz_div_bound(p: int, d: int)
    requires
        d > 0,
    ensures
        p >= 0 ==> 0 <= tz_div(p, d) <= p,
        p < 0 ==> p <= tz_div(p, d) <= 0,
{
    if p >= 0 {
        vstd::arithmetic::div_mod::lemma_div_nonincreasing(p, d);
        vstd::arithmetic::div_mod::lemma_div_pos_is_pos(p, d);
    } else {
        vstd::arithmetic::div_mod::lemma_div_nonincreasing(-p, d);
        vstd::arithmetic::div_mod::lemma_div_pos_is_pos(-p, d);
    }
}

/// Dividing an exact multiple is exact: `tz_div(q * d, d) == q`.
pub proof fn lemma_tz_div_exact(q: int, d: int)
    requires
        d > 0,
    ensures
        tz_div(q * d, d) == q,
{
    if q * d >= 0 {
        vstd::arithmetic::div_mod::lemma_div_multiples_vanish(q, d);
        assert(q * d == d * q) by (nonlinear_arith);
        assert(tz_div(q * d, d) == (d * q) / d);
    } else {
        assert(-(q * d) == d * (-q)) by (nonlinear_arith);
        vstd::arithmetic::div_mod::lemma_div_multiples_vanish(-q, d);
        assert(tz_div(q * d, d) == -((d * (-q)) / d));
    }
}

/// Truncating division is monotone in the dividend.
pub proof fn lemma_tz_div_monotone(p: int, q: int, d: int)
    requires
        d > 0,
        p <= q,
    ensures
        tz_div(p, d) <= tz_div(q, d),
{
    if p >= 0 {
        vstd::arithmetic::div_mod::lemma_div_is_ordered(p, q, d);
    } else if q < 0 {
        vstd::arithmetic::div_mod::lemma_div_is_ordered(-q, -p, d);
    } else {
        lemma_tz_div_bound(p, d);
        lemma_tz_div_bound(q, d);
    }
}

/// Multiplying a non-negative value by a unit-range factor shrinks it.
pub proof fn lemma_fx_mul_bounds(a: int, b: int)
    requires
        0 <= a,
        0 <= b <= 65536,
    ensures
        0 <= fx_mul(a, b) <= a,
{
    assert(a * b >= 0) by (nonlinear_arith)
        requires
            0 <= a && 0 <= b,
    ;
    assert(a * b <= a * 65536) by (nonlinear_arith)
        requires
            0 <= a && b <= 65536,
    ;
    lemma_tz_div_monotone(a * b, a * 65536, 65536);
    lemma_tz_div_exact(a, 65536);
    lemma_tz_div_bound(a * b, 65536);
}

/// Multiplying a non-negative value by a factor in the signed unit range
/// cannot grow its magnitude.
pub proof fn lemma_fx_mul_bounds_signed(a: int, b: int)
    requires
        0 <= a,
        -65536 <= b <= 65536,
    ensures
        -a <= fx_mul(a, b) <= a,
{
    if b >= 0 {
        lemma_fx_mul_bounds(a, b);
    } else {
        lemma_fx_mul_bounds(a, -b);
        assert(a * b == -(a * (-b))) by (nonlinear_arith);
    }
}

/// Scaling a unit-range factor against a non-negative value stays below
/// that value.
pub proof fn lemma_fx_mul_scale(s: int, m: int)
    requires
        0 <= s <= 65536,
        0 <= m,
    ensures
        0 <= fx_mul(s, m) <= m,
{
    assert(s * m >= 0) by (nonlinear_arith)
        requires
            0 <= s && 0 <= m,
    ;
    assert(s * m <= m * 65536) by (nonlinear_arith)
        requires
            s <= 65536 && 0 <= m,
    ;
    lemma_tz_div_monotone(s * m, m * 65536, 65536);
    lemma_tz_div_exact(m, 65536);
    lemma_tz_div_bound(s * m, 65536);
}

/// Multiplying by the fixed-point representation of an integer is exact.
pub proof fn lemma_fx_mul_int(a: int, n: int)
    ensures
        fx_mul(a, n * 65536) == a * n,
        fx_mul(n * 65536, a) == n * a,
{
    assert(a * (n * 65536) == (a * n) * 65536) by (nonlinear_arith);
    assert((n * 65536) * a == (n * a) * 65536) by (nonlinear_arith);
    lemma_tz_div_exact(a * n, 65536);
    lemma_tz_div_exact(n * a, 65536);
}

/// Multiplying by one (65536 bits) or zero is exact.
pub proof fn lemma_fx_mul_unit(a: int)
    ensures
        fx_mul(a, 65536) == a,
        fx_mul(65536, a) == a,
        fx_mul(a, 0) == 0,
        fx_mul(0, a) == 0,
{
    lemma_fx_mul_int(a, 1);
    lemma_fx_mul_int(a, 0);
    assert(a * 1 == a) by (nonlinear_arith);
    assert(1 * a == a) by (nonlinear_arith);
    assert(a * 0 == 0) by (nonlinear_arith);
    assert(0 * a == 0) by (nonlinear_arith);
}

} // verus!
