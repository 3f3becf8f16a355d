//! 2D affine transforms.
//!
//! An [`Affine`] holds the six coefficients of a 2D affine map in
//! fixed point.  A point transforms as
//! `(x*m11 + y*m21 + m31, x*m12 + y*m22 + m32)`.  Composition is
//! post-multiplication: `a.compose(b)` applies `a` first and `b` to the
//! result, which is how transform operations accumulate over a frame.

use vstd::prelude::*;

use crate::fixed::{fx_mul, Fx};

verus! {

/// The six coefficients of an affine map, as mathematical integers
/// (fixed-point bits).  This is the model the contracts speak of.
pub struct AffineV {
    pub m11: int,
    pub m12: int,
    pub m21: int,
    pub m22: int,
    pub m31: int,
    pub m32: int,
}

/// A 2D affine transform in 48.16 fixed point.
#[derive(Clone, Copy, Debug, PartialEq, Eq, Structural)]
pub struct Affine {
    pub m11: Fx,
    pub m12: Fx,
    pub m21: Fx,
    pub m22: Fx,
    pub m31: Fx,
    pub m32: Fx,
}

impl View for Affine {
    type V = AffineV;

    open spec fn view(&self) -> AffineV {
        AffineV {
            m11: self.m11@,
            m12: self.m12@,
            m21: self.m21@,
            m22: self.m22@,
            m31: self.m31@,
            m32: self.m32@,
        }
    }
}

/// The identity map.
pub open spec fn identity_v() -> AffineV {
    AffineV { m11: 65536, m12: 0, m21: 0, m22: 65536, m31: 0, m32: 0 }
}

/// A pure translation by `(x, y)`.
pub open spec fn translate_v(x: int, y: int) -> AffineV {
    AffineV { m11: 65536, m12: 0, m21: 0, m22: 65536, m31: x, m32: y }
}

/// A uniform scale by `s` about the origin.
pub open spec fn scale_v(s: int) -> AffineV {
    AffineV { m11: s, m12: 0, m21: 0, m22: s, m31: 0, m32: 0 }
}

/// A shear along the x-axis with tangent `t`.
pub open spec fn shear_x_v(t: int) -> AffineV {
    AffineV { m11: 65536, m12: 0, m21: t, m22: 65536, m31: 0, m32: 0 }
}

/// A shear along the y-axis with tangent `t`.
pub open spec fn shear_y_v(t: int) -> AffineV {
    AffineV { m11: 65536, m12: t, m21: 0, m22: 65536, m31: 0, m32: 0 }
}

/// The composition `a` followed by `b`, coefficient by coefficient.
pub open spec fn compose_v(a: AffineV, b: AffineV) -> AffineV {
    AffineV {
        m11: fx_mul(a.m11, b.m11) + fx_mul(a.m12, b.m21),
        m12: fx_mul(a.m11, b.m12) + fx_mul(a.m12, b.m22),
        m21: fx_mul(a.m21, b.m11) + fx_mul(a.m22, b.m21),
        m22: fx_mul(a.m21, b.m12) + fx_mul(a.m22, b.m22),
        m31: fx_mul(a.m31, b.m11) + fx_mul(a.m32, b.m21) + b.m31,
        m32: fx_mul(a.m31, b.m12) + fx_mul(a.m32, b.m22) + b.m32,
    }
}

/// Every coefficient of the composition fits in the `Fx` range.
pub open spec fn compose_fits(a: AffineV, b: AffineV) -> bool {
    let c = compose_v(a, b);
    i64::MIN <= c.m11 <= i64::MAX && i64::MIN <= c.m12 <= i64::MAX && i64::MIN <= c.m21
        <= i64::MAX && i64::MIN <= c.m22 <= i64::MAX && i64::MIN <= c.m31 <= i64::MAX && i64::MIN
        <= c.m32 <= i64::MAX
}

/// The x coordinate of a transformed point, in bits.
pub open spec fn tp_x(t: AffineV, x: int, y: int) -> int {
    fx_mul(x, t.m11) + fx_mul(y, t.m21) + t.m31
}

/// The y coordinate of a transformed point, in bits.
pub open spec fn tp_y(t: AffineV, x: int, y: int) -> int {
    fx_mul(x, t.m12) + fx_mul(y, t.m22) + t.m32
}

/// Both coordinates of the transformed point fit in the `Fx` range.
pub open spec fn tp_fits(t: AffineV, x: int, y: int) -> bool {
    i64::MIN <= tp_x(t, x, y) <= i64::MAX && i64::MIN <= tp_y(t, x, y) <= i64::MAX
}

/// The fixed-point product of two raw coefficients, computed without
/// intermediate overflow.
fn mul_wide(a: i64, b: i64) -> (r: i128)
    ensures
        r == fx_mul(a as int, b as int),
{
    proof {
        assert((a as int) * (b as int) <= 0x4000_0000_0000_0000_0000_0000_0000_0000 && -0x4000_0000_0000_0000_0000_0000_0000_0000
            <= (a as int) * (b as int)) by (nonlinear_arith)
            requires
                -0x8000_0000_0000_0000 <= a as int <= 0x7FFF_FFFF_FFFF_FFFF && -0x8000_0000_0000_0000
                    <= b as int <= 0x7FFF_FFFF_FFFF_FFFF,
        ;
    }
    let p: i128 = (a as i128) * (b as i128);
    if p >= 0 {
        ((p as u128) / 65536u128) as i128
    } else {
        let m: u128 = ((-p) as u128) / 65536u128;
        -(m as i128)
    }
}

impl Affine {
    /// The identity transform.
    pub fn identity() -> (r: Affine)
        ensures
            r@ == identity_v(),
    {
        Affine {
            m11: Fx::one(),
            m12: Fx::zero(),
            m21: Fx::zero(),
            m22: Fx::one(),
            m31: Fx::zero(),
            m32: Fx::zero(),
        }
    }

    /// Build a transform from six raw coefficients.
    pub fn new(m11: Fx, m12: Fx, m21: Fx, m22: Fx, m31: Fx, m32: Fx) -> (r: Affine)
        ensures
            r@ == (AffineV {
                m11: m11@,
                m12: m12@,
                m21: m21@,
                m22: m22@,
                m31: m31@,
                m32: m32@,
            }),
    {
        Affine { m11, m12, m21, m22, m31, m32 }
    }

    /// The composition of `self` followed by `o`.
    pub fn compose(self, o: Affine) -> (r: Affine)
        requires
            compose_fits(self@, o@),
        ensures
            r@ == compose_v(self@, o@),
    {
        let c11: i128 = mul_wide(self.m11.bits, o.m11.bits) + mul_wide(self.m12.bits, o.m21.bits);
        let c12: i128 = mul_wide(self.m11.bits, o.m12.bits) + mul_wide(self.m12.bits, o.m22.bits);
        let c21: i128 = mul_wide(self.m21.bits, o.m11.bits) + mul_wide(self.m22.bits, o.m21.bits);
        let c22: i128 = mul_wide(self.m21.bits, o.m12.bits) + mul_wide(self.m22.bits, o.m22.bits);
        let c31: i128 = mul_wide(self.m31.bits, o.m11.bits) + mul_wide(self.m32.bits, o.m21.bits)
            + (o.m31.bits as i128);
        let c32: i128 = mul_wide(self.m31.bits, o.m12.bits) + mul_wide(self.m32.bits, o.m22.bits)
            + (o.m32.bits as i128);
        Affine {
            m11: Fx { bits: c11 as i64 },
            m12: Fx { bits: c12 as i64 },
            m21: Fx { bits: c21 as i64 },
            m22: Fx { bits: c22 as i64 },
            m31: Fx { bits: c31 as i64 },
            m32: Fx { bits: c32 as i64 },
        }
    }

    /// Apply the transform to a point.
    pub fn transform_point(&self, x: Fx, y: Fx) -> (r: (Fx, Fx))
        requires
            tp_fits(self@, x@, y@),
        ensures
            r.0@ == tp_x(self@, x@, y@),
            r.1@ == tp_y(self@, x@, y@),
    {
        let px: i128 = mul_wide(x.bits, self.m11.bits) + mul_wide(y.bits, self.m21.bits)
            + (self.m31.bits as i128);
        let py: i128 = mul_wide(x.bits, self.m12.bits) + mul_wide(y.bits, self.m22.bits)
            + (self.m32.bits as i128);
        (Fx { bits: px as i64 }, Fx { bits: py as i64 })
    }
}

/// Two translations issued one after the other are one translation by the
/// summed offsets.
pub proof fn lemma_translate_compose(x1: int, y1: int, x2: int, y2: int)
    ensures
        compose_v(translate_v(x1, y1), translate_v(x2, y2)) == translate_v(x1 + x2, y1 + y2),
{
    crate::fixed::lemma_fx_mul_unit(x1);
    crate::fixed::lemma_fx_mul_unit(y1);
    crate::fixed::lemma_fx_mul_unit(65536);
    crate::fixed::lemma_fx_mul_unit(0);
}

/// Two uniform scales issued one after the other are one scale by the
/// product of the factors.
pub proof fn lemma_scale_compose(s1: int, s2: int)
    ensures
        compose_v(scale_v(s1), scale_v(s2)) == scale_v(fx_mul(s1, s2)),
{
    crate::fixed::lemma_fx_mul_unit(s1);
    crate::fixed::lemma_fx_mul_unit(s2);
    crate::fixed::lemma_fx_mul_unit(0);
}

} // verus!
