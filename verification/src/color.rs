//! Colours and colour-mode conversion.
//!
//! A [`Color`] is a canonical RGBA value with 8-bit channels.  Numeric
//! inputs reach it through [`into_color`], which interprets them under the
//! active [`ColorMode`]: each channel is normalized against the mode's
//! per-channel maximum, clamped to the unit range, and either scaled
//! straight to bytes (RGB) or routed through the HSB/HSL conversion
//! formulas first.  All arithmetic is exact fixed-point, so the result of
//! every conversion is pinned down to the byte.

use vstd::prelude::*;

use crate::fixed::{fx_div, fx_mul, tz_div, Fx};

verus! {

/// Stores a color as an RGBA value with discrete 0-255 channels.
#[derive(Clone, Copy, Debug, PartialEq, Eq, Structural)]
pub struct Color {
    pub r: u8,
    pub g: u8,
    pub b: u8,
    pub a: u8,
}

impl Color {
    pub fn new(r: u8, g: u8, b: u8, a: u8) -> (c: Color)
        ensures
            c == (Color { r, g, b, a }),
    {
        Color { r, g, b, a }
    }
}

/// The colour model under which numeric channel tuples are read.
#[derive(Clone, Copy, Debug, PartialEq, Eq, Structural)]
pub enum ColorModel {
    RGB,
    HSL,
    HSB,
}

/// How the numeric parameters of fill, stroke and background calls are
/// interpreted: a model plus the input scale of each of the four channels.
#[derive(Clone, Copy, Debug, PartialEq, Eq, Structural)]
pub struct ColorMode {
    pub model: ColorModel,
    pub max_1: Fx,
    pub max_2: Fx,
    pub max_3: Fx,
    pub max_a: Fx,
}

/// A channel maximum must be positive (it is a divisor) and small enough
/// that normalizing any admissible channel stays within the `Fx` range.
pub open spec fn max_wf(m: int) -> bool {
    0 < m <= 0x4000_0000_0000
}

/// A well-formed mode has four well-formed channel maxima.
pub open spec fn mode_wf(mode: ColorMode) -> bool {
    max_wf(mode.max_1@) && max_wf(mode.max_2@) && max_wf(mode.max_3@) && max_wf(mode.max_a@)
}

impl ColorMode {
    /// A mode with the same maximum for every channel.
    pub fn new(model: ColorModel, max: Fx) -> (m: ColorMode)
        requires
            max_wf(max@),
        ensures
            m == (ColorMode { model, max_1: max, max_2: max, max_3: max, max_a: max }),
            mode_wf(m),
    {
        ColorMode { model, max_1: max, max_2: max, max_3: max, max_a: max }
    }

    /// A mode with a separate maximum for each channel.
    pub fn with_maxes(model: ColorModel, max_1: Fx, max_2: Fx, max_3: Fx, max_a: Fx) -> (m:
        ColorMode)
        requires
            max_wf(max_1@),
            max_wf(max_2@),
            max_wf(max_3@),
            max_wf(max_a@),
        ensures
            m == (ColorMode { model, max_1, max_2, max_3, max_a }),
            mode_wf(m),
    {
        ColorMode { model, max_1, max_2, max_3, max_a }
    }
}

/// The default mode: RGB with every channel read on a 0-255 scale.
pub fn rgb_mode() -> (m: ColorMode)
    ensures
        m.model == ColorModel::RGB,
        m.max_1@ == 255 * 65536 && m.max_2@ == 255 * 65536 && m.max_3@ == 255 * 65536
            && m.max_a@ == 255 * 65536,
        mode_wf(m),
{
    let max = Fx::from_int(255);
    ColorMode { model: ColorModel::RGB, max_1: max, max_2: max, max_3: max, max_a: max }
}

/// HSB read as hue 0-360, saturation and brightness 0-100, alpha 0-1.
pub fn hsb_mode() -> (m: ColorMode)
    ensures
        m.model == ColorModel::HSB,
        m.max_1@ == 360 * 65536 && m.max_2@ == 100 * 65536 && m.max_3@ == 100 * 65536
            && m.max_a@ == 65536,
        mode_wf(m),
{
    ColorMode {
        model: ColorModel::HSB,
        max_1: Fx::from_int(360),
        max_2: Fx::from_int(100),
        max_3: Fx::from_int(100),
        max_a: Fx::from_int(1),
    }
}

/// HSL read as hue 0-360, saturation and lightness 0-100, alpha 0-1.
pub fn hsl_mode() -> (m: ColorMode)
    ensures
        m.model == ColorModel::HSL,
        m.max_1@ == 360 * 65536 && m.max_2@ == 100 * 65536 && m.max_3@ == 100 * 65536
            && m.max_a@ == 65536,
        mode_wf(m),
{
    ColorMode {
        model: ColorModel::HSL,
        max_1: Fx::from_int(360),
        max_2: Fx::from_int(100),
        max_3: Fx::from_int(100),
        max_a: Fx::from_int(1),
    }
}

/// The shapes a numeric colour argument can take.  Each drawing call that
/// accepts a colour takes one of these; the variant selects how the values
/// are interpreted, mirroring the argument overloading of the p5
/// vocabulary.
#[derive(Clone, Copy, Debug, PartialEq, Eq, Structural)]
pub enum ColorInput {
    /// A single byte: grayscale, ignoring the mode's maxima.
    Gray8(u8),
    /// A single scalar: grayscale against the mode's third maximum.
    Gray(Fx),
    /// Three channels; alpha defaults to the mode's alpha maximum.
    Triple(Fx, Fx, Fx),
    /// Four channels, each read against its maximum.
    Quad(Fx, Fx, Fx, Fx),
    /// Four raw bytes used verbatim as RGBA, bypassing the mode.
    Rgba8(u8, u8, u8, u8),
}

/// Channels handed to a conversion must stay well inside the `Fx` range so
/// that normalization cannot overflow.
pub open spec fn chan_in_range(c: int) -> bool {
    -0x4000_0000_0000 <= c <= 0x4000_0000_0000
}

pub open spec fn input_in_range(input: ColorInput) -> bool {
    match input {
        ColorInput::Gray8(_) => true,
        ColorInput::Gray(v) => chan_in_range(v@),
        ColorInput::Triple(c1, c2, c3) => chan_in_range(c1@) && chan_in_range(c2@) && chan_in_range(
            c3@,
        ),
        ColorInput::Quad(c1, c2, c3, c4) => chan_in_range(c1@) && chan_in_range(c2@)
            && chan_in_range(c3@) && chan_in_range(c4@),
        ColorInput::Rgba8(_, _, _, _) => true,
    }
}

/// Clamp a fixed-point value to the unit interval, in bits.
pub open spec fn clamp_unit(x: int) -> int {
    if x < 0 {
        0
    } else if x > 65536 {
        65536
    } else {
        x
    }
}

/// Saturate an integer to the 0-255 byte range.
pub open spec fn sat_u8(x: int) -> int {
    if x < 0 {
        0
    } else if x > 255 {
        255
    } else {
        x
    }
}

/// Scale a unit-range fixed-point value (bits in 0-65536) to a byte,
/// rounding toward zero.
pub open spec fn unit_byte(x: int) -> int {
    tz_div(x * 255, 65536)
}

/// One channel of the HSB-to-RGB conversion, in bits: with `k = (n + h/60)
/// mod 6`, the channel is `b - b*s*clamp(min(k, 4 - k), 0, 1)`.
pub open spec fn hsb_channel(n: int, h: int, s: int, b: int) -> int {
    let k = (n * 65536 + tz_div(h, 60)) % ((6 * 65536) as int);
    let mn = if k <= 4 * 65536 - k {
        k
    } else {
        4 * 65536 - k
    };
    let w = clamp_unit(mn);
    b - fx_mul(fx_mul(b, s), w)
}

/// One channel of the HSL-to-RGB conversion, in bits: with `k = (n + h/30)
/// mod 12` and `a = s*min(l, 1 - l)`, the channel is
/// `l - a*clamp(min(k - 3, 9 - k), -1, 1)`.
pub open spec fn hsl_channel(n: int, h: int, s: int, l: int) -> int {
    let k = (n * 65536 + tz_div(h, 30)) % ((12 * 65536) as int);
    let a = fx_mul(s, if l <= 65536 - l { l } else { 65536 - l });
    let mn = if k - 3 * 65536 <= 9 * 65536 - k {
        k - 3 * 65536
    } else {
        9 * 65536 - k
    };
    let w1 = if mn <= 65536 {
        mn
    } else {
        65536
    };
    let w = if w1 >= -65536 {
        w1
    } else {
        -65536
    };
    l - fx_mul(a, w)
}

/// The sector-based HSB-to-RGB conversion, in bits: with chroma
/// `c = b*s`, `h' = h/60`, and `x = c*(1 - |h' mod 2 - 1|)`, the channel
/// triple is picked by the sector `h'` falls in and lifted by `m = b - c`.
pub open spec fn hsb_alt_rgb(h: int, s: int, b: int) -> (int, int, int) {
    let c = fx_mul(b, s);
    let hp = tz_div(h, 60);
    let hm = hp % ((2 * 65536) as int);
    let dist = if hm - 65536 >= 0 {
        hm - 65536
    } else {
        -(hm - 65536)
    };
    let x = fx_mul(c, 65536 - dist);
    let m = b - c;
    if hp <= 65536 {
        (c + m, x + m, m)
    } else if hp <= 2 * 65536 {
        (x + m, c + m, m)
    } else if hp <= 3 * 65536 {
        (m, c + m, x + m)
    } else if hp <= 4 * 65536 {
        (m, x + m, c + m)
    } else if hp <= 5 * 65536 {
        (x + m, m, c + m)
    } else {
        (c + m, m, x + m)
    }
}

/// The sector-based HSB-to-RGB conversion.  An alternative to
/// [`hsb_to_rgb`]; [`lemma_hsb_conversions_agree`] proves the two agree
/// within one bit per channel on every admissible input.
pub fn hsb_to_rgb_alt(h: Fx, s: Fx, b: Fx) -> (rgb: (Fx, Fx, Fx))
    requires
        0 <= h@ <= 360 * 65536,
        0 <= s@ <= 65536,
        0 <= b@ <= 65536,
    ensures
        (rgb.0@, rgb.1@, rgb.2@) == hsb_alt_rgb(h@, s@, b@),
{
    proof {
        crate::fixed::lemma_fx_mul_bounds(b@, s@);
        crate::fixed::lemma_tz_div_bound(h@, 60);
    }
    let c = b.mul(s);
    let hp = h.div_int(60);
    let hm = hp.rem_bits(2 * 65536);
    proof {
        vstd::arithmetic::div_mod::lemma_mod_bound(hp@, (2 * 65536) as int);
    }
    let dist = hm.sub(Fx::one()).abs();
    proof {
        crate::fixed::lemma_fx_mul_bounds(c@, 65536 - dist@);
    }
    let x = c.mul(Fx::one().sub(dist));
    let m = b.sub(c);
    if hp.bits <= 65536 {
        (c.add(m), x.add(m), m)
    } else if hp.bits <= 2 * 65536 {
        (x.add(m), c.add(m), m)
    } else if hp.bits <= 3 * 65536 {
        (m, c.add(m), x.add(m))
    } else if hp.bits <= 4 * 65536 {
        (m, x.add(m), c.add(m))
    } else if hp.bits <= 5 * 65536 {
        (x.add(m), m, c.add(m))
    } else {
        (c.add(m), m, x.add(m))
    }
}

/// The colour a four-channel input denotes under a mode: each channel is
/// normalized by its maximum and clamped to the unit range; RGB scales the
/// channels straight to bytes, HSB and HSL route them through the
/// corresponding conversion first, carrying alpha through unchanged.
pub open spec fn quad_spec(c1: int, c2: int, c3: int, c4: int, mode: ColorMode) -> Color {
    let s1 = clamp_unit(fx_div(c1, mode.max_1@));
    let s2 = clamp_unit(fx_div(c2, mode.max_2@));
    let s3 = clamp_unit(fx_div(c3, mode.max_3@));
    let s4 = clamp_unit(fx_div(c4, mode.max_a@));
    match mode.model {
        ColorModel::RGB => Color {
            r: unit_byte(s1) as u8,
            g: unit_byte(s2) as u8,
            b: unit_byte(s3) as u8,
            a: unit_byte(s4) as u8,
        },
        ColorModel::HSB => {
            let h = fx_mul(s1, (360 * 65536) as int);
            Color {
                r: unit_byte(clamp_unit(hsb_channel(5, h, s2, s3))) as u8,
                g: unit_byte(clamp_unit(hsb_channel(3, h, s2, s3))) as u8,
                b: unit_byte(clamp_unit(hsb_channel(1, h, s2, s3))) as u8,
                a: unit_byte(s4) as u8,
            }
        },
        ColorModel::HSL => {
            let h = fx_mul(s1, (360 * 65536) as int);
            Color {
                r: unit_byte(clamp_unit(hsl_channel(0, h, s2, s3))) as u8,
                g: unit_byte(clamp_unit(hsl_channel(8, h, s2, s3))) as u8,
                b: unit_byte(clamp_unit(hsl_channel(4, h, s2, s3))) as u8,
                a: unit_byte(s4) as u8,
            }
        },
    }
}

/// Clamp a fixed-point value to the unit interval.
fn clamp01(x: Fx) -> (r: Fx)
    ensures
        r@ == clamp_unit(x@),
{
    x.max(Fx::zero()).min(Fx::one())
}

/// Scale a unit-range value to a byte, rounding toward zero.
fn byte_of_unit(q: Fx) -> (r: u8)
    requires
        0 <= q@ <= 65536,
    ensures
        r as int == unit_byte(q@),
{
    let v: u64 = (q.bits as u64) * 255 / 65536;
    proof {
        assert(q@ * 255 <= 65536 * 255) by (nonlinear_arith)
            requires
                q@ <= 65536,
        ;
        vstd::arithmetic::div_mod::lemma_div_is_ordered(q@ * 255, (65536 * 255) as int, 65536);
    }
    v as u8
}

/// The grayscale byte a single scalar denotes: the scalar over the mode's
/// third maximum, scaled to 0-255 and saturated at the byte range.
fn gray_byte(v: Fx, max_3: Fx) -> (r: u8)
    requires
        chan_in_range(v@),
        max_wf(max_3@),
    ensures
        r as int == sat_u8(tz_div(fx_div(v@, max_3@) * 255, 65536)),
{
    proof {
        crate::fixed::lemma_tz_div_bound(v@ * 65536, max_3@);
        crate::fixed::lemma_tz_div_bound(-(v@ * 65536), max_3@);
    }
    let q = v.div_fx(max_3);
    let p: i128 = (q.bits as i128) * 255;
    let t: i128 = if p >= 0 {
        ((p as u128) / 65536u128) as i128
    } else {
        let m: u128 = ((-p) as u128) / 65536u128;
        -(m as i128)
    };
    assert(t == tz_div(q@ * 255, 65536));
    if t < 0 {
        0
    } else if t > 255 {
        255
    } else {
        t as u8
    }
}

/// The HSB-to-RGB conversion: each channel in unit-range fixed point,
/// computed by the `k = (n + h/60) mod 6` channel formula with
/// `n = 5, 3, 1` for red, green and blue.
pub fn hsb_to_rgb(h: Fx, s: Fx, b: Fx) -> (rgb: (Fx, Fx, Fx))
    requires
        0 <= h@ <= 360 * 65536,
        0 <= s@ <= 65536,
        0 <= b@ <= 65536,
    ensures
        rgb.0@ == hsb_channel(5, h@, s@, b@),
        rgb.1@ == hsb_channel(3, h@, s@, b@),
        rgb.2@ == hsb_channel(1, h@, s@, b@),
{
    (hsb_f(5, h, s, b), hsb_f(3, h, s, b), hsb_f(1, h, s, b))
}

/// One channel of the HSB-to-RGB conversion.
fn hsb_f(n: i64, h: Fx, s: Fx, b: Fx) -> (r: Fx)
    requires
        0 <= n <= 8,
        0 <= h@ <= 360 * 65536,
        0 <= s@ <= 65536,
        0 <= b@ <= 65536,
    ensures
        r@ == hsb_channel(n as int, h@, s@, b@),
{
    let hp = h.div_int(60);
    proof {
        crate::fixed::lemma_tz_div_bound(h@, 60);
    }
    let k = Fx { bits: n * 65536 }.add(hp).rem_bits(6 * 65536);
    proof {
        vstd::arithmetic::div_mod::lemma_mod_bound(n * 65536 + hp@, (6 * 65536) as int);
    }
    let mn = k.min(Fx { bits: 4 * 65536 }.sub(k));
    let w = mn.min(Fx::one()).max(Fx::zero());
    proof {
        crate::fixed::lemma_fx_mul_bounds(b@, s@);
    }
    let c = b.mul(s);
    proof {
        crate::fixed::lemma_fx_mul_bounds(c@, w@);
    }
    b.sub(c.mul(w))
}

/// The HSL-to-RGB conversion: each channel in unit-range fixed point,
/// computed by the `k = (n + h/30) mod 12` channel formula with
/// `n = 0, 8, 4` for red, green and blue.
pub fn hsl_to_rgb(h: Fx, s: Fx, l: Fx) -> (rgb: (Fx, Fx, Fx))
    requires
        0 <= h@ <= 360 * 65536,
        0 <= s@ <= 65536,
        0 <= l@ <= 65536,
    ensures
        rgb.0@ == hsl_channel(0, h@, s@, l@),
        rgb.1@ == hsl_channel(8, h@, s@, l@),
        rgb.2@ == hsl_channel(4, h@, s@, l@),
{
    (hsl_f(0, h, s, l), hsl_f(8, h, s, l), hsl_f(4, h, s, l))
}

/// One channel of the HSL-to-RGB conversion.
fn hsl_f(n: i64, h: Fx, s: Fx, l: Fx) -> (r: Fx)
    requires
        0 <= n <= 8,
        0 <= h@ <= 360 * 65536,
        0 <= s@ <= 65536,
        0 <= l@ <= 65536,
    ensures
        r@ == hsl_channel(n as int, h@, s@, l@),
{
    let hp = h.div_int(30);
    proof {
        crate::fixed::lemma_tz_div_bound(h@, 30);
    }
    let k = Fx { bits: n * 65536 }.add(hp).rem_bits(12 * 65536);
    proof {
        vstd::arithmetic::div_mod::lemma_mod_bound(n * 65536 + hp@, (12 * 65536) as int);
    }
    let half_min = l.min(Fx::one().sub(l));
    proof {
        crate::fixed::lemma_fx_mul_bounds(s@, half_min@);
    }
    let a = s.mul(half_min);
    proof {
        crate::fixed::lemma_fx_mul_scale(s@, half_min@);
    }
    let mn = k.sub(Fx { bits: 3 * 65536 }).min(Fx { bits: 9 * 65536 }.sub(k));
    let w = mn.min(Fx::one()).max(Fx::one().neg());
    proof {
        crate::fixed::lemma_fx_mul_bounds_signed(a@, w@);
    }
    l.sub(a.mul(w))
}

/// The colour each input shape denotes under a mode.
pub open spec fn into_color_spec(input: ColorInput, mode: ColorMode) -> Color {
    match input {
        ColorInput::Gray8(v) => Color { r: v, g: v, b: v, a: 255 },
        ColorInput::Gray(v) => {
            let q = fx_div(v@, mode.max_3@);
            let byte = sat_u8(tz_div(q * 255, 65536)) as u8;
            Color { r: byte, g: byte, b: byte, a: 255 }
        },
        ColorInput::Triple(c1, c2, c3) => quad_spec(c1@, c2@, c3@, mode.max_a@, mode),
        ColorInput::Quad(c1, c2, c3, c4) => quad_spec(c1@, c2@, c3@, c4@, mode),
        ColorInput::Rgba8(r, g, b, a) => Color { r, g, b, a },
    }
}

/// Normalize one channel by its maximum and clamp it to the unit range.
fn scale_channel(c: Fx, max: Fx) -> (r: Fx)
    requires
        chan_in_range(c@),
        max_wf(max@),
    ensures
        r@ == clamp_unit(fx_div(c@, max@)),
{
    proof {
        crate::fixed::lemma_tz_div_bound(c@ * 65536, max@);
        crate::fixed::lemma_tz_div_bound(-(c@ * 65536), max@);
    }
    clamp01(c.div_fx(max))
}

/// Convert a numeric colour argument into a canonical colour under the
/// given mode.  The result is exactly [`into_color_spec`]: grayscale
/// bytes pass through, scalars are normalized against the mode's third
/// maximum, and channel tuples are normalized, clamped and converted
/// according to the mode's model.
pub fn into_color(input: ColorInput, mode: ColorMode) -> (c: Color)
    requires
        mode_wf(mode),
        input_in_range(input),
    ensures
        c == into_color_spec(input, mode),
{
    match input {
        ColorInput::Gray8(v) => Color { r: v, g: v, b: v, a: 255 },
        ColorInput::Gray(v) => {
            let byte = gray_byte(v, mode.max_3);
            Color { r: byte, g: byte, b: byte, a: 255 }
        },
        ColorInput::Triple(c1, c2, c3) => quad_color(c1, c2, c3, mode.max_a, mode),
        ColorInput::Quad(c1, c2, c3, c4) => quad_color(c1, c2, c3, c4, mode),
        ColorInput::Rgba8(r, g, b, a) => Color { r, g, b, a },
    }
}

/// Truncated products against complementary unit factors recover the
/// whole value to within one bit.
proof fn lemma_fx_mul_split(c: int, w: int)
    requires
        0 <= c,
        0 <= w <= 65536,
    ensures
        c - 1 <= fx_mul(c, w) + fx_mul(c, 65536 - w) <= c,
{
    assert(c * w >= 0) by (nonlinear_arith)
        requires
            0 <= c && 0 <= w,
    ;
    assert(c * (65536 - w) >= 0) by (nonlinear_arith)
        requires
            0 <= c && w <= 65536,
    ;
    assert(c * w + c * (65536 - w) == c * 65536) by (nonlinear_arith);
    let p1 = c * w;
    let p2 = c * (65536 - w);
    vstd::arithmetic::div_mod::lemma_fundamental_div_mod(p1, 65536);
    vstd::arithmetic::div_mod::lemma_fundamental_div_mod(p2, 65536);
    vstd::arithmetic::div_mod::lemma_mod_bound(p1, 65536);
    vstd::arithmetic::div_mod::lemma_mod_bound(p2, 65536);
    let q1 = p1 / 65536;
    let q2 = p2 / 65536;
    let r = p1 % 65536 + p2 % 65536;
    let t = c - (q1 + q2);
    assert(65536 * t == r);
    assert(fx_mul(c, w) == q1);
    assert(fx_mul(c, 65536 - w) == q2);
}

/// The remainder of a bounded non-negative value, window by window.
proof fn lemma_mod_window(v: int, m: int)
    requires
        0 <= v,
        0 < m,
    ensures
        v < m ==> v % m == v,
        m <= v < 2 * m ==> v % m == v - m,
        2 * m <= v < 3 * m ==> v % m == v - 2 * m,
        3 * m <= v < 4 * m ==> v % m == v - 3 * m,
{
    if v < m {
        vstd::arithmetic::div_mod::lemma_small_mod(v as nat, m as nat);
    } else if v < 2 * m {
        vstd::arithmetic::div_mod::lemma_mod_sub_multiples_vanish(v, m);
        vstd::arithmetic::div_mod::lemma_small_mod((v - m) as nat, m as nat);
    } else if v < 3 * m {
        vstd::arithmetic::div_mod::lemma_mod_sub_multiples_vanish(v, m);
        vstd::arithmetic::div_mod::lemma_mod_sub_multiples_vanish(v - m, m);
        vstd::arithmetic::div_mod::lemma_small_mod((v - 2 * m) as nat, m as nat);
    } else if v < 4 * m {
        vstd::arithmetic::div_mod::lemma_mod_sub_multiples_vanish(v, m);
        vstd::arithmetic::div_mod::lemma_mod_sub_multiples_vanish(v - m, m);
        vstd::arithmetic::div_mod::lemma_mod_sub_multiples_vanish(v - 2 * m, m);
        vstd::arithmetic::div_mod::lemma_small_mod((v - 3 * m) as nat, m as nat);
    }
}

/// A mid-sector channel of the two HSB conversions differs by at most one
/// bit: the channel formula computes `b - c*w` and the sector formula
/// `(b - c) + c*(1 - w)`, whose truncations bracket each other.
proof fn lemma_channel_mid(b: int, c: int, w: int)
    requires
        0 <= c,
        0 <= w <= 65536,
    ensures
        0 <= (b - fx_mul(c, w)) - ((b - c) + fx_mul(c, 65536 - w)) <= 1,
{
    lemma_fx_mul_split(c, w);
}

/// The square of a difference of at most one bit is far below one
/// thousandth of the unit range.
proof fn lemma_sq_small(d: int)
    requires
        0 <= d <= 1,
    ensures
        d * d * 1000 < 65536 * 65536,
{
    assert(d * d <= 1) by (nonlinear_arith)
        requires
            0 <= d <= 1,
    ;
}

/// The two HSB-to-RGB conversions agree on every admissible input: each
/// channel of the per-channel formula exceeds the sector-based one by at
/// most one bit, so the per-channel squared error is below one
/// thousandth of the unit range.
#[verifier::rlimit(100)]
pub proof fn lemma_hsb_conversions_agree(h: int, s: int, b: int)
    requires
        0 <= h <= 360 * 65536,
        0 <= s <= 65536,
        0 <= b <= 65536,
    ensures
        ({
            let (ar, ag, ab) = hsb_alt_rgb(h, s, b);
            let dr = hsb_channel(5, h, s, b) - ar;
            let dg = hsb_channel(3, h, s, b) - ag;
            let db = hsb_channel(1, h, s, b) - ab;
            0 <= dr <= 1 && 0 <= dg <= 1 && 0 <= db <= 1 && dr * dr * 1000 < 65536 * 65536 && dg
                * dg * 1000 < 65536 * 65536 && db * db * 1000 < 65536 * 65536
        }),
{
    let hp = tz_div(h, 60);
    crate::fixed::lemma_tz_div_bound(h, 60);
    crate::fixed::lemma_tz_div_monotone(h, (360 * 65536) as int, 60);
    crate::fixed::lemma_tz_div_exact((6 * 65536) as int, 60);
    assert(0 <= hp <= 6 * 65536);
    let c = fx_mul(b, s);
    crate::fixed::lemma_fx_mul_bounds(b, s);
    crate::fixed::lemma_fx_mul_unit(c);
    let m = b - c;
    lemma_mod_window(hp, (2 * 65536) as int);
    lemma_mod_window(5 * 65536 + hp, (6 * 65536) as int);
    lemma_mod_window(3 * 65536 + hp, (6 * 65536) as int);
    lemma_mod_window(65536 + hp, (6 * 65536) as int);
    if hp <= 65536 {
        // red is the plain channel, green mid with w = 1 - h', blue chroma
        lemma_channel_mid(b, c, (65536 - hp) as int);
        lemma_channel_mid(b, c, hp);
    } else if hp <= 2 * 65536 {
        lemma_channel_mid(b, c, (hp - 65536) as int);
        lemma_channel_mid(b, c, (2 * 65536 - hp) as int);
    } else if hp <= 3 * 65536 {
        lemma_channel_mid(b, c, (3 * 65536 - hp) as int);
        lemma_channel_mid(b, c, (hp - 2 * 65536) as int);
    } else if hp <= 4 * 65536 {
        lemma_channel_mid(b, c, (hp - 3 * 65536) as int);
        lemma_channel_mid(b, c, (4 * 65536 - hp) as int);
    } else if hp <= 5 * 65536 {
        lemma_channel_mid(b, c, (5 * 65536 - hp) as int);
        lemma_channel_mid(b, c, (hp - 4 * 65536) as int);
    } else {
        lemma_channel_mid(b, c, (hp - 5 * 65536) as int);
        lemma_channel_mid(b, c, (6 * 65536 - hp) as int);
    }
    let (ar, ag, ab) = hsb_alt_rgb(h, s, b);
    let dr = hsb_channel(5, h, s, b) - ar;
    let dg = hsb_channel(3, h, s, b) - ag;
    let db = hsb_channel(1, h, s, b) - ab;
    assert(0 <= dr <= 1);
    assert(0 <= dg <= 1);
    assert(0 <= db <= 1);
    lemma_sq_small(dr);
    lemma_sq_small(dg);
    lemma_sq_small(db);
}

/// Normalization clamps, never wraps, under every model: each channel a
/// four-channel input feeds into [`quad_spec`] is its value over the
/// mode's maximum, forced to the nearer end of the unit range when it
/// falls outside it.
pub proof fn lemma_normalized_channel_clamped(c: int, max: int)
    requires
        max_wf(max),
    ensures
        0 <= clamp_unit(fx_div(c, max)) <= 65536,
        fx_div(c, max) < 0 ==> clamp_unit(fx_div(c, max)) == 0,
        fx_div(c, max) > 65536 ==> clamp_unit(fx_div(c, max)) == 65536,
        0 <= fx_div(c, max) <= 65536 ==> clamp_unit(fx_div(c, max)) == fx_div(c, max),
{
}

/// A four-channel input whose normalized channel falls outside the unit
/// range is clamped to the boundary, never wrapped: under the RGB model,
/// a channel at or above its maximum yields a full byte and a channel at
/// or below zero yields a zero byte.  (That no input panics is shown by
/// the verification of [`into_color`] itself.)
pub proof fn lemma_quad_clamps(c1: int, c2: int, c3: int, c4: int, mode: ColorMode)
    requires
        mode_wf(mode),
        mode.model == ColorModel::RGB,
    ensures
        fx_div(c1, mode.max_1@) >= 65536 ==> quad_spec(c1, c2, c3, c4, mode).r == 255,
        fx_div(c1, mode.max_1@) <= 0 ==> quad_spec(c1, c2, c3, c4, mode).r == 0,
        fx_div(c2, mode.max_2@) >= 65536 ==> quad_spec(c1, c2, c3, c4, mode).g == 255,
        fx_div(c2, mode.max_2@) <= 0 ==> quad_spec(c1, c2, c3, c4, mode).g == 0,
        fx_div(c3, mode.max_3@) >= 65536 ==> quad_spec(c1, c2, c3, c4, mode).b == 255,
        fx_div(c3, mode.max_3@) <= 0 ==> quad_spec(c1, c2, c3, c4, mode).b == 0,
        fx_div(c4, mode.max_a@) >= 65536 ==> quad_spec(c1, c2, c3, c4, mode).a == 255,
        fx_div(c4, mode.max_a@) <= 0 ==> quad_spec(c1, c2, c3, c4, mode).a == 0,
{
    crate::fixed::lemma_tz_div_exact(255, 65536);
    assert(unit_byte(65536) == 255);
    assert(unit_byte(0) == 0) by {
        vstd::arithmetic::div_mod::lemma_div_of0(65536);
    };
}

/// Convert a four-channel input under the given mode.
fn quad_color(c1: Fx, c2: Fx, c3: Fx, c4: Fx, mode: ColorMode) -> (c: Color)
    requires
        mode_wf(mode),
        chan_in_range(c1@),
        chan_in_range(c2@),
        chan_in_range(c3@),
        chan_in_range(c4@),
    ensures
        c == quad_spec(c1@, c2@, c3@, c4@, mode),
{
    let s1 = scale_channel(c1, mode.max_1);
    let s2 = scale_channel(c2, mode.max_2);
    let s3 = scale_channel(c3, mode.max_3);
    let s4 = scale_channel(c4, mode.max_a);
    match mode.model {
        ColorModel::RGB => Color {
            r: byte_of_unit(s1),
            g: byte_of_unit(s2),
            b: byte_of_unit(s3),
            a: byte_of_unit(s4),
        },
        ColorModel::HSB => {
            proof {
                crate::fixed::lemma_fx_mul_scale(s1@, (360 * 65536) as int);
            }
            let h = s1.mul(Fx { bits: 360 * 65536 });
            let (r, g, b) = hsb_to_rgb(h, s2, s3);
            Color {
                r: byte_of_unit(clamp01(r)),
                g: byte_of_unit(clamp01(g)),
                b: byte_of_unit(clamp01(b)),
                a: byte_of_unit(s4),
            }
        },
        ColorModel::HSL => {
            proof {
                crate::fixed::lemma_fx_mul_scale(s1@, (360 * 65536) as int);
            }
            let h = s1.mul(Fx { bits: 360 * 65536 });
            let (r, g, b) = hsl_to_rgb(h, s2, s3);
            Color {
                r: byte_of_unit(clamp01(r)),
                g: byte_of_unit(clamp01(g)),
                b: byte_of_unit(clamp01(b)),
                a: byte_of_unit(s4),
            }
        },
    }
}

} // verus!
