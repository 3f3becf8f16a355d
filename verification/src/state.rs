//! The draw state machine.
//!
//! A [`DrawState`] owns the current style, mode and transform of one
//! drawing surface.  Mode setters mutate state only; shape calls build a
//! plan — the path, the transform to apply to it, and the stroke and
//! fill passes to run — which the rasterizer-facing layer executes.
//! Stroke and fill are independent passes: a zero stroke weight is the
//! canonical no-stroke signal, a missing fill colour the no-fill signal,
//! and a shape with neither draws nothing.

use vstd::prelude::*;

use crate::color::{into_color, into_color_spec, input_in_range, mode_wf, rgb_mode};
use crate::color::{Color, ColorInput, ColorMode};
use crate::fixed::{tz_div, Fx};
use crate::input::Key;
use crate::path::{ellipse_cmds, ellipse_path, line_cmds, line_path, rect_cmds, rect_path};
use crate::path::{coord_in_range, PathCmd, Pt, RectMode, RectRounding};
use crate::transform::{compose_fits, compose_v, identity_v, scale_v, shear_x_v, shear_y_v};
use crate::transform::{tp_fits, tp_x, tp_y, translate_v, Affine, AffineV};

verus! {

/// The per-surface draw state.
pub struct DrawState {
    /// The colour shapes are filled with; `None` disables filling.
    pub fill_color: Option<Color>,
    /// The colour of lines, points and shape outlines.
    pub stroke_color: Color,
    /// The width of strokes, in pixels; exactly zero disables stroking.
    pub stroke_weight: Fx,
    /// How rectangle arguments map to corners.
    pub rect_mode: RectMode,
    /// The transform applied to shapes, reset once per frame.
    pub transform: Affine,
    /// How numeric colour arguments are interpreted.
    pub color_mode: ColorMode,
    /// Frames displayed since the program started.
    pub frame_count: usize,
    /// The target number of frames per second.
    pub frame_rate: Fx,
    /// The font size used by text calls, in points.
    pub text_size: Fx,
    /// The width of the surface, in pixels.
    pub width: u32,
    /// The height of the surface, in pixels.
    pub height: u32,
    /// The keys currently held down, when a snapshot is available.
    pub keys: Option<Vec<Key>>,
    /// The character of the most recent key typed, if it has one.
    pub key: Option<char>,
    /// The most recent key pressed.
    pub key_code: Option<Key>,
}

/// The state invariant: a non-negative stroke weight small enough for
/// point geometry, and a well-formed colour mode.
pub open spec fn state_wf(s: DrawState) -> bool {
    0 <= s.stroke_weight@ <= 0x1000_0000_0000_0000 && mode_wf(s.color_mode)
}

/// The stroke pass a state asks for: colour and width when the stroke
/// weight is nonzero, nothing when it is zero.
pub open spec fn stroke_of(s: DrawState) -> Option<(Color, Fx)> {
    if s.stroke_weight@ != 0 {
        Some((s.stroke_color, s.stroke_weight))
    } else {
        None
    }
}

/// The fill pass a state asks for.
pub open spec fn fill_of(s: DrawState) -> Option<Color> {
    s.fill_color
}

/// One shape draw, ready for the rasterizer: the local-space path, the
/// transform to apply to it, and the stroke and fill passes to run over
/// the transformed path.
#[derive(Clone, Debug)]
pub struct DrawPlan {
    pub path: Vec<PathCmd>,
    pub transform: Affine,
    pub stroke: Option<(Color, Fx)>,
    pub fill: Option<Color>,
}

/// A point draw: either one opaque pixel written straight into the
/// buffer, or an ordinary filled-dot plan.
#[derive(Clone, Debug)]
pub enum PointPlan {
    /// Write the packed colour at the (truncated) device coordinates.
    /// Taken exactly when the stroke weight is one pixel and the stroke
    /// colour fully opaque: it skips anti-aliasing and sub-pixel
    /// placement for speed, a known precision gap against the
    /// ellipse-based general case.
    Pixel { x: i64, y: i64, color: Color },
    /// Fill a stroke-weight-sized ellipse with the stroke colour.
    Dot(DrawPlan),
}

/// A text draw: position, size and colour for the glyph renderer.
#[derive(Clone, Copy, Debug)]
pub struct TextPlan {
    pub x: Fx,
    pub y: Fx,
    pub size: Fx,
    pub color: Color,
}

impl DrawState {
    /// A fresh surface: white fill, opaque black stroke of width one,
    /// corner rectangles, identity transform, RGB 0-255 colours, frame
    /// zero at sixty frames per second, and 32-point text.
    pub fn new(width: u32, height: u32) -> (s: DrawState)
        ensures
            s.fill_color == Some(Color { r: 255, g: 255, b: 255, a: 255 }),
            s.stroke_color == (Color { r: 0, g: 0, b: 0, a: 255 }),
            s.stroke_weight@ == 65536,
            s.rect_mode == RectMode::Corner,
            s.transform@ == identity_v(),
            s.color_mode == (ColorMode {
                model: crate::color::ColorModel::RGB,
                max_1: Fx { bits: (255 * 65536) as i64 },
                max_2: Fx { bits: (255 * 65536) as i64 },
                max_3: Fx { bits: (255 * 65536) as i64 },
                max_a: Fx { bits: (255 * 65536) as i64 },
            }),
            s.frame_count == 0,
            s.frame_rate@ == 60 * 65536,
            s.text_size@ == 32 * 65536,
            s.width == width,
            s.height == height,
            s.keys is None && s.key is None && s.key_code is None,
            state_wf(s),
    {
        DrawState {
            fill_color: Some(Color { r: 255, g: 255, b: 255, a: 255 }),
            stroke_color: Color { r: 0, g: 0, b: 0, a: 255 },
            stroke_weight: Fx::one(),
            rect_mode: RectMode::Corner,
            transform: Affine::identity(),
            color_mode: rgb_mode(),
            frame_count: 0,
            frame_rate: Fx::from_int(60),
            text_size: Fx::from_int(32),
            width,
            height,
            keys: None,
            key: None,
            key_code: None,
        }
    }

    /// Set the fill colour from a numeric argument under the current
    /// colour mode.
    pub fn fill(&mut self, color: ColorInput)
        requires
            state_wf(*old(self)),
            input_in_range(color),
        ensures
            *final(self) == (DrawState {
                fill_color: Some(into_color_spec(color, old(self).color_mode)),
                ..*old(self)
            }),
    {
        self.fill_color = Some(into_color(color, self.color_mode));
    }

    /// Disable filling.
    pub fn no_fill(&mut self)
        ensures
            *final(self) == (DrawState { fill_color: None, ..*old(self) }),
    {
        self.fill_color = None;
    }

    /// Set the stroke colour from a numeric argument under the current
    /// colour mode.
    pub fn stroke(&mut self, color: ColorInput)
        requires
            state_wf(*old(self)),
            input_in_range(color),
        ensures
            *final(self) == (DrawState {
                stroke_color: into_color_spec(color, old(self).color_mode),
                ..*old(self)
            }),
    {
        self.stroke_color = into_color(color, self.color_mode);
    }

    /// Disable stroking by setting the stroke weight to zero.
    pub fn no_stroke(&mut self)
        ensures
            *final(self) == (DrawState { stroke_weight: Fx { bits: 0 }, ..*old(self) }),
    {
        self.stroke_weight = Fx::zero();
    }

    /// Set the stroke width, in pixels.
    pub fn stroke_weight(&mut self, weight: Fx)
        requires
            0 <= weight@ <= 0x1000_0000_0000_0000,
        ensures
            *final(self) == (DrawState { stroke_weight: weight, ..*old(self) }),
    {
        self.stroke_weight = weight;
    }

    /// Select how rectangle arguments map to corners.
    pub fn rect_mode(&mut self, mode: RectMode)
        ensures
            *final(self) == (DrawState { rect_mode: mode, ..*old(self) }),
    {
        self.rect_mode = mode;
    }

    /// Replace the colour mode.
    pub fn color_mode(&mut self, mode: ColorMode)
        requires
            mode_wf(mode),
        ensures
            *final(self) == (DrawState { color_mode: mode, ..*old(self) }),
    {
        self.color_mode = mode;
    }

    /// Set the target frame rate.
    pub fn frame_rate(&mut self, fps: Fx)
        ensures
            *final(self) == (DrawState { frame_rate: fps, ..*old(self) }),
    {
        self.frame_rate = fps;
    }

    /// Set the font size used by text calls.
    pub fn text_size(&mut self, size: Fx)
        ensures
            *final(self) == (DrawState { text_size: size, ..*old(self) }),
    {
        self.text_size = size;
    }

    /// Reset the transform to the identity.
    pub fn reset_matrix(&mut self)
        ensures
            *final(self) == (DrawState { transform: final(self).transform, ..*old(self) }),
            final(self).transform@ == identity_v(),
    {
        self.transform = Affine::identity();
    }

    /// Compose the given coefficients onto the current transform: the new
    /// map applies to the result of everything issued before it.
    pub fn apply_matrix(&mut self, m11: Fx, m12: Fx, m21: Fx, m22: Fx, m31: Fx, m32: Fx)
        requires
            compose_fits(
                old(self).transform@,
                AffineV { m11: m11@, m12: m12@, m21: m21@, m22: m22@, m31: m31@, m32: m32@ },
            ),
        ensures
            *final(self) == (DrawState { transform: final(self).transform, ..*old(self) }),
            final(self).transform@ == compose_v(
                old(self).transform@,
                AffineV { m11: m11@, m12: m12@, m21: m21@, m22: m22@, m31: m31@, m32: m32@ },
            ),
    {
        self.transform = self.transform.compose(Affine::new(m11, m12, m21, m22, m31, m32));
    }

    /// Displace everything drawn afterwards by `(x, y)`.
    pub fn translate(&mut self, x: Fx, y: Fx)
        requires
            compose_fits(old(self).transform@, translate_v(x@, y@)),
        ensures
            *final(self) == (DrawState { transform: final(self).transform, ..*old(self) }),
            final(self).transform@ == compose_v(old(self).transform@, translate_v(x@, y@)),
    {
        self.apply_matrix(Fx::one(), Fx::zero(), Fx::zero(), Fx::one(), x, y);
    }

    /// Scale everything drawn afterwards by `s` about the origin.
    pub fn scale(&mut self, s: Fx)
        requires
            compose_fits(old(self).transform@, scale_v(s@)),
        ensures
            *final(self) == (DrawState { transform: final(self).transform, ..*old(self) }),
            final(self).transform@ == compose_v(old(self).transform@, scale_v(s@)),
    {
        self.apply_matrix(s, Fx::zero(), Fx::zero(), s, Fx::zero(), Fx::zero());
    }

    /// Rotate everything drawn afterwards, given the cosine and sine of
    /// the angle.
    pub fn rotate_cs(&mut self, cos_a: Fx, sin_a: Fx)
        requires
            sin_a@ != i64::MIN,
            compose_fits(
                old(self).transform@,
                AffineV { m11: cos_a@, m12: sin_a@, m21: -sin_a@, m22: cos_a@, m31: 0, m32: 0 },
            ),
        ensures
            *final(self) == (DrawState { transform: final(self).transform, ..*old(self) }),
            final(self).transform@ == compose_v(
                old(self).transform@,
                AffineV { m11: cos_a@, m12: sin_a@, m21: -sin_a@, m22: cos_a@, m31: 0, m32: 0 },
            ),
    {
        self.apply_matrix(cos_a, sin_a, sin_a.neg(), cos_a, Fx::zero(), Fx::zero());
    }

    /// Shear along the x-axis, given the tangent of the angle.  A
    /// tangent beyond magnitude one thousand — a nearly vertical shear —
    /// is silently treated as no shear, so that near-infinite slopes
    /// never reach the rasterizer.
    pub fn shear_x(&mut self, t: Fx)
        requires
            t@ != i64::MIN,
            compose_fits(old(self).transform@, shear_x_v(clamp_tan(t@))),
        ensures
            *final(self) == (DrawState { transform: final(self).transform, ..*old(self) }),
            final(self).transform@ == compose_v(old(self).transform@, shear_x_v(clamp_tan(t@))),
    {
        let t2 = if t.abs().bits > 1000 * 65536 {
            Fx::zero()
        } else {
            t
        };
        self.apply_matrix(Fx::one(), Fx::zero(), t2, Fx::one(), Fx::zero(), Fx::zero());
    }

    /// Shear along the y-axis, given the tangent of the angle, with the
    /// same clamping of near-vertical tangents as [`Self::shear_x`].
    pub fn shear_y(&mut self, t: Fx)
        requires
            t@ != i64::MIN,
            compose_fits(old(self).transform@, shear_y_v(clamp_tan(t@))),
        ensures
            *final(self) == (DrawState { transform: final(self).transform, ..*old(self) }),
            final(self).transform@ == compose_v(old(self).transform@, shear_y_v(clamp_tan(t@))),
    {
        let t2 = if t.abs().bits > 1000 * 65536 {
            Fx::zero()
        } else {
            t
        };
        self.apply_matrix(Fx::one(), t2, Fx::zero(), Fx::one(), Fx::zero(), Fx::zero());
    }

    /// Begin a frame: count it and restore the transform to the
    /// identity, whatever sequence of transform operations the previous
    /// draw call issued.  The frame loop calls this once before each
    /// draw, never mid-shape.
    pub fn begin_frame(&mut self)
        requires
            old(self).frame_count < usize::MAX,
        ensures
            *final(self) == (DrawState {
                frame_count: (old(self).frame_count + 1) as usize,
                transform: final(self).transform,
                ..*old(self)
            }),
            final(self).transform@ == identity_v(),
    {
        self.frame_count = self.frame_count + 1;
        self.transform = Affine::identity();
    }

    /// Whether a key is currently held down, according to the last
    /// snapshot from the windowing collaborator.
    pub fn key_is_down(&self, key: Key) -> (r: bool)
        ensures
            r == match self.keys {
                Some(ks) => ks@.contains(key),
                None => false,
            },
    {
        match &self.keys {
            None => false,
            Some(ks) => {
                let mut i: usize = 0;
                let mut found = false;
                while i < ks.len()
                    invariant
                        i <= ks@.len(),
                        found == ks@.take(i as int).contains(key),
                    decreases ks@.len() - i,
                {
                    if ks[i] == key {
                        found = true;
                    }
                    proof {
                        let t0 = ks@.take(i as int);
                        let t1 = ks@.take(i + 1int);
                        assert(t1.drop_last() =~= t0);
                        if found {
                            if ks@[i as int] == key {
                                assert(t1[i as int] == key);
                            } else {
                                let j = choose|j: int| 0 <= j < t0.len() && t0[j] == key;
                                assert(t1[j] == key);
                            }
                            assert(t1.contains(key));
                        } else {
                            assert(forall|j: int| #![trigger t1[j]]
                                0 <= j < i + 1 ==> t1[j] != key);
                            assert(!t1.contains(key));
                        }
                    }
                    i = i + 1;
                }
                proof {
                    assert(ks@.take(ks@.len() as int) =~= ks@);
                }
                found
            },
        }
    }

    /// The colour a background call clears the surface to: the argument
    /// under the current colour mode.  The clear ignores the transform
    /// and every other style attribute.
    pub fn background(&self, color: ColorInput) -> (c: Color)
        requires
            state_wf(*self),
            input_in_range(color),
        ensures
            c == into_color_spec(color, self.color_mode),
    {
        into_color(color, self.color_mode)
    }

    /// Plan one shape draw: the path is handed on with the current
    /// transform, stroked when the stroke weight is nonzero and filled
    /// when a fill colour is set.  Both passes may run; with neither,
    /// the shape is validly invisible.
    pub fn draw_path(&self, path: Vec<PathCmd>) -> (plan: DrawPlan)
        ensures
            plan.path@ == path@,
            plan.transform == self.transform,
            plan.stroke == stroke_of(*self),
            plan.fill == fill_of(*self),
    {
        let stroke: Option<(Color, Fx)> = if self.stroke_weight.bits != 0 {
            Some((self.stroke_color, self.stroke_weight))
        } else {
            None
        };
        DrawPlan { path, transform: self.transform, stroke, fill: self.fill_color }
    }

    /// Plan an ellipse centred at `(x, y)` with extents `(w, h)`.
    pub fn ellipse(&self, x: Fx, y: Fx, w: Fx, h: Fx) -> (plan: DrawPlan)
        requires
            coord_in_range(x@),
            coord_in_range(y@),
            coord_in_range(w@),
            coord_in_range(h@),
        ensures
            plan.path@ == ellipse_cmds(x@, y@, w@, h@),
            plan.transform == self.transform,
            plan.stroke == stroke_of(*self),
            plan.fill == fill_of(*self),
    {
        self.draw_path(ellipse_path(x, y, w, h))
    }

    /// Plan a circle: an ellipse whose width and height are both the
    /// diameter.
    pub fn circle(&self, x: Fx, y: Fx, d: Fx) -> (plan: DrawPlan)
        requires
            coord_in_range(x@),
            coord_in_range(y@),
            coord_in_range(d@),
        ensures
            plan.path@ == ellipse_cmds(x@, y@, d@, d@),
            plan.transform == self.transform,
            plan.stroke == stroke_of(*self),
            plan.fill == fill_of(*self),
    {
        self.ellipse(x, y, d, d)
    }

    /// Plan a rectangle under the current rectangle mode.
    pub fn rect(&self, x: Fx, y: Fx, w: Fx, h: Fx, rounding: Option<RectRounding>) -> (plan:
        DrawPlan)
        requires
            coord_in_range(x@),
            coord_in_range(y@),
            coord_in_range(w@),
            coord_in_range(h@),
            crate::path::rounding_applies(rounding) ==> coord_in_range(
                crate::path::corner_radius(rounding->Some_0, 0),
            ) && coord_in_range(crate::path::corner_radius(rounding->Some_0, 1)) && coord_in_range(
                crate::path::corner_radius(rounding->Some_0, 2),
            ) && coord_in_range(crate::path::corner_radius(rounding->Some_0, 3)),
        ensures
            plan.path@ == rect_cmds(self.rect_mode, x@, y@, w@, h@, rounding),
            plan.transform == self.transform,
            plan.stroke == stroke_of(*self),
            plan.fill == fill_of(*self),
    {
        self.draw_path(rect_path(x, y, w, h, self.rect_mode, rounding))
    }

    /// Plan a square: a rectangle with equal width and height.
    pub fn square(&self, x: Fx, y: Fx, s: Fx, rounding: Option<RectRounding>) -> (plan: DrawPlan)
        requires
            coord_in_range(x@),
            coord_in_range(y@),
            coord_in_range(s@),
            crate::path::rounding_applies(rounding) ==> coord_in_range(
                crate::path::corner_radius(rounding->Some_0, 0),
            ) && coord_in_range(crate::path::corner_radius(rounding->Some_0, 1)) && coord_in_range(
                crate::path::corner_radius(rounding->Some_0, 2),
            ) && coord_in_range(crate::path::corner_radius(rounding->Some_0, 3)),
        ensures
            plan.path@ == rect_cmds(self.rect_mode, x@, y@, s@, s@, rounding),
            plan.transform == self.transform,
            plan.stroke == stroke_of(*self),
            plan.fill == fill_of(*self),
    {
        self.rect(x, y, s, s, rounding)
    }

    /// Plan a quadrilateral through four vertices.
    pub fn quad(&self, p1: Pt, p2: Pt, p3: Pt, p4: Pt) -> (plan: DrawPlan)
        ensures
            plan.path@ == crate::path::quad_cmds(p1, p2, p3, p4),
            plan.transform == self.transform,
            plan.stroke == stroke_of(*self),
            plan.fill == fill_of(*self),
    {
        self.draw_path(crate::path::quad_path(p1, p2, p3, p4))
    }

    /// Plan a triangle through three vertices.
    pub fn triangle(&self, p1: Pt, p2: Pt, p3: Pt) -> (plan: DrawPlan)
        ensures
            plan.path@ == crate::path::triangle_cmds(p1, p2, p3),
            plan.transform == self.transform,
            plan.stroke == stroke_of(*self),
            plan.fill == fill_of(*self),
    {
        self.draw_path(crate::path::triangle_path(p1, p2, p3))
    }

    /// Plan a line between two points.  The path carries the current
    /// transform, like every other shape.  A line is never filled; with
    /// a zero stroke weight the call is a diagnosable no-op (`None`),
    /// not a default-width line.
    pub fn line(&self, p1: Pt, p2: Pt) -> (r: Option<DrawPlan>)
        ensures
            r is Some <==> self.stroke_weight@ != 0,
            r matches Some(plan) ==> plan.path@ == line_cmds(p1, p2) && plan.transform
                == self.transform && plan.stroke == Some((self.stroke_color, self.stroke_weight))
                && plan.fill is None,
    {
        if self.stroke_weight.bits != 0 {
            Some(
                DrawPlan {
                    path: line_path(p1, p2),
                    transform: self.transform,
                    stroke: Some((self.stroke_color, self.stroke_weight)),
                    fill: None,
                },
            )
        } else {
            None
        }
    }

    /// Plan a point.  When the stroke weight is exactly one pixel and
    /// the stroke colour fully opaque, the point is one direct pixel
    /// write at the transformed, truncated coordinates; otherwise it is
    /// a stroke-weight-sized ellipse filled with the stroke colour.
    pub fn point(&self, x: Fx, y: Fx) -> (r: PointPlan)
        requires
            state_wf(*self),
            coord_in_range(x@),
            coord_in_range(y@),
            self.stroke_weight@ == 65536 && self.stroke_color.a == 255 ==> tp_fits(
                self.transform@,
                x@,
                y@,
            ),
        ensures
            self.stroke_weight@ == 65536 && self.stroke_color.a == 255 ==> (r matches
            PointPlan::Pixel { x: px, y: py, color } && px == tz_div(
                tp_x(self.transform@, x@, y@),
                65536,
            ) && py == tz_div(tp_y(self.transform@, x@, y@), 65536) && color
                == self.stroke_color),
            !(self.stroke_weight@ == 65536 && self.stroke_color.a == 255) ==> (r matches
            PointPlan::Dot(plan) && plan.path@ == ellipse_cmds(
                x@,
                y@,
                self.stroke_weight@,
                self.stroke_weight@,
            ) && plan.transform == self.transform && plan.stroke is None && plan.fill == Some(
                self.stroke_color,
            )),
    {
        if self.stroke_weight.bits == 65536 && self.stroke_color.a == 255 {
            let (tx, ty) = self.transform.transform_point(x, y);
            PointPlan::Pixel { x: tx.trunc(), y: ty.trunc(), color: self.stroke_color }
        } else {
            PointPlan::Dot(
                DrawPlan {
                    path: ellipse_path(x, y, self.stroke_weight, self.stroke_weight),
                    transform: self.transform,
                    stroke: None,
                    fill: Some(self.stroke_color),
                },
            )
        }
    }

    /// Plan a text draw at `(x, y)`: position, current size and fill
    /// colour for the glyph renderer.  Text is drawn only when a fill
    /// colour is set, and its position is not transformed.
    pub fn text_plan(&self, x: Fx, y: Fx) -> (r: Option<TextPlan>)
        ensures
            r is Some <==> self.fill_color is Some,
            r matches Some(t) ==> t.x == x && t.y == y && t.size == self.text_size && Some(t.color)
                == self.fill_color,
    {
        match self.fill_color {
            Some(c) => Some(TextPlan { x, y, size: self.text_size, color: c }),
            None => None,
        }
    }
}

/// The tangent handed to a shear, after the near-vertical clamp: a
/// magnitude above one thousand becomes zero.
pub open spec fn clamp_tan(t: int) -> int {
    if t > 1000 * 65536 || t < -1000 * 65536 {
        0
    } else {
        t
    }
}

/// Pack a colour into a 32-bit ARGB pixel, alpha in the highest byte.
pub fn pack_argb(c: Color) -> (r: u32)
    ensures
        r == c.a * 0x100_0000 + c.r * 0x1_0000 + c.g * 0x100 + c.b,
{
    (c.a as u32) * 0x100_0000 + (c.r as u32) * 0x1_0000 + (c.g as u32) * 0x100 + (c.b as u32)
}

/// The offset of a pixel in a row-major buffer, when the coordinates
/// fall inside the surface.
pub fn pixel_offset(x: i64, y: i64, width: u32, height: u32) -> (r: Option<u64>)
    ensures
        r is Some <==> 0 <= x < width && 0 <= y < height,
        r matches Some(off) ==> off == y * width + x,
{
    if 0 <= x && x < width as i64 && 0 <= y && y < height as i64 {
        proof {
            assert(y * width <= 0xFFFF_FFFF * 0xFFFF_FFFF) by (nonlinear_arith)
                requires
                    0 <= y <= 0xFFFF_FFFF && 0 <= width <= 0xFFFF_FFFF,
            ;
            assert(y * width >= 0) by (nonlinear_arith)
                requires
                    0 <= y && 0 <= width,
            ;
        }
        Some((y as u64) * (width as u64) + (x as u64))
    } else {
        None
    }
}

/// A state whose fill is disabled plans no fill pass for any shape, and
/// its stroke pass is untouched: after `no_fill`, a draw changes stroke
/// pixels only.
pub proof fn lemma_no_fill_isolation(s: DrawState)
    requires
        s.fill_color is None,
    ensures
        fill_of(s) is None,
        stroke_of(s) == stroke_of(DrawState { fill_color: Some(s.stroke_color), ..s }),
{
}

} // verus!
