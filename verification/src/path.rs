//! The path builder.
//!
//! Paths are ordered command sequences in local (pre-transform)
//! coordinates, built for one shape call and handed on for rendering.
//! Circular arcs are kept symbolic — centre, radii and whole quarter-turn
//! angles, all exactly representable — and the rasterizer-facing layer
//! flattens them into quadratic Bézier segments; every straight segment
//! and every arc parameter here is exact fixed-point arithmetic.

use vstd::prelude::*;

use crate::fixed::{tz_div, Fx};

verus! {

/// A point in fixed-point coordinates.
#[derive(Clone, Copy, Debug, PartialEq, Eq, Structural)]
pub struct Pt {
    pub x: Fx,
    pub y: Fx,
}

/// An elliptical arc: centre, radii, and angles in whole quarter turns
/// measured from the positive x-axis.
#[derive(Clone, Copy, Debug, PartialEq, Eq, Structural)]
pub struct ArcSeg {
    pub cx: Fx,
    pub cy: Fx,
    pub rx: Fx,
    pub ry: Fx,
    /// Start angle, in quarter turns.
    pub start_quarters: u8,
    /// Sweep, in quarter turns.
    pub sweep_quarters: u8,
}

/// One drawing command of a path.
#[derive(Clone, Copy, Debug, PartialEq, Eq, Structural)]
pub enum PathCmd {
    MoveTo(Pt),
    LineTo(Pt),
    Arc(ArcSeg),
    Close,
}

/// How the four numeric arguments of a rectangle call map to its corners.
#[derive(Clone, Copy, Debug, PartialEq, Eq, Structural)]
pub enum RectMode {
    Corner,
    Corners,
    Center,
    Radius,
}

/// The rounding radius of each corner of a rectangle.
#[derive(Clone, Copy, Debug, PartialEq, Eq, Structural)]
pub struct RectRounding {
    pub tl: Fx,
    pub tr: Fx,
    pub br: Fx,
    pub bl: Fx,
}

impl RectRounding {
    /// A rounding with a separate radius for each corner.  Returns an
    /// option for ergonomics with the rectangle call; it is always
    /// `Some`.
    pub fn new(tl: Fx, tr: Fx, br: Fx, bl: Fx) -> (r: Option<RectRounding>)
        ensures
            r == Some(RectRounding { tl, tr, br, bl }),
    {
        Some(RectRounding { tl, tr, br, bl })
    }

    /// A rounding with the same radius at every corner.
    pub fn equal(radius: Fx) -> (r: Option<RectRounding>)
        ensures
            r == Some(RectRounding { tl: radius, tr: radius, br: radius, bl: radius }),
    {
        Some(RectRounding { tl: radius, tr: radius, br: radius, bl: radius })
    }
}

/// A coordinate argument must stay well inside the `Fx` range so that
/// corner and centre arithmetic cannot overflow.
pub open spec fn coord_in_range(c: int) -> bool {
    -0x1000_0000_0000_0000 <= c <= 0x1000_0000_0000_0000
}

/// Construct a point from raw bits, for use in specifications.
pub open spec fn pt_of(x: int, y: int) -> Pt {
    Pt { x: Fx { bits: x as i64 }, y: Fx { bits: y as i64 } }
}

/// The path of a full ellipse: a move to the arc's start point — the
/// rightmost point of the outline — followed by one full-sweep arc about
/// the centre with radii of half the width and height.
pub open spec fn ellipse_cmds(x: int, y: int, w: int, h: int) -> Seq<PathCmd> {
    let rx = tz_div(w, 2);
    let ry = tz_div(h, 2);
    seq![
        PathCmd::MoveTo(pt_of(x + rx, y)),
        PathCmd::Arc(
            ArcSeg {
                cx: Fx { bits: x as i64 },
                cy: Fx { bits: y as i64 },
                rx: Fx { bits: rx as i64 },
                ry: Fx { bits: ry as i64 },
                start_quarters: 0,
                sweep_quarters: 4,
            },
        ),
    ]
}

/// Build the path of a full ellipse centred at `(x, y)` with width `w`
/// and height `h`.
pub fn ellipse_path(x: Fx, y: Fx, w: Fx, h: Fx) -> (p: Vec<PathCmd>)
    requires
        coord_in_range(x@),
        coord_in_range(y@),
        coord_in_range(w@),
        coord_in_range(h@),
    ensures
        p@ == ellipse_cmds(x@, y@, w@, h@),
{
    let rx = w.div_int(2);
    let ry = h.div_int(2);
    proof {
        crate::fixed::lemma_tz_div_bound(w@, 2);
        crate::fixed::lemma_tz_div_bound(h@, 2);
    }
    let mut p: Vec<PathCmd> = Vec::new();
    p.push(PathCmd::MoveTo(Pt { x: x.add(rx), y }));
    p.push(
        PathCmd::Arc(ArcSeg { cx: x, cy: y, rx, ry, start_quarters: 0, sweep_quarters: 4 }),
    );
    proof {
        assert(p@ =~= ellipse_cmds(x@, y@, w@, h@));
    }
    p
}

/// The four corners a rectangle call denotes, in traversal order
/// (top-left, top-right, bottom-right, bottom-left), as raw coordinate
/// bits.  `Corners` reads the arguments as two literal opposite corners,
/// without reordering; `Center` offsets by the half-extents; `Radius`
/// reads the extents as half-extents already.
pub open spec fn rect_corners(mode: RectMode, x: int, y: int, w: int, h: int) -> Seq<(int, int)> {
    match mode {
        RectMode::Corner => seq![(x, y), (x + w, y), (x + w, y + h), (x, y + h)],
        RectMode::Corners => seq![(x, y), (w, y), (w, h), (x, h)],
        RectMode::Center => {
            let hw = tz_div(w, 2);
            let hh = tz_div(h, 2);
            seq![(x - hw, y - hh), (x + hw, y - hh), (x + hw, y + hh), (x - hw, y + hh)]
        },
        RectMode::Radius => seq![(x - w, y - h), (x + w, y - h), (x + w, y + h), (x - w, y + h)],
    }
}

/// The sharp-cornered rectangle path: a move to the first corner, lines
/// through the others, and an explicit close.
pub open spec fn sharp_rect_cmds(cs: Seq<(int, int)>) -> Seq<PathCmd> {
    seq![
        PathCmd::MoveTo(pt_of(cs[0].0, cs[0].1)),
        PathCmd::LineTo(pt_of(cs[1].0, cs[1].1)),
        PathCmd::LineTo(pt_of(cs[2].0, cs[2].1)),
        PathCmd::LineTo(pt_of(cs[3].0, cs[3].1)),
        PathCmd::Close,
    ]
}

/// The centre of the rounding arc at corner `i`: the corner pushed
/// inward by the radius along both axes.
pub open spec fn corner_arc_center(i: int, cx: int, cy: int, rad: int) -> (int, int) {
    if i == 0 {
        (cx + rad, cy + rad)
    } else if i == 1 {
        (cx - rad, cy + rad)
    } else if i == 2 {
        (cx - rad, cy - rad)
    } else {
        (cx + rad, cy - rad)
    }
}

/// The start point of the rounding arc at corner `i`: the arc begins at
/// angle `(2 + i)` quarter turns, whose cosine and sine are 0 or ±1, so
/// the point sits exactly one radius from the arc centre along an axis.
pub open spec fn corner_arc_start(i: int, ax: int, ay: int, rad: int) -> (int, int) {
    if i == 0 {
        (ax - rad, ay)
    } else if i == 1 {
        (ax, ay - rad)
    } else if i == 2 {
        (ax + rad, ay)
    } else {
        (ax, ay + rad)
    }
}

/// The radius requested for corner `i` of a rounding.
pub open spec fn corner_radius(r: RectRounding, i: int) -> int {
    if i == 0 {
        r.tl@
    } else if i == 1 {
        r.tr@
    } else if i == 2 {
        r.br@
    } else {
        r.bl@
    }
}

/// The two commands that draw rounded corner `i`: a line to the arc's
/// start point, and the quarter-turn arc that starts at angle
/// `2 + i` quarter turns.  At corner 0 the line is a move, since it
/// opens the path.
pub open spec fn rounded_corner_cmds(i: int, cx: int, cy: int, rad: int) -> Seq<PathCmd> {
    let (ax, ay) = corner_arc_center(i, cx, cy, rad);
    let (sx, sy) = corner_arc_start(i, ax, ay, rad);
    let start = pt_of(sx, sy);
    let arc = PathCmd::Arc(
        ArcSeg {
            cx: Fx { bits: ax as i64 },
            cy: Fx { bits: ay as i64 },
            rx: Fx { bits: rad as i64 },
            ry: Fx { bits: rad as i64 },
            start_quarters: (2 + i) as u8,
            sweep_quarters: 1,
        },
    );
    if i == 0 {
        seq![PathCmd::MoveTo(start), arc]
    } else {
        seq![PathCmd::LineTo(start), arc]
    }
}

/// The rounded rectangle path: each corner replaced by a quarter-turn
/// arc of its radius, closed at the end.
pub open spec fn rounded_rect_cmds(cs: Seq<(int, int)>, r: RectRounding) -> Seq<PathCmd> {
    rounded_corner_cmds(0, cs[0].0, cs[0].1, corner_radius(r, 0)) + rounded_corner_cmds(
        1,
        cs[1].0,
        cs[1].1,
        corner_radius(r, 1),
    ) + rounded_corner_cmds(2, cs[2].0, cs[2].1, corner_radius(r, 2)) + rounded_corner_cmds(
        3,
        cs[3].0,
        cs[3].1,
        corner_radius(r, 3),
    ) + seq![PathCmd::Close]
}

/// Whether a rounding request actually rounds: every corner radius must
/// be nonzero.  A single zero radius abandons the rounding for the whole
/// rectangle.
pub open spec fn rounding_applies(rounding: Option<RectRounding>) -> bool {
    match rounding {
        Some(r) => r.tl@ != 0 && r.tr@ != 0 && r.br@ != 0 && r.bl@ != 0,
        None => false,
    }
}

/// The path a rectangle call denotes: the corners derived by the mode,
/// rounded only when every requested corner radius is nonzero.
pub open spec fn rect_cmds(
    mode: RectMode,
    x: int,
    y: int,
    w: int,
    h: int,
    rounding: Option<RectRounding>,
) -> Seq<PathCmd> {
    let cs = rect_corners(mode, x, y, w, h);
    if rounding_applies(rounding) {
        rounded_rect_cmds(cs, rounding->Some_0)
    } else {
        sharp_rect_cmds(cs)
    }
}

/// A rounding request with any single corner radius of zero produces a
/// path identical to the fully-unrounded rectangle for that call.
pub proof fn lemma_zero_radius_short_circuit(
    mode: RectMode,
    x: int,
    y: int,
    w: int,
    h: int,
    r: RectRounding,
)
    requires
        r.tl@ == 0 || r.tr@ == 0 || r.br@ == 0 || r.bl@ == 0,
    ensures
        rect_cmds(mode, x, y, w, h, Some(r)) == rect_cmds(mode, x, y, w, h, None),
{
}

/// Build the path of a rectangle under the given mode and rounding.
pub fn rect_path(
    x: Fx,
    y: Fx,
    w: Fx,
    h: Fx,
    mode: RectMode,
    rounding: Option<RectRounding>,
) -> (p: Vec<PathCmd>)
    requires
        coord_in_range(x@),
        coord_in_range(y@),
        coord_in_range(w@),
        coord_in_range(h@),
        rounding_applies(rounding) ==> coord_in_range(corner_radius(rounding->Some_0, 0))
            && coord_in_range(corner_radius(rounding->Some_0, 1)) && coord_in_range(
            corner_radius(rounding->Some_0, 2),
        ) && coord_in_range(corner_radius(rounding->Some_0, 3)),
    ensures
        p@ == rect_cmds(mode, x@, y@, w@, h@, rounding),
{
    proof {
        crate::fixed::lemma_tz_div_bound(w@, 2);
        crate::fixed::lemma_tz_div_bound(h@, 2);
    }
    let (c0, c1, c2, c3): (Pt, Pt, Pt, Pt) = match mode {
        RectMode::Corner => (
            Pt { x, y },
            Pt { x: x.add(w), y },
            Pt { x: x.add(w), y: y.add(h) },
            Pt { x, y: y.add(h) },
        ),
        RectMode::Corners => (Pt { x, y }, Pt { x: w, y }, Pt { x: w, y: h }, Pt { x, y: h }),
        RectMode::Center => {
            let hw = w.div_int(2);
            let hh = h.div_int(2);
            (
                Pt { x: x.sub(hw), y: y.sub(hh) },
                Pt { x: x.add(hw), y: y.sub(hh) },
                Pt { x: x.add(hw), y: y.add(hh) },
                Pt { x: x.sub(hw), y: y.add(hh) },
            )
        },
        RectMode::Radius => (
            Pt { x: x.sub(w), y: y.sub(h) },
            Pt { x: x.add(w), y: y.sub(h) },
            Pt { x: x.add(w), y: y.add(h) },
            Pt { x: x.sub(w), y: y.add(h) },
        ),
    };
    let rounded = match &rounding {
        Some(r) => r.tl.bits != 0 && r.tr.bits != 0 && r.br.bits != 0 && r.bl.bits != 0,
        None => false,
    };
    let mut p: Vec<PathCmd> = Vec::new();
    if rounded {
        let r = match rounding {
            Some(r) => r,
            None => RectRounding { tl: Fx::zero(), tr: Fx::zero(), br: Fx::zero(), bl: Fx::zero() },
        };
        push_rounded_corner(&mut p, 0, c0, r.tl);
        push_rounded_corner(&mut p, 1, c1, r.tr);
        push_rounded_corner(&mut p, 2, c2, r.br);
        push_rounded_corner(&mut p, 3, c3, r.bl);
        p.push(PathCmd::Close);
        proof {
            assert(p@ =~= rect_cmds(mode, x@, y@, w@, h@, rounding));
        }
    } else {
        p.push(PathCmd::MoveTo(c0));
        p.push(PathCmd::LineTo(c1));
        p.push(PathCmd::LineTo(c2));
        p.push(PathCmd::LineTo(c3));
        p.push(PathCmd::Close);
        proof {
            assert(p@ =~= rect_cmds(mode, x@, y@, w@, h@, rounding));
        }
    }
    p
}

/// Append the line-and-arc pair that draws rounded corner `i`.
fn push_rounded_corner(p: &mut Vec<PathCmd>, i: u8, corner: Pt, rad: Fx)
    requires
        i <= 3,
        -0x2000_0000_0000_0000 <= corner.x@ <= 0x2000_0000_0000_0000,
        -0x2000_0000_0000_0000 <= corner.y@ <= 0x2000_0000_0000_0000,
        coord_in_range(rad@),
    ensures
        final(p)@ == old(p)@ + rounded_corner_cmds(i as int, corner.x@, corner.y@, rad@),
{
    let (ax, ay): (Fx, Fx) = if i == 0 {
        (corner.x.add(rad), corner.y.add(rad))
    } else if i == 1 {
        (corner.x.sub(rad), corner.y.add(rad))
    } else if i == 2 {
        (corner.x.sub(rad), corner.y.sub(rad))
    } else {
        (corner.x.add(rad), corner.y.sub(rad))
    };
    let (sx, sy): (Fx, Fx) = if i == 0 {
        (ax.sub(rad), ay)
    } else if i == 1 {
        (ax, ay.sub(rad))
    } else if i == 2 {
        (ax.add(rad), ay)
    } else {
        (ax, ay.add(rad))
    };
    let start = Pt { x: sx, y: sy };
    if i == 0 {
        p.push(PathCmd::MoveTo(start));
    } else {
        p.push(PathCmd::LineTo(start));
    }
    p.push(
        PathCmd::Arc(
            ArcSeg {
                cx: ax,
                cy: ay,
                rx: rad,
                ry: rad,
                start_quarters: 2 + i,
                sweep_quarters: 1,
            },
        ),
    );
    proof {
        assert(p@ =~= old(p)@ + rounded_corner_cmds(i as int, corner.x@, corner.y@, rad@));
    }
}

/// The path of a quadrilateral: lines through the four vertices in the
/// given order, explicitly closed.
pub open spec fn quad_cmds(p1: Pt, p2: Pt, p3: Pt, p4: Pt) -> Seq<PathCmd> {
    seq![
        PathCmd::MoveTo(p1),
        PathCmd::LineTo(p2),
        PathCmd::LineTo(p3),
        PathCmd::LineTo(p4),
        PathCmd::Close,
    ]
}

/// Build the path of a quadrilateral through four vertices.
pub fn quad_path(p1: Pt, p2: Pt, p3: Pt, p4: Pt) -> (p: Vec<PathCmd>)
    ensures
        p@ == quad_cmds(p1, p2, p3, p4),
{
    let mut p: Vec<PathCmd> = Vec::new();
    p.push(PathCmd::MoveTo(p1));
    p.push(PathCmd::LineTo(p2));
    p.push(PathCmd::LineTo(p3));
    p.push(PathCmd::LineTo(p4));
    p.push(PathCmd::Close);
    proof {
        assert(p@ =~= quad_cmds(p1, p2, p3, p4));
    }
    p
}

/// The path of a triangle: lines through the three vertices, explicitly
/// closed.
pub open spec fn triangle_cmds(p1: Pt, p2: Pt, p3: Pt) -> Seq<PathCmd> {
    seq![PathCmd::MoveTo(p1), PathCmd::LineTo(p2), PathCmd::LineTo(p3), PathCmd::Close]
}

/// Build the path of a triangle through three vertices.
pub fn triangle_path(p1: Pt, p2: Pt, p3: Pt) -> (p: Vec<PathCmd>)
    ensures
        p@ == triangle_cmds(p1, p2, p3),
{
    let mut p: Vec<PathCmd> = Vec::new();
    p.push(PathCmd::MoveTo(p1));
    p.push(PathCmd::LineTo(p2));
    p.push(PathCmd::LineTo(p3));
    p.push(PathCmd::Close);
    proof {
        assert(p@ =~= triangle_cmds(p1, p2, p3));
    }
    p
}

/// The path of a line: an open two-point path, never closed, so it can
/// never be filled.
pub open spec fn line_cmds(p1: Pt, p2: Pt) -> Seq<PathCmd> {
    seq![PathCmd::MoveTo(p1), PathCmd::LineTo(p2)]
}

/// Build the open path of a line between two points.
pub fn line_path(p1: Pt, p2: Pt) -> (p: Vec<PathCmd>)
    ensures
        p@ == line_cmds(p1, p2),
{
    let mut p: Vec<PathCmd> = Vec::new();
    p.push(PathCmd::MoveTo(p1));
    p.push(PathCmd::LineTo(p2));
    proof {
        assert(p@ =~= line_cmds(p1, p2));
    }
    p
}

} // verus!
