use p5_rs::path::{ellipse_path, line_path, quad_path, rect_path, triangle_path, ArcSeg};
use p5_rs::{Fx, PathCmd, Pt, RectMode, RectRounding};

fn fxi(v: i64) -> Fx {
    Fx::from_int(v)
}

fn pt(x: i64, y: i64) -> Pt {
    Pt { x: fxi(x), y: fxi(y) }
}

#[test]
fn ellipse() {
    // The ellipse of the end-to-end fixture: centred at (200, 200) with
    // extents (100, 50).  The path moves to the rightmost point of the
    // outline and sweeps one full arc of half-extent radii.
    let p = ellipse_path(fxi(200), fxi(200), fxi(100), fxi(50));
    assert_eq!(p.len(), 2);
    assert_eq!(p[0], PathCmd::MoveTo(pt(250, 200)));
    assert_eq!(
        p[1],
        PathCmd::Arc(ArcSeg {
            cx: fxi(200),
            cy: fxi(200),
            rx: fxi(50),
            ry: fxi(25),
            start_quarters: 0,
            sweep_quarters: 4,
        })
    );
}

#[test]
fn rect_corner_mode() {
    let p = rect_path(fxi(30), fxi(20), fxi(55), fxi(55), RectMode::Corner, None);
    assert_eq!(
        p,
        vec![
            PathCmd::MoveTo(pt(30, 20)),
            PathCmd::LineTo(pt(85, 20)),
            PathCmd::LineTo(pt(85, 75)),
            PathCmd::LineTo(pt(30, 75)),
            PathCmd::Close,
        ]
    );
}

#[test]
fn rect_corners_mode_is_literal() {
    // Corners mode reads the third and fourth arguments as the opposite
    // corner, with no reordering: an "inverted" rectangle stays inverted.
    let p = rect_path(fxi(30), fxi(100), fxi(85), fxi(155), RectMode::Corners, None);
    assert_eq!(
        p,
        vec![
            PathCmd::MoveTo(pt(30, 100)),
            PathCmd::LineTo(pt(85, 100)),
            PathCmd::LineTo(pt(85, 155)),
            PathCmd::LineTo(pt(30, 155)),
            PathCmd::Close,
        ]
    );
    let p = rect_path(fxi(200), fxi(100), fxi(20), fxi(30), RectMode::Corners, None);
    assert_eq!(p[0], PathCmd::MoveTo(pt(200, 100)));
    assert_eq!(p[1], PathCmd::LineTo(pt(20, 100)));
    assert_eq!(p[2], PathCmd::LineTo(pt(20, 30)));
    assert_eq!(p[3], PathCmd::LineTo(pt(200, 30)));
}

#[test]
fn rect_center_mode_corners() {
    // Centre mode with x=100, y=100, w=50, h=50 must give exactly the
    // corners (75,75), (125,75), (125,125), (75,125).
    let p = rect_path(fxi(100), fxi(100), fxi(50), fxi(50), RectMode::Center, None);
    assert_eq!(
        p,
        vec![
            PathCmd::MoveTo(pt(75, 75)),
            PathCmd::LineTo(pt(125, 75)),
            PathCmd::LineTo(pt(125, 125)),
            PathCmd::LineTo(pt(75, 125)),
            PathCmd::Close,
        ]
    );
}

#[test]
fn rect_radius_mode() {
    // Radius mode reads the extents as half-extents.
    let p = rect_path(fxi(30), fxi(300), fxi(25), fxi(25), RectMode::Radius, None);
    assert_eq!(p[0], PathCmd::MoveTo(pt(5, 275)));
    assert_eq!(p[1], PathCmd::LineTo(pt(55, 275)));
    assert_eq!(p[2], PathCmd::LineTo(pt(55, 325)));
    assert_eq!(p[3], PathCmd::LineTo(pt(5, 325)));
}

#[test]
fn rounded_rect_structure() {
    let p = rect_path(
        fxi(200),
        fxi(20),
        fxi(55),
        fxi(55),
        RectMode::Corner,
        RectRounding::equal(fxi(20)),
    );
    // Four (line, arc) pairs and a close; the first line is the move.
    assert_eq!(p.len(), 9);
    // Top-left corner: arc centre (220, 40), start at (200, 40), half a
    // turn from the positive x-axis.
    assert_eq!(p[0], PathCmd::MoveTo(pt(200, 40)));
    assert_eq!(
        p[1],
        PathCmd::Arc(ArcSeg {
            cx: fxi(220),
            cy: fxi(40),
            rx: fxi(20),
            ry: fxi(20),
            start_quarters: 2,
            sweep_quarters: 1,
        })
    );
    // Top-right corner: arc centre (235, 40), start at (235, 20).
    assert_eq!(p[2], PathCmd::LineTo(pt(235, 20)));
    assert_eq!(
        p[3],
        PathCmd::Arc(ArcSeg {
            cx: fxi(235),
            cy: fxi(40),
            rx: fxi(20),
            ry: fxi(20),
            start_quarters: 3,
            sweep_quarters: 1,
        })
    );
    // Bottom-right corner: arc centre (235, 55).
    assert_eq!(p[4], PathCmd::LineTo(pt(255, 55)));
    // Bottom-left corner: arc centre (220, 55), start below it.
    assert_eq!(p[6], PathCmd::LineTo(pt(220, 75)));
    assert_eq!(p[8], PathCmd::Close);
}

#[test]
fn rounding_with_a_zero_radius_short_circuits() {
    // Any single zero corner radius abandons the rounding: the path is
    // identical to the fully-unrounded rectangle for that call.
    let sharp = rect_path(fxi(300), fxi(20), fxi(55), fxi(55), RectMode::Corner, None);
    for rounding in [
        RectRounding::new(fxi(0), fxi(15), fxi(5), fxi(30)),
        RectRounding::new(fxi(20), fxi(0), fxi(5), fxi(30)),
        RectRounding::new(fxi(20), fxi(15), fxi(0), fxi(30)),
        RectRounding::new(fxi(20), fxi(15), fxi(5), fxi(0)),
    ] {
        let p = rect_path(fxi(300), fxi(20), fxi(55), fxi(55), RectMode::Corner, rounding);
        assert_eq!(p, sharp);
    }
}

#[test]
fn quad() {
    let p = quad_path(pt(38, 31), pt(86, 20), pt(69, 63), pt(30, 76));
    assert_eq!(
        p,
        vec![
            PathCmd::MoveTo(pt(38, 31)),
            PathCmd::LineTo(pt(86, 20)),
            PathCmd::LineTo(pt(69, 63)),
            PathCmd::LineTo(pt(30, 76)),
            PathCmd::Close,
        ]
    );
}

#[test]
fn triangle() {
    let p = triangle_path(pt(30, 75), pt(58, 20), pt(86, 75));
    assert_eq!(
        p,
        vec![
            PathCmd::MoveTo(pt(30, 75)),
            PathCmd::LineTo(pt(58, 20)),
            PathCmd::LineTo(pt(86, 75)),
            PathCmd::Close,
        ]
    );
}

#[test]
fn line_is_open() {
    let p = line_path(pt(20, 20), pt(380, 380));
    assert_eq!(p, vec![PathCmd::MoveTo(pt(20, 20)), PathCmd::LineTo(pt(380, 380))]);
}

#[test]
fn rounding_constructors() {
    let r = RectRounding::new(fxi(1), fxi(2), fxi(3), fxi(4)).unwrap();
    assert_eq!((r.tl, r.tr, r.br, r.bl), (fxi(1), fxi(2), fxi(3), fxi(4)));
    let r = RectRounding::equal(fxi(20)).unwrap();
    assert_eq!((r.tl, r.tr, r.br, r.bl), (fxi(20), fxi(20), fxi(20), fxi(20)));
}
