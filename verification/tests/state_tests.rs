use p5_rs::input::{key_to_char, typed_chars};
use p5_rs::path::ArcSeg;
use p5_rs::state::{pack_argb, pixel_offset};
use p5_rs::{
    Affine, Color, ColorInput, ColorMode, ColorModel, DrawState, FontFamily, Fx, Key, PathCmd,
    PointPlan, Pt, RectMode,
};

fn fxi(v: i64) -> Fx {
    Fx::from_int(v)
}

fn pt(x: i64, y: i64) -> Pt {
    Pt { x: fxi(x), y: fxi(y) }
}

#[test]
fn defaults() {
    let s = DrawState::new(400, 400);
    assert_eq!(s.fill_color, Some(Color { r: 255, g: 255, b: 255, a: 255 }));
    assert_eq!(s.stroke_color, Color { r: 0, g: 0, b: 0, a: 255 });
    assert_eq!(s.stroke_weight, fxi(1));
    assert_eq!(s.rect_mode, RectMode::Corner);
    assert_eq!(s.transform, Affine::identity());
    assert_eq!(s.frame_count, 0);
    assert_eq!(s.frame_rate, fxi(60));
    assert_eq!(s.text_size, fxi(32));
}

#[test]
fn background() {
    // background(220) clears to an opaque 220 gray, whatever the other
    // style state says.
    let mut s = DrawState::new(400, 400);
    s.no_fill();
    s.translate(fxi(10), fxi(10));
    let c = s.background(ColorInput::Gray8(220));
    assert_eq!(c, Color { r: 220, g: 220, b: 220, a: 255 });
}

#[test]
fn ellipse_end_to_end() {
    // End to end: background(220), ellipse(200, 200, 100, 50) under the
    // default style strokes a width-one black outline and fills white.
    let s = DrawState::new(400, 400);
    let cleared = s.background(ColorInput::Gray8(220));
    assert_eq!(cleared, Color { r: 220, g: 220, b: 220, a: 255 });
    let plan = s.ellipse(fxi(200), fxi(200), fxi(100), fxi(50));
    assert_eq!(plan.stroke, Some((Color { r: 0, g: 0, b: 0, a: 255 }, fxi(1))));
    assert_eq!(plan.fill, Some(Color { r: 255, g: 255, b: 255, a: 255 }));
    assert_eq!(plan.transform, Affine::identity());
    assert_eq!(plan.path[0], PathCmd::MoveTo(pt(250, 200)));
    assert_eq!(
        plan.path[1],
        PathCmd::Arc(ArcSeg {
            cx: fxi(200),
            cy: fxi(200),
            rx: fxi(50),
            ry: fxi(25),
            start_quarters: 0,
            sweep_quarters: 4,
        })
    );
}

#[test]
fn circle_is_an_equal_extent_ellipse() {
    let s = DrawState::new(400, 400);
    let c = s.circle(fxi(35), fxi(35), fxi(60));
    let e = s.ellipse(fxi(35), fxi(35), fxi(60), fxi(60));
    assert_eq!(c.path, e.path);
}

#[test]
fn no_fill_leaves_only_stroke() {
    // no_fill() followed by any shape draw plans zero fill work.
    let mut s = DrawState::new(400, 400);
    s.no_fill();
    let plan = s.rect(fxi(30), fxi(20), fxi(55), fxi(55), None);
    assert_eq!(plan.fill, None);
    assert_eq!(plan.stroke, Some((Color { r: 0, g: 0, b: 0, a: 255 }, fxi(1))));
    let plan = s.ellipse(fxi(40), fxi(40), fxi(50), fxi(50));
    assert_eq!(plan.fill, None);
    assert!(plan.stroke.is_some());
}

#[test]
fn no_stroke_leaves_only_fill() {
    let mut s = DrawState::new(400, 400);
    s.no_stroke();
    let plan = s.circle(fxi(35), fxi(115), fxi(60));
    assert_eq!(plan.stroke, None);
    assert_eq!(plan.fill, Some(Color { r: 255, g: 255, b: 255, a: 255 }));
}

#[test]
fn invisible_shapes_are_valid() {
    let mut s = DrawState::new(400, 400);
    s.no_stroke();
    s.no_fill();
    let plan = s.circle(fxi(35), fxi(115), fxi(60));
    assert_eq!(plan.stroke, None);
    assert_eq!(plan.fill, None);
}

#[test]
fn stroke() {
    let mut s = DrawState::new(400, 400);
    s.color_mode(ColorMode::new(ColorModel::RGB, fxi(100)));
    s.stroke_weight(fxi(4));
    s.stroke(ColorInput::Triple(fxi(0), fxi(50), fxi(100)));
    let plan = s.circle(fxi(35), fxi(35), fxi(60));
    assert_eq!(plan.stroke, Some((Color { r: 0, g: 127, b: 255, a: 255 }, fxi(4))));
}

#[test]
fn line() {
    // A line is never filled, and its path carries the current
    // transform like every other shape.
    let mut s = DrawState::new(400, 400);
    s.translate(fxi(100), fxi(100));
    let plan = s.line(pt(20, 20), pt(380, 380)).unwrap();
    assert_eq!(plan.path, vec![PathCmd::MoveTo(pt(20, 20)), PathCmd::LineTo(pt(380, 380))]);
    assert_eq!(plan.transform, s.transform);
    assert_eq!(plan.transform.m31, fxi(100));
    assert_eq!(plan.transform.m32, fxi(100));
    assert_eq!(plan.fill, None);
    assert_eq!(plan.stroke, Some((Color { r: 0, g: 0, b: 0, a: 255 }, fxi(1))));
}

#[test]
fn line_with_zero_weight_is_a_no_op() {
    let mut s = DrawState::new(400, 400);
    s.no_stroke();
    assert!(s.line(pt(20, 20), pt(380, 380)).is_none());
}

#[test]
fn point() {
    // With the default width-one opaque stroke, a point is one direct
    // pixel write at the transformed coordinates.
    let mut s = DrawState::new(400, 400);
    s.translate(fxi(10), fxi(10));
    match s.point(fxi(5), fxi(7)) {
        PointPlan::Pixel { x, y, color } => {
            assert_eq!((x, y), (15, 17));
            assert_eq!(color, Color { r: 0, g: 0, b: 0, a: 255 });
        },
        PointPlan::Dot(_) => panic!("expected the single-pixel fast path"),
    }
    // With any other stroke weight, a point is a filled ellipse of that
    // diameter.
    s.stroke_weight(fxi(6));
    match s.point(fxi(210), fxi(200)) {
        PointPlan::Pixel { .. } => panic!("expected the ellipse dot"),
        PointPlan::Dot(plan) => {
            assert_eq!(plan.stroke, None);
            assert_eq!(plan.fill, Some(Color { r: 0, g: 0, b: 0, a: 255 }));
            assert_eq!(plan.path[0], PathCmd::MoveTo(pt(213, 200)));
        },
    }
}

#[test]
fn matrix() {
    // apply_matrix composes onto the current transform; reset_matrix
    // restores the identity.
    let mut s = DrawState::new(400, 400);
    s.apply_matrix(fxi(1), fxi(0), fxi(0), fxi(1), fxi(40), fxi(50));
    let plan = s.rect(fxi(0), fxi(0), fxi(50), fxi(50), None);
    assert_eq!(plan.transform.m31, fxi(40));
    assert_eq!(plan.transform.m32, fxi(50));
    s.reset_matrix();
    assert_eq!(s.transform, Affine::identity());
}

#[test]
fn transforms() {
    // Issuing translate(10,0) and translate(20,0) equals translate(30,0);
    // scale(2) after scale(1.5)... equals scale(3).
    let mut a = DrawState::new(400, 400);
    a.translate(fxi(10), fxi(0));
    a.translate(fxi(20), fxi(0));
    let mut b = DrawState::new(400, 400);
    b.translate(fxi(30), fxi(0));
    assert_eq!(a.transform, b.transform);

    let mut a = DrawState::new(400, 400);
    a.scale(fxi(2));
    a.scale(Fx { bits: 3 * 65536 / 2 });
    let mut b = DrawState::new(400, 400);
    b.scale(fxi(3));
    assert_eq!(a.transform, b.transform);
}

#[test]
fn shear_clamps_near_vertical_tangents() {
    let mut s = DrawState::new(400, 400);
    s.shear_x(fxi(2000));
    assert_eq!(s.transform, Affine::identity());
    s.shear_x(fxi(2));
    assert_eq!(s.transform.m21, fxi(2));
    let mut s = DrawState::new(400, 400);
    s.shear_y(fxi(-2000));
    assert_eq!(s.transform, Affine::identity());
    s.shear_y(fxi(-3));
    assert_eq!(s.transform.m12, fxi(-3));
}

#[test]
fn frame_isolation() {
    // After any sequence of transform operations, beginning the next
    // frame restores the identity transform and counts the frame.
    let mut s = DrawState::new(400, 400);
    s.translate(fxi(40), fxi(50));
    s.scale(fxi(2));
    s.shear_x(fxi(1));
    s.begin_frame();
    assert_eq!(s.transform, Affine::identity());
    assert_eq!(s.frame_count, 1);
    s.translate(fxi(300), fxi(50));
    s.begin_frame();
    assert_eq!(s.transform, Affine::identity());
    assert_eq!(s.frame_count, 2);
}

#[test]
fn rect_mode_is_used_by_rect() {
    let mut s = DrawState::new(400, 400);
    s.rect_mode(RectMode::Center);
    let plan = s.rect(fxi(100), fxi(100), fxi(50), fxi(50), None);
    assert_eq!(plan.path[0], PathCmd::MoveTo(pt(75, 75)));
}

#[test]
fn text_needs_a_fill_color() {
    let mut s = DrawState::new(400, 400);
    s.text_size(fxi(30));
    let t = s.text_plan(fxi(100), fxi(100)).unwrap();
    assert_eq!(t.size, fxi(30));
    assert_eq!(t.color, Color { r: 255, g: 255, b: 255, a: 255 });
    assert_eq!((t.x, t.y), (fxi(100), fxi(100)));
    s.no_fill();
    assert!(s.text_plan(fxi(100), fxi(200)).is_none());
}

#[test]
fn keys() {
    assert_eq!(key_to_char(Key::A, false), Some('a'));
    assert_eq!(key_to_char(Key::A, true), Some('A'));
    assert_eq!(key_to_char(Key::Z, false), Some('z'));
    assert_eq!(key_to_char(Key::Key0, false), Some('0'));
    assert_eq!(key_to_char(Key::Key9, true), Some('9'));
    assert_eq!(key_to_char(Key::Escape, false), None);
    assert_eq!(key_to_char(Key::Space, true), None);

    let chars = typed_chars(&vec![Key::H, Key::Key1, Key::Escape, Key::I], false);
    assert_eq!(chars, vec!['h', '1', 'i']);
    let chars = typed_chars(&vec![Key::H, Key::I], true);
    assert_eq!(chars, vec!['H', 'I']);

    let mut s = DrawState::new(400, 400);
    assert!(!s.key_is_down(Key::A));
    s.keys = Some(vec![Key::A, Key::LeftShift]);
    assert!(s.key_is_down(Key::A));
    assert!(s.key_is_down(Key::LeftShift));
    assert!(!s.key_is_down(Key::B));
}

#[test]
fn font_families() {
    assert!(matches!(p5_rs::family::parse_family("serif"), FontFamily::Serif));
    assert!(matches!(p5_rs::family::parse_family("sans-serif"), FontFamily::SansSerif));
    assert!(matches!(p5_rs::family::parse_family("monospace"), FontFamily::Monospace));
    assert!(matches!(p5_rs::family::parse_family("cursive"), FontFamily::Cursive));
    assert!(matches!(p5_rs::family::parse_family("fantasy"), FontFamily::Fantasy));
    match p5_rs::family::parse_family("Fira Code") {
        FontFamily::Title(t) => assert_eq!(t, "Fira Code"),
        _ => panic!("expected a literal title"),
    }
}

#[test]
fn pixels() {
    let c = Color { r: 0x12, g: 0x34, b: 0x56, a: 0xFF };
    assert_eq!(pack_argb(c), 0xFF12_3456);
    assert_eq!(pixel_offset(3, 2, 400, 400), Some(2 * 400 + 3));
    assert_eq!(pixel_offset(-1, 2, 400, 400), None);
    assert_eq!(pixel_offset(3, 400, 400, 400), None);
    assert_eq!(pixel_offset(400, 3, 400, 400), None);
    assert_eq!(pixel_offset(0, 0, 400, 400), Some(0));
}
