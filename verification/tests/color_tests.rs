use p5_rs::color::{hsb_mode, hsb_to_rgb, hsb_to_rgb_alt, hsl_mode, hsl_to_rgb, into_color, rgb_mode};
use p5_rs::{Color, ColorInput, ColorMode, ColorModel, Fx};

/// A fixed-point value from a small decimal, exact for halves and
/// quarters: `fx(0.75)` is 49152 bits.
fn fx(v: f32) -> Fx {
    Fx { bits: (v * 65536.0) as i64 }
}

fn to_f32(v: Fx) -> f32 {
    v.bits as f32 / 65536.0
}

#[test]
fn hsb_to_rgb_test() {
    let rgb = vec![
        (1., 1., 1.),
        (0.5, 0.5, 0.5),
        (0., 0., 0.),
        (1., 0., 0.),
        (0.75, 0.75, 0.),
        (0., 0.5, 0.),
        (0.5, 1., 1.),
        (0.5, 0.5, 1.),
    ];
    let hsb = vec![
        (0., 0., 1.),
        (0., 0., 0.5),
        (0., 0., 0.),
        (0., 1., 1.),
        (60., 1., 0.75),
        (120., 1., 0.5),
        (180., 0.5, 1.),
        (240., 0.5, 1.),
    ];

    for (rgb, hsb) in rgb.into_iter().zip(hsb) {
        let h = fx(hsb.0);
        let s = fx(hsb.1);
        let b = fx(hsb.2);
        let rgb_result = hsb_to_rgb(h, s, b);
        let rgb_result_2 = hsb_to_rgb_alt(h, s, b);

        let error = (rgb.0 - to_f32(rgb_result.0)).powi(2)
            + (rgb.1 - to_f32(rgb_result.1)).powi(2)
            + (rgb.2 - to_f32(rgb_result.2)).powi(2);

        let error2 = (rgb.0 - to_f32(rgb_result_2.0)).powi(2)
            + (rgb.1 - to_f32(rgb_result_2.1)).powi(2)
            + (rgb.2 - to_f32(rgb_result_2.2)).powi(2);

        assert!(error < 0.001);
        assert!(error2 < 0.001);
    }
}

#[test]
fn hsb_conversions_agree_on_grid() {
    // Sample the whole admissible cube; the two conversions must agree
    // within one fixed-point bit per channel, as the library proves.
    let mut h = 0i64;
    while h <= 360 * 65536 {
        for s in [0i64, 13107, 32768, 52429, 65536] {
            for b in [0i64, 16384, 32768, 49152, 65536] {
                let (r1, g1, b1) = hsb_to_rgb(Fx { bits: h }, Fx { bits: s }, Fx { bits: b });
                let (r2, g2, b2) = hsb_to_rgb_alt(Fx { bits: h }, Fx { bits: s }, Fx { bits: b });
                assert!((0..=1).contains(&(r1.bits - r2.bits)));
                assert!((0..=1).contains(&(g1.bits - g2.bits)));
                assert!((0..=1).contains(&(b1.bits - b2.bits)));
            }
        }
        h += 7 * 65536 + 12345;
    }
}

#[test]
fn gray_byte_input() {
    // A single byte is grayscale verbatim, whatever the mode.
    let c = into_color(ColorInput::Gray8(220), rgb_mode());
    assert_eq!(c, Color { r: 220, g: 220, b: 220, a: 255 });
    let c = into_color(ColorInput::Gray8(0), hsb_mode());
    assert_eq!(c, Color { r: 0, g: 0, b: 0, a: 255 });
}

#[test]
fn gray_scalar_scales_against_third_maximum() {
    // 110 out of a maximum of 220 is half brightness.
    let mode = ColorMode::new(ColorModel::RGB, Fx::from_int(220));
    let c = into_color(ColorInput::Gray(Fx::from_int(110)), mode);
    assert_eq!(c, Color { r: 127, g: 127, b: 127, a: 255 });
    // Above the maximum the scalar saturates at a full byte.
    let c = into_color(ColorInput::Gray(Fx::from_int(500)), mode);
    assert_eq!(c, Color { r: 255, g: 255, b: 255, a: 255 });
    // Below zero it saturates at zero.
    let c = into_color(ColorInput::Gray(Fx::from_int(-5)), mode);
    assert_eq!(c, Color { r: 0, g: 0, b: 0, a: 255 });
}

#[test]
fn rgb_quad_and_triple() {
    let mode = ColorMode::new(ColorModel::RGB, Fx::from_int(100));
    // A triple defaults alpha to the mode's alpha maximum: fully opaque.
    let c = into_color(ColorInput::Triple(Fx::from_int(50), Fx::from_int(100), Fx::from_int(0)), mode);
    assert_eq!(c, Color { r: 127, g: 255, b: 0, a: 255 });
    // A quad carries its own alpha.
    let c = into_color(
        ColorInput::Quad(Fx::from_int(100), Fx::from_int(0), Fx::from_int(25), Fx::from_int(50)),
        mode,
    );
    assert_eq!(c, Color { r: 255, g: 0, b: 63, a: 127 });
}

#[test]
fn raw_bytes_bypass_the_mode() {
    let c = into_color(ColorInput::Rgba8(1, 2, 3, 4), hsb_mode());
    assert_eq!(c, Color { r: 1, g: 2, b: 3, a: 4 });
}

#[test]
fn channels_clamp_to_the_boundary() {
    // Out-of-range channels clamp, never wrap: 300 out of 255 is a full
    // byte, and a negative channel is zero.
    let c = into_color(
        ColorInput::Quad(
            Fx::from_int(300),
            Fx::from_int(-40),
            Fx::from_int(128),
            Fx::from_int(999),
        ),
        rgb_mode(),
    );
    assert_eq!(c.r, 255);
    assert_eq!(c.g, 0);
    assert_eq!(c.b, 127);
    assert_eq!(c.a, 255);
}

#[test]
fn hsb_inputs_through_the_mode() {
    // Zero saturation at full brightness is white; a full-saturation red.
    let c = into_color(
        ColorInput::Triple(Fx::from_int(0), Fx::from_int(0), Fx::from_int(100)),
        hsb_mode(),
    );
    assert_eq!(c, Color { r: 255, g: 255, b: 255, a: 255 });
    let c = into_color(
        ColorInput::Triple(Fx::from_int(0), Fx::from_int(100), Fx::from_int(100)),
        hsb_mode(),
    );
    assert_eq!(c, Color { r: 255, g: 0, b: 0, a: 255 });
}

#[test]
fn hsl_fixture_values() {
    // Lightness a half with no saturation is mid gray.
    let (r, g, b) = hsl_to_rgb(fx(0.), fx(0.), fx(0.5));
    assert_eq!((r.bits, g.bits, b.bits), (32768, 32768, 32768));
    // A fully saturated green at lightness one half: (120, 1, 0.5).
    let (r, g, b) = hsl_to_rgb(fx(120.), fx(1.), fx(0.5));
    assert!((to_f32(r) - 0.0).abs() < 0.001);
    assert!((to_f32(g) - 1.0).abs() < 0.001);
    assert!((to_f32(b) - 0.0).abs() < 0.001);
    // HSL through the conversion entry point.
    let c = into_color(
        ColorInput::Triple(Fx::from_int(120), Fx::from_int(100), Fx::from_int(50)),
        hsl_mode(),
    );
    assert_eq!(c.r, 0);
    assert!(c.g >= 254);
    assert_eq!(c.b, 0);
}

#[test]
fn color_new_stores_channels() {
    let c = Color::new(9, 8, 7, 6);
    assert_eq!((c.r, c.g, c.b, c.a), (9, 8, 7, 6));
}

#[test]
fn mode_constructors() {
    let m = ColorMode::new(ColorModel::HSB, Fx::from_int(100));
    assert_eq!(m.model, ColorModel::HSB);
    assert_eq!(m.max_1, Fx::from_int(100));
    assert_eq!(m.max_a, Fx::from_int(100));
    let m = ColorMode::with_maxes(
        ColorModel::HSL,
        Fx::from_int(360),
        Fx::from_int(100),
        Fx::from_int(100),
        Fx::from_int(1),
    );
    assert_eq!(m.model, ColorModel::HSL);
    assert_eq!(m.max_1, Fx::from_int(360));
    assert_eq!(m.max_a, Fx::from_int(1));
}
