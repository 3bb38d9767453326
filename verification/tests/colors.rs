//! Color normalization, fixed-point blending, error codes, and the
//! presentation quad's geometry.

use easy_canvas::Color;
use easy_canvas::Rgba;
use easy_canvas::color::UNIT_MAX;
use easy_canvas::color::byte_to_unit;
use easy_canvas::context::GlError;
use easy_canvas::drawing::Vertex;
use easy_canvas::drawing::blend_over_black;
use easy_canvas::drawing::mul_unit;
use easy_canvas::drawing::screen_quad_vertices;

#[test]
fn byte_rgb_normalizes_exactly() {
    // (200, 150, 200) denotes (200/255, 150/255, 200/255, 1): in
    // 1/65535 units that is exactly 257 times each byte.
    let c = (200u8, 150u8, 200u8).normalize();
    assert_eq!(c, Rgba::from_units(200 * 257, 150 * 257, 200 * 257, UNIT_MAX));
    // Cross-multiplied, the fraction is exact: c.r / 65535 == 200 / 255.
    assert_eq!(255 * (c.r as u32), 65535 * 200);
}

#[test]
fn byte_rgba_keeps_its_alpha() {
    let c = (200u8, 150u8, 200u8, 16384u16).normalize();
    assert_eq!(c, Rgba::from_units(200 * 257, 150 * 257, 200 * 257, 16384));
}

#[test]
fn normalized_color_is_already_normal() {
    let c = Rgba::from_units(1, 2, 3, 4);
    assert_eq!(c.normalize(), c);
}

#[test]
fn byte_bounds_map_to_unit_bounds() {
    assert_eq!(byte_to_unit(0), 0);
    assert_eq!(byte_to_unit(255), UNIT_MAX);
    assert_eq!(Rgba::black(), Rgba::from_units(0, 0, 0, UNIT_MAX));
    assert_eq!(Rgba::transparent(), Rgba::from_units(0, 0, 0, 0));
}

#[test]
fn unit_multiplication_is_exact_at_the_corners() {
    assert_eq!(mul_unit(UNIT_MAX, UNIT_MAX), UNIT_MAX);
    assert_eq!(mul_unit(UNIT_MAX, 0), 0);
    assert_eq!(mul_unit(0, UNIT_MAX), 0);
    assert_eq!(mul_unit(UNIT_MAX, 32768), 32768);
    // 0.5 * 0.5 rounds down to just under a quarter.
    assert_eq!(mul_unit(32768, 32768), (32768u32 * 32768 / 65535) as u16);
}

#[test]
fn blending_over_black_scales_by_alpha_and_is_opaque() {
    let c = Rgba::from_units(65535, 40000, 0, 32768);
    let b = blend_over_black(c);
    assert_eq!(b.r, 32768);
    assert_eq!(b.g, (40000u32 * 32768 / 65535) as u16);
    assert_eq!(b.b, 0);
    assert_eq!(b.a, UNIT_MAX);
}

#[test]
fn gl_error_codes_map_both_ways() {
    let cases = [
        (0u32, GlError::NO_ERROR),
        (0x0500, GlError::INVALID_ENUM),
        (0x0501, GlError::INVALID_VALUE),
        (0x0502, GlError::INVALID_OPERATION),
        (0x0506, GlError::INVALID_FRAMEBUFFER_OPERATION),
        (0x0505, GlError::OUT_OF_MEMORY),
    ];
    for (code, err) in cases {
        assert_eq!(GlError::from_code(code), Some(err));
        assert_eq!(err.code(), code);
    }
    assert_eq!(GlError::from_code(0x0503), None);
    assert_eq!(GlError::from_code(42), None);
}

#[test]
fn quad_covers_the_device_square_counter_clockwise() {
    let v = screen_quad_vertices();
    assert_eq!(v.len(), 6);
    let corner = |vx: &Vertex| (vx.x, vx.y, vx.u, vx.v);
    assert_eq!(corner(&v[0]), (-1, -1, 0, i16::MAX));
    assert_eq!(corner(&v[1]), (1, -1, i16::MAX, i16::MAX));
    assert_eq!(corner(&v[2]), (1, 1, i16::MAX, 0));
    assert_eq!(corner(&v[3]), (1, 1, i16::MAX, 0));
    assert_eq!(corner(&v[4]), (-1, 1, 0, 0));
    assert_eq!(corner(&v[5]), (-1, -1, 0, i16::MAX));
    // Counter-clockwise winding: positive signed area for both triangles.
    let signed_area = |a: &Vertex, b: &Vertex, c: &Vertex| {
        (b.x - a.x) * (c.y - a.y) - (b.y - a.y) * (c.x - a.x)
    };
    assert!(signed_area(&v[0], &v[1], &v[2]) > 0);
    assert!(signed_area(&v[3], &v[4], &v[5]) > 0);
    // Every vertex is white, so the sampled texture shows unmodified.
    for vx in &v {
        assert_eq!((vx.r, vx.g, vx.b, vx.a), (255, 255, 255, 255));
    }
}
