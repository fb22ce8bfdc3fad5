use celestial_raster::color::Color;
use celestial_raster::fixed::{FxVec3, FxVec4, FX_HALF, FX_ONE};
use celestial_raster::fragment::{CelestialType, Fragment};
use celestial_raster::framebuffer::{blend_add, post_process, Framebuffer, DEPTH_FAR};
use celestial_raster::render::draw_fragment;
use celestial_raster::triangle::triangle;
use celestial_raster::vertex::Vertex;

fn fragment_at(x: i64, y: i64, depth: i64) -> Fragment {
    Fragment::new(
        x,
        y,
        Color::new(0, 0, 0),
        depth,
        FxVec3::new(0, 0, FX_ONE),
        FX_ONE,
        FxVec4::new(0, 0, 0, FX_ONE),
        CelestialType::Moon,
    )
}

#[test]
fn blend_add_saturates_instead_of_wrapping() {
    // base (250, 0, 0) + emissive (10, 0, 0) saturates to (255, 0, 0).
    let base = Color::new(250, 0, 0).to_hex();
    let emissive = Color::new(10, 0, 0).to_hex();
    assert_eq!(blend_add(base, emissive), Color::new(255, 0, 0).to_hex());
}

#[test]
fn blend_add_exact_when_no_channel_overflows() {
    let base = Color::new(100, 20, 3).to_hex();
    let emissive = Color::new(50, 200, 252).to_hex();
    assert_eq!(blend_add(base, emissive), Color::new(150, 220, 255).to_hex());
}

#[test]
fn blend_add_all_channels_saturate() {
    let white = Color::new(255, 255, 255).to_hex();
    assert_eq!(blend_add(white, white), white);
}

#[test]
fn color_packing_round_trip() {
    let c = Color::new(0xAB, 0xCD, 0xEF);
    assert_eq!(c.to_hex(), 0x00ABCDEF);
}

#[test]
fn color_lerp_midpoint() {
    let a = Color::new(100, 0, 255);
    let b = Color::new(200, 50, 5);
    let mid = a.lerp(&b, FX_HALF);
    assert_eq!(mid, Color::new(150, 25, 130));
}

#[test]
fn color_scale_saturates_at_white() {
    let c = Color::new(200, 10, 0);
    assert_eq!(c.scale(2 * FX_ONE), Color::new(255, 20, 0));
    assert_eq!(c.scale(0), Color::new(0, 0, 0));
}

#[test]
fn color_blend_subtract_saturates_at_black() {
    let c = Color::new(97, 77, 63);
    let d = c.blend_subtract(&Color::new(50, 50, 100));
    assert_eq!(d, Color::new(47, 27, 0));
}

#[test]
fn clear_resets_all_three_buffers() {
    let mut fb = Framebuffer::new(4, 3);
    fb.set_background_color(0x123456);
    fb.set_current_color(0xFFFFFF);
    fb.point(1, 1, 0, false);
    fb.clear();
    for i in 0..12 {
        assert_eq!(fb.buffer[i], 0x123456);
        assert_eq!(fb.emissive_buffer[i], 0);
        assert_eq!(fb.zbuffer[i], DEPTH_FAR);
    }
}

#[test]
fn point_depth_test_is_strict() {
    let mut fb = Framebuffer::new(2, 2);
    fb.clear();
    fb.set_current_color(0x0000FF);
    fb.point(0, 0, 100, false);
    assert_eq!(fb.buffer[0], 0x0000FF);
    // An equal depth loses the test.
    fb.set_current_color(0x00FF00);
    fb.point(0, 0, 100, false);
    assert_eq!(fb.buffer[0], 0x0000FF);
    // A strictly nearer depth wins.
    fb.point(0, 0, 99, false);
    assert_eq!(fb.buffer[0], 0x00FF00);
}

#[test]
fn point_out_of_bounds_changes_nothing() {
    let mut fb = Framebuffer::new(2, 2);
    fb.clear();
    fb.set_current_color(0xFF0000);
    fb.point(2, 0, 0, false);
    fb.point(0, 2, 0, true);
    for i in 0..4 {
        assert_eq!(fb.buffer[i], 0);
        assert_eq!(fb.emissive_buffer[i], 0);
        assert_eq!(fb.zbuffer[i], DEPTH_FAR);
    }
}

#[test]
fn emissive_writes_go_to_the_emissive_buffer_only() {
    let mut fb = Framebuffer::new(2, 1);
    fb.clear();
    fb.set_current_color(0x00FF00);
    fb.point(0, 0, 10, true);
    assert_eq!(fb.buffer[0], 0);
    assert_eq!(fb.emissive_buffer[0], 0x00FF00);
    assert_eq!(fb.zbuffer[0], 10);
}

#[test]
fn depth_test_nearest_wins_regardless_of_draw_order() {
    // Two overlapping writes with depths d1 < d2 at one pixel: the final
    // color reflects d1 in both draw orders.
    let d1: i64 = 100;
    let d2: i64 = 200;
    let near = Color::new(10, 20, 30);
    let far = Color::new(200, 100, 50);

    let mut fb_near_first = Framebuffer::new(2, 2);
    fb_near_first.clear();
    draw_fragment(&mut fb_near_first, &fragment_at(1, 1, d1), near, false);
    draw_fragment(&mut fb_near_first, &fragment_at(1, 1, d2), far, false);

    let mut fb_far_first = Framebuffer::new(2, 2);
    fb_far_first.clear();
    draw_fragment(&mut fb_far_first, &fragment_at(1, 1, d2), far, false);
    draw_fragment(&mut fb_far_first, &fragment_at(1, 1, d1), near, false);

    let idx = 1 * 2 + 1;
    assert_eq!(fb_near_first.buffer[idx], near.to_hex());
    assert_eq!(fb_far_first.buffer[idx], near.to_hex());
    assert_eq!(fb_near_first.zbuffer[idx], d1);
    assert_eq!(fb_far_first.zbuffer[idx], d1);
}

#[test]
fn post_process_adds_emissive_onto_lit() {
    let mut fb = Framebuffer::new(2, 1);
    fb.clear();
    fb.set_current_color(Color::new(250, 0, 7).to_hex());
    fb.point(0, 0, 1, false);
    fb.set_current_color(Color::new(10, 3, 250).to_hex());
    fb.point(0, 0, 0, true);
    post_process(&mut fb);
    assert_eq!(fb.buffer[0], Color::new(255, 3, 255).to_hex());
    assert_eq!(fb.buffer[1], 0);
}

#[test]
fn offscreen_bounding_box_retains_nothing() {
    // A triangle whose bounding box lies entirely outside the target:
    // every fragment is filtered by the bounds check.
    let mut v1 = Vertex::new(FxVec3::new(0, 0, 0), FxVec3::new(0, 0, FX_ONE), celestial_raster::fixed::FxVec2::new(0, 0));
    let mut v2 = v1;
    let mut v3 = v1;
    v1.transformed_position = FxVec3::new(-10 * FX_ONE, -10 * FX_ONE, 0);
    v2.transformed_position = FxVec3::new(-2 * FX_ONE, -10 * FX_ONE, 0);
    v3.transformed_position = FxVec3::new(-10 * FX_ONE, -2 * FX_ONE, 0);
    v1.transformed_normal = FxVec3::new(0, 0, FX_ONE);
    v2.transformed_normal = FxVec3::new(0, 0, FX_ONE);
    v3.transformed_normal = FxVec3::new(0, 0, FX_ONE);
    let frags = triangle(&v1, &v2, &v3, CelestialType::Planet);
    assert!(!frags.is_empty());
    let mut fb = Framebuffer::new(8, 8);
    fb.clear();
    for f in frags.iter() {
        draw_fragment(&mut fb, f, Color::new(255, 255, 255), false);
    }
    for i in 0..64 {
        assert_eq!(fb.buffer[i], 0);
        assert_eq!(fb.emissive_buffer[i], 0);
        assert_eq!(fb.zbuffer[i], DEPTH_FAR);
    }
}
