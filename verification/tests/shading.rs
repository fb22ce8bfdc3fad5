use celestial_raster::color::Color;
use celestial_raster::fixed::{FxVec3, FxVec4, FX_HALF, FX_ONE};
use celestial_raster::fragment::{CelestialType, Fragment};
use celestial_raster::matrix::{create_model_matrix, create_viewport_matrix, mat4_identity,
    normal_matrix_of, FxMat3, FxMat4};
use celestial_raster::shaders::{
    atmosphere_shader, comet_shader, fragment_shader, gas_giant_shader, mars_shader, moon_shader,
    ringed_shader, rings_shader, rocky_planet_shader, rocky_planet_shader2, sample_request,
    star_shader, vertex_shader, Samples,
};
use celestial_raster::uniforms::{uniforms_within_bounds, Uniforms};
use celestial_raster::vertex::Vertex;

fn test_uniforms() -> Uniforms {
    Uniforms::new(
        mat4_identity(),
        mat4_identity(),
        mat4_identity(),
        create_viewport_matrix(800 * FX_ONE, 600 * FX_ONE),
        0,                            // time
        FxVec3::new(0, 0, FX_ONE),    // light direction
        3 * FX_ONE,                   // noise scale
        -19661,                       // ocean threshold (-0.3)
        42598,                        // continent threshold (0.65)
        13107,                        // mountain threshold (0.2)
        58982,                        // snow threshold (0.9)
        72090,                        // ring inner radius (1.1)
        5 * FX_ONE,                   // ring outer radius
        Color::new(255, 255, 255),    // ring color
        FX_HALF,                      // ring opacity (0.5)
        50 * FX_ONE,                  // ring frequency
        FX_HALF,                      // ring wave speed
        mat4_identity(),              // ring rotation
        FX_ONE,                       // spin cos
        0,                            // spin sin
        0,                            // wave sin
    )
}

fn shade_fragment(x: i64, y: i64, position: FxVec4, ct: CelestialType) -> Fragment {
    Fragment::new(
        x,
        y,
        Color::new(0, 0, 0),
        FX_HALF,
        FxVec3::new(0, 0, FX_ONE),
        FX_ONE,
        position,
        ct,
    )
}

#[test]
fn uniforms_pass_their_bounds_check() {
    let u = test_uniforms();
    assert!(uniforms_within_bounds(&u));
    let mut bad = test_uniforms();
    bad.ring_opacity = -1;
    assert!(!uniforms_within_bounds(&bad));
}

#[test]
fn star_shader_interpolates_between_the_two_hues() {
    let u = test_uniforms();
    let f = shade_fragment(0, 0, FxVec4::new(0, 0, 0, FX_ONE), CelestialType::Star);
    // Noise at the low end, the midpoint, and the high end.
    assert_eq!(star_shader(&f, &u, -FX_ONE), (Color::new(253, 46, 4), true));
    assert_eq!(star_shader(&f, &u, 0), (Color::new(251, 71, 8), true));
    assert_eq!(star_shader(&f, &u, FX_ONE), (Color::new(248, 96, 13), true));
}

#[test]
fn star_shader_output_stays_between_the_hues() {
    let u = test_uniforms();
    let f = shade_fragment(0, 0, FxVec4::new(0, 0, 0, FX_ONE), CelestialType::Star);
    let mut noise: i64 = -FX_ONE;
    while noise <= FX_ONE {
        let (c, emissive) = star_shader(&f, &u, noise);
        assert!(emissive);
        assert!(248 <= c.r && c.r <= 253);
        assert!(46 <= c.g && c.g <= 96);
        assert!(4 <= c.b && c.b <= 13);
        noise += 4096;
    }
}

#[test]
fn terrain_classification_picks_the_palette_colors() {
    let u = test_uniforms();
    let f = shade_fragment(0, 0, FxVec4::new(0, 0, 0, FX_ONE), CelestialType::Planet);
    // No clouds (below threshold), full light, no halo at the origin.
    let quiet = -FX_ONE;
    assert_eq!(
        rocky_planet_shader(&f, &u, -30000, quiet, quiet),
        (Color::new(10, 115, 252), false)
    );
    assert_eq!(
        rocky_planet_shader(&f, &u, 0, quiet, quiet),
        (Color::new(97, 77, 63), false)
    );
    assert_eq!(
        rocky_planet_shader(&f, &u, 20000, quiet, quiet),
        (Color::new(34, 139, 34), false)
    );
    // Above the continent threshold: high ground, mountain minus gray.
    assert_eq!(
        rocky_planet_shader(&f, &u, 50000, quiet, quiet),
        (Color::new(47, 27, 13), false)
    );
}

#[test]
fn terrain_snow_layer_blends_toward_snow() {
    let mut u = test_uniforms();
    u.snow_threshold = 0;
    let f = shade_fragment(0, 0, FxVec4::new(0, 0, 0, FX_ONE), CelestialType::Planet);
    // Terrain noise 0.5: continent base, half-blended toward snow.
    let r = rocky_planet_shader(&f, &u, FX_HALF, -FX_ONE, -FX_ONE);
    assert_eq!(r, (Color::new(144, 194, 142), false));
}

#[test]
fn terrain_cloud_overlay_whitens_fully_at_max_noise() {
    let u = test_uniforms();
    let f = shade_fragment(0, 0, FxVec4::new(0, 0, 0, FX_ONE), CelestialType::Planet);
    let r = rocky_planet_shader(&f, &u, -30000, FX_ONE, -FX_ONE);
    assert_eq!(r, (Color::new(255, 255, 255), false));
}

#[test]
fn terrain_variants_use_their_own_palettes() {
    let u = test_uniforms();
    let f = shade_fragment(0, 0, FxVec4::new(0, 0, 0, FX_ONE), CelestialType::Planet2);
    let quiet = -FX_ONE;
    assert_eq!(
        rocky_planet_shader2(&f, &u, -30000, quiet, quiet),
        (Color::new(65, 199, 240), false)
    );
    assert_eq!(
        mars_shader(&f, &u, -30000, quiet, quiet),
        (Color::new(125, 50, 41), false)
    );
}

#[test]
fn gas_giant_bands_between_two_hues() {
    let u = test_uniforms();
    let f = shade_fragment(0, 0, FxVec4::new(0, 0, 0, FX_ONE), CelestialType::GasGiant);
    // Band sine at the top: fully the second band hue; no storm, no halo.
    assert_eq!(
        gas_giant_shader(&f, &u, FX_ONE, 0, -FX_ONE),
        (Color::new(150, 100, 50), false)
    );
    // Band sine at the bottom: fully the first band hue.
    assert_eq!(
        gas_giant_shader(&f, &u, -FX_ONE, 0, -FX_ONE),
        (Color::new(200, 160, 100), false)
    );
}

#[test]
fn gas_giant_storm_overlay_reaches_full_storm_color() {
    let u = test_uniforms();
    let f = shade_fragment(0, 0, FxVec4::new(0, 0, 0, FX_ONE), CelestialType::GasGiant);
    let r = gas_giant_shader(&f, &u, FX_ONE, FX_ONE, -FX_ONE);
    assert_eq!(r, (Color::new(255, 69, 0), false));
}

#[test]
fn ringed_shader_banding_at_zero_sine() {
    let u = test_uniforms();
    let f = shade_fragment(0, 0, FxVec4::new(0, 0, 0, FX_ONE), CelestialType::Ringed);
    assert_eq!(ringed_shader(&f, &u, 0), (Color::new(201, 157, 122), false));
}

#[test]
fn rings_inside_annulus_scaled_by_opacity() {
    // Polar radius 2.0 after the (identity) ring rotation: inside
    // [1.1, 5.0], so a band color scaled by the 0.5 ring opacity.
    let u = test_uniforms();
    let f = shade_fragment(0, 0, FxVec4::new(2 * FX_ONE, 0, 0, FX_ONE), CelestialType::Rings);
    let (c, emissive) = rings_shader(&f, &u, 0);
    assert!(!emissive);
    assert_eq!(c, Color::new(102, 107, 113));
    assert!(c.r > 0 && c.g > 0 && c.b > 0);
}

#[test]
fn rings_respect_the_configured_radii() {
    // With the inner radius raised to 2.0, a fragment at polar radius 1.5
    // now falls inside the hole and must be black.
    let mut u = test_uniforms();
    u.ring_inner_radius = 2 * FX_ONE;
    let f = shade_fragment(
        0,
        0,
        FxVec4::new(FX_ONE + FX_HALF, 0, 0, FX_ONE),
        CelestialType::Rings,
    );
    assert_eq!(rings_shader(&f, &u, 0), (Color::new(0, 0, 0), false));
    // Lowering it back below 1.5 restores the banded color.
    u.ring_inner_radius = FX_ONE;
    let (c, emissive) = rings_shader(&f, &u, 0);
    assert!(!emissive);
    assert!(c.r > 0 && c.g > 0 && c.b > 0);
}

#[test]
fn rings_are_tinted_by_the_ring_color() {
    // A half-gray ring color halves each band channel before the opacity
    // scaling; white is the identity tint.
    let mut u = test_uniforms();
    u.ring_color = Color::new(128, 128, 128);
    let f = shade_fragment(0, 0, FxVec4::new(2 * FX_ONE, 0, 0, FX_ONE), CelestialType::Rings);
    assert_eq!(rings_shader(&f, &u, 0), (Color::new(51, 53, 56), false));
}

#[test]
fn rings_outside_annulus_are_black() {
    // Polar radius 0.8 is inside the inner radius 1.1: fully transparent.
    let u = test_uniforms();
    let f = shade_fragment(0, 0, FxVec4::new(52429, 0, 0, FX_ONE), CelestialType::Rings);
    assert_eq!(rings_shader(&f, &u, 0), (Color::new(0, 0, 0), false));
    // Polar radius 6.0 is outside the outer radius 5.0.
    let g = shade_fragment(0, 0, FxVec4::new(6 * FX_ONE, 0, 0, FX_ONE), CelestialType::Rings);
    assert_eq!(rings_shader(&g, &u, 0), (Color::new(0, 0, 0), false));
}

#[test]
fn moon_spots_darken_the_base_gray() {
    let u = test_uniforms();
    let f = shade_fragment(0, 0, FxVec4::new(0, 0, 0, FX_ONE), CelestialType::Moon);
    // Noise at the bottom of the range: the deepest spot.
    assert_eq!(moon_shader(&f, &u, -FX_ONE), (Color::new(50, 50, 50), false));
    // Noise above the spot threshold: the plain base gray.
    assert_eq!(moon_shader(&f, &u, FX_ONE), (Color::new(169, 169, 169), false));
}

#[test]
fn comet_shadow_texture() {
    let u = test_uniforms();
    let f = shade_fragment(0, 0, FxVec4::new(0, 0, 0, FX_ONE), CelestialType::Comet);
    // Normalized noise 0.5 is below the shadow threshold 0.7.
    assert_eq!(comet_shader(&f, &u, 0), (Color::new(138, 135, 135), false));
}

#[test]
fn atmosphere_band_uses_the_radial_distance() {
    // The halo test is on the 3D distance from the body center: a point at
    // z = 1.3 has radial distance 1.3, inside the (1.2, 1.4) band, even
    // though its x,y-plane radius is zero.
    let u = test_uniforms();
    let f = shade_fragment(
        0,
        0,
        FxVec4::new(0, 0, 85197, FX_ONE),
        CelestialType::Atmosphere,
    );
    assert_eq!(
        atmosphere_shader(&f, &u, FX_ONE),
        (Color::new(135, 206, 235), false)
    );
}

#[test]
fn atmosphere_band_test() {
    let u = test_uniforms();
    // Radius 1.25 lies in the (1.2, 1.4) halo band.
    let inside = shade_fragment(
        0,
        0,
        FxVec4::new(81920, 0, 0, FX_ONE),
        CelestialType::Atmosphere,
    );
    assert_eq!(
        atmosphere_shader(&inside, &u, -FX_ONE),
        (Color::new(135, 206, 235), false)
    );
    // Radius 0.5 lies inside the band: black.
    let outside = shade_fragment(
        0,
        0,
        FxVec4::new(FX_HALF, 0, 0, FX_ONE),
        CelestialType::Atmosphere,
    );
    assert_eq!(atmosphere_shader(&outside, &u, FX_ONE), (Color::new(0, 0, 0), false));
}

#[test]
fn dispatch_routes_each_tag_to_its_variant() {
    let u = test_uniforms();
    let samples = Samples {
        terrain_noise: 0,
        overlay_noise: -FX_ONE,
        halo_noise: -FX_ONE,
        band_sin: FX_ONE,
        pattern_sin: 0,
    };
    let star = shade_fragment(0, 0, FxVec4::new(0, 0, 0, FX_ONE), CelestialType::Star);
    assert_eq!(fragment_shader(&star, &u, &samples), star_shader(&star, &u, 0));
    let gas = shade_fragment(0, 0, FxVec4::new(0, 0, 0, FX_ONE), CelestialType::GasGiant);
    assert_eq!(
        fragment_shader(&gas, &u, &samples),
        gas_giant_shader(&gas, &u, FX_ONE, -FX_ONE, -FX_ONE)
    );
    let moon = shade_fragment(0, 0, FxVec4::new(0, 0, 0, FX_ONE), CelestialType::Moon);
    assert_eq!(fragment_shader(&moon, &u, &samples), moon_shader(&moon, &u, -FX_ONE));
}

#[test]
fn sample_request_scales_the_sample_points() {
    let u = test_uniforms();
    let star = shade_fragment(
        0,
        0,
        FxVec4::new(FX_ONE, 2 * FX_ONE, 3 * FX_ONE, FX_ONE),
        CelestialType::Star,
    );
    let req = sample_request(&star, &u);
    assert_eq!(req.terrain_point, FxVec3::new(150 * FX_ONE, 300 * FX_ONE, 450 * FX_ONE));
    let moon = shade_fragment(
        0,
        0,
        FxVec4::new(FX_ONE, 2 * FX_ONE, 0, FX_ONE),
        CelestialType::Moon,
    );
    let mreq = sample_request(&moon, &u);
    assert_eq!(mreq.overlay_point.x, 10 * FX_ONE);
    assert_eq!(mreq.overlay_point.y, 20 * FX_ONE);
    let rings = shade_fragment(
        0,
        0,
        FxVec4::new(2 * FX_ONE, 0, 0, FX_ONE),
        CelestialType::Rings,
    );
    let rreq = sample_request(&rings, &u);
    assert_eq!(rreq.pattern_angle, 50 * 2 * FX_ONE);
}

#[test]
fn vertex_shader_uniform_scale_maps_through_the_viewport() {
    let mut u = test_uniforms();
    u.model_matrix = create_model_matrix(
        FxVec3::new(0, 0, 0),
        2 * FX_ONE,
        FxVec3::new(0, 0, 0),
        FxVec3::new(FX_ONE, FX_ONE, FX_ONE),
    );
    let v = Vertex::new(
        FxVec3::new(FX_ONE / 4, FX_ONE / 8, 0),
        FxVec3::new(FX_ONE, FX_ONE, FX_ONE),
        celestial_raster::fixed::FxVec2::new(0, 0),
    );
    let out = vertex_shader(&v, &u).expect("vertex in front of the camera");
    // NDC (0.5, 0.25, 0) maps to pixel (600, 225) with depth 0.
    assert_eq!(out.transformed_position, FxVec3::new(600 * FX_ONE, 225 * FX_ONE, 0));
    // Normal transform under a pure uniform scale keeps the direction:
    // cosine similarity of the transformed and original normals is 1.
    let a = v.normal;
    let b = out.transformed_normal;
    let dot = (a.x * b.x + a.y * b.y + a.z * b.z) as f64;
    let mag_a = ((a.x * a.x + a.y * a.y + a.z * a.z) as f64).sqrt();
    let mag_b = ((b.x * b.x + b.y * b.y + b.z * b.z) as f64).sqrt();
    let cosine = dot / (mag_a * mag_b);
    assert!(cosine > 0.999);
}

#[test]
fn vertex_shader_discards_vertices_behind_the_camera() {
    let mut u = test_uniforms();
    // A projection whose w row reads -z: positive z lands behind the
    // camera plane and must be discarded.
    let mut p = mat4_identity();
    p.m32 = -FX_ONE;
    p.m33 = 0;
    u.projection_matrix = p;
    let behind = Vertex::new(
        FxVec3::new(0, 0, FX_ONE),
        FxVec3::new(0, 0, FX_ONE),
        celestial_raster::fixed::FxVec2::new(0, 0),
    );
    assert!(vertex_shader(&behind, &u).is_none());
    let in_front = Vertex::new(
        FxVec3::new(0, 0, -FX_ONE),
        FxVec3::new(0, 0, FX_ONE),
        celestial_raster::fixed::FxVec2::new(0, 0),
    );
    assert!(vertex_shader(&in_front, &u).is_some());
}

#[test]
fn normal_matrix_inverts_a_uniform_scale() {
    let m = FxMat3 {
        m00: 2 * FX_ONE,
        m01: 0,
        m02: 0,
        m10: 0,
        m11: 2 * FX_ONE,
        m12: 0,
        m20: 0,
        m21: 0,
        m22: 2 * FX_ONE,
    };
    let nm = normal_matrix_of(&m);
    assert_eq!(nm.m00, FX_HALF);
    assert_eq!(nm.m11, FX_HALF);
    assert_eq!(nm.m22, FX_HALF);
    assert_eq!(nm.m01, 0);
    assert_eq!(nm.m12, 0);
}

#[test]
fn normal_matrix_singular_falls_back_to_identity() {
    let m = FxMat3 { m00: 0, m01: 0, m02: 0, m10: 0, m11: 0, m12: 0, m20: 0, m21: 0, m22: 0 };
    let nm = normal_matrix_of(&m);
    assert_eq!(nm.m00, FX_ONE);
    assert_eq!(nm.m11, FX_ONE);
    assert_eq!(nm.m22, FX_ONE);
    assert_eq!(nm.m10, 0);
}

#[test]
fn model_matrix_without_rotation_is_scale_and_translate() {
    let m: FxMat4 = create_model_matrix(
        FxVec3::new(3 * FX_ONE, -2 * FX_ONE, FX_ONE),
        3 * FX_ONE,
        FxVec3::new(0, 0, 0),
        FxVec3::new(FX_ONE, FX_ONE, FX_ONE),
    );
    assert_eq!(m.m00, 3 * FX_ONE);
    assert_eq!(m.m11, 3 * FX_ONE);
    assert_eq!(m.m22, 3 * FX_ONE);
    assert_eq!(m.m03, 3 * FX_ONE);
    assert_eq!(m.m13, -2 * FX_ONE);
    assert_eq!(m.m23, FX_ONE);
    assert_eq!(m.m33, FX_ONE);
    assert_eq!(m.m01, 0);
}

#[test]
fn viewport_matrix_halves_and_flips() {
    let vp = create_viewport_matrix(800 * FX_ONE, 600 * FX_ONE);
    assert_eq!(vp.m00, 400 * FX_ONE);
    assert_eq!(vp.m03, 400 * FX_ONE);
    assert_eq!(vp.m11, -300 * FX_ONE);
    assert_eq!(vp.m13, 300 * FX_ONE);
    assert_eq!(vp.m22, FX_ONE);
    assert_eq!(vp.m33, FX_ONE);
}
