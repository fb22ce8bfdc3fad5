use celestial_raster::color::Color;
use celestial_raster::fixed::{
    div_trunc, fx_ceil, fx_clamp, fx_floor, fx_mul, fx_normalize3, isqrt, FxVec2, FxVec3,
    FX_HALF, FX_ONE,
};
use celestial_raster::fragment::{CelestialType, Fragment};
use celestial_raster::render::assemble_triangles;
use celestial_raster::triangle::{
    barycentric_coordinates, calculate_bounding_box, edge_function, triangle,
};
use celestial_raster::vertex::Vertex;

fn screen_vertex(x: i64, y: i64, z: i64) -> Vertex {
    let mut v = Vertex::new(
        FxVec3::new(0, 0, 0),
        FxVec3::new(0, 0, FX_ONE),
        FxVec2::new(0, 0),
    );
    v.transformed_position = FxVec3::new(x, y, z);
    v.transformed_normal = FxVec3::new(0, 0, FX_ONE);
    v
}

#[test]
fn fixed_point_division_rounds_toward_zero() {
    assert_eq!(div_trunc(7, 2), 3);
    assert_eq!(div_trunc(-7, 2), -3);
    assert_eq!(div_trunc(7, -2), -3);
    assert_eq!(div_trunc(-7, -2), 3);
    assert_eq!(div_trunc(0, 5), 0);
}

#[test]
fn fixed_point_floor_and_ceil() {
    assert_eq!(fx_floor(3 * FX_ONE + 1), 3);
    assert_eq!(fx_floor(-3 * FX_ONE - 1), -4);
    assert_eq!(fx_floor(-3 * FX_ONE), -3);
    assert_eq!(fx_ceil(3 * FX_ONE + 1), 4);
    assert_eq!(fx_ceil(-3 * FX_ONE - 1), -3);
    assert_eq!(fx_ceil(5 * FX_ONE), 5);
}

#[test]
fn fixed_point_multiply_examples() {
    assert_eq!(fx_mul(FX_ONE, FX_ONE), FX_ONE);
    assert_eq!(fx_mul(FX_HALF, FX_HALF), FX_ONE / 4);
    assert_eq!(fx_mul(-FX_HALF, FX_HALF), -(FX_ONE / 4));
    assert_eq!(fx_mul(3 * FX_ONE, 2 * FX_ONE), 6 * FX_ONE);
}

#[test]
fn integer_square_root_examples() {
    assert_eq!(isqrt(0), 0);
    assert_eq!(isqrt(1), 1);
    assert_eq!(isqrt(3), 1);
    assert_eq!(isqrt(4), 2);
    assert_eq!(isqrt(65536 * 65536), 65536);
    assert_eq!(isqrt(65536u64 * 65536 - 1), 65535);
}

#[test]
fn normalize_keeps_axis_vectors_exact() {
    let v = FxVec3::new(5 * FX_ONE, 0, 0);
    let n = fx_normalize3(&v);
    assert_eq!(n, FxVec3::new(FX_ONE, 0, 0));
    let zero = fx_normalize3(&FxVec3::new(0, 0, 0));
    assert_eq!(zero, FxVec3::new(0, 0, 0));
}

#[test]
fn clamp_examples() {
    assert_eq!(fx_clamp(5, 0, 10), 5);
    assert_eq!(fx_clamp(-5, 0, 10), 0);
    assert_eq!(fx_clamp(15, 0, 10), 10);
}

#[test]
fn edge_function_of_axis_aligned_triangle() {
    let a = FxVec3::new(0, 0, 0);
    let b = FxVec3::new(4 * FX_ONE, 0, 0);
    let c = FxVec3::new(0, 4 * FX_ONE, 0);
    let area = edge_function(&a, &b, &c);
    assert_eq!(area, -16 * FX_ONE * FX_ONE);
}

#[test]
fn bounding_box_of_axis_aligned_triangle() {
    let a = FxVec3::new(0, 0, 0);
    let b = FxVec3::new(4 * FX_ONE, 0, 0);
    let c = FxVec3::new(0, 4 * FX_ONE, 0);
    let bbox = calculate_bounding_box(&a, &b, &c);
    assert_eq!(bbox, (0, 0, 4, 4));
}

#[test]
fn barycentric_weights_sum_to_one_inside() {
    // The scenario triangle: screen vertices (0,0), (4,0), (0,4) with the
    // pixel center (1.5, 1.5) well inside the hypotenuse.
    let a = FxVec3::new(0, 0, FX_HALF);
    let b = FxVec3::new(4 * FX_ONE, 0, FX_HALF);
    let c = FxVec3::new(0, 4 * FX_ONE, FX_HALF);
    let area = edge_function(&a, &b, &c);
    let p = FxVec3::new(FX_ONE + FX_HALF, FX_ONE + FX_HALF, 0);
    let (w1, w2, w3) = barycentric_coordinates(&p, &a, &b, &c, area);
    assert_eq!(w1, 16384); // 0.25
    assert_eq!(w2, 24576); // 0.375
    assert_eq!(w3, 24576); // 0.375
    let sum = w1 + w2 + w3;
    // Within one part in a thousand of 1.0.
    assert!(1000 * sum > 999 * (FX_ONE as i128));
    assert!(1000 * sum < 1001 * (FX_ONE as i128));
}

#[test]
fn right_triangle_keeps_inside_pixel_and_rejects_outside_pixel() {
    // Screen vertices (0,0,0.5), (4,0,0.5), (0,4,0.5): pixel (1,1) is
    // covered, pixel (3,3) lies outside the hypotenuse.
    let v1 = screen_vertex(0, 0, FX_HALF);
    let v2 = screen_vertex(4 * FX_ONE, 0, FX_HALF);
    let v3 = screen_vertex(0, 4 * FX_ONE, FX_HALF);
    let frags = triangle(&v1, &v2, &v3, CelestialType::Moon);
    assert!(!frags.is_empty());
    let mut saw_1_1 = false;
    for f in frags.iter() {
        assert!(f.position.x != 3 || f.position.y != 3);
        assert_eq!(f.celestial_type, CelestialType::Moon);
        // Constant input depth 0.5 interpolates to 0.5 within rounding.
        assert!((f.depth - FX_HALF).abs() <= 3);
        if f.position.x == 1 && f.position.y == 1 {
            saw_1_1 = true;
        }
    }
    assert!(saw_1_1);
}

#[test]
fn rasterizer_emits_each_pixel_at_most_once() {
    let v1 = screen_vertex(0, 0, 0);
    let v2 = screen_vertex(6 * FX_ONE, 0, 0);
    let v3 = screen_vertex(0, 6 * FX_ONE, 0);
    let frags = triangle(&v1, &v2, &v3, CelestialType::Planet);
    assert!(!frags.is_empty());
    for i in 0..frags.len() {
        for j in (i + 1)..frags.len() {
            assert!(
                frags[i].position.x != frags[j].position.x
                    || frags[i].position.y != frags[j].position.y
            );
        }
    }
}

#[test]
fn degenerate_triangle_emits_no_fragments() {
    // All three vertices on one line: the signed area is exactly zero.
    let v1 = screen_vertex(0, 0, 0);
    let v2 = screen_vertex(2 * FX_ONE, 2 * FX_ONE, 0);
    let v3 = screen_vertex(4 * FX_ONE, 4 * FX_ONE, 0);
    let frags = triangle(&v1, &v2, &v3, CelestialType::Comet);
    assert_eq!(frags.len(), 0);
}

#[test]
fn triangle_interpolates_normals_and_intensity() {
    let v1 = screen_vertex(0, 0, 0);
    let v2 = screen_vertex(4 * FX_ONE, 0, 0);
    let v3 = screen_vertex(0, 4 * FX_ONE, 0);
    let frags = triangle(&v1, &v2, &v3, CelestialType::Star);
    assert!(!frags.is_empty());
    for f in frags.iter() {
        // All vertex normals point along +z, so every interpolated normal
        // is +z and the provisional intensity is exactly 1.0.
        assert_eq!(f.normal, FxVec3::new(0, 0, FX_ONE));
        assert_eq!(f.intensity, FX_ONE);
        // The provisional color is the base gray at full intensity.
        assert_eq!(f.color, Color::new(100, 100, 100));
    }
}

#[test]
fn assemble_triangles_groups_in_threes_and_drops_remainder() {
    let mut vs: Vec<Vertex> = Vec::new();
    for k in 0..7 {
        vs.push(screen_vertex(k * FX_ONE, 0, 0));
    }
    let tris = assemble_triangles(&vs);
    assert_eq!(tris.len(), 2);
    assert_eq!(tris[0].0.transformed_position.x, 0);
    assert_eq!(tris[0].1.transformed_position.x, FX_ONE);
    assert_eq!(tris[0].2.transformed_position.x, 2 * FX_ONE);
    assert_eq!(tris[1].0.transformed_position.x, 3 * FX_ONE);
    assert_eq!(tris[1].2.transformed_position.x, 5 * FX_ONE);
}

#[test]
fn fragment_new_fills_all_fields() {
    let f = Fragment::new(
        3,
        4,
        Color::new(1, 2, 3),
        77,
        FxVec3::new(0, 0, FX_ONE),
        FX_ONE,
        celestial_raster::fixed::FxVec4::new(1, 2, 3, FX_ONE),
        CelestialType::Rings,
    );
    assert_eq!(f.position, FxVec2 { x: 3, y: 4 });
    assert_eq!(f.color, Color::new(1, 2, 3));
    assert_eq!(f.depth, 77);
    assert_eq!(f.intensity, FX_ONE);
    assert_eq!(f.celestial_type, CelestialType::Rings);
}
