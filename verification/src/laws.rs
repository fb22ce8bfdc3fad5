//! Pipeline-wide laws, proved over the same spec functions the stage
//! contracts use.

use crate::camera::{PITCH_MAX_FX, PITCH_MIN_FX};
use crate::color::{lemma_lerp_channel_between, pack_rgb};
use crate::fixed::{
    clamp_spec, fx_div_spec, fx_mul_spec, int_abs, lemma_trunc_div_bound, lemma_trunc_div_cap,
    trunc_div, IVec3, FX_HALF, FX_ONE,
};
use crate::fragment::Fragment;
use crate::framebuffer::{blend_add_spec, blue_of, depth_write, green_of, red_of, sat_add_channel};
use crate::matrix::{
    mat3_cofactor_spec, mat3_det_spec, mat3_vec_spec, normal_matrix_spec, IMat3, NORMAL_MAT_LIMIT,
};
use crate::shaders::{radius2_spec, ring_rotated_spec, rings_shader_spec, star_shader_spec};
use crate::triangle::{
    bbox_max_x, bbox_max_y, bbox_min_x, bbox_min_y, edge_fn, pixel_center, pixel_covered,
    tri_area_spec, w1_spec, w2_spec, w3_spec,
};
use crate::uniforms::Uniforms;
use vstd::arithmetic::div_mod::{lemma_div_is_ordered, lemma_div_pos_is_pos,
    lemma_fundamental_div_mod};
use vstd::prelude::*;

verus! {

/// The three edge values at any point partition the triangle's signed area:
/// their sum is exactly the area, whatever the point.
#[verifier::rlimit(60)]
pub proof fn lemma_edge_sum(a: IVec3, b: IVec3, c: IVec3, px: int, py: int)
    ensures
        edge_fn(b.x, b.y, c.x, c.y, px, py) + edge_fn(c.x, c.y, a.x, a.y, px, py) + edge_fn(
            a.x,
            a.y,
            b.x,
            b.y,
            px,
            py,
        ) == tri_area_spec(a, b, c),
{
    assert((px - b.x) * (c.y - b.y) - (py - b.y) * (c.x - b.x) + ((px - c.x) * (a.y - c.y) - (py
        - c.y) * (a.x - c.x)) + ((px - a.x) * (b.y - a.y) - (py - a.y) * (b.x - a.x)) == (c.x
        - a.x) * (b.y - a.y) - (c.y - a.y) * (b.x - a.x)) by (nonlinear_arith);
}

proof fn lemma_trunc_div_neg(x: int, y: int)
    requires
        y != 0,
    ensures
        trunc_div(x, y) == trunc_div(-x, -y),
{
    if x == 0 {
        vstd::arithmetic::div_mod::lemma_div_of0(int_abs(y));
    }
}

proof fn lemma_nonneg_weights(e1: int, e2: int, e3: int, area: int)
    requires
        area > 0,
        e1 >= 0,
        e2 >= 0,
        e3 >= 0,
        e1 + e2 + e3 == area,
    ensures
        trunc_div(e1 * (FX_ONE as int), area) >= 0,
        trunc_div(e2 * (FX_ONE as int), area) >= 0,
        trunc_div(e3 * (FX_ONE as int), area) >= 0,
        (FX_ONE as int) - 3 < trunc_div(e1 * (FX_ONE as int), area) + trunc_div(
            e2 * (FX_ONE as int),
            area,
        ) + trunc_div(e3 * (FX_ONE as int), area) <= FX_ONE as int,
{
    let s = FX_ONE as int;
    assert(e1 * s >= 0 && e2 * s >= 0 && e3 * s >= 0) by (nonlinear_arith)
        requires
            e1 >= 0 && e2 >= 0 && e3 >= 0 && s > 0,
    ;
    let q1 = trunc_div(e1 * s, area);
    let q2 = trunc_div(e2 * s, area);
    let q3 = trunc_div(e3 * s, area);
    assert(q1 == (e1 * s) / area && q2 == (e2 * s) / area && q3 == (e3 * s) / area);
    lemma_fundamental_div_mod(e1 * s, area);
    lemma_fundamental_div_mod(e2 * s, area);
    lemma_fundamental_div_mod(e3 * s, area);
    lemma_div_pos_is_pos(e1 * s, area);
    lemma_div_pos_is_pos(e2 * s, area);
    lemma_div_pos_is_pos(e3 * s, area);
    assert(e1 * s + e2 * s + e3 * s == area * s) by (nonlinear_arith)
        requires
            e1 + e2 + e3 == area,
    ;
    let r1 = (e1 * s) % area;
    let r2 = (e2 * s) % area;
    let r3 = (e3 * s) % area;
    assert(area * (q1 + q2 + q3) + (r1 + r2 + r3) == area * s) by (nonlinear_arith)
        requires
            e1 * s == area * q1 + r1,
            e2 * s == area * q2 + r2,
            e3 * s == area * q3 + r3,
            e1 * s + e2 * s + e3 * s == area * s,
    ;
    assert(s - 3 < q1 + q2 + q3 <= s) by (nonlinear_arith)
        requires
            area * (q1 + q2 + q3) + (r1 + r2 + r3) == area * s,
            0 <= r1 < area,
            0 <= r2 < area,
            0 <= r3 < area,
            area > 0,
    ;
}

/// For any non-degenerate triangle, a pixel whose three edge values all
/// agree in sign with the signed area -- the inside test -- has nonnegative
/// barycentric weights that sum to one within three fixed-point steps
/// (about 0.00005), and passes the rasterizer's coverage test.
pub proof fn lemma_interior_weights_sum(a: IVec3, b: IVec3, c: IVec3, x: int, y: int)
    requires
        tri_area_spec(a, b, c) != 0,
        edge_fn(b.x, b.y, c.x, c.y, pixel_center(x), pixel_center(y)) * tri_area_spec(a, b, c)
            >= 0,
        edge_fn(c.x, c.y, a.x, a.y, pixel_center(x), pixel_center(y)) * tri_area_spec(a, b, c)
            >= 0,
        edge_fn(a.x, a.y, b.x, b.y, pixel_center(x), pixel_center(y)) * tri_area_spec(a, b, c)
            >= 0,
    ensures
        w1_spec(a, b, c, x, y) >= 0,
        w2_spec(a, b, c, x, y) >= 0,
        w3_spec(a, b, c, x, y) >= 0,
        (FX_ONE as int) - 3 < w1_spec(a, b, c, x, y) + w2_spec(a, b, c, x, y) + w3_spec(
            a,
            b,
            c,
            x,
            y,
        ) <= FX_ONE as int,
        pixel_covered(a, b, c, x, y),
{
    let area = tri_area_spec(a, b, c);
    let px = pixel_center(x);
    let py = pixel_center(y);
    let e1 = edge_fn(b.x, b.y, c.x, c.y, px, py);
    let e2 = edge_fn(c.x, c.y, a.x, a.y, px, py);
    let e3 = edge_fn(a.x, a.y, b.x, b.y, px, py);
    lemma_edge_sum(a, b, c, px, py);
    if area > 0 {
        assert(e1 >= 0 && e2 >= 0 && e3 >= 0) by (nonlinear_arith)
            requires
                e1 * area >= 0 && e2 * area >= 0 && e3 * area >= 0 && area > 0,
        ;
        lemma_nonneg_weights(e1, e2, e3, area);
    } else {
        assert(e1 <= 0 && e2 <= 0 && e3 <= 0) by (nonlinear_arith)
            requires
                e1 * area >= 0 && e2 * area >= 0 && e3 * area >= 0 && area < 0,
        ;
        lemma_trunc_div_neg(e1 * (FX_ONE as int), area);
        lemma_trunc_div_neg(e2 * (FX_ONE as int), area);
        lemma_trunc_div_neg(e3 * (FX_ONE as int), area);
        assert(-(e1 * (FX_ONE as int)) == (-e1) * (FX_ONE as int) && -(e2 * (FX_ONE as int)) == (
        -e2) * (FX_ONE as int) && -(e3 * (FX_ONE as int)) == (-e3) * (FX_ONE as int))
            by (nonlinear_arith);
        lemma_nonneg_weights(-e1, -e2, -e3, -area);
    }
    let sum = w1_spec(a, b, c, x, y) + w2_spec(a, b, c, x, y) + w3_spec(a, b, c, x, y);
    assert(1000 * sum > 999 * (FX_ONE as int) && 1000 * sum < 1001 * (FX_ONE as int));
}

/// A fragment kept within a bounding box that lies entirely outside the
/// `[0, width) x [0, height)` screen rectangle is itself off screen.
pub proof fn lemma_offscreen_bbox_rejected(
    a: IVec3,
    b: IVec3,
    c: IVec3,
    f: Fragment,
    width: int,
    height: int,
)
    requires
        bbox_min_x(a, b, c) <= f.position.x <= bbox_max_x(a, b, c),
        bbox_min_y(a, b, c) <= f.position.y <= bbox_max_y(a, b, c),
        bbox_max_x(a, b, c) < 0 || bbox_min_x(a, b, c) >= width || bbox_max_y(a, b, c) < 0
            || bbox_min_y(a, b, c) >= height,
    ensures
        f.position.x < 0 || f.position.x >= width || f.position.y < 0 || f.position.y >= height,
{
}

/// An off-screen fragment leaves the framebuffer exactly as it was: the
/// bounds check filters it before any buffer is touched.
pub proof fn lemma_offscreen_fragment_not_retained(
    fb0: crate::framebuffer::Framebuffer,
    fb1: crate::framebuffer::Framebuffer,
    f: Fragment,
    color: crate::color::Color,
    is_emissive: bool,
)
    requires
        crate::render::draw_effect(fb0, fb1, f, color, is_emissive),
        f.position.x < 0 || f.position.x >= fb0.width || f.position.y < 0 || f.position.y
            >= fb0.height,
    ensures
        fb1 == fb0,
{
}

/// The depth test is order-independent for two candidates of distinct
/// depths at one pixel, and the nearer one wins: drawn in either order over
/// any stored depth, the pixel ends in the same state, and if the nearer
/// candidate beats the stored depth it is the one retained.
pub proof fn lemma_depth_test_order_independent(
    z0: int,
    c0: int,
    d1: int,
    c1: int,
    d2: int,
    c2: int,
)
    requires
        d1 < d2,
    ensures
        ({
            let far_first = depth_write(
                depth_write(z0, c0, d2, c2).0,
                depth_write(z0, c0, d2, c2).1,
                d1,
                c1,
            );
            let near_first = depth_write(
                depth_write(z0, c0, d1, c1).0,
                depth_write(z0, c0, d1, c1).1,
                d2,
                c2,
            );
            &&& far_first == near_first
            &&& (d1 < z0 ==> far_first == (d1, c1))
        }),
{
}

/// A uniform scale matrix, as a mathematical value.
pub open spec fn uniform_scale3(s: int) -> IMat3 {
    IMat3 { m00: s, m01: 0, m02: 0, m10: 0, m11: s, m12: 0, m20: 0, m21: 0, m22: s }
}

/// The integer cross product.
pub open spec fn cross3(a: IVec3, b: IVec3) -> IVec3 {
    IVec3 {
        x: a.y * b.z - a.z * b.y,
        y: a.z * b.x - a.x * b.z,
        z: a.x * b.y - a.y * b.x,
    }
}

proof fn lemma_fxm_zero(a: int)
    ensures
        fx_mul_spec(a, 0) == 0,
        fx_mul_spec(0, a) == 0,
{
    lemma_trunc_div_bound(0, FX_ONE as int);
    assert(a * 0 == 0 && 0 * a == 0) by (nonlinear_arith);
}

proof fn lemma_fxdiv_zero(d: int)
    requires
        d != 0,
    ensures
        fx_div_spec(0, d) == 0,
{
    lemma_trunc_div_bound(0, d);
}

/// The normal transform under a pure uniform-scale model matrix is a
/// nonnegative multiple of the identity, so the exact scaled normal is
/// parallel to the original: their integer cross product is zero.
/// (Renormalization and rounding then keep the executable result within one
/// fixed-point step of that direction.)
pub proof fn lemma_uniform_scale_normal_parallel(s: int, n: IVec3)
    requires
        s > 0,
    ensures
        ({
            let nm = normal_matrix_spec(uniform_scale3(s));
            &&& nm.m01 == 0 && nm.m02 == 0 && nm.m10 == 0 && nm.m12 == 0 && nm.m20 == 0
                && nm.m21 == 0
            &&& nm.m00 == nm.m11 && nm.m11 == nm.m22
            &&& nm.m00 >= 0
            &&& cross3(
                IVec3 { x: nm.m00 * n.x, y: nm.m00 * n.y, z: nm.m00 * n.z },
                n,
            ) == (IVec3 { x: 0, y: 0, z: 0 })
            &&& mat3_vec_spec(nm, n) == (IVec3 {
                x: fx_mul_spec(nm.m00, n.x),
                y: fx_mul_spec(nm.m00, n.y),
                z: fx_mul_spec(nm.m00, n.z),
            })
        }),
{
    let m = uniform_scale3(s);
    let cof = mat3_cofactor_spec(m);
    lemma_fxm_zero(s);
    lemma_fxm_zero(0);
    let c = fx_mul_spec(s, s);
    assert(cof.m00 == c && cof.m11 == c && cof.m22 == c);
    assert(cof.m01 == 0 && cof.m02 == 0 && cof.m10 == 0 && cof.m12 == 0 && cof.m20 == 0
        && cof.m21 == 0);
    assert(s * s >= 0) by (nonlinear_arith);
    lemma_trunc_div_bound(s * s, FX_ONE as int);
    assert((s * s) * (FX_ONE as int) >= 0) by (nonlinear_arith)
        requires
            s * s >= 0,
    ;
    assert(c >= 0);
    let det = mat3_det_spec(m);
    assert(det == fx_mul_spec(s, c));
    assert(s * c >= 0) by (nonlinear_arith)
        requires
            s > 0,
            c >= 0,
    ;
    lemma_trunc_div_bound(s * c, FX_ONE as int);
    assert((s * c) * (FX_ONE as int) >= 0) by (nonlinear_arith)
        requires
            s * c >= 0,
    ;
    assert(det >= 0);
    let nm = normal_matrix_spec(m);
    if det == 0 {
        assert(nm.m00 == FX_ONE as int && nm.m00 >= 0);
    } else {
        lemma_fxdiv_zero(det);
        let d0 = fx_div_spec(c, det);
        lemma_trunc_div_bound(c * (FX_ONE as int), det);
        assert((c * (FX_ONE as int)) * det >= 0) by (nonlinear_arith)
            requires
                c >= 0,
                det > 0,
        ;
        assert(d0 >= 0);
        if crate::matrix::imat3_within(
            IMat3 {
                m00: d0,
                m01: 0,
                m02: 0,
                m10: 0,
                m11: d0,
                m12: 0,
                m20: 0,
                m21: 0,
                m22: d0,
            },
            NORMAL_MAT_LIMIT as int,
        ) {
            assert(nm.m00 == d0);
        } else {
            assert(nm.m00 == FX_ONE as int);
        }
    }
    let d = nm.m00;
    assert((d * n.y) * n.z - (d * n.z) * n.y == 0 && (d * n.z) * n.x - (d * n.x) * n.z == 0 && (d
        * n.x) * n.y - (d * n.y) * n.x == 0) by (nonlinear_arith);
    lemma_fxm_zero(n.x);
    lemma_fxm_zero(n.y);
    lemma_fxm_zero(n.z);
}

/// The star shader's output is always a point on the segment between the
/// two fixed warm hues -- every channel lies between the corresponding
/// endpoints -- and it is always emissive, for every possible noise sample.
pub proof fn lemma_star_between_hues(noise_value: int)
    requires
        -(FX_ONE as int) <= noise_value <= FX_ONE as int,
    ensures
        ({
            let r = star_shader_spec(noise_value);
            &&& r.emissive == true
            &&& 248 <= r.color.r <= 253
            &&& 46 <= r.color.g <= 96
            &&& 4 <= r.color.b <= 13
        }),
{
    let t = trunc_div(noise_value + FX_ONE as int, 2);
    lemma_trunc_div_bound(noise_value + FX_ONE as int, 2);
    lemma_trunc_div_cap(noise_value + FX_ONE as int, 2, FX_ONE as int);
    assert((noise_value + FX_ONE as int) * 2 >= 0) by (nonlinear_arith)
        requires
            noise_value + FX_ONE as int >= 0,
    ;
    assert(0 <= t <= FX_ONE as int);
    lemma_lerp_channel_between(253, 248, t);
    lemma_lerp_channel_between(46, 96, t);
    lemma_lerp_channel_between(4, 13, t);
}

/// The rings shader outputs exact black (and never emissive) outside the
/// configured annulus; inside it, with a visible ring opacity and a
/// not-too-dark ring color, the output is non-black: the band pattern
/// mapped into the ring color and scaled by the opacity.
pub proof fn lemma_rings_annulus(f: Fragment, u: Uniforms, pattern_sin: int)
    requires
        -(FX_ONE as int) <= pattern_sin <= FX_ONE as int,
        0 <= u.ring_opacity <= FX_ONE,
    ensures
        ({
            let rot = ring_rotated_spec(crate::fixed::iv4(f.vertex_position), u);
            let dist = radius2_spec(rot.x, rot.z);
            let r = rings_shader_spec(f, u, pattern_sin);
            &&& r.emissive == false
            &&& !(u.ring_inner_radius <= dist <= u.ring_outer_radius) ==> r.color.r == 0
                && r.color.g == 0 && r.color.b == 0
            &&& (u.ring_inner_radius <= dist <= u.ring_outer_radius && u.ring_opacity >= 1024
                && u.ring_color.r >= 128 && u.ring_color.g >= 128 && u.ring_color.b >= 128)
                ==> r.color.r >= 1 && r.color.g >= 1 && r.color.b >= 1
        }),
{
    let rot = ring_rotated_spec(crate::fixed::iv4(f.vertex_position), u);
    let dist = radius2_spec(rot.x, rot.z);
    if u.ring_inner_radius <= dist <= u.ring_outer_radius && u.ring_opacity >= 1024
        && u.ring_color.r >= 128 && u.ring_color.g >= 128 && u.ring_color.b >= 128 {
        let pattern = clamp_spec(
            trunc_div(pattern_sin, 2) + FX_HALF as int,
            0,
            FX_ONE as int,
        );
        assert(0 <= pattern <= FX_ONE as int);
        lemma_lerp_channel_between(220, 190, pattern);
        lemma_lerp_channel_between(220, 207, pattern);
        lemma_lerp_channel_between(220, 235, pattern);
        let rr = crate::color::lerp_channel(220, 190, pattern);
        let gg = crate::color::lerp_channel(220, 207, pattern);
        let bb = crate::color::lerp_channel(220, 235, pattern);
        assert(190 <= rr <= 255 && 190 <= gg <= 255 && 190 <= bb <= 255);
        lemma_mod_channel_floor(rr, u.ring_color.r as int);
        lemma_mod_channel_floor(gg, u.ring_color.g as int);
        lemma_mod_channel_floor(bb, u.ring_color.b as int);
        lemma_scaled_channel_visible(
            crate::color::mod_channel(rr, u.ring_color.r as int),
            u.ring_opacity as int,
        );
        lemma_scaled_channel_visible(
            crate::color::mod_channel(gg, u.ring_color.g as int),
            u.ring_opacity as int,
        );
        lemma_scaled_channel_visible(
            crate::color::mod_channel(bb, u.ring_color.b as int),
            u.ring_opacity as int,
        );
    }
}

/// A band channel of at least 190, tinted by a ring-color channel of at
/// least 128, keeps at least 95 of its 255 steps.
proof fn lemma_mod_channel_floor(ch: int, cc: int)
    requires
        190 <= ch <= 255,
        128 <= cc <= 255,
    ensures
        95 <= crate::color::mod_channel(ch, cc) <= 255,
{
    assert(24320 <= ch * cc <= 255 * 255) by (nonlinear_arith)
        requires
            190 <= ch <= 255,
            128 <= cc <= 255,
    ;
    lemma_trunc_div_cap(ch * cc, 255, 255);
    lemma_trunc_div_bound(ch * cc, 255);
    assert((ch * cc) * 255 >= 0) by (nonlinear_arith)
        requires
            ch * cc >= 0,
    ;
    lemma_div_is_ordered(24320, ch * cc, 255);
    assert(24320int / 255 == 95) by (nonlinear_arith);
}

/// A channel of at least 95, scaled by an opacity of at least `1024/65536`
/// (one part in 64), stays strictly above black.
proof fn lemma_scaled_channel_visible(ch: int, opacity: int)
    requires
        95 <= ch <= 255,
        1024 <= opacity <= FX_ONE as int,
    ensures
        crate::color::scale_channel(ch, opacity) >= 1,
{
    assert(ch * opacity >= 97280) by (nonlinear_arith)
        requires
            ch >= 95,
            opacity >= 1024,
    ;
    assert(ch * opacity >= 0) by (nonlinear_arith)
        requires
            ch >= 0,
            opacity >= 0,
    ;
    lemma_div_is_ordered(97280, ch * opacity, FX_ONE as int);
    assert(trunc_div(ch * opacity, FX_ONE as int) == (ch * opacity) / (FX_ONE as int));
    assert(97280int / (FX_ONE as int) == 1) by (nonlinear_arith);
}

/// The orbit pitch clamp keeps the pitch in the closed gimbal-safe
/// interval, whatever delta is applied; with [`crate::camera::Camera::orbit`]'s
/// contract this makes the bound an invariant over any number of calls.
pub proof fn lemma_orbit_pitch_invariant(pitch: int, delta: int)
    ensures
        PITCH_MIN_FX <= clamp_spec(pitch + delta, PITCH_MIN_FX as int, PITCH_MAX_FX as int)
            <= PITCH_MAX_FX,
{
}

/// Packing three in-range channels and reading them back is the identity.
pub proof fn lemma_pack_unpack(r: int, g: int, b: int)
    requires
        0 <= r < 256,
        0 <= g < 256,
        0 <= b < 256,
    ensures
        red_of(pack_rgb(r, g, b)) == r,
        green_of(pack_rgb(r, g, b)) == g,
        blue_of(pack_rgb(r, g, b)) == b,
{
    let x = pack_rgb(r, g, b);
    lemma_fundamental_div_mod(x, 0x100);
    lemma_fundamental_div_mod(x, 0x10000);
    assert(x % 0x100 == b && x / 0x100 == r * 0x100 + g && x / 0x10000 == r) by (nonlinear_arith)
        requires
            x == r * 0x10000 + g * 0x100 + b,
            0 <= r < 256,
            0 <= g < 256,
            0 <= b < 256,
            x == 0x100 * (x / 0x100) + x % 0x100,
            0 <= x % 0x100 < 0x100,
            x == 0x10000 * (x / 0x10000) + x % 0x10000,
            0 <= x % 0x10000 < 0x10000,
    ;
    lemma_fundamental_div_mod(x / 0x100, 0x100);
    assert((x / 0x100) % 0x100 == g) by (nonlinear_arith)
        requires
            x / 0x100 == r * 0x100 + g,
            0 <= g < 256,
            0 <= r < 256,
            x / 0x100 == 0x100 * ((x / 0x100) / 0x100) + (x / 0x100) % 0x100,
            0 <= (x / 0x100) % 0x100 < 0x100,
    ;
    lemma_fundamental_div_mod(x / 0x10000, 0x100);
    assert((x / 0x10000) % 0x100 == r) by (nonlinear_arith)
        requires
            x / 0x10000 == r,
            0 <= r < 256,
            x / 0x10000 == 0x100 * ((x / 0x10000) / 0x100) + (x / 0x10000) % 0x100,
            0 <= (x / 0x10000) % 0x100 < 0x100,
    ;
}

/// The compositor's additive blend saturates channel-wise at 255 and never
/// wraps: each output channel is exactly the saturating sum of the two
/// input channels, and the packed result keeps its channels separate.
pub proof fn lemma_blend_add_saturates(base: int, emissive: int)
    requires
        base >= 0,
        emissive >= 0,
    ensures
        red_of(blend_add_spec(base, emissive)) == sat_add_channel(red_of(base), red_of(emissive)),
        green_of(blend_add_spec(base, emissive)) == sat_add_channel(
            green_of(base),
            green_of(emissive),
        ),
        blue_of(blend_add_spec(base, emissive)) == sat_add_channel(
            blue_of(base),
            blue_of(emissive),
        ),
        sat_add_channel(red_of(base), red_of(emissive)) <= 255,
        sat_add_channel(green_of(base), green_of(emissive)) <= 255,
        sat_add_channel(blue_of(base), blue_of(emissive)) <= 255,
{
    lemma_channel_ranges(base);
    lemma_channel_ranges(emissive);
    let r = sat_add_channel(red_of(base), red_of(emissive));
    let g = sat_add_channel(green_of(base), green_of(emissive));
    let b = sat_add_channel(blue_of(base), blue_of(emissive));
    lemma_pack_unpack(r, g, b);
}

/// Each extracted channel of a nonnegative packed pixel lies in `[0, 255]`.
proof fn lemma_channel_ranges(c: int)
    requires
        c >= 0,
    ensures
        0 <= red_of(c) <= 255,
        0 <= green_of(c) <= 255,
        0 <= blue_of(c) <= 255,
{
    lemma_fundamental_div_mod(c, 0x100);
    lemma_fundamental_div_mod(c / 0x100, 0x100);
    lemma_fundamental_div_mod(c / 0x10000, 0x100);
}

} // verus!
