//! Triangle rasterization: bounding-box scan, edge-function coverage and
//! barycentric interpolation.

use crate::color::{scale_channel, Color};
use crate::fixed::{
    div_trunc, div_trunc_i128, dot3_spec, fx_ceil, fx_ceil_spec, fx_dot3, fx_floor,
    fx_floor_spec, fx_normalize3, int_abs, iv3, lemma_trunc_div_bound, normalize3_spec,
    trunc_div, FxVec3, FxVec4, IVec3, FX_HALF, FX_ONE,
};
use crate::fragment::{CelestialType, Fragment};
use crate::vertex::Vertex;
use vstd::prelude::*;

verus! {

/// Screen coordinates handed to the rasterizer stay within this many
/// fixed-point units (1024 pixels) of the origin, so that every edge
/// function fits comfortably in 64 bits.
pub const RASTER_BOUND: i64 = 0x400_0000;

/// Model-space positions and transformed normals stay within this bound.
pub const ATTR_BOUND: i64 = 0x40_0000;

/// The 2D edge function: the signed area (doubled) of the triangle
/// `(a, b, c)` on the projected x,y plane.
pub open spec fn edge_fn(ax: int, ay: int, bx: int, by: int, cx: int, cy: int) -> int {
    (cx - ax) * (by - ay) - (cy - ay) * (bx - ax)
}

/// The signed area of a screen triangle, via the edge function.
pub open spec fn tri_area_spec(a: IVec3, b: IVec3, c: IVec3) -> int {
    edge_fn(a.x, a.y, b.x, b.y, c.x, c.y)
}

/// The fixed-point coordinate of a pixel's center.
pub open spec fn pixel_center(p: int) -> int {
    p * (FX_ONE as int) + (FX_HALF as int)
}

/// One barycentric weight: an edge value over the signed area, in fixed
/// point, rounded toward zero.
pub open spec fn weight_spec(e: int, area: int) -> int {
    trunc_div(e * (FX_ONE as int), area)
}

pub open spec fn w1_spec(a: IVec3, b: IVec3, c: IVec3, x: int, y: int) -> int {
    weight_spec(
        edge_fn(b.x, b.y, c.x, c.y, pixel_center(x), pixel_center(y)),
        tri_area_spec(a, b, c),
    )
}

pub open spec fn w2_spec(a: IVec3, b: IVec3, c: IVec3, x: int, y: int) -> int {
    weight_spec(
        edge_fn(c.x, c.y, a.x, a.y, pixel_center(x), pixel_center(y)),
        tri_area_spec(a, b, c),
    )
}

pub open spec fn w3_spec(a: IVec3, b: IVec3, c: IVec3, x: int, y: int) -> int {
    weight_spec(
        edge_fn(a.x, a.y, b.x, b.y, pixel_center(x), pixel_center(y)),
        tri_area_spec(a, b, c),
    )
}

/// The guard on the weight sum: within one part in a thousand of 1.
pub open spec fn weight_sum_ok(s: int) -> bool {
    1000 * s > 999 * (FX_ONE as int) && 1000 * s < 1001 * (FX_ONE as int)
}

/// A pixel is covered when the triangle is not degenerate, all three
/// barycentric weights at its center are nonnegative, and their sum passes
/// the one-per-mille guard.
pub open spec fn pixel_covered(a: IVec3, b: IVec3, c: IVec3, x: int, y: int) -> bool {
    &&& tri_area_spec(a, b, c) != 0
    &&& w1_spec(a, b, c, x, y) >= 0
    &&& w2_spec(a, b, c, x, y) >= 0
    &&& w3_spec(a, b, c, x, y) >= 0
    &&& weight_sum_ok(w1_spec(a, b, c, x, y) + w2_spec(a, b, c, x, y) + w3_spec(a, b, c, x, y))
}

pub open spec fn min3(a: int, b: int, c: int) -> int {
    if a <= b && a <= c {
        a
    } else if b <= c {
        b
    } else {
        c
    }
}

pub open spec fn max3(a: int, b: int, c: int) -> int {
    if a >= b && a >= c {
        a
    } else if b >= c {
        b
    } else {
        c
    }
}

pub open spec fn bbox_min_x(a: IVec3, b: IVec3, c: IVec3) -> int {
    fx_floor_spec(min3(a.x, b.x, c.x))
}

pub open spec fn bbox_min_y(a: IVec3, b: IVec3, c: IVec3) -> int {
    fx_floor_spec(min3(a.y, b.y, c.y))
}

pub open spec fn bbox_max_x(a: IVec3, b: IVec3, c: IVec3) -> int {
    fx_ceil_spec(max3(a.x, b.x, c.x))
}

pub open spec fn bbox_max_y(a: IVec3, b: IVec3, c: IVec3) -> int {
    fx_ceil_spec(max3(a.y, b.y, c.y))
}

/// One interpolated attribute: the weighted sum of the three vertex values,
/// scaled back down by `FX_ONE`.
pub open spec fn interp_spec(q1: int, q2: int, q3: int, w1: int, w2: int, w3: int) -> int {
    trunc_div(q1 * w1 + q2 * w2 + q3 * w3, FX_ONE as int)
}

pub open spec fn spec_max(a: int, b: int) -> int {
    if a >= b {
        a
    } else {
        b
    }
}

/// The interpolated, renormalized surface normal at a covered pixel.
pub open spec fn interp_normal_spec(
    v1: Vertex,
    v2: Vertex,
    v3: Vertex,
    w1: int,
    w2: int,
    w3: int,
) -> IVec3 {
    normalize3_spec(
        IVec3 {
            x: interp_spec(
                v1.transformed_normal.x as int,
                v2.transformed_normal.x as int,
                v3.transformed_normal.x as int,
                w1,
                w2,
                w3,
            ),
            y: interp_spec(
                v1.transformed_normal.y as int,
                v2.transformed_normal.y as int,
                v3.transformed_normal.y as int,
                w1,
                w2,
                w3,
            ),
            z: interp_spec(
                v1.transformed_normal.z as int,
                v2.transformed_normal.z as int,
                v3.transformed_normal.z as int,
                w1,
                w2,
                w3,
            ),
        },
    )
}

/// The default light direction the rasterizer shades its provisional color
/// with: straight along +z.
pub open spec fn default_light() -> IVec3 {
    IVec3 { x: 0, y: 0, z: FX_ONE as int }
}

/// What one emitted fragment holds, as a function of the triangle, the tag
/// and the pixel.
pub open spec fn frag_matches(
    f: Fragment,
    v1: Vertex,
    v2: Vertex,
    v3: Vertex,
    ct: CelestialType,
    x: int,
    y: int,
) -> bool {
    let a = iv3(v1.transformed_position);
    let b = iv3(v2.transformed_position);
    let c = iv3(v3.transformed_position);
    let w1 = w1_spec(a, b, c, x, y);
    let w2 = w2_spec(a, b, c, x, y);
    let w3 = w3_spec(a, b, c, x, y);
    let n = interp_normal_spec(v1, v2, v3, w1, w2, w3);
    let inten = spec_max(0, dot3_spec(n, default_light()));
    &&& f.position.x == x
    &&& f.position.y == y
    &&& f.celestial_type == ct
    &&& f.depth == interp_spec(a.z, b.z, c.z, w1, w2, w3)
    &&& iv3(f.normal) == n
    &&& f.intensity == inten
    &&& f.color.r == scale_channel(100, inten)
    &&& f.color.g == scale_channel(100, inten)
    &&& f.color.b == scale_channel(100, inten)
    &&& f.vertex_position.x == interp_spec(
        v1.position.x as int,
        v2.position.x as int,
        v3.position.x as int,
        w1,
        w2,
        w3,
    )
    &&& f.vertex_position.y == interp_spec(
        v1.position.y as int,
        v2.position.y as int,
        v3.position.y as int,
        w1,
        w2,
        w3,
    )
    &&& f.vertex_position.z == interp_spec(
        v1.position.z as int,
        v2.position.z as int,
        v3.position.z as int,
        w1,
        w2,
        w3,
    )
    &&& f.vertex_position.w == FX_ONE
}

/// The bounds every emitted fragment satisfies: a unit-scaled normal, a
/// model-space position within range, and a provisional intensity in
/// `[0, FX_ONE]`-scale range.
pub open spec fn frag_bounded(f: Fragment) -> bool {
    &&& crate::fixed::vec4_bounded(f.vertex_position, 0x200_0000)
    &&& crate::fixed::vec3_bounded(f.normal, FX_ONE as int)
    &&& 0 <= f.intensity <= 0x10_0000
    &&& -0x1000_0000 <= f.depth <= 0x1000_0000
}

/// No two fragments in the sequence claim the same pixel: the rasterizer
/// emits one fragment per covered pixel, never two.
pub open spec fn distinct_pixels(s: Seq<Fragment>) -> bool {
    forall|i: int, j: int|
        0 <= i < j < s.len() ==> ((#[trigger] s[i]).position.x != (#[trigger] s[j]).position.x
            || s[i].position.y != s[j].position.y)
}

/// The bounds a vertex must satisfy before rasterization.
pub open spec fn raster_vertex_ok(v: Vertex) -> bool {
    &&& crate::fixed::vec3_bounded(v.transformed_position, RASTER_BOUND as int)
    &&& crate::fixed::vec3_bounded(v.transformed_normal, ATTR_BOUND as int)
    &&& crate::fixed::vec3_bounded(v.position, ATTR_BOUND as int)
}

/// The 2D edge function of three points' x,y coordinates.
pub fn edge_function(a: &FxVec3, b: &FxVec3, c: &FxVec3) -> (e: i64)
    requires
        crate::fixed::vec3_bounded(*a, 0x800_0000),
        crate::fixed::vec3_bounded(*b, 0x800_0000),
        crate::fixed::vec3_bounded(*c, 0x800_0000),
    ensures
        e == edge_fn(a.x as int, a.y as int, b.x as int, b.y as int, c.x as int, c.y as int),
        -0x2000_0000_0000_0000 <= e <= 0x2000_0000_0000_0000,
{
    proof {
        assert((c.x - a.x) * (b.y - a.y) <= 0x1000_0000_0000_0000 && (c.x - a.x) * (b.y - a.y)
            >= -0x1000_0000_0000_0000 && (c.y - a.y) * (b.x - a.x) <= 0x1000_0000_0000_0000 && (
        c.y - a.y) * (b.x - a.x) >= -0x1000_0000_0000_0000) by (nonlinear_arith)
            requires
                -0x1000_0000 <= c.x - a.x <= 0x1000_0000,
                -0x1000_0000 <= b.y - a.y <= 0x1000_0000,
                -0x1000_0000 <= c.y - a.y <= 0x1000_0000,
                -0x1000_0000 <= b.x - a.x <= 0x1000_0000,
        ;
    }
    (c.x - a.x) * (b.y - a.y) - (c.y - a.y) * (b.x - a.x)
}

/// The integer screen-space bounding box: floor of the minima, ceiling of
/// the maxima.
pub fn calculate_bounding_box(a: &FxVec3, b: &FxVec3, c: &FxVec3) -> (r: (i64, i64, i64, i64))
    requires
        crate::fixed::vec3_bounded(*a, RASTER_BOUND as int),
        crate::fixed::vec3_bounded(*b, RASTER_BOUND as int),
        crate::fixed::vec3_bounded(*c, RASTER_BOUND as int),
    ensures
        r.0 == bbox_min_x(iv3(*a), iv3(*b), iv3(*c)),
        r.1 == bbox_min_y(iv3(*a), iv3(*b), iv3(*c)),
        r.2 == bbox_max_x(iv3(*a), iv3(*b), iv3(*c)),
        r.3 == bbox_max_y(iv3(*a), iv3(*b), iv3(*c)),
        -0x402 <= r.0 && r.2 <= 0x402 && -0x402 <= r.1 && r.3 <= 0x402,
{
    let min_xf: i64 = min3_exec(a.x, b.x, c.x);
    let min_yf: i64 = min3_exec(a.y, b.y, c.y);
    let max_xf: i64 = max3_exec(a.x, b.x, c.x);
    let max_yf: i64 = max3_exec(a.y, b.y, c.y);
    let min_x: i64 = fx_floor(min_xf);
    let min_y: i64 = fx_floor(min_yf);
    let max_x: i64 = fx_ceil(max_xf);
    let max_y: i64 = fx_ceil(max_yf);
    proof {
        lemma_div_range(min_xf as int);
        lemma_div_range(min_yf as int);
        lemma_div_range(max_xf as int + (FX_ONE as int) - 1);
        lemma_div_range(max_yf as int + (FX_ONE as int) - 1);
    }
    (min_x, min_y, max_x, max_y)
}

proof fn lemma_div_range(v: int)
    requires
        -0x401_0000 <= v <= 0x401_0000,
    ensures
        -0x402 <= v / (FX_ONE as int) <= 0x402,
{
    vstd::arithmetic::div_mod::lemma_fundamental_div_mod(v, FX_ONE as int);
    assert(-0x402 <= v / (FX_ONE as int) <= 0x402) by (nonlinear_arith)
        requires
            v == (FX_ONE as int) * (v / (FX_ONE as int)) + v % (FX_ONE as int),
            0 <= v % (FX_ONE as int) < FX_ONE as int,
            -0x401_0000 <= v <= 0x401_0000,
    ;
}

fn min3_exec(a: i64, b: i64, c: i64) -> (r: i64)
    ensures
        r == min3(a as int, b as int, c as int),
{
    if a <= b && a <= c {
        a
    } else if b <= c {
        b
    } else {
        c
    }
}

fn max3_exec(a: i64, b: i64, c: i64) -> (r: i64)
    ensures
        r == max3(a as int, b as int, c as int),
{
    if a >= b && a >= c {
        a
    } else if b >= c {
        b
    } else {
        c
    }
}

/// The three barycentric weights of point `p` in triangle `(a, b, c)`,
/// each an edge value over the given signed area, in fixed point.
pub fn barycentric_coordinates(
    p: &FxVec3,
    a: &FxVec3,
    b: &FxVec3,
    c: &FxVec3,
    area: i64,
) -> (w: (i128, i128, i128))
    requires
        area != 0,
        crate::fixed::vec3_bounded(*p, 0x800_0000),
        crate::fixed::vec3_bounded(*a, 0x800_0000),
        crate::fixed::vec3_bounded(*b, 0x800_0000),
        crate::fixed::vec3_bounded(*c, 0x800_0000),
    ensures
        w.0 == weight_spec(
            edge_fn(b.x as int, b.y as int, c.x as int, c.y as int, p.x as int, p.y as int),
            area as int,
        ),
        w.1 == weight_spec(
            edge_fn(c.x as int, c.y as int, a.x as int, a.y as int, p.x as int, p.y as int),
            area as int,
        ),
        w.2 == weight_spec(
            edge_fn(a.x as int, a.y as int, b.x as int, b.y as int, p.x as int, p.y as int),
            area as int,
        ),
        -0x2000_0000_0000_0000_0000 <= w.0 <= 0x2000_0000_0000_0000_0000,
        -0x2000_0000_0000_0000_0000 <= w.1 <= 0x2000_0000_0000_0000_0000,
        -0x2000_0000_0000_0000_0000 <= w.2 <= 0x2000_0000_0000_0000_0000,
{
    let e1: i64 = edge_function(b, c, p);
    let e2: i64 = edge_function(c, a, p);
    let e3: i64 = edge_function(a, b, p);
    proof {
        lemma_weight_bound(e1 as int, area as int);
        lemma_weight_bound(e2 as int, area as int);
        lemma_weight_bound(e3 as int, area as int);
    }
    let w1: i128 = div_trunc_i128((e1 as i128) * (FX_ONE as i128), area as i128);
    let w2: i128 = div_trunc_i128((e2 as i128) * (FX_ONE as i128), area as i128);
    let w3: i128 = div_trunc_i128((e3 as i128) * (FX_ONE as i128), area as i128);
    (w1, w2, w3)
}

proof fn lemma_weight_bound(e: int, area: int)
    requires
        area != 0,
        -0x2000_0000_0000_0000 <= e <= 0x2000_0000_0000_0000,
    ensures
        -0x2000_0000_0000_0000_0000 <= weight_spec(e, area) <= 0x2000_0000_0000_0000_0000,
{
    lemma_trunc_div_bound(e * (FX_ONE as int), area);
    let w = weight_spec(e, area);
    assert(int_abs(e * (FX_ONE as int)) <= 0x2000_0000_0000_0000_0000) by (nonlinear_arith)
        requires
            -0x2000_0000_0000_0000 <= e <= 0x2000_0000_0000_0000,
    ;
    assert(int_abs(w) <= int_abs(w) * int_abs(area)) by (nonlinear_arith)
        requires
            int_abs(area) >= 1,
            int_abs(w) >= 0,
    ;
}

fn interp3(q1: i64, q2: i64, q3: i64, w1: i64, w2: i64, w3: i64, Ghost(cq): Ghost<int>) -> (r:
    i64)
    requires
        0 <= cq <= 0x800_0000,
        -cq <= q1 <= cq,
        -cq <= q2 <= cq,
        -cq <= q3 <= cq,
        0 <= w1 <= 0x1_0100,
        0 <= w2 <= 0x1_0100,
        0 <= w3 <= 0x1_0100,
    ensures
        r == interp_spec(q1 as int, q2 as int, q3 as int, w1 as int, w2 as int, w3 as int),
        (FX_ONE as int) * int_abs(r as int) <= 3 * (cq * 0x1_0100),
        -0x4000_0000 <= r <= 0x4000_0000,
{
    proof {
        assert(-(cq * 0x1_0100) <= q1 * w1 <= cq * 0x1_0100 && -(cq * 0x1_0100) <= q2 * w2 <= cq
            * 0x1_0100 && -(cq * 0x1_0100) <= q3 * w3 <= cq * 0x1_0100 && cq * 0x1_0100
            <= 0x8_0800_0000_0000) by (nonlinear_arith)
            requires
                0 <= cq <= 0x800_0000,
                -cq <= q1 <= cq,
                -cq <= q2 <= cq,
                -cq <= q3 <= cq,
                0 <= w1 <= 0x1_0100,
                0 <= w2 <= 0x1_0100,
                0 <= w3 <= 0x1_0100,
        ;
        lemma_trunc_div_bound(
            q1 as int * w1 as int + q2 as int * w2 as int + q3 as int * w3 as int,
            FX_ONE as int,
        );
        assert(int_abs(q1 as int * w1 as int + q2 as int * w2 as int + q3 as int * w3 as int)
            <= 0x18_1800_0000_0000);
        assert(int_abs(FX_ONE as int) == 0x1_0000);
    }
    let s: i64 = q1 * w1 + q2 * w2 + q3 * w3;
    proof {
        assert(int_abs(s as int) <= 3 * (cq * 0x1_0100));
        assert(int_abs(s as int) <= 0x4000_0000 * (FX_ONE as int));
        crate::fixed::lemma_trunc_div_cap(s as int, FX_ONE as int, 0x4000_0000);
        lemma_trunc_div_bound(s as int, FX_ONE as int);
        assert(int_abs(FX_ONE as int) == FX_ONE as int);
    }
    let r: i64 = div_trunc(s, FX_ONE);
    proof {
        assert((FX_ONE as int) * int_abs(r as int) == int_abs(r as int) * int_abs(FX_ONE as int))
            by (nonlinear_arith)
            requires
                int_abs(FX_ONE as int) == FX_ONE as int,
        ;
    }
    r
}

/// Rasterize one triangle: scan its integer bounding box and emit one
/// fragment for every covered pixel center, with barycentrically
/// interpolated depth, normal, model-space position and provisional
/// lighting. A degenerate (zero-area) triangle emits no fragments, without
/// attempting any barycentric division.
pub fn triangle(v1: &Vertex, v2: &Vertex, v3: &Vertex, celestial_type: CelestialType) -> (res:
    Vec<Fragment>)
    requires
        raster_vertex_ok(*v1),
        raster_vertex_ok(*v2),
        raster_vertex_ok(*v3),
    ensures
        tri_area_spec(
            iv3(v1.transformed_position),
            iv3(v2.transformed_position),
            iv3(v3.transformed_position),
        ) == 0 ==> res@.len() == 0,
        distinct_pixels(res@),
        forall|i: int|
            0 <= i < res@.len() ==> {
                &&& bbox_min_x(
                    iv3(v1.transformed_position),
                    iv3(v2.transformed_position),
                    iv3(v3.transformed_position),
                ) <= (#[trigger] res@[i]).position.x <= bbox_max_x(
                    iv3(v1.transformed_position),
                    iv3(v2.transformed_position),
                    iv3(v3.transformed_position),
                )
                &&& bbox_min_y(
                    iv3(v1.transformed_position),
                    iv3(v2.transformed_position),
                    iv3(v3.transformed_position),
                ) <= res@[i].position.y <= bbox_max_y(
                    iv3(v1.transformed_position),
                    iv3(v2.transformed_position),
                    iv3(v3.transformed_position),
                )
                &&& pixel_covered(
                    iv3(v1.transformed_position),
                    iv3(v2.transformed_position),
                    iv3(v3.transformed_position),
                    res@[i].position.x as int,
                    res@[i].position.y as int,
                )
                &&& frag_matches(
                    res@[i],
                    *v1,
                    *v2,
                    *v3,
                    celestial_type,
                    res@[i].position.x as int,
                    res@[i].position.y as int,
                )
                &&& frag_bounded(res@[i])
            },
        forall|x: int, y: int|
            (bbox_min_x(
                iv3(v1.transformed_position),
                iv3(v2.transformed_position),
                iv3(v3.transformed_position),
            ) <= x <= bbox_max_x(
                iv3(v1.transformed_position),
                iv3(v2.transformed_position),
                iv3(v3.transformed_position),
            ) && bbox_min_y(
                iv3(v1.transformed_position),
                iv3(v2.transformed_position),
                iv3(v3.transformed_position),
            ) <= y <= bbox_max_y(
                iv3(v1.transformed_position),
                iv3(v2.transformed_position),
                iv3(v3.transformed_position),
            ) && #[trigger] pixel_covered(
                iv3(v1.transformed_position),
                iv3(v2.transformed_position),
                iv3(v3.transformed_position),
                x,
                y,
            )) ==> exists|i: int|
                0 <= i < res@.len() && (#[trigger] res@[i]).position.x == x && res@[i].position.y
                    == y,
{
    let ghost ga = iv3(v1.transformed_position);
    let ghost gb = iv3(v2.transformed_position);
    let ghost gc = iv3(v3.transformed_position);
    let mut fragments: Vec<Fragment> = Vec::new();
    let a: FxVec3 = v1.transformed_position;
    let b: FxVec3 = v2.transformed_position;
    let c: FxVec3 = v3.transformed_position;

    let bbox: (i64, i64, i64, i64) = calculate_bounding_box(&a, &b, &c);
    let min_x: i64 = bbox.0;
    let min_y: i64 = bbox.1;
    let max_x: i64 = bbox.2;
    let max_y: i64 = bbox.3;

    let triangle_area: i64 = edge_function(&a, &b, &c);
    if triangle_area == 0 {
        return fragments;
    }
    let light_dir: FxVec3 = FxVec3 { x: 0, y: 0, z: FX_ONE };

    let mut y: i64 = min_y;
    while y <= max_y
        invariant
            min_y <= y <= max_y + 1,
            -0x402 <= min_x && max_x <= 0x402 && -0x402 <= min_y && max_y <= 0x402,
            a == v1.transformed_position && b == v2.transformed_position && c
                == v3.transformed_position,
            ga == iv3(a) && gb == iv3(b) && gc == iv3(c),
            triangle_area == tri_area_spec(ga, gb, gc),
            triangle_area != 0,
            light_dir == (FxVec3 { x: 0, y: 0, z: FX_ONE }),
            min_x == bbox_min_x(ga, gb, gc) && max_x == bbox_max_x(ga, gb, gc),
            min_y == bbox_min_y(ga, gb, gc) && max_y == bbox_max_y(ga, gb, gc),
            raster_vertex_ok(*v1) && raster_vertex_ok(*v2) && raster_vertex_ok(*v3),
            distinct_pixels(fragments@),
            forall|i: int| 0 <= i < fragments@.len() ==> (#[trigger] fragments@[i]).position.y < y,
            forall|i: int|
                0 <= i < fragments@.len() ==> {
                    &&& min_x <= (#[trigger] fragments@[i]).position.x <= max_x
                    &&& min_y <= fragments@[i].position.y <= max_y
                    &&& pixel_covered(
                        ga,
                        gb,
                        gc,
                        fragments@[i].position.x as int,
                        fragments@[i].position.y as int,
                    )
                    &&& frag_matches(
                        fragments@[i],
                        *v1,
                        *v2,
                        *v3,
                        celestial_type,
                        fragments@[i].position.x as int,
                        fragments@[i].position.y as int,
                    )
                    &&& frag_bounded(fragments@[i])
                },
            forall|xx: int, yy: int|
                (min_y <= yy < y && min_x <= xx <= max_x && #[trigger] pixel_covered(
                    ga,
                    gb,
                    gc,
                    xx,
                    yy,
                )) ==> exists|i: int|
                    0 <= i < fragments@.len() && (#[trigger] fragments@[i]).position.x == xx
                        && fragments@[i].position.y == yy,
        decreases max_y + 1 - y,
    {
        let mut x: i64 = min_x;
        while x <= max_x
            invariant
                min_x <= x <= max_x + 1,
                min_y <= y <= max_y,
                -0x402 <= min_x && max_x <= 0x402 && -0x402 <= min_y && max_y <= 0x402,
                a == v1.transformed_position && b == v2.transformed_position && c
                    == v3.transformed_position,
                ga == iv3(a) && gb == iv3(b) && gc == iv3(c),
                triangle_area == tri_area_spec(ga, gb, gc),
                triangle_area != 0,
                light_dir == (FxVec3 { x: 0, y: 0, z: FX_ONE }),
                min_x == bbox_min_x(ga, gb, gc) && max_x == bbox_max_x(ga, gb, gc),
                min_y == bbox_min_y(ga, gb, gc) && max_y == bbox_max_y(ga, gb, gc),
                raster_vertex_ok(*v1) && raster_vertex_ok(*v2) && raster_vertex_ok(*v3),
                distinct_pixels(fragments@),
                forall|i: int|
                    0 <= i < fragments@.len() ==> ((#[trigger] fragments@[i]).position.y < y || (
                    fragments@[i].position.y == y && fragments@[i].position.x < x)),
                forall|i: int|
                    0 <= i < fragments@.len() ==> {
                        &&& min_x <= (#[trigger] fragments@[i]).position.x <= max_x
                        &&& min_y <= fragments@[i].position.y <= max_y
                        &&& pixel_covered(
                            ga,
                            gb,
                            gc,
                            fragments@[i].position.x as int,
                            fragments@[i].position.y as int,
                        )
                        &&& frag_matches(
                            fragments@[i],
                            *v1,
                            *v2,
                            *v3,
                            celestial_type,
                            fragments@[i].position.x as int,
                            fragments@[i].position.y as int,
                        )
                        &&& frag_bounded(fragments@[i])
                    },
                forall|xx: int, yy: int|
                    (min_y <= yy < y && min_x <= xx <= max_x && #[trigger] pixel_covered(
                        ga,
                        gb,
                        gc,
                        xx,
                        yy,
                    )) ==> exists|i: int|
                        0 <= i < fragments@.len() && (#[trigger] fragments@[i]).position.x == xx
                            && fragments@[i].position.y == yy,
                forall|xx: int|
                    (min_x <= xx < x && #[trigger] pixel_covered(ga, gb, gc, xx, y as int))
                        ==> exists|i: int|
                        0 <= i < fragments@.len() && (#[trigger] fragments@[i]).position.x == xx
                            && fragments@[i].position.y == y,
            decreases max_x + 1 - x,
        {
            let px: i64 = x * FX_ONE + FX_HALF;
            let py: i64 = y * FX_ONE + FX_HALF;
            let point: FxVec3 = FxVec3 { x: px, y: py, z: 0 };
            let w: (i128, i128, i128) = barycentric_coordinates(
                &point,
                &a,
                &b,
                &c,
                triangle_area,
            );
            let ghost prev = fragments@;
            let mut pushed: bool = false;
            if w.0 >= 0 && w.1 >= 0 && w.2 >= 0 {
                let sum: i128 = w.0 + w.1 + w.2;
                if 1000 * sum > 999 * (FX_ONE as i128) && 1000 * sum < 1001 * (FX_ONE as i128) {
                    proof {
                        assert(pixel_covered(ga, gb, gc, x as int, y as int));
                        assert(w.0 <= sum && w.1 <= sum && w.2 <= sum);
                        assert(sum < 0x1_0100);
                    }
                    let w1: i64 = w.0 as i64;
                    let w2: i64 = w.1 as i64;
                    let w3: i64 = w.2 as i64;
                    let nx: i64 = interp3(
                        v1.transformed_normal.x,
                        v2.transformed_normal.x,
                        v3.transformed_normal.x,
                        w1,
                        w2,
                        w3,
                        Ghost(ATTR_BOUND as int),
                    );
                    let ny: i64 = interp3(
                        v1.transformed_normal.y,
                        v2.transformed_normal.y,
                        v3.transformed_normal.y,
                        w1,
                        w2,
                        w3,
                        Ghost(ATTR_BOUND as int),
                    );
                    let nz: i64 = interp3(
                        v1.transformed_normal.z,
                        v2.transformed_normal.z,
                        v3.transformed_normal.z,
                        w1,
                        w2,
                        w3,
                        Ghost(ATTR_BOUND as int),
                    );
                    let interpolated_normal: FxVec3 = fx_normalize3(&FxVec3 { x: nx, y: ny, z: nz });
                    let dot: i64 = fx_dot3(&interpolated_normal, &light_dir);
                    let intensity: i64 = if dot < 0 {
                        0
                    } else {
                        dot
                    };
                    proof {
                        let nv = interpolated_normal;
                        let dsum = nv.x as int * 0 + nv.y as int * 0 + nv.z as int * (
                        FX_ONE as int);
                        assert(dot == trunc_div(dsum, FX_ONE as int));
                        if crate::fixed::mag3_spec(iv3(FxVec3 { x: nx, y: ny, z: nz })) == 0 {
                            assert(nv.z == 0);
                            assert(int_abs(dsum) <= (FX_ONE as int) * (FX_ONE as int));
                        } else {
                            assert(-(FX_ONE as int) <= nv.z <= FX_ONE as int);
                            assert(int_abs(dsum) <= (FX_ONE as int) * (FX_ONE as int))
                                by (nonlinear_arith)
                                requires
                                    dsum == nv.x as int * 0 + nv.y as int * 0 + nv.z as int * (
                                    FX_ONE as int),
                                    -(FX_ONE as int) <= nv.z <= FX_ONE as int,
                            ;
                        }
                        crate::fixed::lemma_trunc_div_cap(dsum, FX_ONE as int, FX_ONE as int);
                        assert(intensity <= 0x10_0000);
                    }
                    let base_color: Color = Color::new(100, 100, 100);
                    let lit_color: Color = base_color.scale(intensity);
                    let depth: i64 = interp3(a.z, b.z, c.z, w1, w2, w3, Ghost(RASTER_BOUND as int));
                    let vx: i64 = interp3(
                        v1.position.x,
                        v2.position.x,
                        v3.position.x,
                        w1,
                        w2,
                        w3,
                        Ghost(ATTR_BOUND as int),
                    );
                    let vy: i64 = interp3(
                        v1.position.y,
                        v2.position.y,
                        v3.position.y,
                        w1,
                        w2,
                        w3,
                        Ghost(ATTR_BOUND as int),
                    );
                    let vz: i64 = interp3(
                        v1.position.z,
                        v2.position.z,
                        v3.position.z,
                        w1,
                        w2,
                        w3,
                        Ghost(ATTR_BOUND as int),
                    );
                    let vertex_position: FxVec4 = FxVec4 { x: vx, y: vy, z: vz, w: FX_ONE };
                    let fragment: Fragment = Fragment::new(
                        x,
                        y,
                        lit_color,
                        depth,
                        interpolated_normal,
                        intensity,
                        vertex_position,
                        celestial_type,
                    );
                    proof {
                        assert(frag_matches(
                            fragment,
                            *v1,
                            *v2,
                            *v3,
                            celestial_type,
                            x as int,
                            y as int,
                        ));
                        assert(frag_bounded(fragment));
                    }
                    fragments.push(fragment);
                    pushed = true;
                }
            }
            proof {
                if pushed {
                    assert(fragments@ == prev.push(fragments@[prev.len() as int]));
                    assert(forall|i: int| 0 <= i < prev.len() ==> fragments@[i] == prev[i]);
                    assert(fragments@[prev.len() as int].position.x == x
                        && fragments@[prev.len() as int].position.y == y);
                    assert forall|i: int, j: int| 0 <= i < j < fragments@.len() implies ((
                    #[trigger] fragments@[i]).position.x != (#[trigger] fragments@[j]).position.x
                        || fragments@[i].position.y != fragments@[j].position.y) by {
                        if j == fragments@.len() - 1 {
                            assert(fragments@[i] == prev[i]);
                            assert(prev[i].position.y < y || (prev[i].position.y == y
                                && prev[i].position.x < x));
                        }
                    }
                } else {
                    assert(fragments@ == prev);
                    assert(!pixel_covered(ga, gb, gc, x as int, y as int));
                }
                assert forall|i: int| 0 <= i < fragments@.len() implies ((
                #[trigger] fragments@[i]).position.y < y || (fragments@[i].position.y == y
                    && fragments@[i].position.x < x + 1)) by {
                    if i < prev.len() {
                        assert(fragments@[i] == prev[i]);
                    }
                }
                assert forall|xx: int|
                    (min_x <= xx < x + 1 && #[trigger] pixel_covered(
                        ga,
                        gb,
                        gc,
                        xx,
                        y as int,
                    )) implies exists|i: int|
                    0 <= i < fragments@.len() && (#[trigger] fragments@[i]).position.x == xx
                        && fragments@[i].position.y == y by {
                    if xx == x {
                        assert(pushed);
                        let i = fragments@.len() - 1;
                        assert(fragments@[i].position.x == xx && fragments@[i].position.y == y);
                    } else {
                        let i = choose|i: int|
                            0 <= i < prev.len() && (#[trigger] prev[i]).position.x == xx
                                && prev[i].position.y == y;
                        assert(fragments@[i].position.x == xx && fragments@[i].position.y == y);
                    }
                }
                assert forall|xx: int, yy: int|
                    (min_y <= yy < y && min_x <= xx <= max_x && #[trigger] pixel_covered(
                        ga,
                        gb,
                        gc,
                        xx,
                        yy,
                    )) implies exists|i: int|
                    0 <= i < fragments@.len() && (#[trigger] fragments@[i]).position.x == xx
                        && fragments@[i].position.y == yy by {
                    let i = choose|i: int|
                        0 <= i < prev.len() && (#[trigger] prev[i]).position.x == xx
                            && prev[i].position.y == yy;
                    assert(fragments@[i].position.x == xx && fragments@[i].position.y == yy);
                }
            }
            x = x + 1;
        }
        y = y + 1;
    }
    fragments
}

} // verus!
