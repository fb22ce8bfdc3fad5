//! The per-render-call immutable bundle of transforms and shading knobs.

use crate::color::Color;
use crate::fixed::{FxVec3, FX_ONE};
use crate::matrix::FxMat4;
use vstd::prelude::*;

verus! {

/// Everything one render call needs, immutable for its duration: the
/// transform matrices, the elapsed time, the light direction and the
/// body-specific shading knobs.
///
/// Three fields carry per-frame trigonometric samples that only a
/// floating-point library can produce: `spin_cos`/`spin_sin` are the cosine
/// and sine of the terrain rotation angle (`time` times the spin rate) and
/// `wave_sin` is the sine of the banding wave phase (`time` times the wave
/// rate). The caller computes them once per frame; every decision taken on
/// them here is verified for all possible values. The noise field itself is
/// likewise sampled by the caller, at the points [`crate::shaders::sample_request`]
/// asks for.
#[derive(Clone, Copy, PartialEq, Eq, Structural, Debug)]
pub struct Uniforms {
    pub model_matrix: FxMat4,
    pub view_matrix: FxMat4,
    pub projection_matrix: FxMat4,
    pub viewport_matrix: FxMat4,
    pub time: i64,
    pub light_direction: FxVec3,
    pub noise_scale: i64,
    pub ocean_threshold: i64,
    pub continent_threshold: i64,
    pub mountain_threshold: i64,
    pub snow_threshold: i64,
    pub ring_inner_radius: i64,
    pub ring_outer_radius: i64,
    pub ring_color: Color,
    pub ring_opacity: i64,
    pub ring_frequency: i64,
    pub ring_wave_speed: i64,
    pub ring_rotation_matrix: FxMat4,
    pub spin_cos: i64,
    pub spin_sin: i64,
    pub wave_sin: i64,
}

impl Uniforms {
    pub fn new(
        model_matrix: FxMat4,
        view_matrix: FxMat4,
        projection_matrix: FxMat4,
        viewport_matrix: FxMat4,
        time: i64,
        light_direction: FxVec3,
        noise_scale: i64,
        ocean_threshold: i64,
        continent_threshold: i64,
        mountain_threshold: i64,
        snow_threshold: i64,
        ring_inner_radius: i64,
        ring_outer_radius: i64,
        ring_color: Color,
        ring_opacity: i64,
        ring_frequency: i64,
        ring_wave_speed: i64,
        ring_rotation_matrix: FxMat4,
        spin_cos: i64,
        spin_sin: i64,
        wave_sin: i64,
    ) -> (u: Uniforms)
        ensures
            u == (Uniforms {
                model_matrix,
                view_matrix,
                projection_matrix,
                viewport_matrix,
                time,
                light_direction,
                noise_scale,
                ocean_threshold,
                continent_threshold,
                mountain_threshold,
                snow_threshold,
                ring_inner_radius,
                ring_outer_radius,
                ring_color,
                ring_opacity,
                ring_frequency,
                ring_wave_speed,
                ring_rotation_matrix,
                spin_cos,
                spin_sin,
                wave_sin,
            }),
    {
        Uniforms {
            model_matrix,
            view_matrix,
            projection_matrix,
            viewport_matrix,
            time,
            light_direction,
            noise_scale,
            ocean_threshold,
            continent_threshold,
            mountain_threshold,
            snow_threshold,
            ring_inner_radius,
            ring_outer_radius,
            ring_color,
            ring_opacity,
            ring_frequency,
            ring_wave_speed,
            ring_rotation_matrix,
            spin_cos,
            spin_sin,
            wave_sin,
        }
    }
}

/// The bounds a `Uniforms` value must satisfy before shading: matrices and
/// knobs within the fixed-point ranges the arithmetic is proved safe for.
pub open spec fn uniforms_ok(u: Uniforms) -> bool {
    &&& crate::matrix::mat4_bounded(u.model_matrix, 0x20_0000)
    &&& crate::matrix::mat4_bounded(u.view_matrix, 0x20_0000)
    &&& crate::matrix::mat4_bounded(u.projection_matrix, 0x20_0000)
    &&& crate::matrix::mat4_bounded(u.viewport_matrix, 0x1000_0000)
    &&& crate::matrix::mat4_bounded(u.ring_rotation_matrix, FX_ONE as int)
    &&& -0x1000_0000 <= u.time <= 0x1000_0000
    &&& crate::fixed::vec3_bounded(u.light_direction, crate::fixed::VEC_LIMIT as int)
    &&& 0 <= u.noise_scale <= 0x20_0000
    &&& -(FX_ONE as int) <= u.ocean_threshold <= FX_ONE as int
    &&& -(FX_ONE as int) <= u.continent_threshold <= FX_ONE as int
    &&& -(FX_ONE as int) <= u.mountain_threshold <= FX_ONE as int
    &&& -(FX_ONE as int) <= u.snow_threshold < FX_ONE as int
    &&& 0 <= u.ring_opacity <= FX_ONE as int
    &&& 0 <= u.ring_frequency <= 0x800_0000
    &&& -(FX_ONE as int) <= u.spin_cos <= FX_ONE as int
    &&& -(FX_ONE as int) <= u.spin_sin <= FX_ONE as int
    &&& -(FX_ONE as int) <= u.wave_sin <= FX_ONE as int
}

/// Runtime check of [`uniforms_ok`], for callers that build a `Uniforms`
/// from unverified (floating-point-derived) data.
pub fn uniforms_within_bounds(u: &Uniforms) -> (r: bool)
    ensures
        r == uniforms_ok(*u),
{
    mat4_within(&u.model_matrix, 0x20_0000) && mat4_within(&u.view_matrix, 0x20_0000)
        && mat4_within(&u.projection_matrix, 0x20_0000) && mat4_within(
        &u.viewport_matrix,
        0x1000_0000,
    ) && mat4_within(&u.ring_rotation_matrix, FX_ONE) && -0x1000_0000 <= u.time && u.time
        <= 0x1000_0000 && vec3_within(&u.light_direction, crate::fixed::VEC_LIMIT) && 0
        <= u.noise_scale && u.noise_scale <= 0x20_0000 && -FX_ONE <= u.ocean_threshold
        && u.ocean_threshold <= FX_ONE && -FX_ONE <= u.continent_threshold
        && u.continent_threshold <= FX_ONE && -FX_ONE <= u.mountain_threshold
        && u.mountain_threshold <= FX_ONE && -FX_ONE <= u.snow_threshold && u.snow_threshold
        < FX_ONE && 0 <= u.ring_opacity && u.ring_opacity <= FX_ONE && 0 <= u.ring_frequency
        && u.ring_frequency <= 0x800_0000 && -FX_ONE <= u.spin_cos
        && u.spin_cos <= FX_ONE && -FX_ONE <= u.spin_sin && u.spin_sin <= FX_ONE && -FX_ONE
        <= u.wave_sin && u.wave_sin <= FX_ONE
}

/// Runtime check that every matrix entry lies within `c`.
pub fn mat4_within(m: &FxMat4, c: i64) -> (r: bool)
    requires
        c >= 0,
    ensures
        r == crate::matrix::mat4_bounded(*m, c as int),
{
    -c <= m.m00 && m.m00 <= c && -c <= m.m01 && m.m01 <= c && -c <= m.m02 && m.m02 <= c && -c
        <= m.m03 && m.m03 <= c && -c <= m.m10 && m.m10 <= c && -c <= m.m11 && m.m11 <= c && -c
        <= m.m12 && m.m12 <= c && -c <= m.m13 && m.m13 <= c && -c <= m.m20 && m.m20 <= c && -c
        <= m.m21 && m.m21 <= c && -c <= m.m22 && m.m22 <= c && -c <= m.m23 && m.m23 <= c && -c
        <= m.m30 && m.m30 <= c && -c <= m.m31 && m.m31 <= c && -c <= m.m32 && m.m32 <= c && -c
        <= m.m33 && m.m33 <= c
}

/// Runtime check that every vector component lies within `c`.
pub fn vec3_within(v: &FxVec3, c: i64) -> (r: bool)
    requires
        c >= 0,
    ensures
        r == crate::fixed::vec3_bounded(*v, c as int),
{
    -c <= v.x && v.x <= c && -c <= v.y && v.y <= c && -c <= v.z && v.z <= c
}

} // verus!
