//! The vertex transform stage and the per-body fragment shaders.
//!
//! The vertex shader is the full model-to-screen pipeline in fixed point.
//! The fragment shaders take the scalar oracle samples (noise values and
//! sines) as plain fixed-point inputs -- [`sample_request`] says where the
//! caller must sample -- and every decision taken on those samples is
//! verified for all possible values.

use crate::color::{ic, ic_lerp, ic_mod, ic_scale, ic_sub, Color, IColor};
use crate::fixed::{
    clamp_spec, div_trunc, fx_clamp, fx_div_spec, fx_dot3, fx_mag3, fx_mul_cap, fx_mul_spec,
    fx_normalize3, int_abs, int_sqrt, isqrt, iv3, iv4, mag3_spec, normalize3_spec, trunc_div,
    vec3_bounded, vec4_bounded, FxVec2, FxVec3, FxVec4, IVec3, IVec4, FX_HALF, FX_ONE, VEC_LIMIT,
};
use crate::fragment::{CelestialType, Fragment};
use crate::matrix::{
    im4, mat3_mul_vec3, mat3_vec_spec, mat4_mul, mat4_mul_spec, mat4_mul_vec4, mat4_vec_spec,
    normal_matrix_of, normal_matrix_spec, upper3, upper3_spec,
};
use crate::triangle::{frag_bounded, raster_vertex_ok, spec_max, RASTER_BOUND};
use crate::uniforms::{uniforms_ok, Uniforms};
use crate::vertex::Vertex;
use vstd::prelude::*;

verus! {

/// NDC coordinates beyond this bound (16 whole units) discard the vertex:
/// with no near-plane clipping, a vertex passing very close to the camera
/// plane would otherwise blow up the pixel arithmetic.
pub const NDC_LIMIT: i64 = 0x10_0000;

/// The homogeneous clip-space position: `projection * view * model` applied
/// to the model-space position with `w = 1`.
pub open spec fn clip_spec(v: Vertex, u: Uniforms) -> IVec4 {
    mat4_vec_spec(
        mat4_mul_spec(
            mat4_mul_spec(im4(u.projection_matrix), im4(u.view_matrix)),
            im4(u.model_matrix),
        ),
        IVec4 {
            x: v.position.x as int,
            y: v.position.y as int,
            z: v.position.z as int,
            w: FX_ONE as int,
        },
    )
}

/// The normalized device coordinates: each clip component over `w`.
pub open spec fn ndc_spec(v: Vertex, u: Uniforms) -> IVec3 {
    let c = clip_spec(v, u);
    IVec3 {
        x: fx_div_spec(c.x, c.w),
        y: fx_div_spec(c.y, c.w),
        z: fx_div_spec(c.z, c.w),
    }
}

/// The screen-space position: the viewport matrix applied to the NDC point
/// (z passes through as the depth).
pub open spec fn screen_spec(v: Vertex, u: Uniforms) -> IVec4 {
    let n = ndc_spec(v, u);
    mat4_vec_spec(im4(u.viewport_matrix), IVec4 { x: n.x, y: n.y, z: n.z, w: FX_ONE as int })
}

/// The world-space normal: the inverse-transpose of the model matrix's
/// linear part applied to the model-space normal, renormalized.
pub open spec fn transformed_normal_spec(v: Vertex, u: Uniforms) -> IVec3 {
    normalize3_spec(
        mat3_vec_spec(normal_matrix_spec(upper3_spec(im4(u.model_matrix))), iv3(v.normal)),
    )
}

/// A vertex survives the transform stage iff its clip `w` is strictly
/// positive (in front of the camera plane) and its NDC and screen
/// coordinates stay within the safe fixed-point ranges.
pub open spec fn vs_accepted(v: Vertex, u: Uniforms) -> bool {
    let c = clip_spec(v, u);
    let n = ndc_spec(v, u);
    let s = screen_spec(v, u);
    &&& c.w > 0
    &&& -(NDC_LIMIT as int) <= n.x <= NDC_LIMIT as int
    &&& -(NDC_LIMIT as int) <= n.y <= NDC_LIMIT as int
    &&& -(NDC_LIMIT as int) <= n.z <= NDC_LIMIT as int
    &&& -(RASTER_BOUND as int) <= s.x <= RASTER_BOUND as int
    &&& -(RASTER_BOUND as int) <= s.y <= RASTER_BOUND as int
    &&& -(RASTER_BOUND as int) <= s.z <= RASTER_BOUND as int
}

/// The vertex transform stage: model -> clip -> NDC -> screen, plus the
/// inverse-transpose normal transform. A pure function of its inputs.
///
/// A vertex behind (or on) the camera plane, or one whose coordinates leave
/// the safe range, contributes nothing and returns `None` -- the explicit
/// guard this pipeline chooses in place of near-plane clipping.
pub fn vertex_shader(vertex: &Vertex, uniforms: &Uniforms) -> (result: Option<Vertex>)
    requires
        uniforms_ok(*uniforms),
        vec3_bounded(vertex.position, 0x10_0000),
        vec3_bounded(vertex.normal, 0x2_0000),
    ensures
        result is Some <==> vs_accepted(*vertex, *uniforms),
        match result {
            Some(out) => {
                &&& out.position == vertex.position
                &&& out.normal == vertex.normal
                &&& out.tex_coords == vertex.tex_coords
                &&& out.color == vertex.color
                &&& iv3(out.transformed_position) == (IVec3 {
                    x: screen_spec(*vertex, *uniforms).x,
                    y: screen_spec(*vertex, *uniforms).y,
                    z: screen_spec(*vertex, *uniforms).z,
                })
                &&& iv3(out.transformed_normal) == transformed_normal_spec(*vertex, *uniforms)
                &&& raster_vertex_ok(out)
            },
            None => true,
        },
{
    let position: FxVec4 = FxVec4 {
        x: vertex.position.x,
        y: vertex.position.y,
        z: vertex.position.z,
        w: FX_ONE,
    };
    let pv = mat4_mul(
        &uniforms.projection_matrix,
        &uniforms.view_matrix,
        Ghost(0x20_0000),
        Ghost(0x20_0000),
    );
    let pvm = mat4_mul(&pv, &uniforms.model_matrix, Ghost(0x1000_0000), Ghost(0x20_0000));
    let transformed: FxVec4 = mat4_mul_vec4(
        &pvm,
        &position,
        Ghost(0x8_0000_0000),
        Ghost(0x10_0000),
    );
    let w: i64 = transformed.w;
    if w <= 0 {
        return None;
    }
    let ndx: i64 = div_trunc(transformed.x * FX_ONE, w);
    let ndy: i64 = div_trunc(transformed.y * FX_ONE, w);
    let ndz: i64 = div_trunc(transformed.z * FX_ONE, w);
    if ndx < -NDC_LIMIT || ndx > NDC_LIMIT || ndy < -NDC_LIMIT || ndy > NDC_LIMIT || ndz
        < -NDC_LIMIT || ndz > NDC_LIMIT {
        return None;
    }
    let ndc4: FxVec4 = FxVec4 { x: ndx, y: ndy, z: ndz, w: FX_ONE };
    let screen: FxVec4 = mat4_mul_vec4(
        &uniforms.viewport_matrix,
        &ndc4,
        Ghost(0x1000_0000),
        Ghost(0x10_0000),
    );
    if screen.x < -RASTER_BOUND || screen.x > RASTER_BOUND || screen.y < -RASTER_BOUND || screen.y
        > RASTER_BOUND || screen.z < -RASTER_BOUND || screen.z > RASTER_BOUND {
        return None;
    }
    let model_mat3 = upper3(&uniforms.model_matrix);
    let normal_matrix = normal_matrix_of(&model_mat3);
    let rotated_normal: FxVec3 = mat3_mul_vec3(
        &normal_matrix,
        &vertex.normal,
        Ghost(0x200_0000),
        Ghost(0x2_0000),
    );
    let transformed_normal: FxVec3 = fx_normalize3(&rotated_normal);
    Some(
        Vertex {
            position: vertex.position,
            normal: vertex.normal,
            tex_coords: vertex.tex_coords,
            color: vertex.color,
            transformed_position: FxVec3 { x: screen.x, y: screen.y, z: screen.z },
            transformed_normal,
        },
    )
}

/// The spin rate of the terrain rotation (0.8 per time unit): the caller
/// derives `spin_cos`/`spin_sin` from `time` times this rate.
pub const SPIN_RATE_FX: i64 = 52429;

/// The banding wave rate (0.9 per time unit) behind `wave_sin`.
pub const WAVE_RATE_FX: i64 = 58982;

/// Star noise sampling scale (whole units).
pub const STAR_SCALE: i64 = 150;

/// Comet noise sampling scale (whole units).
pub const COMET_SCALE: i64 = 50;

/// Moon noise sampling scale (whole units).
pub const MOON_SCALE: i64 = 10;

/// Cloud / storm noise sampling scale (whole units).
pub const CLOUD_SCALE: i64 = 7;

/// Halo noise sampling scale (whole units).
pub const HALO_SCALE: i64 = 20;

/// Gas-giant halo noise sampling scale (whole units).
pub const GAS_HALO_SCALE: i64 = 15;

/// Latitude banding frequency (whole units).
pub const BAND_FREQUENCY: i64 = 7;

/// Cloud drift speed (0.3, fixed point).
pub const CLOUD_SPEED_FX: i64 = 19661;

/// Halo noise drift speed (0.02, fixed point).
pub const HALO_SPEED_FX: i64 = 1311;

/// Storm drift speed (0.7, fixed point).
pub const STORM_SPEED_FX: i64 = 45875;

/// Gas-giant halo / atmosphere drift speed (0.05, fixed point).
pub const GAS_HALO_SPEED_FX: i64 = 3277;

/// Cloud opacity threshold (0.1, fixed point).
pub const CLOUD_THRESHOLD_FX: i64 = 6554;

/// Storm intensity threshold (0.5, fixed point).
pub const STORM_THRESHOLD_FX: i64 = 32768;

/// Moon spot threshold (0.3, fixed point).
pub const SPOT_THRESHOLD_FX: i64 = 19661;

/// Comet shadow threshold (0.7, fixed point).
pub const SHADOW_THRESHOLD_FX: i64 = 45875;

/// Banding wave amplitude (0.5, fixed point).
pub const WAVE_AMPLITUDE_FX: i64 = 32768;

/// Ringed-planet band gain (0.7, fixed point).
pub const RINGED_BAND_GAIN_FX: i64 = 45875;

/// The standard ring annulus inner radius a viewer configures (1.1,
/// fixed point); the shader reads the radius from the Uniforms knobs.
pub const RING_INNER_FX: i64 = 72090;

/// The standard ring annulus outer radius (5.0, fixed point).
pub const RING_OUTER_FX: i64 = 327680;

/// The standard ring pattern frequency (50.0, fixed point).
pub const RING_FREQUENCY_FX: i64 = 3276800;

/// Atmosphere halo inner radius (1.2, fixed point).
pub const ATMO_RADIUS_FX: i64 = 78643;

/// Atmosphere halo thickness (0.2, fixed point).
pub const ATMO_THICKNESS_FX: i64 = 13107;

/// Planet halo thickness (0.3, fixed point).
pub const HALO_THICKNESS_FX: i64 = 19661;

/// Planet halo opacity gain (0.7, fixed point).
pub const HALO_OPACITY_FX: i64 = 45875;

/// Gas-giant halo opacity ceiling (0.6, fixed point).
pub const GAS_HALO_MAX_FX: i64 = 39322;

/// Gas-giant halo outer radius (1.2, fixed point).
pub const GAS_HALO_LIMIT_FX: i64 = 78643;

/// What a fragment shader returns, as a mathematical value.
pub ghost struct ShadeResult {
    pub color: IColor,
    pub emissive: bool,
}

pub open spec fn shade_of(c: Color, e: bool) -> ShadeResult {
    ShadeResult { color: ic(c), emissive: e }
}

/// A scalar oracle sample (a noise value or a sine) is always in
/// `[-FX_ONE, FX_ONE]`.
pub open spec fn sample_in_range(v: i64) -> bool {
    -FX_ONE <= v <= FX_ONE
}

/// The fragment's model-space position rotated about the y axis by the
/// per-frame spin angle (whose cosine and sine the uniforms carry).
pub open spec fn rotated_position_spec(p: IVec4, u: Uniforms) -> IVec3 {
    IVec3 {
        x: fx_mul_spec(p.x, u.spin_cos as int) - fx_mul_spec(p.z, u.spin_sin as int),
        y: p.y,
        z: fx_mul_spec(p.x, u.spin_sin as int) + fx_mul_spec(p.z, u.spin_cos as int),
    }
}

fn rotated_position(fragment: &Fragment, uniforms: &Uniforms) -> (r: FxVec3)
    requires
        frag_bounded(*fragment),
        uniforms_ok(*uniforms),
    ensures
        iv3(r) == rotated_position_spec(iv4(fragment.vertex_position), *uniforms),
        vec3_bounded(r, 0x400_0000),
{
    let p = fragment.vertex_position;
    let a: i64 = fx_mul_cap(p.x, uniforms.spin_cos, Ghost(0x200_0000), Ghost(FX_ONE as int));
    let b: i64 = fx_mul_cap(p.z, uniforms.spin_sin, Ghost(0x200_0000), Ghost(FX_ONE as int));
    let c: i64 = fx_mul_cap(p.x, uniforms.spin_sin, Ghost(0x200_0000), Ghost(FX_ONE as int));
    let d: i64 = fx_mul_cap(p.z, uniforms.spin_cos, Ghost(0x200_0000), Ghost(FX_ONE as int));
    FxVec3 { x: a - b, y: p.y, z: c + d }
}

/// Lambertian light intensity: `max(0, dot(normal, normalize(light)))`.
pub open spec fn light_intensity_spec(n: FxVec3, light: FxVec3) -> int {
    spec_max(0, crate::fixed::dot3_spec(iv3(n), normalize3_spec(iv3(light))))
}

fn lambert(normal: &FxVec3, light: &FxVec3) -> (r: i64)
    requires
        vec3_bounded(*normal, FX_ONE as int),
        vec3_bounded(*light, VEC_LIMIT as int),
    ensures
        r == light_intensity_spec(*normal, *light),
        0 <= r <= 0x3_0000,
{
    let ld: FxVec3 = fx_normalize3(light);
    let dsum_bound: i64 = 3 * FX_ONE * FX_ONE;
    proof {
        if mag3_spec(iv3(*light)) == 0 {
            assert(ld == *light && light.x == 0 && light.y == 0 && light.z == 0);
            assert(normal.x * ld.x + normal.y * ld.y + normal.z * ld.z == 0)
                by (nonlinear_arith)
                requires
                    ld.x == 0 && ld.y == 0 && ld.z == 0,
            ;
        } else {
            assert(int_abs(
                normal.x as int * ld.x as int + normal.y as int * ld.y as int + normal.z as int
                    * ld.z as int,
            ) <= 3 * ((FX_ONE as int) * (FX_ONE as int))) by (nonlinear_arith)
                requires
                    -(FX_ONE as int) <= normal.x <= FX_ONE as int,
                    -(FX_ONE as int) <= normal.y <= FX_ONE as int,
                    -(FX_ONE as int) <= normal.z <= FX_ONE as int,
                    -(FX_ONE as int) <= ld.x <= FX_ONE as int,
                    -(FX_ONE as int) <= ld.y <= FX_ONE as int,
                    -(FX_ONE as int) <= ld.z <= FX_ONE as int,
                    int_abs(
                        normal.x as int * ld.x as int + normal.y as int * ld.y as int
                            + normal.z as int * ld.z as int,
                    ) == (if normal.x as int * ld.x as int + normal.y as int * ld.y as int
                        + normal.z as int * ld.z as int >= 0 {
                        normal.x as int * ld.x as int + normal.y as int * ld.y as int
                            + normal.z as int * ld.z as int
                    } else {
                        -(normal.x as int * ld.x as int + normal.y as int * ld.y as int
                            + normal.z as int * ld.z as int)
                    }),
            ;
        }
        assert(0x3_0000 * (FX_ONE as int) == 3 * ((FX_ONE as int) * (FX_ONE as int)))
            by (nonlinear_arith);
        crate::fixed::lemma_trunc_div_cap(
            normal.x as int * ld.x as int + normal.y as int * ld.y as int + normal.z as int
                * ld.z as int,
            FX_ONE as int,
            0x3_0000,
        );
    }
    let dot: i64 = fx_dot3(normal, &ld);
    if dot < 0 {
        0
    } else {
        dot
    }
}

/// The 2D radius of a point on the (a, b) plane.
pub open spec fn radius2_spec(a: int, b: int) -> int {
    int_sqrt(a * a + b * b)
}

fn radius2(a: i64, b: i64) -> (r: i64)
    requires
        -0x1000_0000 <= a <= 0x1000_0000,
        -0x1000_0000 <= b <= 0x1000_0000,
    ensures
        r == radius2_spec(a as int, b as int),
        0 <= r <= 0x8000_0000,
{
    proof {
        assert(0 <= a * a <= 0x100_0000_0000_0000 && 0 <= b * b <= 0x100_0000_0000_0000)
            by (nonlinear_arith)
            requires
                -0x1000_0000 <= a <= 0x1000_0000,
                -0x1000_0000 <= b <= 0x1000_0000,
        ;
    }
    let aa: i64 = a * a;
    let bb: i64 = b * b;
    let s: u64 = (aa as u64) + (bb as u64);
    let r: u64 = isqrt(s);
    r as i64
}

/// The magnitude of the fragment's model-space position (x, y, z part).
pub open spec fn position_mag_spec(p: IVec4) -> int {
    mag3_spec(IVec3 { x: p.x, y: p.y, z: p.z })
}

fn position_mag(p: &FxVec4) -> (r: i64)
    requires
        vec4_bounded(*p, 0x200_0000),
    ensures
        r == position_mag_spec(iv4(*p)),
        0 <= r <= 0x8000_0000,
{
    fx_mag3(&FxVec3 { x: p.x, y: p.y, z: p.z })
}

/// The two fixed star hues.
pub open spec fn star_base_red() -> Color {
    Color { r: 253, g: 46, b: 4 }
}

pub open spec fn star_hot_yellow() -> Color {
    Color { r: 248, g: 96, b: 13 }
}

/// The star shader's output: a linear interpolation between the two fixed
/// warm hues, driven by the noise sample alone, always emissive; lighting
/// is ignored entirely.
pub open spec fn star_shader_spec(noise_value: int) -> ShadeResult {
    let t = trunc_div(noise_value + FX_ONE as int, 2);
    ShadeResult { color: ic_lerp(ic(star_base_red()), ic(star_hot_yellow()), t), emissive: true }
}

/// Shade a star fragment from its 3D noise sample.
#[allow(unused_variables)]
pub fn star_shader(fragment: &Fragment, uniforms: &Uniforms, noise_value: i64) -> (r: (Color, bool))
    requires
        sample_in_range(noise_value),
    ensures
        shade_of(r.0, r.1) == star_shader_spec(noise_value as int),
{
    let normalized_noise: i64 = div_trunc(noise_value + FX_ONE, 2);
    let base_red = Color::new(253, 46, 4);
    let hot_yellow = Color::new(248, 96, 13);
    proof {
        crate::fixed::lemma_trunc_div_bound(noise_value as int + FX_ONE as int, 2);
    }
    let star_color = base_red.lerp(&hot_yellow, normalized_noise);
    (star_color, true)
}

/// The moon shader: a 2D noise sample decides a dark-spot overlay over the
/// base gray, then Lambertian lighting.
pub open spec fn moon_shader_spec(f: Fragment, u: Uniforms, noise_value: int) -> ShadeResult {
    let blend = clamp_spec(trunc_div(noise_value + FX_ONE as int, 2), 0, FX_ONE as int);
    let spot = if blend < SPOT_THRESHOLD_FX {
        fx_div_spec(SPOT_THRESHOLD_FX - blend, SPOT_THRESHOLD_FX as int)
    } else {
        0
    };
    let mixed = ic_lerp(
        ic(Color { r: 169, g: 169, b: 169 }),
        ic(Color { r: 50, g: 50, b: 50 }),
        spot,
    );
    ShadeResult {
        color: ic_scale(mixed, light_intensity_spec(f.normal, u.light_direction)),
        emissive: false,
    }
}

/// Shade a moon fragment from its 2D noise sample.
pub fn moon_shader(fragment: &Fragment, uniforms: &Uniforms, noise_value: i64) -> (r: (Color, bool))
    requires
        frag_bounded(*fragment),
        uniforms_ok(*uniforms),
        sample_in_range(noise_value),
    ensures
        shade_of(r.0, r.1) == moon_shader_spec(*fragment, *uniforms, noise_value as int),
{
    let base_color = Color::new(169, 169, 169);
    let spot_color = Color::new(50, 50, 50);
    proof {
        crate::fixed::lemma_trunc_div_bound(noise_value as int + FX_ONE as int, 2);
    }
    let blend_factor: i64 = fx_clamp(div_trunc(noise_value + FX_ONE, 2), 0, FX_ONE);
    let spot_intensity: i64 = if blend_factor < SPOT_THRESHOLD_FX {
        proof {
            assert(int_abs((SPOT_THRESHOLD_FX - blend_factor) as int * (FX_ONE as int)) <= (
            FX_ONE as int) * (SPOT_THRESHOLD_FX as int)) by (nonlinear_arith)
                requires
                    0 <= SPOT_THRESHOLD_FX - blend_factor <= SPOT_THRESHOLD_FX,
            ;
            crate::fixed::lemma_trunc_div_cap(
                (SPOT_THRESHOLD_FX - blend_factor) as int * (FX_ONE as int),
                SPOT_THRESHOLD_FX as int,
                FX_ONE as int,
            );
            crate::fixed::lemma_trunc_div_bound(
                (SPOT_THRESHOLD_FX - blend_factor) as int * (FX_ONE as int),
                SPOT_THRESHOLD_FX as int,
            );
        }
        div_trunc((SPOT_THRESHOLD_FX - blend_factor) * FX_ONE, SPOT_THRESHOLD_FX)
    } else {
        0
    };
    let final_color = base_color.lerp(&spot_color, spot_intensity);
    let light_intensity: i64 = lambert(&fragment.normal, &uniforms.light_direction);
    let lit_color = final_color.scale(light_intensity);
    (lit_color, false)
}

/// The comet shader: a 3D noise sample blends a rocky texture with shadow
/// areas, then Lambertian lighting.
pub open spec fn comet_shader_spec(f: Fragment, u: Uniforms, noise_value: int) -> ShadeResult {
    let normalized = trunc_div(noise_value + FX_ONE as int, 2);
    let base = ic(Color { r: 169, g: 169, b: 169 });
    let dark = ic(Color { r: 138, g: 135, b: 135 });
    let surface = if normalized < SHADOW_THRESHOLD_FX {
        dark
    } else {
        ic_lerp(base, dark, normalized)
    };
    ShadeResult {
        color: ic_scale(surface, light_intensity_spec(f.normal, u.light_direction)),
        emissive: false,
    }
}

/// Shade a comet fragment from its 3D noise sample.
pub fn comet_shader(fragment: &Fragment, uniforms: &Uniforms, noise_value: i64) -> (r: (
    Color,
    bool,
))
    requires
        frag_bounded(*fragment),
        uniforms_ok(*uniforms),
        sample_in_range(noise_value),
    ensures
        shade_of(r.0, r.1) == comet_shader_spec(*fragment, *uniforms, noise_value as int),
{
    let base_color = Color::new(169, 169, 169);
    let dark_spot_color = Color::new(138, 135, 135);
    proof {
        crate::fixed::lemma_trunc_div_bound(noise_value as int + FX_ONE as int, 2);
    }
    let normalized_noise: i64 = div_trunc(noise_value + FX_ONE, 2);
    let surface_color: Color = if normalized_noise < SHADOW_THRESHOLD_FX {
        dark_spot_color
    } else {
        base_color.lerp(&dark_spot_color, normalized_noise)
    };
    let light_intensity: i64 = lambert(&fragment.normal, &uniforms.light_direction);
    let lit = surface_color.scale(light_intensity);
    (lit, false)
}

/// The atmosphere shader: a pure radial halo band test on the model-space
/// position's distance from the body center; outside the band the output
/// is black and non-emissive.
pub open spec fn atmosphere_shader_spec(f: Fragment, u: Uniforms, noise_value: int) -> ShadeResult {
    let p = iv4(f.vertex_position);
    let dist = position_mag_spec(p);
    if dist > ATMO_RADIUS_FX && dist < ATMO_RADIUS_FX + ATMO_THICKNESS_FX {
        let alpha = clamp_spec(crate::fixed::int_abs(noise_value), 0, FX_ONE as int);
        ShadeResult {
            color: ic_scale(
                ic_scale(ic(Color { r: 135, g: 206, b: 235 }), alpha),
                f.intensity as int,
            ),
            emissive: false,
        }
    } else {
        ShadeResult { color: ic(Color { r: 0, g: 0, b: 0 }), emissive: false }
    }
}

/// Shade an atmosphere fragment from its 2D noise sample.
pub fn atmosphere_shader(fragment: &Fragment, uniforms: &Uniforms, noise_value: i64) -> (r: (
    Color,
    bool,
))
    requires
        frag_bounded(*fragment),
        uniforms_ok(*uniforms),
        sample_in_range(noise_value),
    ensures
        shade_of(r.0, r.1) == atmosphere_shader_spec(*fragment, *uniforms, noise_value as int),
{
    let distance: i64 = position_mag(&fragment.vertex_position);
    if distance > ATMO_RADIUS_FX && distance < ATMO_RADIUS_FX + ATMO_THICKNESS_FX {
        let alpha: i64 = if noise_value >= 0 {
            noise_value
        } else {
            -noise_value
        };
        let alpha: i64 = fx_clamp(alpha, 0, FX_ONE);
        let atmosphere_color = Color::new(135, 206, 235);
        let scaled = atmosphere_color.scale(alpha);
        let lit = scaled.scale(fragment.intensity);
        (lit, false)
    } else {
        (Color::black(), false)
    }
}

/// The six colors a terrain-class planet shader classifies into.
#[derive(Clone, Copy, PartialEq, Eq, Structural, Debug)]
pub struct TerrainPalette {
    pub ocean: Color,
    pub mountain: Color,
    pub continent: Color,
    pub snow: Color,
    pub cloud: Color,
    pub atmosphere: Color,
}

pub open spec fn rocky_palette_spec() -> TerrainPalette {
    TerrainPalette {
        ocean: Color { r: 10, g: 115, b: 252 },
        mountain: Color { r: 97, g: 77, b: 63 },
        continent: Color { r: 34, g: 139, b: 34 },
        snow: Color { r: 255, g: 250, b: 250 },
        cloud: Color { r: 255, g: 255, b: 255 },
        atmosphere: Color { r: 173, g: 216, b: 230 },
    }
}

pub open spec fn rocky2_palette_spec() -> TerrainPalette {
    TerrainPalette {
        ocean: Color { r: 65, g: 199, b: 240 },
        mountain: Color { r: 184, g: 121, b: 77 },
        continent: Color { r: 69, g: 128, b: 69 },
        snow: Color { r: 219, g: 219, b: 200 },
        cloud: Color { r: 139, g: 232, b: 190 },
        atmosphere: Color { r: 173, g: 216, b: 230 },
    }
}

pub open spec fn mars_palette_spec() -> TerrainPalette {
    TerrainPalette {
        ocean: Color { r: 125, g: 50, b: 41 },
        mountain: Color { r: 128, g: 20, b: 13 },
        continent: Color { r: 176, g: 109, b: 67 },
        snow: Color { r: 207, g: 174, b: 149 },
        cloud: Color { r: 255, g: 193, b: 122 },
        atmosphere: Color { r: 229, g: 230, b: 209 },
    }
}

/// The terrain-class planet shader: threshold classification of a 3D
/// terrain noise sample into ocean/mountain/continent/high-ground colors, a
/// snow layer, a cloud overlay from a 2D noise sample, Lambertian lighting,
/// and an atmosphere halo in a thin band just outside radius 1.
pub open spec fn terrain_shader_spec(
    f: Fragment,
    u: Uniforms,
    pal: TerrainPalette,
    terrain_noise: int,
    cloud_noise: int,
    halo_noise: int,
) -> ShadeResult {
    let base = if terrain_noise < u.ocean_threshold {
        ic(pal.ocean)
    } else if terrain_noise < u.mountain_threshold {
        ic(pal.mountain)
    } else if terrain_noise < u.continent_threshold {
        ic(pal.continent)
    } else {
        ic_sub(ic(pal.mountain), IColor { r: 50, g: 50, b: 50 })
    };
    let snowed = if terrain_noise > u.snow_threshold {
        let factor = clamp_spec(
            fx_div_spec(terrain_noise - u.snow_threshold, FX_ONE - u.snow_threshold),
            0,
            FX_ONE as int,
        );
        ic_lerp(base, ic(pal.snow), factor)
    } else {
        base
    };
    let opacity = clamp_spec(trunc_div(cloud_noise + FX_ONE as int, 2), 0, FX_ONE as int);
    let clouded = if cloud_noise > CLOUD_THRESHOLD_FX {
        ic_lerp(snowed, ic(pal.cloud), opacity)
    } else {
        snowed
    };
    let lit = ic_scale(clouded, light_intensity_spec(f.normal, u.light_direction));
    let dist = mag3_spec(rotated_position_spec(iv4(f.vertex_position), u));
    let final_color = if dist > FX_ONE as int && dist < FX_ONE + HALO_THICKNESS_FX {
        let halo_opacity = fx_mul_spec(
            clamp_spec(trunc_div(halo_noise + FX_ONE as int, 2), 0, FX_ONE as int),
            HALO_OPACITY_FX as int,
        );
        ic_lerp(lit, ic(pal.atmosphere), halo_opacity)
    } else {
        lit
    };
    ShadeResult { color: final_color, emissive: false }
}

/// Shade a terrain-class fragment from its three noise samples.
pub fn terrain_shader(
    fragment: &Fragment,
    uniforms: &Uniforms,
    palette: &TerrainPalette,
    terrain_noise: i64,
    cloud_noise: i64,
    halo_noise: i64,
) -> (r: (Color, bool))
    requires
        frag_bounded(*fragment),
        uniforms_ok(*uniforms),
        sample_in_range(terrain_noise),
        sample_in_range(cloud_noise),
        sample_in_range(halo_noise),
    ensures
        shade_of(r.0, r.1) == terrain_shader_spec(
            *fragment,
            *uniforms,
            *palette,
            terrain_noise as int,
            cloud_noise as int,
            halo_noise as int,
        ),
{
    let mut surface_color: Color = if terrain_noise < uniforms.ocean_threshold {
        palette.ocean
    } else if terrain_noise < uniforms.mountain_threshold {
        palette.mountain
    } else if terrain_noise < uniforms.continent_threshold {
        palette.continent
    } else {
        palette.mountain.blend_subtract(&Color::new(50, 50, 50))
    };
    if terrain_noise > uniforms.snow_threshold {
        let snow_factor: i64 = fx_clamp(
            crate::fixed::fx_div(
                terrain_noise - uniforms.snow_threshold,
                FX_ONE - uniforms.snow_threshold,
            ),
            0,
            FX_ONE,
        );
        surface_color = surface_color.lerp(&palette.snow, snow_factor);
    }
    proof {
        crate::fixed::lemma_trunc_div_bound(cloud_noise as int + FX_ONE as int, 2);
    }
    let cloud_opacity: i64 = fx_clamp(div_trunc(cloud_noise + FX_ONE, 2), 0, FX_ONE);
    if cloud_noise > CLOUD_THRESHOLD_FX {
        surface_color = surface_color.lerp(&palette.cloud, cloud_opacity);
    }
    let intensity: i64 = lambert(&fragment.normal, &uniforms.light_direction);
    surface_color = surface_color.scale(intensity);
    let rotated: FxVec3 = rotated_position(fragment, uniforms);
    let distance: i64 = fx_mag3(&rotated);
    if distance > FX_ONE && distance < FX_ONE + HALO_THICKNESS_FX {
        proof {
            crate::fixed::lemma_trunc_div_bound(halo_noise as int + FX_ONE as int, 2);
        }
        let base_opacity: i64 = fx_clamp(div_trunc(halo_noise + FX_ONE, 2), 0, FX_ONE);
        let atmosphere_opacity: i64 = fx_mul_cap(
            base_opacity,
            HALO_OPACITY_FX,
            Ghost(FX_ONE as int),
            Ghost(FX_ONE as int),
        );
        surface_color = surface_color.lerp(&palette.atmosphere, atmosphere_opacity);
    }
    (surface_color, false)
}

/// Shade a rocky-planet fragment (terrain class, first palette).
pub fn rocky_planet_shader(
    fragment: &Fragment,
    uniforms: &Uniforms,
    terrain_noise: i64,
    cloud_noise: i64,
    halo_noise: i64,
) -> (r: (Color, bool))
    requires
        frag_bounded(*fragment),
        uniforms_ok(*uniforms),
        sample_in_range(terrain_noise),
        sample_in_range(cloud_noise),
        sample_in_range(halo_noise),
    ensures
        shade_of(r.0, r.1) == terrain_shader_spec(
            *fragment,
            *uniforms,
            rocky_palette_spec(),
            terrain_noise as int,
            cloud_noise as int,
            halo_noise as int,
        ),
{
    let palette = TerrainPalette {
        ocean: Color::new(10, 115, 252),
        mountain: Color::new(97, 77, 63),
        continent: Color::new(34, 139, 34),
        snow: Color::new(255, 250, 250),
        cloud: Color::new(255, 255, 255),
        atmosphere: Color::new(173, 216, 230),
    };
    terrain_shader(fragment, uniforms, &palette, terrain_noise, cloud_noise, halo_noise)
}

/// Shade a second-variant rocky-planet fragment (terrain class).
pub fn rocky_planet_shader2(
    fragment: &Fragment,
    uniforms: &Uniforms,
    terrain_noise: i64,
    cloud_noise: i64,
    halo_noise: i64,
) -> (r: (Color, bool))
    requires
        frag_bounded(*fragment),
        uniforms_ok(*uniforms),
        sample_in_range(terrain_noise),
        sample_in_range(cloud_noise),
        sample_in_range(halo_noise),
    ensures
        shade_of(r.0, r.1) == terrain_shader_spec(
            *fragment,
            *uniforms,
            rocky2_palette_spec(),
            terrain_noise as int,
            cloud_noise as int,
            halo_noise as int,
        ),
{
    let palette = TerrainPalette {
        ocean: Color::new(65, 199, 240),
        mountain: Color::new(184, 121, 77),
        continent: Color::new(69, 128, 69),
        snow: Color::new(219, 219, 200),
        cloud: Color::new(139, 232, 190),
        atmosphere: Color::new(173, 216, 230),
    };
    terrain_shader(fragment, uniforms, &palette, terrain_noise, cloud_noise, halo_noise)
}

/// Shade a Mars fragment (terrain class, red palette).
pub fn mars_shader(
    fragment: &Fragment,
    uniforms: &Uniforms,
    terrain_noise: i64,
    cloud_noise: i64,
    halo_noise: i64,
) -> (r: (Color, bool))
    requires
        frag_bounded(*fragment),
        uniforms_ok(*uniforms),
        sample_in_range(terrain_noise),
        sample_in_range(cloud_noise),
        sample_in_range(halo_noise),
    ensures
        shade_of(r.0, r.1) == terrain_shader_spec(
            *fragment,
            *uniforms,
            mars_palette_spec(),
            terrain_noise as int,
            cloud_noise as int,
            halo_noise as int,
        ),
{
    let palette = TerrainPalette {
        ocean: Color::new(125, 50, 41),
        mountain: Color::new(128, 20, 13),
        continent: Color::new(176, 109, 67),
        snow: Color::new(207, 174, 149),
        cloud: Color::new(255, 193, 122),
        atmosphere: Color::new(229, 230, 209),
    };
    terrain_shader(fragment, uniforms, &palette, terrain_noise, cloud_noise, halo_noise)
}

/// The gas-giant shader: sinusoidal latitude banding between two hues, a
/// localized storm overlay past a noise threshold, Lambertian lighting and
/// an outer atmosphere halo.
pub open spec fn gas_giant_shader_spec(
    f: Fragment,
    u: Uniforms,
    band_sin: int,
    storm_noise: int,
    halo_noise: int,
) -> ShadeResult {
    let band_factor = clamp_spec(trunc_div(band_sin, 2) + FX_HALF as int, 0, FX_ONE as int);
    let surface = ic_lerp(
        ic(Color { r: 200, g: 160, b: 100 }),
        ic(Color { r: 150, g: 100, b: 50 }),
        band_factor,
    );
    let stormy = if storm_noise > STORM_THRESHOLD_FX {
        let storm_intensity = clamp_spec(
            fx_div_spec(storm_noise - STORM_THRESHOLD_FX, (FX_ONE - STORM_THRESHOLD_FX) as int),
            0,
            FX_ONE as int,
        );
        ic_lerp(surface, ic(Color { r: 255, g: 69, b: 0 }), storm_intensity)
    } else {
        surface
    };
    let lit = ic_scale(stormy, light_intensity_spec(f.normal, u.light_direction));
    let dist = position_mag_spec(iv4(f.vertex_position));
    let final_color = if dist > FX_ONE as int && dist < GAS_HALO_LIMIT_FX as int {
        let opacity = clamp_spec(
            trunc_div(halo_noise + FX_ONE as int, 2),
            0,
            GAS_HALO_MAX_FX as int,
        );
        ic_lerp(lit, ic(Color { r: 173, g: 216, b: 230 }), opacity)
    } else {
        lit
    };
    ShadeResult { color: final_color, emissive: false }
}

/// Shade a gas-giant fragment from its banding sine and two noise samples.
pub fn gas_giant_shader(
    fragment: &Fragment,
    uniforms: &Uniforms,
    band_sin: i64,
    storm_noise: i64,
    halo_noise: i64,
) -> (r: (Color, bool))
    requires
        frag_bounded(*fragment),
        uniforms_ok(*uniforms),
        sample_in_range(band_sin),
        sample_in_range(storm_noise),
        sample_in_range(halo_noise),
    ensures
        shade_of(r.0, r.1) == gas_giant_shader_spec(
            *fragment,
            *uniforms,
            band_sin as int,
            storm_noise as int,
            halo_noise as int,
        ),
{
    let band_color_1 = Color::new(200, 160, 100);
    let band_color_2 = Color::new(150, 100, 50);
    let storm_color = Color::new(255, 69, 0);
    proof {
        crate::fixed::lemma_trunc_div_bound(band_sin as int, 2);
    }
    let band_factor: i64 = fx_clamp(div_trunc(band_sin, 2) + FX_HALF, 0, FX_ONE);
    let mut surface_color: Color = band_color_1.lerp(&band_color_2, band_factor);
    if storm_noise > STORM_THRESHOLD_FX {
        let storm_intensity: i64 = fx_clamp(
            crate::fixed::fx_div(storm_noise - STORM_THRESHOLD_FX, FX_ONE - STORM_THRESHOLD_FX),
            0,
            FX_ONE,
        );
        surface_color = surface_color.lerp(&storm_color, storm_intensity);
    }
    let intensity: i64 = lambert(&fragment.normal, &uniforms.light_direction);
    surface_color = surface_color.scale(intensity);
    let distance_from_center: i64 = position_mag(&fragment.vertex_position);
    if distance_from_center > FX_ONE && distance_from_center < GAS_HALO_LIMIT_FX {
        proof {
            crate::fixed::lemma_trunc_div_bound(halo_noise as int + FX_ONE as int, 2);
        }
        let atmosphere_opacity: i64 = fx_clamp(div_trunc(halo_noise + FX_ONE, 2), 0, GAS_HALO_MAX_FX);
        let atmosphere_color = Color::new(173, 216, 230);
        surface_color = surface_color.lerp(&atmosphere_color, atmosphere_opacity);
    }
    (surface_color, false)
}

/// The ringed-planet shader: simple latitude banding and Lambertian
/// lighting, nothing else.
pub open spec fn ringed_shader_spec(f: Fragment, u: Uniforms, band_sin: int) -> ShadeResult {
    let band_factor = clamp_spec(
        fx_mul_spec(band_sin, RINGED_BAND_GAIN_FX as int) + FX_HALF as int,
        0,
        FX_ONE as int,
    );
    let surface = ic_lerp(
        ic(Color { r: 210, g: 180, b: 140 }),
        ic(Color { r: 191, g: 134, b: 103 }),
        band_factor,
    );
    ShadeResult {
        color: ic_scale(surface, light_intensity_spec(f.normal, u.light_direction)),
        emissive: false,
    }
}

/// Shade a ringed-planet fragment from its banding sine.
pub fn ringed_shader(fragment: &Fragment, uniforms: &Uniforms, band_sin: i64) -> (r: (Color, bool))
    requires
        frag_bounded(*fragment),
        uniforms_ok(*uniforms),
        sample_in_range(band_sin),
    ensures
        shade_of(r.0, r.1) == ringed_shader_spec(*fragment, *uniforms, band_sin as int),
{
    let band_color_1 = Color::new(210, 180, 140);
    let band_color_2 = Color::new(191, 134, 103);
    let gained: i64 = fx_mul_cap(
        band_sin,
        RINGED_BAND_GAIN_FX,
        Ghost(FX_ONE as int),
        Ghost(FX_ONE as int),
    );
    let band_factor: i64 = fx_clamp(gained + FX_HALF, 0, FX_ONE);
    let surface_color: Color = band_color_1.lerp(&band_color_2, band_factor);
    let intensity: i64 = lambert(&fragment.normal, &uniforms.light_direction);
    let final_color = surface_color.scale(intensity);
    (final_color, false)
}

/// The fragment's position under the ring rotation matrix.
pub open spec fn ring_rotated_spec(p: IVec4, u: Uniforms) -> IVec4 {
    mat4_vec_spec(
        im4(u.ring_rotation_matrix),
        IVec4 { x: p.x, y: p.y, z: p.z, w: FX_ONE as int },
    )
}

/// The rings shader: rotate the fragment into the ring plane, take the
/// polar radius on the rotated x,z plane, and inside the configured
/// annulus (`ring_inner_radius` to `ring_outer_radius`) render a
/// sinusoidal band pattern mapped into the configured ring color and
/// scaled by the ring opacity; outside the annulus the output is fully
/// black and non-emissive.
pub open spec fn rings_shader_spec(f: Fragment, u: Uniforms, pattern_sin: int) -> ShadeResult {
    let rot = ring_rotated_spec(iv4(f.vertex_position), u);
    let dist = radius2_spec(rot.x, rot.z);
    if dist >= u.ring_inner_radius && dist <= u.ring_outer_radius {
        let ring_pattern = clamp_spec(trunc_div(pattern_sin, 2) + FX_HALF as int, 0, FX_ONE as int);
        let banded = ic_lerp(
            ic(Color { r: 220, g: 220, b: 220 }),
            ic(Color { r: 190, g: 207, b: 235 }),
            ring_pattern,
        );
        ShadeResult {
            color: ic_scale(ic_mod(banded, ic(u.ring_color)), u.ring_opacity as int),
            emissive: false,
        }
    } else {
        ShadeResult { color: ic(Color { r: 0, g: 0, b: 0 }), emissive: false }
    }
}

/// Rotate a fragment's position into the ring plane.
fn ring_rotated(fragment: &Fragment, uniforms: &Uniforms) -> (r: FxVec4)
    requires
        frag_bounded(*fragment),
        uniforms_ok(*uniforms),
    ensures
        iv4(r) == ring_rotated_spec(iv4(fragment.vertex_position), *uniforms),
        vec4_bounded(r, 0x1000_0000),
{
    let p = fragment.vertex_position;
    let p4: FxVec4 = FxVec4 { x: p.x, y: p.y, z: p.z, w: FX_ONE };
    mat4_mul_vec4(
        &uniforms.ring_rotation_matrix,
        &p4,
        Ghost(FX_ONE as int),
        Ghost(0x200_0000),
    )
}

/// Shade a rings fragment from its pattern sine.
pub fn rings_shader(fragment: &Fragment, uniforms: &Uniforms, pattern_sin: i64) -> (r: (
    Color,
    bool,
))
    requires
        frag_bounded(*fragment),
        uniforms_ok(*uniforms),
        sample_in_range(pattern_sin),
    ensures
        shade_of(r.0, r.1) == rings_shader_spec(*fragment, *uniforms, pattern_sin as int),
{
    let rotated: FxVec4 = ring_rotated(fragment, uniforms);
    let distance: i64 = radius2(rotated.x, rotated.z);
    if distance >= uniforms.ring_inner_radius && distance <= uniforms.ring_outer_radius {
        proof {
            crate::fixed::lemma_trunc_div_bound(pattern_sin as int, 2);
        }
        let ring_pattern: i64 = fx_clamp(div_trunc(pattern_sin, 2) + FX_HALF, 0, FX_ONE);
        let ring_color_light = Color::new(220, 220, 220);
        let ring_color_dark = Color::new(190, 207, 235);
        let banded: Color = ring_color_light.lerp(&ring_color_dark, ring_pattern);
        let tinted: Color = banded.modulate(&uniforms.ring_color);
        let final_color: Color = tinted.scale(uniforms.ring_opacity);
        (final_color, false)
    } else {
        (Color::new(0, 0, 0), false)
    }
}

/// The scalar oracle samples one fragment's shading needs: up to three
/// noise values and two sines, all in `[-FX_ONE, FX_ONE]`.
#[derive(Clone, Copy, PartialEq, Eq, Structural, Debug)]
pub struct Samples {
    /// 3D noise at the terrain point (stars, comets and terrain planets).
    pub terrain_noise: i64,
    /// 2D noise at the overlay point (clouds, storms, the moon surface).
    pub overlay_noise: i64,
    /// 2D noise at the halo point (atmosphere halos).
    pub halo_noise: i64,
    /// The sine of the banding angle (gas giants, ringed planets).
    pub band_sin: i64,
    /// The sine of the ring pattern angle (rings).
    pub pattern_sin: i64,
}

pub open spec fn samples_ok(s: Samples) -> bool {
    &&& sample_in_range(s.terrain_noise)
    &&& sample_in_range(s.overlay_noise)
    &&& sample_in_range(s.halo_noise)
    &&& sample_in_range(s.band_sin)
    &&& sample_in_range(s.pattern_sin)
}

/// Where the caller must sample the oracles for one fragment: noise points
/// in fixed point, sine arguments in fixed-point radians. Fields a body
/// kind does not use are zero.
#[derive(Clone, Copy, PartialEq, Eq, Structural, Debug)]
pub struct SampleRequest {
    pub terrain_point: FxVec3,
    pub overlay_point: FxVec2,
    pub halo_point: FxVec2,
    pub band_angle: i64,
    pub pattern_angle: i64,
}

/// The mathematical model of a sample request.
pub ghost struct ISampleRequest {
    pub terrain_point: IVec3,
    pub overlay_point: crate::fixed::IVec2,
    pub halo_point: crate::fixed::IVec2,
    pub band_angle: int,
    pub pattern_angle: int,
}

pub open spec fn isr(r: SampleRequest) -> ISampleRequest {
    ISampleRequest {
        terrain_point: iv3(r.terrain_point),
        overlay_point: crate::fixed::iv2(r.overlay_point),
        halo_point: crate::fixed::iv2(r.halo_point),
        band_angle: r.band_angle as int,
        pattern_angle: r.pattern_angle as int,
    }
}

pub open spec fn izero3() -> IVec3 {
    IVec3 { x: 0, y: 0, z: 0 }
}

pub open spec fn izero2() -> crate::fixed::IVec2 {
    crate::fixed::IVec2 { x: 0, y: 0 }
}

pub open spec fn iempty_request() -> ISampleRequest {
    ISampleRequest {
        terrain_point: izero3(),
        overlay_point: izero2(),
        halo_point: izero2(),
        band_angle: 0,
        pattern_angle: 0,
    }
}

/// Where one fragment's oracles are sampled, per body kind.
pub open spec fn sample_request_spec(f: Fragment, u: Uniforms) -> ISampleRequest {
    let p = iv4(f.vertex_position);
    let rp = rotated_position_spec(p, u);
    match f.celestial_type {
        CelestialType::Star => ISampleRequest {
            terrain_point: IVec3 {
                x: STAR_SCALE * p.x,
                y: STAR_SCALE * p.y,
                z: STAR_SCALE * p.z,
            },
            ..iempty_request()
        },
        CelestialType::Planet | CelestialType::Planet2 | CelestialType::Mars => ISampleRequest {
            terrain_point: IVec3 {
                x: fx_mul_spec(rp.x, u.noise_scale as int),
                y: fx_mul_spec(rp.y, u.noise_scale as int),
                z: fx_mul_spec(rp.z, u.noise_scale as int),
            },
            overlay_point: crate::fixed::IVec2 {
                x: CLOUD_SCALE * rp.x + fx_mul_spec(u.time as int, CLOUD_SPEED_FX as int),
                y: CLOUD_SCALE * rp.y + fx_mul_spec(u.time as int, CLOUD_SPEED_FX as int),
            },
            halo_point: crate::fixed::IVec2 {
                x: HALO_SCALE * rp.x + fx_mul_spec(u.time as int, HALO_SPEED_FX as int),
                y: HALO_SCALE * rp.y + fx_mul_spec(u.time as int, HALO_SPEED_FX as int),
            },
            ..iempty_request()
        },
        CelestialType::GasGiant => ISampleRequest {
            overlay_point: crate::fixed::IVec2 {
                x: CLOUD_SCALE * p.x + fx_mul_spec(u.time as int, STORM_SPEED_FX as int),
                y: CLOUD_SCALE * p.z + fx_mul_spec(u.time as int, STORM_SPEED_FX as int),
            },
            halo_point: crate::fixed::IVec2 {
                x: GAS_HALO_SCALE * p.x + fx_mul_spec(u.time as int, GAS_HALO_SPEED_FX as int),
                y: GAS_HALO_SCALE * p.y + fx_mul_spec(u.time as int, GAS_HALO_SPEED_FX as int),
            },
            band_angle: BAND_FREQUENCY * (p.y + fx_mul_spec(
                u.wave_sin as int,
                WAVE_AMPLITUDE_FX as int,
            )),
            ..iempty_request()
        },
        CelestialType::Ringed => ISampleRequest {
            band_angle: BAND_FREQUENCY * p.y,
            ..iempty_request()
        },
        CelestialType::Rings => ISampleRequest {
            pattern_angle: fx_mul_spec(
                radius2_spec(ring_rotated_spec(p, u).x, ring_rotated_spec(p, u).z),
                u.ring_frequency as int,
            ),
            ..iempty_request()
        },
        CelestialType::Moon => ISampleRequest {
            overlay_point: crate::fixed::IVec2 { x: MOON_SCALE * p.x, y: MOON_SCALE * p.y },
            ..iempty_request()
        },
        CelestialType::Comet => ISampleRequest {
            terrain_point: IVec3 {
                x: COMET_SCALE * p.x,
                y: COMET_SCALE * p.y,
                z: COMET_SCALE * p.z,
            },
            ..iempty_request()
        },
        CelestialType::Atmosphere => ISampleRequest {
            halo_point: crate::fixed::IVec2 {
                x: HALO_SCALE * p.x + fx_mul_spec(u.time as int, GAS_HALO_SPEED_FX as int),
                y: HALO_SCALE * p.y + fx_mul_spec(u.time as int, GAS_HALO_SPEED_FX as int),
            },
            ..iempty_request()
        },
    }
}

fn zero_request() -> (r: SampleRequest)
    ensures
        isr(r) == iempty_request(),
{
    SampleRequest {
        terrain_point: FxVec3 { x: 0, y: 0, z: 0 },
        overlay_point: FxVec2 { x: 0, y: 0 },
        halo_point: FxVec2 { x: 0, y: 0 },
        band_angle: 0,
        pattern_angle: 0,
    }
}

/// Compute where the caller must sample the noise field and the sine
/// oracle to shade this fragment.
pub fn sample_request(fragment: &Fragment, uniforms: &Uniforms) -> (r: SampleRequest)
    requires
        frag_bounded(*fragment),
        uniforms_ok(*uniforms),
    ensures
        isr(r) == sample_request_spec(*fragment, *uniforms),
{
    let p = fragment.vertex_position;
    let zero = zero_request();
    match fragment.celestial_type {
        CelestialType::Star => SampleRequest {
            terrain_point: FxVec3 {
                x: STAR_SCALE * p.x,
                y: STAR_SCALE * p.y,
                z: STAR_SCALE * p.z,
            },
            ..zero
        },
        CelestialType::Planet | CelestialType::Planet2 | CelestialType::Mars => {
            let rp: FxVec3 = rotated_position(fragment, uniforms);
            let cloud_shift: i64 = fx_mul_cap(
                uniforms.time,
                CLOUD_SPEED_FX,
                Ghost(0x1000_0000),
                Ghost(0x1_0000),
            );
            let halo_shift: i64 = fx_mul_cap(
                uniforms.time,
                HALO_SPEED_FX,
                Ghost(0x1000_0000),
                Ghost(0x1_0000),
            );
            SampleRequest {
                terrain_point: FxVec3 {
                    x: fx_mul_cap(rp.x, uniforms.noise_scale, Ghost(0x400_0000), Ghost(0x20_0000)),
                    y: fx_mul_cap(rp.y, uniforms.noise_scale, Ghost(0x400_0000), Ghost(0x20_0000)),
                    z: fx_mul_cap(rp.z, uniforms.noise_scale, Ghost(0x400_0000), Ghost(0x20_0000)),
                },
                overlay_point: FxVec2 {
                    x: CLOUD_SCALE * rp.x + cloud_shift,
                    y: CLOUD_SCALE * rp.y + cloud_shift,
                },
                halo_point: FxVec2 {
                    x: HALO_SCALE * rp.x + halo_shift,
                    y: HALO_SCALE * rp.y + halo_shift,
                },
                ..zero
            }
        },
        CelestialType::GasGiant => {
            let storm_shift: i64 = fx_mul_cap(
                uniforms.time,
                STORM_SPEED_FX,
                Ghost(0x1000_0000),
                Ghost(0x1_0000),
            );
            let halo_shift: i64 = fx_mul_cap(
                uniforms.time,
                GAS_HALO_SPEED_FX,
                Ghost(0x1000_0000),
                Ghost(0x1_0000),
            );
            let wave_offset: i64 = fx_mul_cap(
                uniforms.wave_sin,
                WAVE_AMPLITUDE_FX,
                Ghost(0x1_0000),
                Ghost(0x1_0000),
            );
            proof {
                assert((FX_ONE as int) * int_abs(wave_offset as int) <= 0x1_0000 * 0x1_0000);
                assert(-0x1_0000 <= wave_offset <= 0x1_0000);
                assert(-0x200_0000 <= p.y <= 0x200_0000);
            }
            let latitude: i64 = p.y + wave_offset;
            let band_angle: i64 = BAND_FREQUENCY * latitude;
            SampleRequest {
                overlay_point: FxVec2 {
                    x: CLOUD_SCALE * p.x + storm_shift,
                    y: CLOUD_SCALE * p.z + storm_shift,
                },
                halo_point: FxVec2 {
                    x: GAS_HALO_SCALE * p.x + halo_shift,
                    y: GAS_HALO_SCALE * p.y + halo_shift,
                },
                band_angle,
                ..zero
            }
        },
        CelestialType::Ringed => SampleRequest { band_angle: BAND_FREQUENCY * p.y, ..zero },
        CelestialType::Rings => {
            let rotated: FxVec4 = ring_rotated(fragment, uniforms);
            let dist: i64 = radius2(rotated.x, rotated.z);
            let angle: i64 = fx_mul_cap(
                dist,
                uniforms.ring_frequency,
                Ghost(0x8000_0000),
                Ghost(0x800_0000),
            );
            SampleRequest { pattern_angle: angle, ..zero }
        },
        CelestialType::Moon => SampleRequest {
            overlay_point: FxVec2 { x: MOON_SCALE * p.x, y: MOON_SCALE * p.y },
            ..zero
        },
        CelestialType::Comet => SampleRequest {
            terrain_point: FxVec3 {
                x: COMET_SCALE * p.x,
                y: COMET_SCALE * p.y,
                z: COMET_SCALE * p.z,
            },
            ..zero
        },
        CelestialType::Atmosphere => {
            let halo_shift: i64 = fx_mul_cap(
                uniforms.time,
                GAS_HALO_SPEED_FX,
                Ghost(0x1000_0000),
                Ghost(0x1_0000),
            );
            SampleRequest {
                halo_point: FxVec2 {
                    x: HALO_SCALE * p.x + halo_shift,
                    y: HALO_SCALE * p.y + halo_shift,
                },
                ..zero
            }
        },
    }
}

/// The fragment-shading dispatch: exactly one shader variant per body
/// kind, no fall-through.
pub open spec fn fragment_shader_spec(f: Fragment, u: Uniforms, s: Samples) -> ShadeResult {
    match f.celestial_type {
        CelestialType::Star => star_shader_spec(s.terrain_noise as int),
        CelestialType::Planet => terrain_shader_spec(
            f,
            u,
            rocky_palette_spec(),
            s.terrain_noise as int,
            s.overlay_noise as int,
            s.halo_noise as int,
        ),
        CelestialType::GasGiant => gas_giant_shader_spec(
            f,
            u,
            s.band_sin as int,
            s.overlay_noise as int,
            s.halo_noise as int,
        ),
        CelestialType::Ringed => ringed_shader_spec(f, u, s.band_sin as int),
        CelestialType::Rings => rings_shader_spec(f, u, s.pattern_sin as int),
        CelestialType::Planet2 => terrain_shader_spec(
            f,
            u,
            rocky2_palette_spec(),
            s.terrain_noise as int,
            s.overlay_noise as int,
            s.halo_noise as int,
        ),
        CelestialType::Mars => terrain_shader_spec(
            f,
            u,
            mars_palette_spec(),
            s.terrain_noise as int,
            s.overlay_noise as int,
            s.halo_noise as int,
        ),
        CelestialType::Moon => moon_shader_spec(f, u, s.overlay_noise as int),
        CelestialType::Comet => comet_shader_spec(f, u, s.terrain_noise as int),
        CelestialType::Atmosphere => atmosphere_shader_spec(f, u, s.halo_noise as int),
    }
}

/// Dispatch one fragment to its shader variant, with the oracle samples
/// the caller gathered for it.
pub fn fragment_shader(fragment: &Fragment, uniforms: &Uniforms, samples: &Samples) -> (r: (
    Color,
    bool,
))
    requires
        frag_bounded(*fragment),
        uniforms_ok(*uniforms),
        samples_ok(*samples),
    ensures
        shade_of(r.0, r.1) == fragment_shader_spec(*fragment, *uniforms, *samples),
{
    match fragment.celestial_type {
        CelestialType::Star => star_shader(fragment, uniforms, samples.terrain_noise),
        CelestialType::Planet => rocky_planet_shader(
            fragment,
            uniforms,
            samples.terrain_noise,
            samples.overlay_noise,
            samples.halo_noise,
        ),
        CelestialType::GasGiant => gas_giant_shader(
            fragment,
            uniforms,
            samples.band_sin,
            samples.overlay_noise,
            samples.halo_noise,
        ),
        CelestialType::Ringed => ringed_shader(fragment, uniforms, samples.band_sin),
        CelestialType::Rings => rings_shader(fragment, uniforms, samples.pattern_sin),
        CelestialType::Planet2 => rocky_planet_shader2(
            fragment,
            uniforms,
            samples.terrain_noise,
            samples.overlay_noise,
            samples.halo_noise,
        ),
        CelestialType::Mars => mars_shader(
            fragment,
            uniforms,
            samples.terrain_noise,
            samples.overlay_noise,
            samples.halo_noise,
        ),
        CelestialType::Moon => moon_shader(fragment, uniforms, samples.overlay_noise),
        CelestialType::Comet => comet_shader(fragment, uniforms, samples.terrain_noise),
        CelestialType::Atmosphere => atmosphere_shader(fragment, uniforms, samples.halo_noise),
    }
}

} // verus!
