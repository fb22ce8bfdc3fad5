//! 8-bit RGB colors and the channel arithmetic the shaders use.

use crate::fixed::{
    clamp_spec, div_trunc, int_abs, lemma_trunc_div_bound, trunc_div, FX_ONE,
};
use vstd::prelude::*;

verus! {

/// An 8-bit-per-channel RGB color.
#[derive(Clone, Copy, PartialEq, Eq, Structural, Debug)]
pub struct Color {
    pub r: u8,
    pub g: u8,
    pub b: u8,
}

/// One channel of a linear interpolation from `a` toward `b` by the
/// fixed-point factor `t`.
pub open spec fn lerp_channel(a: int, b: int, t: int) -> int {
    a + trunc_div((b - a) * t, FX_ONE as int)
}

/// One channel scaled by a nonnegative fixed-point intensity, saturating
/// at 255.
pub open spec fn scale_channel(c: int, t: int) -> int {
    clamp_spec(trunc_div(c * t, FX_ONE as int), 0, 255)
}

/// One channel modulated by another: `a * b / 255`, rounded toward zero,
/// so a 255 channel is the identity tint.
pub open spec fn mod_channel(a: int, b: int) -> int {
    trunc_div(a * b, 255)
}

/// One channel of a saturating subtraction.
pub open spec fn sub_channel(a: int, b: int) -> int {
    if a >= b {
        a - b
    } else {
        0
    }
}

/// The packed `0x00RRGGBB` form of three channels.
pub open spec fn pack_rgb(r: int, g: int, b: int) -> int {
    r * 0x10000 + g * 0x100 + b
}

/// A channel interpolated with a factor in `[0, FX_ONE]` stays between its
/// two endpoints.
pub proof fn lemma_lerp_channel_between(a: int, b: int, t: int)
    requires
        0 <= t <= FX_ONE as int,
    ensures
        a <= b ==> a <= lerp_channel(a, b, t) <= b,
        a >= b ==> b <= lerp_channel(a, b, t) <= a,
{
    lemma_trunc_div_bound((b - a) * t, FX_ONE as int);
    let adj = trunc_div((b - a) * t, FX_ONE as int);
    assert(int_abs((b - a) * t) <= int_abs(b - a) * (FX_ONE as int)) by (nonlinear_arith)
        requires
            0 <= t <= FX_ONE as int,
    ;
    assert(int_abs(adj) * (FX_ONE as int) <= int_abs((b - a) * t));
    assert((b - a) * t >= 0 ==> adj >= 0) by {
        assert(((b - a) * t) * (FX_ONE as int) >= 0 ==> adj >= 0) by (nonlinear_arith)
            requires
                ((b - a) * t) * (FX_ONE as int) >= 0 ==> trunc_div((b - a) * t, FX_ONE as int)
                    >= 0,
                adj == trunc_div((b - a) * t, FX_ONE as int),
        ;
        assert((b - a) * t >= 0 ==> ((b - a) * t) * (FX_ONE as int) >= 0) by (nonlinear_arith);
    }
    assert((b - a) * t <= 0 ==> adj <= 0) by {
        assert((b - a) * t <= 0 ==> ((b - a) * t) * (FX_ONE as int) <= 0) by (nonlinear_arith);
    }
    if a <= b {
        assert((b - a) * t >= 0) by (nonlinear_arith)
            requires
                b - a >= 0,
                t >= 0,
        ;
        assert(adj <= b - a);
    } else {
        assert((b - a) * t <= 0) by (nonlinear_arith)
            requires
                b - a <= 0,
                t >= 0,
        ;
        assert(-adj <= a - b);
    }
}


/// The mathematical model of a color's three channels.
pub ghost struct IColor {
    pub r: int,
    pub g: int,
    pub b: int,
}

pub open spec fn ic(c: Color) -> IColor {
    IColor { r: c.r as int, g: c.g as int, b: c.b as int }
}

pub open spec fn ic_lerp(a: IColor, b: IColor, t: int) -> IColor {
    IColor {
        r: lerp_channel(a.r, b.r, t),
        g: lerp_channel(a.g, b.g, t),
        b: lerp_channel(a.b, b.b, t),
    }
}

pub open spec fn ic_scale(c: IColor, t: int) -> IColor {
    IColor {
        r: scale_channel(c.r, t),
        g: scale_channel(c.g, t),
        b: scale_channel(c.b, t),
    }
}

pub open spec fn ic_mod(a: IColor, b: IColor) -> IColor {
    IColor {
        r: mod_channel(a.r, b.r),
        g: mod_channel(a.g, b.g),
        b: mod_channel(a.b, b.b),
    }
}

pub open spec fn ic_sub(a: IColor, b: IColor) -> IColor {
    IColor {
        r: sub_channel(a.r, b.r),
        g: sub_channel(a.g, b.g),
        b: sub_channel(a.b, b.b),
    }
}

impl Color {
    pub fn new(r: u8, g: u8, b: u8) -> (c: Color)
        ensures
            c == (Color { r, g, b }),
    {
        Color { r, g, b }
    }

    pub fn black() -> (c: Color)
        ensures
            c == (Color { r: 0, g: 0, b: 0 }),
    {
        Color { r: 0, g: 0, b: 0 }
    }

    /// Linear interpolation from `self` toward `other` by `t` in
    /// `[0, FX_ONE]`, per channel.
    pub fn lerp(&self, other: &Color, t: i64) -> (c: Color)
        requires
            0 <= t <= FX_ONE,
        ensures
            c.r == lerp_channel(self.r as int, other.r as int, t as int),
            c.g == lerp_channel(self.g as int, other.g as int, t as int),
            c.b == lerp_channel(self.b as int, other.b as int, t as int),
    {
        proof {
            lemma_lerp_channel_between(self.r as int, other.r as int, t as int);
            lemma_lerp_channel_between(self.g as int, other.g as int, t as int);
            lemma_lerp_channel_between(self.b as int, other.b as int, t as int);
        }
        let r: i64 = lerp_channel_exec(self.r, other.r, t);
        let g: i64 = lerp_channel_exec(self.g, other.g, t);
        let b: i64 = lerp_channel_exec(self.b, other.b, t);
        Color { r: r as u8, g: g as u8, b: b as u8 }
    }

    /// Per-channel scaling by a nonnegative fixed-point intensity,
    /// saturating at 255 (the Lambertian "color times light" step).
    pub fn scale(&self, t: i64) -> (c: Color)
        requires
            0 <= t <= 0x10_0000,
        ensures
            c.r == scale_channel(self.r as int, t as int),
            c.g == scale_channel(self.g as int, t as int),
            c.b == scale_channel(self.b as int, t as int),
    {
        let r: i64 = scale_channel_exec(self.r, t);
        let g: i64 = scale_channel_exec(self.g, t);
        let b: i64 = scale_channel_exec(self.b, t);
        Color { r: r as u8, g: g as u8, b: b as u8 }
    }

    /// Per-channel modulation by another color (`a * b / 255`): tints
    /// `self` by `other`, with white as the identity.
    pub fn modulate(&self, other: &Color) -> (c: Color)
        ensures
            c.r == mod_channel(self.r as int, other.r as int),
            c.g == mod_channel(self.g as int, other.g as int),
            c.b == mod_channel(self.b as int, other.b as int),
    {
        let r: i64 = mod_channel_exec(self.r, other.r);
        let g: i64 = mod_channel_exec(self.g, other.g);
        let b: i64 = mod_channel_exec(self.b, other.b);
        Color { r: r as u8, g: g as u8, b: b as u8 }
    }

    /// Per-channel saturating subtraction.
    pub fn blend_subtract(&self, other: &Color) -> (c: Color)
        ensures
            c.r == sub_channel(self.r as int, other.r as int),
            c.g == sub_channel(self.g as int, other.g as int),
            c.b == sub_channel(self.b as int, other.b as int),
    {
        Color {
            r: if self.r >= other.r {
                self.r - other.r
            } else {
                0
            },
            g: if self.g >= other.g {
                self.g - other.g
            } else {
                0
            },
            b: if self.b >= other.b {
                self.b - other.b
            } else {
                0
            },
        }
    }

    /// The packed `0x00RRGGBB` form.
    pub fn to_hex(&self) -> (h: u32)
        ensures
            h == pack_rgb(self.r as int, self.g as int, self.b as int),
            h < 0x100_0000,
    {
        (self.r as u32) * 0x10000 + (self.g as u32) * 0x100 + (self.b as u32)
    }
}

fn lerp_channel_exec(a: u8, b: u8, t: i64) -> (r: i64)
    requires
        0 <= t <= FX_ONE,
    ensures
        r == lerp_channel(a as int, b as int, t as int),
        0 <= r <= 255,
{
    proof {
        lemma_lerp_channel_between(a as int, b as int, t as int);
        assert(int_abs((b - a) * t) <= 255 * (FX_ONE as int)) by (nonlinear_arith)
            requires
                -255 <= b - a <= 255,
                0 <= t <= FX_ONE as int,
        ;
    }
    let d: i64 = (b as i64) - (a as i64);
    let adj: i64 = div_trunc(d * t, FX_ONE);
    (a as i64) + adj
}

fn mod_channel_exec(a: u8, b: u8) -> (r: i64)
    ensures
        r == mod_channel(a as int, b as int),
        0 <= r <= 255,
{
    proof {
        assert(0 <= (a as int) * (b as int) <= 255 * 255) by (nonlinear_arith)
            requires
                0 <= a <= 255,
                0 <= b <= 255,
        ;
        crate::fixed::lemma_trunc_div_cap((a as int) * (b as int), 255, 255);
        lemma_trunc_div_bound((a as int) * (b as int), 255);
        assert(((a as int) * (b as int)) * 255 >= 0) by (nonlinear_arith)
            requires
                (a as int) * (b as int) >= 0,
        ;
    }
    div_trunc((a as i64) * (b as i64), 255)
}

fn scale_channel_exec(c: u8, t: i64) -> (r: i64)
    requires
        0 <= t <= 0x10_0000,
    ensures
        r == scale_channel(c as int, t as int),
        0 <= r <= 255,
{
    proof {
        assert(0 <= (c as int) * t <= 255 * 0x10_0000) by (nonlinear_arith)
            requires
                0 <= c <= 255,
                0 <= t <= 0x10_0000,
        ;
        lemma_trunc_div_bound((c as int) * (t as int), FX_ONE as int);
        assert(((c as int) * t) * (FX_ONE as int) >= 0) by (nonlinear_arith)
            requires
                (c as int) * t >= 0,
        ;
    }
    let v: i64 = div_trunc((c as i64) * t, FX_ONE);
    if v > 255 {
        255
    } else {
        v
    }
}

} // verus!
