//! The orbit/zoom camera and its one-shot change flag.
//!
//! The camera keeps its pose in spherical form -- focus center, radius, yaw
//! and pitch -- which is exactly the form the orbit operation works in: it
//! adds the deltas, wraps yaw into `[0, 2*pi)` and clamps pitch away from
//! the gimbal poles. Turning the pose into an eye position takes
//! trigonometry, which only a floating-point library provides; the caller
//! does that with the values this type hands out.

use crate::fixed::{
    clamp_spec, div_trunc, fx_clamp, int_abs, lemma_trunc_div_bound, trunc_div, FxVec3,
};
use vstd::arithmetic::div_mod::lemma_fundamental_div_mod;
use vstd::prelude::*;

verus! {

/// Pi in fixed point.
pub const FX_PI: i64 = 205887;

/// Two pi in fixed point.
pub const FX_TWO_PI: i64 = 411775;

/// Half pi in fixed point.
pub const FX_HALF_PI: i64 = 102944;

/// The margin (0.1 radian) kept between the pitch and the gimbal poles.
pub const PITCH_MARGIN_FX: i64 = 6554;

/// The largest pitch the camera ever takes. In real terms `96390 / 65536`
/// is strictly below `pi/2 - 0.1`, so the clamped pitch stays strictly
/// inside the open gimbal-safe interval.
pub const PITCH_MAX_FX: i64 = FX_HALF_PI - PITCH_MARGIN_FX;

/// The smallest pitch the camera ever takes; strictly above `-pi/2 + 0.1`.
pub const PITCH_MIN_FX: i64 = -(FX_HALF_PI - PITCH_MARGIN_FX);

/// An angle wrapped into `[0, 2*pi)`: the mathematical (Euclidean) residue.
pub open spec fn wrap_angle_spec(a: int) -> int {
    a % (FX_TWO_PI as int)
}

/// Wrap an angle into `[0, 2*pi)`.
pub fn wrap_angle(a: i64) -> (r: i64)
    requires
        -0x1000_0000_0000 <= a <= 0x1000_0000_0000,
    ensures
        r == wrap_angle_spec(a as int),
        0 <= r < FX_TWO_PI,
{
    proof {
        lemma_trunc_div_bound(a as int, FX_TWO_PI as int);
        lemma_fundamental_div_mod(int_abs(a as int), FX_TWO_PI as int);
        lemma_fundamental_div_mod(a as int, FX_TWO_PI as int);
    }
    let q: i64 = div_trunc(a, FX_TWO_PI);
    let rem: i64 = a - q * FX_TWO_PI;
    proof {
        let t = FX_TWO_PI as int;
        if a >= 0 {
            assert(rem == int_abs(a as int) - t * (int_abs(a as int) / t)) by (nonlinear_arith)
                requires
                    a >= 0,
                    rem == a - (trunc_div(a as int, t)) * t,
                    trunc_div(a as int, t) == int_abs(a as int) / t,
                    int_abs(a as int) == a,
                    t == FX_TWO_PI as int,
            ;
            assert(0 <= rem < t);
            lemma_wrap_unique(a as int, q as int, rem as int);
        } else {
            assert(rem == -(int_abs(a as int) - t * (int_abs(a as int) / t))) by (nonlinear_arith)
                requires
                    a < 0,
                    rem == a - (trunc_div(a as int, t)) * t,
                    trunc_div(a as int, t) == -(int_abs(a as int) / t),
                    int_abs(a as int) == -a,
                    t == FX_TWO_PI as int,
            ;
            assert(-t < rem <= 0);
            if rem == 0 {
                lemma_wrap_unique(a as int, q as int, 0);
            } else {
                lemma_wrap_unique(a as int, q as int - 1, rem + t);
            }
        }
    }
    if rem < 0 {
        rem + FX_TWO_PI
    } else {
        rem
    }
}

proof fn lemma_wrap_unique(a: int, k: int, rho: int)
    requires
        a == (FX_TWO_PI as int) * k + rho,
        0 <= rho < FX_TWO_PI as int,
    ensures
        rho == a % (FX_TWO_PI as int),
{
    lemma_fundamental_div_mod(a, FX_TWO_PI as int);
    assert(rho == a % (FX_TWO_PI as int)) by (nonlinear_arith)
        requires
            a == (FX_TWO_PI as int) * k + rho,
            0 <= rho < FX_TWO_PI as int,
            a == (FX_TWO_PI as int) * (a / (FX_TWO_PI as int)) + a % (FX_TWO_PI as int),
            0 <= a % (FX_TWO_PI as int) < FX_TWO_PI as int,
    ;
}

/// The camera pose: a focus center, an up hint, and a spherical eye
/// position (radius, yaw, pitch), plus the dirty flag consumers read-and-
/// clear through [`Camera::check_if_changed`].
#[derive(Clone, Copy, PartialEq, Eq, Structural, Debug)]
pub struct Camera {
    pub center: FxVec3,
    pub up: FxVec3,
    pub radius: i64,
    pub yaw: i64,
    pub pitch: i64,
    pub has_changed: bool,
}

/// The pose invariant: yaw wrapped, pitch clamped away from the poles.
pub open spec fn camera_wf(c: Camera) -> bool {
    &&& 0 <= c.yaw < FX_TWO_PI
    &&& PITCH_MIN_FX <= c.pitch <= PITCH_MAX_FX
}

impl Camera {
    /// Build a camera; the yaw is wrapped and the pitch clamped so the
    /// invariant holds from the start. The dirty flag starts set.
    pub fn new(center: FxVec3, radius: i64, yaw: i64, pitch: i64, up: FxVec3) -> (c: Camera)
        requires
            -0x1000_0000_0000 <= yaw <= 0x1000_0000_0000,
        ensures
            c.center == center,
            c.up == up,
            c.radius == radius,
            c.yaw == wrap_angle_spec(yaw as int),
            c.pitch == clamp_spec(pitch as int, PITCH_MIN_FX as int, PITCH_MAX_FX as int),
            c.has_changed == true,
            camera_wf(c),
    {
        Camera {
            center,
            up,
            radius,
            yaw: wrap_angle(yaw),
            pitch: fx_clamp(pitch, PITCH_MIN_FX, PITCH_MAX_FX),
            has_changed: true,
        }
    }

    /// Orbit around the focus center: add the deltas, wrap yaw into
    /// `[0, 2*pi)`, clamp pitch into the gimbal-safe interval, and set the
    /// dirty flag unconditionally. Center, radius and up stay fixed.
    pub fn orbit(&mut self, delta_yaw: i64, delta_pitch: i64)
        requires
            camera_wf(*old(self)),
            -0x800_0000_0000 <= delta_yaw <= 0x800_0000_0000,
            -0x800_0000_0000 <= delta_pitch <= 0x800_0000_0000,
        ensures
            final(self).yaw == wrap_angle_spec(old(self).yaw + delta_yaw),
            final(self).pitch == clamp_spec(
                old(self).pitch + delta_pitch,
                PITCH_MIN_FX as int,
                PITCH_MAX_FX as int,
            ),
            PITCH_MIN_FX <= final(self).pitch <= PITCH_MAX_FX,
            final(self).has_changed == true,
            final(self).center == old(self).center,
            final(self).up == old(self).up,
            final(self).radius == old(self).radius,
            camera_wf(*final(self)),
    {
        let new_yaw: i64 = wrap_angle(self.yaw + delta_yaw);
        let new_pitch: i64 = fx_clamp(self.pitch + delta_pitch, PITCH_MIN_FX, PITCH_MAX_FX);
        self.yaw = new_yaw;
        self.pitch = new_pitch;
        self.has_changed = true;
    }

    /// Zoom: move the eye along the view direction by `delta`, that is,
    /// shorten the radius by `delta`. The radius is not re-clamped; keeping
    /// `delta` below the radius is the caller's responsibility.
    pub fn zoom(&mut self, delta: i64)
        requires
            -0x1000_0000_0000 <= old(self).radius <= 0x1000_0000_0000,
            -0x1000_0000_0000 <= delta <= 0x1000_0000_0000,
        ensures
            final(self).radius == old(self).radius - delta,
            final(self).has_changed == true,
            final(self).center == old(self).center,
            final(self).up == old(self).up,
            final(self).yaw == old(self).yaw,
            final(self).pitch == old(self).pitch,
    {
        self.radius = self.radius - delta;
        self.has_changed = true;
    }

    /// The one-shot dirty check: report whether the pose changed since the
    /// last check, and clear the flag in the same step.
    pub fn check_if_changed(&mut self) -> (changed: bool)
        ensures
            changed == old(self).has_changed,
            final(self).has_changed == false,
            final(self).center == old(self).center,
            final(self).up == old(self).up,
            final(self).radius == old(self).radius,
            final(self).yaw == old(self).yaw,
            final(self).pitch == old(self).pitch,
    {
        if self.has_changed {
            self.has_changed = false;
            true
        } else {
            false
        }
    }
}

} // verus!
