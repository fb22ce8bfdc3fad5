//! Fragments and the closed set of celestial body kinds.

use crate::color::Color;
use crate::fixed::{FxVec2, FxVec3, FxVec4};
use vstd::prelude::*;

verus! {

/// The closed tag set that drives fragment-shader dispatch. Every vertex,
/// triangle and fragment carries one of these, so downstream stages need no
/// external lookup.
#[derive(Clone, Copy, PartialEq, Eq, Structural, Debug)]
pub enum CelestialType {
    Star,
    Planet,
    GasGiant,
    Ringed,
    Rings,
    Planet2,
    Mars,
    Moon,
    Comet,
    Atmosphere,
}

/// One shaded pixel candidate: created by the rasterizer, consumed once by
/// the fragment shader, then discarded.
#[derive(Clone, Copy, PartialEq, Eq, Structural, Debug)]
pub struct Fragment {
    /// Whole-pixel screen coordinates.
    pub position: FxVec2,
    /// The rasterizer's provisional lit color.
    pub color: Color,
    /// Interpolated depth (NDC z, fixed point); smaller is nearer.
    pub depth: i64,
    /// Interpolated, renormalized surface normal.
    pub normal: FxVec3,
    /// Provisional light intensity from a fixed default light direction.
    pub intensity: i64,
    /// Interpolated model-space position as a homogeneous point.
    pub vertex_position: FxVec4,
    pub celestial_type: CelestialType,
}

impl Fragment {
    pub fn new(
        x: i64,
        y: i64,
        color: Color,
        depth: i64,
        normal: FxVec3,
        intensity: i64,
        vertex_position: FxVec4,
        celestial_type: CelestialType,
    ) -> (f: Fragment)
        ensures
            f == (Fragment {
                position: FxVec2 { x, y },
                color,
                depth,
                normal,
                intensity,
                vertex_position,
                celestial_type,
            }),
    {
        Fragment {
            position: FxVec2 { x, y },
            color,
            depth,
            normal,
            intensity,
            vertex_position,
            celestial_type,
        }
    }
}

} // verus!
