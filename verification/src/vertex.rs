//! Mesh vertices, before and after the transform stage.

use crate::color::Color;
use crate::fixed::{FxVec2, FxVec3};
use vstd::prelude::*;

verus! {

/// One mesh vertex. The two `transformed_*` fields are derived: they are
/// zero until the vertex transform stage fills them, and must never be
/// carried across frames.
#[derive(Clone, Copy, PartialEq, Eq, Structural, Debug)]
pub struct Vertex {
    /// Model-space position.
    pub position: FxVec3,
    /// Model-space normal.
    pub normal: FxVec3,
    pub tex_coords: FxVec2,
    pub color: Color,
    /// Screen-space position: x, y in fixed-point pixels, z the NDC depth.
    pub transformed_position: FxVec3,
    /// World-space normal after the inverse-transpose transform.
    pub transformed_normal: FxVec3,
}

impl Vertex {
    pub fn new(position: FxVec3, normal: FxVec3, tex_coords: FxVec2) -> (v: Vertex)
        ensures
            v == (Vertex {
                position,
                normal,
                tex_coords,
                color: Color { r: 0, g: 0, b: 0 },
                transformed_position: FxVec3 { x: 0, y: 0, z: 0 },
                transformed_normal: FxVec3 { x: 0, y: 0, z: 0 },
            }),
    {
        Vertex {
            position,
            normal,
            tex_coords,
            color: Color::black(),
            transformed_position: FxVec3::zeros(),
            transformed_normal: FxVec3::zeros(),
        }
    }
}

} // verus!
