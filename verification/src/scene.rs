//! The set of renderable bodies and the selection/zoom state the main loop
//! drives.

use crate::fixed::{div_trunc, lemma_trunc_div_bound, FxVec3, FX_ONE};
use crate::fragment::CelestialType;
use vstd::prelude::*;

verus! {

/// A renderable celestial body.
#[derive(Clone, Copy, PartialEq, Eq, Structural, Debug)]
pub enum CelestialBody {
    Star,
    Planet,
    GasGiant,
    Ringed,
    Moon,
    Comet,
    Nebula,
}

pub open spec fn to_celestial_type_spec(b: CelestialBody) -> CelestialType {
    match b {
        CelestialBody::Star => CelestialType::Star,
        CelestialBody::Planet => CelestialType::Planet,
        CelestialBody::GasGiant => CelestialType::GasGiant,
        CelestialBody::Ringed => CelestialType::Ringed,
        CelestialBody::Moon => CelestialType::Moon,
        CelestialBody::Comet => CelestialType::Comet,
        CelestialBody::Nebula => CelestialType::Atmosphere,
    }
}

impl CelestialBody {
    /// The shader-dispatch tag this body renders with; a nebula renders
    /// with the atmosphere shader.
    pub fn to_celestial_type(&self) -> (t: CelestialType)
        ensures
            t == to_celestial_type_spec(*self),
    {
        match self {
            CelestialBody::Star => CelestialType::Star,
            CelestialBody::Planet => CelestialType::Planet,
            CelestialBody::GasGiant => CelestialType::GasGiant,
            CelestialBody::Ringed => CelestialType::Ringed,
            CelestialBody::Moon => CelestialType::Moon,
            CelestialBody::Comet => CelestialType::Comet,
            CelestialBody::Nebula => CelestialType::Atmosphere,
        }
    }
}

/// The fixed order the bodies cycle in.
pub open spec fn body_cycle() -> Seq<CelestialBody> {
    seq![
        CelestialBody::Star,
        CelestialBody::Planet,
        CelestialBody::GasGiant,
        CelestialBody::Ringed,
        CelestialBody::Moon,
        CelestialBody::Comet,
        CelestialBody::Nebula,
    ]
}

/// Sequential selection over the visible bodies, plus the camera distance
/// ("zoom level") the main loop maintains per session.
pub struct BodyManager {
    pub all_bodies: Vec<CelestialBody>,
    pub current_index: usize,
    pub zoom_level: i64,
}

pub open spec fn bm_wf(m: BodyManager) -> bool {
    &&& m.all_bodies@ == body_cycle()
    &&& m.current_index < 7
    &&& FX_ONE <= m.zoom_level <= 0x1000_0000
}

impl BodyManager {
    /// Start at the first body, ten units away.
    pub fn new() -> (m: BodyManager)
        ensures
            bm_wf(m),
            m.current_index == 0,
            m.zoom_level == 10 * FX_ONE,
    {
        let mut bodies: Vec<CelestialBody> = Vec::new();
        bodies.push(CelestialBody::Star);
        bodies.push(CelestialBody::Planet);
        bodies.push(CelestialBody::GasGiant);
        bodies.push(CelestialBody::Ringed);
        bodies.push(CelestialBody::Moon);
        bodies.push(CelestialBody::Comet);
        bodies.push(CelestialBody::Nebula);
        proof {
            assert(bodies@ =~= body_cycle());
        }
        BodyManager { all_bodies: bodies, current_index: 0, zoom_level: 10 * FX_ONE }
    }

    /// Step to the next body, cyclically.
    pub fn next(&mut self)
        requires
            bm_wf(*old(self)),
        ensures
            bm_wf(*final(self)),
            final(self).current_index == (old(self).current_index + 1) % 7,
            final(self).all_bodies@ == old(self).all_bodies@,
            final(self).zoom_level == old(self).zoom_level,
    {
        self.current_index = (self.current_index + 1) % self.all_bodies.len();
    }

    /// The currently selected body.
    pub fn current(&self) -> (b: CelestialBody)
        requires
            bm_wf(*self),
        ensures
            b == body_cycle()[self.current_index as int],
    {
        self.all_bodies[self.current_index]
    }

    /// Move the camera a tenth closer, but never below one unit.
    pub fn zoom_in(&mut self)
        requires
            bm_wf(*old(self)),
        ensures
            bm_wf(*final(self)),
            final(self).zoom_level == (if crate::fixed::trunc_div(
                old(self).zoom_level * 10,
                11,
            ) < FX_ONE {
                FX_ONE as int
            } else {
                crate::fixed::trunc_div(old(self).zoom_level * 10, 11)
            }),
            final(self).current_index == old(self).current_index,
            final(self).all_bodies@ == old(self).all_bodies@,
    {
        let z0: i64 = self.zoom_level;
        proof {
            lemma_trunc_div_bound(z0 * 10, 11);
        }
        let shrunk: i64 = div_trunc(z0 * 10, 11);
        proof {
            assert(int_abs_le(shrunk as int, 0xA000_0000)) by (nonlinear_arith)
                requires
                    crate::fixed::int_abs(shrunk as int) * 11 <= crate::fixed::int_abs(z0 * 10),
                    0 <= z0 * 10 <= 0xA000_0000,
                    crate::fixed::int_abs(shrunk as int) == (if shrunk >= 0 {
                        shrunk as int
                    } else {
                        -(shrunk as int)
                    }),
                    crate::fixed::int_abs(z0 * 10) == z0 * 10,
            ;
        }
        self.zoom_level = if shrunk < FX_ONE {
            FX_ONE
        } else {
            shrunk
        };
    }

    /// Move the camera a tenth farther away.
    pub fn zoom_out(&mut self)
        requires
            bm_wf(*old(self)),
            old(self).zoom_level <= 0xE00_0000,
        ensures
            bm_wf(*final(self)),
            final(self).zoom_level == crate::fixed::trunc_div(old(self).zoom_level * 11, 10),
            final(self).current_index == old(self).current_index,
            final(self).all_bodies@ == old(self).all_bodies@,
    {
        let z0: i64 = self.zoom_level;
        proof {
            lemma_trunc_div_bound(z0 * 11, 10);
        }
        let grown: i64 = div_trunc(z0 * 11, 10);
        proof {
            vstd::arithmetic::div_mod::lemma_fundamental_div_mod(z0 * 11, 10);
            assert(FX_ONE <= grown && grown <= 0x1000_0000) by (nonlinear_arith)
                requires
                    crate::fixed::int_abs(grown as int) * 10 <= crate::fixed::int_abs(z0 * 11),
                    grown >= 0,
                    FX_ONE <= z0 <= 0xE00_0000,
                    crate::fixed::int_abs(grown as int) == (if grown >= 0 {
                        grown as int
                    } else {
                        -(grown as int)
                    }),
                    crate::fixed::int_abs(z0 * 11) == z0 * 11,
                    grown == (z0 * 11) / 10,
                    z0 * 11 == 10 * ((z0 * 11) / 10) + (z0 * 11) % 10,
                    0 <= (z0 * 11) % 10 < 10,
            ;
        }
        self.zoom_level = grown;
    }

    /// Select a body by index; an out-of-range index leaves the selection
    /// unchanged.
    pub fn select(&mut self, index: usize)
        requires
            bm_wf(*old(self)),
        ensures
            bm_wf(*final(self)),
            final(self).current_index == (if index < 7 {
                index as int
            } else {
                old(self).current_index as int
            }),
            final(self).all_bodies@ == old(self).all_bodies@,
            final(self).zoom_level == old(self).zoom_level,
    {
        if index < self.all_bodies.len() {
            self.current_index = index;
        }
    }
}

spec fn int_abs_le(v: int, cap: int) -> bool {
    -cap <= v <= cap
}

/// Every body renders at the world origin.
#[allow(unused_variables)]
pub fn get_body_position(body: &CelestialBody, time: u32) -> (p: FxVec3)
    ensures
        p == (FxVec3 { x: 0, y: 0, z: 0 }),
{
    FxVec3::zeros()
}

} // verus!
