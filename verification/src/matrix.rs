//! Fixed-point 4x4 and 3x3 matrices: products, matrix-vector application,
//! and the cofactor/determinant machinery behind the normal-matrix
//! (inverse-transpose) computation.

use crate::fixed::{
    div_trunc, fx_div_spec, fx_mul_cap, fx_mul_spec, int_abs, iv3, iv4, lemma_trunc_div_bound,
    FxVec3, FxVec4, IVec3, IVec4, FX_ONE,
};
use vstd::prelude::*;

verus! {

/// A normal-matrix entry beyond this bound falls back to the identity
/// matrix (the same recoverable degradation as a singular matrix).
pub const NORMAL_MAT_LIMIT: i64 = 0x200_0000;

/// A 4x4 fixed-point matrix, row-major fields.
#[derive(Clone, Copy, PartialEq, Eq, Structural, Debug)]
pub struct FxMat4 {
    pub m00: i64,
    pub m01: i64,
    pub m02: i64,
    pub m03: i64,
    pub m10: i64,
    pub m11: i64,
    pub m12: i64,
    pub m13: i64,
    pub m20: i64,
    pub m21: i64,
    pub m22: i64,
    pub m23: i64,
    pub m30: i64,
    pub m31: i64,
    pub m32: i64,
    pub m33: i64,
}

/// The mathematical model of a 4x4 matrix.
pub ghost struct IMat4 {
    pub m00: int,
    pub m01: int,
    pub m02: int,
    pub m03: int,
    pub m10: int,
    pub m11: int,
    pub m12: int,
    pub m13: int,
    pub m20: int,
    pub m21: int,
    pub m22: int,
    pub m23: int,
    pub m30: int,
    pub m31: int,
    pub m32: int,
    pub m33: int,
}

pub open spec fn im4(m: FxMat4) -> IMat4 {
    IMat4 {
        m00: m.m00 as int,
        m01: m.m01 as int,
        m02: m.m02 as int,
        m03: m.m03 as int,
        m10: m.m10 as int,
        m11: m.m11 as int,
        m12: m.m12 as int,
        m13: m.m13 as int,
        m20: m.m20 as int,
        m21: m.m21 as int,
        m22: m.m22 as int,
        m23: m.m23 as int,
        m30: m.m30 as int,
        m31: m.m31 as int,
        m32: m.m32 as int,
        m33: m.m33 as int,
    }
}

pub open spec fn mat4_bounded(m: FxMat4, c: int) -> bool {
    -c <= m.m00 <= c && -c <= m.m01 <= c && -c <= m.m02 <= c && -c <= m.m03 <= c && -c <= m.m10 <= c && -c <= m.m11 <= c && -c <= m.m12 <= c && -c <= m.m13 <= c && -c <= m.m20 <= c && -c <= m.m21 <= c && -c <= m.m22 <= c && -c <= m.m23 <= c && -c <= m.m30 <= c && -c <= m.m31 <= c && -c <= m.m32 <= c && -c <= m.m33 <= c
}

/// Every entry's magnitude times `FX_ONE` stays within `k`.
pub open spec fn mat4_capped(m: FxMat4, k: int) -> bool {
    (FX_ONE as int) * int_abs(m.m00 as int) <= k && (FX_ONE as int) * int_abs(m.m01 as int) <= k && (FX_ONE as int) * int_abs(m.m02 as int) <= k && (FX_ONE as int) * int_abs(m.m03 as int) <= k && (FX_ONE as int) * int_abs(m.m10 as int) <= k && (FX_ONE as int) * int_abs(m.m11 as int) <= k && (FX_ONE as int) * int_abs(m.m12 as int) <= k && (FX_ONE as int) * int_abs(m.m13 as int) <= k && (FX_ONE as int) * int_abs(m.m20 as int) <= k && (FX_ONE as int) * int_abs(m.m21 as int) <= k && (FX_ONE as int) * int_abs(m.m22 as int) <= k && (FX_ONE as int) * int_abs(m.m23 as int) <= k && (FX_ONE as int) * int_abs(m.m30 as int) <= k && (FX_ONE as int) * int_abs(m.m31 as int) <= k && (FX_ONE as int) * int_abs(m.m32 as int) <= k && (FX_ONE as int) * int_abs(m.m33 as int) <= k
}

/// The fixed-point dot product of a row and a column: the sum of four
/// truncated fixed-point products.
pub open spec fn fxdot4(
    a0: int,
    a1: int,
    a2: int,
    a3: int,
    b0: int,
    b1: int,
    b2: int,
    b3: int,
) -> int {
    fx_mul_spec(a0, b0) + fx_mul_spec(a1, b1) + fx_mul_spec(a2, b2) + fx_mul_spec(a3, b3)
}

pub open spec fn mat4_mul_spec(a: IMat4, b: IMat4) -> IMat4 {
    IMat4 {
        m00: fxdot4(a.m00, a.m01, a.m02, a.m03, b.m00, b.m10, b.m20, b.m30),
        m01: fxdot4(a.m00, a.m01, a.m02, a.m03, b.m01, b.m11, b.m21, b.m31),
        m02: fxdot4(a.m00, a.m01, a.m02, a.m03, b.m02, b.m12, b.m22, b.m32),
        m03: fxdot4(a.m00, a.m01, a.m02, a.m03, b.m03, b.m13, b.m23, b.m33),
        m10: fxdot4(a.m10, a.m11, a.m12, a.m13, b.m00, b.m10, b.m20, b.m30),
        m11: fxdot4(a.m10, a.m11, a.m12, a.m13, b.m01, b.m11, b.m21, b.m31),
        m12: fxdot4(a.m10, a.m11, a.m12, a.m13, b.m02, b.m12, b.m22, b.m32),
        m13: fxdot4(a.m10, a.m11, a.m12, a.m13, b.m03, b.m13, b.m23, b.m33),
        m20: fxdot4(a.m20, a.m21, a.m22, a.m23, b.m00, b.m10, b.m20, b.m30),
        m21: fxdot4(a.m20, a.m21, a.m22, a.m23, b.m01, b.m11, b.m21, b.m31),
        m22: fxdot4(a.m20, a.m21, a.m22, a.m23, b.m02, b.m12, b.m22, b.m32),
        m23: fxdot4(a.m20, a.m21, a.m22, a.m23, b.m03, b.m13, b.m23, b.m33),
        m30: fxdot4(a.m30, a.m31, a.m32, a.m33, b.m00, b.m10, b.m20, b.m30),
        m31: fxdot4(a.m30, a.m31, a.m32, a.m33, b.m01, b.m11, b.m21, b.m31),
        m32: fxdot4(a.m30, a.m31, a.m32, a.m33, b.m02, b.m12, b.m22, b.m32),
        m33: fxdot4(a.m30, a.m31, a.m32, a.m33, b.m03, b.m13, b.m23, b.m33),
    }
}

pub open spec fn mat4_vec_spec(m: IMat4, v: IVec4) -> IVec4 {
    IVec4 {
        x: fxdot4(m.m00, m.m01, m.m02, m.m03, v.x, v.y, v.z, v.w),
        y: fxdot4(m.m10, m.m11, m.m12, m.m13, v.x, v.y, v.z, v.w),
        z: fxdot4(m.m20, m.m21, m.m22, m.m23, v.x, v.y, v.z, v.w),
        w: fxdot4(m.m30, m.m31, m.m32, m.m33, v.x, v.y, v.z, v.w),
    }
}

/// One row-times-column product with ghost magnitude caps.
fn dot4(
    a0: i64,
    a1: i64,
    a2: i64,
    a3: i64,
    b0: i64,
    b1: i64,
    b2: i64,
    b3: i64,
    Ghost(ca): Ghost<int>,
    Ghost(cb): Ghost<int>,
) -> (r: i64)
    requires
        0 <= ca,
        0 <= cb,
        ca * cb <= 0x4000_0000_0000_0000,
        int_abs(a0 as int) <= ca,
        int_abs(a1 as int) <= ca,
        int_abs(a2 as int) <= ca,
        int_abs(a3 as int) <= ca,
        int_abs(b0 as int) <= cb,
        int_abs(b1 as int) <= cb,
        int_abs(b2 as int) <= cb,
        int_abs(b3 as int) <= cb,
    ensures
        r == fxdot4(
            a0 as int,
            a1 as int,
            a2 as int,
            a3 as int,
            b0 as int,
            b1 as int,
            b2 as int,
            b3 as int,
        ),
        (FX_ONE as int) * int_abs(r as int) <= 4 * (ca * cb),
{
    let p0: i64 = fx_mul_cap(a0, b0, Ghost(ca), Ghost(cb));
    let p1: i64 = fx_mul_cap(a1, b1, Ghost(ca), Ghost(cb));
    let p2: i64 = fx_mul_cap(a2, b2, Ghost(ca), Ghost(cb));
    let p3: i64 = fx_mul_cap(a3, b3, Ghost(ca), Ghost(cb));
    p0 + p1 + p2 + p3
}

/// The fixed-point matrix product `a * b`, with ghost magnitude caps on
/// the operands' entries.
pub fn mat4_mul(a: &FxMat4, b: &FxMat4, Ghost(ca): Ghost<int>, Ghost(cb): Ghost<int>) -> (r:
    FxMat4)
    requires
        0 <= ca,
        0 <= cb,
        ca * cb <= 0x4000_0000_0000_0000,
        mat4_bounded(*a, ca),
        mat4_bounded(*b, cb),
    ensures
        im4(r) == mat4_mul_spec(im4(*a), im4(*b)),
        mat4_capped(r, 4 * (ca * cb)),
{
    FxMat4 {
        m00: dot4(a.m00, a.m01, a.m02, a.m03, b.m00, b.m10, b.m20, b.m30, Ghost(ca), Ghost(cb)),
        m01: dot4(a.m00, a.m01, a.m02, a.m03, b.m01, b.m11, b.m21, b.m31, Ghost(ca), Ghost(cb)),
        m02: dot4(a.m00, a.m01, a.m02, a.m03, b.m02, b.m12, b.m22, b.m32, Ghost(ca), Ghost(cb)),
        m03: dot4(a.m00, a.m01, a.m02, a.m03, b.m03, b.m13, b.m23, b.m33, Ghost(ca), Ghost(cb)),
        m10: dot4(a.m10, a.m11, a.m12, a.m13, b.m00, b.m10, b.m20, b.m30, Ghost(ca), Ghost(cb)),
        m11: dot4(a.m10, a.m11, a.m12, a.m13, b.m01, b.m11, b.m21, b.m31, Ghost(ca), Ghost(cb)),
        m12: dot4(a.m10, a.m11, a.m12, a.m13, b.m02, b.m12, b.m22, b.m32, Ghost(ca), Ghost(cb)),
        m13: dot4(a.m10, a.m11, a.m12, a.m13, b.m03, b.m13, b.m23, b.m33, Ghost(ca), Ghost(cb)),
        m20: dot4(a.m20, a.m21, a.m22, a.m23, b.m00, b.m10, b.m20, b.m30, Ghost(ca), Ghost(cb)),
        m21: dot4(a.m20, a.m21, a.m22, a.m23, b.m01, b.m11, b.m21, b.m31, Ghost(ca), Ghost(cb)),
        m22: dot4(a.m20, a.m21, a.m22, a.m23, b.m02, b.m12, b.m22, b.m32, Ghost(ca), Ghost(cb)),
        m23: dot4(a.m20, a.m21, a.m22, a.m23, b.m03, b.m13, b.m23, b.m33, Ghost(ca), Ghost(cb)),
        m30: dot4(a.m30, a.m31, a.m32, a.m33, b.m00, b.m10, b.m20, b.m30, Ghost(ca), Ghost(cb)),
        m31: dot4(a.m30, a.m31, a.m32, a.m33, b.m01, b.m11, b.m21, b.m31, Ghost(ca), Ghost(cb)),
        m32: dot4(a.m30, a.m31, a.m32, a.m33, b.m02, b.m12, b.m22, b.m32, Ghost(ca), Ghost(cb)),
        m33: dot4(a.m30, a.m31, a.m32, a.m33, b.m03, b.m13, b.m23, b.m33, Ghost(ca), Ghost(cb)),
    }
}

/// Apply a matrix to a homogeneous point, with ghost magnitude caps.
pub fn mat4_mul_vec4(m: &FxMat4, v: &FxVec4, Ghost(cm): Ghost<int>, Ghost(cv): Ghost<int>) -> (r:
    FxVec4)
    requires
        0 <= cm,
        0 <= cv,
        cm * cv <= 0x4000_0000_0000_0000,
        mat4_bounded(*m, cm),
        crate::fixed::vec4_bounded(*v, cv),
    ensures
        iv4(r) == mat4_vec_spec(im4(*m), iv4(*v)),
        (FX_ONE as int) * int_abs(r.x as int) <= 4 * (cm * cv),
        (FX_ONE as int) * int_abs(r.y as int) <= 4 * (cm * cv),
        (FX_ONE as int) * int_abs(r.z as int) <= 4 * (cm * cv),
        (FX_ONE as int) * int_abs(r.w as int) <= 4 * (cm * cv),
{
    FxVec4 {
        x: dot4(m.m00, m.m01, m.m02, m.m03, v.x, v.y, v.z, v.w, Ghost(cm), Ghost(cv)),
        y: dot4(m.m10, m.m11, m.m12, m.m13, v.x, v.y, v.z, v.w, Ghost(cm), Ghost(cv)),
        z: dot4(m.m20, m.m21, m.m22, m.m23, v.x, v.y, v.z, v.w, Ghost(cm), Ghost(cv)),
        w: dot4(m.m30, m.m31, m.m32, m.m33, v.x, v.y, v.z, v.w, Ghost(cm), Ghost(cv)),
    }
}

/// The fixed-point identity matrix.
pub fn mat4_identity() -> (r: FxMat4)
    ensures
        im4(r) == imat4_identity(),
        mat4_bounded(r, FX_ONE as int),
{
    FxMat4 {
        m00: FX_ONE,
        m01: 0,
        m02: 0,
        m03: 0,
        m10: 0,
        m11: FX_ONE,
        m12: 0,
        m13: 0,
        m20: 0,
        m21: 0,
        m22: FX_ONE,
        m23: 0,
        m30: 0,
        m31: 0,
        m32: 0,
        m33: FX_ONE,
    }
}

pub open spec fn imat4_identity() -> IMat4 {
    IMat4 {
        m00: FX_ONE as int,
        m01: 0,
        m02: 0,
        m03: 0,
        m10: 0,
        m11: FX_ONE as int,
        m12: 0,
        m13: 0,
        m20: 0,
        m21: 0,
        m22: FX_ONE as int,
        m23: 0,
        m30: 0,
        m31: 0,
        m32: 0,
        m33: FX_ONE as int,
    }
}

/// A 3x3 fixed-point matrix.
#[derive(Clone, Copy, PartialEq, Eq, Structural, Debug)]
pub struct FxMat3 {
    pub m00: i64,
    pub m01: i64,
    pub m02: i64,
    pub m10: i64,
    pub m11: i64,
    pub m12: i64,
    pub m20: i64,
    pub m21: i64,
    pub m22: i64,
}

/// The mathematical model of a 3x3 matrix.
pub ghost struct IMat3 {
    pub m00: int,
    pub m01: int,
    pub m02: int,
    pub m10: int,
    pub m11: int,
    pub m12: int,
    pub m20: int,
    pub m21: int,
    pub m22: int,
}

pub open spec fn im3(m: FxMat3) -> IMat3 {
    IMat3 {
        m00: m.m00 as int,
        m01: m.m01 as int,
        m02: m.m02 as int,
        m10: m.m10 as int,
        m11: m.m11 as int,
        m12: m.m12 as int,
        m20: m.m20 as int,
        m21: m.m21 as int,
        m22: m.m22 as int,
    }
}

pub open spec fn mat3_bounded(m: FxMat3, c: int) -> bool {
    -c <= m.m00 <= c && -c <= m.m01 <= c && -c <= m.m02 <= c && -c <= m.m10 <= c && -c <= m.m11 <= c && -c <= m.m12 <= c && -c <= m.m20 <= c && -c <= m.m21 <= c && -c <= m.m22 <= c
}

/// The upper-left 3x3 linear part of a 4x4 matrix.
pub open spec fn upper3_spec(m: IMat4) -> IMat3 {
    IMat3 {
        m00: m.m00,
        m01: m.m01,
        m02: m.m02,
        m10: m.m10,
        m11: m.m11,
        m12: m.m12,
        m20: m.m20,
        m21: m.m21,
        m22: m.m22,
    }
}

pub fn upper3(m: &FxMat4) -> (r: FxMat3)
    ensures
        im3(r) == upper3_spec(im4(*m)),
        r.m00 == m.m00 && r.m01 == m.m01 && r.m02 == m.m02,
        r.m10 == m.m10 && r.m11 == m.m11 && r.m12 == m.m12,
        r.m20 == m.m20 && r.m21 == m.m21 && r.m22 == m.m22,
{
    FxMat3 {
        m00: m.m00,
        m01: m.m01,
        m02: m.m02,
        m10: m.m10,
        m11: m.m11,
        m12: m.m12,
        m20: m.m20,
        m21: m.m21,
        m22: m.m22,
    }
}

/// The cofactor matrix (the transpose of the adjugate). Dividing it by the
/// determinant gives the inverse-transpose, which is the normal matrix.
pub open spec fn mat3_cofactor_spec(m: IMat3) -> IMat3 {
    IMat3 {
        m00: fx_mul_spec(m.m11, m.m22) - fx_mul_spec(m.m12, m.m21),
        m01: fx_mul_spec(m.m12, m.m20) - fx_mul_spec(m.m10, m.m22),
        m02: fx_mul_spec(m.m10, m.m21) - fx_mul_spec(m.m11, m.m20),
        m10: fx_mul_spec(m.m02, m.m21) - fx_mul_spec(m.m01, m.m22),
        m11: fx_mul_spec(m.m00, m.m22) - fx_mul_spec(m.m02, m.m20),
        m12: fx_mul_spec(m.m01, m.m20) - fx_mul_spec(m.m00, m.m21),
        m20: fx_mul_spec(m.m01, m.m12) - fx_mul_spec(m.m02, m.m11),
        m21: fx_mul_spec(m.m02, m.m10) - fx_mul_spec(m.m00, m.m12),
        m22: fx_mul_spec(m.m00, m.m11) - fx_mul_spec(m.m01, m.m10),
    }
}

/// The determinant, expanded along the first row with the cofactors.
pub open spec fn mat3_det_spec(m: IMat3) -> int {
    fx_mul_spec(m.m00, mat3_cofactor_spec(m).m00) + fx_mul_spec(m.m01, mat3_cofactor_spec(m).m01)
        + fx_mul_spec(m.m02, mat3_cofactor_spec(m).m02)
}

pub open spec fn imat3_identity() -> IMat3 {
    IMat3 {
        m00: FX_ONE as int,
        m01: 0,
        m02: 0,
        m10: 0,
        m11: FX_ONE as int,
        m12: 0,
        m20: 0,
        m21: 0,
        m22: FX_ONE as int,
    }
}

/// The normal matrix of a model matrix's linear part: the cofactor matrix
/// over the determinant. A singular matrix -- or one whose inverse entries
/// leave the safe fixed-point range -- falls back to the identity, a
/// deliberate, silent recoverable degradation.
pub open spec fn normal_matrix_spec(m: IMat3) -> IMat3 {
    let cof = mat3_cofactor_spec(m);
    let det = mat3_det_spec(m);
    if det == 0 {
        imat3_identity()
    } else {
        let n = IMat3 {
            m00: fx_div_spec(cof.m00, det),
            m01: fx_div_spec(cof.m01, det),
            m02: fx_div_spec(cof.m02, det),
            m10: fx_div_spec(cof.m10, det),
            m11: fx_div_spec(cof.m11, det),
            m12: fx_div_spec(cof.m12, det),
            m20: fx_div_spec(cof.m20, det),
            m21: fx_div_spec(cof.m21, det),
            m22: fx_div_spec(cof.m22, det),
        };
        if imat3_within(n, NORMAL_MAT_LIMIT as int) {
            n
        } else {
            imat3_identity()
        }
    }
}

pub open spec fn imat3_within(m: IMat3, c: int) -> bool {
    &&& -c <= m.m00 <= c && -c <= m.m01 <= c && -c <= m.m02 <= c
    &&& -c <= m.m10 <= c && -c <= m.m11 <= c && -c <= m.m12 <= c
    &&& -c <= m.m20 <= c && -c <= m.m21 <= c && -c <= m.m22 <= c
}

/// Entry-wise cap: every entry's magnitude times `FX_ONE` stays within `k`.
pub open spec fn mat3_capped(m: FxMat3, k: int) -> bool {
    &&& (FX_ONE as int) * int_abs(m.m00 as int) <= k
    &&& (FX_ONE as int) * int_abs(m.m01 as int) <= k
    &&& (FX_ONE as int) * int_abs(m.m02 as int) <= k
    &&& (FX_ONE as int) * int_abs(m.m10 as int) <= k
    &&& (FX_ONE as int) * int_abs(m.m11 as int) <= k
    &&& (FX_ONE as int) * int_abs(m.m12 as int) <= k
    &&& (FX_ONE as int) * int_abs(m.m20 as int) <= k
    &&& (FX_ONE as int) * int_abs(m.m21 as int) <= k
    &&& (FX_ONE as int) * int_abs(m.m22 as int) <= k
}

pub open spec fn fxdot3(a0: int, a1: int, a2: int, b0: int, b1: int, b2: int) -> int {
    fx_mul_spec(a0, b0) + fx_mul_spec(a1, b1) + fx_mul_spec(a2, b2)
}

pub open spec fn mat3_vec_spec(m: IMat3, v: IVec3) -> IVec3 {
    IVec3 {
        x: fxdot3(m.m00, m.m01, m.m02, v.x, v.y, v.z),
        y: fxdot3(m.m10, m.m11, m.m12, v.x, v.y, v.z),
        z: fxdot3(m.m20, m.m21, m.m22, v.x, v.y, v.z),
    }
}

fn dot3(
    a0: i64,
    a1: i64,
    a2: i64,
    b0: i64,
    b1: i64,
    b2: i64,
    Ghost(ca): Ghost<int>,
    Ghost(cb): Ghost<int>,
) -> (r: i64)
    requires
        0 <= ca,
        0 <= cb,
        ca * cb <= 0x4000_0000_0000_0000,
        int_abs(a0 as int) <= ca,
        int_abs(a1 as int) <= ca,
        int_abs(a2 as int) <= ca,
        int_abs(b0 as int) <= cb,
        int_abs(b1 as int) <= cb,
        int_abs(b2 as int) <= cb,
    ensures
        r == fxdot3(a0 as int, a1 as int, a2 as int, b0 as int, b1 as int, b2 as int),
        (FX_ONE as int) * int_abs(r as int) <= 3 * (ca * cb),
{
    let p0: i64 = fx_mul_cap(a0, b0, Ghost(ca), Ghost(cb));
    let p1: i64 = fx_mul_cap(a1, b1, Ghost(ca), Ghost(cb));
    let p2: i64 = fx_mul_cap(a2, b2, Ghost(ca), Ghost(cb));
    p0 + p1 + p2
}

/// Apply a 3x3 matrix to a vector, with ghost magnitude caps.
pub fn mat3_mul_vec3(m: &FxMat3, v: &FxVec3, Ghost(cm): Ghost<int>, Ghost(cv): Ghost<int>) -> (r:
    FxVec3)
    requires
        0 <= cm,
        0 <= cv,
        cm * cv <= 0x4000_0000_0000_0000,
        mat3_bounded(*m, cm),
        crate::fixed::vec3_bounded(*v, cv),
    ensures
        iv3(r) == mat3_vec_spec(im3(*m), iv3(*v)),
        (FX_ONE as int) * int_abs(r.x as int) <= 3 * (cm * cv),
        (FX_ONE as int) * int_abs(r.y as int) <= 3 * (cm * cv),
        (FX_ONE as int) * int_abs(r.z as int) <= 3 * (cm * cv),
{
    FxVec3 {
        x: dot3(m.m00, m.m01, m.m02, v.x, v.y, v.z, Ghost(cm), Ghost(cv)),
        y: dot3(m.m10, m.m11, m.m12, v.x, v.y, v.z, Ghost(cm), Ghost(cv)),
        z: dot3(m.m20, m.m21, m.m22, v.x, v.y, v.z, Ghost(cm), Ghost(cv)),
    }
}

fn mat3_identity() -> (r: FxMat3)
    ensures
        im3(r) == imat3_identity(),
        mat3_bounded(r, NORMAL_MAT_LIMIT as int),
{
    FxMat3 {
        m00: FX_ONE,
        m01: 0,
        m02: 0,
        m10: 0,
        m11: FX_ONE,
        m12: 0,
        m20: 0,
        m21: 0,
        m22: FX_ONE,
    }
}

/// Compute the normal matrix (inverse-transpose of the model matrix's
/// linear part): the cofactor matrix divided by the determinant, with the
/// identity as the explicit fallback when the matrix is singular or the
/// quotients leave the safe range.
pub fn normal_matrix_of(m: &FxMat3) -> (r: FxMat3)
    requires
        mat3_bounded(*m, 0x20_0000),
    ensures
        im3(r) == normal_matrix_spec(im3(*m)),
        mat3_bounded(r, NORMAL_MAT_LIMIT as int),
{
    let c00: i64 = cof_entry(m.m11, m.m22, m.m12, m.m21);
    let c01: i64 = cof_entry(m.m12, m.m20, m.m10, m.m22);
    let c02: i64 = cof_entry(m.m10, m.m21, m.m11, m.m20);
    let c10: i64 = cof_entry(m.m02, m.m21, m.m01, m.m22);
    let c11: i64 = cof_entry(m.m00, m.m22, m.m02, m.m20);
    let c12: i64 = cof_entry(m.m01, m.m20, m.m00, m.m21);
    let c20: i64 = cof_entry(m.m01, m.m12, m.m02, m.m11);
    let c21: i64 = cof_entry(m.m02, m.m10, m.m00, m.m12);
    let c22: i64 = cof_entry(m.m00, m.m11, m.m01, m.m10);
    let d0: i64 = fx_mul_cap(m.m00, c00, Ghost(0x20_0000), Ghost(0x800_0000));
    let d1: i64 = fx_mul_cap(m.m01, c01, Ghost(0x20_0000), Ghost(0x800_0000));
    let d2: i64 = fx_mul_cap(m.m02, c02, Ghost(0x20_0000), Ghost(0x800_0000));
    let det: i64 = d0 + d1 + d2;
    if det == 0 {
        return mat3_identity();
    }
    let n00: i64 = inv_entry(c00, det);
    let n01: i64 = inv_entry(c01, det);
    let n02: i64 = inv_entry(c02, det);
    let n10: i64 = inv_entry(c10, det);
    let n11: i64 = inv_entry(c11, det);
    let n12: i64 = inv_entry(c12, det);
    let n20: i64 = inv_entry(c20, det);
    let n21: i64 = inv_entry(c21, det);
    let n22: i64 = inv_entry(c22, det);
    let within: bool = in_limit(n00) && in_limit(n01) && in_limit(n02) && in_limit(n10)
        && in_limit(n11) && in_limit(n12) && in_limit(n20) && in_limit(n21) && in_limit(n22);
    if within {
        FxMat3 {
            m00: n00,
            m01: n01,
            m02: n02,
            m10: n10,
            m11: n11,
            m12: n12,
            m20: n20,
            m21: n21,
            m22: n22,
        }
    } else {
        mat3_identity()
    }
}

/// One cofactor: `p * q - r * s` in fixed point.
fn cof_entry(p: i64, q: i64, r: i64, s: i64) -> (e: i64)
    requires
        int_abs(p as int) <= 0x20_0000,
        int_abs(q as int) <= 0x20_0000,
        int_abs(r as int) <= 0x20_0000,
        int_abs(s as int) <= 0x20_0000,
    ensures
        e == fx_mul_spec(p as int, q as int) - fx_mul_spec(r as int, s as int),
        int_abs(e as int) <= 0x800_0000,
{
    let a: i64 = fx_mul_cap(p, q, Ghost(0x20_0000), Ghost(0x20_0000));
    let b: i64 = fx_mul_cap(r, s, Ghost(0x20_0000), Ghost(0x20_0000));
    a - b
}

/// One entry of the inverse-transpose: a cofactor over the determinant.
fn inv_entry(cof: i64, det: i64) -> (e: i64)
    requires
        det != 0,
        int_abs(cof as int) <= 0x800_0000,
        int_abs(det as int) <= 0x7FFF_FFFF_FFFF_FFFF,
    ensures
        e == fx_div_spec(cof as int, det as int),
{
    proof {
        lemma_trunc_div_bound(cof as int * (FX_ONE as int), det as int);
    }
    div_trunc(cof * FX_ONE, det)
}

fn in_limit(v: i64) -> (r: bool)
    ensures
        r == (-NORMAL_MAT_LIMIT <= v <= NORMAL_MAT_LIMIT),
{
    -NORMAL_MAT_LIMIT <= v && v <= NORMAL_MAT_LIMIT
}

/// The viewport matrix: maps NDC x,y to pixel coordinates (y flipped) and
/// passes NDC z through unchanged.
pub open spec fn viewport_spec(w: int, h: int) -> IMat4 {
    IMat4 {
        m00: crate::fixed::trunc_div(w, 2),
        m01: 0,
        m02: 0,
        m03: crate::fixed::trunc_div(w, 2),
        m10: 0,
        m11: -crate::fixed::trunc_div(h, 2),
        m12: 0,
        m13: crate::fixed::trunc_div(h, 2),
        m20: 0,
        m21: 0,
        m22: FX_ONE as int,
        m23: 0,
        m30: 0,
        m31: 0,
        m32: 0,
        m33: FX_ONE as int,
    }
}

/// Build the viewport matrix for a `width * height` pixel target (both in
/// fixed point).
pub fn create_viewport_matrix(width: i64, height: i64) -> (r: FxMat4)
    requires
        0 <= width <= 0x2000_0000,
        0 <= height <= 0x2000_0000,
    ensures
        im4(r) == viewport_spec(width as int, height as int),
        mat4_bounded(r, 0x1000_0000),
{
    proof {
        lemma_trunc_div_bound(width as int, 2);
        lemma_trunc_div_bound(height as int, 2);
    }
    let half_w: i64 = div_trunc(width, 2);
    let half_h: i64 = div_trunc(height, 2);
    FxMat4 {
        m00: half_w,
        m01: 0,
        m02: 0,
        m03: half_w,
        m10: 0,
        m11: -half_h,
        m12: 0,
        m13: half_h,
        m20: 0,
        m21: 0,
        m22: FX_ONE,
        m23: 0,
        m30: 0,
        m31: 0,
        m32: 0,
        m33: FX_ONE,
    }
}

/// The rotation about x by an angle given through its sine and cosine.
pub open spec fn rotation_x_spec(sn: int, cs: int) -> IMat4 {
    IMat4 {
        m00: FX_ONE as int,
        m01: 0,
        m02: 0,
        m03: 0,
        m10: 0,
        m11: cs,
        m12: -sn,
        m13: 0,
        m20: 0,
        m21: sn,
        m22: cs,
        m23: 0,
        m30: 0,
        m31: 0,
        m32: 0,
        m33: FX_ONE as int,
    }
}

pub open spec fn rotation_y_spec(sn: int, cs: int) -> IMat4 {
    IMat4 {
        m00: cs,
        m01: 0,
        m02: sn,
        m03: 0,
        m10: 0,
        m11: FX_ONE as int,
        m12: 0,
        m13: 0,
        m20: -sn,
        m21: 0,
        m22: cs,
        m23: 0,
        m30: 0,
        m31: 0,
        m32: 0,
        m33: FX_ONE as int,
    }
}

pub open spec fn rotation_z_spec(sn: int, cs: int) -> IMat4 {
    IMat4 {
        m00: cs,
        m01: -sn,
        m02: 0,
        m03: 0,
        m10: sn,
        m11: cs,
        m12: 0,
        m13: 0,
        m20: 0,
        m21: 0,
        m22: FX_ONE as int,
        m23: 0,
        m30: 0,
        m31: 0,
        m32: 0,
        m33: FX_ONE as int,
    }
}

/// Scale-and-translate part of the model matrix.
pub open spec fn transform_spec(t: IVec3, s: int) -> IMat4 {
    IMat4 {
        m00: s,
        m01: 0,
        m02: 0,
        m03: t.x,
        m10: 0,
        m11: s,
        m12: 0,
        m13: t.y,
        m20: 0,
        m21: 0,
        m22: s,
        m23: t.z,
        m30: 0,
        m31: 0,
        m32: 0,
        m33: FX_ONE as int,
    }
}

/// The model matrix: scale-and-translate times the z-y-x rotation product,
/// the rotation angles given through their sines and cosines.
pub open spec fn model_matrix_spec(t: IVec3, s: int, sn: IVec3, cs: IVec3) -> IMat4 {
    mat4_mul_spec(
        transform_spec(t, s),
        mat4_mul_spec(
            mat4_mul_spec(rotation_z_spec(sn.z, cs.z), rotation_y_spec(sn.y, cs.y)),
            rotation_x_spec(sn.x, cs.x),
        ),
    )
}

/// Build the model matrix from a translation, a uniform scale, and the
/// sines and cosines of the per-axis rotation angles.
pub fn create_model_matrix(translation: FxVec3, scale: i64, rot_sin: FxVec3, rot_cos: FxVec3) -> (r:
    FxMat4)
    requires
        crate::fixed::vec3_bounded(translation, 0x20_0000),
        -0x20_0000 <= scale <= 0x20_0000,
        crate::fixed::vec3_bounded(rot_sin, FX_ONE as int),
        crate::fixed::vec3_bounded(rot_cos, FX_ONE as int),
    ensures
        im4(r) == model_matrix_spec(iv3(translation), scale as int, iv3(rot_sin), iv3(rot_cos)),
        mat4_bounded(r, 0x800_0000),
{
    let rotation_matrix_x: FxMat4 = FxMat4 {
        m00: FX_ONE,
        m01: 0,
        m02: 0,
        m03: 0,
        m10: 0,
        m11: rot_cos.x,
        m12: -rot_sin.x,
        m13: 0,
        m20: 0,
        m21: rot_sin.x,
        m22: rot_cos.x,
        m23: 0,
        m30: 0,
        m31: 0,
        m32: 0,
        m33: FX_ONE,
    };
    let rotation_matrix_y: FxMat4 = FxMat4 {
        m00: rot_cos.y,
        m01: 0,
        m02: rot_sin.y,
        m03: 0,
        m10: 0,
        m11: FX_ONE,
        m12: 0,
        m13: 0,
        m20: -rot_sin.y,
        m21: 0,
        m22: rot_cos.y,
        m23: 0,
        m30: 0,
        m31: 0,
        m32: 0,
        m33: FX_ONE,
    };
    let rotation_matrix_z: FxMat4 = FxMat4 {
        m00: rot_cos.z,
        m01: -rot_sin.z,
        m02: 0,
        m03: 0,
        m10: rot_sin.z,
        m11: rot_cos.z,
        m12: 0,
        m13: 0,
        m20: 0,
        m21: 0,
        m22: FX_ONE,
        m23: 0,
        m30: 0,
        m31: 0,
        m32: 0,
        m33: FX_ONE,
    };
    let zy: FxMat4 = mat4_mul(
        &rotation_matrix_z,
        &rotation_matrix_y,
        Ghost(FX_ONE as int),
        Ghost(FX_ONE as int),
    );
    let rotation_matrix: FxMat4 = mat4_mul(
        &zy,
        &rotation_matrix_x,
        Ghost(0x4_0000),
        Ghost(FX_ONE as int),
    );
    let transform_matrix: FxMat4 = FxMat4 {
        m00: scale,
        m01: 0,
        m02: 0,
        m03: translation.x,
        m10: 0,
        m11: scale,
        m12: 0,
        m13: translation.y,
        m20: 0,
        m21: 0,
        m22: scale,
        m23: translation.z,
        m30: 0,
        m31: 0,
        m32: 0,
        m33: FX_ONE,
    };
    mat4_mul(&transform_matrix, &rotation_matrix, Ghost(0x20_0000), Ghost(0x10_0000))
}

} // verus!
