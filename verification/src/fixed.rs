//! 16.16 fixed-point scalars and small vectors.
//!
//! A value `v` stands for the real number `v / 65536`. Multiplication and
//! division round toward zero, as the corresponding hardware float-to-int
//! conversions do, and every operation carries the exact quotient it
//! computes in its contract.

use vstd::arithmetic::div_mod::{lemma_div_is_ordered, lemma_fundamental_div_mod};
use vstd::prelude::*;

verus! {

/// One unit ("1.0") in the 16.16 fixed-point format.
pub const FX_ONE: i64 = 65536;

/// Half a unit ("0.5").
pub const FX_HALF: i64 = 32768;

pub open spec fn int_abs(a: int) -> int {
    if a >= 0 {
        a
    } else {
        -a
    }
}

/// Integer quotient rounded toward zero (the rounding of Rust's `/`).
pub open spec fn trunc_div(a: int, b: int) -> int {
    if b == 0 {
        0
    } else if (a >= 0) == (b >= 0) {
        int_abs(a) / int_abs(b)
    } else {
        -(int_abs(a) / int_abs(b))
    }
}

/// The fixed-point product `a * b`, rounded toward zero.
pub open spec fn fx_mul_spec(a: int, b: int) -> int {
    trunc_div(a * b, FX_ONE as int)
}

/// The fixed-point quotient `a / b`, rounded toward zero.
pub open spec fn fx_div_spec(a: int, b: int) -> int {
    trunc_div(a * (FX_ONE as int), b)
}

pub open spec fn clamp_spec(v: int, lo: int, hi: int) -> int {
    if v < lo {
        lo
    } else if v > hi {
        hi
    } else {
        v
    }
}

pub proof fn lemma_trunc_div_bound(a: int, b: int)
    requires
        b != 0,
    ensures
        int_abs(trunc_div(a, b)) * int_abs(b) <= int_abs(a),
        int_abs(a) < int_abs(b) ==> trunc_div(a, b) == 0,
        a * b >= 0 ==> trunc_div(a, b) >= 0,
        a * b <= 0 ==> trunc_div(a, b) <= 0,
{
    let ua = int_abs(a);
    let ub = int_abs(b);
    lemma_fundamental_div_mod(ua, ub);
    assert(ua == ub * (ua / ub) + ua % ub);
    assert(0 <= ua % ub < ub);
    vstd::arithmetic::div_mod::lemma_div_pos_is_pos(ua, ub);
    assert((ua / ub) * ub <= ua) by (nonlinear_arith)
        requires
            ua == ub * (ua / ub) + ua % ub,
            0 <= ua % ub,
    ;
    if ua < ub {
        assert(ua / ub == 0) by (nonlinear_arith)
            requires
                ua == ub * (ua / ub) + ua % ub,
                0 <= ua % ub < ub,
                0 <= ua < ub,
                ua / ub >= 0,
        ;
    }
    if a == 0 {
        vstd::arithmetic::div_mod::lemma_div_of0(ub);
    }
    assert(a * b > 0 ==> (a >= 0) == (b >= 0)) by (nonlinear_arith);
    assert(a * b < 0 ==> (a >= 0) != (b >= 0)) by (nonlinear_arith);
    assert(a * b == 0 && b != 0 ==> a == 0) by (nonlinear_arith);
}

/// A truncating quotient whose dividend is within `cap * b` is itself
/// within `cap`.
pub proof fn lemma_trunc_div_cap(a: int, b: int, cap: int)
    requires
        b > 0,
        cap >= 0,
        int_abs(a) <= cap * b,
    ensures
        -cap <= trunc_div(a, b) <= cap,
{
    lemma_trunc_div_bound(a, b);
    let q = trunc_div(a, b);
    let x = int_abs(q);
    assert(x * b <= cap * b);
    assert(x <= cap) by (nonlinear_arith)
        requires
            x * b <= cap * b,
            b > 0,
    ;
}

/// Quotient rounded toward zero, as Rust's `/` rounds.
pub fn div_trunc(a: i64, b: i64) -> (r: i64)
    requires
        b != 0,
        a > i64::MIN,
        b > i64::MIN,
    ensures
        r == trunc_div(a as int, b as int),
{
    let ua: u64 = if a >= 0 {
        a as u64
    } else {
        (-a) as u64
    };
    let ub: u64 = if b >= 0 {
        b as u64
    } else {
        (-b) as u64
    };
    proof {
        assert(ua == int_abs(a as int));
        assert(ub == int_abs(b as int));
        lemma_div_is_ordered(0, ua as int, ub as int);
        lemma_trunc_div_bound(ua as int, ub as int);
        assert(int_abs(trunc_div(ua as int, ub as int)) * (ub as int) <= ua as int);
        assert(ua as int / ub as int <= ua as int) by (nonlinear_arith)
            requires
                ub >= 1,
                ua >= 0,
        ;
    }
    let uq: u64 = ua / ub;
    let q: i64 = uq as i64;
    if (a >= 0) == (b >= 0) {
        q
    } else {
        -q
    }
}

/// Fixed-point multiply: `(a * b) / FX_ONE`, rounded toward zero.
pub fn fx_mul(a: i64, b: i64) -> (r: i64)
    requires
        -0x4000_0000_0000_0000 <= a * b <= 0x4000_0000_0000_0000,
    ensures
        r == fx_mul_spec(a as int, b as int),
        (FX_ONE as int) * int_abs(r as int) <= int_abs(a * b),
        a * b >= 0 ==> r >= 0,
        a * b <= 0 ==> r <= 0,
{
    proof {
        assert(a * b == (a * b) as i64) by {
            assert(-0x4000_0000_0000_0000 <= a * b <= 0x4000_0000_0000_0000);
        }
        lemma_trunc_div_bound(a * b, FX_ONE as int);
    }
    let p: i64 = a * b;
    div_trunc(p, FX_ONE)
}

/// Fixed-point divide: `(a * FX_ONE) / b`, rounded toward zero.
pub fn fx_div(a: i64, b: i64) -> (r: i64)
    requires
        b != 0,
        b > i64::MIN,
        -0x4000_0000_0000_0000 <= a * (FX_ONE as int) <= 0x4000_0000_0000_0000,
    ensures
        r == fx_div_spec(a as int, b as int),
        int_abs(r as int) * int_abs(b as int) <= (FX_ONE as int) * int_abs(a as int),
{
    proof {
        lemma_trunc_div_bound(a * (FX_ONE as int), b as int);
        assert(int_abs(a * (FX_ONE as int)) == (FX_ONE as int) * int_abs(a as int))
            by (nonlinear_arith);
    }
    let p: i64 = a * FX_ONE;
    div_trunc(p, b)
}

/// Fixed-point multiply with caller-supplied (ghost) magnitude caps: the
/// result's magnitude is bounded by `ca * cb / FX_ONE`.
pub fn fx_mul_cap(a: i64, b: i64, Ghost(ca): Ghost<int>, Ghost(cb): Ghost<int>) -> (r: i64)
    requires
        0 <= ca,
        0 <= cb,
        ca * cb <= 0x4000_0000_0000_0000,
        int_abs(a as int) <= ca,
        int_abs(b as int) <= cb,
    ensures
        r == fx_mul_spec(a as int, b as int),
        (FX_ONE as int) * int_abs(r as int) <= ca * cb,
        a * b >= 0 ==> r >= 0,
        a * b <= 0 ==> r <= 0,
{
    proof {
        assert(int_abs(a * b) <= ca * cb) by (nonlinear_arith)
            requires
                -ca <= a <= ca,
                -cb <= b <= cb,
                0 <= ca,
                0 <= cb,
                int_abs(a * b) == (if a * b >= 0 {
                    a * b
                } else {
                    -(a * b)
                }),
        ;
    }
    fx_mul(a, b)
}

/// Clamp `v` into `[lo, hi]`.
pub fn fx_clamp(v: i64, lo: i64, hi: i64) -> (r: i64)
    requires
        lo <= hi,
    ensures
        r == clamp_spec(v as int, lo as int, hi as int),
        lo <= r <= hi,
{
    if v < lo {
        lo
    } else if v > hi {
        hi
    } else {
        v
    }
}

pub open spec fn sqrt_prop(x: int, r: int) -> bool {
    0 <= r && r * r <= x && x < (r + 1) * (r + 1)
}

/// The integer square root, as a mathematical value.
pub open spec fn int_sqrt(x: int) -> int {
    choose|r: int| sqrt_prop(x, r)
}

pub proof fn lemma_sqrt_exists(x: int)
    requires
        x >= 0,
    ensures
        sqrt_prop(x, int_sqrt(x)),
    decreases x,
{
    if x == 0 {
        assert(sqrt_prop(0, 0));
    } else {
        lemma_sqrt_exists(x - 1);
        let r = int_sqrt(x - 1);
        if (r + 1) * (r + 1) <= x {
            assert(sqrt_prop(x, r + 1)) by (nonlinear_arith)
                requires
                    sqrt_prop(x - 1, r),
                    (r + 1) * (r + 1) <= x,
            ;
        } else {
            assert(sqrt_prop(x, r));
        }
    }
}

pub proof fn lemma_sqrt_unique(x: int, r: int)
    requires
        sqrt_prop(x, r),
    ensures
        r == int_sqrt(x),
{
    assert(sqrt_prop(x, int_sqrt(x)));
    let c = int_sqrt(x);
    assert(r == c) by (nonlinear_arith)
        requires
            sqrt_prop(x, r),
            sqrt_prop(x, c),
    ;
}

/// Integer square root by bisection.
pub fn isqrt(x: u64) -> (r: u64)
    requires
        x < 0x4000_0000_0000_0000,
    ensures
        r * r <= x < (r + 1) * (r + 1),
        r <= 0x8000_0000,
        r == int_sqrt(x as int),
{
    let mut lo: u64 = 0;
    let mut hi: u64 = 0x8000_0000;
    proof {
        assert((0x8000_0000 as int) * (0x8000_0000 as int) == 0x4000_0000_0000_0000)
            by (nonlinear_arith);
    }
    while hi - lo > 1
        invariant
            lo < hi <= 0x8000_0000,
            lo * lo <= x,
            x < hi * hi,
            x < 0x4000_0000_0000_0000,
        decreases hi - lo,
    {
        let mid: u64 = lo + (hi - lo) / 2;
        assert(lo < mid < hi);
        assert(mid * mid < 0x8000_0000_0000_0000) by (nonlinear_arith)
            requires
                mid < 0x8000_0000,
        ;
        if mid * mid <= x {
            lo = mid;
        } else {
            hi = mid;
        }
    }
    proof {
        assert(hi == lo + 1);
        lemma_sqrt_unique(x as int, lo as int);
    }
    lo
}

/// A two-component fixed-point vector.
#[derive(Clone, Copy, PartialEq, Eq, Structural, Debug)]
pub struct FxVec2 {
    pub x: i64,
    pub y: i64,
}

/// A three-component fixed-point vector.
#[derive(Clone, Copy, PartialEq, Eq, Structural, Debug)]
pub struct FxVec3 {
    pub x: i64,
    pub y: i64,
    pub z: i64,
}

/// A four-component fixed-point vector (homogeneous point).
#[derive(Clone, Copy, PartialEq, Eq, Structural, Debug)]
pub struct FxVec4 {
    pub x: i64,
    pub y: i64,
    pub z: i64,
    pub w: i64,
}

impl FxVec2 {
    pub fn new(x: i64, y: i64) -> (r: FxVec2)
        ensures
            r == (FxVec2 { x, y }),
    {
        FxVec2 { x, y }
    }
}

impl FxVec3 {
    pub fn new(x: i64, y: i64, z: i64) -> (r: FxVec3)
        ensures
            r == (FxVec3 { x, y, z }),
    {
        FxVec3 { x, y, z }
    }

    pub fn zeros() -> (r: FxVec3)
        ensures
            r == (FxVec3 { x: 0, y: 0, z: 0 }),
    {
        FxVec3 { x: 0, y: 0, z: 0 }
    }
}

impl FxVec4 {
    pub fn new(x: i64, y: i64, z: i64, w: i64) -> (r: FxVec4)
        ensures
            r == (FxVec4 { x, y, z, w }),
    {
        FxVec4 { x, y, z, w }
    }
}

/// Magnitude bound used by the vector operations below.
pub const VEC_LIMIT: i64 = 0x4000_0000;

/// The mathematical (unbounded-integer) model of a three-component vector.
pub ghost struct IVec3 {
    pub x: int,
    pub y: int,
    pub z: int,
}

/// The model of a fixed-point vector.
pub open spec fn iv3(v: FxVec3) -> IVec3 {
    IVec3 { x: v.x as int, y: v.y as int, z: v.z as int }
}

pub open spec fn vec3_bounded(v: FxVec3, m: int) -> bool {
    -m <= v.x <= m && -m <= v.y <= m && -m <= v.z <= m
}

/// The mathematical model of a two-component vector.
pub ghost struct IVec2 {
    pub x: int,
    pub y: int,
}

pub open spec fn iv2(v: FxVec2) -> IVec2 {
    IVec2 { x: v.x as int, y: v.y as int }
}

/// The mathematical model of a four-component vector.
pub ghost struct IVec4 {
    pub x: int,
    pub y: int,
    pub z: int,
    pub w: int,
}

pub open spec fn iv4(v: FxVec4) -> IVec4 {
    IVec4 { x: v.x as int, y: v.y as int, z: v.z as int, w: v.w as int }
}

pub open spec fn vec4_bounded(v: FxVec4, m: int) -> bool {
    -m <= v.x <= m && -m <= v.y <= m && -m <= v.z <= m && -m <= v.w <= m
}

/// The fixed-point dot product `(ax*bx + ay*by + az*bz) / FX_ONE`.
pub open spec fn dot3_spec(a: IVec3, b: IVec3) -> int {
    trunc_div(a.x * b.x + a.y * b.y + a.z * b.z, FX_ONE as int)
}

pub fn fx_dot3(a: &FxVec3, b: &FxVec3) -> (r: i64)
    requires
        vec3_bounded(*a, VEC_LIMIT as int),
        vec3_bounded(*b, VEC_LIMIT as int),
    ensures
        r == dot3_spec(iv3(*a), iv3(*b)),
{
    proof {
        assert(int_abs(a.x * b.x) <= 0x1000_0000_0000_0000) by (nonlinear_arith)
            requires
                -0x4000_0000 <= a.x <= 0x4000_0000,
                -0x4000_0000 <= b.x <= 0x4000_0000,
        ;
        assert(int_abs(a.y * b.y) <= 0x1000_0000_0000_0000) by (nonlinear_arith)
            requires
                -0x4000_0000 <= a.y <= 0x4000_0000,
                -0x4000_0000 <= b.y <= 0x4000_0000,
        ;
        assert(int_abs(a.z * b.z) <= 0x1000_0000_0000_0000) by (nonlinear_arith)
            requires
                -0x4000_0000 <= a.z <= 0x4000_0000,
                -0x4000_0000 <= b.z <= 0x4000_0000,
        ;
    }
    let s: i64 = a.x * b.x + a.y * b.y + a.z * b.z;
    div_trunc(s, FX_ONE)
}

/// The squared magnitude `x*x + y*y + z*z`, an exact integer.
pub open spec fn mag3_sq_spec(v: IVec3) -> int {
    v.x * v.x + v.y * v.y + v.z * v.z
}

/// The fixed-point magnitude: the integer square root of the squared
/// magnitude (both carry the scale `FX_ONE * FX_ONE`, so the root carries
/// `FX_ONE`).
pub open spec fn mag3_spec(v: IVec3) -> int {
    int_sqrt(mag3_sq_spec(v))
}

pub fn fx_mag3(v: &FxVec3) -> (r: i64)
    requires
        vec3_bounded(*v, VEC_LIMIT as int),
    ensures
        r == mag3_spec(iv3(*v)),
        0 <= r <= 0x8000_0000,
{
    proof {
        assert(0 <= v.x * v.x <= 0x1000_0000_0000_0000 && 0 <= v.y * v.y
            <= 0x1000_0000_0000_0000 && 0 <= v.z * v.z <= 0x1000_0000_0000_0000)
            by (nonlinear_arith)
            requires
                vec3_bounded(*v, VEC_LIMIT as int),
        ;
    }
    let xx: i64 = v.x * v.x;
    let yy: i64 = v.y * v.y;
    let zz: i64 = v.z * v.z;
    let s: u64 = (xx as u64) + (yy as u64) + (zz as u64);
    let r: u64 = isqrt(s);
    r as i64
}

/// The normalized vector: each component is `c * FX_ONE / mag`, rounded
/// toward zero; the zero vector is returned unchanged.
pub open spec fn normalize3_spec(v: IVec3) -> IVec3 {
    let m = mag3_spec(v);
    if m == 0 {
        v
    } else {
        IVec3 {
            x: trunc_div(v.x * (FX_ONE as int), m),
            y: trunc_div(v.y * (FX_ONE as int), m),
            z: trunc_div(v.z * (FX_ONE as int), m),
        }
    }
}

pub fn fx_normalize3(v: &FxVec3) -> (r: FxVec3)
    requires
        vec3_bounded(*v, VEC_LIMIT as int),
    ensures
        iv3(r) == normalize3_spec(iv3(*v)),
        mag3_spec(iv3(*v)) != 0 ==> vec3_bounded(r, FX_ONE as int),
        mag3_spec(iv3(*v)) == 0 ==> r == *v && v.x == 0 && v.y == 0 && v.z == 0,
        vec3_bounded(r, VEC_LIMIT as int),
{
    let m: i64 = fx_mag3(v);
    if m == 0 {
        proof {
            assert(mag3_spec(iv3(*v)) == 0);
            assert(v.x * v.x >= 0 && v.y * v.y >= 0 && v.z * v.z >= 0) by (nonlinear_arith);
            lemma_sqrt_exists(mag3_sq_spec(iv3(*v)));
            assert(mag3_sq_spec(iv3(*v)) < 1);
            assert(v.x == 0 && v.y == 0 && v.z == 0) by (nonlinear_arith)
                requires
                    v.x * v.x + v.y * v.y + v.z * v.z < 1,
            ;
        }
        *v
    } else {
        proof {
            lemma_trunc_div_bound(v.x * (FX_ONE as int), m as int);
            lemma_trunc_div_bound(v.y * (FX_ONE as int), m as int);
            lemma_trunc_div_bound(v.z * (FX_ONE as int), m as int);
            assert(int_abs(v.x * (FX_ONE as int)) <= 0x4000_0000_0000_0000) by (nonlinear_arith)
                requires
                    -0x4000_0000 <= v.x <= 0x4000_0000,
            ;
            assert(int_abs(v.y * (FX_ONE as int)) <= 0x4000_0000_0000_0000) by (nonlinear_arith)
                requires
                    -0x4000_0000 <= v.y <= 0x4000_0000,
            ;
            assert(int_abs(v.z * (FX_ONE as int)) <= 0x4000_0000_0000_0000) by (nonlinear_arith)
                requires
                    -0x4000_0000 <= v.z <= 0x4000_0000,
            ;
        }
        let x: i64 = fx_div(v.x, m);
        let y: i64 = fx_div(v.y, m);
        let z: i64 = fx_div(v.z, m);
        proof {
            assert(v.x * v.x >= 0 && v.y * v.y >= 0 && v.z * v.z >= 0) by (nonlinear_arith);
            lemma_sqrt_exists(mag3_sq_spec(iv3(*v)));
            let mm = mag3_spec(iv3(*v));
            assert(int_abs(v.x as int) <= mm && int_abs(v.y as int) <= mm && int_abs(v.z as int)
                <= mm) by (nonlinear_arith)
                requires
                    sqrt_prop(v.x * v.x + v.y * v.y + v.z * v.z, mm),
            ;
            assert(int_abs(x as int) <= FX_ONE as int && int_abs(y as int) <= FX_ONE as int
                && int_abs(z as int) <= FX_ONE as int) by (nonlinear_arith)
                requires
                    int_abs(x as int) * int_abs(m as int) <= (FX_ONE as int) * int_abs(
                        v.x as int,
                    ),
                    int_abs(y as int) * int_abs(m as int) <= (FX_ONE as int) * int_abs(
                        v.y as int,
                    ),
                    int_abs(z as int) * int_abs(m as int) <= (FX_ONE as int) * int_abs(
                        v.z as int,
                    ),
                    m >= 1,
                    m == int_abs(m as int),
                    int_abs(v.x as int) <= m,
                    int_abs(v.y as int) <= m,
                    int_abs(v.z as int) <= m,
            ;
        }
        FxVec3 { x, y, z }
    }
}

/// The whole-unit floor of a fixed-point value (mathematical floor
/// division by `FX_ONE`).
pub open spec fn fx_floor_spec(v: int) -> int {
    v / (FX_ONE as int)
}

/// The whole-unit ceiling of a fixed-point value.
pub open spec fn fx_ceil_spec(v: int) -> int {
    (v + (FX_ONE as int) - 1) / (FX_ONE as int)
}

proof fn lemma_floor_div_unique(v: int, k: int, rho: int)
    requires
        v == (FX_ONE as int) * k + rho,
        0 <= rho < FX_ONE as int,
    ensures
        k == v / (FX_ONE as int),
{
    lemma_fundamental_div_mod(v, FX_ONE as int);
    assert(k == v / (FX_ONE as int)) by (nonlinear_arith)
        requires
            v == (FX_ONE as int) * k + rho,
            0 <= rho < FX_ONE as int,
            v == (FX_ONE as int) * (v / (FX_ONE as int)) + v % (FX_ONE as int),
            0 <= v % (FX_ONE as int) < FX_ONE as int,
    ;
}

/// The largest whole unit at or below `v`.
pub fn fx_floor(v: i64) -> (r: i64)
    requires
        -0x1000_0000_0000 <= v <= 0x1000_0000_0000,
    ensures
        r == fx_floor_spec(v as int),
{
    let q: i64 = div_trunc(v, FX_ONE);
    proof {
        lemma_trunc_div_bound(v as int, FX_ONE as int);
        lemma_fundamental_div_mod(int_abs(v as int), FX_ONE as int);
    }
    let rem: i64 = v - q * FX_ONE;
    proof {
        if v >= 0 {
            assert(rem == int_abs(v as int) - (FX_ONE as int) * (int_abs(v as int) / (
            FX_ONE as int))) by (nonlinear_arith)
                requires
                    v >= 0,
                    rem == v - (trunc_div(v as int, FX_ONE as int)) * (FX_ONE as int),
                    trunc_div(v as int, FX_ONE as int) == int_abs(v as int) / (FX_ONE as int),
                    int_abs(v as int) == v,
            ;
            assert(0 <= rem < FX_ONE);
            lemma_floor_div_unique(v as int, q as int, rem as int);
        } else {
            assert(rem == -(int_abs(v as int) - (FX_ONE as int) * (int_abs(v as int) / (
            FX_ONE as int)))) by (nonlinear_arith)
                requires
                    v < 0,
                    rem == v - (trunc_div(v as int, FX_ONE as int)) * (FX_ONE as int),
                    trunc_div(v as int, FX_ONE as int) == -(int_abs(v as int) / (
                    FX_ONE as int)),
                    int_abs(v as int) == -v,
            ;
            assert(-(FX_ONE as int) < rem <= 0);
            if rem == 0 {
                lemma_floor_div_unique(v as int, q as int, 0);
            } else {
                lemma_floor_div_unique(v as int, q as int - 1, rem + FX_ONE as int);
            }
        }
    }
    if rem < 0 {
        q - 1
    } else {
        q
    }
}

/// The smallest whole unit at or above `v`.
pub fn fx_ceil(v: i64) -> (r: i64)
    requires
        -0x1000_0000_0000 <= v <= 0xFFF_0000_0000,
    ensures
        r == fx_ceil_spec(v as int),
{
    fx_floor(v + (FX_ONE - 1))
}

/// Quotient rounded toward zero, on 128-bit integers.
pub fn div_trunc_i128(a: i128, b: i128) -> (r: i128)
    requires
        b != 0,
        a > i128::MIN,
        b > i128::MIN,
    ensures
        r == trunc_div(a as int, b as int),
{
    let ua: u128 = if a >= 0 {
        a as u128
    } else {
        (-a) as u128
    };
    let ub: u128 = if b >= 0 {
        b as u128
    } else {
        (-b) as u128
    };
    proof {
        assert(ua == int_abs(a as int));
        assert(ub == int_abs(b as int));
        lemma_trunc_div_bound(ua as int, ub as int);
        assert(ua as int / ub as int <= ua as int) by (nonlinear_arith)
            requires
                ub >= 1,
                ua >= 0,
        ;
    }
    let uq: u128 = ua / ub;
    let q: i128 = uq as i128;
    if (a >= 0) == (b >= 0) {
        q
    } else {
        -q
    }
}

} // verus!
