//! Fixed-point vectors and matrices.
//!
//! A matrix entry with value v is stored as the integer v * FX, so a product
//! of two matrices is renormalized by dividing each accumulated dot product
//! by FX, truncating toward zero. The normal matrix (the transpose-inverse
//! of the upper-left 3x3 of a model-view matrix) is kept as exact cofactor
//! numerators over their own positive denominator, so no precision is lost
//! where shading is most sensitive.

use vstd::prelude::*;
use vstd::arithmetic::div_mod::{lemma_div_is_ordered, lemma_div_pos_is_pos};

verus! {

/// Bound on the entries of an entity-local transform (outer or per-part):
/// ten world units in fixed-point. The tightest tier of the overflow
/// budget, so that the product of two entity transforms stays
/// model-bounded and the normal-matrix cofactor chain over it stays exact
/// in 128 bits.
pub const ENTITY_MAT_BOUND: i128 = 100_000;

/// Bound on the entries of a view, projection or model matrix handed to a
/// draw: 5000 world units in fixed-point.
pub const MODEL_MAT_BOUND: i128 = 50_000_000;

/// Bound on the entries of one renormalized product of two model-bounded
/// matrices (a model-view matrix).
pub const PRODUCT_MAT_BOUND: i128 = 1_000_000_000_000;

/// Bound on the numerators of a normal matrix derived from a
/// product-bounded model-view matrix.
pub const NORMAL_MAT_BOUND: i128 = 20_000_000_000_000_000_000_000_000_000;

/// Bound on the components of a light direction or position.
pub const LIGHT_BOUND: i64 = 1_000_000;

/// -b <= x <= b.
pub open spec fn within(x: int, b: int) -> bool {
    -b <= x && x <= b
}

/// Division truncating toward zero, the behaviour of `/` on machine
/// integers; the spec operator `/` alone is Euclidean.
pub open spec fn div_tz(x: int, d: int) -> int {
    if x >= 0 {
        x / d
    } else {
        -((-x) / d)
    }
}

/// |x| <= m implies |div_tz(x, d)| <= m / d.
pub proof fn lemma_div_tz_bound(x: int, m: int, d: int)
    requires
        1 <= d,
        0 <= m,
        within(x, m),
    ensures
        within(div_tz(x, d), m / d),
{
    if x >= 0 {
        lemma_div_pos_is_pos(x, d);
        lemma_div_is_ordered(x, m, d);
        lemma_div_pos_is_pos(m, d);
    } else {
        lemma_div_pos_is_pos(-x, d);
        lemma_div_is_ordered(-x, m, d);
        lemma_div_pos_is_pos(m, d);
    }
}

/// |a| <= ba and |b| <= bb imply |a * b| <= ba * bb.
pub proof fn lemma_mul_abs_bound(a: int, b: int, ba: int, bb: int)
    by (nonlinear_arith)
    requires
        0 <= ba,
        0 <= bb,
        within(a, ba),
        within(b, bb),
    ensures
        within(a * b, ba * bb),
{
}

pub fn div_trunc(x: i128, d: i128) -> (r: i128)
    requires
        1 <= d,
    ensures
        r == div_tz(x as int, d as int),
{
    proof {
        if x >= 0 {
            lemma_div_pos_is_pos(x as int, d as int);
            lemma_div_is_ordered(x as int, i128::MAX as int, d as int);
        } else {
            lemma_div_pos_is_pos(-(x as int), d as int);
            lemma_div_is_ordered(-(x as int), -(i128::MIN as int), d as int);
        }
    }
    x / d
}

/// A 3x3 matrix of exact numerators over one positive denominator: the
/// value of an entry is `mRC / den`. Used for the normal transform, whose
/// inverse would lose the most precision if renormalized.
#[derive(Clone, Copy, PartialEq, Eq, Structural, Debug)]
pub struct Mat3 {
    pub m00: i128,
    pub m01: i128,
    pub m02: i128,
    pub m10: i128,
    pub m11: i128,
    pub m12: i128,
    pub m20: i128,
    pub m21: i128,
    pub m22: i128,
    pub den: i128,
}

/// The signed cofactors of the upper-left 3x3 block of m, row-major.
pub open spec fn cof00(m: Mat4) -> int {
    m.m11 * m.m22 - m.m12 * m.m21
}

pub open spec fn cof01(m: Mat4) -> int {
    m.m12 * m.m20 - m.m10 * m.m22
}

pub open spec fn cof02(m: Mat4) -> int {
    m.m10 * m.m21 - m.m11 * m.m20
}

pub open spec fn cof10(m: Mat4) -> int {
    m.m02 * m.m21 - m.m01 * m.m22
}

pub open spec fn cof11(m: Mat4) -> int {
    m.m00 * m.m22 - m.m02 * m.m20
}

pub open spec fn cof12(m: Mat4) -> int {
    m.m01 * m.m20 - m.m00 * m.m21
}

pub open spec fn cof20(m: Mat4) -> int {
    m.m01 * m.m12 - m.m02 * m.m11
}

pub open spec fn cof21(m: Mat4) -> int {
    m.m02 * m.m10 - m.m00 * m.m12
}

pub open spec fn cof22(m: Mat4) -> int {
    m.m00 * m.m11 - m.m01 * m.m10
}

/// Determinant of the upper-left 3x3 block of m, by the first row.
pub open spec fn upper_det(m: Mat4) -> int {
    m.m00 * cof00(m) + m.m01 * cof01(m) + m.m02 * cof02(m)
}

/// The identity as a Mat3 value.
pub open spec fn mat3_identity_spec() -> Mat3 {
    Mat3 {
        m00: crate::FX as i128,
        m01: 0,
        m02: 0,
        m10: 0,
        m11: crate::FX as i128,
        m12: 0,
        m20: 0,
        m21: 0,
        m22: crate::FX as i128,
        den: crate::FX as i128,
    }
}

/// r is the normal transform of m: the transpose-inverse of the upper-left
/// 3x3 block, which works out to the cofactor matrix of that block over its
/// determinant, with signs arranged so the denominator is positive. A
/// singular block falls back to the identity instead of failing.
pub open spec fn normal_mat_eq(m: Mat4, r: Mat3) -> bool {
    let d = upper_det(m);
    let fx = crate::FX as int;
    if d == 0 {
        r == mat3_identity_spec()
    } else if d > 0 {
        &&& r.m00 == cof00(m) * fx
        &&& r.m01 == cof01(m) * fx
        &&& r.m02 == cof02(m) * fx
        &&& r.m10 == cof10(m) * fx
        &&& r.m11 == cof11(m) * fx
        &&& r.m12 == cof12(m) * fx
        &&& r.m20 == cof20(m) * fx
        &&& r.m21 == cof21(m) * fx
        &&& r.m22 == cof22(m) * fx
        &&& r.den == d
    } else {
        &&& r.m00 == -cof00(m) * fx
        &&& r.m01 == -cof01(m) * fx
        &&& r.m02 == -cof02(m) * fx
        &&& r.m10 == -cof10(m) * fx
        &&& r.m11 == -cof11(m) * fx
        &&& r.m12 == -cof12(m) * fx
        &&& r.m20 == -cof20(m) * fx
        &&& r.m21 == -cof21(m) * fx
        &&& r.m22 == -cof22(m) * fx
        &&& r.den == -d
    }
}

impl Mat3 {
    pub open spec fn bounded(self, b: int) -> bool {
        &&& within(self.m00 as int, b)
        &&& within(self.m01 as int, b)
        &&& within(self.m02 as int, b)
        &&& within(self.m10 as int, b)
        &&& within(self.m11 as int, b)
        &&& within(self.m12 as int, b)
        &&& within(self.m20 as int, b)
        &&& within(self.m21 as int, b)
        &&& within(self.m22 as int, b)
    }
}

/// One signed cofactor p0*p1 - p2*p3, bounded for product-bounded entries.
fn cof_entry(p0: i128, p1: i128, p2: i128, p3: i128) -> (c: i128)
    requires
        within(p0 as int, PRODUCT_MAT_BOUND as int),
        within(p1 as int, PRODUCT_MAT_BOUND as int),
        within(p2 as int, PRODUCT_MAT_BOUND as int),
        within(p3 as int, PRODUCT_MAT_BOUND as int),
    ensures
        c == p0 * p1 - p2 * p3,
        within(c as int, 2 * (PRODUCT_MAT_BOUND as int) * (PRODUCT_MAT_BOUND as int)),
{
    proof {
        lemma_mul_abs_bound(p0 as int, p1 as int, PRODUCT_MAT_BOUND as int, PRODUCT_MAT_BOUND as int);
        lemma_mul_abs_bound(p2 as int, p3 as int, PRODUCT_MAT_BOUND as int, PRODUCT_MAT_BOUND as int);
    }
    p0 * p1 - p2 * p3
}

/// The normal transform of a model-view matrix: cofactors of the upper-left
/// 3x3 block over its determinant, or the identity when the block is
/// singular.
pub fn normal_matrix(m: &Mat4) -> (r: Mat3)
    requires
        m.bounded(PRODUCT_MAT_BOUND as int),
    ensures
        normal_mat_eq(*m, r),
        r.den >= 1,
        r.bounded(NORMAL_MAT_BOUND as int),
{
    let c00: i128 = cof_entry(m.m11, m.m22, m.m12, m.m21);
    let c01: i128 = cof_entry(m.m12, m.m20, m.m10, m.m22);
    let c02: i128 = cof_entry(m.m10, m.m21, m.m11, m.m20);
    let c10: i128 = cof_entry(m.m02, m.m21, m.m01, m.m22);
    let c11: i128 = cof_entry(m.m00, m.m22, m.m02, m.m20);
    let c12: i128 = cof_entry(m.m01, m.m20, m.m00, m.m21);
    let c20: i128 = cof_entry(m.m01, m.m12, m.m02, m.m11);
    let c21: i128 = cof_entry(m.m02, m.m10, m.m00, m.m12);
    let c22: i128 = cof_entry(m.m00, m.m11, m.m01, m.m10);
    let cb: i128 = 2 * PRODUCT_MAT_BOUND * PRODUCT_MAT_BOUND;
    proof {
        lemma_mul_abs_bound(m.m00 as int, c00 as int, PRODUCT_MAT_BOUND as int, cb as int);
        lemma_mul_abs_bound(m.m01 as int, c01 as int, PRODUCT_MAT_BOUND as int, cb as int);
        lemma_mul_abs_bound(m.m02 as int, c02 as int, PRODUCT_MAT_BOUND as int, cb as int);
    }
    let det: i128 = m.m00 * c00 + m.m01 * c01 + m.m02 * c02;
    let fx: i128 = crate::FX as i128;
    if det == 0 {
        Mat3 {
            m00: fx,
            m01: 0,
            m02: 0,
            m10: 0,
            m11: fx,
            m12: 0,
            m20: 0,
            m21: 0,
            m22: fx,
            den: fx,
        }
    } else if det > 0 {
        Mat3 {
            m00: c00 * fx,
            m01: c01 * fx,
            m02: c02 * fx,
            m10: c10 * fx,
            m11: c11 * fx,
            m12: c12 * fx,
            m20: c20 * fx,
            m21: c21 * fx,
            m22: c22 * fx,
            den: det,
        }
    } else {
        Mat3 {
            m00: -c00 * fx,
            m01: -c01 * fx,
            m02: -c02 * fx,
            m10: -c10 * fx,
            m11: -c11 * fx,
            m12: -c12 * fx,
            m20: -c20 * fx,
            m21: -c21 * fx,
            m22: -c22 * fx,
            den: -det,
        }
    }
}

/// A fixed-point 2-component vector.
#[derive(Clone, Copy, PartialEq, Eq, Structural, Debug)]
pub struct Vec2 {
    pub x: i64,
    pub y: i64,
}

impl Vec2 {
    pub fn new(x: i64, y: i64) -> (v: Vec2)
        ensures
            v == (Vec2 { x, y }),
    {
        Vec2 { x, y }
    }
}

/// A fixed-point 3-component vector.
#[derive(Clone, Copy, PartialEq, Eq, Structural, Debug)]
pub struct Vec3 {
    pub x: i64,
    pub y: i64,
    pub z: i64,
}

impl Vec3 {
    pub fn new(x: i64, y: i64, z: i64) -> (v: Vec3)
        ensures
            v == (Vec3 { x, y, z }),
    {
        Vec3 { x, y, z }
    }
}

/// A fixed-point 4-component vector, wide enough to carry a vector through
/// an exact normal transform.
#[derive(Clone, Copy, PartialEq, Eq, Structural, Debug)]
pub struct Vec4 {
    pub x: i128,
    pub y: i128,
    pub z: i128,
    pub w: i128,
}

impl Vec4 {
    pub fn new(x: i128, y: i128, z: i128, w: i128) -> (v: Vec4)
        ensures
            v == (Vec4 { x, y, z, w }),
    {
        Vec4 { x, y, z, w }
    }

    pub open spec fn bounded(self, b: int) -> bool {
        &&& within(self.x as int, b)
        &&& within(self.y as int, b)
        &&& within(self.z as int, b)
        &&& within(self.w as int, b)
    }
}

/// A 4x4 fixed-point matrix, row-major: `mRC` is row R, column C. The value
/// of an entry is the field divided by FX.
#[derive(Clone, Copy, PartialEq, Eq, Structural, Debug)]
pub struct Mat4 {
    pub m00: i128,
    pub m01: i128,
    pub m02: i128,
    pub m03: i128,
    pub m10: i128,
    pub m11: i128,
    pub m12: i128,
    pub m13: i128,
    pub m20: i128,
    pub m21: i128,
    pub m22: i128,
    pub m23: i128,
    pub m30: i128,
    pub m31: i128,
    pub m32: i128,
    pub m33: i128,
}

/// a0*b0 + a1*b1 + a2*b2 + a3*b3 over the mathematical integers.
pub open spec fn dot4(
    a0: int,
    a1: int,
    a2: int,
    a3: int,
    b0: int,
    b1: int,
    b2: int,
    b3: int,
) -> int {
    a0 * b0 + a1 * b1 + a2 * b2 + a3 * b3
}

/// r is the fixed-point product a * b: every entry is the dot product of a
/// row of a with a column of b, renormalized by FX.
pub open spec fn mat4_mul_eq(a: Mat4, b: Mat4, r: Mat4) -> bool {
    let fx = crate::FX as int;
    &&& r.m00 == div_tz(dot4(a.m00 as int, a.m01 as int, a.m02 as int, a.m03 as int, b.m00 as int, b.m10 as int, b.m20 as int, b.m30 as int), fx)
    &&& r.m01 == div_tz(dot4(a.m00 as int, a.m01 as int, a.m02 as int, a.m03 as int, b.m01 as int, b.m11 as int, b.m21 as int, b.m31 as int), fx)
    &&& r.m02 == div_tz(dot4(a.m00 as int, a.m01 as int, a.m02 as int, a.m03 as int, b.m02 as int, b.m12 as int, b.m22 as int, b.m32 as int), fx)
    &&& r.m03 == div_tz(dot4(a.m00 as int, a.m01 as int, a.m02 as int, a.m03 as int, b.m03 as int, b.m13 as int, b.m23 as int, b.m33 as int), fx)
    &&& r.m10 == div_tz(dot4(a.m10 as int, a.m11 as int, a.m12 as int, a.m13 as int, b.m00 as int, b.m10 as int, b.m20 as int, b.m30 as int), fx)
    &&& r.m11 == div_tz(dot4(a.m10 as int, a.m11 as int, a.m12 as int, a.m13 as int, b.m01 as int, b.m11 as int, b.m21 as int, b.m31 as int), fx)
    &&& r.m12 == div_tz(dot4(a.m10 as int, a.m11 as int, a.m12 as int, a.m13 as int, b.m02 as int, b.m12 as int, b.m22 as int, b.m32 as int), fx)
    &&& r.m13 == div_tz(dot4(a.m10 as int, a.m11 as int, a.m12 as int, a.m13 as int, b.m03 as int, b.m13 as int, b.m23 as int, b.m33 as int), fx)
    &&& r.m20 == div_tz(dot4(a.m20 as int, a.m21 as int, a.m22 as int, a.m23 as int, b.m00 as int, b.m10 as int, b.m20 as int, b.m30 as int), fx)
    &&& r.m21 == div_tz(dot4(a.m20 as int, a.m21 as int, a.m22 as int, a.m23 as int, b.m01 as int, b.m11 as int, b.m21 as int, b.m31 as int), fx)
    &&& r.m22 == div_tz(dot4(a.m20 as int, a.m21 as int, a.m22 as int, a.m23 as int, b.m02 as int, b.m12 as int, b.m22 as int, b.m32 as int), fx)
    &&& r.m23 == div_tz(dot4(a.m20 as int, a.m21 as int, a.m22 as int, a.m23 as int, b.m03 as int, b.m13 as int, b.m23 as int, b.m33 as int), fx)
    &&& r.m30 == div_tz(dot4(a.m30 as int, a.m31 as int, a.m32 as int, a.m33 as int, b.m00 as int, b.m10 as int, b.m20 as int, b.m30 as int), fx)
    &&& r.m31 == div_tz(dot4(a.m30 as int, a.m31 as int, a.m32 as int, a.m33 as int, b.m01 as int, b.m11 as int, b.m21 as int, b.m31 as int), fx)
    &&& r.m32 == div_tz(dot4(a.m30 as int, a.m31 as int, a.m32 as int, a.m33 as int, b.m02 as int, b.m12 as int, b.m22 as int, b.m32 as int), fx)
    &&& r.m33 == div_tz(dot4(a.m30 as int, a.m31 as int, a.m32 as int, a.m33 as int, b.m03 as int, b.m13 as int, b.m23 as int, b.m33 as int), fx)
}

/// The fixed-point product a * b as a value; each entry agrees with
/// `mat4_mul_eq`.
pub open spec fn mat4_mul_val(a: Mat4, b: Mat4) -> Mat4 {
    let fx = crate::FX as int;
    Mat4 {
        m00: div_tz(dot4(a.m00 as int, a.m01 as int, a.m02 as int, a.m03 as int, b.m00 as int, b.m10 as int, b.m20 as int, b.m30 as int), fx) as i128,
        m01: div_tz(dot4(a.m00 as int, a.m01 as int, a.m02 as int, a.m03 as int, b.m01 as int, b.m11 as int, b.m21 as int, b.m31 as int), fx) as i128,
        m02: div_tz(dot4(a.m00 as int, a.m01 as int, a.m02 as int, a.m03 as int, b.m02 as int, b.m12 as int, b.m22 as int, b.m32 as int), fx) as i128,
        m03: div_tz(dot4(a.m00 as int, a.m01 as int, a.m02 as int, a.m03 as int, b.m03 as int, b.m13 as int, b.m23 as int, b.m33 as int), fx) as i128,
        m10: div_tz(dot4(a.m10 as int, a.m11 as int, a.m12 as int, a.m13 as int, b.m00 as int, b.m10 as int, b.m20 as int, b.m30 as int), fx) as i128,
        m11: div_tz(dot4(a.m10 as int, a.m11 as int, a.m12 as int, a.m13 as int, b.m01 as int, b.m11 as int, b.m21 as int, b.m31 as int), fx) as i128,
        m12: div_tz(dot4(a.m10 as int, a.m11 as int, a.m12 as int, a.m13 as int, b.m02 as int, b.m12 as int, b.m22 as int, b.m32 as int), fx) as i128,
        m13: div_tz(dot4(a.m10 as int, a.m11 as int, a.m12 as int, a.m13 as int, b.m03 as int, b.m13 as int, b.m23 as int, b.m33 as int), fx) as i128,
        m20: div_tz(dot4(a.m20 as int, a.m21 as int, a.m22 as int, a.m23 as int, b.m00 as int, b.m10 as int, b.m20 as int, b.m30 as int), fx) as i128,
        m21: div_tz(dot4(a.m20 as int, a.m21 as int, a.m22 as int, a.m23 as int, b.m01 as int, b.m11 as int, b.m21 as int, b.m31 as int), fx) as i128,
        m22: div_tz(dot4(a.m20 as int, a.m21 as int, a.m22 as int, a.m23 as int, b.m02 as int, b.m12 as int, b.m22 as int, b.m32 as int), fx) as i128,
        m23: div_tz(dot4(a.m20 as int, a.m21 as int, a.m22 as int, a.m23 as int, b.m03 as int, b.m13 as int, b.m23 as int, b.m33 as int), fx) as i128,
        m30: div_tz(dot4(a.m30 as int, a.m31 as int, a.m32 as int, a.m33 as int, b.m00 as int, b.m10 as int, b.m20 as int, b.m30 as int), fx) as i128,
        m31: div_tz(dot4(a.m30 as int, a.m31 as int, a.m32 as int, a.m33 as int, b.m01 as int, b.m11 as int, b.m21 as int, b.m31 as int), fx) as i128,
        m32: div_tz(dot4(a.m30 as int, a.m31 as int, a.m32 as int, a.m33 as int, b.m02 as int, b.m12 as int, b.m22 as int, b.m32 as int), fx) as i128,
        m33: div_tz(dot4(a.m30 as int, a.m31 as int, a.m32 as int, a.m33 as int, b.m03 as int, b.m13 as int, b.m23 as int, b.m33 as int), fx) as i128,
    }
}

/// One entry of a fixed-point matrix product, with the bound tiers the
/// library's call chains need.
fn mul_entry(
    a0: i128,
    a1: i128,
    a2: i128,
    a3: i128,
    b0: i128,
    b1: i128,
    b2: i128,
    b3: i128,
) -> (c: i128)
    requires
        within(a0 as int, MODEL_MAT_BOUND as int),
        within(a1 as int, MODEL_MAT_BOUND as int),
        within(a2 as int, MODEL_MAT_BOUND as int),
        within(a3 as int, MODEL_MAT_BOUND as int),
        within(b0 as int, PRODUCT_MAT_BOUND as int),
        within(b1 as int, PRODUCT_MAT_BOUND as int),
        within(b2 as int, PRODUCT_MAT_BOUND as int),
        within(b3 as int, PRODUCT_MAT_BOUND as int),
    ensures
        c == div_tz(dot4(a0 as int, a1 as int, a2 as int, a3 as int, b0 as int, b1 as int, b2 as int, b3 as int), crate::FX as int),
        ({
            &&& within(a0 as int, ENTITY_MAT_BOUND as int)
            &&& within(a1 as int, ENTITY_MAT_BOUND as int)
            &&& within(a2 as int, ENTITY_MAT_BOUND as int)
            &&& within(a3 as int, ENTITY_MAT_BOUND as int)
            &&& within(b0 as int, ENTITY_MAT_BOUND as int)
            &&& within(b1 as int, ENTITY_MAT_BOUND as int)
            &&& within(b2 as int, ENTITY_MAT_BOUND as int)
            &&& within(b3 as int, ENTITY_MAT_BOUND as int)
        }) ==> within(c as int, MODEL_MAT_BOUND as int),
        ({
            &&& within(b0 as int, MODEL_MAT_BOUND as int)
            &&& within(b1 as int, MODEL_MAT_BOUND as int)
            &&& within(b2 as int, MODEL_MAT_BOUND as int)
            &&& within(b3 as int, MODEL_MAT_BOUND as int)
        }) ==> within(c as int, PRODUCT_MAT_BOUND as int),
{
    proof {
        lemma_mul_abs_bound(a0 as int, b0 as int, MODEL_MAT_BOUND as int, PRODUCT_MAT_BOUND as int);
        lemma_mul_abs_bound(a1 as int, b1 as int, MODEL_MAT_BOUND as int, PRODUCT_MAT_BOUND as int);
        lemma_mul_abs_bound(a2 as int, b2 as int, MODEL_MAT_BOUND as int, PRODUCT_MAT_BOUND as int);
        lemma_mul_abs_bound(a3 as int, b3 as int, MODEL_MAT_BOUND as int, PRODUCT_MAT_BOUND as int);
    }
    let s: i128 = a0 * b0 + a1 * b1 + a2 * b2 + a3 * b3;
    proof {
        let ent = ENTITY_MAT_BOUND as int;
        let mdl = MODEL_MAT_BOUND as int;
        let fx = crate::FX as int;
        if within(a0 as int, ent) && within(a1 as int, ent) && within(a2 as int, ent)
            && within(a3 as int, ent) && within(b0 as int, ent) && within(b1 as int, ent)
            && within(b2 as int, ent) && within(b3 as int, ent) {
            lemma_mul_abs_bound(a0 as int, b0 as int, ent, ent);
            lemma_mul_abs_bound(a1 as int, b1 as int, ent, ent);
            lemma_mul_abs_bound(a2 as int, b2 as int, ent, ent);
            lemma_mul_abs_bound(a3 as int, b3 as int, ent, ent);
            lemma_div_tz_bound(s as int, 4 * ent * ent, fx);
        }
        if within(b0 as int, mdl) && within(b1 as int, mdl) && within(b2 as int, mdl)
            && within(b3 as int, mdl) {
            lemma_mul_abs_bound(a0 as int, b0 as int, mdl, mdl);
            lemma_mul_abs_bound(a1 as int, b1 as int, mdl, mdl);
            lemma_mul_abs_bound(a2 as int, b2 as int, mdl, mdl);
            lemma_mul_abs_bound(a3 as int, b3 as int, mdl, mdl);
            lemma_div_tz_bound(s as int, 4 * mdl * mdl, fx);
        }
    }
    div_trunc(s, crate::FX as i128)
}

impl Mat4 {
    /// Every entry within -b..=b.
    pub open spec fn bounded(self, b: int) -> bool {
        &&& within(self.m00 as int, b)
        &&& within(self.m01 as int, b)
        &&& within(self.m02 as int, b)
        &&& within(self.m03 as int, b)
        &&& within(self.m10 as int, b)
        &&& within(self.m11 as int, b)
        &&& within(self.m12 as int, b)
        &&& within(self.m13 as int, b)
        &&& within(self.m20 as int, b)
        &&& within(self.m21 as int, b)
        &&& within(self.m22 as int, b)
        &&& within(self.m23 as int, b)
        &&& within(self.m30 as int, b)
        &&& within(self.m31 as int, b)
        &&& within(self.m32 as int, b)
        &&& within(self.m33 as int, b)
    }

    /// The value of a uniform scaling matrix: s on the spatial diagonal, 1
    /// in the homogeneous corner, 0 elsewhere.
    pub open spec fn scale_spec(s: int) -> Mat4 {
        Mat4 {
            m00: s as i128,
            m01: 0,
            m02: 0,
            m03: 0,
            m10: 0,
            m11: s as i128,
            m12: 0,
            m13: 0,
            m20: 0,
            m21: 0,
            m22: s as i128,
            m23: 0,
            m30: 0,
            m31: 0,
            m32: 0,
            m33: crate::FX as i128,
        }
    }

    /// Uniform scaling by the fixed-point factor s.
    pub fn from_scale(s: i128) -> (m: Mat4)
        ensures
            m == Mat4::scale_spec(s as int),
    {
        Mat4 {
            m00: s,
            m01: 0,
            m02: 0,
            m03: 0,
            m10: 0,
            m11: s,
            m12: 0,
            m13: 0,
            m20: 0,
            m21: 0,
            m22: s,
            m23: 0,
            m30: 0,
            m31: 0,
            m32: 0,
            m33: crate::FX as i128,
        }
    }

    /// The identity transform.
    pub fn identity() -> (m: Mat4)
        ensures
            m == Mat4::scale_spec(crate::FX as int),
    {
        Mat4::from_scale(crate::FX as i128)
    }

    /// Fixed-point matrix product self * other. The first operand must be
    /// model-bounded; the second may already be a product.
    pub fn mul(&self, other: &Mat4) -> (r: Mat4)
        requires
            self.bounded(MODEL_MAT_BOUND as int),
            other.bounded(PRODUCT_MAT_BOUND as int),
        ensures
            mat4_mul_eq(*self, *other, r),
            r == mat4_mul_val(*self, *other),
            self.bounded(ENTITY_MAT_BOUND as int) && other.bounded(ENTITY_MAT_BOUND as int)
                ==> r.bounded(MODEL_MAT_BOUND as int),
            other.bounded(MODEL_MAT_BOUND as int) ==> r.bounded(PRODUCT_MAT_BOUND as int),
    {
        Mat4 {
            m00: mul_entry(self.m00, self.m01, self.m02, self.m03, other.m00, other.m10, other.m20, other.m30),
            m01: mul_entry(self.m00, self.m01, self.m02, self.m03, other.m01, other.m11, other.m21, other.m31),
            m02: mul_entry(self.m00, self.m01, self.m02, self.m03, other.m02, other.m12, other.m22, other.m32),
            m03: mul_entry(self.m00, self.m01, self.m02, self.m03, other.m03, other.m13, other.m23, other.m33),
            m10: mul_entry(self.m10, self.m11, self.m12, self.m13, other.m00, other.m10, other.m20, other.m30),
            m11: mul_entry(self.m10, self.m11, self.m12, self.m13, other.m01, other.m11, other.m21, other.m31),
            m12: mul_entry(self.m10, self.m11, self.m12, self.m13, other.m02, other.m12, other.m22, other.m32),
            m13: mul_entry(self.m10, self.m11, self.m12, self.m13, other.m03, other.m13, other.m23, other.m33),
            m20: mul_entry(self.m20, self.m21, self.m22, self.m23, other.m00, other.m10, other.m20, other.m30),
            m21: mul_entry(self.m20, self.m21, self.m22, self.m23, other.m01, other.m11, other.m21, other.m31),
            m22: mul_entry(self.m20, self.m21, self.m22, self.m23, other.m02, other.m12, other.m22, other.m32),
            m23: mul_entry(self.m20, self.m21, self.m22, self.m23, other.m03, other.m13, other.m23, other.m33),
            m30: mul_entry(self.m30, self.m31, self.m32, self.m33, other.m00, other.m10, other.m20, other.m30),
            m31: mul_entry(self.m30, self.m31, self.m32, self.m33, other.m01, other.m11, other.m21, other.m31),
            m32: mul_entry(self.m30, self.m31, self.m32, self.m33, other.m02, other.m12, other.m22, other.m32),
            m33: mul_entry(self.m30, self.m31, self.m32, self.m33, other.m03, other.m13, other.m23, other.m33),
        }
    }
}

} // verus!
