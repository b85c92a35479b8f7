//! Laws of the surface derivation: what one update makes of notable
//! fields, stated over the same spec functions `FluidEntity::update`
//! promises and proved for every grid size.

use vstd::prelude::*;
use vstd::arithmetic::div_mod::lemma_fundamental_div_mod;
use vstd::arithmetic::mul::{lemma_mul_inequality, lemma_mul_is_commutative};
use crate::entity_fluid::{grad2_x, grad2_z, updated_vertex_spec, SAMPLE_BOUND, SCALE_MAX};
use crate::geometry::VertexTexture;
use crate::linalg::{div_tz, lemma_div_tz_bound, lemma_mul_abs_bound};

verus! {

/// A field held constant at value c everywhere renders flat: after one
/// update the vertex at lattice position k has elevation c times the
/// vertical magnification (renormalized by FX, as every fixed-point
/// product is), and its unnormalized normal is (0, negative, 0), which
/// normalizes to (0, -1, 0). Flat field, flat normals.
pub proof fn lemma_constant_field_flat(
    samples: Seq<i64>,
    cols: int,
    rows: int,
    dx: int,
    height_mag: int,
    c: i64,
    v: VertexTexture,
    k: int,
)
    requires
        2 <= cols,
        2 <= rows,
        samples.len() == cols * rows,
        0 <= k < samples.len(),
        samples[k] == c,
        k % cols < cols - 1 ==> samples[k + 1] == c,
        k % cols > 0 ==> samples[k - 1] == c,
        k / cols < rows - 1 ==> samples[k + cols] == c,
        k / cols > 0 ==> samples[k - cols] == c,
        -SAMPLE_BOUND <= c <= SAMPLE_BOUND,
        1 <= height_mag <= SCALE_MAX,
        0 <= dx <= SCALE_MAX,
    ensures
        updated_vertex_spec(v, samples, cols, rows, dx, height_mag, k).position.y == div_tz(
            c * height_mag,
            crate::FX as int,
        ),
        updated_vertex_spec(v, samples, cols, rows, dx, height_mag, k).normal.x == 0,
        updated_vertex_spec(v, samples, cols, rows, dx, height_mag, k).normal.z == 0,
        updated_vertex_spec(v, samples, cols, rows, dx, height_mag, k).normal.y < 0,
{
    let col = k % cols;
    let row = k / cols;
    lemma_fundamental_div_mod(k, cols);
    lemma_mul_is_commutative(rows, cols);
    lemma_mul_is_commutative(row, cols);
    if row >= rows {
        lemma_mul_inequality(rows, row, cols);
    }
    assert(grad2_x(samples, cols, k) == 0);
    assert(grad2_z(samples, cols, rows, k) == 0);
    assert(0 * dx == 0);
    lemma_mul_abs_bound(c as int, height_mag, SAMPLE_BOUND as int, SCALE_MAX as int);
    lemma_div_tz_bound(
        c * height_mag,
        (SAMPLE_BOUND as int) * (SCALE_MAX as int),
        crate::FX as int,
    );
}

/// For a field linear along x — every sample exceeds its left neighbor by
/// exactly b, and rows repeat each other — the derived doubled gradient
/// along x equals 2 * b at every lattice point: the centered difference in
/// the interior and the one-sided differences at the first and last column
/// agree on a linear field, and no sample outside the grid is read. The x
/// component of the unnormalized normal is therefore -(2 * b * dx)
/// everywhere, the exact fixed-point form of the gradient scaled by
/// cellSpacing over verticalScale; the field is constant along z, so the
/// doubled gradient along z, and with it the z component, is zero.
pub proof fn lemma_linear_field_gradient(
    samples: Seq<i64>,
    cols: int,
    rows: int,
    dx: int,
    height_mag: int,
    b: int,
    v: VertexTexture,
    k: int,
)
    requires
        2 <= cols,
        2 <= rows,
        samples.len() == cols * rows,
        0 <= k < samples.len(),
        k % cols < cols - 1 ==> samples[k + 1] == samples[k] + b,
        k % cols > 0 ==> samples[k - 1] == samples[k] - b,
        k / cols < rows - 1 ==> samples[k + cols] == samples[k],
        k / cols > 0 ==> samples[k - cols] == samples[k],
    ensures
        grad2_x(samples, cols, k) == 2 * b,
        grad2_z(samples, cols, rows, k) == 0,
        updated_vertex_spec(v, samples, cols, rows, dx, height_mag, k).normal.x == (-(2 * b
            * dx)) as i64,
        updated_vertex_spec(v, samples, cols, rows, dx, height_mag, k).normal.z == (-0) as i64,
{
    let col = k % cols;
    let row = k / cols;
    lemma_fundamental_div_mod(k, cols);
    lemma_mul_is_commutative(rows, cols);
    lemma_mul_is_commutative(row, cols);
    if row >= rows {
        lemma_mul_inequality(rows, row, cols);
    }
    assert(grad2_x(samples, cols, k) == 2 * b);
    assert(grad2_z(samples, cols, rows, k) == 0);
    assert((2 * b) * dx == 2 * b * dx);
    assert(0 * dx == 0);
}

} // verus!
