//! The procedural surface entity: a height field rendered as a rippling
//! sheet.
//!
//! The entity owns a flat tessellated grid built once at construction: one
//! vertex per lattice point in row-major order and a single triangle strip
//! covering the whole grid, joined across rows by degenerate triangles.
//! Every frame the caller steps the external field simulation and hands
//! the fresh samples in; the entity rewrites each vertex's elevation and
//! rederives its shading normal from the field's local slope by finite
//! differences, one-sided at the grid's edges.

use vstd::prelude::*;
use vstd::arithmetic::div_mod::{
    lemma_div_nonincreasing, lemma_div_pos_is_pos, lemma_fundamental_div_mod,
    lemma_fundamental_div_mod_converse,
};
use vstd::arithmetic::mul::lemma_mul_inequality;
use crate::geometry::{Geometry, VertexTexture};
use crate::linalg::{div_trunc, div_tz, lemma_div_tz_bound, lemma_mul_abs_bound, Mat4, Vec2, Vec3, MODEL_MAT_BOUND};
use crate::material::{pbr_tex_draw_eq, DrawCall, MaterialPbrTex, Primitive};
use crate::render::RenderContext;

verus! {

broadcast use vstd::arithmetic::mul::group_mul_is_commutative_and_distributive;

/// Largest accepted grid division count per axis.
pub const GRID_DIV_MAX: u32 = 16_384;

/// Largest accepted physical scale, in fixed-point units: 100 world units.
pub const SCALE_MAX: i64 = 1_000_000;

/// Largest accepted magnitude of one height-field sample, in fixed-point
/// units.
pub const SAMPLE_BOUND: i64 = 100_000_000;

/// The vertex at row-major position k of the flat (divW+1) x (divH+1)
/// lattice spanning width x height centered at the origin: elevation zero,
/// zero texture coordinates, and a flat up normal.
pub open spec fn flat_vertex_spec(
    width: int,
    height: int,
    div_w: int,
    div_h: int,
    k: int,
) -> VertexTexture {
    let dw = width / div_w;
    let dh = height / div_h;
    let x0 = k % (div_w + 1);
    let z0 = k / (div_w + 1);
    VertexTexture {
        position: Vec3 {
            x: (x0 * dw - width / 2) as i64,
            y: 0,
            z: (z0 * dh - height / 2) as i64,
        },
        texture: Vec2 { x: 0, y: 0 },
        normal: Vec3 { x: 0, y: crate::FX, z: 0 },
    }
}

/// Index i of the triangle strip covering the grid. Each row z contributes
/// a segment of 2*divW + 4 indices: the row's first index once (degenerate
/// start), then for every column the current-row index followed by the
/// next-row index, then the next row's last index once (degenerate end).
pub open spec fn strip_index_spec(div_w: int, i: int) -> int {
    let seg = 2 * div_w + 4;
    let z = i / seg;
    let j = i % seg;
    if j == 0 {
        z * (div_w + 1)
    } else if j <= 2 * div_w + 2 {
        let x = (j - 1) / 2;
        if (j - 1) % 2 == 0 {
            z * (div_w + 1) + x
        } else {
            (z + 1) * (div_w + 1) + x
        }
    } else {
        (z + 2) * (div_w + 1) - 1
    }
}

/// Builds the flat grid: one vertex per lattice point in row-major order
/// and the full strip index sequence with degenerate joins.
#[verifier::rlimit(60)]
pub fn make_flatmesh(width: i64, height: i64, div_w: u32, div_h: u32) -> (g: Geometry<
    VertexTexture,
>)
    requires
        1 <= div_w <= GRID_DIV_MAX,
        1 <= div_h <= GRID_DIV_MAX,
        0 <= width <= SCALE_MAX,
        0 <= height <= SCALE_MAX,
    ensures
        g.vertices@.len() == (div_w + 1) * (div_h + 1),
        forall|k: int|
            0 <= k < g.vertices@.len() ==> g.vertices@[k] == flat_vertex_spec(
                width as int,
                height as int,
                div_w as int,
                div_h as int,
                k,
            ),
        g.indices@.len() == div_h * (2 * div_w + 4),
        forall|i: int|
            0 <= i < g.indices@.len() ==> g.indices@[i] == strip_index_spec(div_w as int, i),
        forall|i: int|
            0 <= i < g.indices@.len() ==> g.indices@[i] < (div_w + 1) * (div_h + 1),
        g.wf(),
{
    let cols: u32 = div_w + 1;
    let rows: u32 = div_h + 1;
    let dw: i64 = width / (div_w as i64);
    let dh: i64 = height / (div_h as i64);
    proof {
        lemma_div_pos_is_pos(width as int, div_w as int);
        lemma_div_pos_is_pos(height as int, div_h as int);
        lemma_div_nonincreasing(width as int, div_w as int);
        lemma_div_nonincreasing(height as int, div_h as int);
    }
    let half_w: i64 = width / 2;
    let half_h: i64 = height / 2;
    let mut vertices: Vec<VertexTexture> = Vec::new();
    let mut z0: u32 = 0;
    while z0 < rows
        invariant
            z0 <= rows,
            cols == div_w + 1,
            rows == div_h + 1,
            1 <= div_w <= GRID_DIV_MAX,
            1 <= div_h <= GRID_DIV_MAX,
            0 <= width <= SCALE_MAX,
            0 <= height <= SCALE_MAX,
            0 <= dw <= width,
            0 <= dh <= height,
            dw == width as int / div_w as int,
            dh == height as int / div_h as int,
            half_w == width as int / 2,
            half_h == height as int / 2,
            vertices@.len() == z0 * cols,
            forall|k: int|
                0 <= k < vertices@.len() ==> vertices@[k] == flat_vertex_spec(
                    width as int,
                    height as int,
                    div_w as int,
                    div_h as int,
                    k,
                ),
        decreases rows - z0,
    {
        let mut x0: u32 = 0;
        proof {
            lemma_mul_inequality(z0 + 1, rows as int, cols as int);
        }
        while x0 < cols
            invariant
                x0 <= cols,
                z0 < rows,
                cols == div_w + 1,
                rows == div_h + 1,
                1 <= div_w <= GRID_DIV_MAX,
                1 <= div_h <= GRID_DIV_MAX,
                0 <= width <= SCALE_MAX,
                0 <= height <= SCALE_MAX,
                0 <= dw <= width,
                0 <= dh <= height,
                dw == width as int / div_w as int,
                dh == height as int / div_h as int,
                half_w == width as int / 2,
                half_h == height as int / 2,
                vertices@.len() == z0 * cols + x0,
                z0 * cols + cols <= rows * cols,
                forall|k: int|
                    0 <= k < vertices@.len() ==> vertices@[k] == flat_vertex_spec(
                        width as int,
                        height as int,
                        div_w as int,
                        div_h as int,
                        k,
                    ),
            decreases cols - x0,
        {
            proof {
                lemma_mul_abs_bound(x0 as int, dw as int, GRID_DIV_MAX as int, SCALE_MAX as int);
                lemma_mul_abs_bound(z0 as int, dh as int, GRID_DIV_MAX as int, SCALE_MAX as int);
            }
            let px: i64 = (x0 as i64) * dw - half_w;
            let pz: i64 = (z0 as i64) * dh - half_h;
            vertices.push(
                VertexTexture::new(Vec3::new(px, 0, pz), Vec2::new(0, 0), Vec3::new(0, crate::FX, 0)),
            );
            proof {
                let k = z0 * cols + x0;
                lemma_fundamental_div_mod_converse(k as int, cols as int, z0 as int, x0 as int);
            }
            x0 = x0 + 1;
        }
        z0 = z0 + 1;
    }
    let mut faces: Vec<u32> = Vec::new();
    let seg: u32 = 2 * div_w + 4;
    proof {
        lemma_mul_inequality(div_h as int, GRID_DIV_MAX as int, seg as int);
        lemma_mul_inequality(seg as int, 32772, GRID_DIV_MAX as int);
        lemma_mul_inequality(div_h as int, GRID_DIV_MAX as int, cols as int);
        lemma_mul_inequality(cols as int, 16385, GRID_DIV_MAX as int);
        lemma_mul_inequality(rows as int, 16385, cols as int);
        lemma_mul_inequality(cols as int, 16385, 16385);
    }
    let mut z0: u32 = 0;
    while z0 < div_h
        invariant
            z0 <= div_h,
            cols == div_w + 1,
            rows == div_h + 1,
            seg == 2 * div_w + 4,
            1 <= div_w <= GRID_DIV_MAX,
            1 <= div_h <= GRID_DIV_MAX,
            div_h * seg <= 536_936_448,
            div_h * cols <= 268_451_840,
            rows * cols <= 268_468_225,
            faces@.len() == z0 * seg,
            forall|i: int|
                0 <= i < faces@.len() ==> faces@[i] == strip_index_spec(div_w as int, i),
            forall|i: int| 0 <= i < faces@.len() ==> faces@[i] < cols * rows,
        decreases div_h - z0,
    {
        proof {
            lemma_mul_inequality(z0 + 1, div_h as int, seg as int);
            lemma_mul_inequality(z0 + 1, div_h as int, cols as int);
            lemma_mul_inequality(z0 + 2, rows as int, cols as int);
            let p = z0 * seg;
            lemma_fundamental_div_mod_converse(p as int, seg as int, z0 as int, 0);
        }
        faces.push(z0 * cols);
        let mut x0: u32 = 0;
        while x0 < cols
            invariant
                x0 <= cols,
                z0 < div_h,
                cols == div_w + 1,
                rows == div_h + 1,
                seg == 2 * div_w + 4,
                1 <= div_w <= GRID_DIV_MAX,
                1 <= div_h <= GRID_DIV_MAX,
                faces@.len() == z0 * seg + 1 + 2 * x0,
                z0 * seg + seg <= div_h * seg,
                z0 * cols + cols <= div_h * cols,
                (z0 + 2) * cols <= rows * cols,
                div_h * seg <= 536_936_448,
                div_h * cols <= 268_451_840,
                rows * cols <= 268_468_225,
                forall|i: int|
                    0 <= i < faces@.len() ==> faces@[i] == strip_index_spec(div_w as int, i),
                forall|i: int| 0 <= i < faces@.len() ==> faces@[i] < cols * rows,
            decreases cols - x0,
        {
            let offset: u32 = x0 + z0 * cols;
            proof {
                let p = z0 * seg + 1 + 2 * x0;
                lemma_fundamental_div_mod_converse(p as int, seg as int, z0 as int, 1 + 2 * x0);
                lemma_fundamental_div_mod_converse(2 * x0 as int, 2, x0 as int, 0);
            }
            faces.push(offset);
            proof {
                let p = z0 * seg + 2 + 2 * x0;
                lemma_fundamental_div_mod_converse(p as int, seg as int, z0 as int, 2 + 2 * x0);
                lemma_fundamental_div_mod_converse(2 * x0 + 1, 2, x0 as int, 1);
            }
            faces.push(offset + cols);
            x0 = x0 + 1;
        }
        proof {
            let p = z0 * seg + 1 + 2 * cols;
            lemma_fundamental_div_mod_converse(p as int, seg as int, z0 as int, (1 + 2 * cols) as int);
        }
        faces.push((z0 + 2) * cols - 1);
        z0 = z0 + 1;
    }
    proof {
        lemma_mul_inequality(1, cols as int, rows as int);
    }
    Geometry { vertices, indices: faces }
}

/// Doubled horizontal field gradient along x at row-major position k:
/// twice the centered difference in the interior, twice the one-sided
/// difference at the first and last column. No sample outside the grid is
/// read.
pub open spec fn grad2_x(samples: Seq<i64>, cols: int, k: int) -> int {
    let x = k % cols;
    if x == 0 {
        2 * (samples[k + 1] - samples[k])
    } else if x == cols - 1 {
        2 * (samples[k] - samples[k - 1])
    } else {
        samples[k + 1] - samples[k - 1]
    }
}

/// Doubled horizontal field gradient along z at row-major position k, as
/// `grad2_x` but stepping by whole rows.
pub open spec fn grad2_z(samples: Seq<i64>, cols: int, rows: int, k: int) -> int {
    let z = k / cols;
    if z == 0 {
        2 * (samples[k + cols] - samples[k])
    } else if z == rows - 1 {
        2 * (samples[k] - samples[k - cols])
    } else {
        samples[k + cols] - samples[k - cols]
    }
}

/// The vertex at position k after one surface update: elevation is the
/// sample scaled by the vertical magnification and renormalized by FX, as
/// every fixed-point product is; the normal is the exact unnormalized
/// downward surface direction. With g the true gradient
/// scaled by cellSpacing/verticalScale, the true normal direction is
/// (-g_x, -1, -g_z); multiplying through by the positive factor
/// 2 * FX * heightMag gives these integer components, so the direction is
/// exact and the caller only normalizes. Horizontal position and texture
/// coordinates never change.
pub open spec fn updated_vertex_spec(
    v: VertexTexture,
    samples: Seq<i64>,
    cols: int,
    rows: int,
    dx: int,
    height_mag: int,
    k: int,
) -> VertexTexture {
    VertexTexture {
        position: Vec3 {
            x: v.position.x,
            y: div_tz(samples[k] * height_mag, crate::FX as int) as i64,
            z: v.position.z,
        },
        texture: v.texture,
        normal: Vec3 {
            x: (-(grad2_x(samples, cols, k) * dx)) as i64,
            y: (-(2 * (crate::FX as int) * height_mag)) as i64,
            z: (-(grad2_z(samples, cols, rows, k) * dx)) as i64,
        },
    }
}

/// Derives one vertex of the sheet from the fresh field samples: new
/// elevation, new normal, horizontal position and texture kept.
fn derive_vertex(
    samples: &Vec<i64>,
    k: usize,
    cols: usize,
    rows: usize,
    dx: i64,
    height_mag: i64,
    v_old: VertexTexture,
) -> (nv: VertexTexture)
    requires
        2 <= cols,
        2 <= rows,
        samples@.len() == cols * rows,
        k < samples@.len(),
        0 <= dx <= SCALE_MAX,
        1 <= height_mag <= SCALE_MAX,
        forall|j: int|
            0 <= j < samples@.len() ==> -SAMPLE_BOUND <= #[trigger] samples@[j] <= SAMPLE_BOUND,
    ensures
        nv == updated_vertex_spec(
            v_old,
            samples@,
            cols as int,
            rows as int,
            dx as int,
            height_mag as int,
            k as int,
        ),
{
    let n: usize = samples.len();
    let col: usize = k % cols;
    let row: usize = k / cols;
    proof {
        lemma_fundamental_div_mod(k as int, cols as int);
        if k / cols >= rows {
            lemma_mul_inequality(rows as int, (k as int) / (cols as int), cols as int);
        }
        lemma_mul_inequality((k as int) / (cols as int), rows - 1, cols as int);
        if k / cols < rows - 1 {
            lemma_mul_inequality((k as int) / (cols as int), rows - 2, cols as int);
        }
        if k / cols >= 1 {
            lemma_mul_inequality(1, (k as int) / (cols as int), cols as int);
        }
    }
    let gx2: i64 = if col == 0 {
        2 * (samples[k + 1] - samples[k])
    } else if col == cols - 1 {
        2 * (samples[k] - samples[k - 1])
    } else {
        samples[k + 1] - samples[k - 1]
    };
    let gz2: i64 = if row == 0 {
        2 * (samples[k + cols] - samples[k])
    } else if row == rows - 1 {
        2 * (samples[k] - samples[k - cols])
    } else {
        samples[k + cols] - samples[k - cols]
    };
    proof {
        lemma_mul_abs_bound(gx2 as int, dx as int, 4 * SAMPLE_BOUND as int, SCALE_MAX as int);
        lemma_mul_abs_bound(gz2 as int, dx as int, 4 * SAMPLE_BOUND as int, SCALE_MAX as int);
        lemma_mul_abs_bound(
            samples@[k as int] as int,
            height_mag as int,
            SAMPLE_BOUND as int,
            SCALE_MAX as int,
        );
    }
    let prod: i128 = (samples[k] as i128) * (height_mag as i128);
    let yq: i128 = div_trunc(prod, crate::FX as i128);
    proof {
        lemma_div_tz_bound(
            prod as int,
            (SAMPLE_BOUND as int) * (SCALE_MAX as int),
            crate::FX as int,
        );
    }
    let ny: i64 = -2 * crate::FX * height_mag;
    VertexTexture {
        position: Vec3 { x: v_old.position.x, y: yq as i64, z: v_old.position.z },
        texture: v_old.texture,
        normal: Vec3 { x: -(gx2 * dx), y: ny, z: -(gz2 * dx) },
    }
}

/// What one surface update makes of the entity: the step counter
/// advances, everything but the vertex buffer is kept, and every vertex is
/// rederived from the fresh samples in row-major order.
pub open spec fn fluid_update_eq(f0: FluidEntity, f1: FluidEntity, samples: Seq<i64>) -> bool {
    &&& f1.x == f0.x
    &&& f1.y == f0.y
    &&& f1.height_mag == f0.height_mag
    &&& f1.width == f0.width
    &&& f1.material == f0.material
    &&& f1.model_view == f0.model_view
    &&& f1.time == f0.time + 1
    &&& f1.geometry.indices@ == f0.geometry.indices@
    &&& f1.geometry.vertices@.len() == f0.geometry.vertices@.len()
    &&& forall|k: int|
        0 <= k < samples.len() ==> f1.geometry.vertices@[k] == updated_vertex_spec(
            f0.geometry.vertices@[k],
            samples,
            f0.x as int + 1,
            f0.y as int + 1,
            f0.width as int / f0.x as int,
            f0.height_mag as int,
            k,
        )
}

/// The procedurally animated height-field surface.
pub struct FluidEntity {
    /// Grid divisions along x.
    pub x: u32,
    /// Grid divisions along z.
    pub y: u32,
    /// Vertical magnification of field samples, fixed-point.
    pub height_mag: i64,
    /// Physical extent of the sheet, fixed-point.
    pub width: i64,
    /// The tessellated sheet; indices fixed at construction, vertices
    /// rewritten each update.
    pub geometry: Geometry<VertexTexture>,
    /// The textured PBR material the sheet is drawn with.
    pub material: MaterialPbrTex,
    /// Local transform; the sheet stays at the origin.
    pub model_view: Mat4,
    /// Elapsed update count; drives the external forcing input.
    pub time: u64,
}

impl FluidEntity {
    pub open spec fn wf(&self) -> bool {
        &&& 1 <= self.x <= GRID_DIV_MAX
        &&& 1 <= self.y <= GRID_DIV_MAX
        &&& 1 <= self.height_mag <= SCALE_MAX
        &&& 0 <= self.width <= SCALE_MAX
        &&& self.geometry.vertices@.len() == (self.x + 1) * (self.y + 1)
        &&& self.geometry.wf()
        &&& self.model_view.bounded(MODEL_MAT_BOUND as int)
    }

    /// A flat sheet of x by y cells spanning `scale` by `scale * y / x`
    /// world units, its field not yet primed: grid built once here,
    /// topology never rebuilt afterwards.
    pub fn new(x: u32, y: u32, scale: i64) -> (e: FluidEntity)
        requires
            1 <= x <= GRID_DIV_MAX,
            1 <= y <= GRID_DIV_MAX,
            4 <= scale <= SCALE_MAX,
            y * (scale as int / x as int) <= SCALE_MAX,
        ensures
            e.wf(),
            e.x == x,
            e.y == y,
            e.time == 0,
            e.height_mag == scale as int / 4,
            e.width == scale,
            e.model_view == Mat4::scale_spec(crate::FX as int),
            e.material.primitive == Primitive::TriangleStrip,
            e.material.data.has_kdmap == 0,
            e.material.data.metallic == 5000,
            e.material.data.roughness == 5000,
            e.material.data.albedo == (Vec3 { x: 8000, y: 9000, z: 10_000 }),
            e.material.data.emissive == (Vec3 { x: 0, y: 0, z: 1000 }),
            e.material.data.opacity == 1000,
            e.material.data.d_num == 0,
            e.material.data.p_num == 1,
            e.material.data.s_num == 0,
            e.geometry.vertices@.len() == (x + 1) * (y + 1),
            forall|k: int|
                0 <= k < e.geometry.vertices@.len() ==> e.geometry.vertices@[k]
                    == flat_vertex_spec(
                    x as int * (scale as int / x as int),
                    y as int * (scale as int / x as int),
                    x as int,
                    y as int,
                    k,
                ),
            e.geometry.indices@.len() == y * (2 * x + 4),
            forall|i: int|
                0 <= i < e.geometry.indices@.len() ==> e.geometry.indices@[i]
                    == strip_index_spec(x as int, i),
    {
        let dx: i64 = scale / (x as i64);
        proof {
            lemma_div_pos_is_pos(scale as int, x as int);
            lemma_div_nonincreasing(scale as int, x as int);
            lemma_fundamental_div_mod(scale as int, x as int);
            lemma_mul_inequality(0, x as int, dx as int);
            vstd::arithmetic::div_mod::lemma_mod_bound(scale as int, x as int);
            lemma_div_pos_is_pos(scale as int, 4);
            lemma_div_nonincreasing(scale as int, 4);
            lemma_mul_inequality(0, y as int, dx as int);
        }
        let gw: i64 = (x as i64) * dx;
        let gh: i64 = (y as i64) * dx;
        let geometry = make_flatmesh(gw, gh, x, y);
        let material = MaterialPbrTex::new(
            5000,
            5000,
            Vec3::new(8000, 9000, 10_000),
            Vec3::new(0, 0, 1000),
            1000,
            Primitive::TriangleStrip,
            None,
        );
        FluidEntity {
            x,
            y,
            height_mag: scale / 4,
            width: scale,
            geometry,
            material,
            model_view: Mat4::identity(),
            time: 0,
        }
    }

    /// One frame's field-to-mesh derivation. The caller has already driven
    /// the external simulation with the forcing input for step time + 1
    /// and hands in the freshly stepped samples, row-major, one per
    /// lattice vertex; this advances the step counter and rewrites every
    /// vertex's elevation and normal in place, in the construction's
    /// row-major order.
    #[verifier::rlimit(90)]
    pub fn update(&mut self, samples: &Vec<i64>)
        requires
            old(self).wf(),
            samples@.len() == old(self).geometry.vertices@.len(),
            forall|k: int|
                0 <= k < samples@.len() ==> -SAMPLE_BOUND <= #[trigger] samples@[k] <= SAMPLE_BOUND,
            old(self).time < u64::MAX,
        ensures
            final(self).wf(),
            fluid_update_eq(*old(self), *final(self), samples@),
    {
        self.time = self.time + 1;
        let cols: usize = (self.x + 1) as usize;
        let rows: usize = (self.y + 1) as usize;
        let n: usize = self.geometry.vertices.len();
        let dx: i64 = self.width / (self.x as i64);
        proof {
            lemma_div_pos_is_pos(self.width as int, self.x as int);
            lemma_div_nonincreasing(self.width as int, self.x as int);
        }
        let mut k: usize = 0;
        while k < n
            invariant
                k <= n,
                n == samples@.len(),
                cols == old(self).x + 1,
                rows == old(self).y + 1,
                n == cols * rows,
                2 <= cols <= GRID_DIV_MAX + 1,
                2 <= rows <= GRID_DIV_MAX + 1,
                0 <= dx <= SCALE_MAX,
                dx == old(self).width as int / old(self).x as int,
                1 <= old(self).height_mag <= SCALE_MAX,
                forall|j: int|
                    0 <= j < samples@.len() ==> -SAMPLE_BOUND <= #[trigger] samples@[j]
                        <= SAMPLE_BOUND,
                self.x == old(self).x,
                self.y == old(self).y,
                self.height_mag == old(self).height_mag,
                self.width == old(self).width,
                self.material == old(self).material,
                self.model_view == old(self).model_view,
                self.time == old(self).time + 1,
                self.geometry.indices@ == old(self).geometry.indices@,
                self.geometry.vertices@.len() == n,
                forall|j: int|
                    k <= j < n ==> self.geometry.vertices@[j] == old(self).geometry.vertices@[j],
                forall|j: int|
                    0 <= j < k ==> self.geometry.vertices@[j] == updated_vertex_spec(
                        old(self).geometry.vertices@[j],
                        samples@,
                        cols as int,
                        rows as int,
                        dx as int,
                        old(self).height_mag as int,
                        j,
                    ),
            decreases n - k,
        {
            let v_old: VertexTexture = self.geometry.vertices[k];
            let nv = derive_vertex(samples, k, cols, rows, dx, self.height_mag, v_old);
            self.geometry.vertices[k] = nv;
            k = k + 1;
        }
    }

    /// Binds the sheet's geometry and material and emits one draw through
    /// the material abstraction, appending to the frame's command list.
    pub fn draw(&self, ctx: &RenderContext, out: &mut Vec<DrawCall>)
        requires
            self.wf(),
            ctx.wf(),
        ensures
            final(out)@.len() == old(out)@.len() + 1,
            final(out)@.subrange(0, old(out)@.len() as int) == old(out)@,
            pbr_tex_draw_eq(
                self.material,
                ctx.view,
                ctx.projection,
                self.geometry.vertices@,
                self.geometry.indices@,
                self.model_view,
                final(out)@[old(out)@.len() as int],
            ),
    {
        let c = self.material.draw(ctx, &self.geometry, self.model_view);
        out.push(c);
        proof {
            assert(out@.subrange(0, old(out)@.len() as int) =~= old(out)@);
        }
    }
}

} // verus!
