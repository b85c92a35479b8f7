//! Materials: fixed pipeline configuration plus a mutable per-draw data
//! block, and the draw commands they emit.
//!
//! A material is fixed at construction (shading model, primitive topology,
//! light counts) and owns the uniforms written before each draw. `draw`
//! recomputes the model-view matrix, the normal transform and the lights
//! in view space, stores them in the data block, and hands back one
//! `DrawCall` carrying the uploaded buffers and uniforms.

use vstd::prelude::*;
use crate::linalg::{
    div_trunc, div_tz, lemma_mul_abs_bound, mat4_mul_val, normal_mat_eq, normal_matrix, Mat3,
    Mat4, Vec3, Vec4, LIGHT_BOUND, MODEL_MAT_BOUND, NORMAL_MAT_BOUND, PRODUCT_MAT_BOUND,
};
use crate::geometry::{copy_vec, Geometry, Vertex, VertexTexture};
use crate::render::RenderContext;

verus! {

/// Primitive topology a pipeline is built with.
#[derive(Clone, Copy, PartialEq, Eq, Structural, Debug)]
pub enum Primitive {
    TriangleList,
    TriangleStrip,
}

/// A directional light: a color and a direction, in fixed-point.
#[derive(Clone, Copy, PartialEq, Eq, Structural, Debug)]
pub struct DirectionalLight {
    pub color: Vec4,
    pub direction: Vec4,
}

/// A point light: a position, a color, and distance-decay parameters.
#[derive(Clone, Copy, PartialEq, Eq, Structural, Debug)]
pub struct PointLight {
    pub position: Vec4,
    pub color: Vec4,
    pub distance_decay: Vec4,
}

/// The default key light: white, shining along (1, -1, 1) normalized.
pub open spec fn dir_light_spec() -> DirectionalLight {
    DirectionalLight {
        direction: Vec4 { x: 5774, y: -5774i128, z: 5774, w: 0 },
        color: Vec4 { x: 10_000, y: 10_000, z: 10_000, w: 10_000 },
    }
}

/// The default fill light: white, just under the origin.
pub open spec fn point_light_spec() -> PointLight {
    PointLight {
        position: Vec4 { x: 0, y: -100i128, z: 100, w: 0 },
        color: Vec4 { x: 10_000, y: 10_000, z: 10_000, w: 10_000 },
        distance_decay: Vec4 { x: 100_000, y: 8000, z: 0, w: 0 },
    }
}

fn dir_light_default() -> (l: DirectionalLight)
    ensures
        l == dir_light_spec(),
{
    DirectionalLight {
        direction: Vec4::new(5774, -5774, 5774, 0),
        color: Vec4::new(10_000, 10_000, 10_000, 10_000),
    }
}

fn point_light_default() -> (l: PointLight)
    ensures
        l == point_light_spec(),
{
    PointLight {
        position: Vec4::new(0, -100, 100, 0),
        color: Vec4::new(10_000, 10_000, 10_000, 10_000),
        distance_decay: Vec4::new(100_000, 8000, 0, 0),
    }
}

/// r is l with its direction taken through the normal transform `mat` (the
/// linear 3x3 part; the homogeneous component stays zero), renormalized by
/// the matrix's own denominator so the result keeps the fixed-point scale.
pub open spec fn dir_transform_eq(l: DirectionalLight, mat: Mat3, r: DirectionalLight) -> bool {
    &&& r.color == l.color
    &&& r.direction.x == div_tz(
        mat.m00 * l.direction.x + mat.m01 * l.direction.y + mat.m02 * l.direction.z,
        mat.den as int,
    )
    &&& r.direction.y == div_tz(
        mat.m10 * l.direction.x + mat.m11 * l.direction.y + mat.m12 * l.direction.z,
        mat.den as int,
    )
    &&& r.direction.z == div_tz(
        mat.m20 * l.direction.x + mat.m21 * l.direction.y + mat.m22 * l.direction.z,
        mat.den as int,
    )
    &&& r.direction.w == 0
}

/// r is l with its position taken through the model-view matrix `mat`,
/// renormalized by FX so the result keeps the fixed-point scale.
pub open spec fn point_transform_eq(l: PointLight, mat: Mat4, r: PointLight) -> bool {
    let fx = crate::FX as int;
    &&& r.color == l.color
    &&& r.distance_decay == l.distance_decay
    &&& r.position.x == div_tz(
        mat.m00 * l.position.x + mat.m01 * l.position.y + mat.m02 * l.position.z
            + mat.m03 * l.position.w,
        fx,
    )
    &&& r.position.y == div_tz(
        mat.m10 * l.position.x + mat.m11 * l.position.y + mat.m12 * l.position.z
            + mat.m13 * l.position.w,
        fx,
    )
    &&& r.position.z == div_tz(
        mat.m20 * l.position.x + mat.m21 * l.position.y + mat.m22 * l.position.z
            + mat.m23 * l.position.w,
        fx,
    )
    &&& r.position.w == div_tz(
        mat.m30 * l.position.x + mat.m31 * l.position.y + mat.m32 * l.position.z
            + mat.m33 * l.position.w,
        fx,
    )
}

impl DirectionalLight {
    /// Carries the direction into view space through the normal transform.
    pub fn transform(&self, mat: &Mat3) -> (r: DirectionalLight)
        requires
            mat.bounded(NORMAL_MAT_BOUND as int),
            mat.den >= 1,
            self.direction.bounded(LIGHT_BOUND as int),
        ensures
            dir_transform_eq(*self, *mat, r),
    {
        proof {
            let nb = NORMAL_MAT_BOUND as int;
            let lb = LIGHT_BOUND as int;
            lemma_mul_abs_bound(mat.m00 as int, self.direction.x as int, nb, lb);
            lemma_mul_abs_bound(mat.m01 as int, self.direction.y as int, nb, lb);
            lemma_mul_abs_bound(mat.m02 as int, self.direction.z as int, nb, lb);
            lemma_mul_abs_bound(mat.m10 as int, self.direction.x as int, nb, lb);
            lemma_mul_abs_bound(mat.m11 as int, self.direction.y as int, nb, lb);
            lemma_mul_abs_bound(mat.m12 as int, self.direction.z as int, nb, lb);
            lemma_mul_abs_bound(mat.m20 as int, self.direction.x as int, nb, lb);
            lemma_mul_abs_bound(mat.m21 as int, self.direction.y as int, nb, lb);
            lemma_mul_abs_bound(mat.m22 as int, self.direction.z as int, nb, lb);
        }
        let dx: i128 = mat.m00 * self.direction.x + mat.m01 * self.direction.y
            + mat.m02 * self.direction.z;
        let dy: i128 = mat.m10 * self.direction.x + mat.m11 * self.direction.y
            + mat.m12 * self.direction.z;
        let dz: i128 = mat.m20 * self.direction.x + mat.m21 * self.direction.y
            + mat.m22 * self.direction.z;
        DirectionalLight {
            direction: Vec4::new(
                div_trunc(dx, mat.den),
                div_trunc(dy, mat.den),
                div_trunc(dz, mat.den),
                0,
            ),
            color: self.color,
        }
    }
}

impl PointLight {
    /// Carries the position into view space through the model-view matrix.
    pub fn transform(&self, mat: &Mat4) -> (r: PointLight)
        requires
            mat.bounded(PRODUCT_MAT_BOUND as int),
            self.position.bounded(LIGHT_BOUND as int),
        ensures
            point_transform_eq(*self, *mat, r),
    {
        proof {
            let pb = PRODUCT_MAT_BOUND as int;
            let lb = LIGHT_BOUND as int;
            lemma_mul_abs_bound(mat.m00 as int, self.position.x as int, pb, lb);
            lemma_mul_abs_bound(mat.m01 as int, self.position.y as int, pb, lb);
            lemma_mul_abs_bound(mat.m02 as int, self.position.z as int, pb, lb);
            lemma_mul_abs_bound(mat.m03 as int, self.position.w as int, pb, lb);
            lemma_mul_abs_bound(mat.m10 as int, self.position.x as int, pb, lb);
            lemma_mul_abs_bound(mat.m11 as int, self.position.y as int, pb, lb);
            lemma_mul_abs_bound(mat.m12 as int, self.position.z as int, pb, lb);
            lemma_mul_abs_bound(mat.m13 as int, self.position.w as int, pb, lb);
            lemma_mul_abs_bound(mat.m20 as int, self.position.x as int, pb, lb);
            lemma_mul_abs_bound(mat.m21 as int, self.position.y as int, pb, lb);
            lemma_mul_abs_bound(mat.m22 as int, self.position.z as int, pb, lb);
            lemma_mul_abs_bound(mat.m23 as int, self.position.w as int, pb, lb);
            lemma_mul_abs_bound(mat.m30 as int, self.position.x as int, pb, lb);
            lemma_mul_abs_bound(mat.m31 as int, self.position.y as int, pb, lb);
            lemma_mul_abs_bound(mat.m32 as int, self.position.z as int, pb, lb);
            lemma_mul_abs_bound(mat.m33 as int, self.position.w as int, pb, lb);
        }
        let px: i128 = mat.m00 * self.position.x + mat.m01 * self.position.y
            + mat.m02 * self.position.z + mat.m03 * self.position.w;
        let py: i128 = mat.m10 * self.position.x + mat.m11 * self.position.y
            + mat.m12 * self.position.z + mat.m13 * self.position.w;
        let pz: i128 = mat.m20 * self.position.x + mat.m21 * self.position.y
            + mat.m22 * self.position.z + mat.m23 * self.position.w;
        let pw: i128 = mat.m30 * self.position.x + mat.m31 * self.position.y
            + mat.m32 * self.position.z + mat.m33 * self.position.w;
        let fx: i128 = crate::FX as i128;
        PointLight {
            position: Vec4::new(
                div_trunc(px, fx),
                div_trunc(py, fx),
                div_trunc(pz, fx),
                div_trunc(pw, fx),
            ),
            color: self.color,
            distance_decay: self.distance_decay,
        }
    }
}

/// A spot light: carried for completeness of the light set; the default
/// scene binds zero of them.
#[derive(Clone, Copy, PartialEq, Eq, Structural, Debug)]
pub struct SpotLight {
    pub position: Vec4,
    pub direction: Vec4,
    pub color: Vec4,
    pub distance_decay_cone: Vec4,
}

/// Per-draw data of the unlit pipeline.
#[derive(Clone, Copy, PartialEq, Eq, Structural, Debug)]
pub struct BasicData {
    pub u_model_view_proj: Mat4,
}

/// Per-draw data of the plain PBR pipeline.
#[derive(Clone, Copy, PartialEq, Eq, Structural, Debug)]
pub struct PbrData {
    pub model_view_matrix: Mat4,
    pub projection_matrix: Mat4,
    pub normal_matrix: Mat3,
    pub metallic: i64,
    pub roughness: i64,
    pub albedo: Vec3,
    pub emissive: Vec3,
    pub opacity: i64,
    pub d_num: i32,
    pub p_num: i32,
    pub s_num: i32,
}

/// Per-draw data of the textured PBR pipeline.
#[derive(Clone, Copy, PartialEq, Eq, Structural, Debug)]
pub struct PbrTexData {
    pub model_view_matrix: Mat4,
    pub projection_matrix: Mat4,
    pub normal_matrix: Mat3,
    pub metallic: i64,
    pub roughness: i64,
    pub albedo: Vec3,
    pub has_kdmap: i32,
    pub emissive: Vec3,
    pub opacity: i64,
    pub d_num: i32,
    pub p_num: i32,
    pub s_num: i32,
}

/// A material: the pipeline's fixed primitive topology and its per-draw
/// data block. The compiled pipeline object itself lives with the caller
/// that owns the GPU device.
pub struct Material<D> {
    pub primitive: Primitive,
    pub data: D,
}

pub type MaterialBasic = Material<BasicData>;

pub type MaterialPbr = Material<PbrData>;

pub type MaterialPbrTex = Material<PbrTexData>;

/// One draw command: the buffers to upload and the uniforms to write, as
/// the frame sink consumes them, in submission order.
pub enum DrawCall {
    Basic {
        vertices: Vec<Vertex>,
        indices: Vec<u32>,
        primitive: Primitive,
        data: BasicData,
    },
    Pbr {
        vertices: Vec<Vertex>,
        indices: Vec<u32>,
        primitive: Primitive,
        data: PbrData,
        d_light: DirectionalLight,
    },
    PbrTex {
        vertices: Vec<VertexTexture>,
        indices: Vec<u32>,
        primitive: Primitive,
        data: PbrTexData,
        d_light: DirectionalLight,
        p_light: PointLight,
    },
}

impl MaterialBasic {
    /// An unlit material over a triangle strip.
    pub fn new() -> (m: MaterialBasic)
        ensures
            m.primitive == Primitive::TriangleStrip,
            m.data.u_model_view_proj == Mat4::scale_spec(crate::FX as int),
    {
        Material {
            primitive: Primitive::TriangleStrip,
            data: BasicData { u_model_view_proj: Mat4::identity() },
        }
    }
}

impl MaterialPbr {
    /// A plain PBR material: one directional light, no point or spot
    /// lights. Matrices start as the identity until the first draw.
    pub fn new(
        metallic: i64,
        roughness: i64,
        albedo: Vec3,
        emissive: Vec3,
        opacity: i64,
        primitive: Primitive,
    ) -> (m: MaterialPbr)
        ensures
            m.primitive == primitive,
            m.data.metallic == metallic,
            m.data.roughness == roughness,
            m.data.albedo == albedo,
            m.data.emissive == emissive,
            m.data.opacity == opacity,
            m.data.model_view_matrix == Mat4::scale_spec(crate::FX as int),
            m.data.projection_matrix == Mat4::scale_spec(crate::FX as int),
            m.data.normal_matrix == crate::linalg::mat3_identity_spec(),
            m.data.d_num == 1,
            m.data.p_num == 0,
            m.data.s_num == 0,
    {
        Material {
            primitive,
            data: PbrData {
                model_view_matrix: Mat4::identity(),
                projection_matrix: Mat4::identity(),
                normal_matrix: identity_mat3(),
                metallic,
                roughness,
                albedo,
                emissive,
                opacity,
                d_num: 1,
                p_num: 0,
                s_num: 0,
            },
        }
    }
}

impl MaterialPbrTex {
    /// A textured PBR material: one point light, no directional or spot
    /// lights. `map_kd` names the diffuse texture the caller will bind;
    /// without one the shader falls back to the constant albedo.
    pub fn new(
        metallic: i64,
        roughness: i64,
        albedo: Vec3,
        emissive: Vec3,
        opacity: i64,
        primitive: Primitive,
        map_kd: Option<String>,
    ) -> (m: MaterialPbrTex)
        ensures
            m.primitive == primitive,
            m.data.metallic == metallic,
            m.data.roughness == roughness,
            m.data.albedo == albedo,
            m.data.emissive == emissive,
            m.data.opacity == opacity,
            m.data.has_kdmap == 1 <==> map_kd is Some,
            m.data.has_kdmap == 0 <==> map_kd is None,
            m.data.model_view_matrix == Mat4::scale_spec(crate::FX as int),
            m.data.projection_matrix == Mat4::scale_spec(crate::FX as int),
            m.data.normal_matrix == crate::linalg::mat3_identity_spec(),
            m.data.d_num == 0,
            m.data.p_num == 1,
            m.data.s_num == 0,
    {
        let has_kdmap: i32 = if map_kd.is_some() { 1 } else { 0 };
        Material {
            primitive,
            data: PbrTexData {
                model_view_matrix: Mat4::identity(),
                projection_matrix: Mat4::identity(),
                normal_matrix: identity_mat3(),
                metallic,
                roughness,
                albedo,
                has_kdmap,
                emissive,
                opacity,
                d_num: 0,
                p_num: 1,
                s_num: 0,
            },
        }
    }
}

fn identity_mat3() -> (m: Mat3)
    ensures
        m == crate::linalg::mat3_identity_spec(),
{
    let fx: i128 = crate::FX as i128;
    Mat3 { m00: fx, m01: 0, m02: 0, m10: 0, m11: fx, m12: 0, m20: 0, m21: 0, m22: fx, den: fx }
}

/// The unlit draw: the emitted data block holds projection * view * model,
/// and the call carries the geometry unchanged.
pub open spec fn basic_draw_eq(
    m0: MaterialBasic,
    view: Mat4,
    proj: Mat4,
    vs: Seq<Vertex>,
    ids: Seq<u32>,
    model: Mat4,
    c: DrawCall,
) -> bool {
    match c {
        DrawCall::Basic { vertices, indices, primitive, data } => {
            &&& vertices@ == vs
            &&& indices@ == ids
            &&& primitive == m0.primitive
            &&& data.u_model_view_proj == mat4_mul_val(proj, mat4_mul_val(view, model))
        },
        _ => false,
    }
}

/// The plain PBR draw: the emitted data block holds view * model, the
/// projection, and the normal transform of view * model; the directional
/// light rides along in view space; the geometry is carried unchanged.
pub open spec fn pbr_draw_eq(
    m0: MaterialPbr,
    view: Mat4,
    proj: Mat4,
    vs: Seq<Vertex>,
    ids: Seq<u32>,
    model: Mat4,
    c: DrawCall,
) -> bool {
    let mv = mat4_mul_val(view, model);
    match c {
        DrawCall::Pbr { vertices, indices, primitive, data, d_light } => {
            &&& vertices@ == vs
            &&& indices@ == ids
            &&& primitive == m0.primitive
            &&& data.model_view_matrix == mv
            &&& data.projection_matrix == proj
            &&& normal_mat_eq(mv, data.normal_matrix)
            &&& data.metallic == m0.data.metallic
            &&& data.roughness == m0.data.roughness
            &&& data.albedo == m0.data.albedo
            &&& data.emissive == m0.data.emissive
            &&& data.opacity == m0.data.opacity
            &&& data.d_num == m0.data.d_num
            &&& data.p_num == m0.data.p_num
            &&& data.s_num == m0.data.s_num
            &&& dir_transform_eq(dir_light_spec(), data.normal_matrix, d_light)
        },
        _ => false,
    }
}

/// The textured PBR draw: as the plain one, with the point light carried
/// through the model-view matrix as well.
pub open spec fn pbr_tex_draw_eq(
    m0: MaterialPbrTex,
    view: Mat4,
    proj: Mat4,
    vs: Seq<VertexTexture>,
    ids: Seq<u32>,
    model: Mat4,
    c: DrawCall,
) -> bool {
    let mv = mat4_mul_val(view, model);
    match c {
        DrawCall::PbrTex { vertices, indices, primitive, data, d_light, p_light } => {
            &&& vertices@ == vs
            &&& indices@ == ids
            &&& primitive == m0.primitive
            &&& data.model_view_matrix == mv
            &&& data.projection_matrix == proj
            &&& normal_mat_eq(mv, data.normal_matrix)
            &&& data.metallic == m0.data.metallic
            &&& data.roughness == m0.data.roughness
            &&& data.albedo == m0.data.albedo
            &&& data.has_kdmap == m0.data.has_kdmap
            &&& data.emissive == m0.data.emissive
            &&& data.opacity == m0.data.opacity
            &&& data.d_num == m0.data.d_num
            &&& data.p_num == m0.data.p_num
            &&& data.s_num == m0.data.s_num
            &&& dir_transform_eq(dir_light_spec(), data.normal_matrix, d_light)
            &&& point_transform_eq(point_light_spec(), mv, p_light)
        },
        _ => false,
    }
}

impl MaterialBasic {
    /// Emits one unlit indexed draw of the geometry under the combined
    /// projection * view * model transform.
    pub fn draw(
        &self,
        ctx: &RenderContext,
        geometry: &Geometry<Vertex>,
        model_matrix: Mat4,
    ) -> (c: DrawCall)
        requires
            ctx.wf(),
            model_matrix.bounded(MODEL_MAT_BOUND as int),
        ensures
            basic_draw_eq(
                *self,
                ctx.view,
                ctx.projection,
                geometry.vertices@,
                geometry.indices@,
                model_matrix,
                c,
            ),
    {
        let vm = ctx.view.mul(&model_matrix);
        let matrix = ctx.projection.mul(&vm);
        DrawCall::Basic {
            vertices: copy_vec(&geometry.vertices),
            indices: copy_vec(&geometry.indices),
            primitive: self.primitive,
            data: BasicData { u_model_view_proj: matrix },
        }
    }
}

impl MaterialPbr {
    /// Emits one lit indexed draw: recomputes the model-view and normal
    /// matrices, carries the directional light into view space, and hands
    /// the buffers on.
    pub fn draw(
        &self,
        ctx: &RenderContext,
        geometry: &Geometry<Vertex>,
        model_matrix: Mat4,
    ) -> (c: DrawCall)
        requires
            ctx.wf(),
            model_matrix.bounded(MODEL_MAT_BOUND as int),
        ensures
            pbr_draw_eq(
                *self,
                ctx.view,
                ctx.projection,
                geometry.vertices@,
                geometry.indices@,
                model_matrix,
                c,
            ),
    {
        let mv = ctx.view.mul(&model_matrix);
        let nm = normal_matrix(&mv);
        let d_light = dir_light_default().transform(&nm);
        DrawCall::Pbr {
            vertices: copy_vec(&geometry.vertices),
            indices: copy_vec(&geometry.indices),
            primitive: self.primitive,
            data: PbrData {
                model_view_matrix: mv,
                projection_matrix: ctx.projection,
                normal_matrix: nm,
                metallic: self.data.metallic,
                roughness: self.data.roughness,
                albedo: self.data.albedo,
                emissive: self.data.emissive,
                opacity: self.data.opacity,
                d_num: self.data.d_num,
                p_num: self.data.p_num,
                s_num: self.data.s_num,
            },
            d_light,
        }
    }
}

impl MaterialPbrTex {
    /// Emits one textured lit indexed draw: as the plain PBR draw, with
    /// the point light carried through the model-view matrix too.
    pub fn draw(
        &self,
        ctx: &RenderContext,
        geometry: &Geometry<VertexTexture>,
        model_matrix: Mat4,
    ) -> (c: DrawCall)
        requires
            ctx.wf(),
            model_matrix.bounded(MODEL_MAT_BOUND as int),
        ensures
            pbr_tex_draw_eq(
                *self,
                ctx.view,
                ctx.projection,
                geometry.vertices@,
                geometry.indices@,
                model_matrix,
                c,
            ),
    {
        let mv = ctx.view.mul(&model_matrix);
        let nm = normal_matrix(&mv);
        let d_light = dir_light_default().transform(&nm);
        let p_light = point_light_default().transform(&mv);
        DrawCall::PbrTex {
            vertices: copy_vec(&geometry.vertices),
            indices: copy_vec(&geometry.indices),
            primitive: self.primitive,
            data: PbrTexData {
                model_view_matrix: mv,
                projection_matrix: ctx.projection,
                normal_matrix: nm,
                metallic: self.data.metallic,
                roughness: self.data.roughness,
                albedo: self.data.albedo,
                has_kdmap: self.data.has_kdmap,
                emissive: self.data.emissive,
                opacity: self.data.opacity,
                d_num: self.data.d_num,
                p_num: self.data.p_num,
                s_num: self.data.s_num,
            },
            d_light,
            p_light,
        }
    }
}

} // verus!
