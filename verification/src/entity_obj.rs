//! The loaded-mesh entity: parts assembled from parsed polygon groups.
//!
//! A mesh parser (an external collaborator) supplies attribute tables and
//! polygon groups; this module turns each group into one mesh part. Every
//! polygon is a fan of at least three position/texture/normal triples: one
//! vertex is emitted per triple, with no deduplication across triples, and
//! the fan is triangulated from the polygon's first vertex, with offsets
//! accumulated across the group's polygons. A group without a material
//! reference is a fatal configuration error surfaced to the caller.

use vstd::prelude::*;
use crate::geometry::{Geometry, VertexTexture};
use crate::linalg::{Mat4, Vec2, Vec3, ENTITY_MAT_BOUND};
use crate::material::{pbr_tex_draw_eq, DrawCall, MaterialPbrTex, Primitive};
use crate::render::RenderContext;

verus! {

/// Largest accepted total corner count of one polygon group.
pub const GROUP_CORNER_MAX: u32 = 100_000_000;

/// One parsed polygon corner: a position index and optional texture and
/// normal indices.
#[derive(Clone, Copy, Debug)]
pub struct IndexTriple {
    pub p: usize,
    pub t: Option<usize>,
    pub n: Option<usize>,
}

/// A parsed material description: optional diffuse color and optional
/// diffuse texture name.
pub struct SurfaceDesc {
    pub kd: Option<Vec3>,
    pub map_kd: Option<String>,
}

/// One polygon group: fan polygons and an optional material reference.
pub struct PolyGroup {
    pub polys: Vec<Vec<IndexTriple>>,
    pub material: Option<SurfaceDesc>,
}

/// Parsed mesh data: attribute tables and polygon groups.
pub struct ObjData {
    pub position: Vec<Vec3>,
    pub texture: Vec<Vec2>,
    pub normal: Vec<Vec3>,
    pub groups: Vec<PolyGroup>,
}

/// Why mesh assembly can fail.
#[derive(Clone, Copy, PartialEq, Eq, Structural, Debug)]
pub enum MeshError {
    /// A polygon group has no material reference; there is no default
    /// material fallback for mesh parts.
    MissingMaterial,
}

impl ObjData {
    /// The triple's indices address the attribute tables.
    pub open spec fn triple_ok(&self, t: IndexTriple) -> bool {
        &&& (t.p as int) < self.position@.len()
        &&& match t.t {
            Option::Some(i) => (i as int) < self.texture@.len(),
            Option::None => true,
        }
        &&& match t.n {
            Option::Some(i) => (i as int) < self.normal@.len(),
            Option::None => true,
        }
    }

    /// Every polygon of the group is a fan of at least three in-bounds
    /// triples, and the group is small enough to index with u32.
    pub open spec fn group_ok(&self, g: PolyGroup) -> bool {
        &&& forall|q: int|
            0 <= q < g.polys@.len() ==> (#[trigger] g.polys@[q])@.len() >= 3
        &&& forall|q: int, c: int|
            0 <= q < g.polys@.len() && 0 <= c < g.polys@[q]@.len() ==> self.triple_ok(
                #[trigger] g.polys@[q]@[c],
            )
        &&& poly_corners_before(g.polys@, g.polys@.len() as int) <= GROUP_CORNER_MAX
    }

    pub open spec fn wf(&self) -> bool {
        forall|gi: int| 0 <= gi < self.groups@.len() ==> self.group_ok(#[trigger] self.groups@[gi])
    }
}

/// The vertex one corner resolves to: attribute lookups, with zero texture
/// coordinates and an x-axis normal standing in where the triple names
/// none.
pub open spec fn resolved_vertex(data: ObjData, t: IndexTriple) -> VertexTexture {
    VertexTexture {
        position: data.position@[t.p as int],
        texture: match t.t {
            Option::Some(i) => data.texture@[i as int],
            Option::None => Vec2 { x: 0, y: 0 },
        },
        normal: match t.n {
            Option::Some(i) => data.normal@[i as int],
            Option::None => Vec3 { x: crate::FX, y: 0, z: 0 },
        },
    }
}

/// Corners emitted by the polygons before polygon q.
pub open spec fn poly_corners_before(polys: Seq<Vec<IndexTriple>>, q: int) -> int
    decreases q,
{
    if q <= 0 {
        0
    } else {
        poly_corners_before(polys, q - 1) + polys[q - 1]@.len()
    }
}

/// Triangles emitted by the polygons before polygon q: a fan of n corners
/// yields n - 2 triangles.
pub open spec fn poly_tris_before(polys: Seq<Vec<IndexTriple>>, q: int) -> int
    decreases q,
{
    if q <= 0 {
        0
    } else {
        poly_tris_before(polys, q - 1) + (polys[q - 1]@.len() - 2)
    }
}

/// The running corner and triangle counts only grow with the polygon
/// index, and never drop below zero.
pub proof fn lemma_counts_mono(polys: Seq<Vec<IndexTriple>>, q1: int, q2: int)
    requires
        0 <= q1 <= q2,
        forall|q: int| 0 <= q < q2 ==> (#[trigger] polys[q])@.len() >= 3,
    ensures
        0 <= poly_corners_before(polys, q1) <= poly_corners_before(polys, q2),
        0 <= poly_tris_before(polys, q1) <= poly_tris_before(polys, q2),
        poly_tris_before(polys, q2) <= poly_corners_before(polys, q2),
    decreases q2,
{
    if q2 > 0 {
        if q1 == q2 {
            lemma_counts_mono(polys, q2 - 1, q2 - 1);
        } else {
            lemma_counts_mono(polys, q1, q2 - 1);
        }
    }
}

/// The vertices of polygon q stand resolved, in corner order, at the
/// group's cumulative offset.
pub open spec fn poly_vertices_ok(
    vs: Seq<VertexTexture>,
    data: ObjData,
    polys: Seq<Vec<IndexTriple>>,
    q: int,
) -> bool {
    forall|c: int|
        0 <= c < polys[q]@.len() ==> vs[poly_corners_before(polys, q) + c] == resolved_vertex(
            data,
            #[trigger] polys[q]@[c],
        )
}

/// The triangles of polygon q fan out from its first corner: triangle ii
/// joins the polygon's corner 0 with corners ii + 1 and ii + 2, offset by
/// the corners of earlier polygons.
pub open spec fn poly_indices_ok(ids: Seq<u32>, polys: Seq<Vec<IndexTriple>>, q: int) -> bool {
    forall|ii: int|
        #![trigger ids[3 * (poly_tris_before(polys, q) + ii)]]
        0 <= ii < polys[q]@.len() - 2 ==> {
            let base = 3 * (poly_tris_before(polys, q) + ii);
            let ofst = poly_corners_before(polys, q);
            &&& ids[base] == ofst
            &&& ids[base + 1] == ofst + ii + 1
            &&& ids[base + 2] == ofst + ii + 2
        }
}

/// All clauses the assembled geometry of one group satisfies.
pub open spec fn group_geometry_eq(
    r: Geometry<VertexTexture>,
    data: ObjData,
    polys: Seq<Vec<IndexTriple>>,
) -> bool {
    &&& r.vertices@.len() == poly_corners_before(polys, polys.len() as int)
    &&& r.indices@.len() == 3 * poly_tris_before(polys, polys.len() as int)
    &&& forall|q: int| 0 <= q < polys.len() ==> poly_vertices_ok(r.vertices@, data, polys, q)
    &&& forall|q: int| 0 <= q < polys.len() ==> poly_indices_ok(r.indices@, polys, q)
    &&& r.wf()
}

/// Assembles one polygon group into a geometry: one vertex per corner
/// triple and a fan triangulation per polygon, offsets accumulated across
/// the group.
#[verifier::rlimit(60)]
pub fn group_geometry(data: &ObjData, g: &PolyGroup) -> (r: Geometry<VertexTexture>)
    requires
        data.group_ok(*g),
    ensures
        group_geometry_eq(r, *data, g.polys@),
{
    let mut vertices: Vec<VertexTexture> = Vec::new();
    let mut indices: Vec<u32> = Vec::new();
    let mut ofst: u32 = 0;
    let nq: usize = g.polys.len();
    let mut q: usize = 0;
    while q < nq
        invariant
            q <= nq,
            nq == g.polys@.len(),
            data.group_ok(*g),
            ofst == poly_corners_before(g.polys@, q as int),
            vertices@.len() == ofst,
            indices@.len() == 3 * poly_tris_before(g.polys@, q as int),
            forall|qq: int| 0 <= qq < q ==> poly_vertices_ok(vertices@, *data, g.polys@, qq),
            forall|qq: int| 0 <= qq < q ==> poly_indices_ok(indices@, g.polys@, qq),
            forall|j: int|
                0 <= j < indices@.len() ==> (#[trigger] indices@[j]) < vertices@.len(),
        decreases nq - q,
    {
        proof {
            lemma_counts_mono(g.polys@, q as int, nq as int);
            lemma_counts_mono(g.polys@, q as int + 1, nq as int);
        }
        let nc: usize = g.polys[q].len();
        let mut c: usize = 0;
        while c < nc
            invariant
                c <= nc,
                q < nq,
                nq == g.polys@.len(),
                nc == g.polys@[q as int]@.len(),
                data.group_ok(*g),
                ofst == poly_corners_before(g.polys@, q as int),
                ofst + nc <= GROUP_CORNER_MAX,
                vertices@.len() == ofst + c,
                indices@.len() == 3 * poly_tris_before(g.polys@, q as int),
                forall|qq: int| 0 <= qq < q ==> poly_vertices_ok(vertices@, *data, g.polys@, qq),
                forall|cc: int|
                    0 <= cc < c ==> vertices@[ofst + cc] == resolved_vertex(
                        *data,
                        #[trigger] g.polys@[q as int]@[cc],
                    ),
                forall|qq: int| 0 <= qq < q ==> poly_indices_ok(indices@, g.polys@, qq),
                forall|j: int|
                    0 <= j < indices@.len() ==> (#[trigger] indices@[j]) < vertices@.len(),
            decreases nc - c,
        {
            let t: IndexTriple = g.polys[q][c];
            let pos: Vec3 = data.position[t.p];
            let tex: Vec2 = match t.t {
                Option::Some(i) => data.texture[i],
                Option::None => Vec2::new(0, 0),
            };
            let nor: Vec3 = match t.n {
                Option::Some(i) => data.normal[i],
                Option::None => Vec3::new(crate::FX, 0, 0),
            };
            let ghost v_pre = vertices@;
            vertices.push(VertexTexture::new(pos, tex, nor));
            proof {
                assert forall|j2: int| 0 <= j2 < v_pre.len() implies vertices@[j2] == v_pre[j2] by {}
                assert forall|qq: int| 0 <= qq < q implies poly_vertices_ok(
                    vertices@,
                    *data,
                    g.polys@,
                    qq,
                ) by {
                    lemma_counts_mono(g.polys@, qq, qq + 1);
                    lemma_counts_mono(g.polys@, qq + 1, q as int);
                    assert(poly_vertices_ok(v_pre, *data, g.polys@, qq));
                    assert forall|cc: int|
                        0 <= cc < g.polys@[qq]@.len() implies vertices@[poly_corners_before(
                        g.polys@,
                        qq,
                    ) + cc] == resolved_vertex(*data, g.polys@[qq]@[cc]) by {
                        assert(poly_corners_before(g.polys@, qq) + cc < v_pre.len());
                        assert(v_pre[poly_corners_before(g.polys@, qq) + cc] == resolved_vertex(
                            *data,
                            g.polys@[qq]@[cc],
                        ));
                    }
                }
            }
            c = c + 1;
        }
        let mut ii: usize = 0;
        while ii < nc - 2
            invariant
                ii <= nc - 2,
                q < nq,
                nq == g.polys@.len(),
                nc == g.polys@[q as int]@.len(),
                3 <= nc,
                data.group_ok(*g),
                ofst == poly_corners_before(g.polys@, q as int),
                ofst + nc <= GROUP_CORNER_MAX,
                vertices@.len() == ofst + nc,
                indices@.len() == 3 * (poly_tris_before(g.polys@, q as int) + ii),
                forall|qq: int| 0 <= qq < q ==> poly_vertices_ok(vertices@, *data, g.polys@, qq),
                forall|cc: int|
                    0 <= cc < nc ==> vertices@[ofst + cc] == resolved_vertex(
                        *data,
                        #[trigger] g.polys@[q as int]@[cc],
                    ),
                forall|qq: int| 0 <= qq < q ==> poly_indices_ok(indices@, g.polys@, qq),
                forall|jj: int|
                    #![trigger indices@[3 * (poly_tris_before(g.polys@, q as int) + jj)]]
                    0 <= jj < ii ==> {
                        let base = 3 * (poly_tris_before(g.polys@, q as int) + jj);
                        &&& indices@[base] == ofst
                        &&& indices@[base + 1] == ofst + jj + 1
                        &&& indices@[base + 2] == ofst + jj + 2
                    },
                forall|j: int|
                    0 <= j < indices@.len() ==> (#[trigger] indices@[j]) < vertices@.len(),
            decreases nc - 2 - ii,
        {
            let i32v: u32 = ii as u32;
            let ib: u32 = ofst + i32v + 1;
            let ic: u32 = ofst + i32v + 2;
            let ghost i_pre = indices@;
            indices.push(ofst);
            indices.push(ib);
            indices.push(ic);
            proof {
                assert(indices@ == i_pre.push(ofst).push(ib).push(ic));
                assert forall|j2: int| 0 <= j2 < i_pre.len() implies indices@[j2] == i_pre[j2] by {
                    assert(i_pre.push(ofst)[j2] == i_pre[j2]);
                    assert(i_pre.push(ofst).push(ib)[j2] == i_pre.push(ofst)[j2]);
                    assert(i_pre.push(ofst).push(ib).push(ic)[j2] == i_pre.push(ofst).push(ib)[j2]);
                }
                assert(indices@.len() == i_pre.len() + 3);
                assert(indices@[i_pre.len() as int] == ofst);
                assert(indices@[i_pre.len() as int + 1] == ofst + i32v + 1);
                assert(indices@[i_pre.len() as int + 2] == ofst + i32v + 2);
                assert forall|jj: int|
                    #![trigger indices@[3 * (poly_tris_before(g.polys@, q as int) + jj)]]
                    0 <= jj < ii + 1 implies {
                        let base = 3 * (poly_tris_before(g.polys@, q as int) + jj);
                        &&& indices@[base] == ofst
                        &&& indices@[base + 1] == ofst + jj + 1
                        &&& indices@[base + 2] == ofst + jj + 2
                    } by {
                    let base = 3 * (poly_tris_before(g.polys@, q as int) + jj);
                    lemma_counts_mono(g.polys@, 0, q as int);
                    if jj < ii {
                        assert(base + 2 < i_pre.len());
                        assert(i_pre[base] == ofst);
                        assert(i_pre.push(ofst)[base] == i_pre[base]);
                        assert(i_pre.push(ofst).push(ib)[base] == i_pre.push(ofst)[base]);
                        assert(i_pre.push(ofst).push(ib).push(ic)[base] == i_pre.push(ofst).push(
                            ib,
                        )[base]);
                        assert(i_pre.push(ofst)[base + 1] == i_pre[base + 1]);
                        assert(i_pre.push(ofst).push(ib)[base + 1] == i_pre.push(ofst)[base + 1]);
                        assert(i_pre.push(ofst).push(ib).push(ic)[base + 1] == i_pre.push(ofst)
                            .push(ib)[base + 1]);
                        assert(i_pre.push(ofst)[base + 2] == i_pre[base + 2]);
                        assert(i_pre.push(ofst).push(ib)[base + 2] == i_pre.push(ofst)[base + 2]);
                        assert(i_pre.push(ofst).push(ib).push(ic)[base + 2] == i_pre.push(ofst)
                            .push(ib)[base + 2]);
                    } else {
                        assert(base == i_pre.len());
                        assert(i_pre.push(ofst).push(ib).push(ic)[base] == ofst);
                        assert(i_pre.push(ofst).push(ib).push(ic)[base + 1] == ib);
                        assert(i_pre.push(ofst).push(ib).push(ic)[base + 2] == ic);
                    }
                }
                assert forall|qq: int| 0 <= qq < q implies poly_indices_ok(
                    indices@,
                    g.polys@,
                    qq,
                ) by {
                    lemma_counts_mono(g.polys@, qq, qq + 1);
                    lemma_counts_mono(g.polys@, qq + 1, q as int);
                    assert(poly_indices_ok(i_pre, g.polys@, qq));
                    assert forall|jj: int|
                        #![trigger indices@[3 * (poly_tris_before(g.polys@, qq) + jj)]]
                        0 <= jj < g.polys@[qq]@.len() - 2 implies {
                            let base = 3 * (poly_tris_before(g.polys@, qq) + jj);
                            let o2 = poly_corners_before(g.polys@, qq);
                            &&& indices@[base] == o2
                            &&& indices@[base + 1] == o2 + jj + 1
                            &&& indices@[base + 2] == o2 + jj + 2
                        } by {
                        assert(3 * (poly_tris_before(g.polys@, qq) + jj) + 2 < i_pre.len());
                        assert(i_pre[3 * (poly_tris_before(g.polys@, qq) + jj)]
                            == poly_corners_before(g.polys@, qq));
                    }
                }
            }
            ii = ii + 1;
        }
        proof {
            assert(poly_vertices_ok(vertices@, *data, g.polys@, q as int));
            lemma_counts_mono(g.polys@, 0, q as int);
            assert forall|jj2: int|
                #![trigger indices@[3 * (poly_tris_before(g.polys@, q as int) + jj2)]]
                0 <= jj2 < g.polys@[q as int]@.len() - 2 implies {
                    let base = 3 * (poly_tris_before(g.polys@, q as int) + jj2);
                    let o2 = poly_corners_before(g.polys@, q as int);
                    &&& indices@[base] == o2
                    &&& indices@[base + 1] == o2 + jj2 + 1
                    &&& indices@[base + 2] == o2 + jj2 + 2
                } by {
                assert(indices@[3 * (poly_tris_before(g.polys@, q as int) + jj2)] == ofst);
            }
            assert(poly_indices_ok(indices@, g.polys@, q as int));
        }
        ofst = ofst + (nc as u32);
        q = q + 1;
    }
    Geometry { vertices, indices }
}

/// Builds the part material for one group's surface description: diffuse
/// color with a white fallback, full opacity, triangle-list topology, and
/// the texture flag set exactly when the description names a diffuse map.
pub fn convert_material(m: &SurfaceDesc) -> (r: MaterialPbrTex)
    ensures
        r.primitive == Primitive::TriangleList,
        r.data.metallic == 5000,
        r.data.roughness == 5000,
        r.data.albedo == match m.kd {
            Option::Some(c) => c,
            Option::None => Vec3 { x: crate::FX, y: crate::FX, z: crate::FX },
        },
        r.data.emissive == (Vec3 { x: 0, y: 0, z: 0 }),
        r.data.opacity == crate::FX,
        r.data.has_kdmap == 1 <==> m.map_kd is Some,
        r.data.has_kdmap == 0 <==> m.map_kd is None,
{
    let albedo: Vec3 = match m.kd {
        Option::Some(c) => c,
        Option::None => Vec3::new(crate::FX, crate::FX, crate::FX),
    };
    let map_kd: Option<String> = match &m.map_kd {
        Option::Some(s) => Option::Some(s.clone()),
        Option::None => Option::None,
    };
    MaterialPbrTex::new(
        5000,
        5000,
        albedo,
        Vec3::new(0, 0, 0),
        crate::FX,
        Primitive::TriangleList,
        map_kd,
    )
}

/// One drawable part of a loaded mesh: its geometry, its own material,
/// and a per-part local transform defaulting to the identity.
pub struct Mesh {
    pub geometry: Geometry<VertexTexture>,
    pub material: MaterialPbrTex,
    pub model_view: Mat4,
}

/// All clauses one assembled part satisfies for its group.
pub open spec fn mesh_part_eq(part: Mesh, data: ObjData, g: PolyGroup) -> bool {
    &&& group_geometry_eq(part.geometry, data, g.polys@)
    &&& part.material.primitive == Primitive::TriangleList
    &&& part.material.data.albedo == match g.material {
        Option::Some(sd) => match sd.kd {
            Option::Some(c) => c,
            Option::None => Vec3 { x: crate::FX, y: crate::FX, z: crate::FX },
        },
        Option::None => Vec3 { x: crate::FX, y: crate::FX, z: crate::FX },
    }
    &&& match g.material {
        Option::Some(sd) => part.material.data.has_kdmap == 1 <==> sd.map_kd is Some,
        Option::None => true,
    }
    &&& part.material.data.metallic == 5000
    &&& part.material.data.roughness == 5000
    &&& part.material.data.emissive == (Vec3 { x: 0, y: 0, z: 0 })
    &&& part.material.data.opacity == crate::FX
    &&& part.model_view == Mat4::scale_spec(crate::FX as int)
}

/// Loads parsed wavefront data into mesh parts: one part per polygon
/// group, each with its fan-triangulated geometry and its own material.
/// Fails, touching nothing, exactly when some group lacks a material
/// reference.
pub fn load_wavefront(data: &ObjData) -> (r: Result<Vec<Mesh>, MeshError>)
    requires
        data.wf(),
    ensures
        r is Ok <==> (forall|gi: int|
            0 <= gi < data.groups@.len() ==> (#[trigger] data.groups@[gi]).material is Some),
        r matches Ok(parts) ==> {
            &&& parts@.len() == data.groups@.len()
            &&& forall|gi: int|
                0 <= gi < data.groups@.len() ==> mesh_part_eq(
                    #[trigger] parts@[gi],
                    *data,
                    data.groups@[gi],
                )
        },
{
    let mut parts: Vec<Mesh> = Vec::new();
    let ng: usize = data.groups.len();
    let mut gi: usize = 0;
    while gi < ng
        invariant
            gi <= ng,
            ng == data.groups@.len(),
            data.wf(),
            parts@.len() == gi,
            forall|g2: int| 0 <= g2 < gi ==> (#[trigger] data.groups@[g2]).material is Some,
            forall|g2: int|
                0 <= g2 < gi ==> mesh_part_eq(#[trigger] parts@[g2], *data, data.groups@[g2]),
        decreases ng - gi,
    {
        let g = &data.groups[gi];
        let material: MaterialPbrTex = match &g.material {
            Option::Some(sd) => convert_material(sd),
            Option::None => {
                return Result::Err(MeshError::MissingMaterial);
            },
        };
        let geometry = group_geometry(data, g);
        parts.push(Mesh { geometry, material, model_view: Mat4::identity() });
        gi = gi + 1;
    }
    Result::Ok(parts)
}

/// A loaded polygonal mesh in the scene: one outer transform over a set of
/// parts that share it.
pub struct EntityObj {
    pub position: Vec3,
    pub model_view: Mat4,
    pub parts: Vec<Mesh>,
}

impl EntityObj {
    /// The outer and per-part transforms are entity-bounded, so that the
    /// draw chain's products stay exact.
    pub open spec fn wf(&self) -> bool {
        &&& self.model_view.bounded(ENTITY_MAT_BOUND as int)
        &&& forall|p: int|
            0 <= p < self.parts@.len() ==> (#[trigger] self.parts@[p]).model_view.bounded(
                ENTITY_MAT_BOUND as int,
            )
    }

    /// Assembles an entity from parsed mesh data: one part per polygon
    /// group, the whole mesh scaled down to scene size at the origin.
    /// Fails exactly when some group lacks a material reference.
    pub fn from_obj(data: &ObjData) -> (r: Result<EntityObj, MeshError>)
        requires
            data.wf(),
        ensures
            r is Ok <==> (forall|gi: int|
                0 <= gi < data.groups@.len() ==> (#[trigger] data.groups@[gi]).material
                    is Some),
            r matches Ok(e) ==> {
                &&& e.wf()
                &&& e.position == (Vec3 { x: 0, y: 0, z: 0 })
                &&& e.model_view == Mat4::scale_spec(100)
                &&& e.parts@.len() == data.groups@.len()
                &&& forall|gi: int|
                    0 <= gi < data.groups@.len() ==> mesh_part_eq(
                        #[trigger] e.parts@[gi],
                        *data,
                        data.groups@[gi],
                    )
            },
    {
        let parts = match load_wavefront(data) {
            Result::Ok(parts) => parts,
            Result::Err(e) => {
                return Result::Err(e);
            },
        };
        let position = Vec3::new(0, 0, 0);
        let model_view = Mat4::from_scale(100);
        let e = EntityObj { position, model_view, parts };
        proof {
            assert forall|p: int|
                0 <= p < e.parts@.len() implies (#[trigger] e.parts@[p]).model_view.bounded(
                ENTITY_MAT_BOUND as int,
            ) by {
                assert(mesh_part_eq(e.parts@[p], *data, data.groups@[p]));
            }
        }
        Result::Ok(e)
    }

    /// Moves the entity: the stored position and the translation column of
    /// the outer transform are set to pos, with the homogeneous entry reset
    /// to one.
    pub fn set_pos(&mut self, pos: Vec3)
        requires
            old(self).wf(),
            -ENTITY_MAT_BOUND <= pos.x <= ENTITY_MAT_BOUND,
            -ENTITY_MAT_BOUND <= pos.y <= ENTITY_MAT_BOUND,
            -ENTITY_MAT_BOUND <= pos.z <= ENTITY_MAT_BOUND,
        ensures
            final(self).wf(),
            final(self).position == pos,
            final(self).parts == old(self).parts,
            final(self).model_view.m03 == pos.x,
            final(self).model_view.m13 == pos.y,
            final(self).model_view.m23 == pos.z,
            final(self).model_view.m33 == crate::FX,
            final(self).model_view.m00 == old(self).model_view.m00,
            final(self).model_view.m01 == old(self).model_view.m01,
            final(self).model_view.m02 == old(self).model_view.m02,
            final(self).model_view.m10 == old(self).model_view.m10,
            final(self).model_view.m11 == old(self).model_view.m11,
            final(self).model_view.m12 == old(self).model_view.m12,
            final(self).model_view.m20 == old(self).model_view.m20,
            final(self).model_view.m21 == old(self).model_view.m21,
            final(self).model_view.m22 == old(self).model_view.m22,
            final(self).model_view.m30 == old(self).model_view.m30,
            final(self).model_view.m31 == old(self).model_view.m31,
            final(self).model_view.m32 == old(self).model_view.m32,
    {
        self.position = pos;
        self.model_view.m03 = pos.x as i128;
        self.model_view.m13 = pos.y as i128;
        self.model_view.m23 = pos.z as i128;
        self.model_view.m33 = crate::FX as i128;
    }

    /// A loaded mesh holds still: per-frame update changes nothing.
    pub fn update(&mut self)
        ensures
            *final(self) == *old(self),
    {
    }

    /// Draws every part in order: each part's geometry and material under
    /// the combined outer * part transform, one command per part.
    pub fn draw(&self, ctx: &RenderContext, out: &mut Vec<DrawCall>)
        requires
            self.wf(),
            ctx.wf(),
        ensures
            final(out)@.len() == old(out)@.len() + self.parts@.len(),
            forall|j: int| 0 <= j < old(out)@.len() ==> final(out)@[j] == old(out)@[j],
            forall|p: int|
                0 <= p < self.parts@.len() ==> pbr_tex_draw_eq(
                    (#[trigger] self.parts@[p]).material,
                    ctx.view,
                    ctx.projection,
                    self.parts@[p].geometry.vertices@,
                    self.parts@[p].geometry.indices@,
                    crate::linalg::mat4_mul_val(self.model_view, self.parts@[p].model_view),
                    final(out)@[old(out)@.len() + p],
                ),
    {
        let n: usize = self.parts.len();
        let mut p: usize = 0;
        while p < n
            invariant
                p <= n,
                n == self.parts@.len(),
                self.wf(),
                ctx.wf(),
                out@.len() == old(out)@.len() + p,
                forall|j: int| 0 <= j < old(out)@.len() ==> out@[j] == old(out)@[j],
                forall|p2: int|
                    0 <= p2 < p ==> pbr_tex_draw_eq(
                        (#[trigger] self.parts@[p2]).material,
                        ctx.view,
                        ctx.projection,
                        self.parts@[p2].geometry.vertices@,
                        self.parts@[p2].geometry.indices@,
                        crate::linalg::mat4_mul_val(self.model_view, self.parts@[p2].model_view),
                        out@[old(out)@.len() + p2],
                    ),
            decreases n - p,
        {
            let model = self.model_view.mul(&self.parts[p].model_view);
            let c = self.parts[p].material.draw(ctx, &self.parts[p].geometry, model);
            out.push(c);
            p = p + 1;
        }
    }
}

} // verus!
