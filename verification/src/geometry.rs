//! Vertex shapes and the geometry container.
//!
//! A geometry owns an ordered vertex buffer and an index sequence over it;
//! the indices encode either a triangle list or a triangle strip, chosen by
//! the material that draws it. Well-formedness means every index points at
//! a vertex.

use vstd::prelude::*;
use crate::linalg::{Vec2, Vec3};

verus! {

/// A vertex with position and normal.
#[derive(Clone, Copy, PartialEq, Eq, Structural, Debug)]
pub struct Vertex {
    pub position: Vec3,
    pub normal: Vec3,
}

impl Vertex {
    pub fn new(position: Vec3, normal: Vec3) -> (v: Vertex)
        ensures
            v == (Vertex { position, normal }),
    {
        Vertex { position, normal }
    }
}

/// A vertex with position, texture coordinates and normal.
#[derive(Clone, Copy, PartialEq, Eq, Structural, Debug)]
pub struct VertexTexture {
    pub position: Vec3,
    pub texture: Vec2,
    pub normal: Vec3,
}

impl VertexTexture {
    pub fn new(position: Vec3, texture: Vec2, normal: Vec3) -> (v: VertexTexture)
        ensures
            v == (VertexTexture { position, texture, normal }),
    {
        VertexTexture { position, texture, normal }
    }
}

/// A vertex buffer with an index sequence over it.
pub struct Geometry<V> {
    pub vertices: Vec<V>,
    pub indices: Vec<u32>,
}

impl<V> Geometry<V> {
    /// Every index addresses a vertex of the buffer.
    pub open spec fn wf(&self) -> bool {
        forall|i: int|
            0 <= i < self.indices@.len() ==> (#[trigger] self.indices@[i]) < self.vertices@.len()
    }
}

/// Copies a vector of plain values, as a buffer upload does.
pub fn copy_vec<T: Copy>(v: &Vec<T>) -> (out: Vec<T>)
    ensures
        out@ == v@,
{
    let mut out: Vec<T> = Vec::new();
    let mut k: usize = 0;
    while k < v.len()
        invariant
            k <= v.len(),
            out@ == v@.take(k as int),
        decreases v.len() - k,
    {
        out.push(v[k]);
        proof {
            assert(out@ =~= v@.take(k + 1));
        }
        k = k + 1;
    }
    proof {
        assert(out@ =~= v@);
    }
    out
}

/// Appends the six indices of one quad split into two triangles; `flip`
/// selects the winding used for faces seen from the other side.
fn push_quad(out: &mut Vec<u32>, base: u32, flip: bool)
    requires
        base + 3 <= u32::MAX,
        old(out)@.len() + 6 <= usize::MAX,
    ensures
        final(out)@.len() == old(out)@.len() + 6,
        forall|j: int| 0 <= j < old(out)@.len() ==> final(out)@[j] == old(out)@[j],
        forall|j: int|
            old(out)@.len() <= j < final(out)@.len()
                ==> base <= #[trigger] final(out)@[j] < base + 4,
        ({
            let l = old(out)@.len() as int;
            if !flip {
                final(out)@[l] == base && final(out)@[l + 1] == base + 1
                    && final(out)@[l + 2] == base + 2 && final(out)@[l + 3] == base + 2
                    && final(out)@[l + 4] == base + 3 && final(out)@[l + 5] == base
            } else {
                final(out)@[l] == base && final(out)@[l + 1] == base + 2
                    && final(out)@[l + 2] == base + 1 && final(out)@[l + 3] == base + 2
                    && final(out)@[l + 4] == base && final(out)@[l + 5] == base + 3
            }
        }),
{
    if !flip {
        out.push(base);
        out.push(base + 1);
        out.push(base + 2);
        out.push(base + 2);
        out.push(base + 3);
        out.push(base);
    } else {
        out.push(base);
        out.push(base + 2);
        out.push(base + 1);
        out.push(base + 2);
        out.push(base);
        out.push(base + 3);
    }
}

/// Appends the four corner vertices of one face, sharing one normal.
fn push_face(out: &mut Vec<Vertex>, p0: Vec3, p1: Vec3, p2: Vec3, p3: Vec3, normal: Vec3)
    requires
        old(out)@.len() + 4 <= usize::MAX,
    ensures
        final(out)@.len() == old(out)@.len() + 4,
        forall|j: int| 0 <= j < old(out)@.len() ==> final(out)@[j] == old(out)@[j],
        face_at(final(out)@, old(out)@.len() as int, p0, p1, p2, p3, normal),
{
    out.push(Vertex::new(p0, normal));
    out.push(Vertex::new(p1, normal));
    out.push(Vertex::new(p2, normal));
    out.push(Vertex::new(p3, normal));
}

/// The four vertices of one face stand at base..base+4 sharing normal n.
pub open spec fn face_at(
    vs: Seq<Vertex>,
    base: int,
    p0: Vec3,
    p1: Vec3,
    p2: Vec3,
    p3: Vec3,
    n: Vec3,
) -> bool {
    &&& vs[base] == (Vertex { position: p0, normal: n })
    &&& vs[base + 1] == (Vertex { position: p1, normal: n })
    &&& vs[base + 2] == (Vertex { position: p2, normal: n })
    &&& vs[base + 3] == (Vertex { position: p3, normal: n })
}

/// The six indices of one quad stand at position pos, fanning the vertices
/// base..base+4 in the winding `flip` selects, as `push_quad` writes them.
pub open spec fn quad_at(ids: Seq<u32>, pos: int, base: int, flip: bool) -> bool {
    if !flip {
        &&& ids[pos] == base
        &&& ids[pos + 1] == base + 1
        &&& ids[pos + 2] == base + 2
        &&& ids[pos + 3] == base + 2
        &&& ids[pos + 4] == base + 3
        &&& ids[pos + 5] == base
    } else {
        &&& ids[pos] == base
        &&& ids[pos + 1] == base + 2
        &&& ids[pos + 2] == base + 1
        &&& ids[pos + 3] == base + 2
        &&& ids[pos + 4] == base
        &&& ids[pos + 5] == base + 3
    }
}

/// The full content of the sample cube: six faces of four corner vertices
/// each, every position component of magnitude one, and two fan triangles
/// per face.
pub open spec fn cube_content_eq(vs: Seq<Vertex>, ids: Seq<u32>) -> bool {
    let f = crate::FX;
    let nf = (-crate::FX) as i64;
    &&& face_at(vs, 0, Vec3 { x: nf, y: nf, z: f }, Vec3 { x: f, y: nf, z: f },
        Vec3 { x: f, y: f, z: f }, Vec3 { x: nf, y: f, z: f }, Vec3 { x: 0, y: 0, z: f })
    &&& face_at(vs, 4, Vec3 { x: f, y: f, z: nf }, Vec3 { x: nf, y: f, z: nf },
        Vec3 { x: nf, y: nf, z: nf }, Vec3 { x: f, y: nf, z: nf }, Vec3 { x: 0, y: 0, z: nf })
    &&& face_at(vs, 8, Vec3 { x: f, y: nf, z: nf }, Vec3 { x: f, y: f, z: nf },
        Vec3 { x: f, y: f, z: f }, Vec3 { x: f, y: nf, z: f }, Vec3 { x: f, y: 0, z: 0 })
    &&& face_at(vs, 12, Vec3 { x: nf, y: f, z: f }, Vec3 { x: nf, y: nf, z: f },
        Vec3 { x: nf, y: nf, z: nf }, Vec3 { x: nf, y: f, z: nf }, Vec3 { x: nf, y: 0, z: 0 })
    &&& face_at(vs, 16, Vec3 { x: nf, y: f, z: nf }, Vec3 { x: f, y: f, z: nf },
        Vec3 { x: f, y: f, z: f }, Vec3 { x: nf, y: f, z: f }, Vec3 { x: 0, y: f, z: 0 })
    &&& face_at(vs, 20, Vec3 { x: f, y: nf, z: f }, Vec3 { x: nf, y: nf, z: f },
        Vec3 { x: nf, y: nf, z: nf }, Vec3 { x: f, y: nf, z: nf }, Vec3 { x: 0, y: nf, z: 0 })
    &&& quad_at(ids, 0, 0, false)
    &&& quad_at(ids, 6, 4, true)
    &&& quad_at(ids, 12, 8, false)
    &&& quad_at(ids, 18, 12, true)
    &&& quad_at(ids, 24, 16, true)
    &&& quad_at(ids, 30, 20, false)
}

/// A unit cube with per-face normals: 24 vertices, 12 triangles, their
/// content pinned by `cube_content_eq`. Sample data for exercising a
/// plain-shaded material.
#[verifier::rlimit(60)]
pub fn test_data() -> (g: Geometry<Vertex>)
    ensures
        g.vertices@.len() == 24,
        g.indices@.len() == 36,
        cube_content_eq(g.vertices@, g.indices@),
        g.wf(),
{
    let f: i64 = crate::FX;
    let nf: i64 = -f;
    let mut vertices: Vec<Vertex> = Vec::new();
    // top (+z)
    push_face(&mut vertices, Vec3::new(nf, nf, f), Vec3::new(f, nf, f), Vec3::new(f, f, f),
        Vec3::new(nf, f, f), Vec3::new(0, 0, f));
    // bottom (-z)
    push_face(&mut vertices, Vec3::new(f, f, nf), Vec3::new(nf, f, nf), Vec3::new(nf, nf, nf),
        Vec3::new(f, nf, nf), Vec3::new(0, 0, nf));
    // right (+x)
    push_face(&mut vertices, Vec3::new(f, nf, nf), Vec3::new(f, f, nf), Vec3::new(f, f, f),
        Vec3::new(f, nf, f), Vec3::new(f, 0, 0));
    // left (-x)
    push_face(&mut vertices, Vec3::new(nf, f, f), Vec3::new(nf, nf, f), Vec3::new(nf, nf, nf),
        Vec3::new(nf, f, nf), Vec3::new(nf, 0, 0));
    // front (+y)
    push_face(&mut vertices, Vec3::new(nf, f, nf), Vec3::new(f, f, nf), Vec3::new(f, f, f),
        Vec3::new(nf, f, f), Vec3::new(0, f, 0));
    // back (-y)
    push_face(&mut vertices, Vec3::new(f, nf, f), Vec3::new(nf, nf, f), Vec3::new(nf, nf, nf),
        Vec3::new(f, nf, nf), Vec3::new(0, nf, 0));
    let mut indices: Vec<u32> = Vec::new();
    push_quad(&mut indices, 0, false);
    push_quad(&mut indices, 4, true);
    push_quad(&mut indices, 8, false);
    push_quad(&mut indices, 12, true);
    push_quad(&mut indices, 16, true);
    push_quad(&mut indices, 20, false);
    Geometry { vertices, indices }
}

} // verus!
