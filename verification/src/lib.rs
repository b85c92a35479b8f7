//! Scene composition and procedural surface meshes.
//!
//! The crate builds the data a small 3D scene hands to a renderer each frame:
//! a world of entities fanned out in insertion order, a material layer that
//! turns geometry and transforms into draw commands, a triangle-strip grid
//! whose elevations and normals are rederived every frame from a scalar
//! height field, and mesh parts assembled from parsed polygon groups.
//!
//! Every scalar the library stores is a fixed-point integer: a value v is
//! kept as the integer v * FX. The caller converts to its preferred float
//! format at the rendering edge; inside the crate all arithmetic is exact
//! and verified.

use vstd::prelude::*;

pub mod entity_fluid;
pub mod entity_obj;
pub mod geometry;
pub mod linalg;
pub mod material;
pub mod render;
pub mod surface_laws;
pub mod world;

verus! {

/// Number of fixed-point units in 1.0. Every scalar field of the library is
/// a count of these units.
pub const FX: i64 = 10_000;

} // verus!
