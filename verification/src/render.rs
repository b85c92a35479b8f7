//! The per-frame render context.
//!
//! One context is owned by the frame loop: it carries the active view and
//! projection, written once per frame before the draw pass and read by
//! every material during it.

use vstd::prelude::*;
use crate::linalg::{Mat4, MODEL_MAT_BOUND};
use crate::material::{DrawCall, PointLight};
use crate::world::{calls_before, BasicWorld};

verus! {

/// Process-wide rendering state handed to every draw call.
pub struct RenderContext {
    pub projection: Mat4,
    pub view: Mat4,
    pub point_lights: Vec<PointLight>,
}

impl RenderContext {
    /// The view and projection are bounded well enough for every matrix
    /// chain a draw performs.
    pub open spec fn wf(&self) -> bool {
        &&& self.projection.bounded(MODEL_MAT_BOUND as int)
        &&& self.view.bounded(MODEL_MAT_BOUND as int)
    }

    /// A fresh context with the given projection and an identity view.
    pub fn new(projection: Mat4) -> (ctx: RenderContext)
        requires
            projection.bounded(MODEL_MAT_BOUND as int),
        ensures
            ctx.wf(),
            ctx.projection == projection,
            ctx.view == Mat4::scale_spec(crate::FX as int),
            ctx.point_lights@.len() == 0,
    {
        RenderContext { projection, view: Mat4::identity(), point_lights: Vec::new() }
    }

    /// Replaces the projection, as after a window resize.
    pub fn resize(&mut self, projection: Mat4)
        requires
            old(self).wf(),
            projection.bounded(MODEL_MAT_BOUND as int),
        ensures
            final(self).wf(),
            final(self).projection == projection,
            final(self).view == old(self).view,
            final(self).point_lights == old(self).point_lights,
    {
        self.projection = projection;
    }

    /// Runs one draw pass over the world and returns the frame's command
    /// list: one segment per entity, in insertion order, ready for the
    /// caller to clear its targets and submit.
    pub fn draw_world(&self, world: &BasicWorld) -> (calls: Vec<DrawCall>)
        requires
            self.wf(),
            world.wf(),
        ensures
            calls@.len() == calls_before(world.entities@, world.entities@.len() as int),
            forall|i: int|
                0 <= i < world.entities@.len() ==> (#[trigger] world.entities@[i]).draw_ok(
                    self.view,
                    self.projection,
                    calls@.subrange(
                        calls_before(world.entities@, i),
                        calls_before(world.entities@, i + 1),
                    ),
                ),
    {
        let mut out: Vec<DrawCall> = Vec::new();
        world.draw(self, &mut out);
        out
    }

    /// Replaces the view for the coming draw pass.
    pub fn set_view(&mut self, view: Mat4)
        requires
            old(self).wf(),
            view.bounded(MODEL_MAT_BOUND as int),
        ensures
            final(self).wf(),
            final(self).view == view,
            final(self).projection == old(self).projection,
            final(self).point_lights == old(self).point_lights,
    {
        self.view = view;
    }
}

} // verus!
