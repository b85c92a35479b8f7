//! The world: an insertion-ordered, append-only collection of entities,
//! fanned out once per frame for update and once for draw.
//!
//! Draw order is significant for transparency and overwrite correctness:
//! the command trace of a frame reads the entities in exactly the order
//! they were added, with no depth sorting, whatever the update pass did.

use vstd::prelude::*;
use crate::entity_fluid::{fluid_update_eq, FluidEntity, SAMPLE_BOUND};
use crate::entity_obj::EntityObj;
use crate::linalg::{mat4_mul_val, Mat4};
use crate::material::{pbr_tex_draw_eq, DrawCall};
use crate::render::RenderContext;

verus! {

/// A drawable unit of the scene. The scene holds exactly these two kinds,
/// so a closed enum stands where an unbounded trait object would.
pub enum Entity {
    Fluid(FluidEntity),
    Obj(EntityObj),
}

impl Entity {
    pub open spec fn wf(&self) -> bool {
        match self {
            Entity::Fluid(f) => f.wf(),
            Entity::Obj(o) => o.wf(),
        }
    }

    /// How many draw commands this entity emits per frame.
    pub open spec fn call_count(&self) -> int {
        match self {
            Entity::Fluid(_) => 1,
            Entity::Obj(o) => o.parts@.len() as int,
        }
    }

    /// The frame's field samples fit this entity's update.
    pub open spec fn accepts(&self, samples: Seq<i64>) -> bool {
        match self {
            Entity::Fluid(f) => samples.len() == f.geometry.vertices@.len() && f.time
                < u64::MAX,
            Entity::Obj(_) => true,
        }
    }

    /// What one update makes of the entity: a surface entity rederives its
    /// mesh from the samples; a loaded mesh holds still.
    pub open spec fn update_eq(pre: Entity, post: Entity, samples: Seq<i64>) -> bool {
        match pre {
            Entity::Fluid(f0) => match post {
                Entity::Fluid(f1) => fluid_update_eq(f0, f1, samples),
                Entity::Obj(_) => false,
            },
            Entity::Obj(_) => post == pre,
        }
    }

    /// The draw commands this entity owes the frame, checked against the
    /// command-list segment it wrote.
    pub open spec fn draw_ok(&self, view: Mat4, proj: Mat4, calls: Seq<DrawCall>) -> bool {
        match self {
            Entity::Fluid(f) => {
                &&& calls.len() == 1
                &&& pbr_tex_draw_eq(
                    f.material,
                    view,
                    proj,
                    f.geometry.vertices@,
                    f.geometry.indices@,
                    f.model_view,
                    calls[0],
                )
            },
            Entity::Obj(o) => {
                &&& calls.len() == o.parts@.len()
                &&& forall|p: int|
                    0 <= p < o.parts@.len() ==> pbr_tex_draw_eq(
                        (#[trigger] o.parts@[p]).material,
                        view,
                        proj,
                        o.parts@[p].geometry.vertices@,
                        o.parts@[p].geometry.indices@,
                        mat4_mul_val(o.model_view, o.parts@[p].model_view),
                        calls[p],
                    )
            },
        }
    }

    /// Advances the entity by one frame. The samples are this frame's
    /// freshly stepped field, read only by surface entities.
    pub fn update(&mut self, samples: &Vec<i64>)
        requires
            old(self).wf(),
            old(self).accepts(samples@),
            forall|k: int|
                0 <= k < samples@.len() ==> -SAMPLE_BOUND <= #[trigger] samples@[k]
                    <= SAMPLE_BOUND,
        ensures
            final(self).wf(),
            Entity::update_eq(*old(self), *final(self), samples@),
    {
        match self {
            Entity::Fluid(f) => f.update(samples),
            Entity::Obj(o) => o.update(),
        }
    }

    /// Draws the entity, appending its commands to the frame's list.
    pub fn draw(&self, ctx: &RenderContext, out: &mut Vec<DrawCall>)
        requires
            self.wf(),
            ctx.wf(),
        ensures
            final(out)@.len() == old(out)@.len() + self.call_count(),
            forall|j: int| 0 <= j < old(out)@.len() ==> final(out)@[j] == old(out)@[j],
            self.draw_ok(
                ctx.view,
                ctx.projection,
                final(out)@.subrange(old(out)@.len() as int, final(out)@.len() as int),
            ),
    {
        match self {
            Entity::Fluid(f) => f.draw(ctx, out),
            Entity::Obj(o) => o.draw(ctx, out),
        }
    }
}

/// Commands contributed by the first i entities of the list.
pub open spec fn calls_before(es: Seq<Entity>, i: int) -> int
    decreases i,
{
    if i <= 0 {
        0
    } else {
        calls_before(es, i - 1) + es[i - 1].call_count()
    }
}

/// The running command count only grows with the entity index, and never
/// drops below zero.
pub proof fn lemma_calls_before_mono(es: Seq<Entity>, i1: int, i2: int)
    requires
        0 <= i1 <= i2,
    ensures
        0 <= calls_before(es, i1) <= calls_before(es, i2),
    decreases i2,
{
    if i2 > 0 {
        if i1 == i2 {
            lemma_calls_before_mono(es, i2 - 1, i2 - 1);
        } else {
            lemma_calls_before_mono(es, i1, i2 - 1);
        }
    }
}

/// The scene container: entities in insertion order, append-only for the
/// scene's lifetime.
pub struct BasicWorld {
    pub entities: Vec<Entity>,
}

impl BasicWorld {
    pub open spec fn wf(&self) -> bool {
        forall|i: int| 0 <= i < self.entities@.len() ==> (#[trigger] self.entities@[i]).wf()
    }

    /// An empty world.
    pub fn new() -> (w: BasicWorld)
        ensures
            w.entities@.len() == 0,
            w.wf(),
    {
        BasicWorld { entities: Vec::new() }
    }

    /// Appends an entity; draw order equals insertion order, and no
    /// removal operation exists.
    pub fn add_entity(&mut self, entity: Entity)
        requires
            old(self).wf(),
            entity.wf(),
        ensures
            final(self).wf(),
            final(self).entities@ == old(self).entities@.push(entity),
    {
        self.entities.push(entity);
    }

    /// One update pass: visits every entity exactly once, in insertion
    /// order. No entity may assume its siblings have or have not been
    /// updated yet, and none is added or removed during the pass.
    pub fn update(&mut self, samples: &Vec<i64>)
        requires
            old(self).wf(),
            forall|i: int|
                0 <= i < old(self).entities@.len() ==> (#[trigger] old(
                    self,
                ).entities@[i]).accepts(samples@),
            forall|k: int|
                0 <= k < samples@.len() ==> -SAMPLE_BOUND <= #[trigger] samples@[k]
                    <= SAMPLE_BOUND,
        ensures
            final(self).wf(),
            final(self).entities@.len() == old(self).entities@.len(),
            forall|i: int|
                0 <= i < old(self).entities@.len() ==> Entity::update_eq(
                    old(self).entities@[i],
                    #[trigger] final(self).entities@[i],
                    samples@,
                ),
    {
        let n: usize = self.entities.len();
        let mut i: usize = 0;
        while i < n
            invariant
                i <= n,
                n == self.entities@.len(),
                n == old(self).entities@.len(),
                old(self).wf(),
                forall|k: int|
                    0 <= k < samples@.len() ==> -SAMPLE_BOUND <= #[trigger] samples@[k]
                        <= SAMPLE_BOUND,
                forall|j: int|
                    0 <= j < old(self).entities@.len() ==> (#[trigger] old(
                        self,
                    ).entities@[j]).accepts(samples@),
                forall|j: int|
                    i <= j < n ==> #[trigger] self.entities@[j] == old(self).entities@[j],
                forall|j: int| 0 <= j < i ==> (#[trigger] self.entities@[j]).wf(),
                forall|j: int|
                    0 <= j < i ==> Entity::update_eq(
                        old(self).entities@[j],
                        #[trigger] self.entities@[j],
                        samples@,
                    ),
            decreases n - i,
        {
            proof {
                assert(self.entities@[i as int] == old(self).entities@[i as int]);
                assert(old(self).entities@[i as int].wf());
            }
            let e = &mut self.entities[i];
            e.update(samples);
            i = i + 1;
        }
    }

    /// One draw pass: visits every entity exactly once, in insertion
    /// order, appending each entity's commands to the frame's list. The
    /// command trace is segmented by entity in exactly insertion order.
    #[verifier::rlimit(60)]
    pub fn draw(&self, ctx: &RenderContext, out: &mut Vec<DrawCall>)
        requires
            self.wf(),
            ctx.wf(),
        ensures
            final(out)@.len() == old(out)@.len() + calls_before(
                self.entities@,
                self.entities@.len() as int,
            ),
            forall|j: int| 0 <= j < old(out)@.len() ==> final(out)@[j] == old(out)@[j],
            forall|i: int|
                0 <= i < self.entities@.len() ==> (#[trigger] self.entities@[i]).draw_ok(
                    ctx.view,
                    ctx.projection,
                    final(out)@.subrange(
                        old(out)@.len() + calls_before(self.entities@, i),
                        old(out)@.len() + calls_before(self.entities@, i + 1),
                    ),
                ),
    {
        let n: usize = self.entities.len();
        let mut i: usize = 0;
        while i < n
            invariant
                i <= n,
                n == self.entities@.len(),
                self.wf(),
                ctx.wf(),
                out@.len() == old(out)@.len() + calls_before(self.entities@, i as int),
                forall|j: int| 0 <= j < old(out)@.len() ==> out@[j] == old(out)@[j],
                forall|i2: int|
                    0 <= i2 < i ==> (#[trigger] self.entities@[i2]).draw_ok(
                        ctx.view,
                        ctx.projection,
                        out@.subrange(
                            old(out)@.len() + calls_before(self.entities@, i2),
                            old(out)@.len() + calls_before(self.entities@, i2 + 1),
                        ),
                    ),
            decreases n - i,
        {
            proof {
                lemma_calls_before_mono(self.entities@, 0, i as int);
            }
            let ghost o_pre = out@;
            self.entities[i].draw(ctx, out);
            proof {
                assert forall|i2: int|
                    0 <= i2 < i implies (#[trigger] self.entities@[i2]).draw_ok(
                    ctx.view,
                    ctx.projection,
                    out@.subrange(
                        old(out)@.len() + calls_before(self.entities@, i2),
                        old(out)@.len() + calls_before(self.entities@, i2 + 1),
                    ),
                ) by {
                    lemma_calls_before_mono(self.entities@, 0, i2);
                    lemma_calls_before_mono(self.entities@, i2, i2 + 1);
                    lemma_calls_before_mono(self.entities@, i2 + 1, i as int);
                    let a = old(out)@.len() + calls_before(self.entities@, i2);
                    let b = old(out)@.len() + calls_before(self.entities@, i2 + 1);
                    assert(out@.subrange(a, b) =~= o_pre.subrange(a, b));
                }
            }
            i = i + 1;
        }
    }
}

} // verus!
