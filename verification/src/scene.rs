//! The scene: global uniforms, the flat list of entities, the pipelines, and
//! the draw calls of one frame.

use crate::entity::BasicEntity;
use crate::pipeline::{DrawError, Drawable, RenderCommand};
use crate::uniforms::camera::CameraUniform;
use crate::uniforms::directional_light::DirectionalLightUniforms;
use vstd::prelude::*;

verus! {

/// Everything that a frame is drawn from.
pub struct DrawContext<'a, P> {
    pub camera_uniforms: CameraUniform,
    pub directional_lights: Vec<DirectionalLightUniforms>,
    pub world: Vec<BasicEntity<'a>>,
    pub pipelines: Vec<P>,
}

/// The commands with which one pipeline draws one entity.
#[derive(Debug, PartialEq, Eq)]
pub struct DrawCall {
    /// The place of the pipeline in the context's list.
    pub pipeline: usize,
    /// The place of the entity in the world.
    pub entity: usize,
    pub commands: Vec<RenderCommand>,
}

/// A draw call as a mathematical value.
pub struct DrawCallView {
    pub pipeline: usize,
    pub entity: usize,
    pub commands: Seq<RenderCommand>,
}

impl View for DrawCall {
    type V = DrawCallView;

    open spec fn view(&self) -> DrawCallView {
        DrawCallView { pipeline: self.pipeline, entity: self.entity, commands: self.commands@ }
    }
}

/// A list of draw calls as a mathematical value.
pub open spec fn calls_view(calls: Seq<DrawCall>) -> Seq<DrawCallView> {
    Seq::new(calls.len(), |i: int| calls[i]@)
}

/// A recorded frame as a mathematical value.
pub open spec fn frame_view(r: Result<Vec<DrawCall>, DrawError>) -> Result<
    Seq<DrawCallView>,
    DrawError,
> {
    match r {
        Ok(calls) => Ok(calls_view(calls@)),
        Err(e) => Err(e),
    }
}

impl<'a, P: Drawable> DrawContext<'a, P> {
    /// The scene of the given uniforms, entities and pipelines.
    pub fn new(
        camera_uniforms: CameraUniform,
        directional_lights: Vec<DirectionalLightUniforms>,
        world: Vec<BasicEntity<'a>>,
        pipelines: Vec<P>,
    ) -> (context: Self)
        ensures
            context.camera_uniforms == camera_uniforms,
            context.directional_lights == directional_lights,
            context.world == world,
            context.pipelines == pipelines,
    {
        DrawContext { camera_uniforms, directional_lights, world, pipelines }
    }

    /// The draw calls of pipeline `pipeline` for the first `count` entities
    /// of the world, in their order, or the error of the first entity that
    /// the pipeline cannot draw.
    pub open spec fn pipeline_calls(&self, pipeline: int, count: nat) -> Result<
        Seq<DrawCallView>,
        DrawError,
    >
        decreases count,
    {
        if count == 0 {
            Ok(Seq::empty())
        } else {
            match self.pipeline_calls(pipeline, (count - 1) as nat) {
                Err(e) => Err(e),
                Ok(calls) => match self.pipelines@[pipeline].spec_draw(&self.world@[count - 1]) {
                    Err(e) => Err(e),
                    Ok(commands) => Ok(
                        calls.push(
                            DrawCallView {
                                pipeline: pipeline as usize,
                                entity: (count - 1) as usize,
                                commands,
                            },
                        ),
                    ),
                },
            }
        }
    }

    /// The draw calls of the first `count` pipelines, each for every entity
    /// of the world, pipeline after pipeline, or the error of the first draw
    /// that fails.
    pub open spec fn frame_calls(&self, count: nat) -> Result<Seq<DrawCallView>, DrawError>
        decreases count,
    {
        if count == 0 {
            Ok(Seq::empty())
        } else {
            match self.frame_calls((count - 1) as nat) {
                Err(e) => Err(e),
                Ok(calls) => match self.pipeline_calls(count - 1, self.world@.len()) {
                    Err(e) => Err(e),
                    Ok(row) => Ok(calls + row),
                },
            }
        }
    }

    /// The draw calls of one frame: every pipeline draws every entity.
    pub open spec fn spec_draw_frame(&self) -> Result<Seq<DrawCallView>, DrawError> {
        self.frame_calls(self.pipelines@.len())
    }

    /// Records the draw calls of one frame, to be issued within one render
    /// pass: for each pipeline in the list, for each entity in the world,
    /// the commands with which that pipeline draws that entity. The first
    /// draw that fails ends the frame with its error.
    pub fn draw_frame(&self) -> (r: Result<Vec<DrawCall>, DrawError>)
        ensures
            frame_view(r) == self.spec_draw_frame(),
    {
        let mut calls: Vec<DrawCall> = Vec::new();
        let mut p: usize = 0;
        assert(calls_view(calls@) == Seq::<DrawCallView>::empty());
        while p < self.pipelines.len()
            invariant
                p <= self.pipelines.len(),
                self.frame_calls(p as nat) == Ok::<Seq<DrawCallView>, DrawError>(
                    calls_view(calls@),
                ),
            decreases self.pipelines.len() - p,
        {
            let ghost before = calls_view(calls@);
            let mut e: usize = 0;
            assert(before.skip(before.len() as int) == Seq::<DrawCallView>::empty());
            while e < self.world.len()
                invariant
                    p < self.pipelines.len(),
                    e <= self.world.len(),
                    self.frame_calls(p as nat) == Ok::<Seq<DrawCallView>, DrawError>(before),
                    calls_view(calls@).len() == before.len() + e,
                    self.pipeline_calls(p as int, e as nat) == Ok::<Seq<DrawCallView>, DrawError>(
                        calls_view(calls@).skip(before.len() as int),
                    ),
                    calls_view(calls@).take(before.len() as int) == before,
                decreases self.world.len() - e,
            {
                let ghost row = calls_view(calls@).skip(before.len() as int);
                match self.pipelines[p].draw(&self.world[e]) {
                    Err(error) => {
                        proof {
                            self.lemma_pipeline_error_stays(
                                p as int,
                                (e + 1) as nat,
                                self.world@.len(),
                            );
                            self.lemma_frame_error_stays((p + 1) as nat, self.pipelines@.len());
                        }
                        return Err(error);
                    },
                    Ok(commands) => {
                        calls.push(DrawCall { pipeline: p, entity: e, commands });
                        assert(calls_view(calls@).skip(before.len() as int) == row.push(
                            calls@.last()@,
                        ));
                    },
                }
                e = e + 1;
            }
            assert(calls_view(calls@) == before + calls_view(calls@).skip(before.len() as int));
            p = p + 1;
        }
        Ok(calls)
    }

    /// What pipeline `pipeline` draws `entity` with.
    pub open spec fn drawn(&self, pipeline: int, entity: int) -> Result<
        Seq<RenderCommand>,
        DrawError,
    > {
        self.pipelines@[pipeline].spec_draw(&self.world@[entity])
    }

    /// The call with which pipeline `pipeline` draws `entity`, where it can.
    pub open spec fn call(&self, pipeline: int, entity: int) -> DrawCallView {
        DrawCallView {
            pipeline: pipeline as usize,
            entity: entity as usize,
            commands: self.drawn(pipeline, entity).unwrap(),
        }
    }

    /// Every pipeline draws every entity: a frame is recorded exactly when
    /// each pipeline can draw each entity of the world, and it then holds
    /// one call for each pair of a pipeline and an entity, the calls of one
    /// pipeline side by side in the order of the world, pipeline after
    /// pipeline.
    pub proof fn lemma_frame_draws_every_pair(&self)
        ensures
            self.spec_draw_frame() is Ok <==> forall|p: int, e: int|
                0 <= p < self.pipelines@.len() && 0 <= e < self.world@.len() ==> (
                #[trigger] self.drawn(p, e)) is Ok,
            self.spec_draw_frame() matches Ok(calls) ==> ({
                &&& calls.len() == self.pipelines@.len() * self.world@.len()
                &&& forall|p: int, e: int|
                    0 <= p < self.pipelines@.len() && 0 <= e < self.world@.len() ==> calls[p
                        * self.world@.len() + e] == #[trigger] self.call(p, e)
            }),
    {
        self.lemma_frame_calls(self.pipelines@.len());
    }

    /// The calls of one pipeline for a prefix of the world: there are some
    /// exactly when the pipeline can draw each entity of the prefix, and
    /// then one for each entity, in the order of the world.
    proof fn lemma_pipeline_calls(&self, pipeline: int, count: nat)
        requires
            count <= self.world@.len(),
        ensures
            self.pipeline_calls(pipeline, count) is Ok <==> forall|e: int|
                0 <= e < count ==> (#[trigger] self.drawn(pipeline, e)) is Ok,
            self.pipeline_calls(pipeline, count) matches Ok(calls) ==> ({
                &&& calls.len() == count
                &&& forall|e: int| 0 <= e < count ==> calls[e] == #[trigger] self.call(pipeline, e)
            }),
        decreases count,
    {
        if count > 0 {
            self.lemma_pipeline_calls(pipeline, (count - 1) as nat);
            if self.pipeline_calls(pipeline, (count - 1) as nat) is Ok {
                assert(self.drawn(pipeline, count - 1) is Ok ==> self.pipeline_calls(
                    pipeline,
                    count,
                ) is Ok);
            }
        }
    }

    /// The calls of a prefix of the pipelines: there are some exactly when
    /// each pipeline of the prefix can draw each entity, and then one for
    /// each pair, pipeline after pipeline.
    proof fn lemma_frame_calls(&self, count: nat)
        requires
            count <= self.pipelines@.len(),
        ensures
            self.frame_calls(count) is Ok <==> forall|p: int, e: int|
                0 <= p < count && 0 <= e < self.world@.len() ==> (#[trigger] self.drawn(p, e)) is Ok,
            self.frame_calls(count) matches Ok(calls) ==> ({
                &&& calls.len() == count * self.world@.len()
                &&& forall|p: int, e: int|
                    0 <= p < count && 0 <= e < self.world@.len() ==> calls[p * self.world@.len()
                        + e] == #[trigger] self.call(p, e)
            }),
        decreases count,
    {
        let width = self.world@.len();
        if count > 0 {
            let before = (count - 1) as nat;
            self.lemma_frame_calls(before);
            self.lemma_pipeline_calls(before as int, width);
            assert(before * width + width == count * width) by (nonlinear_arith)
                requires
                    before + 1 == count,
            ;
            if let Ok(calls) = self.frame_calls(count) {
                assert forall|p: int, e: int| 0 <= p < count && 0 <= e < width implies calls[p
                    * width + e] == #[trigger] self.call(p, e) by {
                    if p < before {
                        assert(p * width + e < before * width) by (nonlinear_arith)
                            requires
                                0 <= p < before,
                                0 <= e < width,
                        ;
                    } else {
                        assert(p * width + e - before * width == e) by (nonlinear_arith)
                            requires
                                p == before,
                        ;
                    }
                }
            }
        }
    }

    /// Once a pipeline fails on an entity, its calls for any longer prefix
    /// of the world fail with the same error.
    proof fn lemma_pipeline_error_stays(&self, pipeline: int, count: nat, longer: nat)
        requires
            self.pipeline_calls(pipeline, count) is Err,
            count <= longer,
        ensures
            self.pipeline_calls(pipeline, longer) == self.pipeline_calls(pipeline, count),
        decreases longer,
    {
        if count < longer {
            self.lemma_pipeline_error_stays(pipeline, count, (longer - 1) as nat);
        }
    }

    /// Once the frame fails within some pipeline, it fails with the same
    /// error however many pipelines follow.
    proof fn lemma_frame_error_stays(&self, count: nat, longer: nat)
        requires
            self.frame_calls(count) is Err,
            count <= longer,
        ensures
            self.frame_calls(longer) == self.frame_calls(count),
        decreases longer,
    {
        if count < longer {
            self.lemma_frame_error_stays(count, (longer - 1) as nat);
        }
    }
}

} // verus!
