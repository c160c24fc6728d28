//! The pipeline builder: from vertex, index and instance lists and two
//! uniform records to the buffers, bindings and vertex-buffer layouts of one
//! render pipeline, and from an entity to the commands that draw it.

use crate::bytes::{
    half_bytes, halves_to_bytes, lemma_native_half_at, native_bytes, native_half_bytes,
    words_to_bytes,
};
use crate::entity::BasicEntity;
use crate::layout::{
    pack, packed_words, InputStepMode, LayoutError, LayoutView, Packed, VertexBufferLayout,
    VertexFormat,
};
use crate::uniforms::instance_input::model_matrix::{
    lemma_model_matrix_desc_describes_record, ModelMatrixInstance,
};
use crate::uniforms::instance_input::GpuInstance;
use crate::uniforms::vertex_input::gltf_mesh_vertex::{
    lemma_gltf_mesh_vertex_desc_describes_record, GltfMeshVertex,
};
use crate::uniforms::vertex_input::GpuVertex;
use crate::uniforms::AsStd140;
use vstd::prelude::*;

verus! {

/// What a buffer may be used for.
#[derive(Debug, Clone, Copy, PartialEq, Eq, Structural)]
pub struct BufferUsage {
    pub copy_dst: bool,
    pub index: bool,
    pub vertex: bool,
    pub uniform: bool,
}

/// A buffer to create on the GPU, with the bytes it starts with.
#[derive(Debug, PartialEq, Eq)]
pub struct BufferInit {
    pub contents: Vec<u8>,
    pub usage: BufferUsage,
}

/// The five buffers of a pipeline.
#[derive(Debug, Clone, Copy, PartialEq, Eq, Structural)]
pub enum PipelineBuffer {
    Vertices,
    Instances,
    Indices,
    CameraUniform,
    ModelUniform,
}

/// One uniform buffer of a resource-binding set.
#[derive(Debug, Clone, Copy, PartialEq, Eq, Structural)]
pub struct UniformBinding {
    pub binding: u32,
    /// The buffer that is bound.
    pub buffer: PipelineBuffer,
    pub vertex_stage: bool,
    pub fragment_stage: bool,
    pub has_dynamic_offset: bool,
    /// The number of bytes bound, from the start of the buffer.
    pub size: usize,
}

/// The width of the indices in an index buffer.
#[derive(Debug, Clone, Copy, PartialEq, Eq, Structural)]
pub enum IndexFormat {
    Uint16,
    Uint32,
}

/// One command recorded into a render pass.
#[derive(Debug, Clone, Copy, PartialEq, Eq, Structural)]
pub enum RenderCommand {
    SetPipeline,
    SetBindGroup { index: u32 },
    SetVertexBuffer { slot: u32, buffer: PipelineBuffer },
    SetIndexBuffer { buffer: PipelineBuffer, format: IndexFormat },
    /// Draws the indices `0..index_count` for the instances
    /// `0..instance_count`.
    DrawIndexed { index_count: u32, base_vertex: i32, instance_count: u32 },
}

/// Why a pipeline cannot be built.
#[derive(Debug, Clone, Copy, PartialEq, Eq, Structural)]
pub enum PipelineError {
    /// The descriptor of the vertex records does not describe them.
    VertexLayout(LayoutError),
    /// The descriptor of the instance records does not describe them.
    InstanceLayout(LayoutError),
    /// An index is negative or greater than 65535: the index buffer holds
    /// 16-bit indices.
    IndexOutOfRange,
}

/// Why an entity cannot be drawn.
#[derive(Debug, Clone, Copy, PartialEq, Eq, Structural)]
pub enum DrawError {
    /// The entity has more indices than a draw command can count.
    TooManyIndices,
    /// The entity has more instances than a draw command can count.
    TooManyInstances,
}

/// The resources of one render pipeline, ready to be created on a device:
/// five buffers with their contents, one resource-binding set of two uniform
/// buffers, and the layouts of the two vertex buffers. `F` is the device's
/// type of texture formats.
#[derive(Debug)]
pub struct BasicPipeline<F> {
    pub vertices_buffer: BufferInit,
    pub instances_buffer: BufferInit,
    pub indices_buffer: BufferInit,
    pub camera_uniform_buffer: BufferInit,
    pub model_uniform_buffer: BufferInit,
    /// The camera uniform at binding 0, the model uniform at binding 1.
    pub bind_group_0: Vec<UniformBinding>,
    /// The vertex records at slot 0, the instance records at slot 1.
    pub vertex_buffers: Vec<VertexBufferLayout>,
    pub color_format: F,
    pub depth_format: F,
    pub sample_count: u32,
}

/// Something that records the commands that draw an entity.
pub trait Drawable {
    /// The commands that draw `entity`, or why it cannot be drawn.
    spec fn spec_draw(&self, entity: &BasicEntity) -> Result<Seq<RenderCommand>, DrawError>;

    /// Records the commands that draw `entity`.
    fn draw(&self, entity: &BasicEntity) -> (r: Result<Vec<RenderCommand>, DrawError>)
        ensures
            commands_view(r) == self.spec_draw(entity),
    ;
}

/// A recorded result as a mathematical value.
pub open spec fn commands_view(r: Result<Vec<RenderCommand>, DrawError>) -> Result<
    Seq<RenderCommand>,
    DrawError,
> {
    match r {
        Ok(commands) => Ok(commands@),
        Err(e) => Err(e),
    }
}

/// The greatest index that 16 bits hold.
pub const LAST_INDEX: i32 = 65535;

/// Whether every index of a list fits the 16 bits of an index in the index
/// buffer: none is negative and none is greater than 65535.
pub open spec fn indices_in_range(indices: Seq<i32>) -> bool {
    forall|i: int| 0 <= i < indices.len() ==> 0 <= #[trigger] indices[i] <= LAST_INDEX
}

/// The indices of a list as the index buffer holds them, 16 bits each.
pub open spec fn index_halves(indices: Seq<i32>) -> Seq<u16> {
    Seq::new(indices.len(), |i: int| indices[i] as u16)
}

/// Why a pipeline cannot be built, if it cannot: a descriptor that fails its
/// check, as `layout_error` says, or else an index that 16 bits do not hold.
pub open spec fn build_error(
    vertex_desc: LayoutView,
    vertex_fields: Seq<VertexFormat>,
    instance_desc: LayoutView,
    instance_fields: Seq<VertexFormat>,
    indices: Seq<i32>,
) -> Option<PipelineError> {
    match layout_error(vertex_desc, vertex_fields, instance_desc, instance_fields) {
        Some(e) => Some(e),
        None => if indices_in_range(indices) {
            None
        } else {
            Some(PipelineError::IndexOutOfRange)
        },
    }
}

/// The commands that draw `index_count` indices for `instance_count`
/// instances: bind the pipeline and its binding set, the vertex buffer at
/// slot 0, the instance buffer at slot 1 and the index buffer as 16-bit
/// indices, then one indexed draw.
pub open spec fn draw_commands(index_count: u32, instance_count: u32) -> Seq<RenderCommand> {
    seq![
        RenderCommand::SetPipeline,
        RenderCommand::SetBindGroup { index: 0 },
        RenderCommand::SetVertexBuffer { slot: 0, buffer: PipelineBuffer::Vertices },
        RenderCommand::SetVertexBuffer { slot: 1, buffer: PipelineBuffer::Instances },
        RenderCommand::SetIndexBuffer { buffer: PipelineBuffer::Indices, format: IndexFormat::Uint16 },
        RenderCommand::DrawIndexed { index_count, base_vertex: 0, instance_count },
    ]
}

/// Why a pipeline for vertex records with the fields `vertex_fields`, said to
/// be described by `vertex_desc`, and instance records with the fields
/// `instance_fields`, said to be described by `instance_desc`, cannot be
/// built, if it cannot: the vertex descriptor is checked first.
pub open spec fn layout_error(
    vertex_desc: LayoutView,
    vertex_fields: Seq<VertexFormat>,
    instance_desc: LayoutView,
    instance_fields: Seq<VertexFormat>,
) -> Option<PipelineError> {
    match vertex_desc.checked(InputStepMode::Vertex, vertex_fields) {
        Err(e) => Some(PipelineError::VertexLayout(e)),
        Ok(_) => match instance_desc.checked(InputStepMode::Instance, instance_fields) {
            Err(e) => Some(PipelineError::InstanceLayout(e)),
            Ok(_) => None,
        },
    }
}

/// The commands that draw an entity of `indices` indices and `instances`
/// instances: those of `draw_commands`, unless 32 bits cannot count the
/// indices, or else the instances.
pub open spec fn counted_draw(indices: nat, instances: nat) -> Result<
    Seq<RenderCommand>,
    DrawError,
> {
    if indices > u32::MAX {
        Err(DrawError::TooManyIndices)
    } else if instances > u32::MAX {
        Err(DrawError::TooManyInstances)
    } else {
        Ok(draw_commands(indices as u32, instances as u32))
    }
}

/// Records the commands that draw an entity of `indices` indices and
/// `instances` instances. A draw command counts in 32 bits: more indices than
/// that are refused, and so are more instances where the indices fit.
pub fn record_draw(indices: usize, instances: usize) -> (r: Result<Vec<RenderCommand>, DrawError>)
    ensures
        commands_view(r) == counted_draw(indices as nat, instances as nat),
{
    if indices > u32::MAX as usize {
        return Err(DrawError::TooManyIndices);
    }
    if instances > u32::MAX as usize {
        return Err(DrawError::TooManyInstances);
    }
    let index_count: u32 = indices as u32;
    let instance_count: u32 = instances as u32;
    let mut commands: Vec<RenderCommand> = Vec::new();
    commands.push(RenderCommand::SetPipeline);
    commands.push(RenderCommand::SetBindGroup { index: 0 });
    commands.push(RenderCommand::SetVertexBuffer { slot: 0, buffer: PipelineBuffer::Vertices });
    commands.push(RenderCommand::SetVertexBuffer { slot: 1, buffer: PipelineBuffer::Instances });
    commands.push(
        RenderCommand::SetIndexBuffer { buffer: PipelineBuffer::Indices, format: IndexFormat::Uint16 },
    );
    commands.push(RenderCommand::DrawIndexed { index_count, base_vertex: 0, instance_count });
    assert(commands@ == draw_commands(index_count, instance_count));
    Ok(commands)
}

/// Checks the descriptors of the two vertex buffers of a pipeline against
/// the fields of their records: the one of the vertex records, which must
/// step per vertex, then the one of the instance records, which must step per
/// instance. The first descriptor that fails is reported, with what fails in
/// it.
pub fn check_layouts(
    vertex_desc: &VertexBufferLayout,
    vertex_fields: &[VertexFormat],
    instance_desc: &VertexBufferLayout,
    instance_fields: &[VertexFormat],
) -> (r: Result<(), PipelineError>)
    ensures
        r == (match layout_error(vertex_desc@, vertex_fields@, instance_desc@, instance_fields@) {
            Some(e) => Err::<(), PipelineError>(e),
            None => Ok(()),
        }),
{
    match vertex_desc.check(InputStepMode::Vertex, vertex_fields) {
        Err(e) => {
            return Err(PipelineError::VertexLayout(e));
        },
        Ok(_) => {},
    }
    match instance_desc.check(InputStepMode::Instance, instance_fields) {
        Err(e) => Err(PipelineError::InstanceLayout(e)),
        Ok(_) => Ok(()),
    }
}

impl BufferUsage {
    /// A buffer of vertex or instance records.
    pub open spec fn spec_vertex() -> BufferUsage {
        BufferUsage { copy_dst: false, index: false, vertex: true, uniform: false }
    }

    /// A buffer of indices.
    pub open spec fn spec_index() -> BufferUsage {
        BufferUsage { copy_dst: false, index: true, vertex: false, uniform: false }
    }

    /// A uniform buffer that can be written again after its creation.
    pub open spec fn spec_uniform() -> BufferUsage {
        BufferUsage { copy_dst: true, index: false, vertex: false, uniform: true }
    }
}

impl UniformBinding {
    /// The uniform buffer `buffer`, which starts as `init`, at `binding`:
    /// bound whole, without a dynamic offset, and visible to the vertex and
    /// the fragment stage.
    pub open spec fn spec_whole(
        binding: u32,
        buffer: PipelineBuffer,
        init: &BufferInit,
    ) -> UniformBinding {
        UniformBinding {
            binding,
            buffer,
            vertex_stage: true,
            fragment_stage: true,
            has_dynamic_offset: false,
            size: init.contents@.len() as usize,
        }
    }
}

impl BufferInit {
    /// The buffer holds the bytes of `words` and has the given usage.
    pub open spec fn holds(&self, words: Seq<u32>, usage: BufferUsage) -> bool {
        self.contents@ == native_bytes(words) && self.usage == usage
    }

    /// The buffer holds the bytes of `halves` and has the given usage.
    pub open spec fn holds_halves(&self, halves: Seq<u16>, usage: BufferUsage) -> bool {
        self.contents@ == native_half_bytes(halves) && self.usage == usage
    }

    /// A buffer that starts with the bytes of `words`.
    pub fn from_words(words: &Vec<u32>, usage: BufferUsage) -> (buffer: BufferInit)
        ensures
            buffer.holds(words@, usage),
    {
        BufferInit { contents: words_to_bytes(words), usage }
    }

    /// A buffer that starts with the bytes of `halves`.
    pub fn from_halves(halves: &Vec<u16>, usage: BufferUsage) -> (buffer: BufferInit)
        ensures
            buffer.holds_halves(halves@, usage),
    {
        BufferInit { contents: halves_to_bytes(halves), usage }
    }
}

/// The indices of a list as 16 bits each, unless one of them does not fit.
pub fn indices_to_halves(indices: &Vec<i32>) -> (r: Option<Vec<u16>>)
    ensures
        r is Some <==> indices_in_range(indices@),
        r matches Some(halves) ==> halves@ == index_halves(indices@),
{
    let mut halves: Vec<u16> = Vec::new();
    let mut i: usize = 0;
    while i < indices.len()
        invariant
            i <= indices.len(),
            indices_in_range(indices@.take(i as int)),
            halves@ == index_halves(indices@.take(i as int)),
        decreases indices.len() - i,
    {
        let index: i32 = indices[i];
        if index < 0 || index > LAST_INDEX {
            return None;
        }
        halves.push(index as u16);
        i = i + 1;
    }
    assert(indices@.take(indices.len() as int) == indices@);
    Some(halves)
}

impl<F: Copy> BasicPipeline<F> {
    /// What holds of every pipeline that is built, whatever it is built
    /// from: each buffer is of its kind, the index buffer takes two bytes
    /// for each index, the uniform buffers take whole rows of 16 bytes, the
    /// binding set binds the two of them whole, the camera uniform at
    /// binding 0 and the model uniform at binding 1, and there are two
    /// vertex buffers, the first stepped per vertex and the second per
    /// instance, each with a descriptor that describes a record of its own
    /// attributes.
    pub open spec fn well_formed(&self) -> bool {
        &&& self.vertices_buffer.usage == BufferUsage::spec_vertex()
        &&& self.instances_buffer.usage == BufferUsage::spec_vertex()
        &&& self.indices_buffer.usage == BufferUsage::spec_index()
        &&& self.camera_uniform_buffer.usage == BufferUsage::spec_uniform()
        &&& self.model_uniform_buffer.usage == BufferUsage::spec_uniform()
        &&& self.indices_buffer.contents@.len() % 2 == 0
        &&& self.camera_uniform_buffer.contents@.len() % 16 == 0
        &&& self.model_uniform_buffer.contents@.len() % 16 == 0
        &&& self.bind_group_0@ == seq![
            UniformBinding::spec_whole(
                0,
                PipelineBuffer::CameraUniform,
                &self.camera_uniform_buffer,
            ),
            UniformBinding::spec_whole(1, PipelineBuffer::ModelUniform, &self.model_uniform_buffer),
        ]
        &&& self.vertex_buffers@.len() == 2
        &&& self.vertex_buffers@[0]@.describes(
            InputStepMode::Vertex,
            self.vertex_buffers@[0]@.formats(),
        )
        &&& self.vertex_buffers@[1]@.describes(
            InputStepMode::Instance,
            self.vertex_buffers@[1]@.formats(),
        )
    }

    /// This pipeline is the one built from the given words, 16-bit indices
    /// and descriptors: each buffer holds the bytes of its words, and the
    /// index buffer two bytes for each index, with the usage of its kind,
    /// the binding set has the two uniform buffers whole at bindings 0 and
    /// 1, and the vertex buffers are the vertex records at slot 0 and the
    /// instance records at slot 1.
    pub open spec fn is_built_from(
        &self,
        vertex_words: Seq<u32>,
        indices: Seq<u16>,
        instance_words: Seq<u32>,
        camera_words: Seq<u32>,
        model_words: Seq<u32>,
        vertex_desc: LayoutView,
        instance_desc: LayoutView,
        sample_count: u32,
        dst_format: F,
        depth_format: F,
    ) -> bool {
        &&& self.vertices_buffer.holds(vertex_words, BufferUsage::spec_vertex())
        &&& self.indices_buffer.holds_halves(indices, BufferUsage::spec_index())
        &&& self.instances_buffer.holds(instance_words, BufferUsage::spec_vertex())
        &&& self.camera_uniform_buffer.holds(camera_words, BufferUsage::spec_uniform())
        &&& self.model_uniform_buffer.holds(model_words, BufferUsage::spec_uniform())
        &&& self.bind_group_0@ == seq![
            UniformBinding::spec_whole(
                0,
                PipelineBuffer::CameraUniform,
                &self.camera_uniform_buffer,
            ),
            UniformBinding::spec_whole(1, PipelineBuffer::ModelUniform, &self.model_uniform_buffer),
        ]
        &&& self.vertex_buffers@.len() == 2
        &&& self.vertex_buffers@[0]@ == vertex_desc
        &&& self.vertex_buffers@[1]@ == instance_desc
        &&& self.color_format == dst_format
        &&& self.depth_format == depth_format
        &&& self.sample_count == sample_count
    }

    /// Builds the pipeline for the given records. The descriptors of the
    /// vertex and of the instance type are checked against the fields of
    /// their records first, the vertex type's before the instance type's,
    /// and then the indices, which the index buffer holds as 16 bits each.
    /// Where a descriptor fails, or an index does not fit, nothing is built.
    pub fn new<Vertex, Instance, CameraUniform, ModelUniform>(
        vertices: &Vec<Vertex>,
        indices: &Vec<i32>,
        instances: &Vec<Instance>,
        camera_uniform: &CameraUniform,
        model_uniform: &ModelUniform,
        sample_count: &u32,
        dst_format: &F,
        depth_format: &F,
    ) -> (r: Result<Self, PipelineError>) where
        Vertex: GpuVertex,
        Instance: GpuInstance,
        CameraUniform: AsStd140,
        ModelUniform: AsStd140,

        ensures
            r matches Ok(pipeline) ==> pipeline.well_formed(),
            (match r {
                Ok(pipeline) => build_error(
                    Vertex::spec_desc(),
                    Vertex::spec_fields(),
                    Instance::spec_desc(),
                    Instance::spec_fields(),
                    indices@,
                ) is None && pipeline.is_built_from(
                    packed_words(vertices@),
                    index_halves(indices@),
                    packed_words(instances@),
                    camera_uniform.spec_std140(),
                    model_uniform.spec_std140(),
                    Vertex::spec_desc(),
                    Instance::spec_desc(),
                    *sample_count,
                    *dst_format,
                    *depth_format,
                ),
                Err(e) => build_error(
                    Vertex::spec_desc(),
                    Vertex::spec_fields(),
                    Instance::spec_desc(),
                    Instance::spec_fields(),
                    indices@,
                ) == Some(e),
            }),
    {
        let vertex_desc = Vertex::desc();
        let instance_desc = Instance::desc();
        let vertex_fields = Vertex::fields();
        let instance_fields = Instance::fields();
        match check_layouts(
            &vertex_desc,
            vertex_fields.as_slice(),
            &instance_desc,
            instance_fields.as_slice(),
        ) {
            Err(e) => {
                return Err(e);
            },
            Ok(_) => {},
        }
        let halves: Vec<u16> = match indices_to_halves(indices) {
            None => {
                return Err(PipelineError::IndexOutOfRange);
            },
            Some(halves) => halves,
        };
        let vertices_buffer = BufferInit::from_words(
            &pack(vertices),
            BufferUsage { copy_dst: false, index: false, vertex: true, uniform: false },
        );
        let indices_buffer = BufferInit::from_halves(
            &halves,
            BufferUsage { copy_dst: false, index: true, vertex: false, uniform: false },
        );
        let instances_buffer = BufferInit::from_words(
            &pack(instances),
            BufferUsage { copy_dst: false, index: false, vertex: true, uniform: false },
        );
        let camera_uniform_buffer = BufferInit::from_words(
            &camera_uniform.as_std140(),
            BufferUsage { copy_dst: true, index: false, vertex: false, uniform: true },
        );
        let model_uniform_buffer = BufferInit::from_words(
            &model_uniform.as_std140(),
            BufferUsage { copy_dst: true, index: false, vertex: false, uniform: true },
        );
        let mut bind_group_0: Vec<UniformBinding> = Vec::new();
        bind_group_0.push(
            UniformBinding {
                binding: 0,
                buffer: PipelineBuffer::CameraUniform,
                vertex_stage: true,
                fragment_stage: true,
                has_dynamic_offset: false,
                size: camera_uniform_buffer.contents.len(),
            },
        );
        bind_group_0.push(
            UniformBinding {
                binding: 1,
                buffer: PipelineBuffer::ModelUniform,
                vertex_stage: true,
                fragment_stage: true,
                has_dynamic_offset: false,
                size: model_uniform_buffer.contents.len(),
            },
        );
        assert(bind_group_0@ == seq![
            UniformBinding::spec_whole(0, PipelineBuffer::CameraUniform, &camera_uniform_buffer),
            UniformBinding::spec_whole(1, PipelineBuffer::ModelUniform, &model_uniform_buffer),
        ]);
        let mut vertex_buffers: Vec<VertexBufferLayout> = Vec::new();
        vertex_buffers.push(vertex_desc);
        vertex_buffers.push(instance_desc);
        proof {
            camera_uniform.lemma_std140_rows();
            model_uniform.lemma_std140_rows();
        }
        Ok(
            BasicPipeline {
                vertices_buffer,
                instances_buffer,
                indices_buffer,
                camera_uniform_buffer,
                model_uniform_buffer,
                bind_group_0,
                vertex_buffers,
                color_format: *dst_format,
                depth_format: *depth_format,
                sample_count: *sample_count,
            },
        )
    }
}

impl<F> Drawable for BasicPipeline<F> {
    /// One indexed draw that counts the entity's indices and instances,
    /// after the five bindings.
    open spec fn spec_draw(&self, entity: &BasicEntity) -> Result<Seq<RenderCommand>, DrawError> {
        counted_draw(entity.indices@.len(), entity.instances@.len())
    }

    fn draw(&self, entity: &BasicEntity) -> (r: Result<Vec<RenderCommand>, DrawError>) {
        record_draw(entity.indices.len(), entity.instances.len())
    }
}

/// A pipeline is built exactly when both descriptors describe their records,
/// and no shader input of a pipeline that is built is fed twice: the slots of
/// the vertex records lie in 0 to 9, those of the instance records in 10 to
/// 13, and within each descriptor and across the two all slots differ.
pub proof fn lemma_built_slots_differ(
    vertex_desc: LayoutView,
    vertex_fields: Seq<VertexFormat>,
    instance_desc: LayoutView,
    instance_fields: Seq<VertexFormat>,
)
    ensures
        layout_error(vertex_desc, vertex_fields, instance_desc, instance_fields) is None <==> (
        vertex_desc.describes(InputStepMode::Vertex, vertex_fields) && instance_desc.describes(
            InputStepMode::Instance,
            instance_fields,
        )),
        layout_error(vertex_desc, vertex_fields, instance_desc, instance_fields) is None ==> ({
            &&& vertex_desc.slots_distinct()
            &&& instance_desc.slots_distinct()
            &&& forall|i: int, j: int|
                0 <= i < vertex_desc.attributes.len() && 0 <= j < instance_desc.attributes.len()
                    ==> #[trigger] vertex_desc.attributes[i].shader_location
                    != #[trigger] instance_desc.attributes[j].shader_location
        }),
{
}

/// A pipeline of mesh vertices and model-matrix instances is built exactly
/// when its indices fit 16 bits: neither descriptor fails its check.
pub proof fn lemma_mesh_pipeline_is_built(indices: Seq<i32>)
    ensures
        layout_error(
            GltfMeshVertex::spec_desc(),
            GltfMeshVertex::spec_fields(),
            ModelMatrixInstance::spec_desc(),
            ModelMatrixInstance::spec_fields(),
        ) is None,
        build_error(
            GltfMeshVertex::spec_desc(),
            GltfMeshVertex::spec_fields(),
            ModelMatrixInstance::spec_desc(),
            ModelMatrixInstance::spec_fields(),
            indices,
        ) is None <==> indices_in_range(indices),
{
    lemma_gltf_mesh_vertex_desc_describes_record();
    lemma_model_matrix_desc_describes_record();
}

/// What the GPU reads as an index. In an index buffer that holds a list of
/// indices, the two bytes of index `index`, found two bytes into the buffer
/// for each index before it, are the bytes of that index of the list, and
/// the buffer has two bytes for each index that a draw of the list counts.
pub proof fn lemma_index_buffer_holds_indices(buffer: &BufferInit, indices: Seq<i32>, index: int)
    requires
        indices_in_range(indices),
        buffer.holds_halves(index_halves(indices), BufferUsage::spec_index()),
        0 <= index < indices.len(),
    ensures
        buffer.contents@.len() == 2 * indices.len(),
        buffer.contents@.subrange(2 * index, 2 * index + 2) == half_bytes(indices[index] as u16),
        indices[index] as u16 == indices[index],
{
    lemma_native_half_at(index_halves(indices), index);
}

/// An entity is drawn exactly when 32 bits can count its indices and its
/// instances, and then by exactly one indexed draw, the last command, which
/// counts as many indices as the entity has and as many instances as it has.
pub proof fn lemma_draw_is_one_indexed_draw<F>(pipeline: &BasicPipeline<F>, entity: &BasicEntity)
    ensures
        pipeline.spec_draw(entity) is Ok <==> (entity.indices@.len() <= u32::MAX
            && entity.instances@.len() <= u32::MAX),
        pipeline.spec_draw(entity) matches Ok(commands) ==> ({
            &&& commands.last() == (RenderCommand::DrawIndexed {
                index_count: entity.indices@.len() as u32,
                base_vertex: 0,
                instance_count: entity.instances@.len() as u32,
            })
            &&& forall|i: int|
                0 <= i < commands.len() - 1 ==> !(#[trigger] commands[i] is DrawIndexed)
        }),
{
}

} // verus!
