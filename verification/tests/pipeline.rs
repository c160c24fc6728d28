use render_core::entity::BasicEntity;
use render_core::layout::{
    InputStepMode, LayoutError, Packed, VertexAttribute, VertexBufferLayout, VertexFormat,
};
use render_core::pipeline::{
    check_layouts, indices_to_halves, record_draw, BasicPipeline, BufferInit, BufferUsage, DrawError, Drawable, IndexFormat,
    PipelineBuffer, PipelineError, RenderCommand, UniformBinding,
};
use render_core::uniforms::camera::CameraUniform;
use render_core::uniforms::instance_input::model_matrix::ModelMatrixInstance;
use render_core::uniforms::instance_input::GpuInstance;
use render_core::uniforms::model::ModelUniform;
use render_core::uniforms::vertex_input::gltf_mesh_vertex::GltfMeshVertex;
use render_core::uniforms::vertex_input::GpuVertex;

const VERTEX: BufferUsage =
    BufferUsage { copy_dst: false, index: false, vertex: true, uniform: false };
const INDEX: BufferUsage =
    BufferUsage { copy_dst: false, index: true, vertex: false, uniform: false };
const UNIFORM: BufferUsage =
    BufferUsage { copy_dst: true, index: false, vertex: false, uniform: true };

fn identity() -> [u32; 16] {
    let mut m = [0.0f32.to_bits(); 16];
    m[0] = 1.0f32.to_bits();
    m[5] = 1.0f32.to_bits();
    m[10] = 1.0f32.to_bits();
    m[15] = 1.0f32.to_bits();
    m
}

fn host_bytes(words: &[u32]) -> Vec<u8> {
    let mut bytes = Vec::new();
    for word in words {
        bytes.extend_from_slice(&word.to_ne_bytes());
    }
    bytes
}

fn host_halves(halves: &[u16]) -> Vec<u8> {
    let mut bytes = Vec::new();
    for half in halves {
        bytes.extend_from_slice(&half.to_ne_bytes());
    }
    bytes
}

fn build(indices: &Vec<i32>) -> Result<BasicPipeline<u8>, PipelineError> {
    BasicPipeline::new(
        &vec![GltfMeshVertex::default()],
        indices,
        &vec![ModelMatrixInstance::default()],
        &CameraUniform::new(identity(), identity()),
        &ModelUniform::new(identity()),
        &1,
        &0,
        &0,
    )
}

fn counting_vertex() -> GltfMeshVertex {
    GltfMeshVertex {
        position: [1, 2, 3, 4],
        normal: [5, 6, 7],
        tangent: [8, 9, 10],
        bitangent: [11, 12, 13],
        color: [14, 15, 16, 17],
        tex_coords_0: [18, 19],
        tex_coords_1: [20, 21],
        tex_coords_2: [22, 23],
        skin_weight: [24, 25, 26],
        skin_index: [27, 28, 29],
    }
}

fn layout(
    array_stride: u64,
    step_mode: InputStepMode,
    attributes: &[(VertexFormat, u64, u32)],
) -> VertexBufferLayout {
    VertexBufferLayout {
        array_stride,
        step_mode,
        attributes: attributes
            .iter()
            .map(|&(format, offset, shader_location)| VertexAttribute {
                format,
                offset,
                shader_location,
            })
            .collect(),
    }
}

#[test]
fn single_entity_pipeline_records_one_indexed_draw() {
    let model_uniform = ModelUniform::new(identity());
    let camera_uniform = CameraUniform::new(identity(), identity());
    let vertices = vec![GltfMeshVertex::default()];
    let instances = vec![ModelMatrixInstance::default()];
    let indices = vec![0];
    let entity = BasicEntity::new(&model_uniform, &vertices, &indices, &instances);

    let pipeline: BasicPipeline<u8> = BasicPipeline::new(
        &vertices,
        &indices,
        &instances,
        &camera_uniform,
        &model_uniform,
        &4,
        &1,
        &2,
    )
    .unwrap();

    let commands = pipeline.draw(&entity).unwrap();
    let draws: Vec<&RenderCommand> = commands
        .iter()
        .filter(|c| matches!(c, RenderCommand::DrawIndexed { .. }))
        .collect();
    assert_eq!(draws.len(), 1);
    assert_eq!(
        *draws[0],
        RenderCommand::DrawIndexed { index_count: 1, base_vertex: 0, instance_count: 1 }
    );
}

#[test]
fn draw_binds_everything_before_the_indexed_draw() {
    assert_eq!(
        record_draw(3, 2),
        Ok(vec![
            RenderCommand::SetPipeline,
            RenderCommand::SetBindGroup { index: 0 },
            RenderCommand::SetVertexBuffer { slot: 0, buffer: PipelineBuffer::Vertices },
            RenderCommand::SetVertexBuffer { slot: 1, buffer: PipelineBuffer::Instances },
            RenderCommand::SetIndexBuffer {
                buffer: PipelineBuffer::Indices,
                format: IndexFormat::Uint16
            },
            RenderCommand::DrawIndexed { index_count: 3, base_vertex: 0, instance_count: 2 },
        ])
    );
}

#[test]
fn draw_of_nothing_counts_zero() {
    let commands = record_draw(0, 0).unwrap();
    assert_eq!(
        commands.last(),
        Some(&RenderCommand::DrawIndexed { index_count: 0, base_vertex: 0, instance_count: 0 })
    );
}

#[test]
fn draw_counts_up_to_32_bits() {
    let commands = record_draw(u32::MAX as usize, u32::MAX as usize).unwrap();
    assert_eq!(
        commands.last(),
        Some(&RenderCommand::DrawIndexed {
            index_count: u32::MAX,
            base_vertex: 0,
            instance_count: u32::MAX
        })
    );
}

#[test]
fn draw_refuses_more_indices_than_32_bits_count() {
    if let Some(too_many) = (u32::MAX as usize).checked_add(1) {
        assert_eq!(record_draw(too_many, 1), Err(DrawError::TooManyIndices));
        assert_eq!(record_draw(too_many, too_many), Err(DrawError::TooManyIndices));
        assert_eq!(record_draw(usize::MAX, 0), Err(DrawError::TooManyIndices));
    }
}

#[test]
fn draw_refuses_more_instances_than_32_bits_count() {
    if let Some(too_many) = (u32::MAX as usize).checked_add(1) {
        assert_eq!(record_draw(1, too_many), Err(DrawError::TooManyInstances));
        assert_eq!(record_draw(u32::MAX as usize, usize::MAX), Err(DrawError::TooManyInstances));
    }
}

#[test]
fn pipeline_buffers_hold_the_records_in_host_byte_order() {
    let model_uniform = ModelUniform::new(identity());
    let mut view = identity();
    view[12] = 2.5f32.to_bits();
    let mut projection = identity();
    projection[11] = (-1.0f32).to_bits();
    let camera_uniform = CameraUniform::new(view, projection);
    let vertices = vec![counting_vertex(), GltfMeshVertex::default()];
    let instances = vec![ModelMatrixInstance {
        model_matrix_0: [100, 101, 102, 103],
        model_matrix_1: [104, 105, 106, 107],
        model_matrix_2: [108, 109, 110, 111],
        model_matrix_3: [112, 113, 114, 115],
    }];
    let indices = vec![0, 1, 65535, 0x0102];

    let pipeline: BasicPipeline<u8> = BasicPipeline::new(
        &vertices,
        &indices,
        &instances,
        &camera_uniform,
        &model_uniform,
        &1,
        &7,
        &9,
    )
    .unwrap();

    let mut vertex_words: Vec<u32> = (1..=29).collect();
    vertex_words.extend_from_slice(&[0; 29]);
    assert_eq!(pipeline.vertices_buffer.contents, host_bytes(&vertex_words));
    assert_eq!(pipeline.vertices_buffer.contents.len(), 2 * 116);
    assert_eq!(pipeline.vertices_buffer.usage, VERTEX);

    let instance_words: Vec<u32> = (100..=115).collect();
    assert_eq!(pipeline.instances_buffer.contents, host_bytes(&instance_words));
    assert_eq!(pipeline.instances_buffer.usage, VERTEX);

    assert_eq!(pipeline.indices_buffer.contents, host_halves(&[0, 1, 0xffff, 0x0102]));
    assert_eq!(pipeline.indices_buffer.contents.len(), 2 * indices.len());
    assert_eq!(pipeline.indices_buffer.usage, INDEX);

    let mut camera_words = view.to_vec();
    camera_words.extend_from_slice(&projection);
    assert_eq!(pipeline.camera_uniform_buffer.contents, host_bytes(&camera_words));
    assert_eq!(pipeline.camera_uniform_buffer.contents.len(), 128);
    assert_eq!(pipeline.camera_uniform_buffer.usage, UNIFORM);

    assert_eq!(pipeline.model_uniform_buffer.contents, host_bytes(&identity()));
    assert_eq!(pipeline.model_uniform_buffer.contents.len(), 64);
    assert_eq!(pipeline.model_uniform_buffer.usage, UNIFORM);
}

#[test]
fn pipeline_wires_bindings_layouts_formats_and_samples() {
    let model_uniform = ModelUniform::new(identity());
    let camera_uniform = CameraUniform::new(identity(), identity());
    let vertices = vec![GltfMeshVertex::default()];
    let instances = vec![ModelMatrixInstance::default()];
    let indices = vec![0];

    let pipeline: BasicPipeline<&str> = BasicPipeline::new(
        &vertices,
        &indices,
        &instances,
        &camera_uniform,
        &model_uniform,
        &4,
        &"color",
        &"depth",
    )
    .unwrap();

    assert_eq!(
        pipeline.bind_group_0,
        vec![
            UniformBinding {
                binding: 0,
                buffer: PipelineBuffer::CameraUniform,
                vertex_stage: true,
                fragment_stage: true,
                has_dynamic_offset: false,
                size: 128,
            },
            UniformBinding {
                binding: 1,
                buffer: PipelineBuffer::ModelUniform,
                vertex_stage: true,
                fragment_stage: true,
                has_dynamic_offset: false,
                size: 64,
            },
        ]
    );
    assert_eq!(pipeline.vertex_buffers, vec![GltfMeshVertex::desc(), ModelMatrixInstance::desc()]);
    assert_eq!(pipeline.vertex_buffers[0].step_mode, InputStepMode::Vertex);
    assert_eq!(pipeline.vertex_buffers[1].step_mode, InputStepMode::Instance);
    assert_eq!(pipeline.color_format, "color");
    assert_eq!(pipeline.depth_format, "depth");
    assert_eq!(pipeline.sample_count, 4);
}

#[test]
fn pipeline_of_empty_lists_has_empty_buffers() {
    let model_uniform = ModelUniform::new(identity());
    let camera_uniform = CameraUniform::new(identity(), identity());
    let vertices: Vec<GltfMeshVertex> = Vec::new();
    let instances: Vec<ModelMatrixInstance> = Vec::new();
    let indices: Vec<i32> = Vec::new();

    let pipeline: BasicPipeline<u8> = BasicPipeline::new(
        &vertices,
        &indices,
        &instances,
        &camera_uniform,
        &model_uniform,
        &1,
        &0,
        &0,
    )
    .unwrap();

    assert!(pipeline.vertices_buffer.contents.is_empty());
    assert!(pipeline.indices_buffer.contents.is_empty());
    assert!(pipeline.instances_buffer.contents.is_empty());
    assert_eq!(pipeline.camera_uniform_buffer.contents.len(), 128);
}

#[test]
fn layouts_of_the_mesh_records_pass() {
    assert_eq!(
        check_layouts(
            &GltfMeshVertex::desc(),
            &GltfMeshVertex::fields(),
            &ModelMatrixInstance::desc(),
            &ModelMatrixInstance::fields()
        ),
        Ok(())
    );
}

#[test]
fn vertex_descriptor_with_a_wrong_stride_is_refused() {
    let loose = layout(12, InputStepMode::Vertex, &[(VertexFormat::Float32x2, 0, 0)]);
    assert_eq!(
        check_layouts(
            &loose,
            &[VertexFormat::Float32x2],
            &ModelMatrixInstance::desc(),
            &ModelMatrixInstance::fields()
        ),
        Err(PipelineError::VertexLayout(LayoutError::StrideMismatch))
    );
}

#[test]
fn instance_descriptor_in_a_vertex_slot_is_refused() {
    let misplaced = layout(16, InputStepMode::Instance, &[(VertexFormat::Float32x4, 0, 9)]);
    assert_eq!(
        check_layouts(
            &GltfMeshVertex::desc(),
            &GltfMeshVertex::fields(),
            &misplaced,
            &[VertexFormat::Float32x4]
        ),
        Err(PipelineError::InstanceLayout(LayoutError::SlotOutOfRange))
    );
}

#[test]
fn vertex_descriptor_is_reported_before_the_instance_descriptor() {
    let loose = layout(12, InputStepMode::Vertex, &[(VertexFormat::Float32x2, 0, 0)]);
    let misplaced = layout(16, InputStepMode::Instance, &[(VertexFormat::Float32x4, 0, 9)]);
    assert_eq!(
        check_layouts(&loose, &[VertexFormat::Float32x2], &misplaced, &[VertexFormat::Float32x4]),
        Err(PipelineError::VertexLayout(LayoutError::StrideMismatch))
    );
}

#[test]
fn descriptors_in_each_other_s_place_are_refused() {
    assert_eq!(
        check_layouts(
            &ModelMatrixInstance::desc(),
            &ModelMatrixInstance::fields(),
            &GltfMeshVertex::desc(),
            &GltfMeshVertex::fields()
        ),
        Err(PipelineError::VertexLayout(LayoutError::StepMode))
    );
    assert_eq!(
        check_layouts(
            &GltfMeshVertex::desc(),
            &GltfMeshVertex::fields(),
            &GltfMeshVertex::desc(),
            &GltfMeshVertex::fields()
        ),
        Err(PipelineError::InstanceLayout(LayoutError::StepMode))
    );
}

#[test]
fn each_attribute_names_the_bytes_of_its_field() {
    let model_uniform = ModelUniform::new(identity());
    let camera_uniform = CameraUniform::new(identity(), identity());
    let mut second = counting_vertex();
    second.color = [91, 92, 93, 94];
    second.skin_index = [95, 96, 97];
    let vertices = vec![counting_vertex(), second, GltfMeshVertex::default()];
    let instances = vec![
        ModelMatrixInstance::default(),
        ModelMatrixInstance {
            model_matrix_0: [1, 2, 3, 4],
            model_matrix_1: [5, 6, 7, 8],
            model_matrix_2: [9, 10, 11, 12],
            model_matrix_3: [13, 14, 15, 16],
        },
    ];
    let pipeline: BasicPipeline<u8> = BasicPipeline::new(
        &vertices,
        &vec![0],
        &instances,
        &camera_uniform,
        &model_uniform,
        &1,
        &0,
        &0,
    )
    .unwrap();

    let named = |buffer: &BufferInit, desc: &VertexBufferLayout, record: usize, attribute: usize| {
        let attribute = &desc.attributes[attribute];
        let start = record * desc.array_stride as usize + attribute.offset as usize;
        buffer.contents[start..start + attribute.format.size() as usize].to_vec()
    };
    let vertex_desc = &pipeline.vertex_buffers[0];
    assert_eq!(named(&pipeline.vertices_buffer, vertex_desc, 1, 0), host_bytes(&second.position));
    assert_eq!(named(&pipeline.vertices_buffer, vertex_desc, 1, 4), host_bytes(&[91, 92, 93, 94]));
    assert_eq!(named(&pipeline.vertices_buffer, vertex_desc, 1, 9), host_bytes(&[95, 96, 97]));
    assert_eq!(named(&pipeline.vertices_buffer, vertex_desc, 0, 5), host_bytes(&[18, 19]));
    assert_eq!(named(&pipeline.vertices_buffer, vertex_desc, 2, 8), host_bytes(&[0, 0, 0]));
    let instance_desc = &pipeline.vertex_buffers[1];
    assert_eq!(named(&pipeline.instances_buffer, instance_desc, 1, 2), host_bytes(&[9, 10, 11, 12]));
    assert_eq!(named(&pipeline.instances_buffer, instance_desc, 0, 3), host_bytes(&[0; 4]));
}

#[test]
fn index_buffer_holds_two_bytes_for_each_index() {
    let pipeline = build(&vec![1, 2]).unwrap();
    assert_eq!(pipeline.indices_buffer.contents, host_halves(&[1, 2]));
    assert_eq!(pipeline.indices_buffer.contents.len(), 4);
    assert_eq!(pipeline.indices_buffer.usage, INDEX);
    if 1u16.to_ne_bytes() == [1, 0] {
        assert_eq!(pipeline.indices_buffer.contents, vec![1, 0, 2, 0]);
    } else {
        assert_eq!(pipeline.indices_buffer.contents, vec![0, 1, 0, 2]);
    }
}

#[test]
fn index_buffer_is_read_back_as_the_indices_that_are_drawn() {
    let indices = vec![0, 2, 1, 1, 2, 3, 65535, 256];
    let pipeline = build(&indices).unwrap();
    let read: Vec<i32> = pipeline
        .indices_buffer
        .contents
        .chunks(2)
        .map(|pair| u16::from_ne_bytes([pair[0], pair[1]]) as i32)
        .collect();
    assert_eq!(read, indices);
    assert_eq!(
        record_draw(indices.len(), 1).unwrap().last(),
        Some(&RenderCommand::DrawIndexed { index_count: 8, base_vertex: 0, instance_count: 1 })
    );
}

#[test]
fn index_that_sixteen_bits_do_not_hold_is_refused() {
    assert_eq!(build(&vec![0, 1, 65536]).err(), Some(PipelineError::IndexOutOfRange));
    assert_eq!(build(&vec![-1]).err(), Some(PipelineError::IndexOutOfRange));
    assert_eq!(build(&vec![0, i32::MAX, 2]).err(), Some(PipelineError::IndexOutOfRange));
    assert_eq!(build(&vec![i32::MIN]).err(), Some(PipelineError::IndexOutOfRange));
    assert!(build(&vec![0, 65535]).is_ok());
    assert!(build(&vec![]).is_ok());
}

#[test]
fn indices_as_halves() {
    assert_eq!(indices_to_halves(&vec![0, 7, 65535]), Some(vec![0, 7, 65535]));
    assert_eq!(indices_to_halves(&vec![]), Some(vec![]));
    assert_eq!(indices_to_halves(&vec![3, 65536]), None);
    assert_eq!(indices_to_halves(&vec![-3, 1]), None);
}

#[test]
fn buffer_from_halves_holds_two_bytes_per_half() {
    let buffer = BufferInit::from_halves(&vec![0x0201, 0xfffe, 0], INDEX);
    assert_eq!(buffer.contents, host_halves(&[0x0201, 0xfffe, 0]));
    assert_eq!(buffer.contents.len(), 6);
    assert_eq!(buffer.usage, INDEX);
}

#[test]
fn buffer_from_words_holds_four_bytes_per_word() {
    let buffer = BufferInit::from_words(&vec![0x0403_0201, 0xffff_fffe], UNIFORM);
    assert_eq!(buffer.contents, host_bytes(&[0x0403_0201, 0xffff_fffe]));
    assert_eq!(buffer.contents.len(), 8);
    assert_eq!(buffer.usage, UNIFORM);
    let first = [buffer.contents[0], buffer.contents[1], buffer.contents[2], buffer.contents[3]];
    assert_eq!(u32::from_ne_bytes(first), 0x0403_0201);
}
