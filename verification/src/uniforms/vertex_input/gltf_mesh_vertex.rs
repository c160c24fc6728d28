//! The vertex record of a glTF mesh.

use crate::bytes::append_array;
use crate::layout::{
    field_offset, field_words, formats_size, lemma_field_offset_step, InputStepMode, LayoutView,
    Packed, VertexAttribute, VertexBufferLayout, VertexFormat,
};
use crate::uniforms::vertex_input::GpuVertex;
use vstd::prelude::*;

verus! {

/// One vertex of a mesh: 29 floats, 116 bytes, in the order of the shader's
/// inputs 0 to 9.
#[derive(Debug, Clone, Copy, PartialEq, Eq)]
pub struct GltfMeshVertex {
    pub position: [u32; 4],
    pub normal: [u32; 3],
    pub tangent: [u32; 3],
    pub bitangent: [u32; 3],
    pub color: [u32; 4],
    pub tex_coords_0: [u32; 2],
    pub tex_coords_1: [u32; 2],
    pub tex_coords_2: [u32; 2],
    pub skin_weight: [u32; 3],
    pub skin_index: [u32; 3],
}

impl Default for GltfMeshVertex {
    /// The vertex whose floats are all zero.
    fn default() -> (vertex: Self)
        ensures
            vertex.spec_words() == Seq::new(29, |i: int| 0u32),
    {
        GltfMeshVertex {
            position: [0, 0, 0, 0],
            normal: [0, 0, 0],
            tangent: [0, 0, 0],
            bitangent: [0, 0, 0],
            color: [0, 0, 0, 0],
            tex_coords_0: [0, 0],
            tex_coords_1: [0, 0],
            tex_coords_2: [0, 0],
            skin_weight: [0, 0, 0],
            skin_index: [0, 0, 0],
        }
    }
}

impl Packed for GltfMeshVertex {
    open spec fn spec_fields() -> Seq<VertexFormat> {
        seq![
            VertexFormat::Float32x4,
            VertexFormat::Float32x3,
            VertexFormat::Float32x3,
            VertexFormat::Float32x3,
            VertexFormat::Float32x4,
            VertexFormat::Float32x2,
            VertexFormat::Float32x2,
            VertexFormat::Float32x2,
            VertexFormat::Float32x3,
            VertexFormat::Float32x3,
        ]
    }

    open spec fn spec_words(&self) -> Seq<u32> {
        self.position@ + self.normal@ + self.tangent@ + self.bitangent@ + self.color@
            + self.tex_coords_0@ + self.tex_coords_1@ + self.tex_coords_2@ + self.skin_weight@
            + self.skin_index@
    }

    proof fn lemma_words_fill_fields(&self) {
        lemma_gltf_mesh_vertex_field_offsets();
    }

    fn fields() -> (fields: Vec<VertexFormat>) {
        let mut fields: Vec<VertexFormat> = Vec::new();
        // position
        fields.push(VertexFormat::Float32x4);
        // normal
        fields.push(VertexFormat::Float32x3);
        // tangent
        fields.push(VertexFormat::Float32x3);
        // bitangent
        fields.push(VertexFormat::Float32x3);
        // color
        fields.push(VertexFormat::Float32x4);
        // tex_coords_0
        fields.push(VertexFormat::Float32x2);
        // tex_coords_1
        fields.push(VertexFormat::Float32x2);
        // tex_coords_2
        fields.push(VertexFormat::Float32x2);
        // skin_weight
        fields.push(VertexFormat::Float32x3);
        // skin_index
        fields.push(VertexFormat::Float32x3);
        fields
    }

    fn size() -> (bytes: usize) {
        proof {
            lemma_gltf_mesh_vertex_field_offsets();
        }
        116
    }

    fn append_words(&self, out: &mut Vec<u32>) {
        append_array(out, &self.position);
        append_array(out, &self.normal);
        append_array(out, &self.tangent);
        append_array(out, &self.bitangent);
        append_array(out, &self.color);
        append_array(out, &self.tex_coords_0);
        append_array(out, &self.tex_coords_1);
        append_array(out, &self.tex_coords_2);
        append_array(out, &self.skin_weight);
        append_array(out, &self.skin_index);
    }
}

impl GpuVertex for GltfMeshVertex {
    open spec fn spec_desc() -> LayoutView {
        LayoutView {
            array_stride: 116,
            step_mode: InputStepMode::Vertex,
            attributes: seq![
                VertexAttribute { format: VertexFormat::Float32x4, offset: 0, shader_location: 0 },
                VertexAttribute { format: VertexFormat::Float32x3, offset: 16, shader_location: 1 },
                VertexAttribute { format: VertexFormat::Float32x3, offset: 28, shader_location: 2 },
                VertexAttribute { format: VertexFormat::Float32x3, offset: 40, shader_location: 3 },
                VertexAttribute { format: VertexFormat::Float32x4, offset: 52, shader_location: 4 },
                VertexAttribute { format: VertexFormat::Float32x2, offset: 68, shader_location: 5 },
                VertexAttribute { format: VertexFormat::Float32x2, offset: 76, shader_location: 6 },
                VertexAttribute { format: VertexFormat::Float32x2, offset: 84, shader_location: 7 },
                VertexAttribute { format: VertexFormat::Float32x3, offset: 92, shader_location: 8 },
                VertexAttribute { format: VertexFormat::Float32x3, offset: 104, shader_location: 9 },
            ],
        }
    }

    fn desc() -> (layout: VertexBufferLayout) {
        let mut attributes: Vec<VertexAttribute> = Vec::new();
        // position
        attributes.push(
            VertexAttribute { format: VertexFormat::Float32x4, offset: 0, shader_location: 0 },
        );
        // normal
        attributes.push(
            VertexAttribute { format: VertexFormat::Float32x3, offset: 16, shader_location: 1 },
        );
        // tangent
        attributes.push(
            VertexAttribute { format: VertexFormat::Float32x3, offset: 28, shader_location: 2 },
        );
        // bitangent
        attributes.push(
            VertexAttribute { format: VertexFormat::Float32x3, offset: 40, shader_location: 3 },
        );
        // color
        attributes.push(
            VertexAttribute { format: VertexFormat::Float32x4, offset: 52, shader_location: 4 },
        );
        // tex_coords_0
        attributes.push(
            VertexAttribute { format: VertexFormat::Float32x2, offset: 68, shader_location: 5 },
        );
        // tex_coords_1
        attributes.push(
            VertexAttribute { format: VertexFormat::Float32x2, offset: 76, shader_location: 6 },
        );
        // tex_coords_2
        attributes.push(
            VertexAttribute { format: VertexFormat::Float32x2, offset: 84, shader_location: 7 },
        );
        // skin_weight
        attributes.push(
            VertexAttribute { format: VertexFormat::Float32x3, offset: 92, shader_location: 8 },
        );
        // skin_index
        attributes.push(
            VertexAttribute { format: VertexFormat::Float32x3, offset: 104, shader_location: 9 },
        );
        assert(attributes@ == Self::spec_desc().attributes);
        VertexBufferLayout { array_stride: 116, step_mode: InputStepMode::Vertex, attributes }
    }
}

/// Where the ten fields start in the record, and that the record is 116
/// bytes long.
pub proof fn lemma_gltf_mesh_vertex_field_offsets()
    ensures
        field_offset(GltfMeshVertex::spec_fields(), 0) == 0,
        field_offset(GltfMeshVertex::spec_fields(), 1) == 16,
        field_offset(GltfMeshVertex::spec_fields(), 2) == 28,
        field_offset(GltfMeshVertex::spec_fields(), 3) == 40,
        field_offset(GltfMeshVertex::spec_fields(), 4) == 52,
        field_offset(GltfMeshVertex::spec_fields(), 5) == 68,
        field_offset(GltfMeshVertex::spec_fields(), 6) == 76,
        field_offset(GltfMeshVertex::spec_fields(), 7) == 84,
        field_offset(GltfMeshVertex::spec_fields(), 8) == 92,
        field_offset(GltfMeshVertex::spec_fields(), 9) == 104,
        field_offset(GltfMeshVertex::spec_fields(), 10) == 116,
        formats_size(GltfMeshVertex::spec_fields()) == 116,
{
    let fields = GltfMeshVertex::spec_fields();
    lemma_field_offset_step(fields, 0);
    lemma_field_offset_step(fields, 1);
    lemma_field_offset_step(fields, 2);
    lemma_field_offset_step(fields, 3);
    lemma_field_offset_step(fields, 4);
    lemma_field_offset_step(fields, 5);
    lemma_field_offset_step(fields, 6);
    lemma_field_offset_step(fields, 7);
    lemma_field_offset_step(fields, 8);
    lemma_field_offset_step(fields, 9);
}

/// The fields of a mesh vertex are its position, normal, tangent, bitangent,
/// colour, three pairs of texture coordinates, skin weight and skin index, in
/// this order.
pub proof fn lemma_gltf_mesh_vertex_fields(vertex: GltfMeshVertex)
    ensures
        field_words(GltfMeshVertex::spec_fields(), vertex.spec_words(), 0) == vertex.position@,
        field_words(GltfMeshVertex::spec_fields(), vertex.spec_words(), 1) == vertex.normal@,
        field_words(GltfMeshVertex::spec_fields(), vertex.spec_words(), 2) == vertex.tangent@,
        field_words(GltfMeshVertex::spec_fields(), vertex.spec_words(), 3) == vertex.bitangent@,
        field_words(GltfMeshVertex::spec_fields(), vertex.spec_words(), 4) == vertex.color@,
        field_words(GltfMeshVertex::spec_fields(), vertex.spec_words(), 5) == vertex.tex_coords_0@,
        field_words(GltfMeshVertex::spec_fields(), vertex.spec_words(), 6) == vertex.tex_coords_1@,
        field_words(GltfMeshVertex::spec_fields(), vertex.spec_words(), 7) == vertex.tex_coords_2@,
        field_words(GltfMeshVertex::spec_fields(), vertex.spec_words(), 8) == vertex.skin_weight@,
        field_words(GltfMeshVertex::spec_fields(), vertex.spec_words(), 9) == vertex.skin_index@,
{
    lemma_gltf_mesh_vertex_field_offsets();
}

/// The descriptor of the mesh vertex describes it: it steps per vertex, its
/// slots are 0 to 9, one each, it has one attribute for each field, in the
/// field's format and at the field's offset, and the sizes of its attributes
/// add up to its stride, the 116 bytes of the record, with no byte left over.
pub proof fn lemma_gltf_mesh_vertex_desc_describes_record()
    ensures
        formats_size(GltfMeshVertex::spec_desc().formats())
            == GltfMeshVertex::spec_desc().array_stride,
        GltfMeshVertex::spec_desc().describes(InputStepMode::Vertex, GltfMeshVertex::spec_fields()),
{
    lemma_gltf_mesh_vertex_field_offsets();
    assert(GltfMeshVertex::spec_desc().formats() == GltfMeshVertex::spec_fields());
}

} // verus!
