//! The instance record: one model matrix per instance.

use crate::bytes::append_array;
use crate::layout::{
    field_offset, field_words, formats_size, lemma_field_offset_step, InputStepMode, LayoutView,
    Packed, VertexAttribute, VertexBufferLayout, VertexFormat,
};
use crate::uniforms::instance_input::GpuInstance;
use vstd::prelude::*;

verus! {

/// The four columns of a model matrix, 64 bytes. A shader input holds at most
/// a 4-vector, so each column has a slot of its own: 10 to 13.
#[derive(Debug, Clone, Copy, PartialEq, Eq)]
pub struct ModelMatrixInstance {
    pub model_matrix_0: [u32; 4],
    pub model_matrix_1: [u32; 4],
    pub model_matrix_2: [u32; 4],
    pub model_matrix_3: [u32; 4],
}

impl Default for ModelMatrixInstance {
    /// The matrix of zeros.
    fn default() -> (instance: Self)
        ensures
            instance.spec_words() == Seq::new(16, |i: int| 0u32),
    {
        ModelMatrixInstance {
            model_matrix_0: [0, 0, 0, 0],
            model_matrix_1: [0, 0, 0, 0],
            model_matrix_2: [0, 0, 0, 0],
            model_matrix_3: [0, 0, 0, 0],
        }
    }
}

impl Packed for ModelMatrixInstance {
    open spec fn spec_fields() -> Seq<VertexFormat> {
        seq![
            VertexFormat::Float32x4,
            VertexFormat::Float32x4,
            VertexFormat::Float32x4,
            VertexFormat::Float32x4,
        ]
    }

    open spec fn spec_words(&self) -> Seq<u32> {
        self.model_matrix_0@ + self.model_matrix_1@ + self.model_matrix_2@ + self.model_matrix_3@
    }

    proof fn lemma_words_fill_fields(&self) {
        lemma_model_matrix_field_offsets();
    }

    fn fields() -> (fields: Vec<VertexFormat>) {
        let mut fields: Vec<VertexFormat> = Vec::new();
        fields.push(VertexFormat::Float32x4);
        fields.push(VertexFormat::Float32x4);
        fields.push(VertexFormat::Float32x4);
        fields.push(VertexFormat::Float32x4);
        fields
    }

    fn size() -> (bytes: usize) {
        proof {
            lemma_model_matrix_field_offsets();
        }
        64
    }

    fn append_words(&self, out: &mut Vec<u32>) {
        append_array(out, &self.model_matrix_0);
        append_array(out, &self.model_matrix_1);
        append_array(out, &self.model_matrix_2);
        append_array(out, &self.model_matrix_3);
    }
}

impl GpuInstance for ModelMatrixInstance {
    open spec fn spec_desc() -> LayoutView {
        LayoutView {
            array_stride: 64,
            step_mode: InputStepMode::Instance,
            attributes: seq![
                VertexAttribute { format: VertexFormat::Float32x4, offset: 0, shader_location: 10 },
                VertexAttribute { format: VertexFormat::Float32x4, offset: 16, shader_location: 11 },
                VertexAttribute { format: VertexFormat::Float32x4, offset: 32, shader_location: 12 },
                VertexAttribute { format: VertexFormat::Float32x4, offset: 48, shader_location: 13 },
            ],
        }
    }

    fn desc() -> (layout: VertexBufferLayout) {
        let mut attributes: Vec<VertexAttribute> = Vec::new();
        attributes.push(
            VertexAttribute { format: VertexFormat::Float32x4, offset: 0, shader_location: 10 },
        );
        attributes.push(
            VertexAttribute { format: VertexFormat::Float32x4, offset: 16, shader_location: 11 },
        );
        attributes.push(
            VertexAttribute { format: VertexFormat::Float32x4, offset: 32, shader_location: 12 },
        );
        attributes.push(
            VertexAttribute { format: VertexFormat::Float32x4, offset: 48, shader_location: 13 },
        );
        assert(attributes@ == Self::spec_desc().attributes);
        VertexBufferLayout { array_stride: 64, step_mode: InputStepMode::Instance, attributes }
    }
}

/// The four columns start 0, 16, 32 and 48 bytes into the record, which is
/// 64 bytes long.
pub proof fn lemma_model_matrix_field_offsets()
    ensures
        field_offset(ModelMatrixInstance::spec_fields(), 0) == 0,
        field_offset(ModelMatrixInstance::spec_fields(), 1) == 16,
        field_offset(ModelMatrixInstance::spec_fields(), 2) == 32,
        field_offset(ModelMatrixInstance::spec_fields(), 3) == 48,
        field_offset(ModelMatrixInstance::spec_fields(), 4) == 64,
        formats_size(ModelMatrixInstance::spec_fields()) == 64,
{
    let fields = ModelMatrixInstance::spec_fields();
    lemma_field_offset_step(fields, 0);
    lemma_field_offset_step(fields, 1);
    lemma_field_offset_step(fields, 2);
    lemma_field_offset_step(fields, 3);
}

/// The fields of an instance record are the four columns of its matrix, in
/// their order.
pub proof fn lemma_model_matrix_fields(instance: ModelMatrixInstance)
    ensures
        field_words(ModelMatrixInstance::spec_fields(), instance.spec_words(), 0)
            == instance.model_matrix_0@,
        field_words(ModelMatrixInstance::spec_fields(), instance.spec_words(), 1)
            == instance.model_matrix_1@,
        field_words(ModelMatrixInstance::spec_fields(), instance.spec_words(), 2)
            == instance.model_matrix_2@,
        field_words(ModelMatrixInstance::spec_fields(), instance.spec_words(), 3)
            == instance.model_matrix_3@,
{
    lemma_model_matrix_field_offsets();
}

/// The descriptor of the instance record describes it: it steps per instance,
/// its slots are 10 to 13, one each, it has one attribute for each column, in
/// the column's format and at the column's offset, and the sizes of its
/// attributes add up to its stride, the 64 bytes of the record, with no byte
/// left over.
pub proof fn lemma_model_matrix_desc_describes_record()
    ensures
        formats_size(ModelMatrixInstance::spec_desc().formats())
            == ModelMatrixInstance::spec_desc().array_stride,
        ModelMatrixInstance::spec_desc().describes(
            InputStepMode::Instance,
            ModelMatrixInstance::spec_fields(),
        ),
{
    lemma_model_matrix_field_offsets();
    assert(ModelMatrixInstance::spec_desc().formats() == ModelMatrixInstance::spec_fields());
}

} // verus!
