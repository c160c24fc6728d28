//! The uniform record of one entity.

use crate::bytes::{append_array, native_bytes};
use crate::uniforms::AsStd140;
use vstd::prelude::*;

verus! {

/// The matrix that takes an entity's vertices from model space to world
/// space, column-major.
#[derive(Debug, Clone, Copy, PartialEq, Eq)]
pub struct ModelUniform {
    pub model_matrix: [u32; 16],
}

impl ModelUniform {
    /// The uniform of an entity with the given model matrix.
    pub fn new(model_matrix: [u32; 16]) -> (uniform: Self)
        ensures
            uniform.model_matrix == model_matrix,
    {
        ModelUniform { model_matrix }
    }
}

impl AsStd140 for ModelUniform {
    /// 64 bytes: the model matrix at offset 0.
    open spec fn spec_std140(&self) -> Seq<u32> {
        self.model_matrix@
    }

    proof fn lemma_std140_rows(&self) {
    }

    fn as_std140(&self) -> (words: Vec<u32>)
        ensures
            words@.len() == 16,
    {
        let mut words: Vec<u32> = Vec::new();
        append_array(&mut words, &self.model_matrix);
        words
    }
}

/// Where the shader finds the matrix of a model uniform: it is the whole
/// image, 64 bytes.
pub proof fn lemma_model_uniform_image(uniform: ModelUniform)
    ensures
        native_bytes(uniform.spec_std140()).len() == 64,
        native_bytes(uniform.spec_std140()) == native_bytes(uniform.model_matrix@),
{
}

} // verus!
