//! The uniform record of one directional light.

use crate::bytes::{append_array, lemma_native_bytes_concat, native_bytes};
use crate::uniforms::AsStd140;
use vstd::prelude::*;

verus! {

/// A directional light: the matrix that places it, column-major, and its
/// colour. The shader reads the matrix first.
#[derive(Debug, Clone, Copy, PartialEq, Eq)]
pub struct DirectionalLightUniforms {
    pub model_matrix: [u32; 16],
    pub color: [u32; 4],
}

impl DirectionalLightUniforms {
    /// The uniform of a light with the given matrix and colour.
    pub fn new(model_matrix: [u32; 16], color: [u32; 4]) -> (uniform: Self)
        ensures
            uniform.model_matrix == model_matrix,
            uniform.color == color,
    {
        DirectionalLightUniforms { model_matrix, color }
    }
}

impl AsStd140 for DirectionalLightUniforms {
    /// 80 bytes: the model matrix at offset 0, the colour at offset 64.
    open spec fn spec_std140(&self) -> Seq<u32> {
        self.model_matrix@ + self.color@
    }

    proof fn lemma_std140_rows(&self) {
    }

    fn as_std140(&self) -> (words: Vec<u32>)
        ensures
            words@.len() == 20,
    {
        let mut words: Vec<u32> = Vec::new();
        append_array(&mut words, &self.model_matrix);
        append_array(&mut words, &self.color);
        words
    }
}

/// Where the shader finds the parts of a light uniform: the image is 80
/// bytes long, the matrix fills the first 64 of them and the colour the last
/// 16.
pub proof fn lemma_light_uniform_image(uniform: DirectionalLightUniforms)
    ensures
        native_bytes(uniform.spec_std140()).len() == 80,
        native_bytes(uniform.spec_std140()).subrange(0, 64) == native_bytes(uniform.model_matrix@),
        native_bytes(uniform.spec_std140()).subrange(64, 80) == native_bytes(uniform.color@),
{
    lemma_native_bytes_concat(uniform.model_matrix@, uniform.color@);
}

} // verus!
