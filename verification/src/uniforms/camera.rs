//! The camera's uniform record.

use crate::bytes::{append_array, lemma_native_bytes_concat, native_bytes};
use crate::uniforms::AsStd140;
use vstd::prelude::*;

verus! {

/// The matrices that take a vertex from world space to clip space. Both are
/// column-major; the shader reads the view matrix first.
#[derive(Debug, Clone, Copy, PartialEq, Eq)]
pub struct CameraUniform {
    pub view_matrix: [u32; 16],
    pub projection_matrix: [u32; 16],
}

impl CameraUniform {
    /// The uniform of a camera with the given view and projection matrix.
    pub fn new(view_matrix: [u32; 16], projection_matrix: [u32; 16]) -> (uniform: Self)
        ensures
            uniform.view_matrix == view_matrix,
            uniform.projection_matrix == projection_matrix,
    {
        CameraUniform { view_matrix, projection_matrix }
    }
}

impl AsStd140 for CameraUniform {
    /// 128 bytes: the view matrix at offset 0, the projection matrix at
    /// offset 64.
    open spec fn spec_std140(&self) -> Seq<u32> {
        self.view_matrix@ + self.projection_matrix@
    }

    proof fn lemma_std140_rows(&self) {
    }

    fn as_std140(&self) -> (words: Vec<u32>)
        ensures
            words@.len() == 32,
    {
        let mut words: Vec<u32> = Vec::new();
        append_array(&mut words, &self.view_matrix);
        append_array(&mut words, &self.projection_matrix);
        words
    }
}

/// Where the shader finds the matrices of a camera uniform: the image is 128
/// bytes long, the view matrix fills the first 64 of them and the projection
/// matrix the other 64.
pub proof fn lemma_camera_uniform_image(uniform: CameraUniform)
    ensures
        native_bytes(uniform.spec_std140()).len() == 128,
        native_bytes(uniform.spec_std140()).subrange(0, 64) == native_bytes(uniform.view_matrix@),
        native_bytes(uniform.spec_std140()).subrange(64, 128) == native_bytes(
            uniform.projection_matrix@,
        ),
{
    lemma_native_bytes_concat(uniform.view_matrix@, uniform.projection_matrix@);
}

} // verus!
