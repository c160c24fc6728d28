//! The records that go to the GPU: uniforms in the standard uniform layout,
//! vertices and instances as packed words.

use vstd::prelude::*;

pub mod camera;
pub mod directional_light;
pub mod instance_input;
pub mod model;
pub mod vertex_input;

verus! {

/// A record with an image in the standard uniform layout (`std140`): its
/// fields in declaration order, a 4×4 matrix column after column, each
/// 4-vector and each column of a matrix on a 16-byte boundary, and a size
/// that is a multiple of 16 bytes.
pub trait AsStd140 {
    /// The image of this record, as a mathematical value.
    spec fn spec_std140(&self) -> Seq<u32>;

    /// The image takes a whole number of 16-byte rows.
    proof fn lemma_std140_rows(&self)
        ensures
            self.spec_std140().len() % 4 == 0,
    ;

    /// The image of this record, as 32-bit words.
    fn as_std140(&self) -> (words: Vec<u32>)
        ensures
            words@ == self.spec_std140(),
    ;
}

} // verus!
