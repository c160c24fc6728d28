//! Drawable entities.

use crate::uniforms::instance_input::model_matrix::ModelMatrixInstance;
use crate::uniforms::model::ModelUniform;
use crate::uniforms::vertex_input::gltf_mesh_vertex::GltfMeshVertex;
use vstd::prelude::*;

verus! {

/// One static render unit: a model uniform and the lists of vertices,
/// indices and instances to draw with it. An entity borrows its data and
/// owns nothing on the GPU.
pub struct BasicEntity<'a> {
    pub model_uniforms: &'a ModelUniform,
    pub vertices: &'a Vec<GltfMeshVertex>,
    pub indices: &'a Vec<i32>,
    pub instances: &'a Vec<ModelMatrixInstance>,
}

impl<'a> BasicEntity<'a> {
    /// The entity of the given uniform and lists.
    pub fn new(
        model_uniforms: &'a ModelUniform,
        vertices: &'a Vec<GltfMeshVertex>,
        indices: &'a Vec<i32>,
        instances: &'a Vec<ModelMatrixInstance>,
    ) -> (entity: Self)
        ensures
            entity.model_uniforms == model_uniforms,
            entity.vertices == vertices,
            entity.indices == indices,
            entity.instances == instances,
    {
        BasicEntity { model_uniforms, vertices, indices, instances }
    }
}

} // verus!
