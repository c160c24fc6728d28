//! Per-vertex records.

use crate::layout::{LayoutView, Packed, VertexBufferLayout};
use vstd::prelude::*;

pub mod gltf_mesh_vertex;

verus! {

/// A record that is read once per vertex, with the descriptor of its layout.
pub trait GpuVertex: Packed {
    /// The descriptor of this record type, as a mathematical value.
    spec fn spec_desc() -> LayoutView;

    /// The descriptor of this record type.
    fn desc() -> (layout: VertexBufferLayout)
        ensures
            layout@ == Self::spec_desc(),
    ;
}

} // verus!
