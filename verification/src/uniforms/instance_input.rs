//! Per-instance records.

use crate::layout::{LayoutView, Packed, VertexBufferLayout};
use vstd::prelude::*;

pub mod model_matrix;

verus! {

/// A record that is read once per instance, with the descriptor of its
/// layout.
pub trait GpuInstance: Packed {
    /// The descriptor of this record type, as a mathematical value.
    spec fn spec_desc() -> LayoutView;

    /// The descriptor of this record type.
    fn desc() -> (layout: VertexBufferLayout)
        ensures
            layout@ == Self::spec_desc(),
    ;
}

} // verus!
