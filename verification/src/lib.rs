//! Core of a small real-time 3D renderer: poses, cameras and the handedness
//! of their bases, byte-exact vertex, instance and uniform buffer layouts,
//! and the plan of GPU resources and draw commands that a frame is made of.
//!
//! Every 32-bit float that passes through this crate is held as its IEEE 754
//! bit pattern, a `u32`. The crate compares such values, changes their sign
//! and places them in buffers; it does no other arithmetic on them. The
//! matrices of poses, cameras and projections, and the lengths of rotations,
//! are computed by the host and handed in.

pub mod bytes;
pub mod camera;
pub mod entity;
pub mod floats;
pub mod layout;
pub mod pipeline;
pub mod scene;
pub mod transform;
pub mod uniforms;
