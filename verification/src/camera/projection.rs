//! Projections from camera space to clip space.

use crate::floats::{finite, is_finite, ONE};
use crate::transform::Handedness;
use vstd::prelude::*;

verus! {

/// The float `π / 4`.
pub const QUARTER_TURN: u32 = 0x3f49_0fdb;

/// The float `1000.0`.
pub const THOUSAND: u32 = 0x447a_0000;

/// Why a projection cannot take a viewport.
#[derive(Debug, Clone, Copy, PartialEq, Eq, Structural)]
pub enum ProjectionError {
    /// The aspect ratio is infinite or no number, as that of a viewport
    /// without height is.
    DegenerateAspectRatio,
}

/// A perspective projection: the handedness of the space it projects, the
/// vertical field of view in radians, the ratio of the viewport's width to
/// its height, and the two clip planes.
#[derive(Debug, Clone, Copy, PartialEq, Eq)]
pub struct PerspectiveProjection {
    pub handedness: Handedness,
    pub fov: u32,
    pub aspect_ratio: u32,
    pub near: u32,
    pub far: u32,
}

impl PerspectiveProjection {
    /// The projection with the given parts, kept as they are given.
    pub fn new(handedness: Handedness, fov: u32, aspect_ratio: u32, near: u32, far: u32) -> (projection:
        Self)
        ensures
            projection.handedness == handedness,
            projection.fov == fov,
            projection.aspect_ratio == aspect_ratio,
            projection.near == near,
            projection.far == far,
    {
        PerspectiveProjection { handedness, fov, aspect_ratio, near, far }
    }

    /// Takes the aspect ratio of a new viewport, its width divided by its
    /// height. Nothing else of the projection changes. A ratio that is
    /// infinite or no number is refused, and the projection stays as it is.
    pub fn set_aspect_ratio(&mut self, aspect_ratio: u32) -> (r: Result<(), ProjectionError>)
        ensures
            r is Ok <==> is_finite(aspect_ratio),
            r is Ok ==> final(self).aspect_ratio == aspect_ratio,
            r is Err ==> final(self).aspect_ratio == old(self).aspect_ratio,
            final(self).handedness == old(self).handedness,
            final(self).fov == old(self).fov,
            final(self).near == old(self).near,
            final(self).far == old(self).far,
    {
        if !finite(aspect_ratio) {
            return Err(ProjectionError::DegenerateAspectRatio);
        }
        self.aspect_ratio = aspect_ratio;
        Ok(())
    }
}

impl Default for PerspectiveProjection {
    /// A right-handed projection with a field of view of `π / 4`, a square
    /// viewport, and clip planes at 1 and 1000.
    fn default() -> (projection: Self)
        ensures
            projection.handedness == Handedness::Right,
            projection.fov == QUARTER_TURN,
            projection.aspect_ratio == ONE,
            projection.near == ONE,
            projection.far == THOUSAND,
    {
        PerspectiveProjection {
            fov: QUARTER_TURN,
            near: ONE,
            far: THOUSAND,
            aspect_ratio: ONE,
            handedness: Handedness::Right,
        }
    }
}

} // verus!
