//! The camera: a pose and a projection.

use crate::transform::{
    basis_column, is_unit_length, y_axis, DegenerateTransform, Handedness, Transform,
};
use vstd::prelude::*;

pub mod projection;

verus! {

/// A camera: its pose in the world and its projection `P`.
#[derive(Debug, PartialEq, Eq)]
pub struct BasicCamera<P> {
    pub transform: Transform,
    pub projection: P,
}

/// A view to compute: from `eye` towards `center`, with `up` upwards, by the
/// look-at construction of the given handedness.
#[derive(Debug, Clone, Copy, PartialEq, Eq)]
pub struct LookAt {
    pub handedness: Handedness,
    pub eye: [u32; 3],
    pub center: [u32; 3],
    pub up: [u32; 3],
}

impl<P> BasicCamera<P> {
    /// The camera with the given pose and projection.
    pub fn new(transform: Transform, camera_projection: P) -> (camera: Self)
        ensures
            camera.transform == transform,
            camera.projection == camera_projection,
    {
        BasicCamera { transform, projection: camera_projection }
    }

    /// The view that turns the camera towards `target`: from the camera's
    /// position towards the target's, with the camera's own second axis
    /// upwards, in the camera's own handedness. `matrix` is the matrix of the
    /// camera's pose and `product` is the triple product of its axes. A
    /// camera whose basis has no handedness cannot be turned. The camera
    /// itself is left as it is.
    pub fn focus_on_target(
        &self,
        target: &Transform,
        matrix: &[u32; 16],
        product: u32,
    ) -> (r: Result<LookAt, DegenerateTransform>)
        ensures
            (match (r, Handedness::of_triple_product(product)) {
                (Ok(look_at), Ok(handedness)) => {
                    &&& look_at.handedness == handedness
                    &&& look_at.eye == self.transform.spec_translation()
                    &&& look_at.center == target.spec_translation()
                    &&& look_at.up@ == basis_column(matrix@, 1)
                },
                (Err(e), Err(f)) => e == f,
                _ => false,
            }),
    {
        match Handedness::from_triple_product(product) {
            Err(e) => Err(e),
            Ok(handedness) => Ok(
                LookAt {
                    handedness,
                    eye: self.transform.translation(),
                    center: target.translation(),
                    up: y_axis(matrix),
                },
            ),
        }
    }

    /// Moves the camera. Nothing but its position changes.
    pub fn set_position(&mut self, position: [u32; 3])
        ensures
            final(self).transform.spec_translation() == position,
            final(self).transform.spec_rotation() == old(self).transform.spec_rotation(),
            final(self).transform.spec_rotation_length_squared() == old(
                self
            ).transform.spec_rotation_length_squared(),
            final(self).transform.spec_scale() == old(self).transform.spec_scale(),
            final(self).projection == old(self).projection,
    {
        self.transform.set_translation(position);
    }

    /// Turns the camera. `rotation_length_squared` is the squared length of
    /// the rotation, the sum of the squares of its four parts. A rotation of
    /// unit length is kept and nothing but the rotation changes. Any other
    /// rotation is refused, and the camera stays as it is.
    pub fn set_rotation(&mut self, rotation: [u32; 4], rotation_length_squared: u32) -> (r: Result<
        (),
        DegenerateTransform,
    >)
        ensures
            r is Ok <==> is_unit_length(rotation_length_squared),
            r is Ok ==> final(self).transform.spec_rotation() == rotation,
            r is Ok ==> final(self).transform.spec_rotation_length_squared()
                == rotation_length_squared,
            r matches Err(e) ==> e == DegenerateTransform::NotUnitRotation,
            r is Err ==> final(self).transform == old(self).transform,
            final(self).transform.spec_translation() == old(self).transform.spec_translation(),
            final(self).transform.spec_scale() == old(self).transform.spec_scale(),
            final(self).projection == old(self).projection,
    {
        self.transform.set_rotation(rotation, rotation_length_squared)
    }
}

} // verus!
