//! Poses, the handedness of their bases, and what is decided of the matrices
//! that are computed from them.

use crate::floats::{
    compare_with_zero, float_le, le, negate, negated, sign_of, INFINITY, ONE, SIGN_BIT, ZERO,
};
use core::cmp::Ordering;
use vstd::prelude::*;

verus! {

/// The two sign conventions of a three-dimensional basis.
#[derive(Debug, Clone, Copy, PartialEq, Eq, Structural)]
pub enum Handedness {
    /// `+X` right, `+Y` up, `+Z` forward.
    Left,
    /// `+X` right, `+Y` up, `+Z` back.
    Right,
}

/// Why a pose cannot be used.
#[derive(Debug, Clone, Copy, PartialEq, Eq, Structural)]
pub enum DegenerateTransform {
    /// The triple product of the axes is zero: they are not linearly
    /// independent.
    DependentAxes,
    /// The triple product of the axes is no number.
    UndefinedAxes,
    /// The determinant of the matrix is zero or no number: the matrix has no
    /// inverse.
    SingularMatrix,
    /// The rotation is not of unit length.
    NotUnitRotation,
}

/// The float `1.0 - 1.0e-4`: the least squared length of a rotation that
/// counts as of unit length.
pub const UNIT_LENGTH_LOW: u32 = 0x3f7f_f972;

/// The float `1.0 + 1.0e-4`: the greatest squared length of a rotation that
/// counts as of unit length.
pub const UNIT_LENGTH_HIGH: u32 = 0x3f80_0347;

/// A pose: where something is, how it is turned, and how large it is. The
/// rotation is a quaternion with its real part last, and it is kept together
/// with the squared length that it was measured to have, which is always
/// that of a unit rotation. The matrix of a pose scales first, then rotates,
/// then translates.
#[derive(Debug, Clone, Copy, PartialEq, Eq)]
pub struct Transform {
    translation: [u32; 3],
    rotation: [u32; 4],
    rotation_length_squared: u32,
    scale: [u32; 3],
}

/// Whether a squared length is that of a unit rotation: one, up to the
/// tolerance.
pub open spec fn is_unit_length(length_squared: u32) -> bool {
    float_le(UNIT_LENGTH_LOW, length_squared) && float_le(length_squared, UNIT_LENGTH_HIGH)
}

/// Whether a squared length is that of a unit rotation.
pub fn unit_length(length_squared: u32) -> (r: bool)
    ensures
        r == is_unit_length(length_squared),
{
    le(UNIT_LENGTH_LOW, length_squared) && le(length_squared, UNIT_LENGTH_HIGH)
}

/// The conjugate of a rotation: its first three parts with the other sign,
/// its real part as it is.
pub open spec fn conjugated(rotation: Seq<u32>) -> Seq<u32> {
    seq![negated(rotation[0]), negated(rotation[1]), negated(rotation[2]), rotation[3]]
}

/// The inverse of a unit rotation, which is its conjugate. A look-at matrix
/// turns the world towards the camera; the camera is turned by the inverse of
/// the matrix's rotation.
pub fn conjugate(rotation: [u32; 4]) -> (r: [u32; 4])
    ensures
        r@ == conjugated(rotation@),
{
    [negate(rotation[0]), negate(rotation[1]), negate(rotation[2]), rotation[3]]
}

/// The first three entries of column `column` of a column-major 4×4 matrix.
pub open spec fn basis_column(matrix: Seq<u32>, column: int) -> Seq<u32> {
    matrix.subrange(4 * column, 4 * column + 3)
}

fn column(matrix: &[u32; 16], index: usize) -> (axis: [u32; 3])
    requires
        index < 4,
    ensures
        axis@ == basis_column(matrix@, index as int),
{
    let axis: [u32; 3] = [matrix[4 * index], matrix[4 * index + 1], matrix[4 * index + 2]];
    axis
}

/// The first basis axis of a pose, read from its matrix.
pub fn x_axis(matrix: &[u32; 16]) -> (axis: [u32; 3])
    ensures
        axis@ == basis_column(matrix@, 0),
{
    column(matrix, 0)
}

/// The second basis axis of a pose, read from its matrix.
pub fn y_axis(matrix: &[u32; 16]) -> (axis: [u32; 3])
    ensures
        axis@ == basis_column(matrix@, 1),
{
    column(matrix, 1)
}

/// The third basis axis of a pose, read from its matrix.
pub fn z_axis(matrix: &[u32; 16]) -> (axis: [u32; 3])
    ensures
        axis@ == basis_column(matrix@, 2),
{
    column(matrix, 2)
}

/// The float `1.0e-6`: how far an entry of a matrix may be from the entry of
/// the identity and still count as equal to it.
pub const TOLERANCE: u32 = 0x3586_37bd;

/// The float `-1.0e-6`.
pub const MINUS_TOLERANCE: u32 = 0xb586_37bd;

/// The float `1.0 - 1.0e-6`.
pub const ONE_LESS_TOLERANCE: u32 = 0x3f7f_ffef;

/// The float `1.0 + 1.0e-6`.
pub const ONE_MORE_TOLERANCE: u32 = 0x3f80_0008;

/// Whether entry `entry` of a column-major 4×4 matrix, which holds `value`,
/// is the entry of the identity up to the tolerance: one on the diagonal, and
/// zero off it.
pub open spec fn near_identity_entry(entry: int, value: u32) -> bool {
    if entry % 5 == 0 {
        float_le(ONE_LESS_TOLERANCE, value) && float_le(value, ONE_MORE_TOLERANCE)
    } else {
        float_le(MINUS_TOLERANCE, value) && float_le(value, TOLERANCE)
    }
}

/// Whether a 4×4 matrix is the identity up to the tolerance, entry by entry.
pub open spec fn near_identity(matrix: Seq<u32>) -> bool {
    forall|entry: int| 0 <= entry < 16 ==> near_identity_entry(entry, #[trigger] matrix[entry])
}

/// Whether a 4×4 matrix is the identity up to the tolerance. A pose is
/// orthonormal when the product of its matrix and the transpose of its matrix
/// is.
pub fn is_identity(matrix: &[u32; 16]) -> (r: bool)
    ensures
        r == near_identity(matrix@),
{
    let mut entry: usize = 0;
    while entry < 16
        invariant
            entry <= 16,
            forall|e: int| 0 <= e < entry ==> near_identity_entry(e, #[trigger] matrix@[e]),
        decreases 16 - entry,
    {
        let value: u32 = matrix[entry];
        let near: bool = if entry % 5 == 0 {
            le(ONE_LESS_TOLERANCE, value) && le(value, ONE_MORE_TOLERANCE)
        } else {
            le(MINUS_TOLERANCE, value) && le(value, TOLERANCE)
        };
        if !near {
            return false;
        }
        entry = entry + 1;
    }
    true
}

/// Whether a matrix can be inverted, given its determinant: it can unless
/// the determinant is zero or no number.
pub open spec fn inverse_exists(determinant: u32) -> Result<(), DegenerateTransform> {
    match sign_of(determinant) {
        Some(Ordering::Less) => Ok(()),
        Some(Ordering::Greater) => Ok(()),
        Some(Ordering::Equal) => Err(DegenerateTransform::SingularMatrix),
        None => Err(DegenerateTransform::SingularMatrix),
    }
}

/// Refuses the inversion of a matrix whose determinant is zero or no number.
pub fn invertible(determinant: u32) -> (r: Result<(), DegenerateTransform>)
    ensures
        r == inverse_exists(determinant),
{
    match compare_with_zero(determinant) {
        Some(Ordering::Less) => Ok(()),
        Some(Ordering::Greater) => Ok(()),
        Some(Ordering::Equal) => Err(DegenerateTransform::SingularMatrix),
        None => Err(DegenerateTransform::SingularMatrix),
    }
}

impl Transform {
    /// Every pose holds a squared length of its rotation that is one, up to
    /// the tolerance.
    #[verifier::type_invariant]
    spec fn rotation_is_unit(self) -> bool {
        is_unit_length(self.rotation_length_squared)
    }

    /// Where the pose is.
    pub closed spec fn spec_translation(self) -> [u32; 3] {
        self.translation
    }

    /// How the pose is turned.
    pub closed spec fn spec_rotation(self) -> [u32; 4] {
        self.rotation
    }

    /// The squared length that the rotation was measured to have.
    pub closed spec fn spec_rotation_length_squared(self) -> u32 {
        self.rotation_length_squared
    }

    /// How large the pose is along each axis.
    pub closed spec fn spec_scale(self) -> [u32; 3] {
        self.scale
    }

    /// The pose with the given parts. `rotation_length_squared` is the
    /// squared length of the rotation, the sum of the squares of its four
    /// parts. A rotation that is not of unit length is refused.
    pub fn new(
        translation: [u32; 3],
        rotation: [u32; 4],
        rotation_length_squared: u32,
        scale: [u32; 3],
    ) -> (r: Result<Self, DegenerateTransform>)
        ensures
            r is Ok <==> is_unit_length(rotation_length_squared),
            r matches Ok(transform) ==> transform.spec_translation() == translation
                && transform.spec_rotation() == rotation
                && transform.spec_rotation_length_squared() == rotation_length_squared
                && transform.spec_scale() == scale,
            r matches Err(e) ==> e == DegenerateTransform::NotUnitRotation,
    {
        if !unit_length(rotation_length_squared) {
            return Err(DegenerateTransform::NotUnitRotation);
        }
        Ok(Transform { translation, rotation, rotation_length_squared, scale })
    }

    /// Where the pose is.
    pub fn translation(&self) -> (translation: [u32; 3])
        ensures
            translation == self.spec_translation(),
    {
        self.translation
    }

    /// How the pose is turned.
    pub fn rotation(&self) -> (rotation: [u32; 4])
        ensures
            rotation == self.spec_rotation(),
    {
        self.rotation
    }

    /// The squared length that the rotation was measured to have: one, up to
    /// the tolerance, in every pose.
    pub fn rotation_length_squared(&self) -> (length_squared: u32)
        ensures
            length_squared == self.spec_rotation_length_squared(),
            is_unit_length(length_squared),
    {
        proof {
            use_type_invariant(self);
        }
        self.rotation_length_squared
    }

    /// How large the pose is along each axis.
    pub fn scale(&self) -> (scale: [u32; 3])
        ensures
            scale == self.spec_scale(),
    {
        self.scale
    }

    /// Moves the pose. Nothing but its translation changes.
    pub fn set_translation(&mut self, translation: [u32; 3])
        ensures
            final(self).spec_translation() == translation,
            final(self).spec_rotation() == old(self).spec_rotation(),
            final(self).spec_rotation_length_squared() == old(
                self
            ).spec_rotation_length_squared(),
            final(self).spec_scale() == old(self).spec_scale(),
    {
        proof {
            use_type_invariant(&*self);
        }
        self.translation = translation;
    }

    /// Turns the pose. `rotation_length_squared` is the squared length of
    /// the rotation. A rotation of unit length is kept, with its squared
    /// length, and nothing else changes. Any other rotation is refused, and
    /// the pose stays as it is.
    pub fn set_rotation(&mut self, rotation: [u32; 4], rotation_length_squared: u32) -> (r: Result<
        (),
        DegenerateTransform,
    >)
        ensures
            r is Ok <==> is_unit_length(rotation_length_squared),
            r is Ok ==> final(self).spec_rotation() == rotation
                && final(self).spec_rotation_length_squared() == rotation_length_squared,
            r matches Err(e) ==> e == DegenerateTransform::NotUnitRotation,
            r is Err ==> *final(self) == *old(self),
            final(self).spec_translation() == old(self).spec_translation(),
            final(self).spec_scale() == old(self).spec_scale(),
    {
        if !unit_length(rotation_length_squared) {
            return Err(DegenerateTransform::NotUnitRotation);
        }
        *self = Transform {
            translation: self.translation,
            rotation,
            rotation_length_squared,
            scale: self.scale,
        };
        Ok(())
    }
}

impl Default for Transform {
    /// The pose that changes nothing: no translation, the identity rotation
    /// and a scale of one along each axis.
    fn default() -> (transform: Self)
        ensures
            transform.spec_translation()@ == seq![ZERO, ZERO, ZERO],
            transform.spec_rotation()@ == seq![ZERO, ZERO, ZERO, ONE],
            transform.spec_rotation_length_squared() == ONE,
            transform.spec_scale()@ == seq![ONE, ONE, ONE],
    {
        Transform {
            translation: [ZERO, ZERO, ZERO],
            rotation: [ZERO, ZERO, ZERO, ONE],
            rotation_length_squared: ONE,
            scale: [ONE, ONE, ONE],
        }
    }
}

impl Handedness {
    /// The sign of the triple product of a basis of this handedness.
    pub open spec fn spec_sign(self) -> int {
        match self {
            Handedness::Left => -1,
            Handedness::Right => 1,
        }
    }

    /// `-1` for a left-handed basis, `1` for a right-handed one.
    pub fn sign(&self) -> (s: i8)
        ensures
            s == self.spec_sign(),
    {
        match self {
            Handedness::Left => -1,
            Handedness::Right => 1,
        }
    }

    /// The handedness of a basis whose axes have the triple product
    /// `product`: left for a negative product, right for a positive one,
    /// and none for a product that is zero or no number.
    pub open spec fn of_triple_product(product: u32) -> Result<Handedness, DegenerateTransform> {
        match sign_of(product) {
            Some(Ordering::Less) => Ok(Handedness::Left),
            Some(Ordering::Greater) => Ok(Handedness::Right),
            Some(Ordering::Equal) => Err(DegenerateTransform::DependentAxes),
            None => Err(DegenerateTransform::UndefinedAxes),
        }
    }

    /// Classifies a basis by the triple product of its axes, which is the
    /// product of the third axis with the cross product of the first two. A
    /// zero product and one that is no number are both refused, each with its
    /// own error.
    pub fn from_triple_product(product: u32) -> (r: Result<Handedness, DegenerateTransform>)
        ensures
            r == Self::of_triple_product(product),
    {
        match compare_with_zero(product) {
            Some(Ordering::Less) => Ok(Handedness::Left),
            Some(Ordering::Greater) => Ok(Handedness::Right),
            Some(Ordering::Equal) => Err(DegenerateTransform::DependentAxes),
            None => Err(DegenerateTransform::UndefinedAxes),
        }
    }
}

/// A basis has a handedness exactly when the triple product of its axes is a
/// number other than zero, and the handedness is then the sign of the
/// product: left for the negative numbers, right for the positive ones.
pub proof fn lemma_handedness_is_the_sign(product: u32)
    ensures
        Handedness::of_triple_product(product) is Ok <==> (product % SIGN_BIT != 0 && product
            % SIGN_BIT <= INFINITY),
        Handedness::of_triple_product(product) == Ok::<Handedness, DegenerateTransform>(
            Handedness::Left,
        ) <==> (SIGN_BIT < product <= SIGN_BIT + INFINITY),
        Handedness::of_triple_product(product) == Ok::<Handedness, DegenerateTransform>(
            Handedness::Right,
        ) <==> (0 < product <= INFINITY),
        Handedness::of_triple_product(product) matches Ok(handedness) ==> (handedness.spec_sign()
            < 0 <==> product >= SIGN_BIT),
{
}

} // verus!
