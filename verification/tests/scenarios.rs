use glam::{Mat4, Quat, Vec3};
use render_core::camera::projection::PerspectiveProjection;
use render_core::camera::BasicCamera;
use render_core::camera::LookAt;
use render_core::transform::{
    conjugate, invertible, is_identity, x_axis, y_axis, z_axis, DegenerateTransform, Handedness,
    Transform,
};

fn floats<const N: usize>(bits: [u32; N]) -> [f32; N] {
    bits.map(f32::from_bits)
}

fn bits<const N: usize>(floats: [f32; N]) -> [u32; N] {
    floats.map(f32::to_bits)
}

fn pose(translation: [f32; 3], rotation: Quat, scale: [f32; 3]) -> Transform {
    Transform::new(
        bits(translation),
        bits(<[f32; 4]>::from(rotation)),
        rotation.length_squared().to_bits(),
        bits(scale),
    )
    .unwrap()
}

fn matrix(transform: &Transform) -> Mat4 {
    Mat4::from_scale_rotation_translation(
        Vec3::from(floats(transform.scale())),
        Quat::from_array(floats(transform.rotation())),
        Vec3::from(floats(transform.translation())),
    )
}

/// The rotation that turns a camera as a look-at asks: the inverse of the
/// rotation of the look-at matrix.
fn rotation_towards(look_at: &LookAt) -> Quat {
    let eye = Vec3::from(floats(look_at.eye));
    let center = Vec3::from(floats(look_at.center));
    let up = Vec3::from(floats(look_at.up));
    let view = match look_at.handedness {
        Handedness::Right => Mat4::look_at_rh(eye, center, up),
        Handedness::Left => Mat4::look_at_lh(eye, center, up),
    };
    let of_view = <[f32; 4]>::from(Quat::from_mat4(&view));
    Quat::from_array(floats(conjugate(bits(of_view))))
}

fn matrix_bits(transform: &Transform) -> [u32; 16] {
    bits(matrix(transform).to_cols_array())
}

fn triple_product(transform: &Transform) -> u32 {
    let m = matrix_bits(transform);
    let x = Vec3::from(floats(x_axis(&m)));
    let y = Vec3::from(floats(y_axis(&m)));
    let z = Vec3::from(floats(z_axis(&m)));
    x.cross(y).dot(z).to_bits()
}

fn handedness(transform: &Transform) -> Result<Handedness, DegenerateTransform> {
    Handedness::from_triple_product(triple_product(transform))
}

#[test]
fn default_transform_is_the_identity_and_right_handed() {
    let transform = Transform::default();
    assert_eq!(matrix(&transform), Mat4::IDENTITY);
    assert_eq!(handedness(&transform), Ok(Handedness::Right));
}

#[test]
fn handedness_is_the_same_at_every_call() {
    let turned = pose([3.0, -2.0, 7.5], Quat::from_rotation_y(1.25), [2.0, 0.5, 4.0]);
    let first = handedness(&turned);
    assert_eq!(first, Ok(Handedness::Right));
    assert_eq!(handedness(&turned), first);
    assert_eq!(handedness(&turned), first);
}

#[test]
fn mirrored_transform_is_left_handed() {
    let mirrored = pose([0.0; 3], Quat::IDENTITY, [1.0, 1.0, -1.0]);
    assert_eq!(handedness(&mirrored), Ok(Handedness::Left));
}

#[test]
fn flattened_transform_has_no_handedness() {
    let flat = pose([0.0; 3], Quat::IDENTITY, [1.0, 0.0, 1.0]);
    assert_eq!(handedness(&flat), Err(DegenerateTransform::DependentAxes));
}

#[test]
fn handedness_is_lost_where_the_triple_product_underflows() {
    let tiny = pose([0.0; 3], Quat::IDENTITY, [1.0e-20, 1.0e-20, 1.0e-20]);
    assert_eq!(handedness(&tiny), Err(DegenerateTransform::DependentAxes));
}

#[test]
fn transform_that_is_no_number_has_no_handedness() {
    let broken = pose([0.0; 3], Quat::IDENTITY, [f32::NAN, 1.0, 1.0]);
    assert_eq!(handedness(&broken), Err(DegenerateTransform::UndefinedAxes));
}

fn turned_towards(eye: Vec3, center: Vec3) -> Vec3 {
    let mut camera = BasicCamera::new(
        pose(eye.to_array(), Quat::IDENTITY, [1.0; 3]),
        PerspectiveProjection::default(),
    );
    let target = pose(center.to_array(), Quat::IDENTITY, [1.0; 3]);

    let look_at = camera
        .focus_on_target(
            &target,
            &matrix_bits(&camera.transform),
            triple_product(&camera.transform),
        )
        .unwrap();
    assert_eq!(look_at.handedness, Handedness::Right);
    assert_eq!(floats(look_at.eye), eye.to_array());
    assert_eq!(floats(look_at.center), center.to_array());
    assert_eq!(floats(look_at.up), [0.0, 1.0, 0.0]);

    let rotation = rotation_towards(&look_at);
    assert_eq!(
        camera.set_rotation(
            bits(<[f32; 4]>::from(rotation)),
            rotation.length_squared().to_bits()
        ),
        Ok(())
    );
    assert_eq!(floats(camera.transform.translation()), eye.to_array());

    // The forward axis of a right-handed camera is its third axis, backwards.
    let axis = Vec3::from(floats(z_axis(&matrix_bits(&camera.transform))));
    -axis
}

#[test]
fn camera_on_the_z_axis_turns_towards_the_origin() {
    let eye = Vec3::new(0.0, 0.0, 5.0);
    let center = Vec3::new(0.0, 0.0, 0.0);
    let forward = turned_towards(eye, center);
    assert!(forward.abs_diff_eq((center - eye).normalize(), 1.0e-6));
    assert!(forward.abs_diff_eq(Vec3::new(0.0, 0.0, -1.0), 1.0e-6));
}

#[test]
fn camera_turns_towards_a_target_off_its_axis() {
    let eye = Vec3::new(0.0, 0.0, 5.0);
    let center = Vec3::new(5.0, 0.0, 0.0);
    let forward = turned_towards(eye, center);
    assert!(forward.abs_diff_eq((center - eye).normalize(), 1.0e-6));
    assert!(forward.x > 0.7 && forward.z < -0.7);
}

#[test]
fn camera_turns_towards_a_target_above_and_behind() {
    let eye = Vec3::new(1.0, 2.0, 3.0);
    let center = Vec3::new(-4.0, 6.0, 9.0);
    let forward = turned_towards(eye, center);
    assert!(forward.abs_diff_eq((center - eye).normalize(), 1.0e-6));
}

#[test]
fn rotation_that_cannot_be_brought_to_unit_length_is_refused() {
    let mut camera =
        BasicCamera::new(pose([0.0; 3], Quat::IDENTITY, [1.0; 3]), PerspectiveProjection::default());
    let zero = Quat::from_array([0.0; 4]);
    let brought = zero.normalize();
    assert_eq!(
        camera.set_rotation(bits(<[f32; 4]>::from(brought)), brought.length_squared().to_bits()),
        Err(DegenerateTransform::NotUnitRotation)
    );
    assert_eq!(camera.transform, Transform::default());
    let long = Quat::from_array([0.0, 3.0, 0.0, 4.0]);
    assert_eq!(
        camera.set_rotation(bits(<[f32; 4]>::from(long)), long.length_squared().to_bits()),
        Err(DegenerateTransform::NotUnitRotation)
    );
    let brought = long.normalize();
    assert_eq!(
        camera.set_rotation(bits(<[f32; 4]>::from(brought)), brought.length_squared().to_bits()),
        Ok(())
    );
    assert_eq!(floats(camera.transform.rotation()), <[f32; 4]>::from(brought));
}

fn projection(projection: &PerspectiveProjection) -> Mat4 {
    let fov = f32::from_bits(projection.fov);
    let aspect_ratio = f32::from_bits(projection.aspect_ratio);
    let near = f32::from_bits(projection.near);
    let far = f32::from_bits(projection.far);
    match projection.handedness {
        Handedness::Right => Mat4::perspective_rh(fov, aspect_ratio, near, far),
        Handedness::Left => Mat4::perspective_lh(fov, aspect_ratio, near, far),
    }
}

fn is_orthonormal(transform: &Transform) -> bool {
    let m = matrix(transform);
    is_identity(&bits((m * m.transpose()).to_cols_array()))
}

#[test]
fn matrix_moves_the_origin_to_the_translation() {
    let rotations = [Quat::IDENTITY, Quat::from_rotation_x(0.3), Quat::from_rotation_z(-2.0)];
    let scales = [[1.0, 1.0, 1.0], [2.0, 0.5, 3.0], [-1.0, 4.0, 0.25]];
    for rotation in rotations {
        for scale in scales {
            let transform = pose([1.5, -2.0, 8.0], rotation, scale);
            let moved = matrix(&transform).transform_point3(Vec3::ZERO);
            assert_eq!(moved.to_array(), [1.5, -2.0, 8.0]);
        }
    }
}

#[test]
fn matrix_scales_before_it_rotates() {
    // A quarter turn about z takes x to y: the scale of 2 along x ends up along y.
    let transform =
        pose([0.0; 3], Quat::from_rotation_z(std::f32::consts::FRAC_PI_2), [2.0, 1.0, 1.0]);
    let moved = matrix(&transform).transform_point3(Vec3::new(1.0, 0.0, 0.0));
    assert!(moved.abs_diff_eq(Vec3::new(0.0, 2.0, 0.0), 1.0e-6));
}

#[test]
fn unit_scale_and_unit_rotation_are_orthonormal() {
    for rotation in [Quat::IDENTITY, Quat::from_rotation_y(0.7), Quat::from_rotation_x(-1.9)] {
        let transform = pose([0.0; 3], rotation, [1.0; 3]);
        assert!(is_orthonormal(&transform));
    }
}

#[test]
fn translation_is_not_orthonormal() {
    let moved = pose([0.0, 3.0, 0.0], Quat::IDENTITY, [1.0; 3]);
    assert!(!is_orthonormal(&moved));
}

#[test]
fn uneven_scale_is_not_orthonormal() {
    let transform = pose([0.0; 3], Quat::from_rotation_y(0.7), [2.0, 1.0, 0.5]);
    assert!(!is_orthonormal(&transform));
}

#[test]
fn view_matrix_undoes_the_matrix_of_the_camera() {
    let camera = BasicCamera::new(
        pose([1.0, 2.0, 5.0], Quat::from_rotation_y(0.4), [1.0; 3]),
        PerspectiveProjection::default(),
    );
    let model = matrix(&camera.transform);
    assert_eq!(invertible(model.determinant().to_bits()), Ok(()));
    let view = model.inverse();
    assert!(is_identity(&bits((view * model).to_cols_array())));
}

#[test]
fn flattened_camera_has_no_view_matrix() {
    let flat = pose([0.0; 3], Quat::IDENTITY, [1.0, 1.0, 0.0]);
    assert_eq!(
        invertible(matrix(&flat).determinant().to_bits()),
        Err(DegenerateTransform::SingularMatrix)
    );
}

#[test]
fn handedness_of_a_projection_flips_the_depth_terms_only() {
    let right = PerspectiveProjection::default();
    let left = PerspectiveProjection::new(
        Handedness::Left,
        right.fov,
        right.aspect_ratio,
        right.near,
        right.far,
    );
    let right = projection(&right).to_cols_array();
    let left = projection(&left).to_cols_array();
    for i in 0..16 {
        if i == 10 || i == 11 {
            assert_eq!(left[i], -right[i]);
            assert!(left[i] > 0.0);
        } else {
            assert_eq!(left[i], right[i]);
        }
    }
}
