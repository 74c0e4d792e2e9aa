use gizmo3d::camera::Camera;
use gizmo3d::components::TransformComponent;
use gizmo3d::fx::{fxdiv, fxmul, FX_SAT};
use gizmo3d::mat4::Mat4;
use gizmo3d::vec3::{Quat, Vec3};
use gizmo3d::SCALE;

#[test]
fn fixed_point_products_and_quotients() {
    assert_eq!(fxmul(2 * SCALE, 3 * SCALE), 6 * SCALE);
    assert_eq!(fxmul(-2 * SCALE, 3 * SCALE), -6 * SCALE);
    assert_eq!(fxdiv(SCALE, 2 * SCALE), SCALE / 2);
    // a third of the smallest unit truncates toward zero
    assert_eq!(fxdiv(1, 3), 21845);
    assert_eq!(fxdiv(-1, 3), -21845);
    // the product of two huge values saturates instead of wrapping
    assert_eq!(fxmul(FX_SAT, FX_SAT), FX_SAT);
    assert_eq!(fxmul(-FX_SAT, FX_SAT), -FX_SAT);
}

#[test]
fn vector_length_of_a_pythagorean_triple() {
    assert_eq!(Vec3::new(3 * SCALE, 4 * SCALE, 0).norm(), 5 * SCALE);
}

#[test]
fn normalizing_an_axis_multiple_gives_the_axis() {
    let v = Vec3::new(0, 0, -5 * SCALE).normalized();
    assert_eq!(v, Vec3::new(0, 0, -SCALE));
    let zero = Vec3::new(0, 0, 0).normalized();
    assert_eq!(zero, Vec3::new(0, 0, 0));
}

#[test]
fn cross_products_of_the_axes() {
    let x = Vec3::new(SCALE, 0, 0);
    let y = Vec3::new(0, SCALE, 0);
    let z = Vec3::new(0, 0, SCALE);
    assert_eq!(x.cross(&y), z);
    assert_eq!(y.cross(&z), x);
    assert_eq!(y.cross(&x), Vec3::new(0, 0, -SCALE));
    assert_eq!(x.dot(&y), 0);
    assert_eq!(x.dot(&x), SCALE);
}

#[test]
fn quaternion_normalization_rescales() {
    let q = Quat::new(0, 0, 0, 2 * SCALE).normalized();
    assert_eq!(q, Quat::new(0, 0, 0, SCALE));
}

#[test]
fn identity_transform_has_identity_matrix() {
    let t = TransformComponent::new(
        Vec3::new(0, 0, 0),
        Quat::identity(),
        Vec3::new(SCALE, SCALE, SCALE),
    );
    assert_eq!(t.mat4(), Mat4::identity());
}

#[test]
fn translation_lands_in_the_last_column() {
    let t = TransformComponent::new(
        Vec3::new(SCALE, 2 * SCALE, 3 * SCALE),
        Quat::identity(),
        Vec3::new(SCALE, SCALE, SCALE),
    );
    let m = t.mat4();
    assert_eq!(m.r0.w, SCALE);
    assert_eq!(m.r1.w, 2 * SCALE);
    assert_eq!(m.r2.w, 3 * SCALE);
    assert_eq!(m.r0.x, SCALE);
    assert_eq!(m.r1.y, SCALE);
    assert_eq!(m.r2.z, SCALE);
}

#[test]
fn default_camera_looks_at_the_origin() {
    let camera = Camera::new();
    assert_eq!(camera.position, Vec3::new(0, 4 * SCALE, 6 * SCALE));
    // the facing direction is the normalized vector toward the origin
    assert_eq!(camera.direction_to_camera, Vec3::new(0, -36352, -54529));
    assert_eq!(camera.screen_width, 900);
    assert_eq!(camera.screen_height, 700);
}
