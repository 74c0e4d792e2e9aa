use gizmo3d::camera::{Camera, Cursor};
use gizmo3d::components::TransformComponent;
use gizmo3d::gizmo::{Gizmo, GizmoTranslateMode};
use gizmo3d::vec3::{Quat, Vec3};
use gizmo3d::SCALE;

fn test_camera() -> Camera {
    let mut camera = Camera::new();
    camera.set_position(Vec3::new(0, 0, 6 * SCALE));
    camera.set_direction(Vec3::new(0, 0, -SCALE));
    camera.update();
    camera
}

fn target_at_origin() -> TransformComponent {
    TransformComponent::new(
        Vec3::new(0, 0, 0),
        Quat::identity(),
        Vec3::new(SCALE, SCALE, SCALE),
    )
}

#[test]
fn click_without_target_is_a_no_op() {
    let camera = test_camera();
    let target = target_at_origin();
    let mut gizmo = Gizmo::new();
    gizmo.click(&camera, 500, 350, &target);
    assert!(!gizmo.is_dragging);
}

#[test]
fn click_on_x_handle_starts_a_drag() {
    // The x handle projects to a horizontal screen segment right of
    // center; a cursor on it selects the x axis.
    let camera = test_camera();
    let target = target_at_origin();
    let mut gizmo = Gizmo::new();
    gizmo.target(&target);
    gizmo.click(&camera, 500, 350, &target);
    assert!(gizmo.is_dragging);
    assert!(matches!(gizmo.translate_mode, GizmoTranslateMode::X));
    assert_eq!(gizmo.mouse_start, Cursor { x: 500, y: 350 });
    assert_eq!(gizmo.mouse_end, Cursor { x: 500, y: 350 });
}

#[test]
fn click_on_y_handle_selects_y() {
    let camera = test_camera();
    let target = target_at_origin();
    let mut gizmo = Gizmo::new();
    gizmo.target(&target);
    gizmo.click(&camera, 450, 300, &target);
    assert!(gizmo.is_dragging);
    assert!(matches!(gizmo.translate_mode, GizmoTranslateMode::Y));
}

#[test]
fn click_far_from_handles_misses() {
    let camera = test_camera();
    let target = target_at_origin();
    let mut gizmo = Gizmo::new();
    gizmo.target(&target);
    gizmo.click(&camera, 100, 600, &target);
    assert!(!gizmo.is_dragging);
}

#[test]
fn drag_moves_only_along_the_selected_axis() {
    let camera = test_camera();
    let mut target = target_at_origin();
    let mut gizmo = Gizmo::new();
    gizmo.target(&target);
    gizmo.click(&camera, 500, 350, &target);
    assert!(gizmo.is_dragging);
    let before = target;
    gizmo.drag(&camera, 600, 350, &mut target);
    assert!(target.position.x > before.position.x);
    assert_eq!(target.position.y, before.position.y);
    assert_eq!(target.position.z, before.position.z);
    assert_eq!(target.rotation, before.rotation);
    assert_eq!(target.scale, before.scale);
}

#[test]
fn repeated_drags_with_the_same_cursor_do_not_drift() {
    // The position is recomputed from the cached snapshot every time, so
    // any number of drags with one cursor pair gives one position.
    let camera = test_camera();
    let mut target = target_at_origin();
    let mut gizmo = Gizmo::new();
    gizmo.target(&target);
    gizmo.click(&camera, 500, 350, &target);
    assert!(gizmo.is_dragging);
    gizmo.drag(&camera, 600, 350, &mut target);
    let once = target.position;
    gizmo.drag(&camera, 600, 350, &mut target);
    gizmo.drag(&camera, 600, 350, &mut target);
    gizmo.drag(&camera, 600, 350, &mut target);
    assert_eq!(target.position, once);
}

#[test]
fn drag_without_click_leaves_the_target_alone() {
    let camera = test_camera();
    let mut target = target_at_origin();
    let mut gizmo = Gizmo::new();
    gizmo.target(&target);
    let before = target;
    gizmo.drag(&camera, 600, 350, &mut target);
    assert_eq!(target.position, before.position);
}

#[test]
fn unclick_ends_the_drag_and_reports_the_cast_points() {
    let camera = test_camera();
    let mut target = target_at_origin();
    let mut gizmo = Gizmo::new();
    gizmo.target(&target);
    gizmo.click(&camera, 500, 350, &target);
    gizmo.drag(&camera, 600, 350, &mut target);
    let points = gizmo.unclick(&camera);
    assert!(!gizmo.is_dragging);
    let (p1, p2) = points.expect("a bound target reports its cast points");
    assert!(p2.x > p1.x);
}

#[test]
fn unclick_without_target_reports_nothing() {
    let camera = test_camera();
    let mut gizmo = Gizmo::new();
    assert!(gizmo.unclick(&camera).is_none());
}

#[test]
fn clear_unbinds_the_target() {
    let camera = test_camera();
    let target = target_at_origin();
    let mut gizmo = Gizmo::new();
    gizmo.target(&target);
    assert!(gizmo.draw(&target).is_some());
    gizmo.clear();
    assert!(gizmo.draw(&target).is_none());
    let mut t = target;
    let before = t;
    gizmo.click(&camera, 500, 350, &target);
    gizmo.drag(&camera, 600, 350, &mut t);
    assert_eq!(t.position, before.position);
}

#[test]
fn draw_reports_the_glyph_at_the_target() {
    let target = target_at_origin();
    let mut gizmo = Gizmo::new();
    gizmo.target(&target);
    let (position, length, weight) = gizmo.draw(&target).expect("bound target draws");
    assert_eq!(position, target.position);
    assert_eq!(length, SCALE / 2);
    assert_eq!(weight, SCALE);
}
