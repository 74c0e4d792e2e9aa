use gizmo3d::camera::{Camera, CameraMovement, Cursor, PITCH_LIMIT};
use gizmo3d::vec3::{Vec2, Vec3};
use gizmo3d::SCALE;

#[test]
fn pitch_clamps_at_the_limit_and_yaw_does_not() {
    let mut camera = Camera::new();
    camera.click(0, 0);
    // A huge upward sweep: sensitivity 0.1 times 1000 pixels is 100
    // degrees, past the 89-degree limit.
    camera.handle_mouse(300, -1000);
    assert_eq!(camera.pitch(), PITCH_LIMIT);
    // Yaw accumulated the full horizontal sweep: 0.1 * 300 = 30 degrees.
    assert_eq!(camera.yaw(), 6554 * 300);
}

#[test]
fn pitch_clamps_downward_too() {
    let mut camera = Camera::new();
    camera.click(0, 0);
    camera.handle_mouse(0, 1000);
    assert_eq!(camera.pitch(), -PITCH_LIMIT);
    assert_eq!(camera.yaw(), 0);
}

#[test]
fn pitch_accumulates_inside_the_limit() {
    let mut camera = Camera::new();
    camera.click(0, 0);
    // 0.1 * 100 = 10 degrees up.
    camera.handle_mouse(0, -100);
    assert_eq!(camera.pitch(), 6554 * 100);
    assert_eq!(camera.yaw(), 0);
}

#[test]
fn mouse_moves_are_ignored_until_click() {
    let mut camera = Camera::new();
    camera.handle_mouse(500, 500);
    assert_eq!(camera.pitch(), 0);
    assert_eq!(camera.yaw(), 0);
    camera.unclick();
    camera.handle_mouse(500, 500);
    assert_eq!(camera.yaw(), 0);
}

#[test]
fn update_moves_forward_by_speed() {
    let mut camera = Camera::new();
    camera.set_position(Vec3::new(0, 0, 6 * SCALE));
    camera.set_direction(Vec3::new(0, 0, -SCALE));
    camera.set_move_z(CameraMovement::POSITIVE);
    camera.update();
    // One tick forward along -z at speed 0.1.
    assert_eq!(camera.position, Vec3::new(0, 0, 6 * SCALE - 6554));
    camera.set_move_z(CameraMovement::NEGATIVE);
    camera.update();
    assert_eq!(camera.position, Vec3::new(0, 0, 6 * SCALE));
}

#[test]
fn update_strafes_and_climbs() {
    let mut camera = Camera::new();
    camera.set_position(Vec3::new(0, 0, 6 * SCALE));
    camera.set_direction(Vec3::new(0, 0, -SCALE));
    camera.set_move_x(CameraMovement::POSITIVE);
    camera.set_move_y(CameraMovement::POSITIVE);
    camera.update();
    // The strafe axis of a camera looking down -z is +x.
    assert_eq!(camera.position, Vec3::new(6554, 6554, 6 * SCALE));
}

#[test]
fn cursor_to_screen_inverts_y() {
    let camera = Camera::new();
    let screen = camera.cursor_to_screen(&Cursor { x: 100, y: 100 });
    assert_eq!(screen, Vec2::new(100 * SCALE, 600 * SCALE));
}

#[test]
fn screen_to_ndc_centers_the_viewport() {
    let camera = Camera::new();
    let ndc = camera.screen_to_ndc(&Vec2::new(450 * SCALE, 350 * SCALE));
    assert_eq!(ndc, Vec2::new(0, 0));
    let corner = camera.screen_to_ndc(&Vec2::new(0, 0));
    assert_eq!(corner, Vec2::new(-SCALE, -SCALE));
}

#[test]
fn world_to_screen_centers_the_looked_at_point() {
    let mut camera = Camera::new();
    camera.set_position(Vec3::new(0, 0, 6 * SCALE));
    camera.set_direction(Vec3::new(0, 0, -SCALE));
    camera.update();
    let screen = camera.world_to_screen(&Vec3::new(0, 0, 0));
    assert_eq!(screen.x, 450 * SCALE);
    assert_eq!(screen.y, 350 * SCALE);
}

#[test]
fn world_to_screen_shifts_right_for_points_on_the_right() {
    let mut camera = Camera::new();
    camera.set_position(Vec3::new(0, 0, 6 * SCALE));
    camera.set_direction(Vec3::new(0, 0, -SCALE));
    camera.update();
    let screen = camera.world_to_screen(&Vec3::new(SCALE, 0, 0));
    assert_eq!(screen.x, 38720250);
    assert_eq!(screen.y, 350 * SCALE);
}

#[test]
fn screen_to_world_depth_picks_the_planes() {
    // Unprojections at depth zero and one straddle the looked-at point,
    // so the picking direction runs into the scene.
    let mut camera = Camera::new();
    camera.set_position(Vec3::new(0, 0, 6 * SCALE));
    camera.set_direction(Vec3::new(0, 0, -SCALE));
    camera.update();
    let near = camera.screen_to_world(&Vec3::new(450 * SCALE, 350 * SCALE, 0));
    let far = camera.screen_to_world(&Vec3::new(450 * SCALE, 350 * SCALE, SCALE));
    assert!(near.z < 6 * SCALE);
    assert!(far.z < near.z);
}

#[test]
fn cast_cursor_on_plane_hits_the_anchor_plane() {
    // Looking down -z from (0,0,6), the screen-center cursor cast onto
    // the z-normal plane through the origin lands on z == 0.
    let mut camera = Camera::new();
    camera.set_position(Vec3::new(0, 0, 6 * SCALE));
    camera.set_direction(Vec3::new(0, 0, -SCALE));
    camera.update();
    let hit = camera.cast_cursor_on_plane(
        &Cursor { x: 450, y: 350 },
        &Vec3::new(0, 0, SCALE),
        &Vec3::new(0, 0, 0),
    );
    // rounding in the two unprojections leaves the cast a few thousandths
    // of a unit off the plane; the lateral components are exact
    assert!(hit.z.abs() < SCALE / 16);
    assert_eq!(hit.x, 0);
    assert_eq!(hit.y, 0);
}
