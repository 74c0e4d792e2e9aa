use gizmo3d::components::TransformComponent;
use gizmo3d::double_buffer::{DoubleBuffered, Interpolatable, SceneBuffer};
use gizmo3d::vec3::{Quat, Vec3};
use gizmo3d::SCALE;

#[test]
fn reads_follow_writes_across_swaps() {
    // One simulated trace: a write lands in the current slot, a swap
    // exposes the previous slot, and the next write never touches it.
    let mut sb = SceneBuffer::new();
    let mut db: DoubleBuffered<i64> = DoubleBuffered::new(5);
    assert_eq!(*db.get(&sb), 5);

    *db.get_mut(&sb) = 7;
    assert_eq!(*db.get(&sb), 7);

    sb.swap();
    assert_eq!(*db.get(&sb), 5);

    *db.get_mut(&sb) = 9;
    assert_eq!(*db.get(&sb), 9);

    sb.swap();
    assert_eq!(*db.get(&sb), 7);

    sb.swap();
    assert_eq!(*db.get(&sb), 9);
}

fn transform(px: i64, py: i64, pz: i64) -> TransformComponent {
    TransformComponent::new(
        Vec3::new(px, py, pz),
        Quat::identity(),
        Vec3::new(SCALE, SCALE, SCALE),
    )
}

#[test]
fn interpolate_endpoints_round_trip() {
    // Blending by zero returns the current state exactly; blending by the
    // whole unit returns the other state exactly.
    let a = transform(0, 0, 0);
    let b = transform(2 * SCALE, 4 * SCALE, 6 * SCALE);
    let sb = SceneBuffer::new();
    let mut db = DoubleBuffered::new(a);
    *db.get_mut(&sb) = b;
    // current is b, the other slot still holds a
    assert_eq!(db.interpolate(&sb, 0), b);
    assert_eq!(db.interpolate(&sb, SCALE), a);
}

#[test]
fn interpolate_midpoint_positions() {
    let a = transform(0, 0, 0);
    let b = transform(2 * SCALE, 4 * SCALE, 6 * SCALE);
    let half = a.interpolate(&b, SCALE / 2);
    assert_eq!(half.position, Vec3::new(SCALE, 2 * SCALE, 3 * SCALE));
    assert_eq!(half.scale, Vec3::new(SCALE, SCALE, SCALE));
    assert_eq!(half.rotation, Quat::identity());
}

#[test]
fn interpolate_endpoints_with_rotation() {
    let a = TransformComponent::new(
        Vec3::new(SCALE, 0, 0),
        Quat::new(0, 0, 0, SCALE),
        Vec3::new(SCALE, SCALE, SCALE),
    );
    let b = TransformComponent::new(
        Vec3::new(0, SCALE, 0),
        Quat::new(0, SCALE, 0, 0),
        Vec3::new(2 * SCALE, 2 * SCALE, 2 * SCALE),
    );
    assert_eq!(a.interpolate(&b, 0), a);
    assert_eq!(a.interpolate(&b, SCALE), b);
}
