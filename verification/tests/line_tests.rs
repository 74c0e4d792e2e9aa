use gizmo3d::cube::{Line2D, Ray};
use gizmo3d::utilities::{is_point_on_line2D, is_rays_intersect, ray_ray_distance};
use gizmo3d::vec3::{Vec2, Vec3};
use gizmo3d::SCALE;

fn horizontal_segment() -> Line2D {
    Line2D { from: Vec2::new(0, 0), to: Vec2::new(100 * SCALE, 0) }
}

#[test]
fn point_on_segment_midpoint() {
    let line = horizontal_segment();
    assert!(is_point_on_line2D(&line, &Vec2::new(50 * SCALE, 0), 0));
    assert!(is_point_on_line2D(&line, &Vec2::new(50 * SCALE, 0), SCALE));
}

#[test]
fn point_one_pixel_off_needs_tolerance_one() {
    let line = horizontal_segment();
    let point = Vec2::new(50 * SCALE, SCALE);
    assert!(is_point_on_line2D(&line, &point, SCALE));
    assert!(!is_point_on_line2D(&line, &point, SCALE - 1));
}

#[test]
fn collinear_point_beyond_segment_is_off() {
    let line = horizontal_segment();
    assert!(!is_point_on_line2D(&line, &Vec2::new(150 * SCALE, 0), SCALE));
}

#[test]
fn endpoints_are_on_segment() {
    let line = horizontal_segment();
    assert!(is_point_on_line2D(&line, &Vec2::new(0, 0), 0));
    assert!(is_point_on_line2D(&line, &Vec2::new(100 * SCALE, 0), 0));
}

#[test]
fn descending_segment_respects_direction() {
    // The same segment, walked the other way: containment still holds.
    let line = Line2D { from: Vec2::new(100 * SCALE, 0), to: Vec2::new(0, 0) };
    assert!(is_point_on_line2D(&line, &Vec2::new(50 * SCALE, 0), 0));
    assert!(!is_point_on_line2D(&line, &Vec2::new(150 * SCALE, 0), 0));
}

#[test]
fn near_vertical_segment_checks_y_span() {
    let line = Line2D { from: Vec2::new(0, 0), to: Vec2::new(0, 100 * SCALE) };
    assert!(is_point_on_line2D(&line, &Vec2::new(0, 70 * SCALE), 0));
    assert!(!is_point_on_line2D(&line, &Vec2::new(0, 101 * SCALE), 0));
}

#[test]
fn parallel_lines_keep_their_distance() {
    // Lines along x, one unit apart: the closest distance is one unit.
    let r1 = Ray::new(&Vec3::new(0, 0, 0), &Vec3::new(SCALE, 0, 0));
    let r2 = Ray::new(&Vec3::new(0, SCALE, 0), &Vec3::new(SCALE, SCALE, 0));
    assert_eq!(ray_ray_distance(&r1, &r2), SCALE);
    assert!(!is_rays_intersect(&r1, &r2));
}

#[test]
fn crossing_lines_intersect() {
    let r1 = Ray::new(&Vec3::new(0, 0, 0), &Vec3::new(SCALE, 0, 0));
    let r2 = Ray::new(&Vec3::new(0, 0, 0), &Vec3::new(0, SCALE, 0));
    assert_eq!(ray_ray_distance(&r1, &r2), 0);
    assert!(is_rays_intersect(&r1, &r2));
}
