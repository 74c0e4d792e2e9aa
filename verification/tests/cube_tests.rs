use gizmo3d::cube::{Cube, EFace, Ray};
use gizmo3d::vec3::Vec3;
use gizmo3d::SCALE;

#[test]
fn slab_entry_distance_along_z() {
    // A unit cube at the origin, a ray ten units back shooting forward:
    // it enters at 10 - 0.5 and leaves at 10 + 0.5.
    let cube = Cube::new(&Vec3::new(0, 0, 0));
    let ray = Ray::new(&Vec3::new(0, 0, -10 * SCALE), &Vec3::new(0, 0, SCALE));
    assert!(cube.is_intersect(&ray));
    let (tmin, tmax) = cube.get_contacts_distances(&ray);
    assert_eq!(tmin, 622592); // 9.5 units
    assert_eq!(tmax, 688128); // 10.5 units
    let contact = cube.get_contact(&ray);
    assert_eq!(contact, Vec3::new(0, 0, -32768));
    let (face, normal) = cube.get_intersect_face(&ray);
    assert!(matches!(face, EFace::Back));
    assert_eq!(normal, Vec3::new(0, 0, -SCALE));
}

#[test]
fn slab_entry_face_along_x() {
    let cube = Cube::new(&Vec3::new(0, 0, 0));
    let ray = Ray::new(&Vec3::new(10 * SCALE, 0, 0), &Vec3::new(-SCALE, 0, 0));
    assert!(cube.is_intersect(&ray));
    let (tmin, tmax) = cube.get_contacts_distances(&ray);
    assert_eq!(tmin, 622592);
    assert_eq!(tmax, 688128);
    let (face, _) = cube.get_intersect_face(&ray);
    assert!(matches!(face, EFace::Right));
}

#[test]
fn parallel_offset_ray_misses() {
    // Parallel to a face and offset beyond it: the zero direction
    // component excludes the cube on the y slab.
    let cube = Cube::new(&Vec3::new(0, 0, 0));
    let ray = Ray::new(&Vec3::new(0, 2 * SCALE, -10 * SCALE), &Vec3::new(0, 0, SCALE));
    assert!(!cube.is_intersect(&ray));
}

#[test]
fn ray_pointing_away_misses() {
    let cube = Cube::new(&Vec3::new(0, 0, 0));
    let ray = Ray::new(&Vec3::new(0, 0, -10 * SCALE), &Vec3::new(0, 0, -SCALE));
    assert!(!cube.is_intersect(&ray));
}

#[test]
fn origin_inside_clamps_entry_to_zero() {
    // From inside the cube, pointing at a face: the entry distance behind
    // the origin is clamped to zero, not negative.
    let cube = Cube::new(&Vec3::new(0, 0, 0));
    let ray = Ray::new(&Vec3::new(0, 0, 0), &Vec3::new(0, 0, -SCALE));
    assert!(cube.is_intersect(&ray));
    let (tmin, tmax) = cube.get_contacts_distances(&ray);
    assert_eq!(tmin, 0);
    assert_eq!(tmax, 32768);
    assert_eq!(cube.get_contact(&ray), Vec3::new(0, 0, 0));
}

#[test]
fn cube_away_from_origin() {
    let cube = Cube::new(&Vec3::new(3 * SCALE, 0, 0));
    let ray = Ray::new(&Vec3::new(0, 0, 0), &Vec3::new(SCALE, 0, 0));
    assert!(cube.is_intersect(&ray));
    let (tmin, tmax) = cube.get_contacts_distances(&ray);
    assert_eq!(tmin, 163840); // 2.5 units
    assert_eq!(tmax, 229376); // 3.5 units
    let (face, _) = cube.get_intersect_face(&ray);
    assert!(matches!(face, EFace::Left));
}

#[test]
fn rays_from_above_and_front_hit_their_faces() {
    let cube = Cube::new(&Vec3::new(0, 0, 0));
    let from_above = Ray::new(&Vec3::new(0, 10 * SCALE, 0), &Vec3::new(0, -SCALE, 0));
    let (face, _) = cube.get_intersect_face(&from_above);
    assert!(matches!(face, EFace::Top));
    let from_front = Ray::new(&Vec3::new(0, 0, 10 * SCALE), &Vec3::new(0, 0, -SCALE));
    let (face, _) = cube.get_intersect_face(&from_front);
    assert!(matches!(face, EFace::Front));
    let from_below = Ray::new(&Vec3::new(0, -10 * SCALE, 0), &Vec3::new(0, SCALE, 0));
    let (face, _) = cube.get_intersect_face(&from_below);
    assert!(matches!(face, EFace::Bottom));
}

#[test]
fn edge_on_boundary_parallel_ray_misses() {
    // A ray sliding exactly on the face plane with a zero direction
    // component on that axis counts as a miss.
    let cube = Cube::new(&Vec3::new(0, 0, 0));
    let ray = Ray::new(&Vec3::new(0, 32768, -10 * SCALE), &Vec3::new(0, 0, SCALE));
    assert!(!cube.is_intersect(&ray));
}
