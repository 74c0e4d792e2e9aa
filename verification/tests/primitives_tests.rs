use gizmo3d::primitives::{
    build_grid, build_pyramid, build_quad, compute_tangent, compute_tangent_without_indicies,
    create, create_with_indices, PYRAMID_UNIT,
};
use gizmo3d::vec3::{Vec2, Vec3};
use gizmo3d::SCALE;

#[test]
fn create_counts_elements_by_stride() {
    let model = create(vec![0i64; 24], vec![3, 3, 2]);
    assert_eq!(model.triangles, 3);
    assert_eq!(model.vertices.len(), 24);
    assert!(model.indices.is_empty());
}

#[test]
fn create_with_empty_layout_counts_raw_values() {
    let model = create(vec![0i64; 7], vec![]);
    assert_eq!(model.triangles, 7);
}

#[test]
fn create_with_indices_counts_indices() {
    let model = create_with_indices(vec![0i64; 9], vec![0, 1, 2, 2, 1, 0], vec![3]);
    assert_eq!(model.triangles, 6);
    assert_eq!(model.indices.len(), 6);
}

#[test]
fn quad_covers_the_unit_square() {
    let model = build_quad();
    assert_eq!(model.triangles, 6);
    assert_eq!(model.vertices.len(), 24);
    // first vertex: top-left position with its texture coordinate
    assert_eq!(&model.vertices[0..4], &[-SCALE, SCALE, 0, SCALE]);
    // last vertex: top-right, fully textured
    assert_eq!(&model.vertices[20..24], &[SCALE, SCALE, SCALE, SCALE]);
    assert_eq!(model.locations, vec![2, 2]);
}

#[test]
fn grid_spans_minus_one_to_one() {
    let model = build_grid(10);
    assert_eq!(model.vertices.len(), 132);
    assert_eq!(model.triangles, 44);
    assert_eq!(model.locations, vec![3]);
    // block 0 sits at -1, block 5 at 0, block 10 at +1
    assert_eq!(model.vertices[0], -SCALE);
    assert_eq!(model.vertices[5 * 12], 0);
    assert_eq!(model.vertices[10 * 12], SCALE);
    // each block draws one line across and one along
    assert_eq!(&model.vertices[0..6], &[-SCALE, 0, SCALE, -SCALE, 0, -SCALE]);
}

#[test]
fn pyramid_has_five_faces() {
    let model = build_pyramid();
    assert_eq!(model.triangles, 18);
    assert_eq!(model.vertices.len(), 108);
    assert_eq!(model.locations, vec![3, 3]);
    // front face normal leans up and forward
    assert_eq!(&model.vertices[3..6], &[0, PYRAMID_UNIT, PYRAMID_UNIT]);
    // base normal points straight down
    assert_eq!(&model.vertices[75..78], &[0, -SCALE, 0]);
}

#[test]
fn tangent_frame_of_an_axis_aligned_triangle() {
    let vertices = vec![
        Vec3::new(0, 0, 0),
        Vec3::new(SCALE, 0, 0),
        Vec3::new(0, SCALE, 0),
    ];
    let uvs = vec![Vec2::new(0, 0), Vec2::new(SCALE, 0), Vec2::new(0, SCALE)];
    let indices = vec![0u32, 1, 2];
    let (tangents, bitangents) = compute_tangent(&indices, &vertices, &uvs);
    assert_eq!(tangents.len(), 3);
    assert_eq!(bitangents.len(), 3);
    // the tangent follows the u direction, every corner alike
    assert_eq!(tangents[0], Vec3::new(SCALE, 0, 0));
    assert_eq!(tangents[1], tangents[0]);
    assert_eq!(tangents[2], tangents[0]);
    assert_eq!(bitangents[0], Vec3::new(0, -SCALE, 0));
}

#[test]
fn unindexed_tangents_match_indexed_ones() {
    let vertices = vec![
        Vec3::new(0, 0, 0),
        Vec3::new(SCALE, 0, 0),
        Vec3::new(0, SCALE, 0),
    ];
    let uvs = vec![Vec2::new(0, 0), Vec2::new(SCALE, 0), Vec2::new(0, SCALE)];
    let indices = vec![0u32, 1, 2];
    let (t1, b1) = compute_tangent(&indices, &vertices, &uvs);
    let (t2, b2) = compute_tangent_without_indicies(&vertices, &uvs);
    assert_eq!(t1, t2);
    assert_eq!(b1, b2);
}

#[test]
fn degenerate_texture_mapping_saturates() {
    // All texture coordinates equal: the determinant is zero, and the
    // frame saturates instead of faulting.
    let vertices = vec![
        Vec3::new(0, 0, 0),
        Vec3::new(SCALE, 0, 0),
        Vec3::new(0, SCALE, 0),
    ];
    let uvs = vec![Vec2::new(0, 0), Vec2::new(0, 0), Vec2::new(0, 0)];
    let indices = vec![0u32, 1, 2];
    let (tangents, _) = compute_tangent(&indices, &vertices, &uvs);
    assert_eq!(tangents.len(), 3);
}
