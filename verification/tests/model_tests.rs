use gizmo3d::model::{Material, Mesh, Model, Vertex};
use gizmo3d::texture::{Texture, TextureKind};
use gizmo3d::vec3::{Vec2, Vec3};
use gizmo3d::SCALE;

#[test]
fn texture_kinds_name_their_samplers() {
    assert_eq!(TextureKind::Diffuse.as_str(), "texture_diffuse");
    assert_eq!(TextureKind::Specular.as_str(), "texture_specular");
    assert_eq!(TextureKind::Normal.as_str(), "texture_normal");
    assert_eq!(TextureKind::Height.as_str(), "texture_height");
}

#[test]
fn texture_keeps_its_id_and_kind() {
    let texture = Texture::new(7, TextureKind::Normal);
    assert_eq!(texture.id, 7);
    assert_eq!(texture.kind.as_str(), "texture_normal");
}

fn vertex(x: i64) -> Vertex {
    Vertex {
        position: Vec3::new(x, 0, 0),
        normal: Vec3::new(0, SCALE, 0),
        texture_coords: Vec2::new(0, 0),
        tangent: Vec3::new(SCALE, 0, 0),
        bitangent: Vec3::new(0, 0, SCALE),
    }
}

fn plain_material() -> Material {
    Material { diffuse: Some(1), specular: None, normal: None, ambient: None }
}

#[test]
fn mesh_accepts_indices_in_bounds() {
    let mesh = Mesh::new(
        vec![vertex(0), vertex(SCALE), vertex(2 * SCALE)],
        vec![0, 1, 2, 2, 1, 0],
        plain_material(),
    )
    .expect("indices address the vertices");
    assert_eq!(mesh.vertices.len(), 3);
    assert_eq!(mesh.indices.len(), 6);
    assert_eq!(mesh.material.diffuse, Some(1));
}

#[test]
fn mesh_rejects_out_of_range_indices() {
    let mesh = Mesh::new(vec![vertex(0), vertex(SCALE)], vec![0, 1, 2], plain_material());
    assert!(mesh.is_none());
}

#[test]
fn model_collects_meshes() {
    let mut model = Model::new();
    assert!(model.meshes.is_empty());
    let mesh = Mesh::new(vec![vertex(0)], vec![0, 0, 0], plain_material()).unwrap();
    model.push_mesh(mesh);
    assert_eq!(model.meshes.len(), 1);
    assert_eq!(model.meshes[0].vertices.len(), 1);
}
