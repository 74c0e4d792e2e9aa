//! Loaded-model data: vertices, meshes and materials.
//!
//! A model is a list of meshes; a mesh is indexed vertex data with a
//! material. Reading geometry from disk and uploading it to the graphics
//! API happens outside the library; what arrives here are plain vertex
//! attributes in fixed point and texture identifiers, with the index
//! bounds held as an invariant.

use crate::vec3::{Vec2, Vec3};
use vstd::prelude::*;

verus! {

/// The textures of one mesh, by role; absent roles fall back to the
/// shader's defaults.
#[derive(Clone, Copy, Debug, PartialEq, Eq, Structural)]
pub struct Material {
    pub diffuse: Option<u32>,
    pub specular: Option<u32>,
    pub normal: Option<u32>,
    pub ambient: Option<u32>,
}

/// One vertex: position, normal, texture coordinates and the tangent
/// frame.
#[derive(Clone, Copy, Debug, PartialEq, Eq, Structural)]
pub struct Vertex {
    pub position: Vec3,
    pub normal: Vec3,
    pub texture_coords: Vec2,
    pub tangent: Vec3,
    pub bitangent: Vec3,
}

impl Vertex {
    pub open spec fn wf(self) -> bool {
        &&& self.position.wf()
        &&& self.normal.wf()
        &&& self.texture_coords.wf()
        &&& self.tangent.wf()
        &&& self.bitangent.wf()
    }
}

/// Indexed triangle data with a material.
pub struct Mesh {
    pub vertices: Vec<Vertex>,
    pub indices: Vec<u32>,
    pub material: Material,
}

impl Mesh {
    /// Every index addresses a vertex.
    pub open spec fn wf(self) -> bool {
        forall|k: int|
            0 <= k < self.indices@.len() ==> (#[trigger] self.indices@[k]) < self.vertices@.len()
    }

    /// Assemble a mesh after checking that every index is in bounds;
    /// out-of-range indices reject the data instead of corrupting a later
    /// draw.
    pub fn new(vertices: Vec<Vertex>, indices: Vec<u32>, material: Material) -> (r: Option<
        Mesh,
    >)
        ensures
            match r {
                Some(m) => m.wf() && m.vertices == vertices && m.indices == indices
                    && m.material == material,
                None => exists|k: int|
                    0 <= k < indices@.len() && (#[trigger] indices@[k]) >= vertices@.len(),
            },
    {
        let mut k: usize = 0;
        while k < indices.len()
            invariant
                k <= indices@.len(),
                forall|j: int|
                    0 <= j < k ==> (#[trigger] indices@[j]) < vertices@.len(),
            decreases indices@.len() - k,
        {
            if indices[k] as usize >= vertices.len() {
                return None;
            }
            k = k + 1;
        }
        Some(Mesh { vertices, indices, material })
    }
}

/// A loaded model: its meshes.
pub struct Model {
    pub meshes: Vec<Mesh>,
}

impl Model {
    pub open spec fn wf(self) -> bool {
        forall|k: int| 0 <= k < self.meshes@.len() ==> (#[trigger] self.meshes@[k]).wf()
    }

    pub fn new() -> (r: Model)
        ensures
            r.wf(),
            r.meshes@.len() == 0,
    {
        Model { meshes: Vec::new() }
    }

    /// Add one mesh to the model.
    pub fn push_mesh(&mut self, mesh: Mesh)
        requires
            old(self).wf(),
            mesh.wf(),
        ensures
            final(self).wf(),
            final(self).meshes@ == old(self).meshes@.push(mesh),
    {
        self.meshes.push(mesh);
    }
}

} // verus!
