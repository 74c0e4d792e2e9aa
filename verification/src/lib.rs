//! Interactive 3D manipulation core: camera ray casting, screen/world
//! transforms, cube/ray intersection, a translation gizmo, and
//! double-buffered transform state for fixed-timestep simulation with
//! interpolated rendering.
//!
//! All geometry is carried in exact fixed-point arithmetic (`fx`), so every
//! routine has a precise integer specification.

pub mod camera;
pub mod components;
pub mod cube;
pub mod double_buffer;
pub mod fx;
pub mod gizmo;
pub mod mat4;
pub mod model;
pub mod primitives;
pub mod texture;
pub mod utilities;
pub mod vec3;

pub use fx::SCALE;
