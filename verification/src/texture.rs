//! Texture classification.
//!
//! The renderer distinguishes textures by their role in the material; the
//! role also names the shader sampler the texture binds to. Loading and
//! binding image data is graphics-API work outside the library; here a
//! texture is its role plus the identifier the graphics API assigned it.

use vstd::prelude::*;

verus! {

/// The role a texture plays in a material.
#[derive(Clone, Copy, Debug, PartialEq, Eq, Structural)]
pub enum TextureKind {
    Diffuse,
    Specular,
    Normal,
    Height,
}

impl TextureKind {
    /// The shader sampler name prefix of this texture role.
    pub fn as_str(&self) -> (r: &'static str)
        ensures
            self is Diffuse ==> r@ == "texture_diffuse"@,
            self is Specular ==> r@ == "texture_specular"@,
            self is Normal ==> r@ == "texture_normal"@,
            self is Height ==> r@ == "texture_height"@,
    {
        match self {
            TextureKind::Diffuse => "texture_diffuse",
            TextureKind::Specular => "texture_specular",
            TextureKind::Normal => "texture_normal",
            TextureKind::Height => "texture_height",
        }
    }
}

/// A loaded texture: its role and the identifier the graphics API handed
/// back when the image data was uploaded.
#[derive(Clone, Copy, Debug, PartialEq, Eq, Structural)]
pub struct Texture {
    pub id: u32,
    pub kind: TextureKind,
}

impl Texture {
    pub fn new(id: u32, kind: TextureKind) -> (r: Texture)
        ensures
            r == (Texture { id, kind }),
    {
        Texture { id, kind }
    }
}

} // verus!
