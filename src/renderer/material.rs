//! Surface materials: texture files and a base colour.
use vstd::prelude::*;

verus! {

/// A material as the renderer uses it: the file names of its base colour,
/// normal and metallic-roughness textures, and its base colour factor (the
/// bit patterns of four 32-bit floats).
#[derive(Debug, PartialEq, Eq)]
pub struct Material {
    pub texture: String,
    pub normal: String,
    pub roughness: String,
    pub color: [u32; 4],
}

impl Material {
    pub fn new(texture: String, normal: String, roughness: String, color: [u32; 4]) -> (r: Material)
        ensures
            r == (Material { texture, normal, roughness, color }),
    {
        Material { texture, normal, roughness, color }
    }
}

} // verus!
