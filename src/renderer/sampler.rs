//! Texture sampling configuration as the rendering backend takes it.
use vstd::prelude::*;

verus! {

/// Texel filtering.
#[derive(Clone, Copy, Debug, PartialEq, Eq, Structural)]
pub enum FilterMode {
    Nearest,
    Linear,
}

/// Handling of texture coordinates outside [0, 1].
#[derive(Clone, Copy, Debug, PartialEq, Eq, Structural)]
pub enum AddressMode {
    ClampToEdge,
    Repeat,
    MirrorRepeat,
}

/// Depth comparison applied when sampling; `Undefined` samples without one.
#[derive(Clone, Copy, Debug, PartialEq, Eq, Structural)]
pub enum CompareFunction {
    Undefined,
    Never,
    Less,
    Equal,
    LessEqual,
    Greater,
    NotEqual,
    GreaterEqual,
    Always,
}

/// A flat sampler description. The level-of-detail clamps are whole mip levels.
#[derive(Clone, Copy, Debug, PartialEq, Eq, Structural)]
pub struct SamplerDescriptor {
    pub min_filter: FilterMode,
    pub mag_filter: FilterMode,
    pub address_mode_u: AddressMode,
    pub address_mode_v: AddressMode,
    pub address_mode_w: AddressMode,
    pub lod_min_clamp: u32,
    pub lod_max_clamp: u32,
    pub compare: CompareFunction,
    pub mipmap_filter: FilterMode,
}

} // verus!
