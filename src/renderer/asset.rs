//! The parsed scene asset, as plain values: what the importer reads.
use vstd::prelude::*;

verus! {

/// How an asset primitive's vertices are to be assembled.
#[derive(Clone, Copy, Debug, PartialEq, Eq, Structural)]
pub enum Mode {
    Points,
    Lines,
    LineLoop,
    LineStrip,
    Triangles,
    TriangleStrip,
    TriangleFan,
}

} // verus!

verus! {

/// Minification filter declared by an asset sampler.
#[derive(Clone, Copy, Debug, PartialEq, Eq, Structural)]
pub enum MinFilter {
    Nearest,
    Linear,
    NearestMipmapNearest,
    LinearMipmapNearest,
    NearestMipmapLinear,
    LinearMipmapLinear,
}

/// Magnification filter declared by an asset sampler.
#[derive(Clone, Copy, Debug, PartialEq, Eq, Structural)]
pub enum MagFilter {
    Nearest,
    Linear,
}

/// Texture coordinate wrapping declared by an asset sampler.
#[derive(Clone, Copy, Debug, PartialEq, Eq, Structural)]
pub enum WrappingMode {
    ClampToEdge,
    MirroredRepeat,
    Repeat,
}

/// A sampler as the asset declares it; absent filters are left to the importer.
#[derive(Clone, Copy, Debug, PartialEq, Eq, Structural)]
pub struct Sampler {
    pub min_filter: Option<MinFilter>,
    pub mag_filter: Option<MagFilter>,
    pub wrap_s: WrappingMode,
    pub wrap_t: WrappingMode,
}

/// Where an asset image's data lives.
#[derive(Clone, Debug, PartialEq, Eq)]
pub enum ImageSource {
    /// A reference to an external file (or a data URI).
    Uri(String),
    /// Data embedded in one of the asset's buffer views.
    View,
}

/// A material as the asset declares it. Colour components are the bit patterns
/// of 32-bit floats; each texture slot holds the index of the image that the
/// referenced texture samples, if the slot is used.
#[derive(Clone, Debug, PartialEq, Eq)]
pub struct MaterialDesc {
    pub base_color_factor: [u32; 4],
    pub base_color_texture: Option<usize>,
    pub normal_texture: Option<usize>,
    pub metallic_roughness_texture: Option<usize>,
}

/// One primitive of an asset mesh: its attribute streams, each optional, with
/// float components held as their bit patterns, its index stream widened to
/// 32 bits, its draw mode and its material.
#[derive(Clone, Debug, PartialEq)]
pub struct PrimitiveDesc {
    pub positions: Option<Vec<[u32; 3]>>,
    pub normals: Option<Vec<[u32; 3]>>,
    pub tex_coords: Option<Vec<[u32; 2]>>,
    pub tangents: Option<Vec<[u32; 4]>>,
    pub indices: Option<Vec<u32>>,
    pub mode: Mode,
    pub material: MaterialDesc,
}

/// One asset mesh: its primitives in declaration order.
#[derive(Clone, Debug, PartialEq)]
pub struct MeshDesc {
    pub primitives: Vec<PrimitiveDesc>,
}

/// A parsed scene asset: its meshes, images and samplers in declaration order.
#[derive(Clone, Debug, PartialEq)]
pub struct AssetDocument {
    pub meshes: Vec<MeshDesc>,
    pub images: Vec<ImageSource>,
    pub samplers: Vec<Sampler>,
}

/// Number of samples of an optional stream; an absent stream has none.
pub open spec fn stream_len<T>(s: Option<Vec<T>>) -> nat {
    match s {
        Some(v) => v@.len(),
        None => 0,
    }
}

/// An optional stream is aligned with `n` positions when it is absent, empty,
/// or holds exactly one sample per position.
pub open spec fn stream_aligned<T>(s: Option<Vec<T>>, n: nat) -> bool {
    stream_len(s) == 0 || stream_len(s) == n
}

/// Whether an optional stream holds samples that are written into the vertices.
pub open spec fn stream_filled<T>(s: Option<Vec<T>>) -> bool {
    stream_len(s) > 0
}

/// The `i`th sample of a stream that is filled.
pub open spec fn stream_at<T>(s: Option<Vec<T>>, i: int) -> T {
    s.unwrap()@[i]
}

impl PrimitiveDesc {
    /// Number of vertices the primitive has: one per position sample.
    pub open spec fn vertex_count(self) -> nat {
        stream_len(self.positions)
    }

    /// The indices the primitive declares, none if it has no index stream.
    pub open spec fn index_seq(self) -> Seq<u32> {
        match self.indices {
            Some(v) => v@,
            None => Seq::empty(),
        }
    }

    /// Every optional attribute stream is aligned with the positions.
    pub open spec fn attributes_aligned(self) -> bool {
        &&& stream_aligned(self.normals, self.vertex_count())
        &&& stream_aligned(self.tex_coords, self.vertex_count())
        &&& stream_aligned(self.tangents, self.vertex_count())
    }

    /// Every declared index names one of the primitive's vertices.
    pub open spec fn indices_in_range(self) -> bool {
        forall|k: int| 0 <= k < self.index_seq().len() ==> (#[trigger] self.index_seq()[k] as nat)
            < self.vertex_count()
    }

    /// The primitive can be imported: its streams agree with one another.
    pub open spec fn is_well_formed(self) -> bool {
        self.attributes_aligned() && self.indices_in_range()
    }
}

impl AssetDocument {
    /// The asset holds exactly one mesh, the only shape the importer accepts.
    pub open spec fn has_single_mesh(self) -> bool {
        self.meshes@.len() == 1
    }

    /// The primitives of the asset's first mesh.
    pub open spec fn primitive_seq(self) -> Seq<PrimitiveDesc> {
        self.meshes@[0].primitives@
    }
}

} // verus!
