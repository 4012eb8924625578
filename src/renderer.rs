//! The renderer's data model: primitives, meshes and the topology they are drawn with.
use vstd::prelude::*;

pub mod asset;
pub mod vertex;
pub mod material;
pub mod sampler;
pub mod shader;
pub mod frame;
pub mod gltfimporter;

verus! {

use crate::renderer::asset::{PrimitiveDesc, stream_at, stream_filled};
use crate::renderer::vertex::{Vertex, words_of};

/// How the vertices of a primitive are grouped when drawn.
#[derive(Clone, Copy, Debug, PartialEq, Eq, Structural)]
pub enum Topology {
    PointList,
    LineList,
    LineStrip,
    TriangleList,
    TriangleStrip,
}

/// Conversion of an asset-side value into the value the rendering backend uses.
pub trait IntoWgpuEquivalent: Sized {
    type Output;

    /// The backend value that `self` stands for.
    spec fn wgpu_equivalent(self) -> Self::Output;

    fn into_wgpu_equivalent(self) -> (r: Self::Output)
        ensures
            r == self.wgpu_equivalent(),
    ;
}

/// One drawable batch: vertices, indices into them, the index of its material
/// in the material list produced alongside it, and its topology.
#[derive(Debug)]
pub struct Primitive {
    pub vertex: Vec<Vertex>,
    pub indices: Vec<u32>,
    pub material_index: usize,
    pub mode: Topology,
}

impl Default for Primitive {
    fn default() -> (r: Primitive)
        ensures
            r.vertex@.len() == 0,
            r.indices@.len() == 0,
            r.material_index == 0,
            r.mode == Topology::TriangleList,
    {
        Primitive {
            vertex: Vec::new(),
            indices: Vec::new(),
            material_index: 0,
            mode: Topology::TriangleList,
        }
    }
}

/// The vertex that position sample `i` of `desc` becomes: its position, and each
/// optional attribute taken from its stream where that stream is filled, zero
/// where it is not.
pub open spec fn vertex_from_desc(v: Vertex, desc: PrimitiveDesc, i: int) -> bool {
    &&& v.position == stream_at(desc.positions, i)
    &&& if stream_filled(desc.normals) {
        v.normal == stream_at(desc.normals, i)
    } else {
        v.normal@ =~= seq![0u32, 0, 0]
    }
    &&& if stream_filled(desc.tex_coords) {
        v.uv == stream_at(desc.tex_coords, i)
    } else {
        v.uv@ =~= seq![0u32, 0]
    }
    &&& if stream_filled(desc.tangents) {
        v.tangent == stream_at(desc.tangents, i)
    } else {
        v.tangent@ =~= seq![0u32, 0, 0, 0]
    }
}

impl Primitive {
    /// Every index names one of the primitive's vertices.
    pub open spec fn indices_in_bounds(self) -> bool {
        forall|k: int| 0 <= k < self.indices@.len() ==> (#[trigger] self.indices@[k] as nat)
            < self.vertex@.len()
    }

    /// The vertex upload payload: every vertex's words, in vertex order.
    pub fn vertex_words(&self) -> (r: Vec<u32>)
        ensures
            r@ == words_of(self.vertex@),
    {
        let mut r: Vec<u32> = Vec::new();
        let mut i: usize = 0;
        while i < self.vertex.len()
            invariant
                i <= self.vertex@.len(),
                r@ == words_of(self.vertex@.subrange(0, i as int)),
            decreases self.vertex@.len() - i,
        {
            let w = self.vertex[i].to_words();
            let mut j: usize = 0;
            let ghost start = r@;
            while j < 12
                invariant
                    j <= 12,
                    w@.len() == 12,
                    r@ == start + w@.subrange(0, j as int),
                decreases 12 - j,
            {
                r.push(w[j]);
                j = j + 1;
                assert(r@ =~= start + w@.subrange(0, j as int));
            }
            assert(self.vertex@.subrange(0, i + 1).drop_last() =~= self.vertex@.subrange(0, i as int));
            assert(w@.subrange(0, 12) =~= w@);
            i = i + 1;
        }
        assert(self.vertex@.subrange(0, i as int) =~= self.vertex@);
        r
    }

    /// The vertices and indices are exactly those that `desc` declares.
    pub open spec fn geometry_from_desc(self, desc: PrimitiveDesc) -> bool {
        &&& self.vertex@.len() == desc.vertex_count()
        &&& forall|i: int| 0 <= i < self.vertex@.len() ==> vertex_from_desc(
            #[trigger] self.vertex@[i],
            desc,
            i,
        )
        &&& self.indices@ == desc.index_seq()
    }
}

/// A mesh: its primitives in draw order.
#[derive(Debug)]
pub struct Mesh {
    pub primitives: Vec<Primitive>,
}

impl Mesh {
    pub fn new(primitives: Vec<Primitive>) -> (r: Mesh)
        ensures
            r.primitives@ == primitives@,
    {
        Mesh { primitives }
    }
}

/// Why an asset could not be imported.
#[derive(Debug, PartialEq, Eq)]
pub enum RenderError {
    /// The asset does not hold exactly one mesh.
    UnsupportedAsset,
    /// The asset could not be read or parsed; the parser's diagnostic.
    ParseFailure(String),
    /// An attribute stream's length disagrees with the positions, or an index
    /// names no vertex.
    MalformedAsset,
}

} // verus!
