//! The fixed-layout vertex record uploaded to the GPU.
use vstd::prelude::*;

verus! {

/// One vertex as the GPU reads it. Each component is the bit pattern of a
/// 32-bit float; the fields are laid out in this order, without padding.
#[derive(Clone, Copy, Debug, PartialEq, Eq)]
pub struct Vertex {
    pub position: [u32; 3],
    pub normal: [u32; 3],
    pub tangent: [u32; 4],
    pub uv: [u32; 2],
}

/// Component format of one vertex attribute: two, three or four 32-bit floats.
#[derive(Clone, Copy, Debug, PartialEq, Eq, Structural)]
pub enum VertexFormat {
    Float2,
    Float3,
    Float4,
}

/// Where one attribute of a vertex lies: its format, the shader input it feeds
/// and its byte offset from the start of the vertex.
#[derive(Clone, Copy, Debug, PartialEq, Eq, Structural)]
pub struct VertexAttribute {
    pub format: VertexFormat,
    pub shader_location: u32,
    pub offset: u64,
}

/// The 32-bit words of a sequence of vertices, one vertex after another.
pub open spec fn words_of(vs: Seq<Vertex>) -> Seq<u32>
    decreases vs.len(),
{
    if vs.len() == 0 {
        Seq::empty()
    } else {
        words_of(vs.drop_last()) + vs.last().words()
    }
}

impl Default for Vertex {
    fn default() -> (r: Vertex)
        ensures
            r.is_zero(),
    {
        Vertex { position: [0, 0, 0], normal: [0, 0, 0], tangent: [0, 0, 0, 0], uv: [0, 0] }
    }
}

impl Vertex {
    /// Every component of the vertex is zero.
    pub open spec fn is_zero(self) -> bool {
        &&& self.position@ =~= seq![0u32, 0, 0]
        &&& self.normal@ =~= seq![0u32, 0, 0]
        &&& self.tangent@ =~= seq![0u32, 0, 0, 0]
        &&& self.uv@ =~= seq![0u32, 0]
    }

    /// The vertex's 32-bit words in upload order: position, normal, tangent, uv.
    pub open spec fn words(self) -> Seq<u32> {
        self.position@ + self.normal@ + self.tangent@ + self.uv@
    }

    /// The vertex's words, as uploaded.
    pub fn to_words(&self) -> (r: [u32; 12])
        ensures
            r@ == self.words(),
    {
        let r = [
            self.position[0],
            self.position[1],
            self.position[2],
            self.normal[0],
            self.normal[1],
            self.normal[2],
            self.tangent[0],
            self.tangent[1],
            self.tangent[2],
            self.tangent[3],
            self.uv[0],
            self.uv[1],
        ];
        assert(r@ =~= self.words());
        r
    }

    /// Bytes from the start of one vertex to the start of the next.
    pub fn stride() -> (r: u64)
        ensures
            r == 48,
    {
        48
    }

    /// The attribute layout of a vertex: each field at four bytes per word
    /// before it, fed to the shader input of its rank.
    pub fn attributes() -> (r: Vec<VertexAttribute>)
        ensures
            r@ == seq![
                VertexAttribute { format: VertexFormat::Float3, shader_location: 0, offset: 0 },
                VertexAttribute { format: VertexFormat::Float3, shader_location: 1, offset: 12 },
                VertexAttribute { format: VertexFormat::Float4, shader_location: 2, offset: 24 },
                VertexAttribute { format: VertexFormat::Float2, shader_location: 3, offset: 40 },
            ],
    {
        let mut r: Vec<VertexAttribute> = Vec::new();
        r.push(VertexAttribute { format: VertexFormat::Float3, shader_location: 0, offset: 0 });
        r.push(VertexAttribute { format: VertexFormat::Float3, shader_location: 1, offset: 3 * 4 });
        r.push(VertexAttribute { format: VertexFormat::Float4, shader_location: 2, offset: 6 * 4 });
        r.push(VertexAttribute { format: VertexFormat::Float2, shader_location: 3, offset: 10 * 4 });
        assert(r@ =~= seq![
            VertexAttribute { format: VertexFormat::Float3, shader_location: 0, offset: 0 },
            VertexAttribute { format: VertexFormat::Float3, shader_location: 1, offset: 12 },
            VertexAttribute { format: VertexFormat::Float4, shader_location: 2, offset: 24 },
            VertexAttribute { format: VertexFormat::Float2, shader_location: 3, offset: 40 },
        ]);
        r
    }

    pub fn new(position: [u32; 3], normal: [u32; 3], tangent: [u32; 4], uv: [u32; 2]) -> (r: Vertex)
        ensures
            r == (Vertex { position, normal, tangent, uv }),
    {
        Vertex { position, normal, tangent, uv }
    }

    pub fn set_position(&mut self, position: [u32; 3])
        ensures
            *final(self) == (Vertex { position, ..*old(self) }),
    {
        self.position = position;
    }

    pub fn set_normal(&mut self, normal: [u32; 3])
        ensures
            *final(self) == (Vertex { normal, ..*old(self) }),
    {
        self.normal = normal;
    }

    pub fn set_uv(&mut self, uv: [u32; 2])
        ensures
            *final(self) == (Vertex { uv, ..*old(self) }),
    {
        self.uv = uv;
    }

    pub fn set_tangent(&mut self, tangent: [u32; 4])
        ensures
            *final(self) == (Vertex { tangent, ..*old(self) }),
    {
        self.tangent = tangent;
    }
}

} // verus!
