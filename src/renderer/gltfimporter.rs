//! Conversion of a parsed single-mesh asset into meshes, materials and samplers.
use vstd::prelude::*;

verus! {

use crate::renderer::asset::{
    AssetDocument,
    ImageSource,
    MagFilter,
    MaterialDesc,
    MinFilter,
    Mode,
    PrimitiveDesc,
    Sampler,
    WrappingMode,
};
use crate::renderer::sampler::{AddressMode, CompareFunction, FilterMode, SamplerDescriptor};
use crate::renderer::material::Material;
use crate::renderer::vertex::Vertex;
use crate::renderer::{IntoWgpuEquivalent, Mesh, Primitive, RenderError, Topology, vertex_from_desc};

/// The file name that an image URI's path ends in, if it ends in one.
pub uninterp spec fn file_name_of(uri: Seq<char>) -> Option<Seq<char>>;

/// Relies on `std::path::Path::file_name`: the final component of the path
/// that `uri` spells, if that component names a file. Such a component is a
/// part of `uri`, so it is valid UTF-8 and converts to a `String`.
#[verifier::external_body]
fn uri_file_name(uri: &str) -> (r: Option<String>)
    ensures
        r is Some <==> file_name_of(uri@) is Some,
        r is Some ==> file_name_of(uri@) == Some(r.unwrap()@),
{
    std::path::Path::new(uri).file_name().and_then(|name| name.to_str()).map(|name| name.to_string())
}

/// The file that stands in for every texture that cannot be resolved.
pub open spec fn default_texture_name() -> Seq<char> {
    seq!['d', 'e', 'f', 'a', 'u', 'l', 't', '.', 'p', 'n', 'g']
}

/// The file name a texture slot refers to: the slot's image, if it is one of
/// the asset's images and has a URI whose path ends in a file name.
pub open spec fn texture_url(slot: Option<usize>, images: Seq<ImageSource>) -> Option<Seq<char>> {
    match slot {
        Some(i) => if i < images.len() {
            match images[i as int] {
                ImageSource::Uri(uri) => file_name_of(uri@),
                ImageSource::View => None,
            }
        } else {
            None
        },
        None => None,
    }
}

/// The file a texture slot resolves to: its own file, else the default texture.
pub open spec fn resolved_texture(slot: Option<usize>, images: Seq<ImageSource>) -> Seq<char> {
    match texture_url(slot, images) {
        Some(name) => name,
        None => default_texture_name(),
    }
}

/// The material that `desc` declares, with each texture slot resolved against
/// `images` and the base colour factor copied.
pub open spec fn material_from_desc(m: Material, desc: MaterialDesc, images: Seq<ImageSource>) -> bool {
    &&& m.texture@ == resolved_texture(desc.base_color_texture, images)
    &&& m.normal@ == resolved_texture(desc.normal_texture, images)
    &&& m.roughness@ == resolved_texture(desc.metallic_roughness_texture, images)
    &&& m.color == desc.base_color_factor
}

/// A texture slot whose image index lies past the asset's images falls back to
/// the default texture.
pub proof fn out_of_range_texture_falls_back(i: usize, images: Seq<ImageSource>)
    requires
        i >= images.len(),
    ensures
        resolved_texture(Some(i), images) == default_texture_name(),
{
}

/// A texture slot that is empty, or whose image is embedded rather than
/// referenced by URI, falls back to the default texture.
pub proof fn unresolved_texture_falls_back(slot: Option<usize>, images: Seq<ImageSource>)
    requires
        slot is None || (slot.unwrap() < images.len() && images[slot.unwrap() as int] is View),
    ensures
        resolved_texture(slot, images) == default_texture_name(),
{
}

/// The default texture's file name.
pub fn default_texture() -> (r: String)
    ensures
        r@ == default_texture_name(),
{
    proof {
        reveal_strlit("default.png");
    }
    let r = "default.png".to_owned();
    assert(r@ =~= default_texture_name());
    r
}

/// The file a slot resolves to, given the file name found for it, if any.
pub fn texture_or_default(name: Option<String>) -> (r: String)
    ensures
        r@ == match name {
            Some(n) => n@,
            None => default_texture_name(),
        },
{
    match name {
        Some(n) => n,
        None => default_texture(),
    }
}

impl IntoWgpuEquivalent for MagFilter {
    type Output = FilterMode;

    open spec fn wgpu_equivalent(self) -> FilterMode {
        match self {
            MagFilter::Linear => FilterMode::Linear,
            MagFilter::Nearest => FilterMode::Nearest,
        }
    }

    fn into_wgpu_equivalent(self) -> (r: FilterMode) {
        match self {
            MagFilter::Linear => FilterMode::Linear,
            MagFilter::Nearest => FilterMode::Nearest,
        }
    }
}

/// Line loops and triangle fans have no backend topology of their own: they are
/// drawn as line lists and triangle lists.
impl IntoWgpuEquivalent for Mode {
    type Output = Topology;

    open spec fn wgpu_equivalent(self) -> Topology {
        match self {
            Mode::Points => Topology::PointList,
            Mode::Lines => Topology::LineList,
            Mode::LineLoop => Topology::LineList,
            Mode::LineStrip => Topology::LineStrip,
            Mode::Triangles => Topology::TriangleList,
            Mode::TriangleStrip => Topology::TriangleStrip,
            Mode::TriangleFan => Topology::TriangleList,
        }
    }

    fn into_wgpu_equivalent(self) -> (r: Topology) {
        match self {
            Mode::Points => Topology::PointList,
            Mode::Lines => Topology::LineList,
            Mode::LineStrip => Topology::LineStrip,
            Mode::Triangles => Topology::TriangleList,
            Mode::TriangleStrip => Topology::TriangleStrip,
            Mode::LineLoop => Topology::LineList,
            Mode::TriangleFan => Topology::TriangleList,
        }
    }
}

/// The backend has no per-level mipmap choice in its filters: each mipmap
/// variant becomes the filter it starts from.
impl IntoWgpuEquivalent for MinFilter {
    type Output = FilterMode;

    open spec fn wgpu_equivalent(self) -> FilterMode {
        match self {
            MinFilter::Linear => FilterMode::Linear,
            MinFilter::Nearest => FilterMode::Nearest,
            MinFilter::LinearMipmapLinear => FilterMode::Linear,
            MinFilter::LinearMipmapNearest => FilterMode::Linear,
            MinFilter::NearestMipmapLinear => FilterMode::Nearest,
            MinFilter::NearestMipmapNearest => FilterMode::Nearest,
        }
    }

    fn into_wgpu_equivalent(self) -> (r: FilterMode) {
        match self {
            MinFilter::Linear => FilterMode::Linear,
            MinFilter::Nearest => FilterMode::Nearest,
            MinFilter::LinearMipmapLinear => FilterMode::Linear,
            MinFilter::LinearMipmapNearest => FilterMode::Linear,
            MinFilter::NearestMipmapLinear => FilterMode::Nearest,
            MinFilter::NearestMipmapNearest => FilterMode::Nearest,
        }
    }
}

impl IntoWgpuEquivalent for WrappingMode {
    type Output = AddressMode;

    open spec fn wgpu_equivalent(self) -> AddressMode {
        match self {
            WrappingMode::ClampToEdge => AddressMode::ClampToEdge,
            WrappingMode::MirroredRepeat => AddressMode::MirrorRepeat,
            WrappingMode::Repeat => AddressMode::Repeat,
        }
    }

    fn into_wgpu_equivalent(self) -> (r: AddressMode) {
        match self {
            WrappingMode::ClampToEdge => AddressMode::ClampToEdge,
            WrappingMode::MirroredRepeat => AddressMode::MirrorRepeat,
            WrappingMode::Repeat => AddressMode::Repeat,
        }
    }
}

/// Absent filters are linear. The asset has no third wrapping axis, so it is
/// clamped to the edge; samplers never compare, and clamp the level of detail
/// to [0, 100].
impl IntoWgpuEquivalent for Sampler {
    type Output = SamplerDescriptor;

    open spec fn wgpu_equivalent(self) -> SamplerDescriptor {
        SamplerDescriptor {
            min_filter: match self.min_filter {
                Some(f) => f.wgpu_equivalent(),
                None => FilterMode::Linear,
            },
            mag_filter: match self.mag_filter {
                Some(f) => f.wgpu_equivalent(),
                None => FilterMode::Linear,
            },
            address_mode_u: self.wrap_s.wgpu_equivalent(),
            address_mode_v: self.wrap_t.wgpu_equivalent(),
            address_mode_w: AddressMode::ClampToEdge,
            lod_min_clamp: 0,
            lod_max_clamp: 100,
            compare: CompareFunction::Undefined,
            mipmap_filter: FilterMode::Nearest,
        }
    }

    fn into_wgpu_equivalent(self) -> (r: SamplerDescriptor) {
        SamplerDescriptor {
            min_filter: self.min_filter.unwrap_or(MinFilter::Linear).into_wgpu_equivalent(),
            mag_filter: self.mag_filter.unwrap_or(MagFilter::Linear).into_wgpu_equivalent(),
            address_mode_u: self.wrap_s.into_wgpu_equivalent(),
            address_mode_v: self.wrap_t.into_wgpu_equivalent(),
            address_mode_w: AddressMode::ClampToEdge,
            lod_min_clamp: 0,
            lod_max_clamp: 100,
            compare: CompareFunction::Undefined,
            mipmap_filter: FilterMode::Nearest,
        }
    }
}

/// Every draw mode has a topology, and exactly line lists and line loops are
/// drawn as line lists, triangle lists and triangle fans as triangle lists.
pub proof fn topology_collapse(m: Mode)
    ensures
        m.wgpu_equivalent() == Topology::LineList <==> (m == Mode::Lines || m == Mode::LineLoop),
        m.wgpu_equivalent() == Topology::TriangleList <==> (m == Mode::Triangles || m
            == Mode::TriangleFan),
        m.wgpu_equivalent() == Topology::PointList <==> m == Mode::Points,
        m.wgpu_equivalent() == Topology::LineStrip <==> m == Mode::LineStrip,
        m.wgpu_equivalent() == Topology::TriangleStrip <==> m == Mode::TriangleStrip,
{
}

/// What an import produces: the mesh, the material list its primitives index
/// into, and the samplers in the asset's order.
pub type Imported = (Mesh, Vec<Material>, Vec<SamplerDescriptor>);

/// Every primitive of `prims` can be imported.
pub open spec fn all_well_formed(prims: Seq<PrimitiveDesc>) -> bool {
    forall|k: int| 0 <= k < prims.len() ==> (#[trigger] prims[k]).is_well_formed()
}

/// `p` is what the `k`th primitive `desc` of a mesh imports to: its geometry,
/// the `k`th material of the list, and the topology of its draw mode.
pub open spec fn primitive_from_desc(p: Primitive, desc: PrimitiveDesc, k: int) -> bool {
    &&& p.geometry_from_desc(desc)
    &&& p.material_index == k
    &&& p.mode == desc.mode.wgpu_equivalent()
}

/// `(mesh, materials, samplers)` is the import of the single mesh of `asset`:
/// one primitive and one material per declared primitive, in declaration order,
/// and one sampler descriptor per declared sampler, in declaration order.
pub open spec fn imported_from(
    mesh: Mesh,
    materials: Seq<Material>,
    samplers: Seq<SamplerDescriptor>,
    asset: AssetDocument,
) -> bool {
    let prims = asset.primitive_seq();
    &&& mesh.primitives@.len() == prims.len()
    &&& forall|k: int|
        0 <= k < prims.len() ==> primitive_from_desc(#[trigger] mesh.primitives@[k], prims[k], k)
    &&& materials.len() == prims.len()
    &&& forall|k: int|
        0 <= k < prims.len() ==> material_from_desc(#[trigger] materials[k], prims[k].material, asset.images@)
    &&& samplers.len() == asset.samplers@.len()
    &&& forall|k: int|
        0 <= k < samplers.len() ==> #[trigger] samplers[k] == asset.samplers@[k].wgpu_equivalent()
}

/// A primitive whose geometry comes from a declaration with every index in
/// range has every index below its vertex count.
pub proof fn geometry_keeps_indices_in_bounds(p: Primitive, desc: PrimitiveDesc)
    requires
        p.geometry_from_desc(desc),
        desc.indices_in_range(),
    ensures
        p.indices_in_bounds(),
{
    assert forall|k: int| 0 <= k < p.indices@.len() implies (#[trigger] p.indices@[k] as nat)
        < p.vertex@.len() by {
        assert(desc.index_seq()[k] == p.indices@[k]);
    }
}

/// The importer of single-mesh assets.
pub struct GLTFImporter;

impl GLTFImporter {
    /// The file name that a texture slot refers to, if the slot names an image
    /// of `images` whose URI ends in a file name.
    pub fn get_texture_url(info: &Option<usize>, images: &Vec<ImageSource>) -> (r: Option<String>)
        ensures
            r is Some <==> texture_url(*info, images@) is Some,
            r is Some ==> texture_url(*info, images@) == Some(r.unwrap()@),
    {
        match info {
            Some(i) => {
                if *i < images.len() {
                    match &images[*i] {
                        ImageSource::Uri(uri) => uri_file_name(uri.as_str()),
                        ImageSource::View => None,
                    }
                } else {
                    None
                }
            },
            None => None,
        }
    }

    /// Resolves the material of a primitive against the asset's images, appends
    /// it to `materials` and points `intprimitive` at it.
    pub fn fill_material_for_primitive(
        images: &Vec<ImageSource>,
        materials: &mut Vec<Material>,
        intprimitive: &mut Primitive,
        primitive: &MaterialDesc,
    )
        ensures
            final(materials)@.len() == old(materials)@.len() + 1,
            final(materials)@.subrange(0, old(materials)@.len() as int) == old(materials)@,
            material_from_desc(final(materials)@[old(materials)@.len() as int], *primitive, images@),
            final(intprimitive).material_index == old(materials)@.len(),
            final(intprimitive).vertex == old(intprimitive).vertex,
            final(intprimitive).indices == old(intprimitive).indices,
            final(intprimitive).mode == old(intprimitive).mode,
    {
        let main_texture = texture_or_default(Self::get_texture_url(&primitive.base_color_texture, images));
        let normal_texture = texture_or_default(Self::get_texture_url(&primitive.normal_texture, images));
        let roughness_texture = texture_or_default(
            Self::get_texture_url(&primitive.metallic_roughness_texture, images),
        );
        let material = Material::new(main_texture, normal_texture, roughness_texture, primitive.base_color_factor);
        materials.push(material);
        intprimitive.material_index = materials.len() - 1;
        assert(materials@.subrange(0, old(materials)@.len() as int) =~= old(materials)@);
    }

    /// Imports the single mesh of `asset` with its materials and samplers.
    /// Fails with `UnsupportedAsset` unless the asset holds exactly one mesh,
    /// and with `MalformedAsset` if any primitive of it is not well formed;
    /// nothing is returned but the error then.
    pub fn import_single_mesh(asset: &AssetDocument) -> (r: Result<Imported, RenderError>)
        ensures
            !asset.has_single_mesh() ==> r == Err::<Imported, RenderError>(
                RenderError::UnsupportedAsset,
            ),
            asset.has_single_mesh() ==> (r is Ok <==> all_well_formed(asset.primitive_seq())),
            asset.has_single_mesh() && !all_well_formed(asset.primitive_seq()) ==> r == Err::<
                Imported,
                RenderError,
            >(RenderError::MalformedAsset),
            r is Ok ==> imported_from(r.unwrap().0, r.unwrap().1@, r.unwrap().2@, *asset),
            r is Ok ==> forall|k: int|
                0 <= k < r.unwrap().0.primitives@.len() ==> (#[trigger] r.unwrap().0.primitives@[k]).indices_in_bounds(),
    {
        if asset.meshes.len() != 1 {
            return Err(RenderError::UnsupportedAsset);
        }
        let mesh = &asset.meshes[0];
        let ghost prims = asset.primitive_seq();
        let mut materials: Vec<Material> = Vec::new();
        let mut primitives: Vec<Primitive> = Vec::new();
        let mut k: usize = 0;
        while k < mesh.primitives.len()
            invariant
                asset.meshes@.len() == 1,
                mesh == asset.meshes@[0],
                prims == mesh.primitives@,
                k <= prims.len(),
                primitives@.len() == k,
                materials@.len() == k,
                forall|j: int| 0 <= j < k ==> (#[trigger] prims[j]).is_well_formed(),
                forall|j: int| 0 <= j < k ==> primitive_from_desc(#[trigger] primitives@[j], prims[j], j),
                forall|j: int|
                    0 <= j < k ==> material_from_desc(#[trigger] materials@[j], prims[j].material, asset.images@),
            decreases prims.len() - k,
        {
            let gltf_primitive = &mesh.primitives[k];
            let mut primitive: Primitive = Default::default();
            match Self::fill_positions_for_primitive(&mut primitive, gltf_primitive) {
                Ok(()) => {},
                Err(e) => {
                    assert(!prims[k as int].is_well_formed());
                    return Err(e);
                },
            }
            Self::fill_material_for_primitive(&asset.images, &mut materials, &mut primitive, &gltf_primitive.material);
            primitive.mode = gltf_primitive.mode.into_wgpu_equivalent();
            let ghost before = primitives@;
            primitives.push(primitive);
            assert forall|j: int| 0 <= j < k implies material_from_desc(
                #[trigger] materials@[j],
                prims[j].material,
                asset.images@,
            ) by {
                assert(materials@[j] == materials@.subrange(0, k as int)[j]);
            }
            assert forall|j: int| 0 <= j <= k implies primitive_from_desc(
                #[trigger] primitives@[j],
                prims[j],
                j,
            ) by {
                if j < k {
                    assert(primitives@[j] == before[j]);
                }
            }
            k = k + 1;
        }
        let mut samplers: Vec<SamplerDescriptor> = Vec::new();
        let mut s: usize = 0;
        while s < asset.samplers.len()
            invariant
                s <= asset.samplers@.len(),
                samplers@.len() == s,
                forall|j: int| 0 <= j < s ==> #[trigger] samplers@[j] == asset.samplers@[j].wgpu_equivalent(),
            decreases asset.samplers@.len() - s,
        {
            let sampler = asset.samplers[s];
            samplers.push(sampler.into_wgpu_equivalent());
            s = s + 1;
        }
        let out_mesh = Mesh::new(primitives);
        proof {
            assert forall|j: int| 0 <= j < out_mesh.primitives@.len() implies (#[trigger] out_mesh.primitives@[j]).indices_in_bounds() by {
                geometry_keeps_indices_in_bounds(out_mesh.primitives@[j], prims[j]);
            }
        }
        Ok((out_mesh, materials, samplers))
    }

    /// Fills the vertices and indices of `intprimitive` from the streams of
    /// `primitive`. Fails, leaving `intprimitive` as it was, when an optional
    /// stream is neither empty nor as long as the positions, or when an index
    /// names no vertex.
    pub fn fill_positions_for_primitive(
        intprimitive: &mut Primitive,
        primitive: &PrimitiveDesc,
    ) -> (r: Result<(), RenderError>)
        ensures
            r is Ok <==> primitive.is_well_formed(),
            r is Err ==> r == Err::<(), RenderError>(RenderError::MalformedAsset)
                && *final(intprimitive) == *old(intprimitive),
            r is Ok ==> final(intprimitive).geometry_from_desc(*primitive),
            final(intprimitive).material_index == old(intprimitive).material_index,
            final(intprimitive).mode == old(intprimitive).mode,
    {
        let n: usize = match &primitive.positions {
            Some(p) => p.len(),
            None => 0,
        };
        let normals_ok = match &primitive.normals {
            Some(s) => s.len() == 0 || s.len() == n,
            None => true,
        };
        let uvs_ok = match &primitive.tex_coords {
            Some(s) => s.len() == 0 || s.len() == n,
            None => true,
        };
        let tangents_ok = match &primitive.tangents {
            Some(s) => s.len() == 0 || s.len() == n,
            None => true,
        };
        if !(normals_ok && uvs_ok && tangents_ok) {
            return Err(RenderError::MalformedAsset);
        }
        let mut vertex: Vec<Vertex> = Vec::new();
        if let Some(positions) = &primitive.positions {
            let mut i: usize = 0;
            while i < n
                invariant
                    n == positions@.len(),
                    primitive.positions == Some(*positions),
                    primitive.attributes_aligned(),
                    n == primitive.vertex_count(),
                    i <= n,
                    vertex@.len() == i,
                    forall|j: int| 0 <= j < i ==> vertex_from_desc(#[trigger] vertex@[j], *primitive, j),
                decreases n - i,
            {
                let mut vert: Vertex = Default::default();
                vert.set_position(positions[i]);
                if let Some(normals) = &primitive.normals {
                    if normals.len() > 0 {
                        vert.set_normal(normals[i]);
                    }
                }
                if let Some(uvs) = &primitive.tex_coords {
                    if uvs.len() > 0 {
                        vert.set_uv(uvs[i]);
                    }
                }
                if let Some(tangents) = &primitive.tangents {
                    if tangents.len() > 0 {
                        vert.set_tangent(tangents[i]);
                    }
                }
                vertex.push(vert);
                i = i + 1;
            }
        }
        let mut indices: Vec<u32> = Vec::new();
        if let Some(index_stream) = &primitive.indices {
            let mut k: usize = 0;
            while k < index_stream.len()
                invariant
                    primitive.indices == Some(*index_stream),
                    n == primitive.vertex_count(),
                    k <= index_stream@.len(),
                    indices@ == index_stream@.subrange(0, k as int),
                    forall|j: int| 0 <= j < k ==> (#[trigger] index_stream@[j] as nat) < n,
                decreases index_stream@.len() - k,
            {
                if index_stream[k] as usize >= n {
                    assert(primitive.index_seq()[k as int] == index_stream@[k as int]);
                    return Err(RenderError::MalformedAsset);
                }
                indices.push(index_stream[k]);
                k = k + 1;
            }
            assert(indices@ =~= index_stream@);
        }
        intprimitive.vertex = vertex;
        intprimitive.indices = indices;
        Ok(())
    }
}

} // verus!
