use rustgraphics::renderer::asset::{
    AssetDocument, ImageSource, MagFilter, MaterialDesc, MeshDesc, MinFilter, Mode, PrimitiveDesc,
    Sampler, WrappingMode,
};
use rustgraphics::renderer::gltfimporter::{default_texture, texture_or_default, GLTFImporter};
use rustgraphics::renderer::material::Material;
use rustgraphics::renderer::sampler::{AddressMode, CompareFunction, FilterMode, SamplerDescriptor};
use rustgraphics::renderer::{IntoWgpuEquivalent, Primitive, RenderError, Topology};

const ONE: u32 = 0x3f80_0000;

fn bits3(v: [f32; 3]) -> [u32; 3] {
    [v[0].to_bits(), v[1].to_bits(), v[2].to_bits()]
}

fn plain_material() -> MaterialDesc {
    MaterialDesc {
        base_color_factor: [ONE, ONE, ONE, ONE],
        base_color_texture: None,
        normal_texture: None,
        metallic_roughness_texture: None,
    }
}

fn triangle() -> PrimitiveDesc {
    PrimitiveDesc {
        positions: Some(vec![
            bits3([0.0, 0.0, 0.0]),
            bits3([1.0, 0.0, 0.0]),
            bits3([0.0, 1.0, 0.0]),
        ]),
        normals: None,
        tex_coords: None,
        tangents: None,
        indices: Some(vec![0, 1, 2]),
        mode: Mode::Triangles,
        material: plain_material(),
    }
}

fn single(primitives: Vec<PrimitiveDesc>) -> AssetDocument {
    AssetDocument { meshes: vec![MeshDesc { primitives }], images: vec![], samplers: vec![] }
}

#[test]
fn single_triangle_asset_imports() {
    let (mesh, materials, samplers) = GLTFImporter::import_single_mesh(&single(vec![triangle()])).unwrap();
    assert_eq!(mesh.primitives.len(), 1);
    let p = &mesh.primitives[0];
    assert_eq!(p.vertex.len(), 3);
    let expected = [[0.0f32, 0.0, 0.0], [1.0, 0.0, 0.0], [0.0, 1.0, 0.0]];
    for (v, e) in p.vertex.iter().zip(expected.iter()) {
        assert_eq!(v.position, bits3(*e));
        assert_eq!(v.normal, [0, 0, 0]);
        assert_eq!(v.uv, [0, 0]);
        assert_eq!(v.tangent, [0, 0, 0, 0]);
    }
    assert_eq!(p.indices, vec![0, 1, 2]);
    assert_eq!(p.material_index, 0);
    assert_eq!(p.mode, Topology::TriangleList);
    assert_eq!(
        materials,
        vec![Material::new(
            "default.png".to_string(),
            "default.png".to_string(),
            "default.png".to_string(),
            [ONE, ONE, ONE, ONE],
        )]
    );
    assert_eq!(materials[0].color, [1.0f32.to_bits(); 4]);
    assert!(samplers.is_empty());
}

#[test]
fn two_meshes_are_unsupported() {
    let asset = AssetDocument {
        meshes: vec![MeshDesc { primitives: vec![triangle()] }, MeshDesc { primitives: vec![triangle()] }],
        images: vec![],
        samplers: vec![],
    };
    assert!(matches!(GLTFImporter::import_single_mesh(&asset), Err(RenderError::UnsupportedAsset)));
}

#[test]
fn no_mesh_is_unsupported() {
    let asset = AssetDocument { meshes: vec![], images: vec![], samplers: vec![] };
    assert!(matches!(GLTFImporter::import_single_mesh(&asset), Err(RenderError::UnsupportedAsset)));
}

#[test]
fn primitives_keep_declaration_order() {
    let mut second = triangle();
    second.mode = Mode::Points;
    second.indices = None;
    let mut third = triangle();
    third.mode = Mode::LineStrip;
    third.material.base_color_factor = [0, 0, 0, ONE];
    let (mesh, materials, _) =
        GLTFImporter::import_single_mesh(&single(vec![triangle(), second, third])).unwrap();
    assert_eq!(mesh.primitives.len(), 3);
    assert_eq!(materials.len(), 3);
    let modes: Vec<Topology> = mesh.primitives.iter().map(|p| p.mode).collect();
    assert_eq!(modes, vec![Topology::TriangleList, Topology::PointList, Topology::LineStrip]);
    let indices: Vec<usize> = mesh.primitives.iter().map(|p| p.material_index).collect();
    assert_eq!(indices, vec![0, 1, 2]);
    assert!(mesh.primitives[1].indices.is_empty());
    assert_eq!(materials[2].color, [0, 0, 0, ONE]);
}

#[test]
fn mesh_without_primitives_imports_empty() {
    let (mesh, materials, samplers) = GLTFImporter::import_single_mesh(&single(vec![])).unwrap();
    assert!(mesh.primitives.is_empty());
    assert!(materials.is_empty());
    assert!(samplers.is_empty());
}

#[test]
fn aligned_streams_fill_every_vertex() {
    let mut p = triangle();
    p.normals = Some(vec![[1, 2, 3], [4, 5, 6], [7, 8, 9]]);
    p.tex_coords = Some(vec![[10, 11], [12, 13], [14, 15]]);
    p.tangents = Some(vec![[20, 21, 22, 23], [24, 25, 26, 27], [28, 29, 30, 31]]);
    let (mesh, _, _) = GLTFImporter::import_single_mesh(&single(vec![p])).unwrap();
    let v = &mesh.primitives[0].vertex;
    assert_eq!(v[1].normal, [4, 5, 6]);
    assert_eq!(v[2].uv, [14, 15]);
    assert_eq!(v[0].tangent, [20, 21, 22, 23]);
    assert_eq!(v[2].position, bits3([0.0, 1.0, 0.0]));
}

#[test]
fn empty_optional_stream_is_accepted() {
    let mut p = triangle();
    p.normals = Some(vec![]);
    let (mesh, _, _) = GLTFImporter::import_single_mesh(&single(vec![p])).unwrap();
    assert_eq!(mesh.primitives[0].vertex[0].normal, [0, 0, 0]);
}

#[test]
fn longer_normal_stream_is_malformed() {
    let mut p = triangle();
    p.normals = Some(vec![[0, 0, ONE]; 4]);
    assert!(matches!(GLTFImporter::import_single_mesh(&single(vec![p])), Err(RenderError::MalformedAsset)));
}

#[test]
fn shorter_uv_stream_is_malformed() {
    let mut p = triangle();
    p.tex_coords = Some(vec![[0, 0]; 2]);
    assert!(matches!(GLTFImporter::import_single_mesh(&single(vec![p])), Err(RenderError::MalformedAsset)));
}

#[test]
fn tangents_without_positions_are_malformed() {
    let mut p = triangle();
    p.positions = None;
    p.indices = None;
    p.tangents = Some(vec![[0, 0, 0, ONE]]);
    assert!(matches!(GLTFImporter::import_single_mesh(&single(vec![p])), Err(RenderError::MalformedAsset)));
}

#[test]
fn malformed_second_primitive_fails_whole_import() {
    let mut bad = triangle();
    bad.normals = Some(vec![[0, 0, 0]]);
    let result = GLTFImporter::import_single_mesh(&single(vec![triangle(), bad]));
    assert!(matches!(result, Err(RenderError::MalformedAsset)));
}

#[test]
fn index_past_vertices_is_malformed() {
    let mut p = triangle();
    p.indices = Some(vec![0, 1, 3]);
    assert!(matches!(GLTFImporter::import_single_mesh(&single(vec![p])), Err(RenderError::MalformedAsset)));
}

#[test]
fn imported_indices_stay_below_vertex_count() {
    let mut p = triangle();
    p.indices = Some(vec![2, 2, 1, 0, 1]);
    let (mesh, _, _) = GLTFImporter::import_single_mesh(&single(vec![p])).unwrap();
    let prim = &mesh.primitives[0];
    assert_eq!(prim.indices, vec![2, 2, 1, 0, 1]);
    assert!(prim.indices.iter().all(|i| (*i as usize) < prim.vertex.len()));
}

#[test]
fn fill_positions_leaves_primitive_on_error() {
    let mut prim = Primitive::default();
    prim.material_index = 7;
    let mut p = triangle();
    p.tangents = Some(vec![[0, 0, 0, 0]; 5]);
    assert_eq!(GLTFImporter::fill_positions_for_primitive(&mut prim, &p), Err(RenderError::MalformedAsset));
    assert!(prim.vertex.is_empty());
    assert_eq!(prim.material_index, 7);
}

#[test]
fn every_draw_mode_has_a_topology() {
    let cases = [
        (Mode::Points, Topology::PointList),
        (Mode::Lines, Topology::LineList),
        (Mode::LineLoop, Topology::LineList),
        (Mode::LineStrip, Topology::LineStrip),
        (Mode::Triangles, Topology::TriangleList),
        (Mode::TriangleStrip, Topology::TriangleStrip),
        (Mode::TriangleFan, Topology::TriangleList),
    ];
    for (mode, topology) in cases {
        assert_eq!(mode.into_wgpu_equivalent(), topology);
    }
}

#[test]
fn out_of_range_base_color_image_falls_back() {
    let mut p = triangle();
    p.material.base_color_texture = Some(5);
    let mut asset = single(vec![p]);
    asset.images = vec![ImageSource::Uri("textures/brick.png".to_string())];
    let (_, materials, _) = GLTFImporter::import_single_mesh(&asset).unwrap();
    assert_eq!(materials[0].texture, "default.png");
}

#[test]
fn texture_slots_resolve_to_file_names() {
    let mut p = triangle();
    p.material.base_color_texture = Some(0);
    p.material.normal_texture = Some(1);
    p.material.metallic_roughness_texture = Some(2);
    let mut asset = single(vec![p]);
    asset.images = vec![
        ImageSource::Uri("textures/brick.png".to_string()),
        ImageSource::Uri("brick_normal.png".to_string()),
        ImageSource::View,
    ];
    let (_, materials, _) = GLTFImporter::import_single_mesh(&asset).unwrap();
    assert_eq!(materials[0].texture, "brick.png");
    assert_eq!(materials[0].normal, "brick_normal.png");
    assert_eq!(materials[0].roughness, "default.png");
}

#[test]
fn texture_url_takes_final_path_component() {
    let images = vec![ImageSource::Uri("assets/maps/rough.jpg".to_string()), ImageSource::View];
    assert_eq!(GLTFImporter::get_texture_url(&Some(0), &images), Some("rough.jpg".to_string()));
    assert_eq!(GLTFImporter::get_texture_url(&Some(1), &images), None);
    assert_eq!(GLTFImporter::get_texture_url(&Some(2), &images), None);
    assert_eq!(GLTFImporter::get_texture_url(&None, &images), None);
}

#[test]
fn missing_texture_name_becomes_default() {
    assert_eq!(default_texture(), "default.png");
    assert_eq!(texture_or_default(None), "default.png");
    assert_eq!(texture_or_default(Some("a.png".to_string())), "a.png");
}

#[test]
fn fill_material_appends_once() {
    let images = vec![ImageSource::Uri("a/b.png".to_string())];
    let mut materials: Vec<Material> = Vec::new();
    let mut prim = Primitive::default();
    let mut desc = plain_material();
    desc.normal_texture = Some(0);
    GLTFImporter::fill_material_for_primitive(&images, &mut materials, &mut prim, &desc);
    GLTFImporter::fill_material_for_primitive(&images, &mut materials, &mut prim, &desc);
    assert_eq!(materials.len(), 2);
    assert_eq!(prim.material_index, 1);
    assert_eq!(materials[1].normal, "b.png");
    assert_eq!(materials[1].texture, "default.png");
}

#[test]
fn samplers_map_in_order() {
    let mut asset = single(vec![triangle()]);
    asset.samplers = vec![
        Sampler { min_filter: None, mag_filter: None, wrap_s: WrappingMode::Repeat, wrap_t: WrappingMode::MirroredRepeat },
        Sampler {
            min_filter: Some(MinFilter::NearestMipmapLinear),
            mag_filter: Some(MagFilter::Nearest),
            wrap_s: WrappingMode::ClampToEdge,
            wrap_t: WrappingMode::Repeat,
        },
    ];
    let (_, _, samplers) = GLTFImporter::import_single_mesh(&asset).unwrap();
    assert_eq!(
        samplers,
        vec![
            SamplerDescriptor {
                min_filter: FilterMode::Linear,
                mag_filter: FilterMode::Linear,
                address_mode_u: AddressMode::Repeat,
                address_mode_v: AddressMode::MirrorRepeat,
                address_mode_w: AddressMode::ClampToEdge,
                lod_min_clamp: 0,
                lod_max_clamp: 100,
                compare: CompareFunction::Undefined,
                mipmap_filter: FilterMode::Nearest,
            },
            SamplerDescriptor {
                min_filter: FilterMode::Nearest,
                mag_filter: FilterMode::Nearest,
                address_mode_u: AddressMode::ClampToEdge,
                address_mode_v: AddressMode::Repeat,
                address_mode_w: AddressMode::ClampToEdge,
                lod_min_clamp: 0,
                lod_max_clamp: 100,
                compare: CompareFunction::Undefined,
                mipmap_filter: FilterMode::Nearest,
            },
        ]
    );
}

#[test]
fn mipmap_filters_collapse_to_base_filter() {
    assert_eq!(MinFilter::LinearMipmapLinear.into_wgpu_equivalent(), FilterMode::Linear);
    assert_eq!(MinFilter::LinearMipmapNearest.into_wgpu_equivalent(), FilterMode::Linear);
    assert_eq!(MinFilter::NearestMipmapNearest.into_wgpu_equivalent(), FilterMode::Nearest);
    assert_eq!(MinFilter::NearestMipmapLinear.into_wgpu_equivalent(), FilterMode::Nearest);
    assert_eq!(MinFilter::Linear.into_wgpu_equivalent(), FilterMode::Linear);
    assert_eq!(MagFilter::Nearest.into_wgpu_equivalent(), FilterMode::Nearest);
    assert_eq!(WrappingMode::MirroredRepeat.into_wgpu_equivalent(), AddressMode::MirrorRepeat);
}
