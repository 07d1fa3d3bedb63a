use std::cell::RefCell;
use std::collections::VecDeque;
use vkdemo::geometry::{
    box_corners, vertex_bytes, walk_transform, PrimitiveSource, VertexData, WalkStep,
};
use vkdemo::materials::{material_bytes, object_bytes, MaterialDesc, ObjectData};
use vkdemo::pipelines::SamplerInfo;
use vkdemo::scene::{
    SceneError, SceneMakers, SceneResources, SceneSource, TextureSource, TextureUpload,
};
use vkdemo::textures::{
    expand_pixels, mark_colors, mip_levels, sampler_index, sampler_infos, texture_desc,
    PixelFormat, TextureRef, WrappingMode,
};
use vkdemo::utils::buffer::BufferCreation;
use vkdemo::utils::context::VkCtx;
use vkdemo::utils::upload::UploadStep;
use vkdemo::vk;
use vkdemo::vk::BufferCopy;

fn bits<const N: usize>(numbers: [f32; N]) -> [u32; N] {
    numbers.map(f32::to_bits)
}

fn context() -> VkCtx {
    VkCtx::new(0, 1, |_| vec![1], |_| vec![2, 3], |_| vec![4])
}

type Upload = fn(Vec<UploadStep<BufferCreation, BufferCopy>>) -> u64;
type Samplers = fn(Vec<SamplerInfo>) -> Vec<u64>;
type Texture = fn(TextureUpload) -> u64;

fn makers(textures: usize, primitives: usize) -> SceneMakers<Upload, Samplers, Texture> {
    let upload: Upload = |_| 80;
    let samplers: Samplers = |infos| vec![81; infos.len()];
    let texture: Texture = |_| 82;
    SceneMakers {
        objects: upload,
        samplers,
        materials: upload,
        textures: vec![texture; textures].into(),
        vertices: vec![upload; primitives].into(),
        indices: vec![upload; primitives].into(),
    }
}

fn material() -> MaterialDesc {
    MaterialDesc {
        albedo_factor: bits([1.0, 0.5, 0.25, 1.0]),
        emissive_factor: bits([0.0, 0.0, 2.0]),
        metallic_factor: 1.0f32.to_bits(),
        roughness_factor: 0.75f32.to_bits(),
        alpha_cutoff: None,
        base_color: None,
        metallic_roughness: None,
        normal: None,
        occlusion: None,
        emissive: None,
    }
}

fn texture(source: usize, wrap_s: WrappingMode, wrap_t: WrappingMode) -> Option<TextureRef> {
    Some(TextureRef { source, wrap_s, wrap_t })
}

fn triangle(material: Option<usize>) -> PrimitiveSource {
    PrimitiveSource {
        positions: vec![bits([0.0, 0.0, 0.0]), bits([1.0, 0.0, 0.0]), bits([0.0, 1.0, 0.0])],
        normals: vec![bits([0.0, 0.0, 1.0]); 3],
        tangents: None,
        colors: None,
        tex_coords: None,
        indices: vec![0, 1, 2],
        material,
    }
}

fn source() -> SceneSource {
    let mut painted = material();
    painted.base_color = texture(1, WrappingMode::Repeat, WrappingMode::ClampToEdge);
    painted.normal = texture(0, WrappingMode::MirroredRepeat, WrappingMode::MirroredRepeat);
    SceneSource {
        objects: vec![
            ObjectData { transform: [1; 16], normal_transform: [2; 9] },
            ObjectData { transform: [3; 16], normal_transform: [4; 9] },
        ],
        materials: vec![painted, material()],
        textures: vec![
            TextureSource {
                width: 2,
                height: 1,
                format: PixelFormat::R8G8B8,
                pixels: vec![1, 2, 3, 4, 5, 6],
            },
            TextureSource {
                width: 1,
                height: 1,
                format: PixelFormat::R8G8B8A8,
                pixels: vec![7, 8, 9, 10],
            },
        ],
        node_meshes: vec![None, Some(0), Some(0)],
        meshes: vec![vec![triangle(Some(1)), triangle(None)]],
    }
}

#[test]
fn samplers_cover_all_pairs_of_modes() {
    let modes = [WrappingMode::ClampToEdge, WrappingMode::Repeat, WrappingMode::MirroredRepeat];
    let address = [
        ash::vk::SamplerAddressMode::CLAMP_TO_EDGE.as_raw(),
        ash::vk::SamplerAddressMode::REPEAT.as_raw(),
        ash::vk::SamplerAddressMode::MIRRORED_REPEAT.as_raw(),
    ];
    let samplers = sampler_infos();
    assert_eq!(samplers.len(), 9);
    for (s, wrap_s) in modes.iter().enumerate() {
        for (t, wrap_t) in modes.iter().enumerate() {
            let index = sampler_index(*wrap_s, *wrap_t);
            assert_eq!(index as usize, s * 3 + t);
            assert_eq!(samplers[index as usize].address_mode_u, address[s]);
            assert_eq!(samplers[index as usize].address_mode_v, address[t]);
            assert!(samplers[index as usize].all_levels);
        }
    }
}

#[test]
fn pixels_get_four_channels() {
    assert_eq!(
        expand_pixels(PixelFormat::R8G8B8A8, &vec![1, 2, 3, 4, 5]),
        Some(vec![1, 2, 3, 4, 5])
    );
    assert_eq!(
        expand_pixels(PixelFormat::R8G8B8, &vec![1, 2, 3, 4, 5, 6, 7]),
        Some(vec![1, 2, 3, 255, 4, 5, 6, 255])
    );
    assert_eq!(
        expand_pixels(PixelFormat::R8G8, &vec![1, 2, 3, 4]),
        Some(vec![1, 2, 0, 255, 3, 4, 0, 255])
    );
    assert_eq!(expand_pixels(PixelFormat::R8, &vec![9]), Some(vec![9, 0, 0, 255]));
    assert_eq!(expand_pixels(PixelFormat::R8, &Vec::new()), Some(Vec::new()));
    assert_eq!(expand_pixels(PixelFormat::Other(7), &vec![1]), None);
}

#[test]
fn levels_reach_one_texel() {
    assert_eq!(mip_levels(1, 1), 1);
    assert_eq!(mip_levels(2, 1), 2);
    assert_eq!(mip_levels(3, 3), 2);
    assert_eq!(mip_levels(1024, 512), 11);
    assert_eq!(mip_levels(0, 5), 3);
    assert_eq!(mip_levels(u32::MAX, 1), 32);
    for size in [1u32, 2, 3, 7, 8, 640, 1000, 4096] {
        assert_eq!(mip_levels(size, 1), size.ilog2() + 1);
    }
}

#[test]
fn colors_are_marked() {
    assert_eq!(
        mark_colors(&vec![Some(2), None, Some(0), Some(2)], 4),
        vec![true, false, true, false]
    );
    let desc = texture_desc(4, 8, true);
    assert_eq!(desc.format, ash::vk::Format::R8G8B8A8_SRGB.as_raw());
    assert_eq!(desc.mip_levels, 4);
    assert_eq!(
        texture_desc(4, 8, false).format,
        ash::vk::Format::R8G8B8A8_UNORM.as_raw()
    );
}

#[test]
fn vertices_are_put_together() {
    let mut primitive = triangle(None);
    let vertices = primitive.vertices();
    assert_eq!(vertices.len(), 3);
    assert_eq!(vertices[1].position, bits([1.0, 0.0, 0.0]));
    assert_eq!(vertices[1].tangent, bits([1.0, 0.0, 0.0, 1.0]));
    assert_eq!(vertices[1].color, bits([1.0, 1.0, 1.0]));
    assert_eq!(vertices[1].uv, bits([0.0, 0.0]));
    primitive.tangents = Some(vec![bits([0.0, 1.0, 0.0, -1.0]); 5]);
    primitive.tex_coords = Some(vec![bits([0.5, 0.25]); 2]);
    let vertices = primitive.vertices();
    assert_eq!(vertices.len(), 2);
    assert_eq!(primitive.count_vertices(), 2);
    assert_eq!(vertices[1].tangent, bits([0.0, 1.0, 0.0, -1.0]));
    assert_eq!(vertices[1].uv, bits([0.5, 0.25]));
}

#[test]
fn buffers_are_packed() {
    let vertex = VertexData {
        position: [1, 2, 3],
        normal: [4, 5, 6],
        tangent: [7, 8, 9, 10],
        color: [11, 12, 13],
        uv: [14, 15],
    };
    let bytes = vertex_bytes(&vec![vertex, vertex]);
    assert_eq!(bytes.len(), 120);
    let expected: Vec<u8> = (1u32..16).chain(1..16).flat_map(|n| n.to_ne_bytes()).collect();
    assert_eq!(bytes, expected);
    let objects = object_bytes(&vec![ObjectData { transform: [1; 16], normal_transform: [2; 9] }]);
    assert_eq!(objects.len(), 100);
    assert_eq!(objects[96..], 2u32.to_ne_bytes());
}

#[test]
fn materials_refer_to_textures_and_samplers() {
    let mut painted = material();
    painted.alpha_cutoff = Some(0.25f32.to_bits());
    painted.base_color = texture(3, WrappingMode::Repeat, WrappingMode::MirroredRepeat);
    painted.emissive = texture(7, WrappingMode::ClampToEdge, WrappingMode::ClampToEdge);
    let data = painted.to_data();
    assert_eq!(data.base_color_texture, 3);
    assert_eq!(data.albedo_sampler_index, 5);
    assert_eq!(data.emissive_texture, 7);
    assert_eq!(data.emissive_sampler_index, 0);
    assert_eq!(data.normal_texture, -1);
    assert_eq!(data.normal_sampler_index, 0);
    assert_eq!(f32::from_bits(data.alpha_cutoff), 0.25);
    assert_eq!(f32::from_bits(material().to_data().alpha_cutoff), 0.5);
    let bytes = material_bytes(&vec![painted]);
    assert_eq!(bytes.len(), 80);
    assert_eq!(bytes[40..44], 3i32.to_ne_bytes());
    assert_eq!(bytes[48..52], (-1i32).to_ne_bytes());
}

#[test]
fn box_has_eight_corners() {
    let corners = box_corners([1, 2, 3], [4, 5, 6]);
    assert_eq!(corners[0], [1, 2, 3]);
    assert_eq!(corners[1], [1, 2, 6]);
    assert_eq!(corners[2], [1, 5, 3]);
    assert_eq!(corners[4], [4, 2, 3]);
    assert_eq!(corners[7], [4, 5, 6]);
}

#[test]
fn parents_come_before_children() {
    let children = vec![vec![2, 1], vec![3], vec![], vec![]];
    let steps = walk_transform(&children, &vec![0]).unwrap();
    assert_eq!(
        steps,
        vec![
            WalkStep { node: 0, parent: None },
            WalkStep { node: 2, parent: Some(0) },
            WalkStep { node: 1, parent: Some(0) },
            WalkStep { node: 3, parent: Some(1) },
        ]
    );
    assert_eq!(walk_transform(&children, &Vec::new()), Some(Vec::new()));
    let chain = vec![vec![1], vec![2], vec![]];
    assert_eq!(walk_transform(&chain, &vec![0]).unwrap().len(), 3);
}

#[test]
fn node_below_itself_cannot_be_walked() {
    assert_eq!(walk_transform(&vec![vec![1], vec![0]], &vec![0]), None);
    assert_eq!(walk_transform(&vec![vec![0]], &vec![0]), None);
}

#[test]
fn scene_is_brought_to_the_device() {
    let uploads = RefCell::new(Vec::new());
    let textures = RefCell::new(Vec::new());
    let scene_source = source();
    assert!(scene_source.check());
    let upload = |handle: u64| {
        let uploads = &uploads;
        move |steps: Vec<UploadStep<BufferCreation, BufferCopy>>| {
            match (&steps[1], &steps[2]) {
                (UploadStep::WriteStaging(bytes), UploadStep::CreateTarget(creation)) => {
                    uploads.borrow_mut().push((handle, creation.info.usage, bytes.len()))
                }
                other => panic!("{other:?} is not an upload"),
            }
            handle
        }
    };
    let texture = |handle: u64| {
        let textures = &textures;
        move |upload: TextureUpload| {
            match (&upload.steps[1], &upload.steps[2]) {
                (UploadStep::WriteStaging(bytes), UploadStep::CreateTarget(creation)) => textures
                    .borrow_mut()
                    .push((creation.info.format, bytes.clone(), upload.mipmaps.len())),
                other => panic!("{other:?} is not an upload"),
            }
            handle
        }
    };
    let scene = SceneResources::create(
        &context(),
        &scene_source,
        SceneMakers {
            objects: upload(1),
            samplers: |infos: Vec<SamplerInfo>| {
                infos.iter().map(|info| 500 + info.address_mode_u as u64).collect()
            },
            materials: upload(2),
            textures: VecDeque::from([texture(701), texture(702)]),
            vertices: VecDeque::from([upload(10), upload(11), upload(12), upload(13)]),
            indices: VecDeque::from([upload(20), upload(21), upload(22), upload(23)]),
        },
        |node, vertices| [[node as u32, vertices.len() as u32, 0]; 8],
    )
    .unwrap();
    assert_eq!(scene.primitives.len(), 4);
    assert_eq!((scene.primitives[0].object_id, scene.primitives[0].material_id), (1, 1));
    assert_eq!((scene.primitives[3].object_id, scene.primitives[3].material_id), (2, 0));
    assert_eq!(scene.primitives[2].bounds[5], [2, 3, 0]);
    assert_eq!(scene.index_counts, vec![3; 4]);
    assert_eq!((scene.vertices_count, scene.triangles_count), (12, 4));
    assert_eq!(scene.samplers.len(), 9);
    assert_eq!(scene.object_buffer.size, 200);
    assert_eq!(scene.material_buffer.size, 160);
    assert_eq!(scene.vertex_buffers[0].size, 180);
    assert_eq!(scene.index_buffers[0].size, 12);
    assert_eq!(uploads.borrow().len(), 2 + 8);
    assert_eq!(
        uploads.borrow()[2],
        (
            10,
            vk::BUFFER_USAGE_VERTEX_BUFFER | vk::BUFFER_USAGE_TRANSFER_DST,
            180
        )
    );
    assert_eq!((scene.object_buffer.buffer, scene.material_buffer.buffer), (1, 2));
    let buffers: Vec<(u64, u64)> = scene
        .vertex_buffers
        .iter()
        .zip(&scene.index_buffers)
        .map(|(vertices, indices)| (vertices.buffer, indices.buffer))
        .collect();
    assert_eq!(buffers, vec![(10, 20), (11, 21), (12, 22), (13, 23)]);
    assert_eq!(
        *textures.borrow(),
        vec![
            (vk::FORMAT_R8G8B8A8_UNORM, vec![1, 2, 3, 255, 4, 5, 6, 255], 4 + 4),
            (vk::FORMAT_R8G8B8A8_SRGB, vec![7, 8, 9, 10], 1 + 4),
        ]
    );
    let images: Vec<u64> = scene.images.iter().map(|i| i.image).collect();
    assert_eq!(images, vec![701, 702]);
}

#[test]
fn primitives_refer_to_objects_and_materials() {
    let mut complete = source();
    let objects = complete.node_meshes.len();
    complete.objects = vec![ObjectData { transform: [0; 16], normal_transform: [0; 9] }; objects];
    let scene =
        SceneResources::create(&context(), &complete, makers(2, 4), |_, _| [[0; 3]; 8]).unwrap();
    assert_eq!(scene.primitives.len(), 4);
    for primitive in &scene.primitives {
        assert!((primitive.object_id as usize) < complete.objects.len());
        assert!((primitive.material_id as usize) < complete.materials.len());
    }
}

#[test]
fn unknown_pixels_are_refused() {
    let mut bad = source();
    bad.textures[1].format = PixelFormat::Other(12);
    assert!(bad.check());
    let result =
        SceneResources::create(&context(), &bad, makers(2, 4), |_, _| [[0; 3]; 8]);
    assert_eq!(result.unwrap_err(), SceneError::BadFormat(12));
}

#[test]
fn broken_scenes_are_noticed() {
    let mut missing_mesh = source();
    missing_mesh.node_meshes[0] = Some(1);
    assert!(!missing_mesh.check());
    let mut missing_texture = source();
    missing_texture.materials[0].normal =
        texture(2, WrappingMode::Repeat, WrappingMode::Repeat);
    assert!(!missing_texture.check());
    let mut empty_texture = source();
    empty_texture.textures[0].width = 0;
    empty_texture.textures[0].height = 0;
    assert!(!empty_texture.check());
    let mut large_material = source();
    large_material.meshes[0][0].material = Some(u32::MAX as usize + 1);
    assert!(!large_material.check());
}

#[test]
fn every_primitive_of_a_node_is_listed() {
    let refs = source().list_primitives();
    let listed: Vec<(usize, usize)> = refs.iter().map(|r| (r.node, r.primitive)).collect();
    assert_eq!(listed, vec![(1, 0), (1, 1), (2, 0), (2, 1)]);
}
