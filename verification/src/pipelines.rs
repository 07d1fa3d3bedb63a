//! The pipelines that draw a frame, and the descriptors that their shaders read.
use crate::camera::CASCADES;
use crate::vk;
use crate::vk::DescriptorImageInfo;
use vstd::prelude::*;

verus! {

/// The format of the images that are shown on the screen.
pub const SWAPCHAIN_FORMAT: i32 = vk::FORMAT_B8G8R8A8_SRGB;

/// The format of the depth buffer.
pub const DEPTH_FORMAT: i32 = vk::FORMAT_D32_SFLOAT;

/// The format of the shadow map.
pub const SHADOWMAP_FORMAT: i32 = vk::FORMAT_D32_SFLOAT;

/// The format of the geometry buffer.
pub const GBUFFER_FORMAT: i32 = vk::FORMAT_R32G32B32A32_UINT;

/// The pipelines by what they are for.
#[derive(Clone, Copy, Debug, PartialEq, Eq, Structural)]
pub enum PipelineSlot {
    /// Draws the scene into the shadow map.
    Shadow,
    /// Draws the scene into the geometry buffer.
    Primary,
    /// Computes ambient occlusion.
    Ao,
    /// Blends ambient occlusion with that of the frame before.
    AoReproject,
    /// Computes the lit image.
    Deferred,
    /// Puts the lit image on the screen.
    PostFx,
    /// Draws the scene straight to the screen.
    Forward,
}

/// The push constants of a pipeline: how many bytes, read by which shader stages.
#[derive(Clone, Copy, Debug, PartialEq, Eq, Structural)]
pub struct PushRange {
    pub stages: u32,
    pub size: u32,
}

/// What a pipeline layout is created with.
#[derive(Clone, Copy, Debug, PartialEq, Eq, Structural)]
pub struct PipelineLayout {
    pub push: PushRange,
    /// Whether the pipeline reads the descriptor set.
    pub descriptor_set: bool,
}

/// The compiled shaders.
#[derive(Clone, Copy, Debug, PartialEq, Eq, Structural)]
pub enum ShaderSlot {
    MainVertex,
    MainFragment,
    ShadowVertex,
    ShadowFragment,
    AoMain,
    AoReprojectMain,
    DeferredMain,
    PostFxVertex,
    PostFxFragment,
}

/// How a vertex buffer is stepped through.
#[derive(Clone, Copy, Debug, PartialEq, Eq, Structural)]
pub struct VertexBinding {
    pub binding: u32,
    pub stride: u32,
    pub input_rate: i32,
}

/// Where a vertex attribute lies in a vertex.
#[derive(Clone, Copy, Debug, PartialEq, Eq, Structural)]
pub struct VertexAttribute {
    pub location: u32,
    pub binding: u32,
    pub format: i32,
    pub offset: u32,
}

/// What a pipeline that draws is created with.
#[derive(Debug, PartialEq, Eq)]
pub struct GraphicsPipeline {
    pub color_format: Option<i32>,
    pub depth_format: i32,
    pub vertex_shader: ShaderSlot,
    pub fragment_shader: ShaderSlot,
    pub vertex_binding: Option<VertexBinding>,
    pub attributes: Vec<VertexAttribute>,
    pub topology: i32,
    pub cull_mode: u32,
    pub depth_test: bool,
    pub depth_write: bool,
    pub depth_op: i32,
    /// The channels that are written, where there is a colour attachment.
    pub color_write_mask: u32,
    pub samples: u32,
}

/// The stages that shade vertices and fragments.
pub const DRAW_STAGES: u32 = vk::SHADER_VERTEX | vk::SHADER_FRAGMENT;

/// The stages that read most descriptors.
pub const READ_STAGES: u32 = vk::SHADER_FRAGMENT | vk::SHADER_COMPUTE;

impl PipelineSlot {
    /// Whether the pipeline computes rather than draws.
    pub open spec fn computes(self) -> bool {
        self == PipelineSlot::Ao || self == PipelineSlot::AoReproject || self
            == PipelineSlot::Deferred
    }

    /// The point that the pipeline is bound to.
    pub open spec fn bind_point(self) -> i32 {
        if self.computes() {
            vk::BIND_POINT_COMPUTE
        } else {
            vk::BIND_POINT_GRAPHICS
        }
    }

    /// The layout of the pipeline.
    pub open spec fn pipeline_layout(self) -> PipelineLayout {
        match self {
            PipelineSlot::Shadow => PipelineLayout {
                push: PushRange { stages: DRAW_STAGES, size: 40 },
                descriptor_set: false,
            },
            PipelineSlot::Primary => PipelineLayout {
                push: PushRange { stages: DRAW_STAGES, size: 32 },
                descriptor_set: true,
            },
            PipelineSlot::Ao | PipelineSlot::AoReproject | PipelineSlot::Deferred => PipelineLayout {
                push: PushRange { stages: vk::SHADER_COMPUTE, size: 8 },
                descriptor_set: true,
            },
            PipelineSlot::PostFx => PipelineLayout {
                push: PushRange { stages: DRAW_STAGES, size: 8 },
                descriptor_set: true,
            },
            PipelineSlot::Forward => PipelineLayout {
                push: PushRange { stages: 0, size: 8 },
                descriptor_set: false,
            },
        }
    }

    /// The format that the pipeline writes colour in, if it writes any.
    pub open spec fn color_format(self) -> Option<i32> {
        match self {
            PipelineSlot::Primary => Some(GBUFFER_FORMAT),
            PipelineSlot::PostFx | PipelineSlot::Forward => Some(SWAPCHAIN_FORMAT),
            _ => None,
        }
    }

    /// The format that the pipeline tests and writes depth in.
    pub open spec fn depth_format(self) -> i32 {
        match self {
            PipelineSlot::Shadow => SHADOWMAP_FORMAT,
            PipelineSlot::Primary | PipelineSlot::Forward => DEPTH_FORMAT,
            _ => vk::FORMAT_UNDEFINED,
        }
    }

    /// Whether the pipeline reads vertex buffers.
    pub open spec fn reads_vertices(self) -> bool {
        self == PipelineSlot::Shadow || self == PipelineSlot::Primary || self
            == PipelineSlot::Forward
    }

    /// What to create the layout of the pipeline with.
    pub fn layout(self) -> (r: PipelineLayout)
        ensures
            r == self.pipeline_layout(),
    {
        match self {
            PipelineSlot::Shadow => PipelineLayout {
                push: PushRange { stages: DRAW_STAGES, size: 40 },
                descriptor_set: false,
            },
            PipelineSlot::Primary => PipelineLayout {
                push: PushRange { stages: DRAW_STAGES, size: 32 },
                descriptor_set: true,
            },
            PipelineSlot::Ao | PipelineSlot::AoReproject | PipelineSlot::Deferred => PipelineLayout {
                push: PushRange { stages: vk::SHADER_COMPUTE, size: 8 },
                descriptor_set: true,
            },
            PipelineSlot::PostFx => PipelineLayout {
                push: PushRange { stages: DRAW_STAGES, size: 8 },
                descriptor_set: true,
            },
            PipelineSlot::Forward => PipelineLayout {
                push: PushRange { stages: 0, size: 8 },
                descriptor_set: false,
            },
        }
    }

    /// The shader of a pipeline that computes.
    pub fn compute_shader(self) -> (r: Option<ShaderSlot>)
        ensures
            r == match self {
                PipelineSlot::Ao => Some(ShaderSlot::AoMain),
                PipelineSlot::AoReproject => Some(ShaderSlot::AoReprojectMain),
                PipelineSlot::Deferred => Some(ShaderSlot::DeferredMain),
                _ => None,
            },
            r is Some <==> self.computes(),
    {
        match self {
            PipelineSlot::Ao => Some(ShaderSlot::AoMain),
            PipelineSlot::AoReproject => Some(ShaderSlot::AoReprojectMain),
            PipelineSlot::Deferred => Some(ShaderSlot::DeferredMain),
            _ => None,
        }
    }
}

/// The bytes of one vertex.
pub const VERTEX_STRIDE: u32 = 60;

/// How vertex buffers of whole vertices are stepped through.
pub open spec fn vertex_binding() -> VertexBinding {
    VertexBinding { binding: 0, stride: VERTEX_STRIDE, input_rate: vk::INPUT_RATE_VERTEX }
}

/// The attributes of a vertex: position, normal, tangent, colour and texture coordinates.
pub open spec fn vertex_attributes() -> Seq<VertexAttribute> {
    seq![
        VertexAttribute { location: 0, binding: 0, format: vk::FORMAT_R32G32B32_SFLOAT, offset: 0 },
        VertexAttribute { location: 1, binding: 0, format: vk::FORMAT_R32G32B32_SFLOAT, offset: 12 },
        VertexAttribute {
            location: 2,
            binding: 0,
            format: vk::FORMAT_R32G32B32A32_SFLOAT,
            offset: 24,
        },
        VertexAttribute { location: 3, binding: 0, format: vk::FORMAT_R32G32B32_SFLOAT, offset: 40 },
        VertexAttribute { location: 4, binding: 0, format: vk::FORMAT_R32G32_SFLOAT, offset: 52 },
    ]
}

/// The bytes of an attribute of the given format.
pub open spec fn attribute_size(format: i32) -> u32 {
    if format == vk::FORMAT_R32G32_SFLOAT {
        8
    } else if format == vk::FORMAT_R32G32B32_SFLOAT {
        12
    } else {
        16
    }
}

fn attribute(location: u32, format: i32, offset: u32) -> (r: VertexAttribute)
    ensures
        r == (VertexAttribute { location, binding: 0, format, offset }),
{
    VertexAttribute { location, binding: 0, format, offset }
}

/// Lists the attributes of a vertex.
pub fn all_attributes() -> (r: Vec<VertexAttribute>)
    ensures
        r@ == vertex_attributes(),
{
    let mut r: Vec<VertexAttribute> = Vec::new();
    r.push(attribute(0, vk::FORMAT_R32G32B32_SFLOAT, 0));
    r.push(attribute(1, vk::FORMAT_R32G32B32_SFLOAT, 12));
    r.push(attribute(2, vk::FORMAT_R32G32B32A32_SFLOAT, 24));
    r.push(attribute(3, vk::FORMAT_R32G32B32_SFLOAT, 40));
    r.push(attribute(4, vk::FORMAT_R32G32_SFLOAT, 52));
    assert(r@ =~= vertex_attributes());
    r
}

fn vertices() -> (r: Option<VertexBinding>)
    ensures
        r == Some(vertex_binding()),
{
    Some(VertexBinding { binding: 0, stride: VERTEX_STRIDE, input_rate: vk::INPUT_RATE_VERTEX })
}

impl GraphicsPipeline {
    /// What all drawing pipelines share, and what each takes from its slot.
    pub open spec fn is_for(&self, slot: PipelineSlot) -> bool {
        &&& self.color_format == slot.color_format()
        &&& self.depth_format == slot.depth_format()
        &&& self.vertex_binding == if slot.reads_vertices() {
            Some(vertex_binding())
        } else {
            None
        }
        &&& self.topology == vk::TOPOLOGY_TRIANGLE_LIST
        &&& self.samples == vk::SAMPLES_TYPE_1
        &&& self.depth_test == slot.reads_vertices()
        &&& self.depth_write == slot.reads_vertices()
        &&& self.depth_op == if slot.reads_vertices() {
            vk::COMPARE_LESS_OR_EQUAL
        } else {
            vk::COMPARE_NEVER
        }
        &&& self.color_write_mask == if slot.color_format() is Some {
            vk::COLOR_COMPONENT_RGBA
        } else {
            0
        }
    }

    /// The pipeline that draws the scene into the geometry buffer.
    pub fn primary() -> (r: Self)
        ensures
            r.is_for(PipelineSlot::Primary),
            r.vertex_shader == ShaderSlot::MainVertex,
            r.fragment_shader == ShaderSlot::MainFragment,
            r.attributes@ == vertex_attributes(),
            r.cull_mode == vk::CULL_BACK,
    {
        GraphicsPipeline {
            color_format: Some(GBUFFER_FORMAT),
            depth_format: DEPTH_FORMAT,
            vertex_shader: ShaderSlot::MainVertex,
            fragment_shader: ShaderSlot::MainFragment,
            vertex_binding: vertices(),
            attributes: all_attributes(),
            topology: vk::TOPOLOGY_TRIANGLE_LIST,
            cull_mode: vk::CULL_BACK,
            depth_test: true,
            depth_write: true,
            depth_op: vk::COMPARE_LESS_OR_EQUAL,
            color_write_mask: vk::COLOR_COMPONENT_RGBA,
            samples: vk::SAMPLES_TYPE_1,
        }
    }

    /// The pipeline that draws the scene into the shadow map, from positions alone.
    pub fn shadow() -> (r: Self)
        ensures
            r.is_for(PipelineSlot::Shadow),
            r.vertex_shader == ShaderSlot::ShadowVertex,
            r.fragment_shader == ShaderSlot::ShadowFragment,
            r.attributes@ == vertex_attributes().take(1),
            r.cull_mode == vk::CULL_BACK,
    {
        let mut attributes: Vec<VertexAttribute> = Vec::new();
        attributes.push(attribute(0, vk::FORMAT_R32G32B32_SFLOAT, 0));
        assert(attributes@ =~= vertex_attributes().take(1));
        GraphicsPipeline {
            color_format: None,
            depth_format: SHADOWMAP_FORMAT,
            vertex_shader: ShaderSlot::ShadowVertex,
            fragment_shader: ShaderSlot::ShadowFragment,
            vertex_binding: vertices(),
            attributes,
            topology: vk::TOPOLOGY_TRIANGLE_LIST,
            cull_mode: vk::CULL_BACK,
            depth_test: true,
            depth_write: true,
            depth_op: vk::COMPARE_LESS_OR_EQUAL,
            color_write_mask: 0,
            samples: vk::SAMPLES_TYPE_1,
        }
    }

    /// The pipeline that puts the lit image on the screen, without vertices and without depth.
    pub fn postfx() -> (r: Self)
        ensures
            r.is_for(PipelineSlot::PostFx),
            r.vertex_shader == ShaderSlot::PostFxVertex,
            r.fragment_shader == ShaderSlot::PostFxFragment,
            r.attributes@ == Seq::<VertexAttribute>::empty(),
            r.cull_mode == vk::CULL_NONE,
    {
        GraphicsPipeline {
            color_format: Some(SWAPCHAIN_FORMAT),
            depth_format: vk::FORMAT_UNDEFINED,
            vertex_shader: ShaderSlot::PostFxVertex,
            fragment_shader: ShaderSlot::PostFxFragment,
            vertex_binding: None,
            attributes: Vec::new(),
            topology: vk::TOPOLOGY_TRIANGLE_LIST,
            cull_mode: vk::CULL_NONE,
            depth_test: false,
            depth_write: false,
            depth_op: vk::COMPARE_NEVER,
            color_write_mask: vk::COLOR_COMPONENT_RGBA,
            samples: vk::SAMPLES_TYPE_1,
        }
    }

    /// The pipeline that draws the scene straight to the screen, both faces of every triangle.
    pub fn forward() -> (r: Self)
        ensures
            r.is_for(PipelineSlot::Forward),
            r.vertex_shader == ShaderSlot::MainVertex,
            r.fragment_shader == ShaderSlot::MainFragment,
            r.attributes@ == vertex_attributes(),
            r.cull_mode == vk::CULL_NONE,
    {
        GraphicsPipeline {
            color_format: Some(SWAPCHAIN_FORMAT),
            depth_format: DEPTH_FORMAT,
            vertex_shader: ShaderSlot::MainVertex,
            fragment_shader: ShaderSlot::MainFragment,
            vertex_binding: vertices(),
            attributes: all_attributes(),
            topology: vk::TOPOLOGY_TRIANGLE_LIST,
            cull_mode: vk::CULL_NONE,
            depth_test: true,
            depth_write: true,
            depth_op: vk::COMPARE_LESS_OR_EQUAL,
            color_write_mask: vk::COLOR_COMPONENT_RGBA,
            samples: vk::SAMPLES_TYPE_1,
        }
    }
}

/// The attributes fill a vertex without gap or overlap: each starts where the one before ends,
/// and the last ends at the stride.
pub proof fn law_attributes_tile_vertex()
    ensures
        vertex_attributes()[0].offset == 0,
        forall|i: int|
            0 <= i < vertex_attributes().len() - 1 ==> #[trigger] vertex_attributes()[i].offset
                + attribute_size(vertex_attributes()[i].format) == vertex_attributes()[i + 1].offset,
        vertex_attributes().last().offset + attribute_size(vertex_attributes().last().format)
            == VERTEX_STRIDE,
{
}

/// One binding of the descriptor set.
#[derive(Clone, Copy, Debug, PartialEq, Eq, Structural)]
pub struct LayoutBinding {
    pub binding: u32,
    pub descriptor_type: i32,
    pub count: u32,
    pub stages: u32,
}

/// Room for descriptors of one type in the pool.
#[derive(Clone, Copy, Debug, PartialEq, Eq, Structural)]
pub struct PoolSize {
    pub descriptor_type: i32,
    pub count: u32,
}

/// The type of the descriptors at a binding.
pub open spec fn binding_type(binding: int) -> i32 {
    if 1 <= binding <= 3 {
        vk::DESCRIPTOR_SAMPLER
    } else if binding == 7 || binding == 9 || binding == 11 {
        vk::DESCRIPTOR_STORAGE_IMAGE
    } else {
        vk::DESCRIPTOR_SAMPLED_IMAGE
    }
}

/// The number of descriptors at a binding: one, but for the textures, the samplers of the scene,
/// the shadow map's layers and the two images of history.
pub open spec fn binding_count(binding: int, scene_images: u32, scene_samplers: u32) -> u32 {
    if binding == 0 {
        scene_images
    } else if binding == 1 {
        scene_samplers
    } else if binding == 4 {
        CASCADES as u32
    } else if binding == 11 || binding == 12 {
        2
    } else {
        1
    }
}

/// The stages that read a binding: the resources of the scene are for drawing only.
pub open spec fn binding_stages(binding: int) -> u32 {
    if binding <= 1 {
        vk::SHADER_FRAGMENT
    } else {
        READ_STAGES
    }
}

/// The number of bindings.
pub const BINDING_COUNT: usize = 13;

/// The bindings of the descriptor set.
pub open spec fn layout_bindings(scene_images: u32, scene_samplers: u32) -> Seq<LayoutBinding> {
    Seq::new(
        BINDING_COUNT as nat,
        |i: int|
            LayoutBinding {
                binding: i as u32,
                descriptor_type: binding_type(i),
                count: binding_count(i, scene_images, scene_samplers),
                stages: binding_stages(i),
            },
    )
}

/// The room in the pool.
pub open spec fn pool_room(scene_images: u32, scene_samplers: u32) -> Seq<PoolSize> {
    Seq::new(
        BINDING_COUNT as nat,
        |i: int|
            PoolSize {
                descriptor_type: binding_type(i),
                count: binding_count(i, scene_images, scene_samplers),
            },
    )
}

fn sampled(binding: u32, count: u32) -> (r: LayoutBinding)
    ensures
        r == (LayoutBinding {
            binding,
            descriptor_type: vk::DESCRIPTOR_SAMPLED_IMAGE,
            count,
            stages: READ_STAGES,
        }),
{
    LayoutBinding {
        binding,
        descriptor_type: vk::DESCRIPTOR_SAMPLED_IMAGE,
        count,
        stages: READ_STAGES,
    }
}

fn storage(binding: u32, count: u32) -> (r: LayoutBinding)
    ensures
        r == (LayoutBinding {
            binding,
            descriptor_type: vk::DESCRIPTOR_STORAGE_IMAGE,
            count,
            stages: READ_STAGES,
        }),
{
    LayoutBinding {
        binding,
        descriptor_type: vk::DESCRIPTOR_STORAGE_IMAGE,
        count,
        stages: READ_STAGES,
    }
}

/// Lists the bindings of the descriptor set, for so many textures and samplers of the scene.
pub fn descriptor_bindings(scene_images: u32, scene_samplers: u32) -> (r: Vec<LayoutBinding>)
    ensures
        r@ == layout_bindings(scene_images, scene_samplers),
{
    let sampler = vk::DESCRIPTOR_SAMPLER;
    let mut r: Vec<LayoutBinding> = Vec::new();
    r.push(
        LayoutBinding {
            binding: 0,
            descriptor_type: vk::DESCRIPTOR_SAMPLED_IMAGE,
            count: scene_images,
            stages: vk::SHADER_FRAGMENT,
        },
    );
    r.push(
        LayoutBinding {
            binding: 1,
            descriptor_type: sampler,
            count: scene_samplers,
            stages: vk::SHADER_FRAGMENT,
        },
    );
    r.push(LayoutBinding { binding: 2, descriptor_type: sampler, count: 1, stages: READ_STAGES });
    r.push(LayoutBinding { binding: 3, descriptor_type: sampler, count: 1, stages: READ_STAGES });
    r.push(sampled(4, CASCADES as u32));
    r.push(sampled(5, 1));
    r.push(sampled(6, 1));
    r.push(storage(7, 1));
    r.push(sampled(8, 1));
    r.push(storage(9, 1));
    r.push(sampled(10, 1));
    r.push(storage(11, 2));
    r.push(sampled(12, 2));
    assert(r@ =~= layout_bindings(scene_images, scene_samplers));
    r
}

/// Lists the room to make in the descriptor pool: as much as the bindings take.
pub fn pool_sizes(scene_images: u32, scene_samplers: u32) -> (r: Vec<PoolSize>)
    ensures
        r@ == pool_room(scene_images, scene_samplers),
{
    let bindings = descriptor_bindings(scene_images, scene_samplers);
    let mut r: Vec<PoolSize> = Vec::new();
    let mut i: usize = 0;
    while i < bindings.len()
        invariant
            i <= bindings@.len(),
            bindings@ == layout_bindings(scene_images, scene_samplers),
            r@.len() == i,
            forall|j: int| 0 <= j < i ==> r@[j] == pool_room(scene_images, scene_samplers)[j],
        decreases bindings@.len() - i,
    {
        let b = bindings[i];
        r.push(PoolSize { descriptor_type: b.descriptor_type, count: b.count });
        i = i + 1;
    }
    assert(r@ =~= pool_room(scene_images, scene_samplers));
    r
}

/// New contents for a binding of the descriptor set, from its first element on.
#[derive(Debug, PartialEq, Eq)]
pub struct DescriptorWrite {
    pub binding: u32,
    pub descriptor_type: i32,
    pub infos: Vec<DescriptorImageInfo>,
}

impl DescriptorWrite {
    /// Whether this puts the given descriptors at the given binding.
    pub open spec fn puts(&self, binding: int, infos: Seq<DescriptorImageInfo>) -> bool {
        &&& self.binding == binding
        &&& self.descriptor_type == binding_type(binding)
        &&& self.infos@ == infos
    }
}

/// A sampler as a descriptor.
pub open spec fn sampler_info(sampler: u64) -> DescriptorImageInfo {
    DescriptorImageInfo { sampler, image_view: 0, image_layout: vk::LAYOUT_UNDEFINED }
}

fn sampler_descriptor(sampler: u64) -> (r: DescriptorImageInfo)
    ensures
        r == sampler_info(sampler),
{
    DescriptorImageInfo { sampler, image_view: 0, image_layout: vk::LAYOUT_UNDEFINED }
}

/// A write of a single descriptor.
pub(crate) fn write_one(binding: u32, descriptor_type: i32, info: DescriptorImageInfo) -> (r:
    DescriptorWrite)
    ensures
        r.binding == binding,
        r.descriptor_type == descriptor_type,
        r.infos@ == seq![info],
{
    let mut infos: Vec<DescriptorImageInfo> = Vec::new();
    infos.push(info);
    assert(infos@ =~= seq![info]);
    DescriptorWrite { binding, descriptor_type, infos }
}

/// Lists the writes that fill the bindings that stay the same from frame to frame: the textures
/// and samplers of the scene, the two common samplers, and the layers of the shadow map.
pub fn fixed_writes(
    scene_images: Vec<DescriptorImageInfo>,
    scene_samplers: &Vec<u64>,
    linear: u64,
    nearest: u64,
    shadowmap: Vec<DescriptorImageInfo>,
) -> (r: Vec<DescriptorWrite>)
    ensures
        r@.len() == 5,
        r@[0].puts(0, scene_images@),
        r@[1].puts(1, scene_samplers@.map_values(|s: u64| sampler_info(s))),
        r@[2].puts(2, seq![sampler_info(linear)]),
        r@[3].puts(3, seq![sampler_info(nearest)]),
        r@[4].puts(4, shadowmap@),
{
    let mut sampler_infos: Vec<DescriptorImageInfo> = Vec::new();
    let mut i: usize = 0;
    while i < scene_samplers.len()
        invariant
            i <= scene_samplers@.len(),
            sampler_infos@.len() == i,
            forall|j: int| 0 <= j < i ==> sampler_infos@[j] == sampler_info(scene_samplers@[j]),
        decreases scene_samplers@.len() - i,
    {
        sampler_infos.push(sampler_descriptor(scene_samplers[i]));
        i = i + 1;
    }
    assert(sampler_infos@ =~= scene_samplers@.map_values(|s: u64| sampler_info(s)));
    let mut r: Vec<DescriptorWrite> = Vec::new();
    r.push(
        DescriptorWrite {
            binding: 0,
            descriptor_type: vk::DESCRIPTOR_SAMPLED_IMAGE,
            infos: scene_images,
        },
    );
    r.push(
        DescriptorWrite {
            binding: 1,
            descriptor_type: vk::DESCRIPTOR_SAMPLER,
            infos: sampler_infos,
        },
    );
    r.push(write_one(2, vk::DESCRIPTOR_SAMPLER, sampler_descriptor(linear)));
    r.push(write_one(3, vk::DESCRIPTOR_SAMPLER, sampler_descriptor(nearest)));
    r.push(
        DescriptorWrite {
            binding: 4,
            descriptor_type: vk::DESCRIPTOR_SAMPLED_IMAGE,
            infos: shadowmap,
        },
    );
    r
}

/// What a sampler is created with. The same filter serves both directions of scaling.
#[derive(Clone, Copy, Debug, PartialEq, Eq, Structural)]
pub struct SamplerInfo {
    pub address_mode_u: i32,
    pub address_mode_v: i32,
    pub address_mode_w: i32,
    pub filter: i32,
    pub mipmap_mode: i32,
    /// Whether all levels are sampled, with anisotropic filtering.
    pub all_levels: bool,
}

/// The sampler that reads the images of the frame, with the given filter.
pub fn screen_sampler(filter: i32) -> (r: SamplerInfo)
    ensures
        r == (SamplerInfo {
            address_mode_u: vk::ADDRESS_CLAMP_TO_EDGE,
            address_mode_v: vk::ADDRESS_CLAMP_TO_EDGE,
            address_mode_w: vk::ADDRESS_CLAMP_TO_EDGE,
            filter,
            mipmap_mode: vk::MIPMAP_NEAREST,
            all_levels: false,
        }),
{
    SamplerInfo {
        address_mode_u: vk::ADDRESS_CLAMP_TO_EDGE,
        address_mode_v: vk::ADDRESS_CLAMP_TO_EDGE,
        address_mode_w: vk::ADDRESS_CLAMP_TO_EDGE,
        filter,
        mipmap_mode: vk::MIPMAP_NEAREST,
        all_levels: false,
    }
}

/// The pool has room for every binding: entry by entry, the same type and the same number.
pub proof fn law_pool_holds_set(scene_images: u32, scene_samplers: u32, binding: int)
    requires
        0 <= binding < BINDING_COUNT,
    ensures
        pool_room(scene_images, scene_samplers).len() == layout_bindings(
            scene_images,
            scene_samplers,
        ).len(),
        pool_room(scene_images, scene_samplers)[binding].descriptor_type == layout_bindings(
            scene_images,
            scene_samplers,
        )[binding].descriptor_type,
        pool_room(scene_images, scene_samplers)[binding].count == layout_bindings(
            scene_images,
            scene_samplers,
        )[binding].count,
        layout_bindings(scene_images, scene_samplers)[binding].binding == binding,
{
}


/// The layout of a pipeline has room for the constants of its shaders: addresses of eight bytes and
/// numbers of four. Those that draw the scene get three addresses and the numbers of the object and
/// of the material, for shadows also that of the cascade and one to fill up; all others one address.
/// The stages that read them are those that the pipeline has, and all pipelines read descriptors but
/// those that draw shadows or straight to the screen.
pub proof fn law_layouts_hold_constants(slot: PipelineSlot)
    ensures
        slot.pipeline_layout().push.size == match slot {
            PipelineSlot::Shadow => 3 * 8 + 4 * 4,
            PipelineSlot::Primary => 3 * 8 + 2 * 4,
            _ => 8,
        },
        slot.computes() ==> slot.pipeline_layout().push.stages == vk::SHADER_COMPUTE,
        slot is Shadow || slot is Primary || slot is PostFx ==> slot.pipeline_layout().push.stages
            == vk::SHADER_VERTEX | vk::SHADER_FRAGMENT,
        slot is Forward ==> slot.pipeline_layout().push.stages == 0,
        slot.pipeline_layout().descriptor_set == !(slot is Shadow || slot is Forward),
        slot.computes() <==> slot is Ao || slot is AoReproject || slot is Deferred,
        slot.bind_point() == if slot is Ao || slot is AoReproject || slot is Deferred {
            vk::BIND_POINT_COMPUTE
        } else {
            vk::BIND_POINT_GRAPHICS
        },
{
}

/// A pipeline that draws the scene tests depth and writes what is in front or just as near, one that
/// puts an image on the screen has neither vertices nor depth. Each writes all channels of the
/// images that it is for, once per pixel, as triangles.
pub proof fn law_pipelines_draw_in_front(pipeline: GraphicsPipeline, slot: PipelineSlot)
    requires
        pipeline.is_for(slot),
        !slot.computes(),
    ensures
        pipeline.topology == vk::TOPOLOGY_TRIANGLE_LIST,
        pipeline.samples == vk::SAMPLES_TYPE_1,
        slot is Shadow || slot is Primary || slot is Forward ==> {
            &&& pipeline.depth_test
            &&& pipeline.depth_write
            &&& pipeline.depth_op == vk::COMPARE_LESS_OR_EQUAL
            &&& pipeline.depth_format == vk::FORMAT_D32_SFLOAT
            &&& pipeline.vertex_binding matches Some(b) && b.binding == 0 && b.stride
                == VERTEX_STRIDE && b.input_rate == vk::INPUT_RATE_VERTEX
        },
        slot is PostFx ==> {
            &&& !pipeline.depth_test
            &&& !pipeline.depth_write
            &&& pipeline.depth_op == vk::COMPARE_NEVER
            &&& pipeline.depth_format == vk::FORMAT_UNDEFINED
            &&& pipeline.vertex_binding is None
        },
        match slot {
            PipelineSlot::Shadow => pipeline.color_format is None && pipeline.color_write_mask == 0,
            PipelineSlot::Primary => pipeline.color_format == Some(vk::FORMAT_R32G32B32A32_UINT)
                && pipeline.color_write_mask == vk::COLOR_COMPONENT_RGBA,
            _ => pipeline.color_format == Some(vk::FORMAT_B8G8R8A8_SRGB)
                && pipeline.color_write_mask == vk::COLOR_COMPONENT_RGBA,
        },
{
}

/// The shaders read the attributes of a vertex under their places in it: three numbers of position,
/// three of normal, four of tangent, three of colour and two of texture coordinates.
pub proof fn law_attributes_are_numbered(i: int)
    requires
        0 <= i < vertex_attributes().len(),
    ensures
        vertex_attributes().len() == 5,
        vertex_attributes()[i].location == i,
        vertex_attributes()[i].binding == vertex_binding().binding,
        vertex_attributes()[i].format == if i == 2 {
            vk::FORMAT_R32G32B32A32_SFLOAT
        } else if i == 4 {
            vk::FORMAT_R32G32_SFLOAT
        } else {
            vk::FORMAT_R32G32B32_SFLOAT
        },
{
}

/// The descriptor set holds the textures and the samplers of the scene, for fragments only, two
/// common samplers, the layers of the shadow map, the geometry and its depth, and then the images
/// that passes compute, each first as one that is written and then as one that is read: the lit
/// image, ambient occlusion and its two images of history.
pub proof fn law_set_holds_images(scene_images: u32, scene_samplers: u32, binding: int)
    requires
        0 <= binding < 13,
    ensures
        ({
            let b = layout_bindings(scene_images, scene_samplers)[binding];
            &&& layout_bindings(scene_images, scene_samplers).len() == 13
            &&& b.binding == binding
            &&& binding == 1 || binding == 2 || binding == 3 ==> b.descriptor_type
                == vk::DESCRIPTOR_SAMPLER
            &&& binding == 7 || binding == 9 || binding == 11 ==> b.descriptor_type
                == vk::DESCRIPTOR_STORAGE_IMAGE
            &&& binding == 0 || binding == 4 || binding == 5 || binding == 6 || binding == 8
                || binding == 10 || binding == 12 ==> b.descriptor_type
                == vk::DESCRIPTOR_SAMPLED_IMAGE
            &&& binding == 0 ==> b.count == scene_images
            &&& binding == 1 ==> b.count == scene_samplers
            &&& binding == 4 ==> b.count == CASCADES
            &&& binding == 11 || binding == 12 ==> b.count == 2
            &&& binding == 2 || binding == 3 || 5 <= binding <= 10 ==> b.count == 1
            &&& binding <= 1 ==> b.stages == vk::SHADER_FRAGMENT
            &&& binding >= 2 ==> b.stages == vk::SHADER_FRAGMENT | vk::SHADER_COMPUTE
        }),
{
}

/// The descriptor of a sampler holds the sampler and no image.
pub proof fn law_sampler_has_no_image(sampler: u64)
    ensures
        sampler_info(sampler).sampler == sampler,
        sampler_info(sampler).image_view == 0,
        sampler_info(sampler).image_layout == vk::LAYOUT_UNDEFINED,
{
}

} // verus!
