//! The plain values that describe Vulkan work: raw enumerators and flag bits, and the
//! structures that a caller hands to the driver one for one.
//!
//! Floating-point quantities travel as the bits of their IEEE 754 encoding.
use vstd::prelude::*;

verus! {

// Pixel formats.
pub const FORMAT_UNDEFINED: i32 = 0;
pub const FORMAT_R8G8B8A8_UNORM: i32 = 37;
pub const FORMAT_R8G8B8A8_SRGB: i32 = 43;
pub const FORMAT_B8G8R8A8_SRGB: i32 = 50;
pub const FORMAT_R16G16B16A16_SFLOAT: i32 = 97;
pub const FORMAT_R32_SFLOAT: i32 = 100;
pub const FORMAT_R32G32_SFLOAT: i32 = 103;
pub const FORMAT_R32G32B32_SFLOAT: i32 = 106;
pub const FORMAT_R32G32B32A32_UINT: i32 = 107;
pub const FORMAT_R32G32B32A32_SFLOAT: i32 = 109;
pub const FORMAT_D16_UNORM: i32 = 124;
pub const FORMAT_D32_SFLOAT: i32 = 126;
pub const FORMAT_D16_UNORM_S8_UINT: i32 = 128;
pub const FORMAT_D24_UNORM_S8_UINT: i32 = 129;
pub const FORMAT_D32_SFLOAT_S8_UINT: i32 = 130;

// Image dimensionalities.
pub const IMAGE_TYPE_1D: i32 = 0;
pub const IMAGE_TYPE_2D: i32 = 1;
pub const IMAGE_TYPE_3D: i32 = 2;

// Image view dimensionalities.
pub const VIEW_TYPE_1D: i32 = 0;
pub const VIEW_TYPE_2D: i32 = 1;
pub const VIEW_TYPE_3D: i32 = 2;
pub const VIEW_TYPE_2D_ARRAY: i32 = 5;

// Image aspects.
pub const ASPECT_COLOR: u32 = 1;
pub const ASPECT_DEPTH: u32 = 2;
pub const ASPECT_STENCIL: u32 = 4;

// Image layouts.
pub const LAYOUT_UNDEFINED: i32 = 0;
pub const LAYOUT_GENERAL: i32 = 1;
pub const LAYOUT_SHADER_READ_ONLY_OPTIMAL: i32 = 5;
pub const LAYOUT_TRANSFER_SRC_OPTIMAL: i32 = 6;
pub const LAYOUT_TRANSFER_DST_OPTIMAL: i32 = 7;
pub const LAYOUT_DEPTH_ATTACHMENT_OPTIMAL: i32 = 1000241000;
pub const LAYOUT_DEPTH_READ_ONLY_OPTIMAL: i32 = 1000241001;
pub const LAYOUT_READ_ONLY_OPTIMAL: i32 = 1000314000;
pub const LAYOUT_ATTACHMENT_OPTIMAL: i32 = 1000314001;
pub const LAYOUT_PRESENT_SRC_KHR: i32 = 1000001002;

// Image usages.
pub const IMAGE_USAGE_TRANSFER_SRC: u32 = 1;
pub const IMAGE_USAGE_TRANSFER_DST: u32 = 2;
pub const IMAGE_USAGE_SAMPLED: u32 = 4;
pub const IMAGE_USAGE_STORAGE: u32 = 8;
pub const IMAGE_USAGE_COLOR_ATTACHMENT: u32 = 0x10;
pub const IMAGE_USAGE_DEPTH_STENCIL_ATTACHMENT: u32 = 0x20;

// Image tilings.
pub const TILING_OPTIMAL: i32 = 0;

// Sample counts.
pub const SAMPLES_TYPE_1: u32 = 1;

// Buffer usages.
pub const BUFFER_USAGE_TRANSFER_SRC: u32 = 1;
pub const BUFFER_USAGE_TRANSFER_DST: u32 = 2;
pub const BUFFER_USAGE_STORAGE_BUFFER: u32 = 0x20;
pub const BUFFER_USAGE_INDEX_BUFFER: u32 = 0x40;
pub const BUFFER_USAGE_VERTEX_BUFFER: u32 = 0x80;
pub const BUFFER_USAGE_SHADER_DEVICE_ADDRESS: u32 = 0x20000;

// Pipeline stages.
pub const STAGE_NONE: u64 = 0;
pub const STAGE_TOP_OF_PIPE: u64 = 1;
pub const STAGE_FRAGMENT_SHADER: u64 = 0x80;
pub const STAGE_EARLY_FRAGMENT_TESTS: u64 = 0x100;
pub const STAGE_LATE_FRAGMENT_TESTS: u64 = 0x200;
pub const STAGE_COLOR_ATTACHMENT_OUTPUT: u64 = 0x400;
pub const STAGE_COMPUTE_SHADER: u64 = 0x800;
pub const STAGE_TRANSFER: u64 = 0x1000;
pub const STAGE_BOTTOM_OF_PIPE: u64 = 0x2000;

// Memory accesses.
pub const ACCESS_NONE: u64 = 0;
pub const ACCESS_SHADER_READ: u64 = 0x20;
pub const ACCESS_COLOR_ATTACHMENT_READ: u64 = 0x80;
pub const ACCESS_COLOR_ATTACHMENT_WRITE: u64 = 0x100;
pub const ACCESS_DEPTH_STENCIL_ATTACHMENT_READ: u64 = 0x200;
pub const ACCESS_DEPTH_STENCIL_ATTACHMENT_WRITE: u64 = 0x400;
pub const ACCESS_TRANSFER_READ: u64 = 0x800;
pub const ACCESS_TRANSFER_WRITE: u64 = 0x1000;
pub const ACCESS_SHADER_SAMPLED_READ: u64 = 0x100000000;
pub const ACCESS_SHADER_STORAGE_WRITE: u64 = 0x400000000;

// Descriptor types.
pub const DESCRIPTOR_SAMPLER: i32 = 0;
pub const DESCRIPTOR_SAMPLED_IMAGE: i32 = 2;
pub const DESCRIPTOR_STORAGE_IMAGE: i32 = 3;

// Shader stages.
pub const SHADER_VERTEX: u32 = 1;
pub const SHADER_FRAGMENT: u32 = 0x10;
pub const SHADER_COMPUTE: u32 = 0x20;

// Sampler address modes.
pub const ADDRESS_REPEAT: i32 = 0;
pub const ADDRESS_MIRRORED_REPEAT: i32 = 1;
pub const ADDRESS_CLAMP_TO_EDGE: i32 = 2;

// Texture filters.
pub const FILTER_NEAREST: i32 = 0;
pub const FILTER_LINEAR: i32 = 1;

// Sampler mipmap modes.
pub const MIPMAP_NEAREST: i32 = 0;
pub const MIPMAP_LINEAR: i32 = 1;

// Query types.
pub const QUERY_TIMESTAMP: i32 = 2;

// Attachment load operations.
pub const LOAD_OP_CLEAR: i32 = 1;

// Attachment store operations.
pub const STORE_OP_STORE: i32 = 0;
pub const STORE_OP_DONT_CARE: i32 = 1;

// Pipeline bind points.
pub const BIND_POINT_GRAPHICS: i32 = 0;
pub const BIND_POINT_COMPUTE: i32 = 1;

// Index types.
pub const INDEX_UINT32: i32 = 1;

// Face culling.
pub const CULL_NONE: u32 = 0;
pub const CULL_BACK: u32 = 2;

// Depth comparisons.
pub const COMPARE_NEVER: i32 = 0;
pub const COMPARE_LESS_OR_EQUAL: i32 = 3;

// Primitive topologies.
pub const TOPOLOGY_TRIANGLE_LIST: i32 = 3;

// Vertex input rates.
pub const INPUT_RATE_VERTEX: i32 = 0;

// Colour write masks.
pub const COLOR_COMPONENT_RGBA: u32 = 0xf;

// Dynamic pipeline states.
pub const DYNAMIC_STATE_VIEWPORT: i32 = 0;
pub const DYNAMIC_STATE_SCISSOR: i32 = 1;

// Presentation modes.
pub const PRESENT_MODE_IMMEDIATE: i32 = 0;
pub const PRESENT_MODE_FIFO: i32 = 2;

// Colour spaces.
pub const COLOR_SPACE_SRGB_NONLINEAR: i32 = 0;

// Surface transforms.
pub const TRANSFORM_IDENTITY: u32 = 1;

// Surface compositing.
pub const COMPOSITE_ALPHA_OPAQUE: u32 = 1;

// Queue capabilities.
pub const QUEUE_GRAPHICS: u32 = 1;

// Result codes.
pub const RESULT_SUCCESS: i32 = 0;
pub const RESULT_NOT_READY: i32 = 1;
pub const RESULT_ERROR_OUT_OF_DATE_KHR: i32 = -1000001004;

// Instance creation flags.
pub const INSTANCE_ENUMERATE_PORTABILITY_KHR: u32 = 1;

// Command pool flags.
pub const COMMAND_POOL_RESET_COMMAND_BUFFER: u32 = 2;

// Fence flags.
pub const FENCE_SIGNALED: u32 = 1;

// Command buffer usages.
pub const COMMAND_BUFFER_ONE_TIME_SUBMIT: u32 = 1;

// Stages a submission waits in.
pub const WAIT_STAGE_COLOR_ATTACHMENT_OUTPUT: u32 = 0x400;

// Memory allocation flags.
pub const ALLOCATION_DEDICATED_MEMORY: u32 = 1;
pub const ALLOCATION_MAPPED: u32 = 4;
pub const ALLOCATION_HOST_ACCESS_SEQUENTIAL_WRITE: u32 = 0x400;
pub const ALLOCATION_HOST_ACCESS_ALLOW_TRANSFER_INSTEAD: u32 = 0x1000;

// Single-precision values by their bits.
pub const F32_ZERO: u32 = 0;
pub const F32_HALF: u32 = 0x3f000000;
pub const F32_ONE: u32 = 0x3f800000;

/// A two-dimensional size in texels.
#[derive(Clone, Copy, Debug, PartialEq, Eq, Structural)]
pub struct Extent2D {
    pub width: u32,
    pub height: u32,
}

/// A three-dimensional size in texels.
#[derive(Clone, Copy, Debug, PartialEq, Eq, Structural)]
pub struct Extent3D {
    pub width: u32,
    pub height: u32,
    pub depth: u32,
}

/// A position in an image, in texels.
#[derive(Clone, Copy, Debug, PartialEq, Eq, Structural)]
pub struct Offset3D {
    pub x: i32,
    pub y: i32,
    pub z: i32,
}

/// The mip levels and array layers of an image that an operation covers.
#[derive(Clone, Copy, Debug, PartialEq, Eq, Structural)]
pub struct SubresourceRange {
    pub aspect_mask: u32,
    pub base_mip_level: u32,
    pub level_count: u32,
    pub base_array_layer: u32,
    pub layer_count: u32,
}

/// The array layers of one mip level that a copy covers.
#[derive(Clone, Copy, Debug, PartialEq, Eq, Structural)]
pub struct SubresourceLayers {
    pub aspect_mask: u32,
    pub mip_level: u32,
    pub base_array_layer: u32,
    pub layer_count: u32,
}

/// A memory barrier on part of an image, with the layout change it performs.
#[derive(Clone, Copy, Debug, PartialEq, Eq, Structural)]
pub struct ImageBarrier {
    pub src_stage: u64,
    pub src_access: u64,
    pub dst_stage: u64,
    pub dst_access: u64,
    pub old_layout: i32,
    pub new_layout: i32,
    pub range: SubresourceRange,
}

/// A scaled copy between two boxes of an image, each spanned by its two corners.
#[derive(Clone, Copy, Debug, PartialEq, Eq, Structural)]
pub struct ImageBlit {
    pub src: SubresourceLayers,
    pub src_from: Offset3D,
    pub src_to: Offset3D,
    /// The layout that the source is in.
    pub src_layout: i32,
    pub dst: SubresourceLayers,
    pub dst_from: Offset3D,
    pub dst_to: Offset3D,
    /// The layout that the destination is in.
    pub dst_layout: i32,
    pub filter: i32,
}

/// A copy from tightly packed buffer bytes into an image.
#[derive(Clone, Copy, Debug, PartialEq, Eq, Structural)]
pub struct BufferImageCopy {
    pub buffer_offset: u64,
    pub layers: SubresourceLayers,
    pub extent: Extent3D,
    /// The layout that the image is in.
    pub layout: i32,
}

/// A copy between two buffers.
#[derive(Clone, Copy, Debug, PartialEq, Eq, Structural)]
pub struct BufferCopy {
    pub src_offset: u64,
    pub dst_offset: u64,
    pub size: u64,
}

/// What an image is created with.
#[derive(Clone, Copy, Debug, PartialEq, Eq, Structural)]
pub struct ImageCreateInfo {
    pub image_type: i32,
    pub format: i32,
    pub extent: Extent3D,
    pub mip_levels: u32,
    pub array_layers: u32,
    pub samples: u32,
    pub tiling: i32,
    pub usage: u32,
    pub initial_layout: i32,
}

/// What an image view is created with.
#[derive(Clone, Copy, Debug, PartialEq, Eq, Structural)]
pub struct ImageViewCreateInfo {
    pub image: u64,
    pub view_type: i32,
    pub format: i32,
    pub range: SubresourceRange,
}

/// What a buffer is created with.
#[derive(Clone, Copy, Debug, PartialEq, Eq, Structural)]
pub struct BufferCreateInfo {
    pub size: u64,
    pub usage: u32,
}

/// Where the allocator places memory.
#[derive(Clone, Copy, Debug, PartialEq, Eq, Structural)]
pub enum MemoryUsage {
    Auto,
    AutoPreferDevice,
}

/// What memory is allocated with.
#[derive(Clone, Copy, Debug, PartialEq, Eq, Structural)]
pub struct AllocationCreateInfo {
    pub flags: u32,
    pub usage: MemoryUsage,
}

/// A resource as a shader sees it: an image view in a layout, or a sampler.
#[derive(Clone, Copy, Debug, PartialEq, Eq, Structural)]
pub struct DescriptorImageInfo {
    pub sampler: u64,
    pub image_view: u64,
    pub image_layout: i32,
}

} // verus!
