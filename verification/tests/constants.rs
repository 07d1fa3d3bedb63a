use vk_mem::AllocationCreateFlags;
use vkdemo::camera;
use vkdemo::vk;

#[test]
fn enumerators_have_their_registered_values() {
    assert_eq!(vk::FORMAT_UNDEFINED, ash::vk::Format::UNDEFINED.as_raw());
    assert_eq!(vk::FORMAT_R8G8B8A8_UNORM, ash::vk::Format::R8G8B8A8_UNORM.as_raw());
    assert_eq!(vk::FORMAT_R8G8B8A8_SRGB, ash::vk::Format::R8G8B8A8_SRGB.as_raw());
    assert_eq!(vk::FORMAT_B8G8R8A8_SRGB, ash::vk::Format::B8G8R8A8_SRGB.as_raw());
    assert_eq!(vk::FORMAT_R16G16B16A16_SFLOAT, ash::vk::Format::R16G16B16A16_SFLOAT.as_raw());
    assert_eq!(vk::FORMAT_R32_SFLOAT, ash::vk::Format::R32_SFLOAT.as_raw());
    assert_eq!(vk::FORMAT_R32G32_SFLOAT, ash::vk::Format::R32G32_SFLOAT.as_raw());
    assert_eq!(vk::FORMAT_R32G32B32_SFLOAT, ash::vk::Format::R32G32B32_SFLOAT.as_raw());
    assert_eq!(vk::FORMAT_R32G32B32A32_UINT, ash::vk::Format::R32G32B32A32_UINT.as_raw());
    assert_eq!(vk::FORMAT_R32G32B32A32_SFLOAT, ash::vk::Format::R32G32B32A32_SFLOAT.as_raw());
    assert_eq!(vk::FORMAT_D16_UNORM, ash::vk::Format::D16_UNORM.as_raw());
    assert_eq!(vk::FORMAT_D32_SFLOAT, ash::vk::Format::D32_SFLOAT.as_raw());
    assert_eq!(vk::FORMAT_D16_UNORM_S8_UINT, ash::vk::Format::D16_UNORM_S8_UINT.as_raw());
    assert_eq!(vk::FORMAT_D24_UNORM_S8_UINT, ash::vk::Format::D24_UNORM_S8_UINT.as_raw());
    assert_eq!(vk::FORMAT_D32_SFLOAT_S8_UINT, ash::vk::Format::D32_SFLOAT_S8_UINT.as_raw());
    assert_eq!(vk::IMAGE_TYPE_1D, ash::vk::ImageType::TYPE_1D.as_raw());
    assert_eq!(vk::IMAGE_TYPE_2D, ash::vk::ImageType::TYPE_2D.as_raw());
    assert_eq!(vk::IMAGE_TYPE_3D, ash::vk::ImageType::TYPE_3D.as_raw());
    assert_eq!(vk::VIEW_TYPE_1D, ash::vk::ImageViewType::TYPE_1D.as_raw());
    assert_eq!(vk::VIEW_TYPE_2D, ash::vk::ImageViewType::TYPE_2D.as_raw());
    assert_eq!(vk::VIEW_TYPE_3D, ash::vk::ImageViewType::TYPE_3D.as_raw());
    assert_eq!(vk::VIEW_TYPE_2D_ARRAY, ash::vk::ImageViewType::TYPE_2D_ARRAY.as_raw());
    assert_eq!(vk::ASPECT_COLOR, ash::vk::ImageAspectFlags::COLOR.as_raw());
    assert_eq!(vk::ASPECT_DEPTH, ash::vk::ImageAspectFlags::DEPTH.as_raw());
    assert_eq!(vk::ASPECT_STENCIL, ash::vk::ImageAspectFlags::STENCIL.as_raw());
    assert_eq!(vk::LAYOUT_UNDEFINED, ash::vk::ImageLayout::UNDEFINED.as_raw());
    assert_eq!(vk::LAYOUT_GENERAL, ash::vk::ImageLayout::GENERAL.as_raw());
    assert_eq!(vk::LAYOUT_SHADER_READ_ONLY_OPTIMAL, ash::vk::ImageLayout::SHADER_READ_ONLY_OPTIMAL.as_raw());
    assert_eq!(vk::LAYOUT_TRANSFER_SRC_OPTIMAL, ash::vk::ImageLayout::TRANSFER_SRC_OPTIMAL.as_raw());
    assert_eq!(vk::LAYOUT_TRANSFER_DST_OPTIMAL, ash::vk::ImageLayout::TRANSFER_DST_OPTIMAL.as_raw());
    assert_eq!(vk::LAYOUT_DEPTH_ATTACHMENT_OPTIMAL, ash::vk::ImageLayout::DEPTH_ATTACHMENT_OPTIMAL.as_raw());
    assert_eq!(vk::LAYOUT_DEPTH_READ_ONLY_OPTIMAL, ash::vk::ImageLayout::DEPTH_READ_ONLY_OPTIMAL.as_raw());
    assert_eq!(vk::LAYOUT_READ_ONLY_OPTIMAL, ash::vk::ImageLayout::READ_ONLY_OPTIMAL.as_raw());
    assert_eq!(vk::LAYOUT_ATTACHMENT_OPTIMAL, ash::vk::ImageLayout::ATTACHMENT_OPTIMAL.as_raw());
    assert_eq!(vk::LAYOUT_PRESENT_SRC_KHR, ash::vk::ImageLayout::PRESENT_SRC_KHR.as_raw());
    assert_eq!(vk::IMAGE_USAGE_TRANSFER_SRC, ash::vk::ImageUsageFlags::TRANSFER_SRC.as_raw());
    assert_eq!(vk::IMAGE_USAGE_TRANSFER_DST, ash::vk::ImageUsageFlags::TRANSFER_DST.as_raw());
    assert_eq!(vk::IMAGE_USAGE_SAMPLED, ash::vk::ImageUsageFlags::SAMPLED.as_raw());
    assert_eq!(vk::IMAGE_USAGE_STORAGE, ash::vk::ImageUsageFlags::STORAGE.as_raw());
    assert_eq!(vk::IMAGE_USAGE_COLOR_ATTACHMENT, ash::vk::ImageUsageFlags::COLOR_ATTACHMENT.as_raw());
    assert_eq!(vk::IMAGE_USAGE_DEPTH_STENCIL_ATTACHMENT, ash::vk::ImageUsageFlags::DEPTH_STENCIL_ATTACHMENT.as_raw());
    assert_eq!(vk::TILING_OPTIMAL, ash::vk::ImageTiling::OPTIMAL.as_raw());
    assert_eq!(vk::SAMPLES_TYPE_1, ash::vk::SampleCountFlags::TYPE_1.as_raw());
    assert_eq!(vk::BUFFER_USAGE_TRANSFER_SRC, ash::vk::BufferUsageFlags::TRANSFER_SRC.as_raw());
    assert_eq!(vk::BUFFER_USAGE_TRANSFER_DST, ash::vk::BufferUsageFlags::TRANSFER_DST.as_raw());
    assert_eq!(vk::BUFFER_USAGE_STORAGE_BUFFER, ash::vk::BufferUsageFlags::STORAGE_BUFFER.as_raw());
    assert_eq!(vk::BUFFER_USAGE_INDEX_BUFFER, ash::vk::BufferUsageFlags::INDEX_BUFFER.as_raw());
    assert_eq!(vk::BUFFER_USAGE_VERTEX_BUFFER, ash::vk::BufferUsageFlags::VERTEX_BUFFER.as_raw());
    assert_eq!(vk::BUFFER_USAGE_SHADER_DEVICE_ADDRESS, ash::vk::BufferUsageFlags::SHADER_DEVICE_ADDRESS.as_raw());
    assert_eq!(vk::STAGE_NONE, ash::vk::PipelineStageFlags2::NONE.as_raw());
    assert_eq!(vk::STAGE_TOP_OF_PIPE, ash::vk::PipelineStageFlags2::TOP_OF_PIPE.as_raw());
    assert_eq!(vk::STAGE_FRAGMENT_SHADER, ash::vk::PipelineStageFlags2::FRAGMENT_SHADER.as_raw());
    assert_eq!(vk::STAGE_EARLY_FRAGMENT_TESTS, ash::vk::PipelineStageFlags2::EARLY_FRAGMENT_TESTS.as_raw());
    assert_eq!(vk::STAGE_LATE_FRAGMENT_TESTS, ash::vk::PipelineStageFlags2::LATE_FRAGMENT_TESTS.as_raw());
    assert_eq!(vk::STAGE_COLOR_ATTACHMENT_OUTPUT, ash::vk::PipelineStageFlags2::COLOR_ATTACHMENT_OUTPUT.as_raw());
    assert_eq!(vk::STAGE_COMPUTE_SHADER, ash::vk::PipelineStageFlags2::COMPUTE_SHADER.as_raw());
    assert_eq!(vk::STAGE_TRANSFER, ash::vk::PipelineStageFlags2::TRANSFER.as_raw());
    assert_eq!(vk::STAGE_BOTTOM_OF_PIPE, ash::vk::PipelineStageFlags2::BOTTOM_OF_PIPE.as_raw());
    assert_eq!(vk::ACCESS_NONE, ash::vk::AccessFlags2::NONE.as_raw());
    assert_eq!(vk::ACCESS_SHADER_READ, ash::vk::AccessFlags2::SHADER_READ.as_raw());
    assert_eq!(vk::ACCESS_COLOR_ATTACHMENT_READ, ash::vk::AccessFlags2::COLOR_ATTACHMENT_READ.as_raw());
    assert_eq!(vk::ACCESS_COLOR_ATTACHMENT_WRITE, ash::vk::AccessFlags2::COLOR_ATTACHMENT_WRITE.as_raw());
    assert_eq!(vk::ACCESS_DEPTH_STENCIL_ATTACHMENT_READ, ash::vk::AccessFlags2::DEPTH_STENCIL_ATTACHMENT_READ.as_raw());
    assert_eq!(vk::ACCESS_DEPTH_STENCIL_ATTACHMENT_WRITE, ash::vk::AccessFlags2::DEPTH_STENCIL_ATTACHMENT_WRITE.as_raw());
    assert_eq!(vk::ACCESS_TRANSFER_READ, ash::vk::AccessFlags2::TRANSFER_READ.as_raw());
    assert_eq!(vk::ACCESS_TRANSFER_WRITE, ash::vk::AccessFlags2::TRANSFER_WRITE.as_raw());
    assert_eq!(vk::ACCESS_SHADER_SAMPLED_READ, ash::vk::AccessFlags2::SHADER_SAMPLED_READ.as_raw());
    assert_eq!(vk::ACCESS_SHADER_STORAGE_WRITE, ash::vk::AccessFlags2::SHADER_STORAGE_WRITE.as_raw());
    assert_eq!(vk::DESCRIPTOR_SAMPLER, ash::vk::DescriptorType::SAMPLER.as_raw());
    assert_eq!(vk::DESCRIPTOR_SAMPLED_IMAGE, ash::vk::DescriptorType::SAMPLED_IMAGE.as_raw());
    assert_eq!(vk::DESCRIPTOR_STORAGE_IMAGE, ash::vk::DescriptorType::STORAGE_IMAGE.as_raw());
    assert_eq!(vk::SHADER_VERTEX, ash::vk::ShaderStageFlags::VERTEX.as_raw());
    assert_eq!(vk::SHADER_FRAGMENT, ash::vk::ShaderStageFlags::FRAGMENT.as_raw());
    assert_eq!(vk::SHADER_COMPUTE, ash::vk::ShaderStageFlags::COMPUTE.as_raw());
    assert_eq!(vk::ADDRESS_REPEAT, ash::vk::SamplerAddressMode::REPEAT.as_raw());
    assert_eq!(vk::ADDRESS_MIRRORED_REPEAT, ash::vk::SamplerAddressMode::MIRRORED_REPEAT.as_raw());
    assert_eq!(vk::ADDRESS_CLAMP_TO_EDGE, ash::vk::SamplerAddressMode::CLAMP_TO_EDGE.as_raw());
    assert_eq!(vk::FILTER_NEAREST, ash::vk::Filter::NEAREST.as_raw());
    assert_eq!(vk::FILTER_LINEAR, ash::vk::Filter::LINEAR.as_raw());
    assert_eq!(vk::MIPMAP_NEAREST, ash::vk::SamplerMipmapMode::NEAREST.as_raw());
    assert_eq!(vk::MIPMAP_LINEAR, ash::vk::SamplerMipmapMode::LINEAR.as_raw());
    assert_eq!(vk::QUERY_TIMESTAMP, ash::vk::QueryType::TIMESTAMP.as_raw());
    assert_eq!(vk::LOAD_OP_CLEAR, ash::vk::AttachmentLoadOp::CLEAR.as_raw());
    assert_eq!(vk::STORE_OP_STORE, ash::vk::AttachmentStoreOp::STORE.as_raw());
    assert_eq!(vk::STORE_OP_DONT_CARE, ash::vk::AttachmentStoreOp::DONT_CARE.as_raw());
    assert_eq!(vk::BIND_POINT_GRAPHICS, ash::vk::PipelineBindPoint::GRAPHICS.as_raw());
    assert_eq!(vk::BIND_POINT_COMPUTE, ash::vk::PipelineBindPoint::COMPUTE.as_raw());
    assert_eq!(vk::INDEX_UINT32, ash::vk::IndexType::UINT32.as_raw());
    assert_eq!(vk::CULL_NONE, ash::vk::CullModeFlags::NONE.as_raw());
    assert_eq!(vk::CULL_BACK, ash::vk::CullModeFlags::BACK.as_raw());
    assert_eq!(vk::COMPARE_NEVER, ash::vk::CompareOp::NEVER.as_raw());
    assert_eq!(vk::COMPARE_LESS_OR_EQUAL, ash::vk::CompareOp::LESS_OR_EQUAL.as_raw());
    assert_eq!(vk::TOPOLOGY_TRIANGLE_LIST, ash::vk::PrimitiveTopology::TRIANGLE_LIST.as_raw());
    assert_eq!(vk::INPUT_RATE_VERTEX, ash::vk::VertexInputRate::VERTEX.as_raw());
    assert_eq!(vk::COLOR_COMPONENT_RGBA, ash::vk::ColorComponentFlags::RGBA.as_raw());
    assert_eq!(vk::DYNAMIC_STATE_VIEWPORT, ash::vk::DynamicState::VIEWPORT.as_raw());
    assert_eq!(vk::DYNAMIC_STATE_SCISSOR, ash::vk::DynamicState::SCISSOR.as_raw());
    assert_eq!(vk::PRESENT_MODE_IMMEDIATE, ash::vk::PresentModeKHR::IMMEDIATE.as_raw());
    assert_eq!(vk::PRESENT_MODE_FIFO, ash::vk::PresentModeKHR::FIFO.as_raw());
    assert_eq!(vk::COLOR_SPACE_SRGB_NONLINEAR, ash::vk::ColorSpaceKHR::SRGB_NONLINEAR.as_raw());
    assert_eq!(vk::TRANSFORM_IDENTITY, ash::vk::SurfaceTransformFlagsKHR::IDENTITY.as_raw());
    assert_eq!(vk::COMPOSITE_ALPHA_OPAQUE, ash::vk::CompositeAlphaFlagsKHR::OPAQUE.as_raw());
    assert_eq!(vk::QUEUE_GRAPHICS, ash::vk::QueueFlags::GRAPHICS.as_raw());
    assert_eq!(vk::RESULT_NOT_READY, ash::vk::Result::NOT_READY.as_raw());
    assert_eq!(vk::RESULT_ERROR_OUT_OF_DATE_KHR, ash::vk::Result::ERROR_OUT_OF_DATE_KHR.as_raw());
    assert_eq!(vk::INSTANCE_ENUMERATE_PORTABILITY_KHR, ash::vk::InstanceCreateFlags::ENUMERATE_PORTABILITY_KHR.as_raw());
    assert_eq!(vk::COMMAND_POOL_RESET_COMMAND_BUFFER, ash::vk::CommandPoolCreateFlags::RESET_COMMAND_BUFFER.as_raw());
    assert_eq!(vk::FENCE_SIGNALED, ash::vk::FenceCreateFlags::SIGNALED.as_raw());
    assert_eq!(vk::COMMAND_BUFFER_ONE_TIME_SUBMIT, ash::vk::CommandBufferUsageFlags::ONE_TIME_SUBMIT.as_raw());
    assert_eq!(vk::WAIT_STAGE_COLOR_ATTACHMENT_OUTPUT, ash::vk::PipelineStageFlags::COLOR_ATTACHMENT_OUTPUT.as_raw());
    assert_eq!(vk::RESULT_SUCCESS, ash::vk::Result::SUCCESS.as_raw());
}

#[test]
fn allocation_flags_have_their_values() {
    assert_eq!(vk::ALLOCATION_DEDICATED_MEMORY, AllocationCreateFlags::DEDICATED_MEMORY.bits());
    assert_eq!(vk::ALLOCATION_MAPPED, AllocationCreateFlags::MAPPED.bits());
    assert_eq!(
        vk::ALLOCATION_HOST_ACCESS_SEQUENTIAL_WRITE,
        AllocationCreateFlags::HOST_ACCESS_SEQUENTIAL_WRITE.bits()
    );
    assert_eq!(
        vk::ALLOCATION_HOST_ACCESS_ALLOW_TRANSFER_INSTEAD,
        AllocationCreateFlags::HOST_ACCESS_ALLOW_TRANSFER_INSTEAD.bits()
    );
}

#[test]
fn numbers_have_their_bits() {
    assert_eq!(vk::F32_ZERO, 0.0f32.to_bits());
    assert_eq!(vk::F32_HALF, 0.5f32.to_bits());
    assert_eq!(vk::F32_ONE, 1.0f32.to_bits());
    assert_eq!(camera::F32_MINUS_ONE, (-1.0f32).to_bits());
}
