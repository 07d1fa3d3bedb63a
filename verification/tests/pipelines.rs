use vkdemo::pipelines::{
    all_attributes, descriptor_bindings, fixed_writes, pool_sizes, screen_sampler,
    GraphicsPipeline, PipelineSlot, ShaderSlot,
};
use vkdemo::shaders::shader_words;
use vkdemo::vk;
use vkdemo::vk::DescriptorImageInfo;

#[test]
fn attributes_fill_a_vertex() {
    let offsets: Vec<u32> = all_attributes().iter().map(|a| a.offset).collect();
    assert_eq!(offsets, vec![0, 12, 24, 40, 52]);
    assert_eq!(GraphicsPipeline::primary().vertex_binding.unwrap().stride, 60);
}

#[test]
fn pipelines_write_their_formats() {
    let primary = GraphicsPipeline::primary();
    assert_eq!(primary.color_format, Some(ash::vk::Format::R32G32B32A32_UINT.as_raw()));
    assert_eq!(primary.depth_format, ash::vk::Format::D32_SFLOAT.as_raw());
    assert_eq!(primary.attributes.len(), 5);
    assert_eq!(primary.cull_mode, ash::vk::CullModeFlags::BACK.as_raw());
    let shadow = GraphicsPipeline::shadow();
    assert_eq!(shadow.color_format, None);
    assert_eq!(shadow.attributes.len(), 1);
    let postfx = GraphicsPipeline::postfx();
    assert_eq!(postfx.color_format, Some(ash::vk::Format::B8G8R8A8_SRGB.as_raw()));
    assert_eq!(postfx.vertex_binding, None);
    assert!(!postfx.depth_test);
    let forward = GraphicsPipeline::forward();
    assert_eq!(forward.cull_mode, ash::vk::CullModeFlags::NONE.as_raw());
    assert!(forward.depth_test && forward.depth_write);
}

#[test]
fn layouts_push_what_shaders_read() {
    assert_eq!(PipelineSlot::Shadow.layout().push.size, 40);
    assert!(!PipelineSlot::Shadow.layout().descriptor_set);
    assert_eq!(PipelineSlot::Primary.layout().push.size, 32);
    assert_eq!(
        PipelineSlot::Deferred.layout().push.stages,
        ash::vk::ShaderStageFlags::COMPUTE.as_raw()
    );
    assert_eq!(PipelineSlot::Ao.compute_shader(), Some(ShaderSlot::AoMain));
    assert_eq!(PipelineSlot::Primary.compute_shader(), None);
}

#[test]
fn pool_has_room_for_the_bindings() {
    let bindings = descriptor_bindings(25, 9);
    let room = pool_sizes(25, 9);
    assert_eq!(bindings.len(), 13);
    assert_eq!(room.len(), 13);
    for (i, (binding, size)) in bindings.iter().zip(&room).enumerate() {
        assert_eq!(binding.binding as usize, i);
        assert_eq!(binding.descriptor_type, size.descriptor_type);
        assert_eq!(binding.count, size.count);
    }
    let counts: Vec<u32> = bindings.iter().map(|b| b.count).collect();
    assert_eq!(counts, vec![25, 9, 1, 1, 4, 1, 1, 1, 1, 1, 1, 2, 2]);
    assert_eq!(bindings[7].descriptor_type, ash::vk::DescriptorType::STORAGE_IMAGE.as_raw());
    assert_eq!(bindings[1].stages, ash::vk::ShaderStageFlags::FRAGMENT.as_raw());
}

#[test]
fn fixed_resources_are_written_first() {
    let view = |image_view| DescriptorImageInfo { sampler: 0, image_view, image_layout: 5 };
    let writes = fixed_writes(vec![view(1), view(2)], &vec![11, 12, 13], 21, 22, vec![view(3)]);
    let bindings: Vec<u32> = writes.iter().map(|w| w.binding).collect();
    assert_eq!(bindings, vec![0, 1, 2, 3, 4]);
    assert_eq!(writes[0].infos, vec![view(1), view(2)]);
    let samplers: Vec<u64> = writes[1].infos.iter().map(|i| i.sampler).collect();
    assert_eq!(samplers, vec![11, 12, 13]);
    assert_eq!(writes[2].infos[0].sampler, 21);
    assert_eq!(writes[3].infos[0].sampler, 22);
    assert_eq!(writes[4].infos, vec![view(3)]);
}

#[test]
fn screen_samplers_clamp() {
    let sampler = screen_sampler(vk::FILTER_NEAREST);
    assert_eq!(sampler.filter, ash::vk::Filter::NEAREST.as_raw());
    assert_eq!(
        sampler.address_mode_w,
        ash::vk::SamplerAddressMode::CLAMP_TO_EDGE.as_raw()
    );
    assert!(!sampler.all_levels);
}

#[test]
fn shaders_are_read_as_words() {
    assert_eq!(ShaderSlot::AoReprojectMain.spv_name(), "ao_reproject_main.spv");
    assert_eq!(ShaderSlot::PostFxVertex.spv_name(), "postfx_vertex.spv");
    let words = shader_words(&vec![0x03, 0x02, 0x23, 0x07, 1, 0, 0, 0x80, 9]);
    assert_eq!(words, vec![0x07230203, 0x80000001]);
    let bytes: Vec<u8> = words.iter().flat_map(|w| w.to_le_bytes()).collect();
    assert_eq!(bytes, vec![0x03, 0x02, 0x23, 0x07, 1, 0, 0, 0x80]);
}
