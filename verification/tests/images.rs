use std::cell::{Cell, RefCell};
use vkdemo::utils::context::{DestroyStep, SetupStep, VkCtx, VkDrop};
use vkdemo::utils::image::{image, Image, ImageCommand, ImageDesc, ViewDesc};
use vkdemo::utils::upload::UploadStep;
use vkdemo::vk;
use vkdemo::vk::{Extent2D, Extent3D, Offset3D};

fn context() -> VkCtx {
    VkCtx::new(0, 1, |_| vec![1], |_| vec![2, 3], |_| vec![4])
}

fn mipmaps(image: &Image, layout: i32) -> Vec<ImageCommand> {
    let steps = image.generate_mipmaps(&context(), layout);
    assert_eq!(steps[0], SetupStep::Begin(vk::COMMAND_BUFFER_ONE_TIME_SUBMIT));
    assert_eq!(
        steps[steps.len() - 3..],
        [SetupStep::End, SetupStep::Submit, SetupStep::WaitIdle]
    );
    steps
        .into_iter()
        .filter_map(|step| match step {
            SetupStep::Record(command) => Some(command),
            _ => None,
        })
        .collect()
}

fn texture(width: u32, height: u32, mip_levels: u32) -> Image {
    image()
        .extent_2d(Extent2D { width, height })
        .format(vk::FORMAT_R8G8B8A8_SRGB)
        .mip_levels(mip_levels)
        .usage(vk::IMAGE_USAGE_SAMPLED)
        .create(|_, _| 5, 0)
}

#[test]
fn description_starts_blank() {
    let desc = image();
    assert_eq!(desc, ImageDesc::default());
    assert_eq!(desc.samples, ash::vk::SampleCountFlags::TYPE_1.as_raw());
    assert_eq!((desc.mip_levels, desc.array_layers, desc.usage, desc.flags), (1, 1, 0, 0));
    assert_eq!(desc.extent, Extent3D { width: 0, height: 0, depth: 0 });
}

#[test]
fn builders_set_what_they_say() {
    assert_eq!(image().flags(3).flags, 3);
    assert_eq!(image().samples(4).samples, 4);
    let line = image().extent_1d(9);
    assert_eq!(line.image_type, ash::vk::ImageType::TYPE_1D.as_raw());
    assert_eq!(line.extent, Extent3D { width: 9, height: 1, depth: 1 });
    let flat = image().extent_2d(Extent2D { width: 9, height: 8 });
    assert_eq!(flat.image_type, ash::vk::ImageType::TYPE_2D.as_raw());
    assert_eq!(flat.extent, Extent3D { width: 9, height: 8, depth: 1 });
    let layered = image().extent_2d_array(Extent2D { width: 9, height: 8 }, 6);
    assert_eq!(layered.array_layers, 6);
    assert_eq!(layered.extent, Extent3D { width: 9, height: 8, depth: 1 });
    let deep = image().extent_3d(Extent3D { width: 9, height: 8, depth: 7 });
    assert_eq!(deep.image_type, ash::vk::ImageType::TYPE_3D.as_raw());
    assert_eq!(deep.extent, Extent3D { width: 9, height: 8, depth: 7 });
}

#[test]
fn creation_hands_the_description_on() {
    let made = image()
        .extent_2d(Extent2D { width: 4, height: 2 })
        .format(vk::FORMAT_D32_SFLOAT)
        .flags(1)
        .usage(vk::IMAGE_USAGE_SAMPLED)
        .create(
            |info, memory| {
                assert_eq!(info.format, ash::vk::Format::D32_SFLOAT.as_raw());
                assert_eq!(info.extent, Extent3D { width: 4, height: 2, depth: 1 });
                assert_eq!(info.usage, ash::vk::ImageUsageFlags::SAMPLED.as_raw());
                assert_eq!(info.initial_layout, ash::vk::ImageLayout::UNDEFINED.as_raw());
                assert_eq!(memory.flags, vk::ALLOCATION_DEDICATED_MEMORY);
                77
            },
            vk::ALLOCATION_DEDICATED_MEMORY,
        );
    assert_eq!(made.image, 77);
    assert!(made.views.is_empty());
}

#[test]
fn image_with_data_can_be_copied_into() {
    let desc = image()
        .extent_2d(Extent2D { width: 4, height: 2 })
        .mip_levels(3)
        .usage(vk::IMAGE_USAGE_SAMPLED);
    let seen = RefCell::new(Vec::new());
    let made = desc.create_with_data(
        &context(),
        |steps| {
            *seen.borrow_mut() = steps;
            66
        },
        0,
        vec![9; 32],
    );
    assert_eq!((made.image, made.desc), (66, desc));
    assert!(made.views.is_empty());
    let steps = seen.into_inner();
    assert_eq!(steps.len(), 10);
    match &steps[0] {
        UploadStep::CreateStaging(creation) => assert_eq!(creation.info.size, 32),
        other => panic!("{other:?} is not the staging buffer"),
    }
    assert_eq!(steps[1], UploadStep::WriteStaging(vec![9; 32]));
    match &steps[2] {
        UploadStep::CreateTarget(creation) => assert_eq!(
            creation.info.usage,
            (ash::vk::ImageUsageFlags::SAMPLED | ash::vk::ImageUsageFlags::TRANSFER_DST).as_raw()
        ),
        other => panic!("{other:?} is not the image"),
    }
    match &steps[4] {
        UploadStep::Setup(SetupStep::Record(ImageCommand::Barrier(barrier))) => {
            assert_eq!(barrier.range.level_count, 3);
            assert_eq!(barrier.new_layout, vk::LAYOUT_TRANSFER_DST_OPTIMAL);
        }
        other => panic!("{other:?} is not the barrier"),
    }
    match &steps[5] {
        UploadStep::Setup(SetupStep::Record(ImageCommand::Copy(copy))) => {
            assert_eq!(copy.extent, Extent3D { width: 4, height: 2, depth: 1 });
            assert_eq!(copy.layers.mip_level, 0);
            assert_eq!(copy.layout, ash::vk::ImageLayout::TRANSFER_DST_OPTIMAL.as_raw());
        }
        other => panic!("{other:?} is not the copy"),
    }
    assert_eq!(steps[8], UploadStep::Setup(SetupStep::WaitIdle));
    assert_eq!(steps[9], UploadStep::DestroyStaging);
}

#[test]
fn default_view_follows_the_image() {
    let depth = ViewDesc::default_from_image(
        &image()
            .extent_2d_array(Extent2D { width: 1, height: 1 }, 4)
            .format(vk::FORMAT_D32_SFLOAT),
    );
    assert_eq!(depth.view_type, ash::vk::ImageViewType::TYPE_2D_ARRAY.as_raw());
    assert_eq!(depth.aspect_mask, ash::vk::ImageAspectFlags::DEPTH.as_raw());
    assert_eq!(depth.layer_count, 4);
    let stencil = ViewDesc::default_from_image(
        &image()
            .extent_2d(Extent2D { width: 1, height: 1 })
            .format(vk::FORMAT_D24_UNORM_S8_UINT),
    );
    assert_eq!(
        stencil.aspect_mask,
        (ash::vk::ImageAspectFlags::DEPTH | ash::vk::ImageAspectFlags::STENCIL).as_raw()
    );
    let color = ViewDesc::default_from_image(&image().extent_1d(4));
    assert_eq!(color.view_type, ash::vk::ImageViewType::TYPE_1D.as_raw());
    assert_eq!(color.aspect_mask, ash::vk::ImageAspectFlags::COLOR.as_raw());
}

#[test]
fn view_is_created_once() {
    let created = Cell::new(0u64);
    let create = |_| {
        created.set(created.get() + 1);
        created.get()
    };
    let mut img = texture(8, 8, 4);
    assert_eq!(img.view_default(&create), 1);
    assert_eq!(img.view_default(&create), 1);
    assert_eq!(img.view_mip_level(&create, 2), 2);
    assert_eq!(img.view_array_layer(&create, 0), 1);
    assert_eq!(img.view_mip_level(&create, 2), 2);
    assert_eq!(created.get(), 2);
    let whole = img.default_view_desc;
    let part = ViewDesc { base_mip_level: 1, level_count: 2, ..whole };
    assert_eq!(img.view(&create, part), 3);
    assert_eq!(img.view(&create, part), 3);
    assert_eq!(img.view(&create, whole), 1);
    assert_eq!(created.get(), 3);
    assert_eq!(img.views.len(), 3);
    let info = img.info_default(&create, vk::LAYOUT_GENERAL);
    assert_eq!((info.sampler, info.image_view, info.image_layout), (0, 1, vk::LAYOUT_GENERAL));
    assert_eq!(img.info_mip_level(&create, vk::LAYOUT_GENERAL, 2).image_view, 2);
    assert_eq!(img.info_array_layer(&create, vk::LAYOUT_GENERAL, 0).image_view, 1);
}

#[test]
fn layer_view_is_flat() {
    let mut img = image()
        .extent_2d_array(Extent2D { width: 16, height: 16 }, 4)
        .format(vk::FORMAT_D32_SFLOAT)
        .create(|_, _| 6, 0);
    let view = img.view_array_layer(
        |info| {
            assert_eq!(info.image, 6);
            assert_eq!(info.view_type, ash::vk::ImageViewType::TYPE_2D.as_raw());
            assert_eq!((info.range.base_array_layer, info.range.layer_count), (3, 1));
            8
        },
        3,
    );
    assert_eq!(view, 8);
}

#[test]
fn mipmaps_halve_down_to_one_texel() {
    let commands = mipmaps(&texture(4, 2, 3), vk::LAYOUT_SHADER_READ_ONLY_OPTIMAL);
    assert_eq!(commands.len(), 7);
    let corners: Vec<(Offset3D, Offset3D)> = commands
        .iter()
        .filter_map(|c| match c {
            ImageCommand::Blit(blit) => {
                assert_eq!(blit.filter, ash::vk::Filter::LINEAR.as_raw());
                assert_eq!(
                    blit.src_layout,
                    ash::vk::ImageLayout::TRANSFER_SRC_OPTIMAL.as_raw()
                );
                assert_eq!(
                    blit.dst_layout,
                    ash::vk::ImageLayout::TRANSFER_DST_OPTIMAL.as_raw()
                );
                Some((blit.src_to, blit.dst_to))
            }
            _ => None,
        })
        .collect();
    assert_eq!(
        corners,
        vec![
            (Offset3D { x: 4, y: 2, z: 1 }, Offset3D { x: 2, y: 1, z: 1 }),
            (Offset3D { x: 2, y: 1, z: 1 }, Offset3D { x: 1, y: 1, z: 1 }),
        ]
    );
    match commands[6] {
        ImageCommand::Barrier(barrier) => {
            assert_eq!(barrier.range.base_mip_level, 2);
            assert_eq!(barrier.old_layout, vk::LAYOUT_TRANSFER_DST_OPTIMAL);
            assert_eq!(barrier.new_layout, vk::LAYOUT_SHADER_READ_ONLY_OPTIMAL);
        }
        _ => panic!("the last command releases the last level"),
    }
}

#[test]
fn single_level_is_only_released() {
    let commands = mipmaps(&texture(1, 1, 1), vk::LAYOUT_GENERAL);
    assert_eq!(commands.len(), 1);
}

#[test]
fn views_are_destroyed_with_the_image() {
    let mut img = texture(2, 2, 2);
    img.view_default(|_| 21);
    img.view_mip_level(|_| 22, 1);
    let mut steps = img.destroy();
    assert_eq!(steps.pop(), Some(DestroyStep::Image(5)));
    assert_eq!(steps, vec![DestroyStep::ImageView(21), DestroyStep::ImageView(22)]);
}
