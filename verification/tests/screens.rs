use std::cell::Cell;
use vkdemo::config::Config;
use vkdemo::pipelines::{descriptor_bindings, fixed_writes};
use vkdemo::screen::{
    ExtentExt, ScreenResources, ScreenStep, SurfaceCapabilities, ViewMakers,
};
use vkdemo::utils::context::{DestroyStep, VkDrop};
use vkdemo::utils::requests::Request;
use vkdemo::vk;
use vkdemo::vk::{DescriptorImageInfo, Extent2D, ImageViewCreateInfo};

fn scaled(size: Extent2D, factor: u32) -> Extent2D {
    let factor = f32::from_bits(factor);
    Extent2D {
        width: (size.width as f32 * factor).ceil() as u32,
        height: (size.height as f32 * factor).ceil() as u32,
    }
}

fn texels(size: [u32; 2]) -> [u32; 2] {
    size.map(|n| (1.0 / n as f32).to_bits())
}

fn capabilities(width: u32, height: u32) -> SurfaceCapabilities {
    SurfaceCapabilities { min_image_count: 3, current_extent: Extent2D { width, height } }
}

fn makers<V: Clone>(create: V) -> ViewMakers<V> {
    ViewMakers {
        depth: create.clone(),
        gbuffer: create.clone(),
        color_output: create.clone(),
        ao: create.clone(),
        ao_history: (create.clone(), create),
    }
}

fn screen(config: &Config) -> ScreenResources {
    ScreenResources::new(
        capabilities(1001, 500),
        config,
        scaled,
        texels,
        |plan| {
            assert_eq!(plan.present_mode, ash::vk::PresentModeKHR::IMMEDIATE.as_raw());
            assert_eq!(plan.image_format, ash::vk::Format::B8G8R8A8_SRGB.as_raw());
            assert_eq!(plan.min_image_count, 3);
            assert_eq!(plan.old_swapchain, 0);
            900
        },
        |swapchain| {
            assert_eq!(swapchain, 900);
            vec![31, 32, 33]
        },
        |requests| {
            assert_eq!(requests.len(), 12);
            for (i, request) in requests[..3].iter().enumerate() {
                match request {
                    Request::ImageView(info) => assert_eq!(info.image, 31 + i as u64),
                    other => panic!("{other:?} is not a view"),
                }
            }
            assert_eq!(requests[3..6], [Request::Semaphore; 3]);
            let formats: Vec<i32> = requests[6..]
                .iter()
                .map(|request| match request {
                    Request::Image(creation) => {
                        assert_eq!(creation.allocation.flags, vk::ALLOCATION_DEDICATED_MEMORY);
                        creation.info.format
                    }
                    other => panic!("{other:?} is not an image"),
                })
                .collect();
            assert_eq!(
                formats,
                vec![
                    ash::vk::Format::D32_SFLOAT.as_raw(),
                    ash::vk::Format::R32G32B32A32_UINT.as_raw(),
                    ash::vk::Format::R32_SFLOAT.as_raw(),
                    ash::vk::Format::R32_SFLOAT.as_raw(),
                    ash::vk::Format::R32_SFLOAT.as_raw(),
                    ash::vk::Format::R16G16B16A16_SFLOAT.as_raw(),
                ]
            );
            vec![131, 132, 133, 1, 2, 3, 2000, 2001, 2002, 2003, 2004, 2005]
        },
    )
}

#[test]
fn screen_starts_with_everything_made() {
    let screen = screen(&Config::default());
    assert!(!screen.recreate);
    assert_eq!(screen.swapchain, 900);
    assert_eq!(screen.swapchain_images, vec![31, 32, 33]);
    assert_eq!(screen.swapchain_views, vec![131, 132, 133]);
    assert_eq!(screen.render_complete_semaphores, vec![1, 2, 3]);
    assert_eq!(screen.viewport_size, Extent2D { width: 1001, height: 500 });
    assert_eq!(screen.render_size, Extent2D { width: 501, height: 250 });
    assert_eq!(screen.render_size_half, Extent2D { width: 501, height: 250 });
    assert_eq!(f32::from_bits(screen.texel_size[1]), 1.0 / 250.0);
    assert_eq!(screen.images.depth.image, 2000);
    assert_eq!(screen.images.depth.desc.format, ash::vk::Format::D32_SFLOAT.as_raw());
    assert_eq!(screen.images.gbuffer.image, 2001);
    assert_eq!(screen.images.ao.image, 2002);
    assert_eq!(screen.images.ao_history.0.image, 2003);
    assert_eq!(screen.images.ao_history.1.image, 2004);
    assert_eq!(screen.images.color_output.image, 2005);
    assert_eq!(screen.images.gbuffer.desc.format, vk::FORMAT_R32G32B32A32_UINT);
    assert_eq!(screen.images.ao_history.1.desc, screen.images.ao.desc);
    assert_eq!(
        screen.images.color_output.desc.usage,
        (ash::vk::ImageUsageFlags::COLOR_ATTACHMENT
            | ash::vk::ImageUsageFlags::STORAGE
            | ash::vk::ImageUsageFlags::SAMPLED)
            .as_raw()
    );
}

#[test]
fn half_size_is_of_the_render_size_after_a_resize() {
    let config = Config::default();
    let mut screen = screen(&config);
    let plan = screen.resize(capabilities(640, 480), &config, scaled, texels);
    assert_eq!(plan.old_swapchain, 900);
    assert_eq!(plan.image_extent, Extent2D { width: 640, height: 480 });
    assert_eq!(screen.render_size, Extent2D { width: 320, height: 240 });
    assert_eq!(screen.render_size_half, Extent2D { width: 160, height: 120 });
    assert_eq!(f32::from_bits(screen.texel_size_half[0]), 1.0 / 160.0);
}

#[test]
fn recreation_hands_everything_back_once_idle() {
    let mut screen = screen(&Config::default());
    screen.recreate = true;
    screen.update_descriptors(makers(|info: ImageViewCreateInfo| info.image + 1));
    let images = screen.images.destroy();
    assert_eq!(images.len(), 12);
    let steps = screen.recreate();
    assert!(!screen.recreate);
    assert_eq!(steps[0], ScreenStep::WaitIdle);
    assert_eq!(steps[1], ScreenStep::DestroySemaphore(1));
    assert_eq!(steps[3], ScreenStep::DestroySemaphore(3));
    assert_eq!(steps[4], ScreenStep::DestroySwapchainView(131));
    assert_eq!(steps[6], ScreenStep::DestroySwapchainView(133));
    assert_eq!(steps.len(), 7 + images.len() + 4);
    assert_eq!(
        steps[7 + images.len()..],
        [
            ScreenStep::ReplaceSwapchain(900),
            ScreenStep::DestroySwapchain(900),
            ScreenStep::Rebuild,
            ScreenStep::WriteDescriptors,
        ]
    );
    for (step, image) in steps[7..].iter().zip(&images) {
        assert_eq!(*step, ScreenStep::Destroy(*image));
    }
    assert_eq!(images[1], DestroyStep::Image(screen.images.depth.image));
    assert!(screen.render_complete_semaphores.is_empty());
    assert!(screen.swapchain_views.is_empty());
}

#[test]
fn rebuilt_screen_belongs_to_the_new_swapchain() {
    let config = Config::default();
    let mut screen = screen(&config);
    screen.recreate();
    screen.resize(capabilities(640, 480), &config, scaled, texels);
    screen.rebuild(
        901,
        vec![41, 42],
        |requests| {
            assert_eq!(requests.len(), 10);
            match (&requests[2], &requests[6]) {
                (Request::Image(depth), Request::Image(history)) => {
                    assert_eq!(depth.info.extent.width, 320);
                    assert_eq!(history.info.extent.width, 160);
                }
                other => panic!("{other:?} are not images"),
            }
            assert_eq!(requests[8..], [Request::Semaphore; 2]);
            (50..60).collect()
        },
    );
    assert_eq!(screen.swapchain, 901);
    assert_eq!(screen.swapchain_images, vec![41, 42]);
    assert_eq!(screen.swapchain_views, vec![50, 51]);
    assert_eq!(screen.render_complete_semaphores, vec![58, 59]);
    assert_eq!(screen.images.depth.image, 52);
    assert_eq!(screen.images.ao.image, 54);
    assert_eq!(screen.images.ao_history.1.image, 56);
    assert_eq!(screen.images.color_output.image, 57);
}

#[test]
fn descriptors_point_at_the_images() {
    let mut screen = screen(&Config::default());
    let views = Cell::new(0);
    let writes = screen.update_descriptors(makers(|_| {
        views.set(views.get() + 1);
        views.get()
    }));
    assert_eq!(views.get(), 6);
    let bindings: Vec<u32> = writes.iter().map(|w| w.binding).collect();
    assert_eq!(bindings, vec![5, 6, 7, 8, 9, 10, 11, 12]);
    let layouts: Vec<i32> = writes.iter().map(|w| w.infos[0].image_layout).collect();
    assert_eq!(
        layouts,
        vec![
            ash::vk::ImageLayout::DEPTH_READ_ONLY_OPTIMAL.as_raw(),
            ash::vk::ImageLayout::READ_ONLY_OPTIMAL.as_raw(),
            ash::vk::ImageLayout::GENERAL.as_raw(),
            ash::vk::ImageLayout::READ_ONLY_OPTIMAL.as_raw(),
            ash::vk::ImageLayout::GENERAL.as_raw(),
            ash::vk::ImageLayout::READ_ONLY_OPTIMAL.as_raw(),
            ash::vk::ImageLayout::GENERAL.as_raw(),
            ash::vk::ImageLayout::GENERAL.as_raw(),
        ]
    );
    assert_eq!(writes[2].infos[0].image_view, writes[3].infos[0].image_view);
    assert_eq!(writes[6].infos.len(), 2);
    assert_eq!(writes[6].infos, writes[7].infos);
    let again = screen.update_descriptors(makers(|_| panic!("all views exist")));
    assert_eq!(again, writes);
}

#[test]
fn writes_fill_the_descriptor_set() {
    let mut screen = screen(&Config::default());
    let view = |image_view| DescriptorImageInfo { sampler: 0, image_view, image_layout: 5 };
    let mut writes =
        fixed_writes(vec![view(1); 25], &vec![2; 9], 3, 4, vec![view(5); 4]);
    writes.extend(screen.update_descriptors(makers(|_| 6)));
    let bindings = descriptor_bindings(25, 9);
    assert_eq!(writes.len(), bindings.len());
    for (write, binding) in writes.iter().zip(&bindings) {
        assert_eq!(write.binding, binding.binding);
        assert_eq!(write.descriptor_type, binding.descriptor_type);
        assert_eq!(write.infos.len(), binding.count as usize);
    }
}

#[test]
fn size_is_a_vector() {
    assert_eq!(Extent2D { width: 3, height: 4 }.as_uvec2(), [3, 4]);
}
