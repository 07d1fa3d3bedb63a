use std::cell::RefCell;
use vkdemo::app::App;
use vkdemo::utils::buffer::Buffer;
use vkdemo::utils::context::{DestroyStep, SetupStep, VkCtx};
use vkdemo::utils::requests::Request;
use vkdemo::vk;

fn strings(names: &[&str]) -> Vec<String> {
    names.iter().map(|name| name.to_string()).collect()
}

#[test]
fn debugging_build_validates_where_it_can() {
    let available = strings(&["VK_KHR_surface", "VK_EXT_debug_utils"]);
    let plan = VkCtx::instance_plan(strings(&["VK_KHR_surface"]), &available, true);
    assert_eq!(plan.application_name, "vk demo");
    assert_eq!(plan.engine_version, ash::vk::make_api_version(0, 0, 1, 0));
    assert_eq!(plan.api_version, ash::vk::API_VERSION_1_3);
    assert_eq!(plan.extensions, strings(&["VK_KHR_surface", "VK_EXT_debug_utils"]));
    assert_eq!(plan.layers, strings(&["VK_LAYER_KHRONOS_validation"]));
    assert_eq!(plan.flags, 0);
}

#[test]
fn release_build_does_not_validate() {
    let available = strings(&["VK_EXT_debug_utils"]);
    let plan = VkCtx::instance_plan(Vec::new(), &available, false);
    assert!(plan.extensions.is_empty());
    assert!(plan.layers.is_empty());
}

#[test]
fn debugging_build_without_support_does_not_validate() {
    let plan = VkCtx::instance_plan(Vec::new(), &strings(&["VK_KHR_surface"]), true);
    assert!(plan.extensions.is_empty());
    assert!(plan.layers.is_empty());
}

#[test]
fn portability_is_enumerated_where_known() {
    let available = strings(&["VK_KHR_portability_enumeration", "VK_EXT_debug_utils"]);
    let plan = VkCtx::instance_plan(strings(&["a", "b"]), &available, true);
    assert_eq!(
        plan.extensions,
        strings(&["a", "b", "VK_EXT_debug_utils", "VK_KHR_portability_enumeration"])
    );
    assert_eq!(
        plan.flags,
        ash::vk::InstanceCreateFlags::ENUMERATE_PORTABILITY_KHR.as_raw()
    );
}

#[test]
fn first_device_is_picked() {
    assert_eq!(VkCtx::pick_physical_device(&vec![7, 8]), Some(7));
    assert_eq!(VkCtx::pick_physical_device(&Vec::new()), None);
}

#[test]
fn first_family_that_draws_and_presents_is_picked() {
    let graphics = ash::vk::QueueFlags::GRAPHICS.as_raw();
    let compute = ash::vk::QueueFlags::COMPUTE.as_raw();
    let flags = vec![compute, graphics, graphics | compute, graphics];
    let present = vec![Some(true), None, Some(true), Some(true)];
    assert_eq!(VkCtx::pick_queue_family(&flags, &present), Some(2));
    assert_eq!(VkCtx::pick_queue_family(&vec![graphics], &vec![Some(false)]), None);
    assert_eq!(VkCtx::pick_queue_family(&vec![compute], &vec![Some(true)]), None);
    assert_eq!(VkCtx::pick_queue_family(&Vec::new(), &Vec::new()), None);
}

#[test]
fn device_extensions_follow_the_device() {
    let all = strings(&[
        "VK_KHR_dynamic_rendering_local_read",
        "VK_KHR_portability_subset",
        "VK_KHR_swapchain",
    ]);
    assert_eq!(
        VkCtx::device_plan(&all).extensions,
        strings(&[
            "VK_KHR_swapchain",
            "VK_KHR_portability_subset",
            "VK_KHR_dynamic_rendering_local_read"
        ])
    );
    assert_eq!(VkCtx::device_plan(&Vec::new()).extensions, strings(&["VK_KHR_swapchain"]));
    assert_eq!(
        App::device_plan(&all).extensions,
        strings(&["VK_KHR_swapchain", "VK_KHR_portability_subset"])
    );
}

#[test]
fn device_features_differ_between_applications() {
    let features = VkCtx::device_plan(&Vec::new()).features;
    assert!(features.scalar_block_layout && features.shader_draw_parameters);
    assert!(features.dynamic_rendering && features.synchronization2);
    let small = App::device_plan(&Vec::new()).features;
    assert!(!small.scalar_block_layout && !small.shader_draw_parameters);
    assert!(small.sampler_anisotropy && small.buffer_device_address);
    assert_eq!(VkCtx::device_plan(&Vec::new()).queue_count, 1);
}

#[test]
fn every_frame_in_flight_gets_its_objects() {
    let asked = RefCell::new(Vec::new());
    let ctx = VkCtx::new(
        3,
        2,
        |count| (0..count as u64).map(|i| 101 + i).collect(),
        |requests| {
            *asked.borrow_mut() = requests;
            vec![200, 300, 201, 301]
        },
        |count| {
            assert_eq!(count, 1);
            vec![103]
        },
    );
    assert_eq!(ctx.queue_family_index, 3);
    assert_eq!(ctx.command_buffers, vec![101, 102]);
    assert_eq!(ctx.frame_fences, vec![200, 201]);
    assert_eq!(ctx.image_acquired_semaphores, vec![300, 301]);
    assert_eq!(ctx.setup_cb, 103);
    let signaled = ash::vk::FenceCreateFlags::SIGNALED.as_raw();
    assert_eq!(
        asked.into_inner(),
        vec![
            Request::Fence(signaled),
            Request::Semaphore,
            Request::Fence(signaled),
            Request::Semaphore,
        ]
    );
}

#[test]
fn setup_work_is_run_once_and_waited_for() {
    let ctx = VkCtx::new(0, 1, |_| vec![1], |_| vec![2, 3], |_| vec![4]);
    assert_eq!(
        ctx.with_setup_cb(&vec!['a', 'b']),
        vec![
            SetupStep::Begin(vk::COMMAND_BUFFER_ONE_TIME_SUBMIT),
            SetupStep::Record('a'),
            SetupStep::Record('b'),
            SetupStep::End,
            SetupStep::Submit,
            SetupStep::WaitIdle,
        ]
    );
    let buffer = Buffer { buffer: 9, size: 4, address: None };
    assert_eq!(ctx.destroy(&buffer), vec![DestroyStep::Buffer(9)]);
}
