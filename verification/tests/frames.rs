use std::cell::Cell;
use std::collections::VecDeque;
use vkdemo::app::{App, AppExitStep, ForwardMakers, ForwardScene, SceneRoot};
use vkdemo::commands::Command;
use vkdemo::config::Config;
use vkdemo::geometry::PrimitiveSource;
use vkdemo::materials::ObjectData;
use vkdemo::pipelines::SamplerInfo;
use vkdemo::program::{
    DeviceRoute, Program, UiCapture, WindowEvent, WindowOutcome, WindowRoute,
};
use vkdemo::input::{
    DeviceEvent, ElementState, FullscreenAction, Input, Key, KeyCode, KeyEvent, MouseMotion,
    PointerButton,
};
use vkdemo::renderer::{
    pass_name, pass_ticks, scene_infos, shadowmap_infos, CameraConstants, Cascade, DataAddresses, ExitStep,
    FrameAction, FrameEvent, FramePhase, GrabMode, Renderer,
};
use vkdemo::scene::{SceneMakers, SceneResources, SceneSource, TextureUpload};
use vkdemo::screen::{ScreenResources, SurfaceCapabilities};
use vkdemo::utils::buffer::{Buffer, BufferCreation};
use vkdemo::utils::context::VkCtx;
use vkdemo::utils::image::image;
use vkdemo::utils::requests::Request;
use vkdemo::vk;
use vkdemo::vk::{Extent2D, ImageViewCreateInfo};

fn context() -> VkCtx {
    VkCtx::new(
        0,
        2,
        |_| vec![10, 11],
        |_| vec![20, 30, 21, 31],
        |_| vec![12],
    )
}

fn capabilities() -> SurfaceCapabilities {
    SurfaceCapabilities {
        min_image_count: 2,
        current_extent: Extent2D { width: 800, height: 600 },
    }
}

fn renderer() -> Renderer {
    let screen = ScreenResources::new(
        capabilities(),
        &Config::default(),
        |size, _| Extent2D { width: size.width / 2, height: size.height / 2 },
        |size| size,
        |_| 40,
        |_| vec![41, 42],
        |_| vec![51, 52, 60, 61, 70, 71, 72, 73, 74, 75],
    );
    let source = SceneSource {
        objects: vec![ObjectData { transform: [0; 16], normal_transform: [0; 9] }],
        materials: Vec::new(),
        textures: Vec::new(),
        node_meshes: Vec::new(),
        meshes: Vec::new(),
    };
    let upload = |_| 80;
    let scene = SceneResources::create(
        &context(),
        &source,
        SceneMakers {
            objects: upload,
            samplers: |infos: Vec<SamplerInfo>| vec![81; infos.len()],
            materials: upload,
            textures: VecDeque::from([|_: TextureUpload| 82; 0]),
            vertices: VecDeque::from([upload; 0]),
            indices: VecDeque::from([upload; 0]),
        },
        |_, _| [[0; 3]; 8],
    )
    .unwrap();
    let shadowmap = Renderer::plan().shadowmap.into_image(90);
    let frame_data = vec![Buffer { buffer: 91, size: 868, address: None }; 2];
    Renderer::new(context(), screen, shadowmap, scene, frame_data)
}

fn smooth_frame(renderer: &mut Renderer) -> Vec<FrameAction> {
    let mut actions = Vec::new();
    let mut action = renderer.frame(FrameEvent::Begin);
    loop {
        actions.push(action);
        let event = match action {
            FrameAction::WaitForFence(_) => FrameEvent::FenceSignaled,
            FrameAction::ReadTimestamps { .. } => FrameEvent::TimestampsRead(vk::RESULT_SUCCESS),
            FrameAction::RecreateScreen => FrameEvent::ScreenRecreated,
            FrameAction::AcquireImage(_) => FrameEvent::ImageAcquired(1),
            FrameAction::ResetFence(_) => FrameEvent::FenceReset { space_pressed: false },
            FrameAction::Draw => FrameEvent::Drawn,
            FrameAction::Submit(_) => FrameEvent::Submitted,
            FrameAction::Present(_) => FrameEvent::Presented { suboptimal: false },
            _ => return actions,
        };
        action = renderer.frame(event);
    }
}

#[test]
fn plan_of_the_renderer() {
    let plan = Renderer::plan();
    assert_eq!(plan.query_count, 16);
    assert_eq!(plan.frame_buffer.info.size, 868);
    assert_eq!(plan.frame_buffer_count, 2);
    assert_eq!(plan.shadowmap.array_layers, 4);
    assert_eq!(plan.shadowmap.extent.width, 2048);
    assert_eq!(plan.ui.depth_format, Some(ash::vk::Format::D32_SFLOAT.as_raw()));
    assert_eq!(
        plan.frame_buffer.info.usage,
        (ash::vk::BufferUsageFlags::SHADER_DEVICE_ADDRESS
            | ash::vk::BufferUsageFlags::STORAGE_BUFFER)
            .as_raw()
    );
}

#[test]
fn frames_run_their_course() {
    let mut renderer = renderer();
    assert_eq!(
        smooth_frame(&mut renderer),
        vec![
            FrameAction::WaitForFence(0),
            FrameAction::AcquireImage(0),
            FrameAction::ResetFence(0),
            FrameAction::Draw,
            FrameAction::Submit(0),
            FrameAction::Present(1),
            FrameAction::Finish,
        ]
    );
    assert_eq!((renderer.frame_id, renderer.frame_index), (1, 1));
    assert_eq!(smooth_frame(&mut renderer)[0], FrameAction::WaitForFence(1));
    let third = smooth_frame(&mut renderer);
    assert_eq!(third[0], FrameAction::WaitForFence(0));
    assert_eq!(third[1], FrameAction::ReadTimestamps { first: 0, count: 8 });
    let fourth = smooth_frame(&mut renderer);
    assert_eq!(fourth[1], FrameAction::ReadTimestamps { first: 8, count: 8 });
    assert_eq!((renderer.frame_id, renderer.frame_index), (4, 0));
}

#[test]
fn resized_window_has_its_screen_made_anew() {
    let mut renderer = renderer();
    renderer.on_resize();
    assert!(renderer.screen.recreate);
    let actions = smooth_frame(&mut renderer);
    assert_eq!(actions[1], FrameAction::RecreateScreen);
    assert!(!renderer.screen.recreate);
    renderer.set_render_scale(1.5f32.to_bits());
    assert!(renderer.screen.recreate);
    assert_eq!(f32::from_bits(renderer.config.render_scale), 1.5);
}

#[test]
fn frame_without_an_image_is_skipped() {
    let mut renderer = renderer();
    renderer.frame(FrameEvent::Begin);
    renderer.frame(FrameEvent::FenceSignaled);
    let out_of_date = ash::vk::Result::ERROR_OUT_OF_DATE_KHR.as_raw();
    assert_eq!(renderer.frame(FrameEvent::AcquireFailed(out_of_date)), FrameAction::Skip);
    assert!(renderer.screen.recreate);
    assert_eq!((renderer.frame_id, renderer.frame_index), (0, 0));
    assert_eq!(renderer.frame(FrameEvent::Begin), FrameAction::WaitForFence(0));
}

#[test]
fn failures_end_the_frame() {
    let lost = ash::vk::Result::ERROR_DEVICE_LOST.as_raw();
    let mut acquiring = renderer();
    acquiring.frame(FrameEvent::Begin);
    acquiring.frame(FrameEvent::FenceSignaled);
    assert_eq!(acquiring.frame(FrameEvent::AcquireFailed(lost)), FrameAction::Fail(lost));
    assert_eq!(acquiring.phase, FramePhase::Failed);
    assert_eq!(acquiring.frame(FrameEvent::Begin), FrameAction::Ignore);
    let mut timing = renderer();
    smooth_frame(&mut timing);
    smooth_frame(&mut timing);
    timing.frame(FrameEvent::Begin);
    timing.frame(FrameEvent::FenceSignaled);
    assert_eq!(timing.frame(FrameEvent::TimestampsRead(lost)), FrameAction::Fail(lost));
    let mut late = renderer();
    smooth_frame(&mut late);
    smooth_frame(&mut late);
    late.frame(FrameEvent::Begin);
    late.frame(FrameEvent::FenceSignaled);
    let not_ready = ash::vk::Result::NOT_READY.as_raw();
    assert_eq!(late.frame(FrameEvent::TimestampsRead(not_ready)), FrameAction::AcquireImage(0));
}

#[test]
fn presentation_may_ask_for_a_new_screen() {
    let present = |event| {
        let mut renderer = renderer();
        renderer.frame(FrameEvent::Begin);
        renderer.frame(FrameEvent::FenceSignaled);
        renderer.frame(FrameEvent::ImageAcquired(0));
        renderer.frame(FrameEvent::FenceReset { space_pressed: false });
        renderer.frame(FrameEvent::Drawn);
        renderer.frame(FrameEvent::Submitted);
        let action = renderer.frame(event);
        (action, renderer.screen.recreate, renderer.frame_id)
    };
    assert_eq!(present(FrameEvent::Presented { suboptimal: false }), (FrameAction::Finish, false, 1));
    assert_eq!(present(FrameEvent::Presented { suboptimal: true }), (FrameAction::Finish, true, 1));
    let out_of_date = vk::RESULT_ERROR_OUT_OF_DATE_KHR;
    assert_eq!(present(FrameEvent::PresentFailed(out_of_date)), (FrameAction::Finish, true, 1));
    assert_eq!(present(FrameEvent::PresentFailed(-4)), (FrameAction::Fail(-4), false, 0));
}

fn to_cursor(renderer: &mut Renderer, space_pressed: bool) -> FrameAction {
    renderer.frame(FrameEvent::Begin);
    renderer.frame(FrameEvent::FenceSignaled);
    if renderer.phase == FramePhase::Timing {
        renderer.frame(FrameEvent::TimestampsRead(0));
    }
    renderer.frame(FrameEvent::ImageAcquired(0));
    renderer.frame(FrameEvent::FenceReset { space_pressed })
}

fn to_end(renderer: &mut Renderer) {
    assert_eq!(renderer.frame(FrameEvent::Drawn), FrameAction::Submit(renderer.frame_index));
    renderer.frame(FrameEvent::Submitted);
    renderer.frame(FrameEvent::Presented { suboptimal: false });
}

#[test]
fn space_bar_locks_and_releases_the_cursor() {
    let mut renderer = renderer();
    assert_eq!(to_cursor(&mut renderer, false), FrameAction::Draw);
    assert!(!renderer.cursor_locked);
    to_end(&mut renderer);
    assert_eq!(to_cursor(&mut renderer, true), FrameAction::GrabCursor(GrabMode::Locked));
    assert_eq!(renderer.frame(FrameEvent::CursorGrabbed), FrameAction::ShowCursor(false));
    assert_eq!(renderer.frame(FrameEvent::CursorShown), FrameAction::Draw);
    assert!(renderer.cursor_locked);
    to_end(&mut renderer);
    assert_eq!(to_cursor(&mut renderer, false), FrameAction::Draw);
    assert!(renderer.cursor_locked);
    to_end(&mut renderer);
    assert_eq!(to_cursor(&mut renderer, true), FrameAction::GrabCursor(GrabMode::Free));
    assert_eq!(renderer.frame(FrameEvent::CursorGrabbed), FrameAction::ShowCursor(true));
    assert_eq!(renderer.frame(FrameEvent::CursorShown), FrameAction::Draw);
    assert!(!renderer.cursor_locked);
}

#[test]
fn cursor_that_cannot_be_locked_is_confined() {
    let mut confined = renderer();
    to_cursor(&mut confined, true);
    assert_eq!(
        confined.frame(FrameEvent::GrabFailed),
        FrameAction::GrabCursor(GrabMode::Confined)
    );
    assert_eq!(confined.frame(FrameEvent::CursorGrabbed), FrameAction::ShowCursor(false));
    let mut lost = renderer();
    to_cursor(&mut lost, true);
    lost.frame(FrameEvent::GrabFailed);
    assert_eq!(lost.frame(FrameEvent::GrabFailed), FrameAction::FailCursor);
    assert_eq!(lost.phase, FramePhase::Failed);
    let mut stuck = renderer();
    stuck.cursor_locked = true;
    to_cursor(&mut stuck, true);
    assert_eq!(stuck.frame(FrameEvent::GrabFailed), FrameAction::FailCursor);
}

#[test]
fn space_bar_counts_in_the_frame_it_goes_down_in() {
    let mut renderer = renderer();
    let space = |state| KeyEvent {
        repeat: false,
        state,
        character: Some(" ".to_string()),
        physical_key: Some(KeyCode::Space),
    };
    assert_eq!(renderer.fence_reset(), FrameEvent::FenceReset { space_pressed: false });
    renderer.input.handle_keyboard(&space(ElementState::Pressed), false);
    renderer.input.handle_keyboard(&space(ElementState::Released), false);
    assert!(!renderer.input.key_down(KeyCode::Space));
    assert_eq!(
        renderer.input.key(KeyCode::Space),
        Key { pressed: true, released: true, down: false }
    );
    assert_eq!(renderer.input.key(KeyCode::KeyW), Key::default());
    assert_eq!(renderer.fence_reset(), FrameEvent::FenceReset { space_pressed: true });
    renderer.input.handle_keyboard(&space(ElementState::Pressed), false);
    renderer.input.update();
    assert!(renderer.input.key_down(KeyCode::Space));
    assert!(!renderer.input.key_pressed(KeyCode::Space));
    assert_eq!(
        renderer.input.key(KeyCode::Space),
        Key { pressed: false, released: false, down: true }
    );
    assert_eq!(renderer.fence_reset(), FrameEvent::FenceReset { space_pressed: false });
}

#[test]
fn descriptors_show_textures_and_layers() {
    let created = Cell::new(0u64);
    let create = |info: ImageViewCreateInfo| {
        created.set(created.get() + 1);
        1000 * info.image + info.range.base_array_layer as u64
    };
    let mut textures = vec![
        image().extent_2d(Extent2D { width: 2, height: 2 }).into_image(3),
        image().extent_2d(Extent2D { width: 4, height: 4 }).into_image(4),
    ];
    let infos = scene_infos(&mut textures, vec![create; 2].into());
    let views: Vec<u64> = infos.iter().map(|info| info.image_view).collect();
    assert_eq!(views, vec![3000, 4000]);
    for info in &infos {
        assert_eq!(
            info.image_layout,
            ash::vk::ImageLayout::SHADER_READ_ONLY_OPTIMAL.as_raw()
        );
    }
    let mut shadowmap = Renderer::plan().shadowmap.into_image(9);
    let infos = shadowmap_infos(&mut shadowmap, vec![create; 4].into());
    let views: Vec<u64> = infos.iter().map(|info| info.image_view).collect();
    assert_eq!(views, vec![9000, 9001, 9002, 9003]);
    for info in &infos {
        assert_eq!(
            info.image_layout,
            ash::vk::ImageLayout::DEPTH_READ_ONLY_OPTIMAL.as_raw()
        );
    }
    assert_eq!(created.get(), 6);
    let held = |_| panic!("all views exist");
    assert_eq!(shadowmap_infos(&mut shadowmap, vec![held; 4].into()), infos);
}

#[test]
fn submission_uses_the_objects_of_the_frame() {
    let mut renderer = renderer();
    renderer.frame(FrameEvent::Begin);
    renderer.frame(FrameEvent::FenceSignaled);
    renderer.frame(FrameEvent::ImageAcquired(1));
    let submission = renderer.submission();
    assert_eq!(submission.command_buffer, 10);
    assert_eq!(submission.wait_semaphore, 30);
    assert_eq!(submission.signal_semaphore, 61);
    assert_eq!(submission.fence, 20);
    assert_eq!(
        submission.wait_stage,
        ash::vk::PipelineStageFlags::COLOR_ATTACHMENT_OUTPUT.as_raw()
    );
    let presentation = renderer.presentation();
    assert_eq!((presentation.swapchain, presentation.image_index), (40, 1));
    let commands = renderer.record(DataAddresses { frame_ptr: 1, objects_ptr: 2, materials_ptr: 3 });
    assert_eq!(commands[0], Command::ResetQueries { base: 0, count: 8 });
}

#[test]
fn constants_of_a_frame_are_packed() {
    let mut renderer = renderer();
    renderer.frame_id = 0x1_0000_0002;
    let cascade = Cascade { view_proj: [9; 16], texel_size: [10; 2], near: 11, far: 12 };
    let camera = CameraConstants {
        view_proj: [1; 16],
        view: [2; 16],
        proj: [3; 16],
        inv_view: [4; 16],
        inv_proj: [5; 16],
        inv_view_proj: [6; 16],
        prev_view_proj: [7; 16],
        position: [8; 3],
        ndc_view_pixel_size: [13; 2],
        cascades: [cascade; 4],
    };
    renderer.config.pick_debug_view(8);
    let data = renderer.frame_constants(&camera, [14, 15, 16]);
    assert_eq!(data.size, [400, 300]);
    assert_eq!(data.frame_id, 2);
    let words: Vec<u32> = data
        .bytes()
        .chunks(4)
        .map(|b| u32::from_ne_bytes([b[0], b[1], b[2], b[3]]))
        .collect();
    assert_eq!(words.len(), 217);
    assert_eq!(words[0], 1);
    assert_eq!(words[111], 7);
    assert_eq!(words[112..115], [8, 8, 8]);
    assert_eq!(words[115..117], [400, 300]);
    assert_eq!(words[125], 2);
    assert_eq!(words[126..129], [14, 15, 16]);
    assert_eq!(words[129], 9);
    assert_eq!(words[207..209], [11, 12]);
    assert_eq!(words[209..211], [4, 8]);
    assert_eq!(words[216], 8);
}

#[test]
fn ticks_add_up_around_the_counter() {
    let ticks = pass_ticks(&vec![u64::MAX - 1, 3, 5, 5, 9, 10, 20, 21]);
    assert_eq!(ticks.passes, vec![5, 2, 0, 4, 1, 10, 1]);
    assert_eq!(ticks.total, 23);
    assert_eq!(pass_name(0), "Shadow");
    assert_eq!(pass_name(3), "AO Reproject");
    assert_eq!(pass_name(6), "UI");
}

#[test]
fn everything_is_handed_back() {
    assert_eq!(
        renderer().teardown(),
        vec![
            ExitStep::WaitIdle,
            ExitStep::DestroySwapchain(40),
            ExitStep::DestroyDevice,
            ExitStep::DestroySurface,
            ExitStep::DestroyInstance,
        ]
    );
}

fn flat_primitive(tangents: bool) -> PrimitiveSource {
    PrimitiveSource {
        positions: vec![[0; 3]; 4],
        normals: vec![[0; 3]; 4],
        tangents: if tangents { Some(vec![[0; 4]; 4]) } else { None },
        colors: None,
        tex_coords: None,
        indices: vec![0, 1, 2, 2, 3, 0],
        material: Some(3),
    }
}

fn app() -> App {
    let roots = vec![SceneRoot { node: 7, mesh: Some(0) }, SceneRoot { node: 8, mesh: None }];
    let meshes = vec![vec![flat_primitive(true), flat_primitive(false), flat_primitive(true)]];
    assert!(ForwardScene::check(&roots, &meshes));
    assert_eq!(ForwardScene::drawn(&roots, &meshes).len(), 2);
    let fill = |handle: u64| {
        move |plan: BufferCreation, bytes: Vec<u8>| {
            assert_eq!(plan.info.size, bytes.len() as u64);
            assert_eq!(plan.allocation.flags, 0x1404);
            handle + bytes.len() as u64
        }
    };
    let makers = ForwardMakers {
        vertices: VecDeque::from([fill(0), fill(1000)]),
        indices: VecDeque::from([fill(0), fill(1000)]),
    };
    let scene = ForwardScene::create(&roots, &meshes, makers);
    let skipped: Vec<(usize, usize)> = ForwardScene::skipped(&roots, &meshes)
        .iter()
        .map(|left_out| (left_out.node, left_out.primitive))
        .collect();
    assert_eq!(skipped, vec![(7, 1)]);
    App::new(
        context(),
        capabilities(),
        scene,
        |plan| {
            assert_eq!(plan.present_mode, ash::vk::PresentModeKHR::FIFO.as_raw());
            40
        },
        |_| vec![41, 42],
        |requests| {
            match requests[2] {
                Request::Image(creation) => {
                    assert_eq!(creation.info.extent.width, 800);
                    assert_eq!(creation.info.extent.depth, 1);
                }
                other => panic!("{other:?} is not the depth buffer"),
            }
            vec![51, 52, 70]
        },
        |info| info.image + 10,
        |requests| {
            assert_eq!(requests, vec![Request::Semaphore; 2]);
            vec![60, 61]
        },
    )
}

#[test]
fn primitives_without_tangents_are_left_out() {
    let app = app();
    assert_eq!(app.scene.index_counts, vec![6, 6]);
    assert_eq!(app.scene.vertex_buffers, vec![240, 1240]);
    assert_eq!(app.scene.index_buffers, vec![24, 1024]);
    assert_eq!(app.scene.primitive_push_constants[0].object_id, 7);
    assert_eq!(app.scene.primitive_push_constants[1].material_id, 3);
    assert_eq!(app.depth_view, 80);
    assert_eq!(App::frame_buffer().0.info.size, 64);
}

#[test]
fn only_drawn_primitives_have_to_fit() {
    let mut large = flat_primitive(true);
    large.material = Some(u32::MAX as usize + 1);
    let mut left_out = flat_primitive(false);
    left_out.material = Some(u32::MAX as usize + 1);
    let meshes = vec![vec![flat_primitive(true), left_out], vec![large]];
    let root = |mesh| vec![SceneRoot { node: 0, mesh }];
    assert!(ForwardScene::check(&root(Some(0)), &meshes));
    assert!(!ForwardScene::check(&root(Some(1)), &meshes));
    assert!(!ForwardScene::check(&root(Some(2)), &meshes));
    assert!(ForwardScene::check(&root(None), &meshes));
}

#[test]
fn small_frames_run_their_course() {
    let mut app = app();
    assert_eq!(app.frame(FrameEvent::Begin), FrameAction::WaitForFence(0));
    assert_eq!(app.frame(FrameEvent::FenceSignaled), FrameAction::ResetFence(0));
    assert_eq!(
        app.frame(FrameEvent::FenceReset { space_pressed: true }),
        FrameAction::AcquireImage(0)
    );
    assert_eq!(
        app.frame(FrameEvent::ImageAcquired(1)),
        FrameAction::Draw
    );
    assert_eq!(app.submission().signal_semaphore, 61);
    let commands = app.record(Extent2D { width: 8, height: 6 });
    assert_eq!(commands.len(), 5 + 6 + 2);
    assert_eq!(commands[2], Command::Viewport(Extent2D { width: 8, height: 6 }));
    assert_eq!(app.frame(FrameEvent::Drawn), FrameAction::Submit(0));
    assert_eq!(app.frame(FrameEvent::Submitted), FrameAction::Present(1));
    assert_eq!(app.presentation().image_index, 1);
    assert_eq!(app.frame(FrameEvent::Presented { suboptimal: true }), FrameAction::Finish);
    assert_eq!(app.frame_index, 1);
    assert_eq!(app.frame(FrameEvent::Drawn), FrameAction::Ignore);
    app.frame(FrameEvent::Begin);
    app.frame(FrameEvent::FenceSignaled);
    app.frame(FrameEvent::FenceReset { space_pressed: false });
    assert_eq!(app.frame(FrameEvent::AcquireFailed(-1)), FrameAction::Fail(-1));
}

#[test]
fn small_application_hands_everything_back() {
    let steps = app().teardown();
    assert_eq!(steps[0], AppExitStep::WaitIdle);
    assert_eq!(steps[1], AppExitStep::DestroyDepthView(80));
    assert_eq!(steps[2], AppExitStep::DestroyDepthImage(70));
    assert_eq!(steps[3], AppExitStep::Exit(ExitStep::DestroySwapchain(40)));
    assert_eq!(steps.len(), 7);
}

#[test]
fn events_find_their_way() {
    let mut program = Program::new();
    assert_eq!(program.window_event(&WindowEvent::CloseRequested, false), WindowRoute::Ignore);
    let input = Input::default();
    assert_eq!(program.device_event(&input, &DeviceEvent::Other), DeviceRoute::Ignore);
    assert!(program.resumed());
    assert!(!program.resumed());
    assert_eq!(program.window_event(&WindowEvent::CloseRequested, false), WindowRoute::Exit);
    assert_eq!(program.window_event(&WindowEvent::RedrawRequested, true), WindowRoute::DrawFrame);
    assert_eq!(program.window_event(&WindowEvent::Resized, false), WindowRoute::UiAndInput);
    assert_eq!(program.window_event(&WindowEvent::Other, true), WindowRoute::InputOnly);
    assert_eq!(
        program.device_event(&input, &DeviceEvent::Motion { axis: 1, value: 9 }),
        DeviceRoute::UiAndMotion(MouseMotion::Y(9))
    );
}

#[test]
fn user_interface_keeps_what_it_wants() {
    let mut program = Program::new();
    program.resumed();
    let free = UiCapture { want_capture_mouse: false, want_capture_keyboard: false };
    let kept = UiCapture { want_capture_mouse: true, want_capture_keyboard: true };
    let mut input = Input::default();
    let click = WindowEvent::MouseInput {
        state: ElementState::Pressed,
        button: PointerButton::Left,
    };
    program.handle_input(&mut input, &click, kept, false);
    assert!(!input.mouse.left.down);
    program.handle_input(&mut input, &click, free, false);
    assert!(input.mouse.left.down);
    let key = |repeat| {
        WindowEvent::KeyboardInput(KeyEvent {
            repeat,
            state: ElementState::Pressed,
            character: Some("f".to_string()),
            physical_key: Some(KeyCode::Other(3)),
        })
    };
    assert_eq!(program.handle_input(&mut input, &key(false), kept, false), WindowOutcome::Nothing);
    assert_eq!(program.handle_input(&mut input, &key(true), free, false), WindowOutcome::Nothing);
    assert!(!input.key_down(KeyCode::Other(3)));
    assert_eq!(
        program.handle_input(&mut input, &key(false), free, true),
        WindowOutcome::Fullscreen(FullscreenAction::Leave)
    );
    assert!(input.key_down(KeyCode::Other(3)));
    assert_eq!(
        program.handle_input(&mut input, &WindowEvent::Resized, free, false),
        WindowOutcome::Recreate
    );
}
