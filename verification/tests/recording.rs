use vkdemo::commands::{
    BasicPushConstants, Command, ImageSlot, PrimaryPushConstants, PushPayload, ShadowPushConstants,
};
use vkdemo::frame::{first_query, history_slots, record_frame, FrameParams};
use vkdemo::pipelines::PipelineSlot;
use vkdemo::scene::PrimitiveData;
use vkdemo::vk;
use vkdemo::vk::Extent2D;

fn params(frame_id: u64) -> FrameParams {
    FrameParams {
        frame_index: (frame_id % 2) as usize,
        frame_id,
        image_index: 2,
        render_size: Extent2D { width: 961, height: 540 },
        viewport_size: Extent2D { width: 1922, height: 1080 },
        frame_ptr: 0x1000,
        objects_ptr: 0x2000,
        materials_ptr: 0x3000,
    }
}

fn primitive(object_id: u32, material_id: u32) -> PrimitiveData {
    PrimitiveData { object_id, material_id, bounds: [[0; 3]; 8] }
}

fn recorded(frame_id: u64) -> Vec<Command> {
    record_frame(
        &params(frame_id),
        &vec![primitive(3, 4), primitive(5, 6)],
        &vec![30, 60],
    )
}

#[test]
fn every_pass_is_timed_once() {
    let stamps: Vec<u32> = recorded(3)
        .iter()
        .filter_map(|c| match c {
            Command::Timestamp { query, .. } => Some(*query),
            _ => None,
        })
        .collect();
    assert_eq!(stamps, vec![8, 9, 10, 11, 12, 13, 14, 15]);
    assert_eq!(recorded(2)[0], Command::ResetQueries { base: 0, count: 8 });
    assert_eq!(first_query(1), 8);
}

#[test]
fn scene_is_drawn_into_every_cascade_and_once_more() {
    let commands = recorded(0);
    let draws = commands.iter().filter(|c| matches!(c, Command::DrawIndexed { .. })).count();
    assert_eq!(draws, 2 * 5);
    let cascades: Vec<u32> = commands
        .iter()
        .filter_map(|c| match c {
            Command::PushConstants { payload: PushPayload::Shadow(p), .. } => {
                Some(p.cascade_index)
            }
            _ => None,
        })
        .collect();
    assert_eq!(cascades, vec![0, 0, 1, 1, 2, 2, 3, 3]);
    let objects: Vec<(u32, u32)> = commands
        .iter()
        .filter_map(|c| match c {
            Command::PushConstants { payload: PushPayload::Primary(p), .. } => {
                Some((p.object_id, p.material_id))
            }
            _ => None,
        })
        .collect();
    assert_eq!(objects, vec![(3, 4), (5, 6)]);
}

#[test]
fn rendering_that_begins_ends() {
    let mut open = false;
    for command in recorded(5) {
        match command {
            Command::BeginRendering { .. } => {
                assert!(!open);
                open = true;
            }
            Command::EndRendering => {
                assert!(open);
                open = false;
            }
            Command::Barriers { .. } | Command::Dispatch { .. } => assert!(!open),
            _ => {}
        }
    }
    assert!(!open);
}

#[test]
fn work_groups_cover_the_image() {
    let groups: Vec<(u32, u32)> = recorded(0)
        .iter()
        .filter_map(|c| match c {
            Command::Dispatch { x, y, .. } => Some((*x, *y)),
            _ => None,
        })
        .collect();
    assert_eq!(groups, vec![(61, 34), (61, 34), (121, 68)]);
}

#[test]
fn image_is_shown_at_the_end() {
    let commands = recorded(1);
    match commands[commands.len() - 1] {
        Command::Barriers { first, second, third } => {
            assert_eq!(first.image, ImageSlot::Swapchain(2));
            assert_eq!(
                first.barrier.new_layout,
                ash::vk::ImageLayout::PRESENT_SRC_KHR.as_raw()
            );
            assert!(second.is_none() && third.is_none());
        }
        _ => panic!("the last command is a barrier"),
    }
    assert!(commands.contains(&Command::DrawUi));
    assert!(commands.contains(&Command::BindPipeline {
        bind_point: vk::BIND_POINT_COMPUTE,
        pipeline: PipelineSlot::Deferred,
    }));
}

#[test]
fn history_alternates() {
    assert_eq!(history_slots(0), (0, 1));
    assert_eq!(history_slots(1), (1, 0));
    assert_eq!(history_slots(u64::MAX), (1, 0));
    assert_eq!(history_slots(u64::MAX.wrapping_add(1)), (0, 1));
}

#[test]
fn push_constants_are_packed() {
    let primary = PrimaryPushConstants {
        frame_ptr: 0x0102030405060708,
        objects_ptr: 2,
        materials_ptr: 3,
        object_id: 4,
        material_id: 5,
    };
    let mut expected = Vec::new();
    expected.extend_from_slice(&0x0102030405060708u64.to_ne_bytes());
    expected.extend_from_slice(&2u64.to_ne_bytes());
    expected.extend_from_slice(&3u64.to_ne_bytes());
    expected.extend_from_slice(&4u32.to_ne_bytes());
    expected.extend_from_slice(&5u32.to_ne_bytes());
    assert_eq!(primary.bytes(), expected);
    assert_eq!(PushPayload::Primary(primary).bytes(), expected);
    let shadow = ShadowPushConstants {
        frame_ptr: 0x0102030405060708,
        objects_ptr: 2,
        materials_ptr: 3,
        object_id: 4,
        material_id: 5,
        cascade_index: 6,
        _pad: 0,
    };
    expected.extend_from_slice(&6u32.to_ne_bytes());
    expected.extend_from_slice(&0u32.to_ne_bytes());
    assert_eq!(shadow.bytes(), expected);
    assert_eq!(BasicPushConstants { frame_ptr: 7 }.bytes(), 7u64.to_ne_bytes());
}

#[test]
fn empty_scene_still_makes_a_frame() {
    let commands = record_frame(&params(0), &Vec::new(), &Vec::new());
    assert!(!commands.iter().any(|c| matches!(c, Command::DrawIndexed { .. })));
    let begun = commands.iter().filter(|c| matches!(c, Command::BeginRendering { .. })).count();
    assert_eq!(begun, 6);
}
