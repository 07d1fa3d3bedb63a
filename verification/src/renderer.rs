//! The renderer: what it sets up, and how a frame runs its course.
use crate::camera::CASCADES;
use crate::commands::{fresh_recording, record, Command, ImageSlot, PushPayload, Work};
use crate::config::{default_config, Config};
use crate::frame::{
    first_query, frame_commands, groups_cover, law_frame_draws_scene, law_frame_is_in_order,
    law_frame_lights_scene, law_frame_reaches_screen, query_base, record_frame, FrameParams,
    MAX_FRAMES_IN_FLIGHT, PASS_COUNT, SHADOWMAP_SIZE,
};
use crate::geometry::push_words;
use crate::input::{untouched_mouse, Input, KeyCode};
use crate::outside::{buffer_usage_union, cast_words, native_words};
use crate::pipelines::{DEPTH_FORMAT, SHADOWMAP_FORMAT, SWAPCHAIN_FORMAT};
use crate::scene::{PrimitiveData, SceneResources};
use crate::screen::{view_info, whole_viewable, whole_viewed, ExtentExt, ScreenResources};
use crate::utils::buffer::{Buffer, BufferCreation};
use crate::utils::context::VkCtx;
use crate::utils::image::{blank_desc, image, layer_view, Image, ImageDesc, ViewDesc};
use crate::vk;
use crate::vk::{
    AllocationCreateInfo, BufferCreateInfo, DescriptorImageInfo, Extent2D, Extent3D,
    ImageViewCreateInfo, MemoryUsage,
};
use std::collections::VecDeque;
use vstd::prelude::*;
use vstd::wrapping::u64_specs::{wrapping_add, wrapping_sub};

verus! {

/// The bytes of the constants of a frame.
pub const FRAME_DATA_SIZE: u64 = 868;

/// A cascade of the shadow map, as the shaders read it. Every number is held as the bits of a
/// single-precision number.
#[derive(Clone, Copy, Debug, PartialEq, Eq)]
pub struct Cascade {
    pub view_proj: [u32; 16],
    pub texel_size: [u32; 2],
    pub near: u32,
    pub far: u32,
}

impl Cascade {
    /// The words that the shader reads: the fields in order, without gaps.
    pub open spec fn words(self) -> Seq<u32> {
        self.view_proj@ + self.texel_size@ + seq![self.near, self.far]
    }
}

/// The constants of a frame, as the shaders read them. Numbers that are not whole are held as the
/// bits of single-precision numbers.
#[derive(Clone, Copy, Debug, PartialEq, Eq)]
pub struct FrameData {
    pub view_proj: [u32; 16],
    pub view: [u32; 16],
    pub proj: [u32; 16],
    pub inv_view: [u32; 16],
    pub inv_proj: [u32; 16],
    pub inv_view_proj: [u32; 16],
    pub prev_view_proj: [u32; 16],
    pub camera_pos: [u32; 3],
    pub size: [u32; 2],
    pub texel_size: [u32; 2],
    pub size_half: [u32; 2],
    pub texel_size_half: [u32; 2],
    pub ndc_view_pixel_size: [u32; 2],
    pub frame_id: u32,
    pub light_dir: [u32; 3],
    pub cascades: [Cascade; 4],
    pub ao_slices: u32,
    pub ao_samples: u32,
    pub ao_radius: u32,
    pub ao_falloff_range: u32,
    pub ao_sample_distribution_power: u32,
    pub ao_thin_occluder_compensation: u32,
    pub ao_final_value_power: u32,
    pub debug_view: u32,
}

/// The words of cascades, one after the other.
pub open spec fn cascades_words(cascades: Seq<Cascade>) -> Seq<u32>
    decreases cascades.len(),
{
    if cascades.len() == 0 {
        Seq::empty()
    } else {
        cascades_words(cascades.drop_last()) + cascades.last().words()
    }
}

proof fn lemma_cascades_words_len(cascades: Seq<Cascade>)
    ensures
        cascades_words(cascades).len() == 20 * cascades.len(),
    decreases cascades.len(),
{
    if cascades.len() > 0 {
        lemma_cascades_words_len(cascades.drop_last());
    }
}

impl FrameData {
    /// The words before the cascades.
    pub open spec fn head_words(self) -> Seq<u32> {
        self.view_proj@ + self.view@ + self.proj@ + self.inv_view@ + self.inv_proj@
            + self.inv_view_proj@ + self.prev_view_proj@ + self.camera_pos@ + self.size@
            + self.texel_size@ + self.size_half@ + self.texel_size_half@
            + self.ndc_view_pixel_size@ + seq![self.frame_id] + self.light_dir@
    }

    /// The words after the cascades.
    pub open spec fn tail_words(self) -> Seq<u32> {
        seq![
            self.ao_slices,
            self.ao_samples,
            self.ao_radius,
            self.ao_falloff_range,
            self.ao_sample_distribution_power,
            self.ao_thin_occluder_compensation,
            self.ao_final_value_power,
            self.debug_view,
        ]
    }

    /// The words that the shader reads: the fields in order, without gaps.
    pub open spec fn words(self) -> Seq<u32> {
        self.head_words() + cascades_words(self.cascades@) + self.tail_words()
    }

    /// The bytes that the shader reads.
    pub fn bytes(&self) -> (r: Vec<u8>)
        ensures
            native_words(self.words(), r@),
            r@.len() == FRAME_DATA_SIZE,
    {
        let mut words: Vec<u32> = Vec::new();
        push_words(&mut words, &self.view_proj);
        push_words(&mut words, &self.view);
        push_words(&mut words, &self.proj);
        push_words(&mut words, &self.inv_view);
        push_words(&mut words, &self.inv_proj);
        push_words(&mut words, &self.inv_view_proj);
        push_words(&mut words, &self.prev_view_proj);
        push_words(&mut words, &self.camera_pos);
        push_words(&mut words, &self.size);
        push_words(&mut words, &self.texel_size);
        push_words(&mut words, &self.size_half);
        push_words(&mut words, &self.texel_size_half);
        push_words(&mut words, &self.ndc_view_pixel_size);
        push_words(&mut words, &[self.frame_id]);
        push_words(&mut words, &self.light_dir);
        assert(words@ =~= self.head_words());
        let mut i: usize = 0;
        while i < CASCADES
            invariant
                i <= CASCADES,
                words@ =~= self.head_words() + cascades_words(self.cascades@.take(i as int)),
            decreases CASCADES - i,
        {
            let c = self.cascades[i];
            push_words(&mut words, &c.view_proj);
            push_words(&mut words, &c.texel_size);
            push_words(&mut words, &[c.near, c.far]);
            assert(self.cascades@.take(i + 1).drop_last() =~= self.cascades@.take(i as int));
            assert(words@ =~= self.head_words() + (cascades_words(self.cascades@.take(i as int))
                + c.words()));
            i = i + 1;
        }
        assert(self.cascades@.take(CASCADES as int) =~= self.cascades@);
        let tail: [u32; 8] = [
            self.ao_slices,
            self.ao_samples,
            self.ao_radius,
            self.ao_falloff_range,
            self.ao_sample_distribution_power,
            self.ao_thin_occluder_compensation,
            self.ao_final_value_power,
            self.debug_view,
        ];
        push_words(&mut words, &tail);
        assert(tail@ =~= self.tail_words());
        assert(words@ =~= self.words());
        proof {
            lemma_cascades_words_len(self.cascades@);
        }
        cast_words(words.as_slice())
    }
}

/// How the user interface is drawn.
#[derive(Clone, Copy, Debug, PartialEq, Eq)]
pub struct UiOptions {
    pub color_format: i32,
    pub depth_format: Option<i32>,
    pub in_flight_frames: usize,
    pub enable_depth_test: bool,
    pub enable_depth_write: bool,
    pub samples: u32,
}

/// What the renderer has the driver create once.
#[derive(Clone, Copy, Debug, PartialEq, Eq)]
pub struct RendererPlan {
    /// The buffer of the constants of a frame, of which there are as many as frames in flight.
    pub frame_buffer: BufferCreation,
    pub frame_buffer_count: u32,
    pub shadowmap: ImageDesc,
    pub shadowmap_memory_flags: u32,
    pub query_type: i32,
    pub query_count: u32,
    pub ui: UiOptions,
}

/// The layered image of the shadow map: a layer for each cascade.
pub open spec fn shadowmap_desc() -> ImageDesc {
    ImageDesc {
        image_type: vk::IMAGE_TYPE_2D,
        format: SHADOWMAP_FORMAT,
        extent: Extent3D { width: SHADOWMAP_SIZE, height: SHADOWMAP_SIZE, depth: 1 },
        array_layers: CASCADES as u32,
        usage: vk::IMAGE_USAGE_DEPTH_STENCIL_ATTACHMENT | vk::IMAGE_USAGE_SAMPLED,
        ..blank_desc()
    }
}

/// What the renderer has the driver create once.
pub open spec fn renderer_plan() -> RendererPlan {
    RendererPlan {
        frame_buffer: BufferCreation {
            info: BufferCreateInfo {
                size: FRAME_DATA_SIZE,
                usage: vk::BUFFER_USAGE_SHADER_DEVICE_ADDRESS | vk::BUFFER_USAGE_STORAGE_BUFFER,
            },
            allocation: AllocationCreateInfo {
                flags: vk::ALLOCATION_HOST_ACCESS_SEQUENTIAL_WRITE | vk::ALLOCATION_MAPPED,
                usage: MemoryUsage::Auto,
            },
        },
        frame_buffer_count: MAX_FRAMES_IN_FLIGHT,
        shadowmap: shadowmap_desc(),
        shadowmap_memory_flags: vk::ALLOCATION_DEDICATED_MEMORY,
        query_type: vk::QUERY_TIMESTAMP,
        query_count: (MAX_FRAMES_IN_FLIGHT * (PASS_COUNT + 1)) as u32,
        ui: UiOptions {
            color_format: SWAPCHAIN_FORMAT,
            depth_format: Some(DEPTH_FORMAT),
            in_flight_frames: MAX_FRAMES_IN_FLIGHT as usize,
            enable_depth_test: true,
            enable_depth_write: true,
            samples: vk::SAMPLES_TYPE_1,
        },
    }
}

/// The timestamps of each frame in flight fit into the pool, and those of different frames are
/// different.
pub proof fn law_timestamps_have_room(frame: usize, other: usize, pass: u32, other_pass: u32)
    requires
        frame < MAX_FRAMES_IN_FLIGHT,
        other < MAX_FRAMES_IN_FLIGHT,
        frame != other,
        pass <= PASS_COUNT,
        other_pass <= PASS_COUNT,
    ensures
        query_base(frame) + pass < renderer_plan().query_count,
        query_base(frame) + pass != query_base(other) + other_pass,
{
}

/// The name of a pass, for display.
pub fn pass_name(pass: u32) -> (r: &'static str)
    requires
        pass < PASS_COUNT,
    ensures
        r@ == match pass {
            0 => "Shadow"@,
            1 => "Primary"@,
            2 => "AO"@,
            3 => "AO Reproject"@,
            4 => "Deferred"@,
            5 => "PostFX"@,
            _ => "UI"@,
        },
{
    match pass {
        0 => "Shadow",
        1 => "Primary",
        2 => "AO",
        3 => "AO Reproject",
        4 => "Deferred",
        5 => "PostFX",
        _ => "UI",
    }
}

/// The layers of a shadow map were viewed: each view that was missing was created and is held from
/// then on, and nothing else changed.
pub open spec fn layers_viewed<V: FnOnce(ImageViewCreateInfo) -> u64>(
    before: Image,
    after: Image,
    count: nat,
    creates: Seq<V>,
) -> bool {
    &&& after.wf()
    &&& after.image == before.image
    &&& after.desc == before.desc
    &&& forall|d: ViewDesc|
        before.views().contains_key(d) ==> (#[trigger] after.views().contains_key(d))
            && after.views()[d] == before.views()[d]
    &&& forall|l: u32|
        l < count ==> after.views().contains_key(#[trigger] layer_view(before.desc, l))
    &&& forall|d: ViewDesc| #[trigger]
        after.views().contains_key(d) && !before.views().contains_key(d) ==> exists|l: u32|
            l < count && d == #[trigger] layer_view(before.desc, l) && creates[l as int].ensures(
                (before.view_info(d),),
                after.views()[d],
            )
}

/// The descriptors of the textures of a scene: the whole of each image, as shaders read it. A view
/// that is missing is created by the one of the makers that is there for the image.
pub fn scene_infos<V: FnOnce(ImageViewCreateInfo) -> u64>(
    images: &mut Vec<Image>,
    makers: VecDeque<V>,
) -> (r: Vec<DescriptorImageInfo>)
    requires
        makers@.len() == old(images)@.len(),
        forall|i: int|
            0 <= i < old(images)@.len() ==> (#[trigger] old(images)@[i]).wf() && whole_viewable(
                old(images)@[i],
                makers@[i],
            ),
    ensures
        final(images)@.len() == old(images)@.len(),
        r@.len() == old(images)@.len(),
        forall|i: int|
            #![trigger r@[i]]
            0 <= i < r@.len() ==> {
                &&& whole_viewed(
                    old(images)@[i],
                    final(images)@[i],
                    makers@[i],
                    r@[i].image_view,
                )
                &&& r@[i] == view_info(r@[i].image_view, vk::LAYOUT_SHADER_READ_ONLY_OPTIMAL)
            },
{
    let ghost start = images@;
    let ghost all = makers@;
    let mut makers = makers;
    let mut infos: Vec<DescriptorImageInfo> = Vec::new();
    let mut i: usize = 0;
    while i < images.len()
        invariant
            i <= images@.len(),
            images@.len() == start.len(),
            infos@.len() == i,
            forall|j: int|
                0 <= j < start.len() ==> (#[trigger] start[j]).wf() && whole_viewable(
                    start[j],
                    all[j],
                ),
            all.len() == start.len(),
            makers@ =~= all.skip(i as int),
            forall|j: int| i <= j < start.len() ==> images@[j] == start[j],
            forall|j: int|
                #![trigger infos@[j]]
                0 <= j < i ==> {
                    &&& whole_viewed(start[j], images@[j], all[j], infos@[j].image_view)
                    &&& infos@[j] == view_info(
                        infos@[j].image_view,
                        vk::LAYOUT_SHADER_READ_ONLY_OPTIMAL,
                    )
                },
        decreases start.len() - i,
    {
        assert(start[i as int].wf());
        if let Some(make) = makers.pop_front() {
            assert(make == all[i as int]);
            let info = images[i].info_default(make, vk::LAYOUT_SHADER_READ_ONLY_OPTIMAL);
            infos.push(info);
        }
        i = i + 1;
    }
    infos
}

/// The descriptors of a shadow map: each layer by itself, as shaders read depth. A view that is
/// missing is created by the one of the makers that is there for the layer.
pub fn shadowmap_infos<V: FnOnce(ImageViewCreateInfo) -> u64>(
    shadowmap: &mut Image,
    makers: VecDeque<V>,
) -> (r: Vec<DescriptorImageInfo>)
    requires
        old(shadowmap).wf(),
        makers@.len() == CASCADES,
        forall|l: u32|
            l < CASCADES && !old(shadowmap).views().contains_key(
                layer_view(old(shadowmap).desc, l),
            ) ==> makers@[l as int].requires(
                (old(shadowmap).view_info(#[trigger] layer_view(old(shadowmap).desc, l)),),
            ),
    ensures
        layers_viewed(*old(shadowmap), *final(shadowmap), CASCADES as nat, makers@),
        r@.len() == CASCADES,
        forall|l: int|
            0 <= l < CASCADES ==> #[trigger] r@[l] == view_info(
                final(shadowmap).views()[layer_view(old(shadowmap).desc, l as u32)],
                vk::LAYOUT_DEPTH_READ_ONLY_OPTIMAL,
            ),
{
    let ghost all = makers@;
    let mut makers = makers;
    let mut infos: Vec<DescriptorImageInfo> = Vec::new();
    let mut l: u32 = 0;
    while l < CASCADES as u32
        invariant
            l <= CASCADES,
            infos@.len() == l,
            all.len() == CASCADES,
            makers@ =~= all.skip(l as int),
            forall|k: u32|
                k < CASCADES && !old(shadowmap).views().contains_key(
                    layer_view(old(shadowmap).desc, k),
                ) ==> all[k as int].requires(
                    (old(shadowmap).view_info(#[trigger] layer_view(old(shadowmap).desc, k)),),
                ),
            layers_viewed(*old(shadowmap), *shadowmap, l as nat, all),
            forall|k: int|
                0 <= k < l ==> #[trigger] infos@[k] == view_info(
                    shadowmap.views()[layer_view(old(shadowmap).desc, k as u32)],
                    vk::LAYOUT_DEPTH_READ_ONLY_OPTIMAL,
                ),
        decreases CASCADES - l,
    {
        let ghost before = *shadowmap;
        let ghost desc = layer_view(old(shadowmap).desc, l);
        if let Some(make) = makers.pop_front() {
            assert(make == all[l as int]);
            let info = shadowmap.info_array_layer(make, vk::LAYOUT_DEPTH_READ_ONLY_OPTIMAL, l);
            infos.push(info);
        }
        proof {
            assert(shadowmap.views().contains_key(desc));
            assert forall|d: ViewDesc| #[trigger]
                shadowmap.views().contains_key(d) && !old(shadowmap).views().contains_key(
                    d,
                ) implies exists|k: u32|
                k < l + 1 && d == #[trigger] layer_view(old(shadowmap).desc, k)
                    && all[k as int].ensures(
                    (old(shadowmap).view_info(d),),
                    shadowmap.views()[d],
                ) by {
                if before.views().contains_key(d) {
                    let k = choose|k: u32|
                        k < l && d == #[trigger] layer_view(old(shadowmap).desc, k)
                            && all[k as int].ensures(
                            (old(shadowmap).view_info(d),),
                            before.views()[d],
                        );
                    assert(d == layer_view(old(shadowmap).desc, k));
                } else {
                    assert(d == layer_view(old(shadowmap).desc, l));
                }
            }
            assert forall|k: int| 0 <= k < l implies #[trigger] infos@[k] == view_info(
                shadowmap.views()[layer_view(old(shadowmap).desc, k as u32)],
                vk::LAYOUT_DEPTH_READ_ONLY_OPTIMAL,
            ) by {
                assert(before.views().contains_key(layer_view(old(shadowmap).desc, k as u32)));
            }
        }
        l = l + 1;
    }
    infos
}

/// The ticks that passes took.
#[derive(Debug)]
pub struct PassTicks {
    pub total: u64,
    pub passes: Vec<u64>,
}

/// Works out the ticks that passes took from the timestamps at their ends. The counter of the
/// device may have wrapped around in between.
pub fn pass_ticks(timestamps: &Vec<u64>) -> (r: PassTicks)
    requires
        timestamps@.len() == PASS_COUNT + 1,
    ensures
        r.total == wrapping_sub(timestamps@[PASS_COUNT as int], timestamps@[0]),
        r.passes@ == Seq::new(
            PASS_COUNT as nat,
            |i: int| wrapping_sub(timestamps@[i + 1], timestamps@[i]),
        ),
{
    let mut passes: Vec<u64> = Vec::new();
    let mut i: usize = 0;
    while i < PASS_COUNT as usize
        invariant
            i <= PASS_COUNT,
            timestamps@.len() == PASS_COUNT + 1,
            passes@.len() == i,
            forall|j: int|
                0 <= j < i ==> passes@[j] == wrapping_sub(timestamps@[j + 1], timestamps@[j]),
        decreases PASS_COUNT - i,
    {
        passes.push(timestamps[i + 1].wrapping_sub(timestamps[i]));
        i = i + 1;
    }
    assert(passes@ =~= Seq::new(
        PASS_COUNT as nat,
        |i: int| wrapping_sub(timestamps@[i + 1], timestamps@[i]),
    ));
    PassTicks { total: timestamps[PASS_COUNT as usize].wrapping_sub(timestamps[0]), passes }
}

/// The ticks of the first passes, added up around the range of the counter.
pub open spec fn ticks_sum(ticks: Seq<u64>, count: nat) -> int
    decreases count,
{
    if count == 0 {
        0
    } else {
        ticks_sum(ticks, (count - 1) as nat) + ticks[count - 1]
    }
}

/// The passes together take as long as the whole frame, up to the range of the counter.
pub proof fn law_pass_ticks_add_up(timestamps: Seq<u64>, count: nat)
    requires
        timestamps.len() == PASS_COUNT + 1,
        count <= PASS_COUNT,
    ensures
        ({
            let ticks = Seq::new(
                PASS_COUNT as nat,
                |i: int| wrapping_sub(timestamps[i + 1], timestamps[i]),
            );
            ticks_sum(ticks, count) % 0x1_0000_0000_0000_0000 == wrapping_sub(
                timestamps[count as int],
                timestamps[0],
            )
        }),
    decreases count,
{
    if count > 0 {
        law_pass_ticks_add_up(timestamps, (count - 1) as nat);
    }
}

/// Where a frame stands.
#[derive(Clone, Copy, Debug, PartialEq, Eq, Structural)]
pub enum FramePhase {
    /// No frame has begun.
    Idle,
    /// The fence of the frame is waited for.
    Waiting,
    /// The timestamps of an earlier frame are read.
    Timing,
    /// The screen resources are made anew.
    Recreating,
    /// The next image of the swapchain is asked for.
    Acquiring,
    /// The fence of the frame is reset.
    Preparing,
    /// The cursor is being kept in some way or let go.
    Grabbing(GrabMode),
    /// The cursor is being shown or hidden.
    Showing,
    /// The commands of the frame are recorded.
    Drawing,
    /// The commands are submitted.
    Submitting,
    /// The image is handed to the screen.
    Presenting,
    /// Something failed that there is no way to go on from.
    Failed,
}

/// What happened.
#[derive(Clone, Copy, Debug, PartialEq, Eq, Structural)]
pub enum FrameEvent {
    /// A frame is asked for.
    Begin,
    FenceSignaled,
    /// Reading timestamps ended with this result.
    TimestampsRead(i32),
    ScreenRecreated,
    ImageAcquired(u32),
    AcquireFailed(i32),
    /// The fence is reset; `space_pressed` tells whether the space bar was just pressed.
    FenceReset { space_pressed: bool },
    /// The window system has done with the cursor as asked.
    CursorGrabbed,
    /// The window system cannot do with the cursor as asked.
    GrabFailed,
    /// The cursor is shown or hidden, as asked.
    CursorShown,
    Drawn,
    Submitted,
    Presented { suboptimal: bool },
    PresentFailed(i32),
}

/// How the cursor is kept.
#[derive(Clone, Copy, Debug, PartialEq, Eq, Structural)]
pub enum GrabMode {
    /// It goes where it likes.
    Free,
    /// It stays in the window.
    Confined,
    /// It stays in place.
    Locked,
}

/// What is to be done next.
#[derive(Clone, Copy, Debug, PartialEq, Eq, Structural)]
pub enum FrameAction {
    /// Wait for the fence of a frame in flight.
    WaitForFence(usize),
    ReadTimestamps { first: u32, count: u32 },
    RecreateScreen,
    /// Ask for the next image, to signal the semaphore of a frame in flight.
    AcquireImage(usize),
    ResetFence(usize),
    /// Have the window system keep the cursor, or let it go.
    GrabCursor(GrabMode),
    /// Show the cursor, or hide it.
    ShowCursor(bool),
    /// Update the camera and the input, write the constants of the frame and record its commands.
    Draw,
    /// Submit the commands of a frame in flight, which signal its fence when they are done.
    Submit(usize),
    /// Hand an image of the swapchain to the screen.
    Present(usize),
    /// The frame is done.
    Finish,
    /// There is no image to draw; the frame is not drawn.
    Skip,
    /// Give up, because of this result.
    Fail(i32),
    /// Give up, because the cursor can be kept in no way that would do.
    FailCursor,
    /// The event does not belong here; nothing changes.
    Ignore,
}

/// What the course of a frame depends on.
#[derive(Clone, Copy, Debug, PartialEq, Eq, Structural)]
pub struct FrameState {
    pub phase: FramePhase,
    pub frame_id: u64,
    pub frame_index: usize,
    pub image_index: usize,
    pub cursor_locked: bool,
    pub recreate: bool,
}

/// What comes after the timestamps: the screen resources are made anew if that was asked for, then
/// the next image is asked for.
pub open spec fn after_timing(s: FrameState) -> (FrameState, FrameAction) {
    if s.recreate {
        (
            FrameState { phase: FramePhase::Recreating, recreate: false, ..s },
            FrameAction::RecreateScreen,
        )
    } else {
        (
            FrameState { phase: FramePhase::Acquiring, ..s },
            FrameAction::AcquireImage(s.frame_index),
        )
    }
}

/// What comes after the fence is reset: the space bar locks and releases the cursor in turn.
pub open spec fn after_reset(s: FrameState, space_pressed: bool) -> (FrameState, FrameAction) {
    if !space_pressed {
        (FrameState { phase: FramePhase::Drawing, ..s }, FrameAction::Draw)
    } else if s.cursor_locked {
        (
            FrameState {
                phase: FramePhase::Grabbing(GrabMode::Free),
                cursor_locked: false,
                ..s
            },
            FrameAction::GrabCursor(GrabMode::Free),
        )
    } else {
        (
            FrameState {
                phase: FramePhase::Grabbing(GrabMode::Locked),
                cursor_locked: true,
                ..s
            },
            FrameAction::GrabCursor(GrabMode::Locked),
        )
    }
}

/// What comes after the cursor could not be kept as asked: one that cannot stay in place is to stay
/// in the window, and there is nothing else to try.
pub open spec fn after_grab_failed(s: FrameState, mode: GrabMode) -> (FrameState, FrameAction) {
    if mode == GrabMode::Locked {
        (
            FrameState { phase: FramePhase::Grabbing(GrabMode::Confined), ..s },
            FrameAction::GrabCursor(GrabMode::Confined),
        )
    } else {
        (FrameState { phase: FramePhase::Failed, ..s }, FrameAction::FailCursor)
    }
}

/// The end of a frame that was handed to the screen.
pub open spec fn frame_done(s: FrameState, recreate: bool) -> (FrameState, FrameAction) {
    (
        FrameState {
            phase: FramePhase::Idle,
            frame_id: wrapping_add(s.frame_id, 1),
            recreate: s.recreate || recreate,
            ..s
        },
        FrameAction::Finish,
    )
}

/// The end of everything.
pub open spec fn give_up(s: FrameState, code: i32) -> (FrameState, FrameAction) {
    (FrameState { phase: FramePhase::Failed, ..s }, FrameAction::Fail(code))
}

/// The course of a frame: what an event leads to.
pub open spec fn frame_step(s: FrameState, event: FrameEvent) -> (FrameState, FrameAction) {
    match (s.phase, event) {
        (FramePhase::Idle, FrameEvent::Begin) => (
            FrameState { phase: FramePhase::Waiting, ..s },
            FrameAction::WaitForFence(s.frame_index),
        ),
        (FramePhase::Waiting, FrameEvent::FenceSignaled) => if s.frame_id
            >= MAX_FRAMES_IN_FLIGHT {
            (
                FrameState { phase: FramePhase::Timing, ..s },
                FrameAction::ReadTimestamps {
                    first: query_base(s.frame_index),
                    count: (PASS_COUNT + 1) as u32,
                },
            )
        } else {
            after_timing(s)
        },
        (FramePhase::Timing, FrameEvent::TimestampsRead(code)) => if code == vk::RESULT_SUCCESS
            || code == vk::RESULT_NOT_READY {
            after_timing(s)
        } else {
            give_up(s, code)
        },
        (FramePhase::Recreating, FrameEvent::ScreenRecreated) => (
            FrameState { phase: FramePhase::Acquiring, ..s },
            FrameAction::AcquireImage(s.frame_index),
        ),
        (FramePhase::Acquiring, FrameEvent::ImageAcquired(index)) => (
            FrameState { phase: FramePhase::Preparing, image_index: index as usize, ..s },
            FrameAction::ResetFence(s.frame_index),
        ),
        (FramePhase::Acquiring, FrameEvent::AcquireFailed(code)) => if code
            == vk::RESULT_ERROR_OUT_OF_DATE_KHR {
            (FrameState { phase: FramePhase::Idle, recreate: true, ..s }, FrameAction::Skip)
        } else {
            give_up(s, code)
        },
        (FramePhase::Preparing, FrameEvent::FenceReset { space_pressed }) => after_reset(
            s,
            space_pressed,
        ),
        (FramePhase::Grabbing(_), FrameEvent::CursorGrabbed) => (
            FrameState { phase: FramePhase::Showing, ..s },
            FrameAction::ShowCursor(!s.cursor_locked),
        ),
        (FramePhase::Grabbing(mode), FrameEvent::GrabFailed) => after_grab_failed(s, mode),
        (FramePhase::Showing, FrameEvent::CursorShown) => (
            FrameState { phase: FramePhase::Drawing, ..s },
            FrameAction::Draw,
        ),
        (FramePhase::Drawing, FrameEvent::Drawn) => (
            FrameState { phase: FramePhase::Submitting, ..s },
            FrameAction::Submit(s.frame_index),
        ),
        (FramePhase::Submitting, FrameEvent::Submitted) => (
            FrameState {
                phase: FramePhase::Presenting,
                frame_index: ((s.frame_index + 1) % 2) as usize,
                ..s
            },
            FrameAction::Present(s.image_index),
        ),
        (FramePhase::Presenting, FrameEvent::Presented { suboptimal }) => frame_done(s, suboptimal),
        (FramePhase::Presenting, FrameEvent::PresentFailed(code)) => if code
            == vk::RESULT_ERROR_OUT_OF_DATE_KHR {
            frame_done(s, true)
        } else {
            give_up(s, code)
        },
        _ => (s, FrameAction::Ignore),
    }
}

/// A step of handing everything back at the end.
#[derive(Clone, Copy, Debug, PartialEq, Eq, Structural)]
pub enum ExitStep {
    /// Wait until the device is idle.
    WaitIdle,
    DestroySwapchain(u64),
    DestroyDevice,
    DestroySurface,
    DestroyInstance,
}

/// What is handed to the queue.
#[derive(Clone, Copy, Debug, PartialEq, Eq, Structural)]
pub struct Submission {
    pub command_buffer: u64,
    pub wait_semaphore: u64,
    /// The stage in which the semaphore is waited for.
    pub wait_stage: u32,
    pub signal_semaphore: u64,
    pub fence: u64,
}

/// What is handed to the screen.
#[derive(Clone, Copy, Debug, PartialEq, Eq, Structural)]
pub struct Presentation {
    pub wait_semaphore: u64,
    pub swapchain: u64,
    pub image_index: u32,
}

/// The addresses of the data that the shaders read.
#[derive(Clone, Copy, Debug, PartialEq, Eq, Structural)]
pub struct DataAddresses {
    pub frame_ptr: u64,
    pub objects_ptr: u64,
    pub materials_ptr: u64,
}

/// Every frame in flight has a buffer that the constants of a frame fit into exactly.
pub open spec fn frame_data_fits(frame_data: Seq<Buffer>) -> bool {
    &&& frame_data.len() == MAX_FRAMES_IN_FLIGHT
    &&& forall|i: int|
        0 <= i < frame_data.len() ==> (#[trigger] frame_data[i]).size == FRAME_DATA_SIZE
}

/// Buffers made as planned fit the constants of a frame, of which there are as many bytes.
pub proof fn law_planned_buffers_fit(frame_data: Seq<Buffer>)
    requires
        frame_data.len() == renderer_plan().frame_buffer_count,
        forall|i: int|
            0 <= i < frame_data.len() ==> (#[trigger] frame_data[i]).size
                == renderer_plan().frame_buffer.info.size,
    ensures
        frame_data_fits(frame_data),
{
}

/// What the camera adds to the constants of a frame, as bits of single-precision numbers.
#[derive(Clone, Copy, Debug, PartialEq, Eq)]
pub struct CameraConstants {
    pub view_proj: [u32; 16],
    pub view: [u32; 16],
    pub proj: [u32; 16],
    pub inv_view: [u32; 16],
    pub inv_proj: [u32; 16],
    pub inv_view_proj: [u32; 16],
    pub prev_view_proj: [u32; 16],
    pub position: [u32; 3],
    pub ndc_view_pixel_size: [u32; 2],
    pub cascades: [Cascade; 4],
}

/// The renderer.
#[derive(Debug)]
pub struct Renderer {
    pub ctx: VkCtx,
    pub config: Config,
    pub screen: ScreenResources,
    pub shadowmap: Image,
    pub scene: SceneResources,
    /// The buffers of constants, one for each frame in flight.
    pub frame_data: Vec<Buffer>,
    pub frame_id: u64,
    pub input: Input,
    pub cursor_locked: bool,
    pub image_index: usize,
    pub frame_index: usize,
    pub phase: FramePhase,
}

impl Renderer {
    /// What the course of a frame depends on.
    pub open spec fn state(&self) -> FrameState {
        FrameState {
            phase: self.phase,
            frame_id: self.frame_id,
            frame_index: self.frame_index,
            image_index: self.image_index,
            cursor_locked: self.cursor_locked,
            recreate: self.screen.recreate,
        }
    }

    /// The parts fit together, and frames in flight take turns.
    pub open spec fn wf(&self) -> bool {
        &&& self.ctx.wf(MAX_FRAMES_IN_FLIGHT)
        &&& frame_data_fits(self.frame_data@)
        &&& self.scene.wf()
        &&& in_turn(self.state())
    }

    /// The image that is drawn exists.
    pub open spec fn image_exists(&self) -> bool {
        &&& self.screen.wf()
        &&& self.image_index < self.screen.swapchain_images@.len()
        &&& self.screen.swapchain_images@.len() <= u32::MAX
    }

    /// Nothing but the course of the frame has changed.
    pub open spec fn only_state_differs(before: Renderer, after: Renderer) -> bool {
        after == (Renderer {
            screen: ScreenResources { recreate: after.screen.recreate, ..before.screen },
            frame_id: after.frame_id,
            cursor_locked: after.cursor_locked,
            image_index: after.image_index,
            frame_index: after.frame_index,
            phase: after.phase,
            ..before
        })
    }

    /// Decides what the driver has to create once.
    pub fn plan() -> (r: RendererPlan)
        ensures
            r == renderer_plan(),
    {
        let shadowmap = image().extent_2d_array(
            Extent2D { width: SHADOWMAP_SIZE, height: SHADOWMAP_SIZE },
            CASCADES as u32,
        ).format(SHADOWMAP_FORMAT).usage(
            vk::IMAGE_USAGE_DEPTH_STENCIL_ATTACHMENT | vk::IMAGE_USAGE_SAMPLED,
        );
        RendererPlan {
            frame_buffer: BufferCreation {
                info: BufferCreateInfo {
                    size: FRAME_DATA_SIZE,
                    usage: buffer_usage_union(
                        vk::BUFFER_USAGE_SHADER_DEVICE_ADDRESS,
                        vk::BUFFER_USAGE_STORAGE_BUFFER,
                    ),
                },
                allocation: AllocationCreateInfo {
                    flags: vk::ALLOCATION_HOST_ACCESS_SEQUENTIAL_WRITE | vk::ALLOCATION_MAPPED,
                    usage: MemoryUsage::Auto,
                },
            },
            frame_buffer_count: MAX_FRAMES_IN_FLIGHT,
            shadowmap,
            shadowmap_memory_flags: vk::ALLOCATION_DEDICATED_MEMORY,
            query_type: vk::QUERY_TIMESTAMP,
            query_count: MAX_FRAMES_IN_FLIGHT * (PASS_COUNT + 1),
            ui: UiOptions {
                color_format: SWAPCHAIN_FORMAT,
                depth_format: Some(DEPTH_FORMAT),
                in_flight_frames: MAX_FRAMES_IN_FLIGHT as usize,
                enable_depth_test: true,
                enable_depth_write: true,
                samples: vk::SAMPLES_TYPE_1,
            },
        }
    }

    /// The renderer before its first frame, with the default settings.
    pub fn new(
        ctx: VkCtx,
        screen: ScreenResources,
        shadowmap: Image,
        scene: SceneResources,
        frame_data: Vec<Buffer>,
    ) -> (r: Self)
        requires
            ctx.wf(MAX_FRAMES_IN_FLIGHT),
            frame_data_fits(frame_data@),
            scene.wf(),
        ensures
            r.wf(),
            r.ctx == ctx,
            r.config == default_config(),
            r.screen == screen,
            r.shadowmap == shadowmap,
            r.scene == scene,
            r.frame_data == frame_data,
            r.input.pressed() == Set::<KeyCode>::empty(),
            r.input.fresh() == Set::<KeyCode>::empty(),
            r.input.released() == Set::<KeyCode>::empty(),
            r.input.mouse == untouched_mouse(),
            r.input.scroll == 0,
            r.state() == (FrameState {
                phase: FramePhase::Idle,
                frame_id: 0,
                frame_index: 0,
                image_index: 0,
                cursor_locked: false,
                recreate: screen.recreate,
            }),
    {
        Renderer {
            ctx,
            config: Config::default(),
            screen,
            shadowmap,
            scene,
            frame_data,
            frame_id: 0,
            input: Input::default(),
            cursor_locked: false,
            image_index: 0,
            frame_index: 0,
            phase: FramePhase::Idle,
        }
    }

    /// The window has another size: the screen resources are made anew before the next frame.
    pub fn on_resize(&mut self)
        ensures
            *final(self) == (Renderer {
                screen: ScreenResources { recreate: true, ..old(self).screen },
                ..*old(self)
            }),
    {
        self.screen.recreate = true;
    }

    /// The user has set another render scale, given by its bits.
    pub fn set_render_scale(&mut self, render_scale: u32)
        ensures
            *final(self) == (Renderer {
                config: Config { render_scale, ..old(self).config },
                screen: ScreenResources { recreate: true, ..old(self).screen },
                ..*old(self)
            }),
    {
        self.config.render_scale = render_scale;
        self.screen.recreate = true;
    }

    fn go_on(&mut self) -> (r: FrameAction)
        ensures
            (final(self).state(), r) == after_timing(old(self).state()),
            Self::only_state_differs(*old(self), *final(self)),
    {
        if self.screen.recreate {
            self.screen.recreate = false;
            self.phase = FramePhase::Recreating;
            FrameAction::RecreateScreen
        } else {
            self.phase = FramePhase::Acquiring;
            FrameAction::AcquireImage(self.frame_index)
        }
    }

    fn fail(&mut self, code: i32) -> (r: FrameAction)
        ensures
            (final(self).state(), r) == give_up(old(self).state(), code),
            Self::only_state_differs(*old(self), *final(self)),
    {
        self.phase = FramePhase::Failed;
        FrameAction::Fail(code)
    }

    fn finish(&mut self, recreate: bool) -> (r: FrameAction)
        ensures
            (final(self).state(), r) == frame_done(old(self).state(), recreate),
            Self::only_state_differs(*old(self), *final(self)),
    {
        if recreate {
            self.screen.recreate = true;
        }
        self.phase = FramePhase::Idle;
        self.frame_id = self.frame_id.wrapping_add(1);
        FrameAction::Finish
    }

    /// Takes a frame one step on: from what happened to what is to be done next.
    pub fn frame(&mut self, event: FrameEvent) -> (r: FrameAction)
        requires
            old(self).wf(),
        ensures
            (final(self).state(), r) == frame_step(old(self).state(), event),
            Self::only_state_differs(*old(self), *final(self)),
            final(self).wf(),
    {
        proof {
            law_frames_take_turns(self.state(), event);
        }
        match (self.phase, event) {
            (FramePhase::Idle, FrameEvent::Begin) => {
                self.phase = FramePhase::Waiting;
                FrameAction::WaitForFence(self.frame_index)
            },
            (FramePhase::Waiting, FrameEvent::FenceSignaled) => {
                if self.frame_id >= MAX_FRAMES_IN_FLIGHT as u64 {
                    self.phase = FramePhase::Timing;
                    FrameAction::ReadTimestamps {
                        first: first_query(self.frame_index),
                        count: PASS_COUNT + 1,
                    }
                } else {
                    self.go_on()
                }
            },
            (FramePhase::Timing, FrameEvent::TimestampsRead(code)) => {
                if code == vk::RESULT_SUCCESS || code == vk::RESULT_NOT_READY {
                    self.go_on()
                } else {
                    self.fail(code)
                }
            },
            (FramePhase::Recreating, FrameEvent::ScreenRecreated) => {
                self.phase = FramePhase::Acquiring;
                FrameAction::AcquireImage(self.frame_index)
            },
            (FramePhase::Acquiring, FrameEvent::ImageAcquired(index)) => {
                self.image_index = index as usize;
                self.phase = FramePhase::Preparing;
                FrameAction::ResetFence(self.frame_index)
            },
            (FramePhase::Acquiring, FrameEvent::AcquireFailed(code)) => {
                if code == vk::RESULT_ERROR_OUT_OF_DATE_KHR {
                    self.screen.recreate = true;
                    self.phase = FramePhase::Idle;
                    FrameAction::Skip
                } else {
                    self.fail(code)
                }
            },
            (FramePhase::Preparing, FrameEvent::FenceReset { space_pressed }) => {
                if !self.cursor_locked && space_pressed {
                    self.cursor_locked = true;
                    self.phase = FramePhase::Grabbing(GrabMode::Locked);
                    FrameAction::GrabCursor(GrabMode::Locked)
                } else if self.cursor_locked && space_pressed {
                    self.cursor_locked = false;
                    self.phase = FramePhase::Grabbing(GrabMode::Free);
                    FrameAction::GrabCursor(GrabMode::Free)
                } else {
                    self.phase = FramePhase::Drawing;
                    FrameAction::Draw
                }
            },
            (FramePhase::Grabbing(_), FrameEvent::CursorGrabbed) => {
                self.phase = FramePhase::Showing;
                FrameAction::ShowCursor(!self.cursor_locked)
            },
            (FramePhase::Grabbing(mode), FrameEvent::GrabFailed) => {
                if mode == GrabMode::Locked {
                    self.phase = FramePhase::Grabbing(GrabMode::Confined);
                    FrameAction::GrabCursor(GrabMode::Confined)
                } else {
                    self.phase = FramePhase::Failed;
                    FrameAction::FailCursor
                }
            },
            (FramePhase::Showing, FrameEvent::CursorShown) => {
                self.phase = FramePhase::Drawing;
                FrameAction::Draw
            },
            (FramePhase::Drawing, FrameEvent::Drawn) => {
                self.phase = FramePhase::Submitting;
                FrameAction::Submit(self.frame_index)
            },
            (FramePhase::Submitting, FrameEvent::Submitted) => {
                self.frame_index = (self.frame_index + 1) % (MAX_FRAMES_IN_FLIGHT as usize);
                self.phase = FramePhase::Presenting;
                FrameAction::Present(self.image_index)
            },
            (FramePhase::Presenting, FrameEvent::Presented { suboptimal }) => {
                self.finish(suboptimal)
            },
            (FramePhase::Presenting, FrameEvent::PresentFailed(code)) => {
                if code == vk::RESULT_ERROR_OUT_OF_DATE_KHR {
                    self.finish(true)
                } else {
                    self.fail(code)
                }
            },
            _ => FrameAction::Ignore,
        }
    }

    /// What happened once the fence of the frame is reset: whether the space bar was pressed down in
    /// this frame is up to the input.
    pub fn fence_reset(&self) -> (r: FrameEvent)
        ensures
            r == (FrameEvent::FenceReset {
                space_pressed: self.input.fresh().contains(KeyCode::Space),
            }),
    {
        FrameEvent::FenceReset { space_pressed: self.input.key_pressed(KeyCode::Space) }
    }

    /// The constants of the frame, from the camera, the direction of the light, the size of the
    /// screen and the settings.
    pub fn frame_constants(&self, camera: &CameraConstants, light_dir: [u32; 3]) -> (r: FrameData)
        ensures
            r.view_proj == camera.view_proj,
            r.view == camera.view,
            r.proj == camera.proj,
            r.inv_view == camera.inv_view,
            r.inv_proj == camera.inv_proj,
            r.inv_view_proj == camera.inv_view_proj,
            r.prev_view_proj == camera.prev_view_proj,
            r.camera_pos == camera.position,
            r.size@ == self.screen.render_size.coordinates(),
            r.texel_size == self.screen.texel_size,
            r.size_half@ == self.screen.render_size_half.coordinates(),
            r.texel_size_half == self.screen.texel_size_half,
            r.ndc_view_pixel_size == camera.ndc_view_pixel_size,
            r.frame_id == self.frame_id % 0x1_0000_0000,
            r.light_dir == light_dir,
            r.cascades == camera.cascades,
            r.ao_slices == self.config.ao_slices,
            r.ao_samples == self.config.ao_samples,
            r.ao_radius == self.config.ao_radius,
            r.ao_falloff_range == self.config.ao_falloff_range,
            r.ao_sample_distribution_power == self.config.ao_sample_distribution_power,
            r.ao_thin_occluder_compensation == self.config.ao_thin_occluder_compensation,
            r.ao_final_value_power == self.config.ao_final_value_power,
            r.debug_view == self.config.debug_view.number(),
            forall|k: int| 0 <= k < 16 ==> r.words()[k] == #[trigger] camera.view_proj@[k],
            forall|k: int| 0 <= k < 16 ==> r.words()[16 + k] == #[trigger] camera.view@[k],
            forall|k: int| 0 <= k < 16 ==> r.words()[32 + k] == #[trigger] camera.proj@[k],
            forall|k: int| 0 <= k < 16 ==> r.words()[48 + k] == #[trigger] camera.inv_view@[k],
            forall|k: int| 0 <= k < 16 ==> r.words()[64 + k] == #[trigger] camera.inv_proj@[k],
            forall|k: int| 0 <= k < 16 ==> r.words()[80 + k] == #[trigger] camera.inv_view_proj@[k],
            forall|k: int|
                0 <= k < 16 ==> r.words()[96 + k] == #[trigger] camera.prev_view_proj@[k],
            forall|k: int| 0 <= k < 3 ==> r.words()[112 + k] == #[trigger] camera.position@[k],
            r.words()[115] == self.screen.render_size.width,
            r.words()[116] == self.screen.render_size.height,
            r.words()[117] == self.screen.texel_size@[0],
            r.words()[118] == self.screen.texel_size@[1],
            r.words()[119] == self.screen.render_size_half.width,
            r.words()[120] == self.screen.render_size_half.height,
            r.words()[121] == self.screen.texel_size_half@[0],
            r.words()[122] == self.screen.texel_size_half@[1],
            r.words()[123] == camera.ndc_view_pixel_size@[0],
            r.words()[124] == camera.ndc_view_pixel_size@[1],
            r.words()[209] == self.config.ao_slices,
            r.words()[210] == self.config.ao_samples,
            r.words()[211] == self.config.ao_radius,
            r.words()[212] == self.config.ao_falloff_range,
            r.words()[213] == self.config.ao_sample_distribution_power,
            r.words()[214] == self.config.ao_thin_occluder_compensation,
            r.words()[215] == self.config.ao_final_value_power,
    {
        let r = FrameData {
            view_proj: camera.view_proj,
            view: camera.view,
            proj: camera.proj,
            inv_view: camera.inv_view,
            inv_proj: camera.inv_proj,
            inv_view_proj: camera.inv_view_proj,
            prev_view_proj: camera.prev_view_proj,
            camera_pos: camera.position,
            size: self.screen.render_size.as_uvec2(),
            texel_size: self.screen.texel_size,
            size_half: self.screen.render_size_half.as_uvec2(),
            texel_size_half: self.screen.texel_size_half,
            ndc_view_pixel_size: camera.ndc_view_pixel_size,
            frame_id: (self.frame_id % 0x1_0000_0000) as u32,
            light_dir,
            cascades: camera.cascades,
            ao_slices: self.config.ao_slices,
            ao_samples: self.config.ao_samples,
            ao_radius: self.config.ao_radius,
            ao_falloff_range: self.config.ao_falloff_range,
            ao_sample_distribution_power: self.config.ao_sample_distribution_power,
            ao_thin_occluder_compensation: self.config.ao_thin_occluder_compensation,
            ao_final_value_power: self.config.ao_final_value_power,
            debug_view: self.config.debug_view.index(),
        };
        proof {
            assert forall|k: int| 0 <= k < 16 implies r.words()[k] == #[trigger] r.view_proj@[k]
                && r.words()[16 + k] == #[trigger] r.view@[k] && r.words()[32 + k]
                == #[trigger] r.proj@[k] && r.words()[48 + k] == #[trigger] r.inv_view@[k]
                && r.words()[64 + k] == #[trigger] r.inv_proj@[k] && r.words()[80 + k]
                == #[trigger] r.inv_view_proj@[k] && r.words()[96 + k]
                == #[trigger] r.prev_view_proj@[k] by {
                law_shaders_find_frame(r, k);
            }
            assert forall|k: int| 0 <= k < 3 implies r.words()[112 + k]
                == #[trigger] r.camera_pos@[k] by {
                law_shaders_find_frame(r, k);
            }
            law_shaders_find_frame(r, 0);
            law_shaders_find_frame(r, 1);
        }
        r
    }

    /// What the recording of the frame depends on.
    pub open spec fn params(&self, data: DataAddresses) -> FrameParams {
        FrameParams {
            frame_index: self.frame_index,
            frame_id: self.frame_id,
            image_index: self.image_index,
            render_size: self.screen.render_size,
            viewport_size: self.screen.viewport_size,
            frame_ptr: data.frame_ptr,
            objects_ptr: data.objects_ptr,
            materials_ptr: data.materials_ptr,
        }
    }

    /// Lists the commands of the frame.
    pub fn record(&self, data: DataAddresses) -> (r: Vec<Command>)
        requires
            self.wf(),
        ensures
            r@ == frame_commands(
                self.params(data),
                self.scene.primitives@,
                self.scene.index_counts@,
            ),
    {
        let params = FrameParams {
            frame_index: self.frame_index,
            frame_id: self.frame_id,
            image_index: self.image_index,
            render_size: self.screen.render_size,
            viewport_size: self.screen.viewport_size,
            frame_ptr: data.frame_ptr,
            objects_ptr: data.objects_ptr,
            materials_ptr: data.materials_ptr,
        };
        record_frame(&params, &self.scene.primitives, &self.scene.index_counts)
    }

    /// What is handed to the queue for the frame.
    pub open spec fn submitted(&self) -> Submission {
        Submission {
            command_buffer: self.ctx.command_buffers@[self.frame_index as int],
            wait_semaphore: self.ctx.image_acquired_semaphores@[self.frame_index as int],
            wait_stage: vk::WAIT_STAGE_COLOR_ATTACHMENT_OUTPUT,
            signal_semaphore: self.screen.render_complete_semaphores@[self.image_index as int],
            fence: self.ctx.frame_fences@[self.frame_index as int],
        }
    }

    /// What is handed to the screen for the frame.
    pub open spec fn presented(&self) -> Presentation {
        Presentation {
            wait_semaphore: self.screen.render_complete_semaphores@[self.image_index as int],
            swapchain: self.screen.swapchain,
            image_index: self.image_index as u32,
        }
    }

    /// What is handed to the queue for the frame: its commands, which wait for the image to be
    /// free and signal that it has been drawn.
    pub fn submission(&self) -> (r: Submission)
        requires
            self.wf(),
            self.image_exists(),
        ensures
            r == self.submitted(),
            r.command_buffer == self.ctx.command_buffers@[self.frame_index as int],
            r.wait_semaphore == self.ctx.image_acquired_semaphores@[self.frame_index as int],
            r.wait_stage == vk::WAIT_STAGE_COLOR_ATTACHMENT_OUTPUT,
            r.signal_semaphore == self.screen.render_complete_semaphores@[self.image_index as int],
            r.fence == self.ctx.frame_fences@[self.frame_index as int],
    {
        Submission {
            command_buffer: self.ctx.command_buffers[self.frame_index],
            wait_semaphore: self.ctx.image_acquired_semaphores[self.frame_index],
            wait_stage: vk::WAIT_STAGE_COLOR_ATTACHMENT_OUTPUT,
            signal_semaphore: self.screen.render_complete_semaphores[self.image_index],
            fence: self.ctx.frame_fences[self.frame_index],
        }
    }

    /// What is handed to the screen: the image, once it has been drawn.
    pub fn presentation(&self) -> (r: Presentation)
        requires
            self.image_exists(),
        ensures
            r == self.presented(),
            r.wait_semaphore == self.screen.render_complete_semaphores@[self.image_index as int],
            r.swapchain == self.screen.swapchain,
            r.image_index == self.image_index,
    {
        Presentation {
            wait_semaphore: self.screen.render_complete_semaphores[self.image_index],
            swapchain: self.screen.swapchain,
            image_index: self.image_index as u32,
        }
    }

    /// Lists the steps that hand everything back at the end.
    pub fn teardown(&self) -> (r: Vec<ExitStep>)
        ensures
            r@ == seq![
                ExitStep::WaitIdle,
                ExitStep::DestroySwapchain(self.screen.swapchain),
                ExitStep::DestroyDevice,
                ExitStep::DestroySurface,
                ExitStep::DestroyInstance,
            ],
    {
        let mut steps: Vec<ExitStep> = Vec::new();
        steps.push(ExitStep::WaitIdle);
        steps.push(ExitStep::DestroySwapchain(self.screen.swapchain));
        steps.push(ExitStep::DestroyDevice);
        steps.push(ExitStep::DestroySurface);
        steps.push(ExitStep::DestroyInstance);
        assert(steps@ =~= seq![
            ExitStep::WaitIdle,
            ExitStep::DestroySwapchain(self.screen.swapchain),
            ExitStep::DestroyDevice,
            ExitStep::DestroySurface,
            ExitStep::DestroyInstance,
        ]);
        steps
    }
}

/// Frames in flight take turns: the place of a frame follows from its number. The place moves on
/// when the frame is submitted, the number when it is shown. There are two places.
pub open spec fn in_turn(s: FrameState) -> bool {
    &&& s.frame_index < MAX_FRAMES_IN_FLIGHT
    &&& match s.phase {
        FramePhase::Failed => true,
        FramePhase::Presenting => s.frame_index == (s.frame_id + 1) % 2,
        _ => s.frame_index == s.frame_id % 2,
    }
}

/// Whatever happens, frames in flight keep taking turns.
pub proof fn law_frames_take_turns(s: FrameState, event: FrameEvent)
    requires
        in_turn(s),
    ensures
        in_turn(frame_step(s, event).0),
{
}

/// A frame counts when it has been shown, and only then; one that is skipped leaves everything as
/// it was but asks for new screen resources.
pub proof fn law_frames_count_when_shown(s: FrameState, event: FrameEvent)
    ensures
        ({
            let (next, action) = frame_step(s, event);
            &&& action is Finish ==> next.frame_id == wrapping_add(s.frame_id, 1) && next.phase
                == FramePhase::Idle
            &&& !(action is Finish) ==> next.frame_id == s.frame_id
            &&& action is Skip ==> next == (FrameState {
                phase: FramePhase::Idle,
                recreate: true,
                ..s
            })
        }),
{
}

/// Pressing the space bar locks the cursor if it is free and frees it if it is locked. It is locked
/// in place, or if that fails in the window, and hidden then; only if both fail is that the end.
/// One that is freed is shown. Without the space bar nothing is done about the cursor.
pub proof fn law_cursor_is_locked_in_some_way(s: FrameState)
    requires
        s.phase == FramePhase::Preparing,
    ensures
        ({
            let (kept, keep) = frame_step(s, FrameEvent::FenceReset { space_pressed: false });
            &&& keep == FrameAction::Draw
            &&& kept.cursor_locked == s.cursor_locked
        }),
        ({
            let (first, grab) = frame_step(s, FrameEvent::FenceReset { space_pressed: true });
            let (shown, show) = frame_step(first, FrameEvent::CursorGrabbed);
            let (second, other) = frame_step(first, FrameEvent::GrabFailed);
            let (hidden, hide) = frame_step(second, FrameEvent::CursorGrabbed);
            &&& first.cursor_locked == !s.cursor_locked
            &&& show == FrameAction::ShowCursor(s.cursor_locked)
            &&& frame_step(shown, FrameEvent::CursorShown) == (
                FrameState {
                    phase: FramePhase::Drawing,
                    cursor_locked: !s.cursor_locked,
                    ..s
                },
                FrameAction::Draw,
            )
            &&& s.cursor_locked ==> grab == FrameAction::GrabCursor(GrabMode::Free) && other
                == FrameAction::FailCursor
            &&& !s.cursor_locked ==> {
                &&& grab == FrameAction::GrabCursor(GrabMode::Locked)
                &&& other == FrameAction::GrabCursor(GrabMode::Confined)
                &&& hide == FrameAction::ShowCursor(false)
                &&& hidden == shown
                &&& frame_step(second, FrameEvent::GrabFailed).1 == FrameAction::FailCursor
            }
        }),
{
}

/// A fence as the driver sees it.
pub enum FenceState {
    /// What it stands for is done.
    Signaled,
    /// It has been reset and stands for nothing yet.
    Unsignaled,
    /// It stands for work that is going on.
    Pending,
}

/// The fences after an event.
pub open spec fn fences_after(
    s: FrameState,
    event: FrameEvent,
    fences: Seq<FenceState>,
) -> Seq<FenceState> {
    match (s.phase, event) {
        (FramePhase::Waiting, FrameEvent::FenceSignaled) => fences.update(
            s.frame_index as int,
            FenceState::Signaled,
        ),
        (FramePhase::Preparing, FrameEvent::FenceReset { space_pressed }) => fences.update(
            s.frame_index as int,
            FenceState::Unsignaled,
        ),
        (FramePhase::Submitting, FrameEvent::Submitted) => fences.update(
            s.frame_index as int,
            FenceState::Pending,
        ),
        _ => fences,
    }
}

/// A fence stands for nothing only while the commands that it will stand for are on their way;
/// and the fence of a frame has been waited for before anything of the frame is done. Once something
/// has failed nothing is done any more.
pub open spec fn fences_fit(s: FrameState, fences: Seq<FenceState>) -> bool {
    &&& fences.len() == MAX_FRAMES_IN_FLIGHT
    &&& s.phase is Failed || forall|i: int|
        0 <= i < fences.len() ==> ((#[trigger] fences[i] is Unsignaled) <==> i == s.frame_index && (
        s.phase is Grabbing || s.phase is Showing || s.phase is Drawing || s.phase is Submitting))
    &&& s.phase is Timing || s.phase is Recreating || s.phase is Acquiring || s.phase
        is Preparing ==> fences[s.frame_index as int] is Signaled
}

/// Fences are used as they have to be, whatever happens: none is waited for that nothing will
/// signal, so no wait goes on forever; none is reset while it stands for work; and none is handed
/// to a submission unless it has been reset.
pub proof fn law_fences_are_used_in_order(
    s: FrameState,
    event: FrameEvent,
    fences: Seq<FenceState>,
)
    requires
        in_turn(s),
        fences_fit(s, fences),
    ensures
        ({
            let (next, action) = frame_step(s, event);
            let after = fences_after(s, event, fences);
            &&& fences_fit(next, after)
            &&& match action {
                FrameAction::WaitForFence(i) => !(after[i as int] is Unsignaled),
                FrameAction::ResetFence(i) => after[i as int] is Signaled,
                FrameAction::Submit(i) => after[i as int] is Unsignaled,
                _ => true,
            }
        }),
{
}

/// The state and the fences after events, one after the other.
pub open spec fn run(
    s: FrameState,
    fences: Seq<FenceState>,
    events: Seq<FrameEvent>,
) -> (FrameState, Seq<FenceState>)
    decreases events.len(),
{
    if events.len() == 0 {
        (s, fences)
    } else {
        let (before, earlier) = run(s, fences, events.drop_last());
        (frame_step(before, events.last()).0, fences_after(before, events.last(), earlier))
    }
}

/// From the start on, with all fences signalled, every sequence of events leaves frames taking
/// turns and fences in order.
pub proof fn law_every_course_is_in_order(
    s: FrameState,
    fences: Seq<FenceState>,
    events: Seq<FrameEvent>,
)
    requires
        s.phase == FramePhase::Idle,
        s.frame_id == 0,
        s.frame_index == 0,
        fences.len() == MAX_FRAMES_IN_FLIGHT,
        forall|i: int| 0 <= i < fences.len() ==> #[trigger] fences[i] is Signaled,
    ensures
        in_turn(run(s, fences, events).0),
        fences_fit(run(s, fences, events).0, run(s, fences, events).1),
    decreases events.len(),
{
    if events.len() > 0 {
        law_every_course_is_in_order(s, fences, events.drop_last());
        let (before, earlier) = run(s, fences, events.drop_last());
        law_frames_take_turns(before, events.last());
        law_fences_are_used_in_order(before, events.last(), earlier);
    }
}

/// The semaphores that tell that an image is free to be drawn, by whether they are signalled, after
/// an event.
pub open spec fn acquired_after(s: FrameState, event: FrameEvent, acquired: Seq<bool>) -> Seq<bool> {
    match (s.phase, event) {
        (FramePhase::Acquiring, FrameEvent::ImageAcquired(index)) => acquired.update(
            s.frame_index as int,
            true,
        ),
        (FramePhase::Submitting, FrameEvent::Submitted) => acquired.update(
            s.frame_index as int,
            false,
        ),
        _ => acquired,
    }
}

/// Only the semaphore of the frame at hand is signalled, from when its image is acquired to when
/// its commands, which wait for it, are submitted; once something has failed nothing is done any
/// more.
pub open spec fn acquired_fit(s: FrameState, acquired: Seq<bool>) -> bool {
    &&& acquired.len() == MAX_FRAMES_IN_FLIGHT
    &&& s.phase is Failed || forall|i: int|
        0 <= i < acquired.len() ==> #[trigger] acquired[i] == (i == s.frame_index && (s.phase
            is Preparing || s.phase is Grabbing || s.phase is Showing || s.phase is Drawing
            || s.phase is Submitting))
}

/// Semaphores are used as they have to be, whatever happens: no image is asked for with a
/// semaphore that is still signalled, and nothing is submitted that waits for one that is not.
pub proof fn law_semaphores_are_used_in_order(
    s: FrameState,
    event: FrameEvent,
    acquired: Seq<bool>,
)
    requires
        in_turn(s),
        acquired_fit(s, acquired),
    ensures
        ({
            let (next, action) = frame_step(s, event);
            let after = acquired_after(s, event, acquired);
            &&& acquired_fit(next, after)
            &&& match action {
                FrameAction::AcquireImage(i) => !after[i as int],
                FrameAction::Submit(i) => after[i as int],
                _ => true,
            }
        }),
{
}


/// The state after events, one after the other.
pub open spec fn course(s: FrameState, events: Seq<FrameEvent>) -> FrameState
    decreases events.len(),
{
    if events.len() == 0 {
        s
    } else {
        frame_step(course(s, events.drop_last()), events.last()).0
    }
}

/// The image that was acquired last in the course of events, while one was asked for.
pub open spec fn last_acquired(s: FrameState, events: Seq<FrameEvent>) -> Option<u32>
    decreases events.len(),
{
    if events.len() == 0 {
        None
    } else {
        match (course(s, events.drop_last()).phase, events.last()) {
            (FramePhase::Acquiring, FrameEvent::ImageAcquired(n)) => Some(n),
            _ => last_acquired(s, events.drop_last()),
        }
    }
}

/// The image that is presented is the one that was acquired: whatever has happened, the image of
/// the state is the one acquired last, no other event changes it, and it is the one that is handed
/// to the screen.
pub proof fn law_acquired_image_is_presented(
    s: FrameState,
    events: Seq<FrameEvent>,
    event: FrameEvent,
)
    requires
        s.phase == FramePhase::Idle,
    ensures
        ({
            let now = course(s, events);
            let (next, action) = frame_step(now, event);
            &&& match last_acquired(s, events) {
                Some(n) => now.image_index == n,
                None => now.image_index == s.image_index,
            }
            &&& match (now.phase, event) {
                (FramePhase::Acquiring, FrameEvent::ImageAcquired(n)) => next.image_index == n,
                _ => next.image_index == now.image_index,
            }
            &&& action matches FrameAction::Present(k) ==> {
                &&& last_acquired(s, events) matches Some(n)
                &&& k == n
            }
        }),
{
    lemma_acquired(s, events);
}

proof fn lemma_acquired(s: FrameState, events: Seq<FrameEvent>)
    requires
        s.phase == FramePhase::Idle,
    ensures
        match last_acquired(s, events) {
            Some(n) => course(s, events).image_index == n,
            None => {
                let phase = course(s, events).phase;
                &&& course(s, events).image_index == s.image_index
                &&& phase is Idle || phase is Waiting || phase is Timing || phase is Recreating
                    || phase is Acquiring || phase is Failed
            },
        },
    decreases events.len(),
{
    if events.len() > 0 {
        lemma_acquired(s, events.drop_last());
    }
}

/// What is to be done is what the state goes on from: each action is for the frame in flight and
/// the image of the state, and leaves the state where the outcome of that action is expected. What
/// an action does not concern stays as it was.
pub proof fn law_actions_fit_state(s: FrameState, event: FrameEvent)
    requires
        s.frame_index < MAX_FRAMES_IN_FLIGHT,
    ensures
        ({
            let (next, action) = frame_step(s, event);
            &&& match action {
                FrameAction::WaitForFence(i) => next.phase is Waiting && i == s.frame_index,
                FrameAction::ReadTimestamps { first, count } => {
                    &&& next.phase is Timing
                    &&& s.frame_id >= MAX_FRAMES_IN_FLIGHT
                    &&& count == PASS_COUNT + 1
                    &&& first == s.frame_index * (PASS_COUNT + 1)
                },
                FrameAction::RecreateScreen => next.phase is Recreating && s.recreate,
                FrameAction::AcquireImage(i) => {
                    &&& next.phase is Acquiring
                    &&& i == s.frame_index
                    &&& !(s.phase is Recreating) ==> !s.recreate
                },
                FrameAction::ResetFence(i) => next.phase is Preparing && i == s.frame_index,
                FrameAction::GrabCursor(mode) => next.phase == FramePhase::Grabbing(mode),
                FrameAction::ShowCursor(shown) => next.phase is Showing && shown
                    == !next.cursor_locked,
                FrameAction::Draw => next.phase is Drawing,
                FrameAction::Submit(i) => next.phase is Submitting && i == s.frame_index,
                FrameAction::Present(i) => next.phase is Presenting && i == s.image_index,
                FrameAction::Finish => next.phase is Idle && s.phase is Presenting,
                FrameAction::Skip => next.phase is Idle && s.phase is Acquiring,
                FrameAction::Fail(_) | FrameAction::FailCursor => next.phase is Failed,
                FrameAction::Ignore => next == s,
            }
            &&& if action is Present {
                next.frame_index + s.frame_index == 1
            } else {
                next.frame_index == s.frame_index
            }
            &&& if action is RecreateScreen {
                !next.recreate
            } else {
                s.recreate ==> next.recreate
            }
            &&& next.recreate && !s.recreate ==> action is Skip || action is Finish
            &&& !(action is GrabCursor) ==> next.cursor_locked == s.cursor_locked
        }),
{
}

/// A frame with no trouble: its fence is waited for, the timestamps of the frame that had its place
/// before are read if there was one, whether they are ready or not, the screen resources are made
/// anew if that was asked for, an image is acquired, and then the frame is drawn, submitted and that
/// image is presented. The next frame is another one, in the other place, and makes the screen
/// resources anew if the screen says that they fit no longer.
pub proof fn law_frame_without_trouble(
    s: FrameState,
    ready: i32,
    image: u32,
    suboptimal: bool,
)
    requires
        s.phase == FramePhase::Idle,
        s.frame_index < MAX_FRAMES_IN_FLIGHT,
        ready == vk::RESULT_SUCCESS || ready == vk::RESULT_NOT_READY,
    ensures
        ({
            let (waiting, wait) = frame_step(s, FrameEvent::Begin);
            let (first, first_action) = frame_step(waiting, FrameEvent::FenceSignaled);
            let (second, second_action) = if s.frame_id >= MAX_FRAMES_IN_FLIGHT {
                frame_step(first, FrameEvent::TimestampsRead(ready))
            } else {
                (first, first_action)
            };
            let (asking, ask) = if s.recreate {
                frame_step(second, FrameEvent::ScreenRecreated)
            } else {
                (second, second_action)
            };
            let (acquired, reset) = frame_step(asking, FrameEvent::ImageAcquired(image));
            let (drawing, draw) = frame_step(
                acquired,
                FrameEvent::FenceReset { space_pressed: false },
            );
            let (submitting, submit) = frame_step(drawing, FrameEvent::Drawn);
            let (presenting, present) = frame_step(submitting, FrameEvent::Submitted);
            let (done, finish) = frame_step(presenting, FrameEvent::Presented { suboptimal });
            let (outdated, finish_too) = frame_step(
                presenting,
                FrameEvent::PresentFailed(vk::RESULT_ERROR_OUT_OF_DATE_KHR),
            );
            &&& wait == FrameAction::WaitForFence(s.frame_index)
            &&& s.frame_id >= MAX_FRAMES_IN_FLIGHT ==> first_action is ReadTimestamps
            &&& s.recreate ==> second_action is RecreateScreen
            &&& ask == FrameAction::AcquireImage(s.frame_index)
            &&& reset == FrameAction::ResetFence(s.frame_index)
            &&& draw is Draw
            &&& submit == FrameAction::Submit(s.frame_index)
            &&& present == FrameAction::Present(image as usize)
            &&& finish is Finish
            &&& done.phase is Idle
            &&& done.frame_id == wrapping_add(s.frame_id, 1)
            &&& done.frame_index + s.frame_index == 1
            &&& done.image_index == image
            &&& done.cursor_locked == s.cursor_locked
            &&& done.recreate == suboptimal
            &&& finish_too is Finish
            &&& outdated == (FrameState { recreate: true, ..done })
        }),
{
}

/// What goes wrong: a screen that has changed has the frame skipped, or what is drawn next made
/// anew, and any other failure is the end, with the result that told of it. After that nothing
/// happens any more.
pub proof fn law_failures_end_course(s: FrameState, event: FrameEvent, code: i32)
    requires
        s.frame_index < MAX_FRAMES_IN_FLIGHT,
    ensures
        s.phase is Timing && code != vk::RESULT_SUCCESS && code != vk::RESULT_NOT_READY
            ==> frame_step(s, FrameEvent::TimestampsRead(code)).1 == FrameAction::Fail(code),
        s.phase is Acquiring ==> frame_step(s, FrameEvent::AcquireFailed(code)).1 == (if code
            == vk::RESULT_ERROR_OUT_OF_DATE_KHR {
            FrameAction::Skip
        } else {
            FrameAction::Fail(code)
        }),
        s.phase is Presenting && code != vk::RESULT_ERROR_OUT_OF_DATE_KHR ==> frame_step(
            s,
            FrameEvent::PresentFailed(code),
        ).1 == FrameAction::Fail(code),
        s.phase is Failed ==> frame_step(s, event) == (s, FrameAction::Ignore),
        frame_step(s, event).1 matches FrameAction::Fail(result) ==> event
            == FrameEvent::TimestampsRead(result) || event == FrameEvent::AcquireFailed(result)
            || event == FrameEvent::PresentFailed(result),
{
}

/// The timestamps that are read once the fence of a frame is signalled are those that the frame
/// before it in the same place has written, all of them and no others.
pub proof fn law_timestamps_are_read_back(
    s: FrameState,
    p: FrameParams,
    primitives: Seq<PrimitiveData>,
    index_counts: Seq<u32>,
    layouts: spec_fn(ImageSlot, int) -> i32,
)
    requires
        s.phase == FramePhase::Waiting,
        s.frame_index < MAX_FRAMES_IN_FLIGHT,
        p.frame_index == s.frame_index,
    ensures
        ({
            let stamps = record(
                frame_commands(p, primitives, index_counts),
                fresh_recording(layouts),
            )->0.stamps;
            let (next, action) = frame_step(s, FrameEvent::FenceSignaled);
            &&& s.frame_id >= MAX_FRAMES_IN_FLIGHT <==> action is ReadTimestamps
            &&& action matches FrameAction::ReadTimestamps { first, count } ==> {
                &&& count == stamps.len()
                &&& forall|i: int| 0 <= i < count ==> #[trigger] stamps[i] == first + i
            }
        }),
{
    law_frame_is_in_order(p, primitives, index_counts, layouts);
}


proof fn lemma_cascades_words(cascades: Seq<Cascade>, c: int, k: int)
    requires
        0 <= c < cascades.len(),
        0 <= k < 20,
    ensures
        cascades_words(cascades)[20 * c + k] == cascades[c].words()[k],
        20 * c + k < cascades_words(cascades).len(),
    decreases cascades.len(),
{
    let earlier = cascades.drop_last();
    lemma_cascades_words_len(earlier);
    lemma_cascades_words_len(cascades);
    if c < earlier.len() {
        lemma_cascades_words(earlier, c, k);
    }
}

/// The shaders find the constants of a frame at their places among the words: the matrices, the
/// camera, the sizes, the number of the frame and the light.
pub proof fn law_shaders_find_frame(data: FrameData, k: int)
    requires
        0 <= k < 16,
    ensures
        ({
            let words = data.words();
            &&& 4 * words.len() == FRAME_DATA_SIZE
            &&& words[k] == data.view_proj@[k]
            &&& words[16 + k] == data.view@[k]
            &&& words[32 + k] == data.proj@[k]
            &&& words[48 + k] == data.inv_view@[k]
            &&& words[64 + k] == data.inv_proj@[k]
            &&& words[80 + k] == data.inv_view_proj@[k]
            &&& words[96 + k] == data.prev_view_proj@[k]
            &&& k < 3 ==> words[112 + k] == data.camera_pos@[k]
            &&& k < 2 ==> words[115 + k] == data.size@[k]
            &&& k < 2 ==> words[117 + k] == data.texel_size@[k]
            &&& k < 2 ==> words[119 + k] == data.size_half@[k]
            &&& k < 2 ==> words[121 + k] == data.texel_size_half@[k]
            &&& k < 2 ==> words[123 + k] == data.ndc_view_pixel_size@[k]
            &&& words[125] == data.frame_id
            &&& k < 3 ==> words[126 + k] == data.light_dir@[k]
            &&& words[209] == data.ao_slices
            &&& words[210] == data.ao_samples
            &&& words[211] == data.ao_radius
            &&& words[212] == data.ao_falloff_range
            &&& words[213] == data.ao_sample_distribution_power
            &&& words[214] == data.ao_thin_occluder_compensation
            &&& words[215] == data.ao_final_value_power
            &&& words[216] == data.debug_view
        }),
{
    lemma_cascades_words_len(data.cascades@);
}

/// The shaders find every cascade of a frame at its place among the words.
pub proof fn law_shaders_find_cascades(data: FrameData, c: int, k: int)
    requires
        0 <= c < CASCADES,
        0 <= k < 16,
    ensures
        ({
            let words = data.words();
            let at = 129 + 20 * c;
            &&& words[at + k] == data.cascades@[c].view_proj@[k]
            &&& k < 2 ==> words[at + 16 + k] == data.cascades@[c].texel_size@[k]
            &&& words[at + 18] == data.cascades@[c].near
            &&& words[at + 19] == data.cascades@[c].far
        }),
{
    let words = data.words();
    let inner = cascades_words(data.cascades@);
    lemma_cascades_words_len(data.cascades@);
    lemma_cascades_words(data.cascades@, c, k);
    lemma_cascades_words(
        data.cascades@,
        c,
        if k < 2 {
            16 + k
        } else {
            0
        },
    );
    lemma_cascades_words(data.cascades@, c, 18);
    lemma_cascades_words(data.cascades@, c, 19);
    assert(data.head_words().len() == 129);
    assert(words[129 + (20 * c + k)] == inner[20 * c + k]);
    assert(words[129 + (20 * c + 18)] == inner[20 * c + 18]);
    assert(words[129 + (20 * c + 19)] == inner[20 * c + 19]);
    if k < 2 {
        assert(words[129 + (20 * c + (16 + k))] == inner[20 * c + (16 + k)]);
    }
}

/// The commands that a renderer records are those of its frame: they draw at the size that the
/// screen is rendered at, with the data handed in, blend with the history of the frame of this
/// number, show the result at the size of the viewport in the image acquired, and write the
/// timestamps of the place of the frame.
pub proof fn law_renderer_records_its_frame(
    renderer: Renderer,
    data: DataAddresses,
    layouts: spec_fn(ImageSlot, int) -> i32,
    i: int,
)
    requires
        renderer.wf(),
        0 <= i < renderer.scene.primitives@.len() <= usize::MAX,
    ensures
        ({
            let commands = frame_commands(
                renderer.params(data),
                renderer.scene.primitives@,
                renderer.scene.index_counts@,
            );
            let after = record(commands, fresh_recording(layouts))->0;
            let n = (CASCADES + 1) * renderer.scene.primitives@.len();
            let size = renderer.screen.render_size;
            let written = ImageSlot::AoHistory(((renderer.frame_id + 1) % 2) as usize);
            &&& after.stamps[0] == renderer.frame_index * (PASS_COUNT + 1)
            &&& after.work[i] matches Work::DrawIndexed { payload, index_count, .. } && {
                &&& index_count == renderer.scene.index_counts@[i]
                &&& payload matches Some(PushPayload::Shadow(constants)) && {
                    &&& constants.frame_ptr == data.frame_ptr
                    &&& constants.objects_ptr == data.objects_ptr
                    &&& constants.materials_ptr == data.materials_ptr
                    &&& constants.object_id == renderer.scene.primitives@[i].object_id
                    &&& constants.material_id == renderer.scene.primitives@[i].material_id
                }
            }
            &&& after.work[n + 1] matches Work::Dispatch { payload, x, y, images, .. } && {
                &&& payload matches Some(PushPayload::Basic(constants)) && constants.frame_ptr
                    == data.frame_ptr
                &&& groups_cover(x, 16, size.width)
                &&& groups_cover(y, 16, size.height)
                &&& images.visible_to(
                    written,
                    0,
                    vk::STAGE_COMPUTE_SHADER,
                    vk::ACCESS_SHADER_STORAGE_WRITE,
                )
            }
            &&& after.work[n + 3] matches Work::Draw { scope, .. } && {
                &&& scope.area == renderer.screen.viewport_size
                &&& scope.color matches Some(color) && color.image == ImageSlot::Swapchain(
                    renderer.image_index,
                )
            }
        }),
{
    let p = renderer.params(data);
    let primitives = renderer.scene.primitives@;
    let index_counts = renderer.scene.index_counts@;
    law_frame_is_in_order(p, primitives, index_counts, layouts);
    law_frame_draws_scene(p, primitives, index_counts, layouts, 0, i);
    law_frame_lights_scene(p, primitives, index_counts, layouts);
    law_frame_reaches_screen(p, primitives, index_counts, layouts);
    assert(0 * primitives.len() + i == i);
}


/// What the renderer has created once fits what its frames do: a buffer of constants for each frame
/// in flight, that shaders read by address and that stays mapped for writing; a shadow map that the
/// passes of the cascades draw into, each a layer of its own, all of it, and that is read later;
/// timestamps for all frames in flight; and a user interface drawn as the screen is.
pub proof fn law_plan_fits_frames(cascade: u32)
    requires
        cascade < CASCADES,
    ensures
        ({
            let plan = renderer_plan();
            let shadowmap = plan.shadowmap;
            &&& plan.frame_buffer.info.size == FRAME_DATA_SIZE
            &&& plan.frame_buffer.info.usage == vk::BUFFER_USAGE_SHADER_DEVICE_ADDRESS
                | vk::BUFFER_USAGE_STORAGE_BUFFER
            &&& plan.frame_buffer.allocation.flags == vk::ALLOCATION_HOST_ACCESS_SEQUENTIAL_WRITE
                | vk::ALLOCATION_MAPPED
            &&& plan.frame_buffer.allocation.usage == MemoryUsage::Auto
            &&& plan.frame_buffer_count == MAX_FRAMES_IN_FLIGHT
            &&& shadowmap.image_type == vk::IMAGE_TYPE_2D
            &&& shadowmap.format == ImageSlot::Shadowmap.format()
            &&& shadowmap.extent.width == SHADOWMAP_SIZE
            &&& shadowmap.extent.height == SHADOWMAP_SIZE
            &&& shadowmap.extent.depth == 1
            &&& shadowmap.mip_levels == 1
            &&& shadowmap.array_layers == CASCADES
            &&& shadowmap.samples == vk::SAMPLES_TYPE_1
            &&& shadowmap.usage == vk::IMAGE_USAGE_DEPTH_STENCIL_ATTACHMENT
                | vk::IMAGE_USAGE_SAMPLED
            &&& plan.shadowmap_memory_flags == vk::ALLOCATION_DEDICATED_MEMORY
            &&& plan.query_type == vk::QUERY_TIMESTAMP
            &&& plan.query_count == MAX_FRAMES_IN_FLIGHT * (PASS_COUNT + 1)
            &&& plan.ui.color_format == ImageSlot::Swapchain(0).format()
            &&& plan.ui.depth_format == Some(ImageSlot::Depth.format())
            &&& plan.ui.in_flight_frames == MAX_FRAMES_IN_FLIGHT
            &&& plan.ui.enable_depth_test
            &&& plan.ui.enable_depth_write
            &&& plan.ui.samples == vk::SAMPLES_TYPE_1
            &&& layer_view(shadowmap, cascade).base_array_layer == cascade
            &&& layer_view(shadowmap, cascade).layer_count == 1
        }),
{
}


/// What is presented waits for the drawing of the same image: the semaphore that the commands of the
/// frame signal is the one that the screen waits for, and it is the one of the image that is shown.
/// The commands are those of the place of the frame, signal its fence, and wait for its image before
/// they put out colour.
pub proof fn law_presentation_waits_for_drawing(renderer: Renderer)
    requires
        renderer.wf(),
        renderer.image_exists(),
    ensures
        renderer.presented().wait_semaphore == renderer.submitted().signal_semaphore,
        renderer.presented().image_index == renderer.image_index,
        renderer.presented().swapchain == renderer.screen.swapchain,
        renderer.submitted().signal_semaphore
            == renderer.screen.render_complete_semaphores@[renderer.presented().image_index as int],
        renderer.submitted().command_buffer
            == renderer.ctx.command_buffers@[renderer.frame_index as int],
        renderer.submitted().fence == renderer.ctx.frame_fences@[renderer.frame_index as int],
        renderer.submitted().wait_semaphore
            == renderer.ctx.image_acquired_semaphores@[renderer.frame_index as int],
        renderer.submitted().wait_stage == ImageSlot::Swapchain(
            renderer.image_index,
        ).earlier_use().stage,
{
}

} // verus!
