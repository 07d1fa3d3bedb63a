//! The recording of a frame.
use crate::camera::CASCADES;
use crate::commands::{
    attachment_write, after_barrier, barrier_fits, covers, draw_fits, fresh_recording, lemma_record_concat, lemma_record_push,
    lemma_record_short, record, step, Attachment, BasicPushConstants, ClearValue, Command,
    ImageSlot, ImageStates, ImageUse, Mark, PrimaryPushConstants, PushPayload, Recording,
    RenderScope, ShadowPushConstants, SlotBarrier, Work,
};
use crate::pipelines::{PipelineSlot, DRAW_STAGES};
use crate::scene::PrimitiveData;
use crate::vk;
use crate::vk::{Extent2D, ImageBarrier, SubresourceRange};
use vstd::prelude::*;

verus! {

// The passes of a frame, in order.
pub const PASS_SHADOW: u32 = 0;
pub const PASS_PRIMARY: u32 = 1;
pub const PASS_AO: u32 = 2;
pub const PASS_AO_REPROJECT: u32 = 3;
pub const PASS_DEFERRED: u32 = 4;
pub const PASS_POSTFX: u32 = 5;
pub const PASS_UI: u32 = 6;

/// The number of passes.
pub const PASS_COUNT: u32 = 7;

/// The number of frames that may be in flight at once.
pub const MAX_FRAMES_IN_FLIGHT: u32 = 2;

/// The width and height of the shadow map.
pub const SHADOWMAP_SIZE: u32 = 2048;

/// What the recording of a frame depends on, besides the scene.
#[derive(Clone, Copy, Debug, PartialEq, Eq, Structural)]
pub struct FrameParams {
    pub frame_index: usize,
    pub frame_id: u64,
    pub image_index: usize,
    pub render_size: Extent2D,
    pub viewport_size: Extent2D,
    pub frame_ptr: u64,
    pub objects_ptr: u64,
    pub materials_ptr: u64,
}

/// The first timestamp of a frame in flight: each has one more than there are passes.
pub open spec fn query_base(frame_index: usize) -> u32 {
    (frame_index * (PASS_COUNT + 1)) as u32
}

/// The quotient rounded up.
pub open spec fn ceil_div(a: u32, b: u32) -> u32 {
    ((a + b - 1) / b as int) as u32
}

/// The image of history that a frame reads.
pub open spec fn history_read(frame_id: u64) -> usize {
    (frame_id % 2) as usize
}

/// The image of history that a frame writes.
pub open spec fn history_written(frame_id: u64) -> usize {
    (1 - frame_id % 2) as usize
}

/// A barrier on all levels there are of some layers of an image.
pub open spec fn transition(
    image: ImageSlot,
    src: (u64, u64),
    dst: (u64, u64),
    layouts: (i32, i32),
    aspect_mask: u32,
    layers: (u32, u32),
) -> SlotBarrier {
    SlotBarrier {
        image,
        barrier: ImageBarrier {
            src_stage: src.0,
            src_access: src.1,
            dst_stage: dst.0,
            dst_access: dst.1,
            old_layout: layouts.0,
            new_layout: layouts.1,
            range: SubresourceRange {
                aspect_mask,
                base_mip_level: 0,
                level_count: 1,
                base_array_layer: layers.0,
                layer_count: layers.1,
            },
        },
    }
}

pub(crate) fn make_transition(
    image: ImageSlot,
    src: (u64, u64),
    dst: (u64, u64),
    layouts: (i32, i32),
    aspect_mask: u32,
    layers: (u32, u32),
) -> (r: SlotBarrier)
    ensures
        r == transition(image, src, dst, layouts, aspect_mask, layers),
{
    SlotBarrier {
        image,
        barrier: ImageBarrier {
            src_stage: src.0,
            src_access: src.1,
            dst_stage: dst.0,
            dst_access: dst.1,
            old_layout: layouts.0,
            new_layout: layouts.1,
            range: SubresourceRange {
                aspect_mask,
                base_mip_level: 0,
                level_count: 1,
                base_array_layer: layers.0,
                layer_count: layers.1,
            },
        },
    }
}

/// The stages in which depth is tested.
pub const DEPTH_STAGES: u64 = vk::STAGE_EARLY_FRAGMENT_TESTS | vk::STAGE_LATE_FRAGMENT_TESTS;

/// Reading and writing of colour attachments.
pub const COLOR_ACCESS: u64 = vk::ACCESS_COLOR_ATTACHMENT_READ | vk::ACCESS_COLOR_ATTACHMENT_WRITE;

/// A depth attachment that starts out as far away as can be and is kept.
pub open spec fn depth_attachment(
    image: ImageSlot,
    layer: Option<u32>,
    layout: i32,
    store_op: i32,
) -> Attachment {
    Attachment {
        image,
        layer,
        layout,
        load_op: vk::LOAD_OP_CLEAR,
        store_op,
        clear: ClearValue::DepthStencil { depth: vk::F32_ONE, stencil: 0 },
    }
}

pub(crate) fn make_depth_attachment(
    image: ImageSlot,
    layer: Option<u32>,
    layout: i32,
    store_op: i32,
) -> (r: Attachment)
    ensures
        r == depth_attachment(image, layer, layout, store_op),
{
    Attachment {
        image,
        layer,
        layout,
        load_op: vk::LOAD_OP_CLEAR,
        store_op,
        clear: ClearValue::DepthStencil { depth: vk::F32_ONE, stencil: 0 },
    }
}

/// A colour attachment that is cleared and kept.
pub open spec fn color_attachment(image: ImageSlot, clear: ClearValue) -> Attachment {
    Attachment {
        image,
        layer: None,
        layout: vk::LAYOUT_ATTACHMENT_OPTIMAL,
        load_op: vk::LOAD_OP_CLEAR,
        store_op: vk::STORE_OP_STORE,
        clear,
    }
}

pub(crate) fn make_color_attachment(image: ImageSlot, clear: ClearValue) -> (r: Attachment)
    ensures
        r == color_attachment(image, clear),
{
    Attachment {
        image,
        layer: None,
        layout: vk::LAYOUT_ATTACHMENT_OPTIMAL,
        load_op: vk::LOAD_OP_CLEAR,
        store_op: vk::STORE_OP_STORE,
        clear,
    }
}

/// The end of a pass, as far as timestamps go.
pub open spec fn timestamp(p: FrameParams, pass: u32) -> Command {
    Command::Timestamp {
        stage: vk::STAGE_BOTTOM_OF_PIPE,
        query: (query_base(p.frame_index) + pass) as u32,
    }
}

/// What is pushed for a primitive: in the shadow pass, with the cascade that is drawn.
pub open spec fn draw_payload(
    p: FrameParams,
    primitive: PrimitiveData,
    cascade: Option<u32>,
) -> PushPayload {
    match cascade {
        Some(cascade_index) => PushPayload::Shadow(
            ShadowPushConstants {
                frame_ptr: p.frame_ptr,
                objects_ptr: p.objects_ptr,
                materials_ptr: p.materials_ptr,
                object_id: primitive.object_id,
                material_id: primitive.material_id,
                cascade_index,
                _pad: 0,
            },
        ),
        None => PushPayload::Primary(
            PrimaryPushConstants {
                frame_ptr: p.frame_ptr,
                objects_ptr: p.objects_ptr,
                materials_ptr: p.materials_ptr,
                object_id: primitive.object_id,
                material_id: primitive.material_id,
            },
        ),
    }
}

/// The pipeline that draws a cascade, or else the geometry.
pub open spec fn draw_pipeline(cascade: Option<u32>) -> PipelineSlot {
    match cascade {
        Some(_) => PipelineSlot::Shadow,
        None => PipelineSlot::Primary,
    }
}

/// Draws the first primitives of the scene, one after the other.
pub open spec fn draws(
    p: FrameParams,
    primitives: Seq<PrimitiveData>,
    index_counts: Seq<u32>,
    cascade: Option<u32>,
    count: nat,
) -> Seq<Command>
    decreases count,
{
    if count == 0 {
        Seq::empty()
    } else {
        let i = (count - 1) as usize;
        draws(p, primitives, index_counts, cascade, (count - 1) as nat).push(
            Command::BindVertexBuffer { primitive: i },
        ).push(Command::BindIndexBuffer { primitive: i, index_type: vk::INDEX_UINT32 }).push(
            Command::PushConstants {
                pipeline: draw_pipeline(cascade),
                stages: DRAW_STAGES,
                payload: draw_payload(p, primitives[count - 1], cascade),
            },
        ).push(Command::DrawIndexed { index_count: index_counts[count - 1], instance_count: 1 })
    }
}

/// The size of the shadow map.
pub open spec fn shadow_extent() -> Extent2D {
    Extent2D { width: SHADOWMAP_SIZE, height: SHADOWMAP_SIZE }
}

/// The timestamps are made ready and the first one is written.
pub open spec fn start_commands(p: FrameParams) -> Seq<Command> {
    seq![
        Command::ResetQueries { base: query_base(p.frame_index), count: (PASS_COUNT + 1) as u32 },
        Command::Timestamp {
            stage: vk::STAGE_TOP_OF_PIPE,
            query: (query_base(p.frame_index) + PASS_SHADOW) as u32,
        },
    ]
}

/// A layer of the shadow map is opened for drawing.
pub open spec fn cascade_start(cascade: u32) -> Seq<Command> {
    seq![
        Command::Barriers {
            first: transition(
                ImageSlot::Shadowmap,
                (vk::STAGE_NONE, vk::ACCESS_NONE),
                (DEPTH_STAGES, vk::ACCESS_DEPTH_STENCIL_ATTACHMENT_WRITE),
                (vk::LAYOUT_UNDEFINED, vk::LAYOUT_DEPTH_ATTACHMENT_OPTIMAL),
                vk::ASPECT_DEPTH,
                (cascade, 1),
            ),
            second: None,
            third: None,
        },
        Command::BeginRendering {
            area: shadow_extent(),
            color: None,
            depth: Some(
                depth_attachment(
                    ImageSlot::Shadowmap,
                    Some(cascade),
                    vk::LAYOUT_DEPTH_ATTACHMENT_OPTIMAL,
                    vk::STORE_OP_STORE,
                ),
            ),
        },
        Command::Viewport(shadow_extent()),
        Command::Scissor(shadow_extent()),
        Command::BindPipeline {
            bind_point: vk::BIND_POINT_GRAPHICS,
            pipeline: PipelineSlot::Shadow,
        },
    ]
}

/// The first cascades are drawn, each into its layer of the shadow map.
pub open spec fn shadow_commands(
    p: FrameParams,
    primitives: Seq<PrimitiveData>,
    index_counts: Seq<u32>,
    cascades: nat,
) -> Seq<Command>
    decreases cascades,
{
    if cascades == 0 {
        Seq::empty()
    } else {
        let cascade = (cascades - 1) as u32;
        shadow_commands(p, primitives, index_counts, (cascades - 1) as nat) + cascade_start(cascade)
            + draws(p, primitives, index_counts, Some(cascade), primitives.len()) + seq![
            Command::EndRendering,
        ]
    }
}

/// The geometry buffer is opened for drawing.
pub open spec fn primary_start(p: FrameParams) -> Seq<Command> {
    seq![
        Command::Barriers {
            first: transition(
                ImageSlot::Shadowmap,
                (DEPTH_STAGES, vk::ACCESS_DEPTH_STENCIL_ATTACHMENT_WRITE),
                (vk::STAGE_FRAGMENT_SHADER, vk::ACCESS_DEPTH_STENCIL_ATTACHMENT_READ),
                (vk::LAYOUT_DEPTH_ATTACHMENT_OPTIMAL, vk::LAYOUT_DEPTH_READ_ONLY_OPTIMAL),
                vk::ASPECT_DEPTH,
                (0, CASCADES as u32),
            ),
            second: Some(
                transition(
                    ImageSlot::Gbuffer,
                    (vk::STAGE_COLOR_ATTACHMENT_OUTPUT, vk::ACCESS_NONE),
                    (vk::STAGE_COLOR_ATTACHMENT_OUTPUT, COLOR_ACCESS),
                    (vk::LAYOUT_UNDEFINED, vk::LAYOUT_ATTACHMENT_OPTIMAL),
                    vk::ASPECT_COLOR,
                    (0, 1),
                ),
            ),
            third: Some(
                transition(
                    ImageSlot::Depth,
                    (
                        vk::STAGE_LATE_FRAGMENT_TESTS,
                        vk::ACCESS_DEPTH_STENCIL_ATTACHMENT_WRITE,
                    ),
                    (
                        vk::STAGE_EARLY_FRAGMENT_TESTS,
                        vk::ACCESS_DEPTH_STENCIL_ATTACHMENT_WRITE,
                    ),
                    (vk::LAYOUT_UNDEFINED, vk::LAYOUT_ATTACHMENT_OPTIMAL),
                    vk::ASPECT_DEPTH,
                    (0, 1),
                ),
            ),
        },
        timestamp(p, PASS_PRIMARY),
        Command::BeginRendering {
            area: p.render_size,
            color: Some(
                color_attachment(
                    ImageSlot::Gbuffer,
                    ClearValue::Uint { r: 0, g: 0, b: 0, a: 0 },
                ),
            ),
            depth: Some(
                depth_attachment(
                    ImageSlot::Depth,
                    None,
                    vk::LAYOUT_ATTACHMENT_OPTIMAL,
                    vk::STORE_OP_STORE,
                ),
            ),
        },
        Command::Viewport(p.render_size),
        Command::Scissor(p.render_size),
        Command::BindPipeline {
            bind_point: vk::BIND_POINT_GRAPHICS,
            pipeline: PipelineSlot::Primary,
        },
        Command::BindDescriptors {
            bind_point: vk::BIND_POINT_GRAPHICS,
            pipeline: PipelineSlot::Primary,
        },
    ]
}

/// The part of a compute pass after its barriers: work groups of the given size cover the image.
pub open spec fn compute_pass(p: FrameParams, pipeline: PipelineSlot, group: u32) -> Seq<Command> {
    seq![
        Command::BindPipeline { bind_point: vk::BIND_POINT_COMPUTE, pipeline },
        Command::BindDescriptors { bind_point: vk::BIND_POINT_COMPUTE, pipeline },
        Command::PushConstants {
            pipeline,
            stages: vk::SHADER_COMPUTE,
            payload: PushPayload::Basic(BasicPushConstants { frame_ptr: p.frame_ptr }),
        },
        Command::Dispatch {
            x: ceil_div(p.render_size.width, group),
            y: ceil_div(p.render_size.height, group),
            z: 1,
        },
    ]
}

/// The inputs of ambient occlusion are made readable and its output writable.
pub open spec fn ao_start(p: FrameParams) -> Seq<Command> {
    seq![
        Command::Barriers {
            first: transition(
                ImageSlot::Gbuffer,
                (vk::STAGE_COLOR_ATTACHMENT_OUTPUT, vk::ACCESS_COLOR_ATTACHMENT_WRITE),
                (vk::STAGE_FRAGMENT_SHADER, vk::ACCESS_SHADER_SAMPLED_READ),
                (vk::LAYOUT_ATTACHMENT_OPTIMAL, vk::LAYOUT_READ_ONLY_OPTIMAL),
                vk::ASPECT_COLOR,
                (0, 1),
            ),
            second: Some(
                transition(
                    ImageSlot::Ao,
                    (vk::STAGE_NONE, vk::ACCESS_NONE),
                    (vk::STAGE_COMPUTE_SHADER, vk::ACCESS_SHADER_STORAGE_WRITE),
                    (vk::LAYOUT_UNDEFINED, vk::LAYOUT_GENERAL),
                    vk::ASPECT_COLOR,
                    (0, 1),
                ),
            ),
            third: Some(
                transition(
                    ImageSlot::Depth,
                    (DEPTH_STAGES, vk::ACCESS_DEPTH_STENCIL_ATTACHMENT_WRITE),
                    (vk::STAGE_COMPUTE_SHADER, vk::ACCESS_SHADER_SAMPLED_READ),
                    (vk::LAYOUT_ATTACHMENT_OPTIMAL, vk::LAYOUT_DEPTH_READ_ONLY_OPTIMAL),
                    vk::ASPECT_DEPTH,
                    (0, 1),
                ),
            ),
        },
        timestamp(p, PASS_AO),
    ]
}

/// Ambient occlusion is made readable, and both images of history are opened.
pub open spec fn reproject_start(p: FrameParams) -> Seq<Command> {
    seq![
        Command::Barriers {
            first: transition(
                ImageSlot::Ao,
                (vk::STAGE_COMPUTE_SHADER, vk::ACCESS_SHADER_STORAGE_WRITE),
                (vk::STAGE_COMPUTE_SHADER, vk::ACCESS_SHADER_SAMPLED_READ),
                (vk::LAYOUT_GENERAL, vk::LAYOUT_READ_ONLY_OPTIMAL),
                vk::ASPECT_COLOR,
                (0, 1),
            ),
            second: Some(
                transition(
                    ImageSlot::AoHistory(history_read(p.frame_id)),
                    (vk::STAGE_NONE, vk::ACCESS_NONE),
                    (vk::STAGE_COMPUTE_SHADER, vk::ACCESS_SHADER_SAMPLED_READ),
                    (vk::LAYOUT_UNDEFINED, vk::LAYOUT_GENERAL),
                    vk::ASPECT_COLOR,
                    (0, 1),
                ),
            ),
            third: Some(
                transition(
                    ImageSlot::AoHistory(history_written(p.frame_id)),
                    (vk::STAGE_NONE, vk::ACCESS_NONE),
                    (vk::STAGE_COMPUTE_SHADER, vk::ACCESS_SHADER_STORAGE_WRITE),
                    (vk::LAYOUT_UNDEFINED, vk::LAYOUT_GENERAL),
                    vk::ASPECT_COLOR,
                    (0, 1),
                ),
            ),
        },
        timestamp(p, PASS_AO_REPROJECT),
    ]
}

/// The blended ambient occlusion is made readable and the lit image writable.
pub open spec fn deferred_start(p: FrameParams) -> Seq<Command> {
    seq![
        Command::Barriers {
            first: transition(
                ImageSlot::AoHistory(history_written(p.frame_id)),
                (vk::STAGE_COMPUTE_SHADER, vk::ACCESS_SHADER_STORAGE_WRITE),
                (vk::STAGE_COMPUTE_SHADER, vk::ACCESS_SHADER_SAMPLED_READ),
                (vk::LAYOUT_GENERAL, vk::LAYOUT_GENERAL),
                vk::ASPECT_COLOR,
                (0, 1),
            ),
            second: Some(
                transition(
                    ImageSlot::ColorOutput,
                    (vk::STAGE_NONE, vk::ACCESS_NONE),
                    (vk::STAGE_COMPUTE_SHADER, vk::ACCESS_SHADER_STORAGE_WRITE),
                    (vk::LAYOUT_UNDEFINED, vk::LAYOUT_GENERAL),
                    vk::ASPECT_COLOR,
                    (0, 1),
                ),
            ),
            third: None,
        },
        timestamp(p, PASS_DEFERRED),
    ]
}

/// The lit image is drawn to the screen, as one triangle that covers it.
pub open spec fn postfx_commands(p: FrameParams) -> Seq<Command> {
    seq![
        Command::Barriers {
            first: transition(
                ImageSlot::Swapchain(p.image_index),
                (vk::STAGE_COLOR_ATTACHMENT_OUTPUT, vk::ACCESS_NONE),
                (vk::STAGE_COLOR_ATTACHMENT_OUTPUT, COLOR_ACCESS),
                (vk::LAYOUT_UNDEFINED, vk::LAYOUT_ATTACHMENT_OPTIMAL),
                vk::ASPECT_COLOR,
                (0, 1),
            ),
            second: Some(
                transition(
                    ImageSlot::ColorOutput,
                    (vk::STAGE_COMPUTE_SHADER, vk::ACCESS_SHADER_STORAGE_WRITE),
                    (vk::STAGE_FRAGMENT_SHADER, vk::ACCESS_SHADER_SAMPLED_READ),
                    (vk::LAYOUT_GENERAL, vk::LAYOUT_READ_ONLY_OPTIMAL),
                    vk::ASPECT_COLOR,
                    (0, 1),
                ),
            ),
            third: None,
        },
        timestamp(p, PASS_POSTFX),
        Command::BeginRendering {
            area: p.viewport_size,
            color: Some(
                color_attachment(
                    ImageSlot::Swapchain(p.image_index),
                    ClearValue::Float {
                        r: vk::F32_ZERO,
                        g: vk::F32_ZERO,
                        b: vk::F32_ZERO,
                        a: vk::F32_ONE,
                    },
                ),
            ),
            depth: None,
        },
        Command::Viewport(p.viewport_size),
        Command::Scissor(p.viewport_size),
        Command::BindPipeline {
            bind_point: vk::BIND_POINT_GRAPHICS,
            pipeline: PipelineSlot::PostFx,
        },
        Command::BindDescriptors {
            bind_point: vk::BIND_POINT_GRAPHICS,
            pipeline: PipelineSlot::PostFx,
        },
        Command::PushConstants {
            pipeline: PipelineSlot::PostFx,
            stages: DRAW_STAGES,
            payload: PushPayload::Basic(BasicPushConstants { frame_ptr: p.frame_ptr }),
        },
        Command::Draw { vertex_count: 3, instance_count: 1 },
    ]
}

/// The user interface is drawn on top, and the image is made ready to be shown.
pub open spec fn ui_commands(p: FrameParams) -> Seq<Command> {
    seq![
        timestamp(p, PASS_UI),
        Command::DrawUi,
        Command::EndRendering,
        timestamp(p, PASS_COUNT),
        Command::Barriers {
            first: transition(
                ImageSlot::Swapchain(p.image_index),
                (vk::STAGE_COLOR_ATTACHMENT_OUTPUT, vk::ACCESS_COLOR_ATTACHMENT_WRITE),
                (vk::STAGE_COLOR_ATTACHMENT_OUTPUT, vk::ACCESS_NONE),
                (vk::LAYOUT_ATTACHMENT_OPTIMAL, vk::LAYOUT_PRESENT_SRC_KHR),
                vk::ASPECT_COLOR,
                (0, 1),
            ),
            second: None,
            third: None,
        },
    ]
}

/// The commands of a frame, pass by pass.
pub open spec fn frame_commands(
    p: FrameParams,
    primitives: Seq<PrimitiveData>,
    index_counts: Seq<u32>,
) -> Seq<Command> {
    start_commands(p) + shadow_commands(p, primitives, index_counts, CASCADES as nat)
        + primary_start(p) + draws(p, primitives, index_counts, None, primitives.len()) + seq![
        Command::EndRendering,
    ] + ao_start(p) + compute_pass(p, PipelineSlot::Ao, 16) + reproject_start(p) + compute_pass(
        p,
        PipelineSlot::AoReproject,
        16,
    ) + deferred_start(p) + compute_pass(p, PipelineSlot::Deferred, 8) + postfx_commands(p)
        + ui_commands(p)
}

fn divide_up(a: u32, b: u32) -> (r: u32)
    requires
        b > 0,
    ensures
        r == ceil_div(a, b),
{
    let q: u32 = a / b;
    let rest: u32 = a % b;
    assert(a == b * q + rest) by {
        vstd::arithmetic::div_mod::lemma_fundamental_div_mod(a as int, b as int);
    }
    if rest == 0 {
        assert((a + b - 1) / b as int == q) by {
            vstd::arithmetic::div_mod::lemma_fundamental_div_mod_converse(
                a + b - 1,
                b as int,
                q as int,
                b - 1,
            );
        }
        q
    } else {
        assert((a + b - 1) / b as int == q + 1) by {
            assert(b * (q + 1) == b * q + b) by (nonlinear_arith);
            vstd::arithmetic::div_mod::lemma_fundamental_div_mod_converse(
                a + b - 1,
                b as int,
                q + 1,
                rest - 1,
            );
        }
        assert(q < u32::MAX) by {
            if q == u32::MAX {
                assert(b * q >= q) by (nonlinear_arith)
                    requires
                        b >= 1,
                        q >= 0,
                ;
            }
        }
        q + 1
    }
}

/// The first timestamp of a frame in flight.
pub fn first_query(frame_index: usize) -> (r: u32)
    requires
        frame_index < MAX_FRAMES_IN_FLIGHT,
    ensures
        r == query_base(frame_index),
{
    let index: u32 = frame_index as u32;
    assert(index * (PASS_COUNT + 1) <= PASS_COUNT + 1) by (nonlinear_arith)
        requires
            index <= 1,
    ;
    index * (PASS_COUNT + 1)
}

/// The images of history that a frame reads and writes.
pub fn history_slots(frame_id: u64) -> (r: (usize, usize))
    ensures
        r == (history_read(frame_id), history_written(frame_id)),
{
    let low: u64 = frame_id % 2;
    (low as usize, (1 - low) as usize)
}

fn stamp(p: &FrameParams, pass: u32) -> (r: Command)
    requires
        p.frame_index < MAX_FRAMES_IN_FLIGHT,
        pass <= PASS_COUNT,
    ensures
        r == timestamp(*p, pass),
{
    Command::Timestamp {
        stage: vk::STAGE_BOTTOM_OF_PIPE,
        query: first_query(p.frame_index) + pass,
    }
}

fn push_draws(
    out: &mut Vec<Command>,
    p: &FrameParams,
    primitives: &Vec<PrimitiveData>,
    index_counts: &Vec<u32>,
    cascade: Option<u32>,
)
    requires
        primitives@.len() == index_counts@.len(),
    ensures
        final(out)@ == old(out)@ + draws(
            *p,
            primitives@,
            index_counts@,
            cascade,
            primitives@.len(),
        ),
{
    let ghost before = out@;
    let mut i: usize = 0;
    assert(out@ =~= before + draws(*p, primitives@, index_counts@, cascade, 0));
    while i < primitives.len()
        invariant
            i <= primitives@.len(),
            primitives@.len() == index_counts@.len(),
            out@ == before + draws(*p, primitives@, index_counts@, cascade, i as nat),
        decreases primitives@.len() - i,
    {
        out.push(Command::BindVertexBuffer { primitive: i });
        out.push(Command::BindIndexBuffer { primitive: i, index_type: vk::INDEX_UINT32 });
        let object_id = primitives[i].object_id;
        let material_id = primitives[i].material_id;
        match cascade {
            Some(cascade_index) => out.push(
                Command::PushConstants {
                    pipeline: PipelineSlot::Shadow,
                    stages: DRAW_STAGES,
                    payload: PushPayload::Shadow(
                        ShadowPushConstants {
                            frame_ptr: p.frame_ptr,
                            objects_ptr: p.objects_ptr,
                            materials_ptr: p.materials_ptr,
                            object_id,
                            material_id,
                            cascade_index,
                            _pad: 0,
                        },
                    ),
                },
            ),
            None => out.push(
                Command::PushConstants {
                    pipeline: PipelineSlot::Primary,
                    stages: DRAW_STAGES,
                    payload: PushPayload::Primary(
                        PrimaryPushConstants {
                            frame_ptr: p.frame_ptr,
                            objects_ptr: p.objects_ptr,
                            materials_ptr: p.materials_ptr,
                            object_id,
                            material_id,
                        },
                    ),
                },
            ),
        }
        out.push(Command::DrawIndexed { index_count: index_counts[i], instance_count: 1 });
        i = i + 1;
        assert(out@ =~= before + draws(*p, primitives@, index_counts@, cascade, i as nat));
    }
}

fn push_shadow_pass(
    out: &mut Vec<Command>,
    p: &FrameParams,
    primitives: &Vec<PrimitiveData>,
    index_counts: &Vec<u32>,
)
    requires
        primitives@.len() == index_counts@.len(),
    ensures
        final(out)@ == old(out)@ + shadow_commands(
            *p,
            primitives@,
            index_counts@,
            CASCADES as nat,
        ),
{
    let ghost before = out@;
    let size = Extent2D { width: SHADOWMAP_SIZE, height: SHADOWMAP_SIZE };
    let mut cascade: u32 = 0;
    assert(out@ =~= before + shadow_commands(*p, primitives@, index_counts@, 0));
    while cascade < CASCADES as u32
        invariant
            cascade <= CASCADES,
            size == shadow_extent(),
            primitives@.len() == index_counts@.len(),
            out@ == before + shadow_commands(*p, primitives@, index_counts@, cascade as nat),
        decreases CASCADES - cascade,
    {
        let ghost start = out@;
        out.push(
            Command::Barriers {
                first: make_transition(
                    ImageSlot::Shadowmap,
                    (vk::STAGE_NONE, vk::ACCESS_NONE),
                    (DEPTH_STAGES, vk::ACCESS_DEPTH_STENCIL_ATTACHMENT_WRITE),
                    (vk::LAYOUT_UNDEFINED, vk::LAYOUT_DEPTH_ATTACHMENT_OPTIMAL),
                    vk::ASPECT_DEPTH,
                    (cascade, 1),
                ),
                second: None,
                third: None,
            },
        );
        out.push(
            Command::BeginRendering {
                area: size,
                color: None,
                depth: Some(
                    make_depth_attachment(
                        ImageSlot::Shadowmap,
                        Some(cascade),
                        vk::LAYOUT_DEPTH_ATTACHMENT_OPTIMAL,
                        vk::STORE_OP_STORE,
                    ),
                ),
            },
        );
        out.push(Command::Viewport(size));
        out.push(Command::Scissor(size));
        out.push(
            Command::BindPipeline {
                bind_point: vk::BIND_POINT_GRAPHICS,
                pipeline: PipelineSlot::Shadow,
            },
        );
        assert(out@ =~= start + cascade_start(cascade));
        push_draws(out, p, primitives, index_counts, Some(cascade));
        out.push(Command::EndRendering);
        cascade = cascade + 1;
        assert(out@ =~= before + shadow_commands(*p, primitives@, index_counts@, cascade as nat));
    }
}

fn push_primary_pass(
    out: &mut Vec<Command>,
    p: &FrameParams,
    primitives: &Vec<PrimitiveData>,
    index_counts: &Vec<u32>,
)
    requires
        primitives@.len() == index_counts@.len(),
        p.frame_index < MAX_FRAMES_IN_FLIGHT,
    ensures
        final(out)@ == old(out)@ + primary_start(*p) + draws(
            *p,
            primitives@,
            index_counts@,
            None,
            primitives@.len(),
        ) + seq![Command::EndRendering],
{
    let ghost before = out@;
    out.push(
        Command::Barriers {
            first: make_transition(
                ImageSlot::Shadowmap,
                (DEPTH_STAGES, vk::ACCESS_DEPTH_STENCIL_ATTACHMENT_WRITE),
                (vk::STAGE_FRAGMENT_SHADER, vk::ACCESS_DEPTH_STENCIL_ATTACHMENT_READ),
                (vk::LAYOUT_DEPTH_ATTACHMENT_OPTIMAL, vk::LAYOUT_DEPTH_READ_ONLY_OPTIMAL),
                vk::ASPECT_DEPTH,
                (0, CASCADES as u32),
            ),
            second: Some(
                make_transition(
                    ImageSlot::Gbuffer,
                    (vk::STAGE_COLOR_ATTACHMENT_OUTPUT, vk::ACCESS_NONE),
                    (vk::STAGE_COLOR_ATTACHMENT_OUTPUT, COLOR_ACCESS),
                    (vk::LAYOUT_UNDEFINED, vk::LAYOUT_ATTACHMENT_OPTIMAL),
                    vk::ASPECT_COLOR,
                    (0, 1),
                ),
            ),
            third: Some(
                make_transition(
                    ImageSlot::Depth,
                    (vk::STAGE_LATE_FRAGMENT_TESTS, vk::ACCESS_DEPTH_STENCIL_ATTACHMENT_WRITE),
                    (vk::STAGE_EARLY_FRAGMENT_TESTS, vk::ACCESS_DEPTH_STENCIL_ATTACHMENT_WRITE),
                    (vk::LAYOUT_UNDEFINED, vk::LAYOUT_ATTACHMENT_OPTIMAL),
                    vk::ASPECT_DEPTH,
                    (0, 1),
                ),
            ),
        },
    );
    out.push(stamp(p, PASS_PRIMARY));
    out.push(
        Command::BeginRendering {
            area: p.render_size,
            color: Some(
                make_color_attachment(
                    ImageSlot::Gbuffer,
                    ClearValue::Uint { r: 0, g: 0, b: 0, a: 0 },
                ),
            ),
            depth: Some(
                make_depth_attachment(
                    ImageSlot::Depth,
                    None,
                    vk::LAYOUT_ATTACHMENT_OPTIMAL,
                    vk::STORE_OP_STORE,
                ),
            ),
        },
    );
    out.push(Command::Viewport(p.render_size));
    out.push(Command::Scissor(p.render_size));
    out.push(
        Command::BindPipeline {
            bind_point: vk::BIND_POINT_GRAPHICS,
            pipeline: PipelineSlot::Primary,
        },
    );
    out.push(
        Command::BindDescriptors {
            bind_point: vk::BIND_POINT_GRAPHICS,
            pipeline: PipelineSlot::Primary,
        },
    );
    assert(out@ =~= before + primary_start(*p));
    push_draws(out, p, primitives, index_counts, None);
    out.push(Command::EndRendering);
    assert(out@ =~= before + primary_start(*p) + draws(
        *p,
        primitives@,
        index_counts@,
        None,
        primitives@.len(),
    ) + seq![Command::EndRendering]);
}

fn push_compute(out: &mut Vec<Command>, p: &FrameParams, pipeline: PipelineSlot, group: u32)
    requires
        group > 0,
    ensures
        final(out)@ == old(out)@ + compute_pass(*p, pipeline, group),
{
    let ghost before = out@;
    out.push(Command::BindPipeline { bind_point: vk::BIND_POINT_COMPUTE, pipeline });
    out.push(Command::BindDescriptors { bind_point: vk::BIND_POINT_COMPUTE, pipeline });
    out.push(
        Command::PushConstants {
            pipeline,
            stages: vk::SHADER_COMPUTE,
            payload: PushPayload::Basic(BasicPushConstants { frame_ptr: p.frame_ptr }),
        },
    );
    out.push(
        Command::Dispatch {
            x: divide_up(p.render_size.width, group),
            y: divide_up(p.render_size.height, group),
            z: 1,
        },
    );
    assert(out@ =~= before + compute_pass(*p, pipeline, group));
}

fn push_ao_start(out: &mut Vec<Command>, p: &FrameParams)
    requires
        p.frame_index < MAX_FRAMES_IN_FLIGHT,
    ensures
        final(out)@ == old(out)@ + ao_start(*p),
{
    let ghost before = out@;
    out.push(
        Command::Barriers {
            first: make_transition(
                ImageSlot::Gbuffer,
                (vk::STAGE_COLOR_ATTACHMENT_OUTPUT, vk::ACCESS_COLOR_ATTACHMENT_WRITE),
                (vk::STAGE_FRAGMENT_SHADER, vk::ACCESS_SHADER_SAMPLED_READ),
                (vk::LAYOUT_ATTACHMENT_OPTIMAL, vk::LAYOUT_READ_ONLY_OPTIMAL),
                vk::ASPECT_COLOR,
                (0, 1),
            ),
            second: Some(
                make_transition(
                    ImageSlot::Ao,
                    (vk::STAGE_NONE, vk::ACCESS_NONE),
                    (vk::STAGE_COMPUTE_SHADER, vk::ACCESS_SHADER_STORAGE_WRITE),
                    (vk::LAYOUT_UNDEFINED, vk::LAYOUT_GENERAL),
                    vk::ASPECT_COLOR,
                    (0, 1),
                ),
            ),
            third: Some(
                make_transition(
                    ImageSlot::Depth,
                    (DEPTH_STAGES, vk::ACCESS_DEPTH_STENCIL_ATTACHMENT_WRITE),
                    (vk::STAGE_COMPUTE_SHADER, vk::ACCESS_SHADER_SAMPLED_READ),
                    (vk::LAYOUT_ATTACHMENT_OPTIMAL, vk::LAYOUT_DEPTH_READ_ONLY_OPTIMAL),
                    vk::ASPECT_DEPTH,
                    (0, 1),
                ),
            ),
        },
    );
    out.push(stamp(p, PASS_AO));
    assert(out@ =~= before + ao_start(*p));
}

fn push_reproject_start(out: &mut Vec<Command>, p: &FrameParams)
    requires
        p.frame_index < MAX_FRAMES_IN_FLIGHT,
    ensures
        final(out)@ == old(out)@ + reproject_start(*p),
{
    let ghost before = out@;
    let (read, written) = history_slots(p.frame_id);
    out.push(
        Command::Barriers {
            first: make_transition(
                ImageSlot::Ao,
                (vk::STAGE_COMPUTE_SHADER, vk::ACCESS_SHADER_STORAGE_WRITE),
                (vk::STAGE_COMPUTE_SHADER, vk::ACCESS_SHADER_SAMPLED_READ),
                (vk::LAYOUT_GENERAL, vk::LAYOUT_READ_ONLY_OPTIMAL),
                vk::ASPECT_COLOR,
                (0, 1),
            ),
            second: Some(
                make_transition(
                    ImageSlot::AoHistory(read),
                    (vk::STAGE_NONE, vk::ACCESS_NONE),
                    (vk::STAGE_COMPUTE_SHADER, vk::ACCESS_SHADER_SAMPLED_READ),
                    (vk::LAYOUT_UNDEFINED, vk::LAYOUT_GENERAL),
                    vk::ASPECT_COLOR,
                    (0, 1),
                ),
            ),
            third: Some(
                make_transition(
                    ImageSlot::AoHistory(written),
                    (vk::STAGE_NONE, vk::ACCESS_NONE),
                    (vk::STAGE_COMPUTE_SHADER, vk::ACCESS_SHADER_STORAGE_WRITE),
                    (vk::LAYOUT_UNDEFINED, vk::LAYOUT_GENERAL),
                    vk::ASPECT_COLOR,
                    (0, 1),
                ),
            ),
        },
    );
    out.push(stamp(p, PASS_AO_REPROJECT));
    assert(out@ =~= before + reproject_start(*p));
}

fn push_deferred_start(out: &mut Vec<Command>, p: &FrameParams)
    requires
        p.frame_index < MAX_FRAMES_IN_FLIGHT,
    ensures
        final(out)@ == old(out)@ + deferred_start(*p),
{
    let ghost before = out@;
    let (_, written) = history_slots(p.frame_id);
    out.push(
        Command::Barriers {
            first: make_transition(
                ImageSlot::AoHistory(written),
                (vk::STAGE_COMPUTE_SHADER, vk::ACCESS_SHADER_STORAGE_WRITE),
                (vk::STAGE_COMPUTE_SHADER, vk::ACCESS_SHADER_SAMPLED_READ),
                (vk::LAYOUT_GENERAL, vk::LAYOUT_GENERAL),
                vk::ASPECT_COLOR,
                (0, 1),
            ),
            second: Some(
                make_transition(
                    ImageSlot::ColorOutput,
                    (vk::STAGE_NONE, vk::ACCESS_NONE),
                    (vk::STAGE_COMPUTE_SHADER, vk::ACCESS_SHADER_STORAGE_WRITE),
                    (vk::LAYOUT_UNDEFINED, vk::LAYOUT_GENERAL),
                    vk::ASPECT_COLOR,
                    (0, 1),
                ),
            ),
            third: None,
        },
    );
    out.push(stamp(p, PASS_DEFERRED));
    assert(out@ =~= before + deferred_start(*p));
}

fn push_postfx(out: &mut Vec<Command>, p: &FrameParams)
    requires
        p.frame_index < MAX_FRAMES_IN_FLIGHT,
    ensures
        final(out)@ == old(out)@ + postfx_commands(*p),
{
    let ghost before = out@;
    out.push(
        Command::Barriers {
            first: make_transition(
                ImageSlot::Swapchain(p.image_index),
                (vk::STAGE_COLOR_ATTACHMENT_OUTPUT, vk::ACCESS_NONE),
                (vk::STAGE_COLOR_ATTACHMENT_OUTPUT, COLOR_ACCESS),
                (vk::LAYOUT_UNDEFINED, vk::LAYOUT_ATTACHMENT_OPTIMAL),
                vk::ASPECT_COLOR,
                (0, 1),
            ),
            second: Some(
                make_transition(
                    ImageSlot::ColorOutput,
                    (vk::STAGE_COMPUTE_SHADER, vk::ACCESS_SHADER_STORAGE_WRITE),
                    (vk::STAGE_FRAGMENT_SHADER, vk::ACCESS_SHADER_SAMPLED_READ),
                    (vk::LAYOUT_GENERAL, vk::LAYOUT_READ_ONLY_OPTIMAL),
                    vk::ASPECT_COLOR,
                    (0, 1),
                ),
            ),
            third: None,
        },
    );
    out.push(stamp(p, PASS_POSTFX));
    out.push(
        Command::BeginRendering {
            area: p.viewport_size,
            color: Some(
                make_color_attachment(
                    ImageSlot::Swapchain(p.image_index),
                    ClearValue::Float {
                        r: vk::F32_ZERO,
                        g: vk::F32_ZERO,
                        b: vk::F32_ZERO,
                        a: vk::F32_ONE,
                    },
                ),
            ),
            depth: None,
        },
    );
    out.push(Command::Viewport(p.viewport_size));
    out.push(Command::Scissor(p.viewport_size));
    out.push(
        Command::BindPipeline {
            bind_point: vk::BIND_POINT_GRAPHICS,
            pipeline: PipelineSlot::PostFx,
        },
    );
    out.push(
        Command::BindDescriptors {
            bind_point: vk::BIND_POINT_GRAPHICS,
            pipeline: PipelineSlot::PostFx,
        },
    );
    out.push(
        Command::PushConstants {
            pipeline: PipelineSlot::PostFx,
            stages: DRAW_STAGES,
            payload: PushPayload::Basic(BasicPushConstants { frame_ptr: p.frame_ptr }),
        },
    );
    out.push(Command::Draw { vertex_count: 3, instance_count: 1 });
    assert(out@ =~= before + postfx_commands(*p));
}

fn push_ui(out: &mut Vec<Command>, p: &FrameParams)
    requires
        p.frame_index < MAX_FRAMES_IN_FLIGHT,
    ensures
        final(out)@ == old(out)@ + ui_commands(*p),
{
    let ghost before = out@;
    out.push(stamp(p, PASS_UI));
    out.push(Command::DrawUi);
    out.push(Command::EndRendering);
    out.push(stamp(p, PASS_COUNT));
    out.push(
        Command::Barriers {
            first: make_transition(
                ImageSlot::Swapchain(p.image_index),
                (vk::STAGE_COLOR_ATTACHMENT_OUTPUT, vk::ACCESS_COLOR_ATTACHMENT_WRITE),
                (vk::STAGE_COLOR_ATTACHMENT_OUTPUT, vk::ACCESS_NONE),
                (vk::LAYOUT_ATTACHMENT_OPTIMAL, vk::LAYOUT_PRESENT_SRC_KHR),
                vk::ASPECT_COLOR,
                (0, 1),
            ),
            second: None,
            third: None,
        },
    );
    assert(out@ =~= before + ui_commands(*p));
}

/// Lists the commands of a frame.
pub fn record_frame(
    p: &FrameParams,
    primitives: &Vec<PrimitiveData>,
    index_counts: &Vec<u32>,
) -> (r: Vec<Command>)
    requires
        primitives@.len() == index_counts@.len(),
        p.frame_index < MAX_FRAMES_IN_FLIGHT,
    ensures
        r@ == frame_commands(*p, primitives@, index_counts@),
{
    let mut out: Vec<Command> = Vec::new();
    out.push(Command::ResetQueries { base: first_query(p.frame_index), count: PASS_COUNT + 1 });
    out.push(
        Command::Timestamp {
            stage: vk::STAGE_TOP_OF_PIPE,
            query: first_query(p.frame_index) + PASS_SHADOW,
        },
    );
    assert(out@ =~= start_commands(*p));
    push_shadow_pass(&mut out, p, primitives, index_counts);
    push_primary_pass(&mut out, p, primitives, index_counts);
    push_ao_start(&mut out, p);
    push_compute(&mut out, p, PipelineSlot::Ao, 16);
    push_reproject_start(&mut out, p);
    push_compute(&mut out, p, PipelineSlot::AoReproject, 16);
    push_deferred_start(&mut out, p);
    push_compute(&mut out, p, PipelineSlot::Deferred, 8);
    push_postfx(&mut out, p);
    push_ui(&mut out, p);
    out
}

/// The images of history take turns: no frame reads the one that it writes, and each reads what
/// the one before it wrote.
pub proof fn law_history_alternates(frame_id: u64)
    ensures
        history_read(frame_id) != history_written(frame_id),
        history_read(frame_id) < 2,
        history_written(frame_id) < 2,
        history_read(vstd::wrapping::u64_specs::wrapping_add(frame_id, 1)) == history_written(frame_id),
{
}

/// The timestamps of the passes so far have been written, in order.
spec fn stamped(r: Recording, p: FrameParams, passes: nat) -> bool {
    &&& r.ready == (query_base(p.frame_index) as int, PASS_COUNT + 1)
    &&& r.stamps.len() == passes
    &&& forall|i: int|
        0 <= i < passes ==> #[trigger] r.stamps[i] == (query_base(p.frame_index) + i) as u32
}

/// What is known of a layer of an image.
spec fn state_of(r: Recording, image: ImageSlot, layer: int) -> (i32, Option<ImageUse>, ImageUse) {
    ((r.layouts)(image, layer), (r.unsynced)(image, layer), (r.visible)(image, layer))
}

/// A layer of an image has been written as an attachment and nothing has waited for that yet.
spec fn attached(r: Recording, image: ImageSlot, layer: int, layout: i32) -> bool {
    let (now, write, visible) = state_of(r, image, layer);
    &&& now == layout
    &&& write == Some(attachment_write(image))
    &&& visible.access != vk::ACCESS_SHADER_STORAGE_WRITE
}

/// A layer of an image has been written by a pass that computes and nothing has waited for that yet.
spec fn computed(r: Recording, image: ImageSlot) -> bool {
    state_of(r, image, 0) == (
        vk::LAYOUT_GENERAL,
        Some(
            ImageUse {
                stage: vk::STAGE_COMPUTE_SHADER,
                access: vk::ACCESS_SHADER_STORAGE_WRITE,
            },
        ),
        ImageUse { stage: vk::STAGE_COMPUTE_SHADER, access: vk::ACCESS_SHADER_STORAGE_WRITE },
    )
}

/// Nothing has been done to a layer of an image yet.
spec fn unused(r: Recording, image: ImageSlot, layer: int) -> bool {
    let (_, write, visible) = state_of(r, image, layer);
    &&& write is None
    &&& visible == (ImageUse { stage: vk::STAGE_NONE, access: vk::ACCESS_NONE })
}

/// The draws of the first primitives of the scene.
spec fn scene_work(
    p: FrameParams,
    primitives: Seq<PrimitiveData>,
    index_counts: Seq<u32>,
    cascade: Option<u32>,
    scope: RenderScope,
    count: nat,
) -> Seq<Work> {
    Seq::new(
        count,
        |i: int|
            Work::DrawIndexed {
                scope,
                pipeline: draw_pipeline(cascade),
                payload: Some(draw_payload(p, primitives[i], cascade)),
                vertices: i,
                indices: i,
                index_type: vk::INDEX_UINT32,
                index_count: index_counts[i],
                instance_count: 1,
            },
    )
}

/// What a cascade is drawn into.
spec fn shadow_scope(cascade: u32) -> RenderScope {
    RenderScope {
        area: shadow_extent(),
        color: None,
        depth: Some(
            depth_attachment(
                ImageSlot::Shadowmap,
                Some(cascade),
                vk::LAYOUT_DEPTH_ATTACHMENT_OPTIMAL,
                vk::STORE_OP_STORE,
            ),
        ),
    }
}

/// What the geometry is drawn into.
spec fn primary_scope(p: FrameParams) -> RenderScope {
    RenderScope {
        area: p.render_size,
        color: Some(
            color_attachment(ImageSlot::Gbuffer, ClearValue::Uint { r: 0, g: 0, b: 0, a: 0 }),
        ),
        depth: Some(
            depth_attachment(
                ImageSlot::Depth,
                None,
                vk::LAYOUT_ATTACHMENT_OPTIMAL,
                vk::STORE_OP_STORE,
            ),
        ),
    }
}

/// What is shown is drawn into.
spec fn screen_scope(p: FrameParams) -> RenderScope {
    RenderScope {
        area: p.viewport_size,
        color: Some(
            color_attachment(
                ImageSlot::Swapchain(p.image_index),
                ClearValue::Float {
                    r: vk::F32_ZERO,
                    g: vk::F32_ZERO,
                    b: vk::F32_ZERO,
                    a: vk::F32_ONE,
                },
            ),
        ),
        depth: None,
    }
}

/// The draws of the first cascades.
spec fn shadow_work(
    p: FrameParams,
    primitives: Seq<PrimitiveData>,
    index_counts: Seq<u32>,
    count: nat,
) -> Seq<Work>
    decreases count,
{
    if count == 0 {
        Seq::empty()
    } else {
        let cascade = (count - 1) as u32;
        shadow_work(p, primitives, index_counts, (count - 1) as nat) + scene_work(
            p,
            primitives,
            index_counts,
            Some(cascade),
            shadow_scope(cascade),
            primitives.len(),
        )
    }
}

proof fn lemma_shadow_work_len(
    p: FrameParams,
    primitives: Seq<PrimitiveData>,
    index_counts: Seq<u32>,
    count: nat,
)
    ensures
        shadow_work(p, primitives, index_counts, count).len() == count * primitives.len(),
    decreases count,
{
    let n = primitives.len();
    if count > 0 {
        lemma_shadow_work_len(p, primitives, index_counts, (count - 1) as nat);
        assert(count * n == (count - 1) * n + n) by (nonlinear_arith);
    } else {
        assert(count * n == 0) by (nonlinear_arith)
            requires
                count == 0,
        ;
    }
}

proof fn lemma_shadow_work(
    p: FrameParams,
    primitives: Seq<PrimitiveData>,
    index_counts: Seq<u32>,
    count: nat,
    c: int,
    i: int,
)
    requires
        0 <= c < count <= CASCADES,
        0 <= i < primitives.len(),
    ensures
        shadow_work(p, primitives, index_counts, count).len() == count * primitives.len(),
        0 <= c * primitives.len() + i < count * primitives.len(),
        shadow_work(p, primitives, index_counts, count)[c * primitives.len() + i] == scene_work(
            p,
            primitives,
            index_counts,
            Some(c as u32),
            shadow_scope(c as u32),
            primitives.len(),
        )[i],
    decreases count,
{
    let n = primitives.len();
    let earlier = (count - 1) as nat;
    lemma_shadow_work_len(p, primitives, index_counts, earlier);
    lemma_shadow_work_len(p, primitives, index_counts, count);
    assert(count * n == earlier * n + n) by (nonlinear_arith)
        requires
            count == earlier + 1,
    ;
    assert(0 <= c * n) by (nonlinear_arith)
        requires
            0 <= c,
    ;
    if c < earlier {
        lemma_shadow_work(p, primitives, index_counts, earlier, c, i);
    }
}

/// Nothing has changed but what draws bind, and what was drawn.
spec fn drawn(before: Recording, after: Recording) -> bool {
    after == Recording {
        pushed: after.pushed,
        payload: after.payload,
        vertices: after.vertices,
        indices: after.indices,
        index_type: after.index_type,
        work: after.work,
        ..before
    }
}

proof fn lemma_draws(
    p: FrameParams,
    primitives: Seq<PrimitiveData>,
    index_counts: Seq<u32>,
    cascade: Option<u32>,
    count: nat,
    r: Recording,
)
    requires
        r.graphics == Some(draw_pipeline(cascade)),
        draw_fits(Recording { pushed: r.graphics, ..r }),
    ensures
        record(draws(p, primitives, index_counts, cascade, count), r) is Some,
        drawn(r, record(draws(p, primitives, index_counts, cascade, count), r)->0),
        count <= usize::MAX ==> record(draws(p, primitives, index_counts, cascade, count), r)->0.work
            == r.work + scene_work(p, primitives, index_counts, cascade, r.scope->0, count),
    decreases count,
{
    broadcast use lemma_record_push;

    if count > 0 {
        lemma_draws(p, primitives, index_counts, cascade, (count - 1) as nat, r);
        let before = record(draws(p, primitives, index_counts, cascade, (count - 1) as nat), r)->0;
        let i = (count - 1) as usize;
        let bind_vertices = Command::BindVertexBuffer { primitive: i };
        let bind_indices = Command::BindIndexBuffer { primitive: i, index_type: vk::INDEX_UINT32 };
        let push = Command::PushConstants {
            pipeline: draw_pipeline(cascade),
            stages: DRAW_STAGES,
            payload: draw_payload(p, primitives[count - 1], cascade),
        };
        let one = step(bind_vertices, before)->0;
        let two = step(bind_indices, one)->0;
        let three = step(push, two)->0;
        assert(draw_fits(three) == draw_fits(Recording { pushed: r.graphics, ..r }));
        if count <= usize::MAX {
            let scope = r.scope->0;
            let all = scene_work(p, primitives, index_counts, cascade, scope, count);
            let most = scene_work(p, primitives, index_counts, cascade, scope, (count - 1) as nat);
            assert(all =~= most.push(all[count - 1]));
            let after = record(draws(p, primitives, index_counts, cascade, count), r)->0;
            assert(after.work == before.work.push(all[count - 1]));
            assert(after.work =~= r.work + all);
        }
    } else {
        assert(r.work =~= r.work + scene_work(
            p,
            primitives,
            index_counts,
            cascade,
            r.scope->0,
            count,
        ));
    }
}

/// The cascades drawn so far are as they were drawn, and the others are not in use.
spec fn cascades_drawn(r: Recording, count: nat) -> bool {
    &&& forall|layer: int|
        0 <= layer < count ==> #[trigger] attached(
            r,
            ImageSlot::Shadowmap,
            layer,
            vk::LAYOUT_DEPTH_ATTACHMENT_OPTIMAL,
        )
    &&& forall|layer: int| count <= layer ==> #[trigger] unused(r, ImageSlot::Shadowmap, layer)
}

proof fn lemma_shadow_commands(
    p: FrameParams,
    primitives: Seq<PrimitiveData>,
    index_counts: Seq<u32>,
    count: nat,
    r: Recording,
)
    requires
        count <= CASCADES,
        r.scope is None,
        cascades_drawn(r, 0),
    ensures
        record(shadow_commands(p, primitives, index_counts, count), r) is Some,
        ({
            let after = record(shadow_commands(p, primitives, index_counts, count), r)->0;
            &&& after.scope is None
            &&& after.ready == r.ready
            &&& after.stamps == r.stamps
            &&& after.marks == r.marks
            &&& cascades_drawn(after, count)
            &&& forall|image: ImageSlot, layer: int|
                image != ImageSlot::Shadowmap ==> #[trigger] state_of(after, image, layer)
                    == state_of(r, image, layer)
            &&& primitives.len() <= usize::MAX ==> after.work == r.work + shadow_work(
                p,
                primitives,
                index_counts,
                count,
            )
        }),
    decreases count,
{
    broadcast use lemma_record_push;

    if count > 0 {
        let earlier = shadow_commands(p, primitives, index_counts, (count - 1) as nat);
        let cascade = (count - 1) as u32;
        let all_draws = draws(p, primitives, index_counts, Some(cascade), primitives.len());
        lemma_shadow_commands(p, primitives, index_counts, (count - 1) as nat, r);
        let before = record(earlier, r)->0;
        assert(unused(before, ImageSlot::Shadowmap, cascade as int));
        lemma_record_concat(earlier, cascade_start(cascade), r);
        lemma_record_short(cascade_start(cascade), before);
        let begun = record(cascade_start(cascade), before)->0;
        lemma_draws(p, primitives, index_counts, Some(cascade), primitives.len(), begun);
        lemma_record_concat(earlier + cascade_start(cascade), all_draws, r);
        lemma_record_concat(
            earlier + cascade_start(cascade) + all_draws,
            seq![Command::EndRendering],
            r,
        );
        let last = record(all_draws, begun)->0;
        lemma_record_short(seq![Command::EndRendering], last);
        let after = record(shadow_commands(p, primitives, index_counts, count), r)->0;
        assert forall|layer: int| 0 <= layer < count implies #[trigger] attached(
            after,
            ImageSlot::Shadowmap,
            layer,
            vk::LAYOUT_DEPTH_ATTACHMENT_OPTIMAL,
        ) by {
            if layer < count - 1 {
                assert(attached(
                    before,
                    ImageSlot::Shadowmap,
                    layer,
                    vk::LAYOUT_DEPTH_ATTACHMENT_OPTIMAL,
                ));
            }
        }
        assert forall|layer: int| count <= layer implies #[trigger] unused(
            after,
            ImageSlot::Shadowmap,
            layer,
        ) by {
            assert(unused(before, ImageSlot::Shadowmap, layer));
        }
        assert forall|image: ImageSlot, layer: int|
            image != ImageSlot::Shadowmap implies #[trigger] state_of(after, image, layer)
            == state_of(r, image, layer) by {
            assert(state_of(before, image, layer) == state_of(r, image, layer));
        }
        if primitives.len() <= usize::MAX {
            assert(after.work =~= r.work + shadow_work(p, primitives, index_counts, count));
        }
    } else {
        assert(r.work =~= r.work + shadow_work(p, primitives, index_counts, count));
    }
}

/// The work of a pass that computes.
spec fn compute_work(
    p: FrameParams,
    pipeline: PipelineSlot,
    group: u32,
    images: ImageStates,
) -> Work {
    Work::Dispatch {
        pipeline,
        payload: Some(PushPayload::Basic(BasicPushConstants { frame_ptr: p.frame_ptr })),
        x: ceil_div(p.render_size.width, group),
        y: ceil_div(p.render_size.height, group),
        z: 1,
        images,
    }
}

proof fn lemma_compute_pass(p: FrameParams, pipeline: PipelineSlot, group: u32, r: Recording)
    requires
        r.scope is None,
        pipeline == PipelineSlot::Ao || pipeline == PipelineSlot::AoReproject || pipeline
            == PipelineSlot::Deferred,
    ensures
        record(compute_pass(p, pipeline, group), r) is Some,
        ({
            let after = record(compute_pass(p, pipeline, group), r)->0;
            &&& after.scope is None
            &&& after.ready == r.ready
            &&& after.stamps == r.stamps
            &&& after.marks == r.marks
            &&& after.work == r.work.push(compute_work(p, pipeline, group, r.images()))
            &&& forall|image: ImageSlot, layer: int|
                #[trigger] state_of(after, image, layer) == (if (r.visible)(image, layer) == (
                ImageUse {
                    stage: vk::STAGE_COMPUTE_SHADER,
                    access: vk::ACCESS_SHADER_STORAGE_WRITE,
                }) {
                    (
                        (r.layouts)(image, layer),
                        Some(
                            ImageUse {
                                stage: vk::STAGE_COMPUTE_SHADER,
                                access: vk::ACCESS_SHADER_STORAGE_WRITE,
                            },
                        ),
                        (r.visible)(image, layer),
                    )
                } else {
                    state_of(r, image, layer)
                })
        }),
{
    lemma_record_short(compute_pass(p, pipeline, group), r);
}

/// A frame is between passes: nothing is being drawn into, and as many timestamps as passes are
/// written.
spec fn between(r: Option<Recording>, p: FrameParams, passes: nat) -> bool {
    match r {
        Some(r) => r.scope is None && stamped(r, p, passes),
        None => false,
    }
}

/// The timestamps after one more, which waits for all work so far.
spec fn marked(r: Recording) -> Seq<Mark> {
    r.marks.push(Mark { stage: vk::STAGE_BOTTOM_OF_PIPE, work: r.work.len() })
}

/// The layout of an image that has one layer.
spec fn layout_of(r: Option<Recording>, image: ImageSlot) -> i32 {
    (r->0.layouts)(image, 0)
}

proof fn lemma_primary_start(
    p: FrameParams,
    primitives: Seq<PrimitiveData>,
    index_counts: Seq<u32>,
    r: Recording,
)
    requires
        p.frame_index < MAX_FRAMES_IN_FLIGHT,
        between(Some(r), p, 1),
        cascades_drawn(r, CASCADES as nat),
        unused(r, ImageSlot::Gbuffer, 0),
        unused(r, ImageSlot::Depth, 0),
    ensures
        ({
            let commands = primary_start(p) + draws(
                p,
                primitives,
                index_counts,
                None,
                primitives.len(),
            ) + seq![Command::EndRendering];
            let after = record(commands, r);
            &&& between(after, p, 2)
            &&& after->0.marks == marked(r)
            &&& attached(after->0, ImageSlot::Gbuffer, 0, vk::LAYOUT_ATTACHMENT_OPTIMAL)
            &&& attached(after->0, ImageSlot::Depth, 0, vk::LAYOUT_ATTACHMENT_OPTIMAL)
            &&& forall|layer: int|
                0 <= layer < CASCADES ==> #[trigger] state_of(
                    after->0,
                    ImageSlot::Shadowmap,
                    layer,
                ) == shadows_readable()
            &&& forall|image: ImageSlot, layer: int|
                image != ImageSlot::Shadowmap && image != ImageSlot::Gbuffer && image
                    != ImageSlot::Depth ==> #[trigger] state_of(after->0, image, layer) == state_of(
                    r,
                    image,
                    layer,
                )
            &&& primitives.len() <= usize::MAX ==> after->0.work == r.work + scene_work(
                p,
                primitives,
                index_counts,
                None,
                primary_scope(p),
                primitives.len(),
            )
        }),
{
    let all_draws = draws(p, primitives, index_counts, None, primitives.len());
    let barriers = primary_start(p)[0];
    assert forall|layer: int| #[trigger]
        covers(barriers->first, ImageSlot::Shadowmap, layer) implies (r.layouts)(
        ImageSlot::Shadowmap,
        layer,
    ) == vk::LAYOUT_DEPTH_ATTACHMENT_OPTIMAL && (r.unsynced)(ImageSlot::Shadowmap, layer) == Some(
        attachment_write(ImageSlot::Shadowmap),
    ) by {
        assert(attached(r, ImageSlot::Shadowmap, layer, vk::LAYOUT_DEPTH_ATTACHMENT_OPTIMAL));
    }
    let one = after_barrier(barriers->first, r.images());
    let two = after_barrier(barriers->second->0, one);
    assert(barrier_fits(barriers->first, r.images()));
    assert(barrier_fits(barriers->second->0, one));
    assert(barrier_fits(barriers->third->0, two));
    assert(COLOR_ACCESS != vk::ACCESS_SHADER_STORAGE_WRITE) by (bit_vector);
    lemma_record_short(primary_start(p), r);
    let begun = record(primary_start(p), r)->0;
    lemma_draws(p, primitives, index_counts, None, primitives.len(), begun);
    lemma_record_concat(primary_start(p), all_draws, r);
    lemma_record_concat(primary_start(p) + all_draws, seq![Command::EndRendering], r);
    lemma_record_short(seq![Command::EndRendering], record(all_draws, begun)->0);
}

/// The shadow map once it can be read.
spec fn shadows_readable() -> (i32, Option<ImageUse>, ImageUse) {
    (
        vk::LAYOUT_DEPTH_READ_ONLY_OPTIMAL,
        None,
        ImageUse {
            stage: vk::STAGE_FRAGMENT_SHADER,
            access: vk::ACCESS_DEPTH_STENCIL_ATTACHMENT_READ,
        },
    )
}

/// An image that can be sampled, by the stage given.
spec fn sampled(layout: i32, stage: u64) -> (i32, Option<ImageUse>, ImageUse) {
    (layout, None, ImageUse { stage, access: vk::ACCESS_SHADER_SAMPLED_READ })
}

/// An image that a pass that computes can write.
spec fn writable() -> (i32, Option<ImageUse>, ImageUse) {
    (
        vk::LAYOUT_GENERAL,
        None,
        ImageUse { stage: vk::STAGE_COMPUTE_SHADER, access: vk::ACCESS_SHADER_STORAGE_WRITE },
    )
}

proof fn lemma_ao_start(p: FrameParams, r: Recording)
    requires
        p.frame_index < MAX_FRAMES_IN_FLIGHT,
        between(Some(r), p, 2),
        attached(r, ImageSlot::Gbuffer, 0, vk::LAYOUT_ATTACHMENT_OPTIMAL),
        attached(r, ImageSlot::Depth, 0, vk::LAYOUT_ATTACHMENT_OPTIMAL),
        unused(r, ImageSlot::Ao, 0),
    ensures
        between(record(ao_start(p), r), p, 3),
        ({
            let after = record(ao_start(p), r)->0;
            &&& after.work == r.work
            &&& after.marks == marked(r)
            &&& state_of(after, ImageSlot::Ao, 0) == writable()
            &&& state_of(after, ImageSlot::Gbuffer, 0) == sampled(
                vk::LAYOUT_READ_ONLY_OPTIMAL,
                vk::STAGE_FRAGMENT_SHADER,
            )
            &&& state_of(after, ImageSlot::Depth, 0) == sampled(
                vk::LAYOUT_DEPTH_READ_ONLY_OPTIMAL,
                vk::STAGE_COMPUTE_SHADER,
            )
            &&& forall|image: ImageSlot, layer: int|
                image != ImageSlot::Ao && image != ImageSlot::Gbuffer && image != ImageSlot::Depth
                    ==> #[trigger] state_of(after, image, layer) == state_of(r, image, layer)
        }),
{
    lemma_record_short(ao_start(p), r);
}

proof fn lemma_reproject_start(p: FrameParams, r: Recording)
    requires
        p.frame_index < MAX_FRAMES_IN_FLIGHT,
        between(Some(r), p, 3),
        computed(r, ImageSlot::Ao),
        unused(r, ImageSlot::AoHistory(history_read(p.frame_id)), 0),
        unused(r, ImageSlot::AoHistory(history_written(p.frame_id)), 0),
    ensures
        between(record(reproject_start(p), r), p, 4),
        ({
            let after = record(reproject_start(p), r)->0;
            let read = ImageSlot::AoHistory(history_read(p.frame_id));
            let written = ImageSlot::AoHistory(history_written(p.frame_id));
            &&& after.work == r.work
            &&& after.marks == marked(r)
            &&& state_of(after, written, 0) == writable()
            &&& state_of(after, read, 0) == sampled(vk::LAYOUT_GENERAL, vk::STAGE_COMPUTE_SHADER)
            &&& state_of(after, ImageSlot::Ao, 0) == sampled(
                vk::LAYOUT_READ_ONLY_OPTIMAL,
                vk::STAGE_COMPUTE_SHADER,
            )
            &&& forall|image: ImageSlot, layer: int|
                image != ImageSlot::Ao && image != read && image != written
                    ==> #[trigger] state_of(after, image, layer) == state_of(r, image, layer)
        }),
{
    law_history_alternates(p.frame_id);
    lemma_record_short(reproject_start(p), r);
}

proof fn lemma_deferred_start(p: FrameParams, r: Recording)
    requires
        p.frame_index < MAX_FRAMES_IN_FLIGHT,
        between(Some(r), p, 4),
        computed(r, ImageSlot::AoHistory(history_written(p.frame_id))),
        unused(r, ImageSlot::ColorOutput, 0),
    ensures
        between(record(deferred_start(p), r), p, 5),
        ({
            let after = record(deferred_start(p), r)->0;
            let written = ImageSlot::AoHistory(history_written(p.frame_id));
            &&& after.work == r.work
            &&& after.marks == marked(r)
            &&& state_of(after, written, 0) == sampled(
                vk::LAYOUT_GENERAL,
                vk::STAGE_COMPUTE_SHADER,
            )
            &&& state_of(after, ImageSlot::ColorOutput, 0) == writable()
            &&& forall|image: ImageSlot, layer: int|
                image != ImageSlot::ColorOutput && image != written ==> #[trigger] state_of(
                    after,
                    image,
                    layer,
                ) == state_of(r, image, layer)
        }),
{
    lemma_record_short(deferred_start(p), r);
}

proof fn lemma_postfx(p: FrameParams, r: Recording)
    requires
        p.frame_index < MAX_FRAMES_IN_FLIGHT,
        between(Some(r), p, 5),
        computed(r, ImageSlot::ColorOutput),
        unused(r, ImageSlot::Swapchain(p.image_index), 0),
    ensures
        record(postfx_commands(p), r) is Some,
        ({
            let after = record(postfx_commands(p), r)->0;
            &&& after.scope == Some(screen_scope(p))
            &&& stamped(after, p, 6)
            &&& after.marks == marked(r)
            &&& attached(
                after,
                ImageSlot::Swapchain(p.image_index),
                0,
                vk::LAYOUT_ATTACHMENT_OPTIMAL,
            )
            &&& state_of(after, ImageSlot::ColorOutput, 0) == sampled(
                vk::LAYOUT_READ_ONLY_OPTIMAL,
                vk::STAGE_FRAGMENT_SHADER,
            )
            &&& after.work == r.work.push(
                Work::Draw {
                    scope: screen_scope(p),
                    pipeline: PipelineSlot::PostFx,
                    payload: Some(
                        PushPayload::Basic(BasicPushConstants { frame_ptr: p.frame_ptr }),
                    ),
                    vertex_count: 3,
                    instance_count: 1,
                    images: after.images(),
                },
            )
        }),
{
    let barriers = postfx_commands(p)[0];
    let one = after_barrier(barriers->first, r.images());
    assert(barrier_fits(barriers->first, r.images()));
    assert(barrier_fits(barriers->second->0, one));
    assert(COLOR_ACCESS != vk::ACCESS_SHADER_STORAGE_WRITE) by (bit_vector);
    lemma_record_short(postfx_commands(p), r);
}

proof fn lemma_ui(p: FrameParams, r: Recording)
    requires
        p.frame_index < MAX_FRAMES_IN_FLIGHT,
        r.scope == Some(screen_scope(p)),
        stamped(r, p, 6),
        attached(r, ImageSlot::Swapchain(p.image_index), 0, vk::LAYOUT_ATTACHMENT_OPTIMAL),
    ensures
        between(record(ui_commands(p), r), p, 8),
        ({
            let after = record(ui_commands(p), r)->0;
            &&& after.work == r.work.push(Work::Ui { scope: screen_scope(p) })
            &&& after.marks == marked(r).push(
                Mark { stage: vk::STAGE_BOTTOM_OF_PIPE, work: after.work.len() },
            )
            &&& layout_of(Some(after), ImageSlot::Swapchain(p.image_index))
                == vk::LAYOUT_PRESENT_SRC_KHR
            &&& (after.unsynced)(ImageSlot::Swapchain(p.image_index), 0) is None
            &&& after.images().visible_to(
                ImageSlot::Swapchain(p.image_index),
                0,
                vk::STAGE_COLOR_ATTACHMENT_OUTPUT,
                vk::ACCESS_NONE,
            )
        }),
{
    lemma_record_short(ui_commands(p), r);
}

/// The part of a frame that draws the scene.
spec fn scene_commands(
    p: FrameParams,
    primitives: Seq<PrimitiveData>,
    index_counts: Seq<u32>,
) -> Seq<Command> {
    start_commands(p) + shadow_commands(p, primitives, index_counts, CASCADES as nat) + (
    primary_start(p) + draws(p, primitives, index_counts, None, primitives.len()) + seq![
        Command::EndRendering,
    ])
}

/// The part of a frame that computes.
spec fn compute_commands(p: FrameParams) -> Seq<Command> {
    ao_start(p) + compute_pass(p, PipelineSlot::Ao, 16) + reproject_start(p) + compute_pass(
        p,
        PipelineSlot::AoReproject,
        16,
    ) + deferred_start(p) + compute_pass(p, PipelineSlot::Deferred, 8)
}

/// The scene has been drawn, and nothing else has been touched.
spec fn scene_is_drawn(r: Recording, p: FrameParams) -> bool {
    &&& between(Some(r), p, 2)
    &&& attached(r, ImageSlot::Gbuffer, 0, vk::LAYOUT_ATTACHMENT_OPTIMAL)
    &&& attached(r, ImageSlot::Depth, 0, vk::LAYOUT_ATTACHMENT_OPTIMAL)
    &&& forall|layer: int|
        0 <= layer < CASCADES ==> #[trigger] state_of(r, ImageSlot::Shadowmap, layer)
            == shadows_readable()
    &&& unused(r, ImageSlot::Ao, 0)
    &&& unused(r, ImageSlot::AoHistory(history_read(p.frame_id)), 0)
    &&& unused(r, ImageSlot::AoHistory(history_written(p.frame_id)), 0)
    &&& unused(r, ImageSlot::ColorOutput, 0)
    &&& unused(r, ImageSlot::Swapchain(p.image_index), 0)
}

proof fn lemma_scene_commands(
    p: FrameParams,
    primitives: Seq<PrimitiveData>,
    index_counts: Seq<u32>,
    layouts: spec_fn(ImageSlot, int) -> i32,
)
    requires
        p.frame_index < MAX_FRAMES_IN_FLIGHT,
    ensures
        ({
            let after = record(
                scene_commands(p, primitives, index_counts),
                fresh_recording(layouts),
            );
            let shadows = shadow_work(p, primitives, index_counts, CASCADES as nat);
            &&& after is Some
            &&& scene_is_drawn(after->0, p)
            &&& primitives.len() <= usize::MAX ==> {
                &&& after->0.work == shadows + scene_work(
                    p,
                    primitives,
                    index_counts,
                    None,
                    primary_scope(p),
                    primitives.len(),
                )
                &&& after->0.marks == seq![
                    Mark { stage: vk::STAGE_TOP_OF_PIPE, work: 0 },
                    Mark { stage: vk::STAGE_BOTTOM_OF_PIPE, work: shadows.len() },
                ]
            }
        }),
{
    let r0 = fresh_recording(layouts);
    let shadows = shadow_commands(p, primitives, index_counts, CASCADES as nat);
    let all_draws = draws(p, primitives, index_counts, None, primitives.len());

    lemma_record_short(start_commands(p), r0);
    let r1 = record(start_commands(p), r0)->0;
    assert(between(Some(r1), p, 1));
    assert(cascades_drawn(r1, 0));

    lemma_shadow_commands(p, primitives, index_counts, CASCADES as nat, r1);
    lemma_record_concat(start_commands(p), shadows, r0);
    let c2 = start_commands(p) + shadows;
    let r2 = record(shadows, r1)->0;
    assert forall|image: ImageSlot| image != ImageSlot::Shadowmap implies #[trigger] unused(
        r2,
        image,
        0,
    ) by {
        assert(unused(r1, image, 0));
        assert(state_of(r2, image, 0) == state_of(r1, image, 0));
    }

    let primary = primary_start(p) + all_draws + seq![Command::EndRendering];
    lemma_primary_start(p, primitives, index_counts, r2);
    lemma_record_concat(c2, primary, r0);
    let r3 = record(primary, r2)->0;
    assert forall|image: ImageSlot|
        image != ImageSlot::Shadowmap && image != ImageSlot::Gbuffer && image
            != ImageSlot::Depth implies #[trigger] unused(r3, image, 0) by {
        assert(unused(r2, image, 0));
        assert(state_of(r3, image, 0) == state_of(r2, image, 0));
    }
    if primitives.len() <= usize::MAX {
        let work = shadow_work(p, primitives, index_counts, CASCADES as nat);
        assert(r2.work =~= work);
        assert(r3.marks =~= seq![
            Mark { stage: vk::STAGE_TOP_OF_PIPE, work: 0 },
            Mark { stage: vk::STAGE_BOTTOM_OF_PIPE, work: work.len() },
        ]);
    }
}

/// What ambient occlusion finds.
spec fn ao_images(images: ImageStates) -> bool {
    &&& images.settled(ImageSlot::Gbuffer, 0, vk::LAYOUT_READ_ONLY_OPTIMAL)
    &&& images.settled(ImageSlot::Depth, 0, vk::LAYOUT_DEPTH_READ_ONLY_OPTIMAL)
    &&& images.visible_to(
        ImageSlot::Depth,
        0,
        vk::STAGE_COMPUTE_SHADER,
        vk::ACCESS_SHADER_SAMPLED_READ,
    )
    &&& images.settled(ImageSlot::Ao, 0, vk::LAYOUT_GENERAL)
    &&& images.visible_to(
        ImageSlot::Ao,
        0,
        vk::STAGE_COMPUTE_SHADER,
        vk::ACCESS_SHADER_STORAGE_WRITE,
    )
}

/// What blending with the history finds.
spec fn reproject_images(images: ImageStates, read: ImageSlot, written: ImageSlot) -> bool {
    &&& images.settled(ImageSlot::Ao, 0, vk::LAYOUT_READ_ONLY_OPTIMAL)
    &&& images.visible_to(
        ImageSlot::Ao,
        0,
        vk::STAGE_COMPUTE_SHADER,
        vk::ACCESS_SHADER_SAMPLED_READ,
    )
    &&& images.settled(read, 0, vk::LAYOUT_GENERAL)
    &&& images.visible_to(read, 0, vk::STAGE_COMPUTE_SHADER, vk::ACCESS_SHADER_SAMPLED_READ)
    &&& images.settled(written, 0, vk::LAYOUT_GENERAL)
    &&& images.visible_to(written, 0, vk::STAGE_COMPUTE_SHADER, vk::ACCESS_SHADER_STORAGE_WRITE)
}

/// What lighting finds.
spec fn deferred_images(images: ImageStates, written: ImageSlot) -> bool {
    &&& forall|layer: int|
        0 <= layer < CASCADES ==> #[trigger] images.settled(
            ImageSlot::Shadowmap,
            layer,
            vk::LAYOUT_DEPTH_READ_ONLY_OPTIMAL,
        )
    &&& forall|layer: int|
        0 <= layer < CASCADES ==> #[trigger] images.visible_to(
            ImageSlot::Shadowmap,
            layer,
            vk::STAGE_FRAGMENT_SHADER,
            vk::ACCESS_DEPTH_STENCIL_ATTACHMENT_READ,
        )
    &&& images.settled(ImageSlot::Gbuffer, 0, vk::LAYOUT_READ_ONLY_OPTIMAL)
    &&& images.visible_to(
        ImageSlot::Gbuffer,
        0,
        vk::STAGE_FRAGMENT_SHADER,
        vk::ACCESS_SHADER_SAMPLED_READ,
    )
    &&& images.settled(ImageSlot::Depth, 0, vk::LAYOUT_DEPTH_READ_ONLY_OPTIMAL)
    &&& images.settled(written, 0, vk::LAYOUT_GENERAL)
    &&& images.visible_to(written, 0, vk::STAGE_COMPUTE_SHADER, vk::ACCESS_SHADER_SAMPLED_READ)
    &&& images.settled(ImageSlot::ColorOutput, 0, vk::LAYOUT_GENERAL)
    &&& images.visible_to(
        ImageSlot::ColorOutput,
        0,
        vk::STAGE_COMPUTE_SHADER,
        vk::ACCESS_SHADER_STORAGE_WRITE,
    )
}

/// The passes that compute have been added, each with what it finds.
spec fn computes_added(r: Recording, p: FrameParams, after: Recording) -> bool {
    let n = r.work.len() as int;
    let read = ImageSlot::AoHistory(history_read(p.frame_id));
    let written = ImageSlot::AoHistory(history_written(p.frame_id));
    &&& after.work.len() == n + 3
    &&& after.work.take(n) == r.work
    &&& exists|images: ImageStates|
        ao_images(images) && after.work[n] == #[trigger] compute_work(
            p,
            PipelineSlot::Ao,
            16,
            images,
        )
    &&& exists|images: ImageStates|
        reproject_images(images, read, written) && after.work[n + 1] == #[trigger] compute_work(
            p,
            PipelineSlot::AoReproject,
            16,
            images,
        )
    &&& exists|images: ImageStates|
        deferred_images(images, written) && after.work[n + 2] == #[trigger] compute_work(
            p,
            PipelineSlot::Deferred,
            8,
            images,
        )
    &&& after.marks == r.marks + seq![
        Mark { stage: vk::STAGE_BOTTOM_OF_PIPE, work: n as nat },
        Mark { stage: vk::STAGE_BOTTOM_OF_PIPE, work: (n + 1) as nat },
        Mark { stage: vk::STAGE_BOTTOM_OF_PIPE, work: (n + 2) as nat },
    ]
}

proof fn lemma_compute_commands(p: FrameParams, r: Recording)
    requires
        p.frame_index < MAX_FRAMES_IN_FLIGHT,
        scene_is_drawn(r, p),
    ensures
        between(record(compute_commands(p), r), p, 5),
        computed(record(compute_commands(p), r)->0, ImageSlot::ColorOutput),
        unused(record(compute_commands(p), r)->0, ImageSlot::Swapchain(p.image_index), 0),
        computes_added(r, p, record(compute_commands(p), r)->0),
{
    let read = ImageSlot::AoHistory(history_read(p.frame_id));
    let written = ImageSlot::AoHistory(history_written(p.frame_id));
    let swapchain = ImageSlot::Swapchain(p.image_index);
    law_history_alternates(p.frame_id);

    lemma_ao_start(p, r);
    let c4 = ao_start(p);
    let r4 = record(c4, r)->0;
    assert(state_of(r4, read, 0) == state_of(r, read, 0));
    assert(state_of(r4, written, 0) == state_of(r, written, 0));
    assert(state_of(r4, ImageSlot::ColorOutput, 0) == state_of(r, ImageSlot::ColorOutput, 0));
    assert(state_of(r4, swapchain, 0) == state_of(r, swapchain, 0));
    assert(ao_images(r4.images()));

    lemma_compute_pass(p, PipelineSlot::Ao, 16, r4);
    lemma_record_concat(c4, compute_pass(p, PipelineSlot::Ao, 16), r);
    let c5 = c4 + compute_pass(p, PipelineSlot::Ao, 16);
    let r5 = record(c5, r)->0;
    assert(state_of(r5, read, 0) == state_of(r4, read, 0));
    assert(state_of(r5, written, 0) == state_of(r4, written, 0));
    assert(state_of(r5, ImageSlot::ColorOutput, 0) == state_of(r4, ImageSlot::ColorOutput, 0));
    assert(state_of(r5, swapchain, 0) == state_of(r4, swapchain, 0));
    assert(state_of(r5, ImageSlot::Gbuffer, 0) == state_of(r4, ImageSlot::Gbuffer, 0));
    assert(state_of(r5, ImageSlot::Depth, 0) == state_of(r4, ImageSlot::Depth, 0));
    assert(computed(r5, ImageSlot::Ao)) by {
        assert(state_of(r4, ImageSlot::Ao, 0) == writable());
    }

    lemma_reproject_start(p, r5);
    lemma_record_concat(c5, reproject_start(p), r);
    let c6 = c5 + reproject_start(p);
    let r6 = record(c6, r)->0;
    assert(state_of(r6, ImageSlot::ColorOutput, 0) == state_of(r5, ImageSlot::ColorOutput, 0));
    assert(state_of(r6, swapchain, 0) == state_of(r5, swapchain, 0));
    assert(state_of(r6, ImageSlot::Gbuffer, 0) == state_of(r5, ImageSlot::Gbuffer, 0));
    assert(state_of(r6, ImageSlot::Depth, 0) == state_of(r5, ImageSlot::Depth, 0));
    assert(reproject_images(r6.images(), read, written));

    lemma_compute_pass(p, PipelineSlot::AoReproject, 16, r6);
    lemma_record_concat(c6, compute_pass(p, PipelineSlot::AoReproject, 16), r);
    let c7 = c6 + compute_pass(p, PipelineSlot::AoReproject, 16);
    let r7 = record(c7, r)->0;
    assert(state_of(r7, ImageSlot::ColorOutput, 0) == state_of(r6, ImageSlot::ColorOutput, 0));
    assert(state_of(r7, swapchain, 0) == state_of(r6, swapchain, 0));
    assert(state_of(r7, ImageSlot::Gbuffer, 0) == state_of(r6, ImageSlot::Gbuffer, 0));
    assert(state_of(r7, ImageSlot::Depth, 0) == state_of(r6, ImageSlot::Depth, 0));
    assert(computed(r7, written)) by {
        assert(state_of(r6, written, 0) == writable());
    }

    lemma_deferred_start(p, r7);
    lemma_record_concat(c7, deferred_start(p), r);
    let c8 = c7 + deferred_start(p);
    let r8 = record(c8, r)->0;
    assert(state_of(r8, swapchain, 0) == state_of(r7, swapchain, 0));
    assert(state_of(r8, ImageSlot::Gbuffer, 0) == state_of(r7, ImageSlot::Gbuffer, 0));
    assert(state_of(r8, ImageSlot::Depth, 0) == state_of(r7, ImageSlot::Depth, 0));
    assert forall|layer: int| 0 <= layer < CASCADES implies #[trigger] state_of(
        r8,
        ImageSlot::Shadowmap,
        layer,
    ) == shadows_readable() by {
        let shadowmap = ImageSlot::Shadowmap;
        assert(state_of(r, shadowmap, layer) == shadows_readable());
        assert(state_of(r4, shadowmap, layer) == state_of(r, shadowmap, layer));
        assert(state_of(r5, shadowmap, layer) == state_of(r4, shadowmap, layer));
        assert(state_of(r6, shadowmap, layer) == state_of(r5, shadowmap, layer));
        assert(state_of(r7, shadowmap, layer) == state_of(r6, shadowmap, layer));
        assert(state_of(r8, shadowmap, layer) == state_of(r7, shadowmap, layer));
    }
    assert(deferred_images(r8.images(), written)) by {
        let images = r8.images();
        let readable = shadows_readable();
        assert forall|layer: int| 0 <= layer < CASCADES implies #[trigger] images.settled(
            ImageSlot::Shadowmap,
            layer,
            vk::LAYOUT_DEPTH_READ_ONLY_OPTIMAL,
        ) by {
            assert(state_of(r8, ImageSlot::Shadowmap, layer) == readable);
        }
        assert forall|layer: int| 0 <= layer < CASCADES implies #[trigger] images.visible_to(
            ImageSlot::Shadowmap,
            layer,
            vk::STAGE_FRAGMENT_SHADER,
            vk::ACCESS_DEPTH_STENCIL_ATTACHMENT_READ,
        ) by {
            assert(state_of(r8, ImageSlot::Shadowmap, layer) == readable);
        }
    }

    lemma_compute_pass(p, PipelineSlot::Deferred, 8, r8);
    lemma_record_concat(c8, compute_pass(p, PipelineSlot::Deferred, 8), r);
    let r9 = record(compute_commands(p), r)->0;
    assert(state_of(r9, swapchain, 0) == state_of(r8, swapchain, 0));
    assert(computed(r9, ImageSlot::ColorOutput)) by {
        assert(state_of(r8, ImageSlot::ColorOutput, 0) == writable());
    }
    assert(r9.work.take(r.work.len() as int) =~= r.work);
    let n = r.work.len();
    assert(r9.marks =~= r.marks + seq![
        Mark { stage: vk::STAGE_BOTTOM_OF_PIPE, work: n },
        Mark { stage: vk::STAGE_BOTTOM_OF_PIPE, work: n + 1 },
        Mark { stage: vk::STAGE_BOTTOM_OF_PIPE, work: n + 2 },
    ]);
}

/// What is shown has been drawn from what was computed.
spec fn screen_added(r: Recording, p: FrameParams, after: Recording) -> bool {
    let n = r.work.len() as int;
    &&& after.work.len() == n + 2
    &&& after.work.take(n) == r.work
    &&& after.work[n] matches Work::Draw {
        scope,
        pipeline,
        payload,
        vertex_count,
        instance_count,
        images,
    } && {
        &&& scope == screen_scope(p)
        &&& pipeline == PipelineSlot::PostFx
        &&& payload == Some(PushPayload::Basic(BasicPushConstants { frame_ptr: p.frame_ptr }))
        &&& vertex_count == 3
        &&& instance_count == 1
        &&& images.settled(ImageSlot::ColorOutput, 0, vk::LAYOUT_READ_ONLY_OPTIMAL)
        &&& images.visible_to(
            ImageSlot::ColorOutput,
            0,
            vk::STAGE_FRAGMENT_SHADER,
            vk::ACCESS_SHADER_SAMPLED_READ,
        )
    }
    &&& after.work[n + 1] == (Work::Ui { scope: screen_scope(p) })
    &&& after.marks == r.marks + seq![
        Mark { stage: vk::STAGE_BOTTOM_OF_PIPE, work: n as nat },
        Mark { stage: vk::STAGE_BOTTOM_OF_PIPE, work: (n + 1) as nat },
        Mark { stage: vk::STAGE_BOTTOM_OF_PIPE, work: (n + 2) as nat },
    ]
}

proof fn lemma_screen_commands(p: FrameParams, r: Recording)
    requires
        p.frame_index < MAX_FRAMES_IN_FLIGHT,
        between(Some(r), p, 5),
        computed(r, ImageSlot::ColorOutput),
        unused(r, ImageSlot::Swapchain(p.image_index), 0),
    ensures
        ({
            let after = record(postfx_commands(p) + ui_commands(p), r);
            &&& between(after, p, 8)
            &&& after->0.images().settled(
                ImageSlot::Swapchain(p.image_index),
                0,
                vk::LAYOUT_PRESENT_SRC_KHR,
            )
            &&& after->0.images().visible_to(
                ImageSlot::Swapchain(p.image_index),
                0,
                vk::STAGE_COLOR_ATTACHMENT_OUTPUT,
                vk::ACCESS_NONE,
            )
            &&& screen_added(r, p, after->0)
        }),
{
    lemma_postfx(p, r);
    let r10 = record(postfx_commands(p), r)->0;
    lemma_record_concat(postfx_commands(p), ui_commands(p), r);
    lemma_ui(p, r10);
    let r11 = record(ui_commands(p), r10)->0;
    assert(state_of(r10, ImageSlot::ColorOutput, 0) == sampled(
        vk::LAYOUT_READ_ONLY_OPTIMAL,
        vk::STAGE_FRAGMENT_SHADER,
    ));
    assert(r11.work.take(r.work.len() as int) =~= r.work);
    let n = r.work.len();
    assert(r11.marks =~= r.marks + seq![
        Mark { stage: vk::STAGE_BOTTOM_OF_PIPE, work: n },
        Mark { stage: vk::STAGE_BOTTOM_OF_PIPE, work: n + 1 },
        Mark { stage: vk::STAGE_BOTTOM_OF_PIPE, work: n + 2 },
    ]);
}

/// A frame can be recorded whatever state its images are left in by earlier ones: every image is
/// in the layout that it is used in, every write to it is waited for before it is used otherwise,
/// every draw and dispatch has its pipeline, descriptors and constants, and rendering that begins
/// ends. Each pass is timed once, in order, and the image that was drawn can be shown.
pub proof fn law_frame_is_in_order(
    p: FrameParams,
    primitives: Seq<PrimitiveData>,
    index_counts: Seq<u32>,
    layouts: spec_fn(ImageSlot, int) -> i32,
)
    requires
        p.frame_index < MAX_FRAMES_IN_FLIGHT,
    ensures
        ({
            let after = record(
                frame_commands(p, primitives, index_counts),
                fresh_recording(layouts),
            );
            &&& after is Some
            &&& after->0.scope is None
            &&& (after->0.layouts)(ImageSlot::Swapchain(p.image_index), 0)
                == vk::LAYOUT_PRESENT_SRC_KHR
            &&& (after->0.unsynced)(ImageSlot::Swapchain(p.image_index), 0) is None
            &&& after->0.images().visible_to(
                ImageSlot::Swapchain(p.image_index),
                0,
                vk::STAGE_COLOR_ATTACHMENT_OUTPUT,
                vk::ACCESS_NONE,
            )
            &&& after->0.stamps == Seq::new(
                (PASS_COUNT + 1) as nat,
                |i: int| (query_base(p.frame_index) + i) as u32,
            )
        }),
{
    lemma_frame(p, primitives, index_counts, layouts);
    let r11 = record(frame_commands(p, primitives, index_counts), fresh_recording(layouts))->0;
    assert(r11.stamps =~= Seq::new(
        (PASS_COUNT + 1) as nat,
        |i: int| (query_base(p.frame_index) + i) as u32,
    ));
}

proof fn lemma_frame(
    p: FrameParams,
    primitives: Seq<PrimitiveData>,
    index_counts: Seq<u32>,
    layouts: spec_fn(ImageSlot, int) -> i32,
)
    requires
        p.frame_index < MAX_FRAMES_IN_FLIGHT,
    ensures
        ({
            let r0 = fresh_recording(layouts);
            let after = record(frame_commands(p, primitives, index_counts), r0);
            let scene = record(scene_commands(p, primitives, index_counts), r0)->0;
            let computed = record(compute_commands(p), scene)->0;
            &&& between(after, p, 8)
            &&& after->0.images().settled(
                ImageSlot::Swapchain(p.image_index),
                0,
                vk::LAYOUT_PRESENT_SRC_KHR,
            )
            &&& after->0.images().visible_to(
                ImageSlot::Swapchain(p.image_index),
                0,
                vk::STAGE_COLOR_ATTACHMENT_OUTPUT,
                vk::ACCESS_NONE,
            )
            &&& computes_added(scene, p, computed)
            &&& screen_added(computed, p, after->0)
        }),
{
    let r0 = fresh_recording(layouts);
    let c3 = scene_commands(p, primitives, index_counts);
    lemma_scene_commands(p, primitives, index_counts, layouts);
    let r3 = record(c3, r0)->0;
    lemma_compute_commands(p, r3);
    lemma_record_concat(c3, compute_commands(p), r0);
    let c9 = c3 + compute_commands(p);
    let r9 = record(c9, r0)->0;
    lemma_screen_commands(p, r9);
    lemma_record_concat(c9, postfx_commands(p) + ui_commands(p), r0);
    assert(c9 + (postfx_commands(p) + ui_commands(p)) =~= frame_commands(
        p,
        primitives,
        index_counts,
    ));
}

/// Every pass that draws the scene draws all of it, primitive by primitive: the draw of primitive
/// `i` finds the vertices and the indices of primitive `i` bound and the object and the material
/// of primitive `i` pushed last, and it draws just its indices, once. The pass of a cascade draws
/// into the layer of the shadow map that the shaders are told of, the last of these passes into the
/// geometry buffer, all of it, with a depth buffer of its own; each starts from cleared images and
/// keeps what it drew.
pub proof fn law_frame_draws_scene(
    p: FrameParams,
    primitives: Seq<PrimitiveData>,
    index_counts: Seq<u32>,
    layouts: spec_fn(ImageSlot, int) -> i32,
    pass: int,
    i: int,
)
    requires
        p.frame_index < MAX_FRAMES_IN_FLIGHT,
        primitives.len() == index_counts.len(),
        primitives.len() <= usize::MAX,
        0 <= pass <= CASCADES,
        0 <= i < primitives.len(),
    ensures
        ({
            let work = record(
                frame_commands(p, primitives, index_counts),
                fresh_recording(layouts),
            )->0.work;
            let n = primitives.len();
            &&& work.len() == (CASCADES + 1) * n + 5
            &&& work[pass * n + i] matches Work::DrawIndexed {
                scope,
                pipeline,
                payload,
                vertices,
                indices,
                index_type,
                index_count,
                instance_count,
            } && {
                &&& vertices == i
                &&& indices == i
                &&& index_type == vk::INDEX_UINT32
                &&& index_count == index_counts[i]
                &&& instance_count == 1
                &&& pass < CASCADES ==> {
                    &&& pipeline == PipelineSlot::Shadow
                    &&& payload matches Some(PushPayload::Shadow(constants)) && {
                        &&& constants.frame_ptr == p.frame_ptr
                        &&& constants.objects_ptr == p.objects_ptr
                        &&& constants.materials_ptr == p.materials_ptr
                        &&& constants.object_id == primitives[i].object_id
                        &&& constants.material_id == primitives[i].material_id
                        &&& constants.cascade_index == pass
                    }
                    &&& scope.area.width == 2048
                    &&& scope.area.height == 2048
                    &&& scope.color is None
                    &&& scope.depth matches Some(depth) && {
                        &&& depth.image == ImageSlot::Shadowmap
                        &&& depth.layer matches Some(layer) && layer == pass
                        &&& depth.load_op == vk::LOAD_OP_CLEAR
                        &&& depth.store_op == vk::STORE_OP_STORE
                        &&& depth.clear matches ClearValue::DepthStencil { depth: far, stencil }
                            && far == vk::F32_ONE && stencil == 0
                    }
                }
                &&& pass == CASCADES ==> {
                    &&& pipeline == PipelineSlot::Primary
                    &&& payload matches Some(PushPayload::Primary(constants)) && {
                        &&& constants.frame_ptr == p.frame_ptr
                        &&& constants.objects_ptr == p.objects_ptr
                        &&& constants.materials_ptr == p.materials_ptr
                        &&& constants.object_id == primitives[i].object_id
                        &&& constants.material_id == primitives[i].material_id
                    }
                    &&& scope.area == p.render_size
                    &&& scope.color matches Some(color) && {
                        &&& color.image == ImageSlot::Gbuffer
                        &&& color.layer is None
                        &&& color.load_op == vk::LOAD_OP_CLEAR
                        &&& color.store_op == vk::STORE_OP_STORE
                        &&& color.clear matches ClearValue::Uint { r, g, b, a } && r == 0 && g == 0
                            && b == 0 && a == 0
                    }
                    &&& scope.depth matches Some(depth) && {
                        &&& depth.image == ImageSlot::Depth
                        &&& depth.layer is None
                        &&& depth.load_op == vk::LOAD_OP_CLEAR
                        &&& depth.store_op == vk::STORE_OP_STORE
                        &&& depth.clear matches ClearValue::DepthStencil { depth: far, stencil }
                            && far == vk::F32_ONE && stencil == 0
                    }
                }
            }
        }),
{
    let n = primitives.len();
    let r0 = fresh_recording(layouts);
    let shadows = shadow_work(p, primitives, index_counts, CASCADES as nat);
    lemma_frame(p, primitives, index_counts, layouts);
    lemma_scene_commands(p, primitives, index_counts, layouts);
    lemma_shadow_work_len(p, primitives, index_counts, CASCADES as nat);
    let scene = record(scene_commands(p, primitives, index_counts), r0)->0;
    let computed = record(compute_commands(p), scene)->0;
    let work = record(frame_commands(p, primitives, index_counts), r0)->0.work;
    assert((CASCADES + 1) * n == CASCADES * n + n) by (nonlinear_arith);
    assert(0 <= pass * n <= CASCADES * n) by (nonlinear_arith)
        requires
            0 <= pass <= CASCADES,
    ;
    if pass < CASCADES {
        lemma_shadow_work(p, primitives, index_counts, CASCADES as nat, pass, i);
    }
    let at = pass * n + i;
    assert(work[at] == work.take(computed.work.len() as int)[at]);
    assert(computed.work[at] == computed.work.take(scene.work.len() as int)[at]);
}

/// After the scene a frame computes three times, each time over all of the image that is rendered
/// and with the constants of this frame: ambient occlusion from the geometry and its depth, then its
/// blend with the half of the history that the frame before wrote into the other half, then the
/// lit image from the geometry, the shadows and that blend. Each finds its inputs in the layouts
/// in which they are read, with every write to them waited for, and its output open for writing.
pub proof fn law_frame_lights_scene(
    p: FrameParams,
    primitives: Seq<PrimitiveData>,
    index_counts: Seq<u32>,
    layouts: spec_fn(ImageSlot, int) -> i32,
)
    requires
        p.frame_index < MAX_FRAMES_IN_FLIGHT,
        primitives.len() <= usize::MAX,
    ensures
        ({
            let work = record(
                frame_commands(p, primitives, index_counts),
                fresh_recording(layouts),
            )->0.work;
            let n = (CASCADES + 1) * primitives.len();
            let size = p.render_size;
            let read = ImageSlot::AoHistory((p.frame_id % 2) as usize);
            let written = ImageSlot::AoHistory(((p.frame_id + 1) % 2) as usize);
            let compute = vk::STAGE_COMPUTE_SHADER;
            &&& work[n] matches Work::Dispatch { pipeline, payload, x, y, z, images } && {
                &&& pipeline == PipelineSlot::Ao
                &&& payload matches Some(PushPayload::Basic(c)) && c.frame_ptr == p.frame_ptr
                &&& groups_cover(x, 16, size.width) && groups_cover(y, 16, size.height) && z == 1
                &&& images.settled(ImageSlot::Gbuffer, 0, vk::LAYOUT_READ_ONLY_OPTIMAL)
                &&& images.settled(ImageSlot::Depth, 0, vk::LAYOUT_DEPTH_READ_ONLY_OPTIMAL)
                &&& images.visible_to(
                    ImageSlot::Depth,
                    0,
                    compute,
                    vk::ACCESS_SHADER_SAMPLED_READ,
                )
                &&& images.settled(ImageSlot::Ao, 0, vk::LAYOUT_GENERAL)
                &&& images.visible_to(ImageSlot::Ao, 0, compute, vk::ACCESS_SHADER_STORAGE_WRITE)
            }
            &&& work[n + 1] matches Work::Dispatch { pipeline, payload, x, y, z, images } && {
                &&& pipeline == PipelineSlot::AoReproject
                &&& payload matches Some(PushPayload::Basic(c)) && c.frame_ptr == p.frame_ptr
                &&& groups_cover(x, 16, size.width) && groups_cover(y, 16, size.height) && z == 1
                &&& images.settled(ImageSlot::Ao, 0, vk::LAYOUT_READ_ONLY_OPTIMAL)
                &&& images.visible_to(ImageSlot::Ao, 0, compute, vk::ACCESS_SHADER_SAMPLED_READ)
                &&& images.settled(read, 0, vk::LAYOUT_GENERAL)
                &&& images.visible_to(read, 0, compute, vk::ACCESS_SHADER_SAMPLED_READ)
                &&& images.settled(written, 0, vk::LAYOUT_GENERAL)
                &&& images.visible_to(written, 0, compute, vk::ACCESS_SHADER_STORAGE_WRITE)
            }
            &&& work[n + 2] matches Work::Dispatch { pipeline, payload, x, y, z, images } && {
                &&& pipeline == PipelineSlot::Deferred
                &&& payload matches Some(PushPayload::Basic(c)) && c.frame_ptr == p.frame_ptr
                &&& groups_cover(x, 8, size.width) && groups_cover(y, 8, size.height) && z == 1
                &&& forall|layer: int|
                    0 <= layer < CASCADES ==> #[trigger] images.settled(
                        ImageSlot::Shadowmap,
                        layer,
                        vk::LAYOUT_DEPTH_READ_ONLY_OPTIMAL,
                    )
                &&& forall|layer: int|
                    0 <= layer < CASCADES ==> #[trigger] images.visible_to(
                        ImageSlot::Shadowmap,
                        layer,
                        vk::STAGE_FRAGMENT_SHADER,
                        vk::ACCESS_DEPTH_STENCIL_ATTACHMENT_READ,
                    )
                &&& images.settled(ImageSlot::Gbuffer, 0, vk::LAYOUT_READ_ONLY_OPTIMAL)
                &&& images.visible_to(
                    ImageSlot::Gbuffer,
                    0,
                    vk::STAGE_FRAGMENT_SHADER,
                    vk::ACCESS_SHADER_SAMPLED_READ,
                )
                &&& images.settled(ImageSlot::Depth, 0, vk::LAYOUT_DEPTH_READ_ONLY_OPTIMAL)
                &&& images.settled(written, 0, vk::LAYOUT_GENERAL)
                &&& images.visible_to(written, 0, compute, vk::ACCESS_SHADER_SAMPLED_READ)
                &&& images.settled(ImageSlot::ColorOutput, 0, vk::LAYOUT_GENERAL)
                &&& images.visible_to(
                    ImageSlot::ColorOutput,
                    0,
                    compute,
                    vk::ACCESS_SHADER_STORAGE_WRITE,
                )
            }
        }),
{
    let r0 = fresh_recording(layouts);
    lemma_frame(p, primitives, index_counts, layouts);
    lemma_scene_commands(p, primitives, index_counts, layouts);
    lemma_shadow_work_len(p, primitives, index_counts, CASCADES as nat);
    let m = primitives.len();
    assert((CASCADES + 1) * m == CASCADES * m + m) by (nonlinear_arith);
    let scene = record(scene_commands(p, primitives, index_counts), r0)->0;
    let computed = record(compute_commands(p), scene)->0;
    let work = record(frame_commands(p, primitives, index_counts), r0)->0.work;
    let n = scene.work.len() as int;
    let size = p.render_size;
    assert(work[n] == work.take(n + 3)[n]);
    assert(work[n + 1] == work.take(n + 3)[n + 1]);
    assert(work[n + 2] == work.take(n + 3)[n + 2]);
    law_work_groups_cover_image(size.width, 16);
    law_work_groups_cover_image(size.height, 16);
    law_work_groups_cover_image(size.width, 8);
    law_work_groups_cover_image(size.height, 8);
}

/// A frame ends on the screen: one triangle covers the image that is shown, in front of a cleared
/// background, with the lit image to read, and the user interface is drawn over it into the same
/// image; nothing is drawn after that.
pub proof fn law_frame_reaches_screen(
    p: FrameParams,
    primitives: Seq<PrimitiveData>,
    index_counts: Seq<u32>,
    layouts: spec_fn(ImageSlot, int) -> i32,
)
    requires
        p.frame_index < MAX_FRAMES_IN_FLIGHT,
        primitives.len() <= usize::MAX,
    ensures
        ({
            let work = record(
                frame_commands(p, primitives, index_counts),
                fresh_recording(layouts),
            )->0.work;
            let n = (CASCADES + 1) * primitives.len();
            &&& work.len() == n + 5
            &&& work[n + 3] matches Work::Draw {
                scope,
                pipeline,
                payload,
                vertex_count,
                instance_count,
                images,
            } && {
                &&& pipeline == PipelineSlot::PostFx
                &&& payload matches Some(PushPayload::Basic(c)) && c.frame_ptr == p.frame_ptr
                &&& vertex_count == 3
                &&& instance_count == 1
                &&& images.settled(ImageSlot::ColorOutput, 0, vk::LAYOUT_READ_ONLY_OPTIMAL)
                &&& images.visible_to(
                    ImageSlot::ColorOutput,
                    0,
                    vk::STAGE_FRAGMENT_SHADER,
                    vk::ACCESS_SHADER_SAMPLED_READ,
                )
                &&& scope.area == p.viewport_size
                &&& scope.depth is None
                &&& scope.color matches Some(color) && {
                    &&& color.image == ImageSlot::Swapchain(p.image_index)
                    &&& color.layer is None
                    &&& color.load_op == vk::LOAD_OP_CLEAR
                    &&& color.store_op == vk::STORE_OP_STORE
                    &&& color.clear matches ClearValue::Float { r, g, b, a } && r == vk::F32_ZERO
                        && g == vk::F32_ZERO && b == vk::F32_ZERO && a == vk::F32_ONE
                }
                &&& work[n + 4] == (Work::Ui { scope })
            }
        }),
{
    let r0 = fresh_recording(layouts);
    lemma_frame(p, primitives, index_counts, layouts);
    lemma_scene_commands(p, primitives, index_counts, layouts);
    lemma_shadow_work_len(p, primitives, index_counts, CASCADES as nat);
    let m = primitives.len();
    assert((CASCADES + 1) * m == CASCADES * m + m) by (nonlinear_arith);
}

/// The timestamps of a frame enclose its passes: the first is written before anything is done, and
/// each of the others once all the work of the passes before it, and none of the work after it, has
/// been done.
pub proof fn law_timestamps_enclose_passes(
    p: FrameParams,
    primitives: Seq<PrimitiveData>,
    index_counts: Seq<u32>,
    layouts: spec_fn(ImageSlot, int) -> i32,
)
    requires
        p.frame_index < MAX_FRAMES_IN_FLIGHT,
        primitives.len() <= usize::MAX,
    ensures
        ({
            let marks = record(
                frame_commands(p, primitives, index_counts),
                fresh_recording(layouts),
            )->0.marks;
            let n = primitives.len();
            &&& marks.len() == PASS_COUNT + 1
            &&& marks[0].stage == vk::STAGE_TOP_OF_PIPE
            &&& forall|i: int|
                1 <= i <= PASS_COUNT ==> #[trigger] marks[i].stage == vk::STAGE_BOTTOM_OF_PIPE
            &&& marks[PASS_SHADOW as int].work == 0
            &&& marks[PASS_PRIMARY as int].work == CASCADES * n
            &&& marks[PASS_AO as int].work == (CASCADES + 1) * n
            &&& marks[PASS_AO_REPROJECT as int].work == (CASCADES + 1) * n + 1
            &&& marks[PASS_DEFERRED as int].work == (CASCADES + 1) * n + 2
            &&& marks[PASS_POSTFX as int].work == (CASCADES + 1) * n + 3
            &&& marks[PASS_UI as int].work == (CASCADES + 1) * n + 4
            &&& marks[PASS_COUNT as int].work == (CASCADES + 1) * n + 5
        }),
{
    let r0 = fresh_recording(layouts);
    lemma_frame(p, primitives, index_counts, layouts);
    lemma_scene_commands(p, primitives, index_counts, layouts);
    lemma_shadow_work_len(p, primitives, index_counts, CASCADES as nat);
    let m = primitives.len();
    assert((CASCADES + 1) * m == CASCADES * m + m) by (nonlinear_arith);
}

/// A number of work groups covers a length, and none of them lies outside of it.
pub open spec fn groups_cover(count: u32, group: int, length: u32) -> bool {
    &&& count * group >= length
    &&& length > 0 ==> (count - 1) * group < length
    &&& length == 0 ==> count == 0
}

/// The work groups of a dispatch cover the image, and none of them lies outside of it.
pub proof fn law_work_groups_cover_image(size: u32, group: u32)
    requires
        group > 0,
    ensures
        ceil_div(size, group) * group >= size,
        size > 0 ==> (ceil_div(size, group) - 1) * group < size,
        size == 0 ==> ceil_div(size, group) == 0,
{
    let a = size + group - 1;
    let g = group as int;
    let q = a / g;
    vstd::arithmetic::div_mod::lemma_fundamental_div_mod(a, g);
    assert(0 <= q <= size) by (nonlinear_arith)
        requires
            a == g * q + a % g,
            0 <= a % g < g,
            a == size + g - 1,
            g > 0,
            size >= 0,
    ;
    assert(q * g >= size && (q - 1) * g <= size - 1) by (nonlinear_arith)
        requires
            a == g * q + a % g,
            0 <= a % g < g,
            a == size + g - 1,
    ;
}

} // verus!
