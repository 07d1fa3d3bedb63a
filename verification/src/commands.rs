//! The commands of a frame, and the rules that a recording of them has to keep.
use crate::outside::{bytes_of_address, cast_words, native_address, native_words};
use crate::pipelines::{
    PipelineSlot, DEPTH_FORMAT, GBUFFER_FORMAT, SHADOWMAP_FORMAT, SWAPCHAIN_FORMAT,
};
use crate::vk;
use crate::vk::{Extent2D, ImageBarrier};
use vstd::prelude::*;

verus! {

/// The images that a frame works on.
#[derive(Clone, Copy, Debug, PartialEq, Eq, Structural)]
pub enum ImageSlot {
    Shadowmap,
    Gbuffer,
    Depth,
    Ao,
    /// One of the two images of ambient occlusion that frames take turns with.
    AoHistory(usize),
    ColorOutput,
    /// An image of the swapchain.
    Swapchain(usize),
}

impl ImageSlot {
    /// The format of an image that is drawn into.
    pub open spec fn format(self) -> i32 {
        match self {
            ImageSlot::Shadowmap => SHADOWMAP_FORMAT,
            ImageSlot::Gbuffer => GBUFFER_FORMAT,
            ImageSlot::Depth => DEPTH_FORMAT,
            ImageSlot::Swapchain(_) => SWAPCHAIN_FORMAT,
            ImageSlot::Ao | ImageSlot::AoHistory(_) => vk::FORMAT_R32_SFLOAT,
            ImageSlot::ColorOutput => vk::FORMAT_R16G16B16A16_SFLOAT,
        }
    }
}

/// A barrier on one of the images.
#[derive(Clone, Copy, Debug, PartialEq, Eq, Structural)]
pub struct SlotBarrier {
    pub image: ImageSlot,
    pub barrier: ImageBarrier,
}

/// What an attachment is cleared to.
#[derive(Clone, Copy, Debug, PartialEq, Eq, Structural)]
pub enum ClearValue {
    /// A colour of integers.
    Uint { r: u32, g: u32, b: u32, a: u32 },
    /// A colour of single-precision numbers, held as their bits.
    Float { r: u32, g: u32, b: u32, a: u32 },
    /// A depth, held as the bits of a single-precision number, and a stencil value.
    DepthStencil { depth: u32, stencil: u32 },
}

/// An image that is drawn into.
#[derive(Clone, Copy, Debug, PartialEq, Eq)]
pub struct Attachment {
    pub image: ImageSlot,
    /// The layer that is drawn into, where the image has several.
    pub layer: Option<u32>,
    pub layout: i32,
    pub load_op: i32,
    pub store_op: i32,
    pub clear: ClearValue,
}

/// The push constants of the pass that draws the geometry.
#[derive(Clone, Copy, Debug, PartialEq, Eq, Structural)]
pub struct PrimaryPushConstants {
    pub frame_ptr: u64,
    pub objects_ptr: u64,
    pub materials_ptr: u64,
    pub object_id: u32,
    pub material_id: u32,
}

/// The push constants of the pass that draws the shadow map.
#[derive(Clone, Copy, Debug, PartialEq, Eq, Structural)]
pub struct ShadowPushConstants {
    pub frame_ptr: u64,
    pub objects_ptr: u64,
    pub materials_ptr: u64,
    pub object_id: u32,
    pub material_id: u32,
    pub cascade_index: u32,
    pub _pad: u32,
}

/// The push constants of all other passes.
#[derive(Clone, Copy, Debug, PartialEq, Eq, Structural)]
pub struct BasicPushConstants {
    pub frame_ptr: u64,
}

impl PrimaryPushConstants {
    /// The bytes that the shader reads: the fields in order, without gaps.
    pub fn bytes(&self) -> (r: Vec<u8>)
        ensures
            r@.len() == 32,
            native_address(self.frame_ptr, r@.subrange(0, 8)),
            native_address(self.objects_ptr, r@.subrange(8, 16)),
            native_address(self.materials_ptr, r@.subrange(16, 24)),
            native_words(seq![self.object_id, self.material_id], r@.subrange(24, 32)),
    {
        let mut a = bytes_of_address(self.frame_ptr);
        let mut b = bytes_of_address(self.objects_ptr);
        let mut c = bytes_of_address(self.materials_ptr);
        let mut d = cast_words(&[self.object_id, self.material_id]);
        let ghost (va, vb, vc, vd) = (a@, b@, c@, d@);
        a.append(&mut b);
        a.append(&mut c);
        a.append(&mut d);
        assert([self.object_id, self.material_id]@ =~= seq![self.object_id, self.material_id]);
        assert(a@.subrange(0, 8) =~= va);
        assert(a@.subrange(8, 16) =~= vb);
        assert(a@.subrange(16, 24) =~= vc);
        assert(a@.subrange(24, 32) =~= vd);
        a
    }
}

impl ShadowPushConstants {
    /// The bytes that the shader reads: the fields in order, without gaps.
    pub fn bytes(&self) -> (r: Vec<u8>)
        ensures
            r@.len() == 40,
            native_address(self.frame_ptr, r@.subrange(0, 8)),
            native_address(self.objects_ptr, r@.subrange(8, 16)),
            native_address(self.materials_ptr, r@.subrange(16, 24)),
            native_words(
                seq![self.object_id, self.material_id, self.cascade_index, self._pad],
                r@.subrange(24, 40),
            ),
    {
        let mut a = bytes_of_address(self.frame_ptr);
        let mut b = bytes_of_address(self.objects_ptr);
        let mut c = bytes_of_address(self.materials_ptr);
        let words: [u32; 4] = [self.object_id, self.material_id, self.cascade_index, self._pad];
        let mut d = cast_words(&words);
        let ghost (va, vb, vc, vd) = (a@, b@, c@, d@);
        a.append(&mut b);
        a.append(&mut c);
        a.append(&mut d);
        assert(words@ =~= seq![
            self.object_id,
            self.material_id,
            self.cascade_index,
            self._pad,
        ]);
        assert(a@.subrange(0, 8) =~= va);
        assert(a@.subrange(8, 16) =~= vb);
        assert(a@.subrange(16, 24) =~= vc);
        assert(a@.subrange(24, 40) =~= vd);
        a
    }
}

impl BasicPushConstants {
    /// The bytes that the shader reads.
    pub fn bytes(&self) -> (r: Vec<u8>)
        ensures
            r@.len() == 8,
            native_address(self.frame_ptr, r@),
    {
        bytes_of_address(self.frame_ptr)
    }
}

/// What is pushed to the shaders of a pipeline.
#[derive(Clone, Copy, Debug, PartialEq, Eq, Structural)]
pub enum PushPayload {
    Primary(PrimaryPushConstants),
    Shadow(ShadowPushConstants),
    Basic(BasicPushConstants),
}

impl PushPayload {
    /// The number of bytes pushed.
    pub open spec fn size(self) -> u32 {
        match self {
            PushPayload::Primary(_) => 32,
            PushPayload::Shadow(_) => 40,
            PushPayload::Basic(_) => 8,
        }
    }

    /// The bytes pushed.
    pub fn bytes(&self) -> (r: Vec<u8>)
        ensures
            r@.len() == self.size(),
            match *self {
                PushPayload::Primary(p) => {
                    &&& native_address(p.frame_ptr, r@.subrange(0, 8))
                    &&& native_address(p.objects_ptr, r@.subrange(8, 16))
                    &&& native_address(p.materials_ptr, r@.subrange(16, 24))
                    &&& native_words(seq![p.object_id, p.material_id], r@.subrange(24, 32))
                },
                PushPayload::Shadow(p) => {
                    &&& native_address(p.frame_ptr, r@.subrange(0, 8))
                    &&& native_address(p.objects_ptr, r@.subrange(8, 16))
                    &&& native_address(p.materials_ptr, r@.subrange(16, 24))
                    &&& native_words(
                        seq![p.object_id, p.material_id, p.cascade_index, p._pad],
                        r@.subrange(24, 40),
                    )
                },
                PushPayload::Basic(p) => native_address(p.frame_ptr, r@),
            },
    {
        match self {
            PushPayload::Primary(p) => p.bytes(),
            PushPayload::Shadow(p) => p.bytes(),
            PushPayload::Basic(p) => p.bytes(),
        }
    }
}

/// A command of a frame.
#[derive(Clone, Copy, Debug, PartialEq, Eq)]
pub enum Command {
    /// Make timestamps ready to be written.
    ResetQueries { base: u32, count: u32 },
    /// Write a timestamp once all work so far has passed a stage.
    Timestamp { stage: u64, query: u32 },
    /// Up to three barriers at once.
    Barriers { first: SlotBarrier, second: Option<SlotBarrier>, third: Option<SlotBarrier> },
    /// Start drawing into attachments, in an area that starts at the origin.
    BeginRendering { area: Extent2D, color: Option<Attachment>, depth: Option<Attachment> },
    EndRendering,
    /// Map the whole depth range and the given area, from the origin on.
    Viewport(Extent2D),
    /// Draw in the given area only, from the origin on.
    Scissor(Extent2D),
    BindPipeline { bind_point: i32, pipeline: PipelineSlot },
    /// Bind the descriptor set under the layout of a pipeline.
    BindDescriptors { bind_point: i32, pipeline: PipelineSlot },
    /// Bind the vertices of a primitive of the scene.
    BindVertexBuffer { primitive: usize },
    /// Bind the indices of a primitive of the scene.
    BindIndexBuffer { primitive: usize, index_type: i32 },
    /// Push constants under the layout of a pipeline.
    PushConstants { pipeline: PipelineSlot, stages: u32, payload: PushPayload },
    DrawIndexed { index_count: u32, instance_count: u32 },
    Draw { vertex_count: u32, instance_count: u32 },
    Dispatch { x: u32, y: u32, z: u32 },
    /// Draw the user interface.
    DrawUi,
}

/// What is being drawn into.
pub struct RenderScope {
    pub area: Extent2D,
    pub color: Option<Attachment>,
    pub depth: Option<Attachment>,
}

/// The stages and the accesses of a use of an image.
pub struct ImageUse {
    pub stage: u64,
    pub access: u64,
}

/// The images at one point of a recording, layer by layer.
pub struct ImageStates {
    pub layouts: spec_fn(ImageSlot, int) -> i32,
    /// The last write of this recording that no barrier has waited for yet.
    pub unsynced: spec_fn(ImageSlot, int) -> Option<ImageUse>,
    /// What the last barrier of this recording made the contents visible to.
    pub visible: spec_fn(ImageSlot, int) -> ImageUse,
}

/// A piece of work that the device is given, with all that it works on.
pub enum Work {
    DrawIndexed {
        scope: RenderScope,
        pipeline: PipelineSlot,
        /// The constants pushed last.
        payload: Option<PushPayload>,
        vertices: int,
        indices: int,
        index_type: i32,
        index_count: u32,
        instance_count: u32,
    },
    Draw {
        scope: RenderScope,
        pipeline: PipelineSlot,
        payload: Option<PushPayload>,
        vertex_count: u32,
        instance_count: u32,
        images: ImageStates,
    },
    Dispatch {
        pipeline: PipelineSlot,
        payload: Option<PushPayload>,
        x: u32,
        y: u32,
        z: u32,
        images: ImageStates,
    },
    Ui { scope: RenderScope },
}

/// A timestamp that was written: in which stage, and after how many pieces of work.
pub struct Mark {
    pub stage: u64,
    pub work: nat,
}

/// The state of a command buffer while it is recorded.
pub struct Recording {
    /// The layout of each layer of each image.
    pub layouts: spec_fn(ImageSlot, int) -> i32,
    /// The last write of each layer of each image that no barrier has waited for yet.
    pub unsynced: spec_fn(ImageSlot, int) -> Option<ImageUse>,
    /// What the last barrier on each layer of each image made its contents visible to.
    pub visible: spec_fn(ImageSlot, int) -> ImageUse,
    pub scope: Option<RenderScope>,
    pub graphics: Option<PipelineSlot>,
    pub compute: Option<PipelineSlot>,
    pub graphics_set: Option<PipelineSlot>,
    pub compute_set: Option<PipelineSlot>,
    /// The pipeline under whose layout constants were pushed last.
    pub pushed: Option<PipelineSlot>,
    /// The constants that were pushed last.
    pub payload: Option<PushPayload>,
    pub viewport: Option<Extent2D>,
    pub scissor: Option<Extent2D>,
    pub vertices: Option<int>,
    pub indices: Option<int>,
    pub index_type: Option<i32>,
    /// The timestamps that are ready: the first one and how many.
    pub ready: (int, int),
    /// The timestamps written, in order.
    pub stamps: Seq<u32>,
    /// When the timestamps were written, in order.
    pub marks: Seq<Mark>,
    /// The work that the device was given, in order.
    pub work: Seq<Work>,
}

impl Recording {
    /// The images as they are now.
    pub open spec fn images(self) -> ImageStates {
        ImageStates { layouts: self.layouts, unsynced: self.unsynced, visible: self.visible }
    }
}

/// The state at the start: nothing bound, nothing written, images in any layout.
pub open spec fn fresh_recording(layouts: spec_fn(ImageSlot, int) -> i32) -> Recording {
    Recording {
        layouts,
        unsynced: |image: ImageSlot, layer: int| None::<ImageUse>,
        visible: |image: ImageSlot, layer: int|
            ImageUse { stage: vk::STAGE_NONE, access: vk::ACCESS_NONE },
        scope: None,
        graphics: None,
        compute: None,
        graphics_set: None,
        compute_set: None,
        pushed: None,
        payload: None,
        viewport: None,
        scissor: None,
        vertices: None,
        indices: None,
        index_type: None,
        ready: (0, 0),
        stamps: Seq::empty(),
        marks: Seq::empty(),
        work: Seq::empty(),
    }
}

impl ImageSlot {
    /// What an image consists of.
    pub open spec fn aspect(self) -> u32 {
        match self {
            ImageSlot::Shadowmap | ImageSlot::Depth => vk::ASPECT_DEPTH,
            _ => vk::ASPECT_COLOR,
        }
    }

    /// What of earlier frames the first use of an image in a frame waits for: the images of the
    /// swapchain and the geometry buffer wait for colour to be put out, depth for the depth of the
    /// frame before, and the others for nothing.
    pub open spec fn earlier_use(self) -> ImageUse {
        match self {
            ImageSlot::Swapchain(_) | ImageSlot::Gbuffer => ImageUse {
                stage: vk::STAGE_COLOR_ATTACHMENT_OUTPUT,
                access: vk::ACCESS_NONE,
            },
            ImageSlot::Depth => ImageUse {
                stage: vk::STAGE_LATE_FRAGMENT_TESTS,
                access: vk::ACCESS_DEPTH_STENCIL_ATTACHMENT_WRITE,
            },
            _ => ImageUse { stage: vk::STAGE_NONE, access: vk::ACCESS_NONE },
        }
    }
}

impl ImageStates {
    /// A layer of an image is in a layout, and nothing that was written to it is still on its way.
    pub open spec fn settled(self, image: ImageSlot, layer: int, layout: i32) -> bool {
        (self.layouts)(image, layer) == layout && (self.unsynced)(image, layer) is None
    }

    /// The contents of a layer of an image are visible to a stage, for an access.
    pub open spec fn visible_to(
        self,
        image: ImageSlot,
        layer: int,
        stage: u64,
        access: u64,
    ) -> bool {
        (self.visible)(image, layer).stage == stage && (self.visible)(image, layer).access == access
    }
}

/// Whether a layer is covered by a barrier.
pub open spec fn covers(b: SlotBarrier, image: ImageSlot, layer: int) -> bool {
    let first = b.barrier.range.base_array_layer as int;
    b.image == image && first <= layer < first + b.barrier.range.layer_count
}

/// A barrier speaks of what the image consists of, and of its only level; it finds the layers that
/// it covers in the layout that it names, or does not care; and it waits for the last write to them.
pub open spec fn barrier_fits(b: SlotBarrier, images: ImageStates) -> bool {
    &&& b.barrier.range.aspect_mask == b.image.aspect()
    &&& b.barrier.range.base_mip_level == 0
    &&& b.barrier.range.level_count == 1
    &&& b.barrier.old_layout == vk::LAYOUT_UNDEFINED || forall|layer: int| #[trigger]
        covers(b, b.image, layer) ==> (images.layouts)(b.image, layer) == b.barrier.old_layout
    &&& forall|layer: int| #[trigger]
        covers(b, b.image, layer) ==> match (images.unsynced)(b.image, layer) {
            Some(write) => b.barrier.src_stage == write.stage && b.barrier.src_access
                == write.access,
            None => images.visible_to(b.image, layer, vk::STAGE_NONE, vk::ACCESS_NONE) ==> {
                &&& b.barrier.src_stage == b.image.earlier_use().stage
                &&& b.barrier.src_access == b.image.earlier_use().access
            },
        }
}

/// The images after a barrier.
pub open spec fn after_barrier(b: SlotBarrier, images: ImageStates) -> ImageStates {
    ImageStates {
        layouts: |image: ImageSlot, layer: int|
            if covers(b, image, layer) {
                b.barrier.new_layout
            } else {
                (images.layouts)(image, layer)
            },
        unsynced: |image: ImageSlot, layer: int|
            if covers(b, image, layer) {
                None::<ImageUse>
            } else {
                (images.unsynced)(image, layer)
            },
        visible: |image: ImageSlot, layer: int|
            if covers(b, image, layer) {
                ImageUse { stage: b.barrier.dst_stage, access: b.barrier.dst_access }
            } else {
                (images.visible)(image, layer)
            },
    }
}

/// A barrier that may be missing fits too.
pub open spec fn optional_fits(b: Option<SlotBarrier>, images: ImageStates) -> bool {
    match b {
        Some(b) => barrier_fits(b, images),
        None => true,
    }
}

/// The images after a barrier that may be missing.
pub open spec fn after_optional(b: Option<SlotBarrier>, images: ImageStates) -> ImageStates {
    match b {
        Some(b) => after_barrier(b, images),
        None => images,
    }
}

/// The layer that is drawn into.
pub open spec fn attachment_layer(a: Attachment) -> int {
    match a.layer {
        Some(layer) => layer as int,
        None => 0,
    }
}

/// How an image is written that is drawn into.
pub open spec fn attachment_write(image: ImageSlot) -> ImageUse {
    if image.aspect() == vk::ASPECT_DEPTH {
        ImageUse {
            stage: vk::STAGE_EARLY_FRAGMENT_TESTS | vk::STAGE_LATE_FRAGMENT_TESTS,
            access: vk::ACCESS_DEPTH_STENCIL_ATTACHMENT_WRITE,
        }
    } else {
        ImageUse {
            stage: vk::STAGE_COLOR_ATTACHMENT_OUTPUT,
            access: vk::ACCESS_COLOR_ATTACHMENT_WRITE,
        }
    }
}

/// An image is open for being drawn into, from the stage on in which that starts.
pub open spec fn opened(image: ImageSlot, visible: ImageUse) -> bool {
    if image.aspect() == vk::ASPECT_DEPTH {
        &&& visible.access == vk::ACCESS_DEPTH_STENCIL_ATTACHMENT_WRITE
        &&& visible.stage == vk::STAGE_EARLY_FRAGMENT_TESTS || visible.stage == (
        vk::STAGE_EARLY_FRAGMENT_TESTS | vk::STAGE_LATE_FRAGMENT_TESTS)
    } else {
        &&& visible.access == vk::ACCESS_COLOR_ATTACHMENT_READ | vk::ACCESS_COLOR_ATTACHMENT_WRITE
        &&& visible.stage == vk::STAGE_COLOR_ATTACHMENT_OUTPUT
    }
}

/// An attachment is in the layout that it is drawn into in and open for that, and what was written
/// to it has been waited for.
pub open spec fn attachment_fits(a: Option<Attachment>, images: ImageStates) -> bool {
    match a {
        Some(a) => {
            &&& (images.layouts)(a.image, attachment_layer(a)) == a.layout
            &&& (images.unsynced)(a.image, attachment_layer(a)) is None
            &&& opened(a.image, (images.visible)(a.image, attachment_layer(a)))
        },
        None => true,
    }
}

/// The writes that no barrier has waited for, after an attachment has been drawn into.
pub open spec fn after_attachment(
    a: Option<Attachment>,
    unsynced: spec_fn(ImageSlot, int) -> Option<ImageUse>,
) -> spec_fn(ImageSlot, int) -> Option<ImageUse> {
    match a {
        Some(a) => |image: ImageSlot, layer: int|
            if image == a.image && layer == attachment_layer(a) {
                Some(attachment_write(image))
            } else {
                unsynced(image, layer)
            },
        None => unsynced,
    }
}

/// The writes that no barrier has waited for, after a pass that computes: it writes with its
/// shader those of its images that are open for that.
pub open spec fn after_dispatch(images: ImageStates) -> spec_fn(
    ImageSlot,
    int,
) -> Option<ImageUse> {
    |image: ImageSlot, layer: int|
        if (images.visible)(image, layer) == (ImageUse {
            stage: vk::STAGE_COMPUTE_SHADER,
            access: vk::ACCESS_SHADER_STORAGE_WRITE,
        }) {
            Some(
                ImageUse {
                    stage: vk::STAGE_COMPUTE_SHADER,
                    access: vk::ACCESS_SHADER_STORAGE_WRITE,
                },
            )
        } else {
            (images.unsynced)(image, layer)
        }
}

/// The image of an attachment.
pub open spec fn attachment_image(a: Option<Attachment>) -> Option<ImageSlot> {
    match a {
        Some(a) => Some(a.image),
        None => None,
    }
}

/// The format of an attachment, where there is one.
pub open spec fn scope_format(image: Option<ImageSlot>) -> Option<i32> {
    match image {
        Some(image) => Some(image.format()),
        None => None,
    }
}

/// A pipeline has all that its shaders read.
pub open spec fn supplied(
    pipeline: PipelineSlot,
    set: Option<PipelineSlot>,
    pushed: Option<PipelineSlot>,
) -> bool {
    let layout = pipeline.pipeline_layout();
    &&& layout.descriptor_set ==> set == Some(pipeline)
    &&& layout.push.stages != 0 ==> pushed == Some(pipeline)
}

/// A draw is in order: something is being drawn into, by a drawing pipeline whose formats agree
/// with the attachments, in an area that is all visible, with all that the shaders read.
pub open spec fn draw_fits(r: Recording) -> bool {
    match (r.scope, r.graphics) {
        (Some(scope), Some(pipeline)) => {
            &&& !pipeline.computes()
            &&& pipeline.color_format() == scope_format(attachment_image(scope.color))
            &&& match attachment_image(scope.depth) {
                Some(depth) => pipeline.depth_format() == depth.format(),
                None => pipeline.depth_format() == vk::FORMAT_UNDEFINED,
            }
            &&& r.viewport == Some(scope.area)
            &&& r.scissor == Some(scope.area)
            &&& supplied(pipeline, r.graphics_set, r.pushed)
        },
        _ => false,
    }
}

/// The state after a command, or nothing if the command is out of order.
pub open spec fn step(command: Command, r: Recording) -> Option<Recording> {
    match command {
        Command::ResetQueries { base, count } => if r.scope is None {
            Some(
                Recording {
                    ready: (base as int, count as int),
                    stamps: Seq::empty(),
                    marks: Seq::empty(),
                    ..r
                },
            )
        } else {
            None
        },
        Command::Timestamp { stage, query } => if r.ready.0 <= query < r.ready.0 + r.ready.1
            && !r.stamps.contains(query) {
            Some(
                Recording {
                    stamps: r.stamps.push(query),
                    marks: r.marks.push(Mark { stage, work: r.work.len() }),
                    ..r
                },
            )
        } else {
            None
        },
        Command::Barriers { first, second, third } => {
            let one = after_barrier(first, r.images());
            let two = after_optional(second, one);
            let three = after_optional(third, two);
            if r.scope is None && barrier_fits(first, r.images()) && optional_fits(second, one)
                && optional_fits(third, two) {
                Some(
                    Recording {
                        layouts: three.layouts,
                        unsynced: three.unsynced,
                        visible: three.visible,
                        ..r
                    },
                )
            } else {
                None
            }
        },
        Command::BeginRendering { area, color, depth } => if r.scope is None && attachment_fits(
            color,
            r.images(),
        ) && attachment_fits(depth, r.images()) {
            Some(
                Recording {
                    scope: Some(RenderScope { area, color, depth }),
                    unsynced: after_attachment(depth, after_attachment(color, r.unsynced)),
                    ..r
                },
            )
        } else {
            None
        },
        Command::EndRendering => if r.scope is Some {
            Some(Recording { scope: None, ..r })
        } else {
            None
        },
        Command::Viewport(area) => Some(Recording { viewport: Some(area), ..r }),
        Command::Scissor(area) => Some(Recording { scissor: Some(area), ..r }),
        Command::BindPipeline { bind_point, pipeline } => if bind_point != pipeline.bind_point() {
            None
        } else if pipeline.computes() {
            Some(Recording { compute: Some(pipeline), ..r })
        } else {
            Some(Recording { graphics: Some(pipeline), ..r })
        },
        Command::BindDescriptors { bind_point, pipeline } => if bind_point != pipeline.bind_point()
            || !pipeline.pipeline_layout().descriptor_set {
            None
        } else if pipeline.computes() {
            Some(Recording { compute_set: Some(pipeline), ..r })
        } else {
            Some(Recording { graphics_set: Some(pipeline), ..r })
        },
        Command::BindVertexBuffer { primitive } => Some(
            Recording { vertices: Some(primitive as int), ..r },
        ),
        Command::BindIndexBuffer { primitive, index_type } => Some(
            Recording { indices: Some(primitive as int), index_type: Some(index_type), ..r },
        ),
        Command::PushConstants { pipeline, stages, payload } => if stages
            == pipeline.pipeline_layout().push.stages && payload.size()
            == pipeline.pipeline_layout().push.size {
            Some(Recording { pushed: Some(pipeline), payload: Some(payload), ..r })
        } else {
            None
        },
        Command::DrawIndexed { index_count, instance_count } => if draw_fits(r)
            && r.graphics->0.reads_vertices() && r.vertices is Some && r.indices == r.vertices
            && r.index_type is Some {
            Some(
                Recording {
                    work: r.work.push(
                        Work::DrawIndexed {
                            scope: r.scope->0,
                            pipeline: r.graphics->0,
                            payload: r.payload,
                            vertices: r.vertices->0,
                            indices: r.indices->0,
                            index_type: r.index_type->0,
                            index_count,
                            instance_count,
                        },
                    ),
                    ..r
                },
            )
        } else {
            None
        },
        Command::Draw { vertex_count, instance_count } => if draw_fits(r)
            && !r.graphics->0.reads_vertices() {
            Some(
                Recording {
                    work: r.work.push(
                        Work::Draw {
                            scope: r.scope->0,
                            pipeline: r.graphics->0,
                            payload: r.payload,
                            vertex_count,
                            instance_count,
                            images: r.images(),
                        },
                    ),
                    ..r
                },
            )
        } else {
            None
        },
        Command::Dispatch { x, y, z } => match r.compute {
            Some(pipeline) => if r.scope is None && supplied(pipeline, r.compute_set, r.pushed) {
                Some(
                    Recording {
                        unsynced: after_dispatch(r.images()),
                        work: r.work.push(
                            Work::Dispatch {
                                pipeline,
                                payload: r.payload,
                                x,
                                y,
                                z,
                                images: r.images(),
                            },
                        ),
                        ..r
                    },
                )
            } else {
                None
            },
            None => None,
        },
        Command::DrawUi => if r.scope is Some {
            Some(
                Recording {
                    graphics: None,
                    graphics_set: None,
                    pushed: None,
                    payload: None,
                    viewport: None,
                    scissor: None,
                    vertices: None,
                    indices: None,
                    index_type: None,
                    work: r.work.push(Work::Ui { scope: r.scope->0 }),
                    ..r
                },
            )
        } else {
            None
        },
    }
}

/// The state after commands, or nothing if one of them is out of order.
pub open spec fn record(commands: Seq<Command>, r: Recording) -> Option<Recording>
    decreases commands.len(),
{
    if commands.len() == 0 {
        Some(r)
    } else {
        match record(commands.drop_last(), r) {
            Some(before) => step(commands.last(), before),
            None => None,
        }
    }
}

/// Recording goes command by command.
pub broadcast proof fn lemma_record_push(commands: Seq<Command>, command: Command, r: Recording)
    ensures
        #[trigger] record(commands.push(command), r) == match record(commands, r) {
            Some(before) => step(command, before),
            None => None,
        },
{
    assert(commands.push(command).drop_last() =~= commands);
}

/// Recording two lists is recording the one and then the other.
pub proof fn lemma_record_concat(a: Seq<Command>, b: Seq<Command>, r: Recording)
    ensures
        record(a + b, r) == match record(a, r) {
            Some(before) => record(b, before),
            None => None,
        },
    decreases b.len(),
{
    if b.len() == 0 {
        assert(a + b =~= a);
    } else {
        lemma_record_concat(a, b.drop_last(), r);
        assert((a + b).drop_last() =~= a + b.drop_last());
    }
}

/// A command after others.
pub open spec fn and_step(before: Option<Recording>, command: Command) -> Option<Recording> {
    match before {
        Some(before) => step(command, before),
        None => None,
    }
}

/// Recording the last command of a list, after those before it.
pub proof fn lemma_record_take(commands: Seq<Command>, count: int, r: Recording)
    requires
        0 < count <= commands.len(),
    ensures
        record(commands.take(count), r) == and_step(
            record(commands.take(count - 1), r),
            commands[count - 1],
        ),
{
    assert(commands.take(count).drop_last() =~= commands.take(count - 1));
}

/// Recording a short list, command by command.
pub proof fn lemma_record_short(commands: Seq<Command>, r: Recording)
    ensures
        commands.len() == 1 ==> record(commands, r) == step(commands[0], r),
        commands.len() == 2 ==> record(commands, r) == and_step(
            step(commands[0], r),
            commands[1],
        ),
        commands.len() == 4 ==> record(commands, r) == and_step(
            and_step(and_step(step(commands[0], r), commands[1]), commands[2]),
            commands[3],
        ),
        commands.len() == 5 ==> record(commands, r) == and_step(
            and_step(
                and_step(and_step(step(commands[0], r), commands[1]), commands[2]),
                commands[3],
            ),
            commands[4],
        ),
        commands.len() == 7 ==> record(commands, r) == and_step(
            and_step(
                and_step(
                    and_step(
                        and_step(and_step(step(commands[0], r), commands[1]), commands[2]),
                        commands[3],
                    ),
                    commands[4],
                ),
                commands[5],
            ),
            commands[6],
        ),
        commands.len() == 9 ==> record(commands, r) == and_step(
            and_step(
                and_step(
                    and_step(
                        and_step(
                            and_step(
                                and_step(and_step(step(commands[0], r), commands[1]), commands[2]),
                                commands[3],
                            ),
                            commands[4],
                        ),
                        commands[5],
                    ),
                    commands[6],
                ),
                commands[7],
            ),
            commands[8],
        ),
{
    let n = commands.len();
    assert(commands.take(n as int) =~= commands);
    assert(commands.take(0) =~= Seq::empty());
    assert(record(commands.take(0), r) == Some(r));
    if n >= 1 {
        lemma_record_take(commands, 1, r);
    }
    if n >= 2 {
        lemma_record_take(commands, 2, r);
    }
    if n >= 3 {
        lemma_record_take(commands, 3, r);
    }
    if n >= 4 {
        lemma_record_take(commands, 4, r);
    }
    if n >= 5 {
        lemma_record_take(commands, 5, r);
    }
    if n >= 6 {
        lemma_record_take(commands, 6, r);
    }
    if n >= 7 {
        lemma_record_take(commands, 7, r);
    }
    if n >= 8 {
        lemma_record_take(commands, 8, r);
    }
    if n >= 9 {
        lemma_record_take(commands, 9, r);
    }
}

} // verus!
