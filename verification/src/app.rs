//! The small application that draws the scene straight to the screen, in a single pass.
use crate::commands::{
    draw_fits, fresh_recording, lemma_record_concat, lemma_record_push, lemma_record_short, record,
    step, ClearValue, Command, ImageSlot, Recording, RenderScope, Work,
};
use crate::frame::{
    color_attachment, depth_attachment, make_color_attachment, make_depth_attachment,
    make_transition, transition, COLOR_ACCESS, MAX_FRAMES_IN_FLIGHT,
};
use crate::geometry::{index_bytes, vertex_bytes, vertices_words, PrimitiveSource, VertexData};
use crate::outside::{extent_3d, native_words};
use crate::pipelines::{PipelineSlot, DEPTH_FORMAT};
use crate::renderer::{
    ExitStep, FenceState, FrameAction, FrameEvent, FramePhase, Presentation,
    Submission,
};
use crate::scene::PrimitiveRef;
use crate::screen::{
    make_swapchain_plan, push_semaphore_requests, push_view_requests, semaphore_requests, some_of,
    swapchain_plan, view_requests, SurfaceCapabilities, SwapchainPlan,
};
use crate::utils::buffer::BufferCreation;
use crate::utils::context::{device_extensions, names, DeviceFeatures, DevicePlan, VkCtx};
use crate::utils::image::ImageCreation;
use crate::utils::requests::{answerable, answered, ask, Request};
use crate::vk;
use crate::vk::{
    AllocationCreateInfo, BufferCreateInfo, Extent2D, Extent3D, ImageCreateInfo,
    ImageViewCreateInfo, MemoryUsage, SubresourceRange,
};
use std::collections::VecDeque;
use vstd::prelude::*;

verus! {

/// The bytes of the constants of a frame: one matrix.
pub const SHADER_DATA_SIZE: u64 = 64;

/// The memory of buffers that are written from outside the device.
pub const HOST_FLAGS: u32 = vk::ALLOCATION_HOST_ACCESS_SEQUENTIAL_WRITE
    | vk::ALLOCATION_HOST_ACCESS_ALLOW_TRANSFER_INSTEAD | vk::ALLOCATION_MAPPED;

/// A buffer that is written from outside the device.
pub open spec fn host_buffer(size: u64, usage: u32) -> BufferCreation {
    BufferCreation {
        info: BufferCreateInfo { size, usage },
        allocation: AllocationCreateInfo { flags: HOST_FLAGS, usage: MemoryUsage::Auto },
    }
}

fn make_host_buffer(size: u64, usage: u32) -> (r: BufferCreation)
    ensures
        r == host_buffer(size, usage),
{
    BufferCreation {
        info: BufferCreateInfo { size, usage },
        allocation: AllocationCreateInfo { flags: HOST_FLAGS, usage: MemoryUsage::Auto },
    }
}

/// A node at the top of the scene.
#[derive(Clone, Copy, Debug, PartialEq, Eq)]
pub struct SceneRoot {
    pub node: usize,
    pub mesh: Option<usize>,
}

/// Which object and which material a primitive has.
#[derive(Clone, Copy, Debug, PartialEq, Eq, Structural)]
pub struct PushConstants {
    pub object_id: u32,
    pub material_id: u32,
}

/// Those of the first primitives of a mesh that have tangents, or those that lack them.
pub open spec fn mesh_part(
    node: usize,
    mesh: usize,
    primitives: Seq<PrimitiveSource>,
    count: nat,
    tangents: bool,
) -> Seq<PrimitiveRef>
    decreases count,
{
    if count == 0 {
        Seq::empty()
    } else {
        let earlier = mesh_part(node, mesh, primitives, (count - 1) as nat, tangents);
        if primitives[count - 1].tangents is Some == tangents {
            earlier.push(PrimitiveRef { node, mesh, primitive: (count - 1) as usize })
        } else {
            earlier
        }
    }
}

/// Those primitives of the first roots that have tangents, or those that lack them.
pub open spec fn root_part(
    roots: Seq<SceneRoot>,
    meshes: Seq<Vec<PrimitiveSource>>,
    count: nat,
    tangents: bool,
) -> Seq<PrimitiveRef>
    decreases count,
{
    if count == 0 {
        Seq::empty()
    } else {
        root_part(roots, meshes, (count - 1) as nat, tangents) + match roots[count - 1].mesh {
            Some(mesh) => mesh_part(
                roots[count - 1].node,
                mesh,
                meshes[mesh as int]@,
                meshes[mesh as int]@.len(),
                tangents,
            ),
            None => Seq::empty(),
        }
    }
}

/// A primitive has numbers that the device can handle.
pub open spec fn ref_fits(r: PrimitiveRef, meshes: Seq<Vec<PrimitiveSource>>) -> bool {
    let p = meshes[r.mesh as int]@[r.primitive as int];
    &&& r.node <= u32::MAX
    &&& p.indices@.len() <= u32::MAX
    &&& match p.material {
        Some(material) => material <= u32::MAX,
        None => true,
    }
}

/// The meshes of all roots exist.
pub open spec fn meshes_exist(roots: Seq<SceneRoot>, meshes: Seq<Vec<PrimitiveSource>>) -> bool {
    forall|i: int|
        0 <= i < roots.len() ==> match (#[trigger] roots[i]).mesh {
            Some(mesh) => mesh < meshes.len(),
            None => true,
        }
}

/// The meshes of all roots exist, and the primitives that are drawn have numbers that the device
/// can handle.
pub open spec fn roots_fit(roots: Seq<SceneRoot>, meshes: Seq<Vec<PrimitiveSource>>) -> bool {
    let drawn = root_part(roots, meshes, roots.len(), true);
    &&& meshes_exist(roots, meshes)
    &&& forall|i: int| 0 <= i < drawn.len() ==> ref_fits(#[trigger] drawn[i], meshes)
}

/// A buffer was made and filled with words.
pub open spec fn filled<U: FnOnce(BufferCreation, Vec<u8>) -> u64>(
    create: U,
    usage: u32,
    words: Seq<u32>,
    buffer: u64,
) -> bool {
    exists|bytes: Vec<u8>, size: u64|
        native_words(words, bytes@) && size == bytes@.len() && #[trigger] create.ensures(
            (host_buffer(size, usage), bytes),
            buffer,
        )
}

fn fill<U: FnOnce(BufferCreation, Vec<u8>) -> u64>(
    create: U,
    usage: u32,
    bytes: Vec<u8>,
    Ghost(words): Ghost<Seq<u32>>,
) -> (r: u64)
    requires
        forall|plan: BufferCreation, data: Vec<u8>| create.requires((plan, data)),
        native_words(words, bytes@),
    ensures
        filled(create, usage, words, r),
{
    let size: u64 = bytes.len() as u64;
    let ghost data = bytes;
    let r: u64 = create(make_host_buffer(size, usage), bytes);
    assert(create.ensures((host_buffer(size, usage), data), r));
    r
}

/// For each primitive, what makes and fills its two buffers, each of which can be called once.
#[derive(Debug)]
pub struct ForwardMakers<U> {
    pub vertices: VecDeque<U>,
    pub indices: VecDeque<U>,
}

impl<U: FnOnce(BufferCreation, Vec<u8>) -> u64> ForwardMakers<U> {
    /// There is one of each for as many primitives as there are.
    pub open spec fn fit(&self, primitives: nat) -> bool {
        &&& self.vertices@.len() == primitives
        &&& self.indices@.len() == primitives
        &&& forall|i: int, plan: BufferCreation, data: Vec<u8>|
            0 <= i < primitives ==> #[trigger] self.vertices@[i].requires((plan, data))
        &&& forall|i: int, plan: BufferCreation, data: Vec<u8>|
            0 <= i < primitives ==> #[trigger] self.indices@[i].requires((plan, data))
    }
}

/// The scene on the device.
#[derive(Debug)]
pub struct ForwardScene {
    pub vertex_buffers: Vec<u64>,
    pub index_buffers: Vec<u64>,
    pub index_counts: Vec<u32>,
    pub primitive_push_constants: Vec<PushConstants>,
}

impl ForwardScene {
    /// Every primitive has its buffers.
    pub open spec fn wf(&self) -> bool {
        &&& self.vertex_buffers@.len() == self.primitive_push_constants@.len()
        &&& self.index_buffers@.len() == self.primitive_push_constants@.len()
        &&& self.index_counts@.len() == self.primitive_push_constants@.len()
    }

    /// A primitive is on the device: its numbers, its vertices and its indices.
    pub open spec fn primitive_made<U: FnOnce(BufferCreation, Vec<u8>) -> u64>(
        &self,
        i: int,
        r: PrimitiveRef,
        p: PrimitiveSource,
        vertices: U,
        indices: U,
    ) -> bool {
        &&& self.primitive_push_constants@[i].object_id == r.node
        &&& self.primitive_push_constants@[i].material_id == match p.material {
            Some(material) => material,
            None => 0,
        }
        &&& self.index_counts@[i] == p.indices@.len()
        &&& filled(indices, vk::BUFFER_USAGE_INDEX_BUFFER, p.indices@, self.index_buffers@[i])
        &&& exists|data: Seq<VertexData>|
            #![trigger p.are_vertices(data)]
            p.are_vertices(data) && filled(
                vertices,
                vk::BUFFER_USAGE_VERTEX_BUFFER,
                vertices_words(data),
                self.vertex_buffers@[i],
            )
    }

    /// The primitives of a list are on the device, and no others, each with the buffers that were
    /// made for it.
    pub open spec fn made<U: FnOnce(BufferCreation, Vec<u8>) -> u64>(
        &self,
        refs: Seq<PrimitiveRef>,
        meshes: Seq<Vec<PrimitiveSource>>,
        vertices: Seq<U>,
        indices: Seq<U>,
    ) -> bool {
        &&& self.wf()
        &&& self.primitive_push_constants@.len() == refs.len()
        &&& forall|i: int|
            0 <= i < refs.len() ==> self.primitive_made(
                i,
                #[trigger] refs[i],
                meshes[refs[i].mesh as int]@[refs[i].primitive as int],
                vertices[i],
                indices[i],
            )
    }

    fn list_part(
        roots: &Vec<SceneRoot>,
        meshes: &Vec<Vec<PrimitiveSource>>,
        tangents: bool,
    ) -> (r: Vec<PrimitiveRef>)
        requires
            meshes_exist(roots@, meshes@),
        ensures
            r@ == root_part(roots@, meshes@, roots@.len(), tangents),
            forall|i: int|
                0 <= i < r@.len() ==> (#[trigger] r@[i]).mesh < meshes@.len() && r@[i].primitive
                    < meshes@[r@[i].mesh as int]@.len(),
    {
        let mut refs: Vec<PrimitiveRef> = Vec::new();
        let mut i: usize = 0;
        while i < roots.len()
            invariant
                i <= roots@.len(),
                meshes_exist(roots@, meshes@),
                refs@ == root_part(roots@, meshes@, i as nat, tangents),
                forall|j: int|
                    0 <= j < refs@.len() ==> (#[trigger] refs@[j]).mesh < meshes@.len()
                        && refs@[j].primitive < meshes@[refs@[j].mesh as int]@.len(),
            decreases roots@.len() - i,
        {
            let root = roots[i];
            let ghost before = refs@;
            match root.mesh {
                Some(mesh) => {
                    let mut k: usize = 0;
                    assert(before + mesh_part(root.node, mesh, meshes@[mesh as int]@, 0, tangents)
                        =~= before);
                    while k < meshes[mesh].len()
                        invariant
                            mesh < meshes@.len(),
                            k <= meshes@[mesh as int]@.len(),
                            refs@ == before + mesh_part(
                                root.node,
                                mesh,
                                meshes@[mesh as int]@,
                                k as nat,
                                tangents,
                            ),
                            forall|j: int|
                                0 <= j < refs@.len() ==> (#[trigger] refs@[j]).mesh < meshes@.len()
                                    && refs@[j].primitive
                                    < meshes@[refs@[j].mesh as int]@.len(),
                        decreases meshes@[mesh as int]@.len() - k,
                    {
                        if meshes[mesh][k].tangents.is_some() == tangents {
                            refs.push(PrimitiveRef { node: root.node, mesh, primitive: k });
                        }
                        assert(refs@ =~= before + mesh_part(
                            root.node,
                            mesh,
                            meshes@[mesh as int]@,
                            k as nat + 1,
                            tangents,
                        ));
                        k = k + 1;
                    }
                },
                None => {
                    assert(before + Seq::<PrimitiveRef>::empty() =~= before);
                },
            }
            i = i + 1;
        }
        refs
    }

    /// Lists the primitives of the roots of a scene that are drawn, because they have tangents.
    pub fn drawn(roots: &Vec<SceneRoot>, meshes: &Vec<Vec<PrimitiveSource>>) -> (r: Vec<
        PrimitiveRef,
    >)
        requires
            meshes_exist(roots@, meshes@),
        ensures
            r@ == root_part(roots@, meshes@, roots@.len(), true),
    {
        Self::list_part(roots, meshes, true)
    }

    /// Lists the primitives of the roots of a scene that are left out, because they have no
    /// tangents.
    pub fn skipped(roots: &Vec<SceneRoot>, meshes: &Vec<Vec<PrimitiveSource>>) -> (r: Vec<
        PrimitiveRef,
    >)
        requires
            meshes_exist(roots@, meshes@),
        ensures
            r@ == root_part(roots@, meshes@, roots@.len(), false),
    {
        Self::list_part(roots, meshes, false)
    }

    /// Whether the meshes of all roots exist, and the primitives that are drawn have numbers that
    /// the device can handle.
    pub fn check(roots: &Vec<SceneRoot>, meshes: &Vec<Vec<PrimitiveSource>>) -> (r: bool)
        ensures
            r == roots_fit(roots@, meshes@),
    {
        let mut i: usize = 0;
        while i < roots.len()
            invariant
                i <= roots@.len(),
                forall|j: int|
                    0 <= j < i ==> match (#[trigger] roots@[j]).mesh {
                        Some(mesh) => mesh < meshes@.len(),
                        None => true,
                    },
            decreases roots@.len() - i,
        {
            match roots[i].mesh {
                Some(mesh) => if mesh >= meshes.len() {
                    assert(roots@[i as int].mesh == Some(mesh));
                    return false;
                },
                None => {},
            }
            i = i + 1;
        }
        let refs = Self::list_part(roots, meshes, true);
        let mut k: usize = 0;
        while k < refs.len()
            invariant
                k <= refs@.len(),
                refs@ == root_part(roots@, meshes@, roots@.len(), true),
                forall|j: int|
                    0 <= j < refs@.len() ==> (#[trigger] refs@[j]).mesh < meshes@.len()
                        && refs@[j].primitive < meshes@[refs@[j].mesh as int]@.len(),
                forall|j: int| 0 <= j < k ==> ref_fits(#[trigger] refs@[j], meshes@),
            decreases refs@.len() - k,
        {
            let at = refs[k];
            let p = &meshes[at.mesh][at.primitive];
            let material_fits = match p.material {
                Some(material) => material <= u32::MAX as usize,
                None => true,
            };
            if !material_fits || at.node > u32::MAX as usize || p.indices.len()
                > u32::MAX as usize {
                assert(!ref_fits(refs@[k as int], meshes@));
                return false;
            }
            k = k + 1;
        }
        true
    }

    /// Brings the primitives of the roots of a scene to the device. Those without tangents are
    /// left out.
    pub fn create<U: FnOnce(BufferCreation, Vec<u8>) -> u64>(
        roots: &Vec<SceneRoot>,
        meshes: &Vec<Vec<PrimitiveSource>>,
        makers: ForwardMakers<U>,
    ) -> (r: Self)
        requires
            roots_fit(roots@, meshes@),
            makers.fit(root_part(roots@, meshes@, roots@.len(), true).len()),
        ensures
            r.made(
                root_part(roots@, meshes@, roots@.len(), true),
                meshes@,
                makers.vertices@,
                makers.indices@,
            ),
    {
        let refs = Self::list_part(roots, meshes, true);
        let ghost all = makers;
        let ForwardMakers { mut vertices, mut indices } = makers;
        let mut scene = ForwardScene {
            vertex_buffers: Vec::new(),
            index_buffers: Vec::new(),
            index_counts: Vec::new(),
            primitive_push_constants: Vec::new(),
        };
        let mut i: usize = 0;
        while i < refs.len()
            invariant
                i <= refs@.len(),
                all.fit(refs@.len()),
                vertices@ =~= all.vertices@.skip(i as int),
                indices@ =~= all.indices@.skip(i as int),
                forall|j: int|
                    0 <= j < refs@.len() ==> (#[trigger] refs@[j]).mesh < meshes@.len()
                        && refs@[j].primitive < meshes@[refs@[j].mesh as int]@.len(),
                forall|j: int| 0 <= j < refs@.len() ==> ref_fits(#[trigger] refs@[j], meshes@),
                scene.made(refs@.take(i as int), meshes@, all.vertices@, all.indices@),
            decreases refs@.len() - i,
        {
            let at = refs[i];
            if let (Some(make_vertices), Some(make_indices)) = (
                vertices.pop_front(),
                indices.pop_front(),
            ) {
                assert(make_vertices == all.vertices@[i as int]);
                assert(make_indices == all.indices@[i as int]);
                scene.push(
                    at,
                    &meshes[at.mesh][at.primitive],
                    make_vertices,
                    make_indices,
                    Ghost(refs@.take(i as int)),
                    Ghost(meshes@),
                    Ghost(all.vertices@),
                    Ghost(all.indices@),
                );
            }
            assert(refs@.take(i as int).push(at) =~= refs@.take(i + 1));
            i = i + 1;
        }
        assert(refs@.take(refs@.len() as int) =~= refs@);
        scene
    }

    fn push<U: FnOnce(BufferCreation, Vec<u8>) -> u64>(
        &mut self,
        at: PrimitiveRef,
        p: &PrimitiveSource,
        make_vertices: U,
        make_indices: U,
        Ghost(refs): Ghost<Seq<PrimitiveRef>>,
        Ghost(meshes): Ghost<Seq<Vec<PrimitiveSource>>>,
        Ghost(vertex_makers): Ghost<Seq<U>>,
        Ghost(index_makers): Ghost<Seq<U>>,
    )
        requires
            old(self).made(refs, meshes, vertex_makers, index_makers),
            *p == meshes[at.mesh as int]@[at.primitive as int],
            ref_fits(at, meshes),
            make_vertices == vertex_makers[refs.len() as int],
            make_indices == index_makers[refs.len() as int],
            forall|plan: BufferCreation, data: Vec<u8>| make_vertices.requires((plan, data)),
            forall|plan: BufferCreation, data: Vec<u8>| make_indices.requires((plan, data)),
        ensures
            final(self).made(refs.push(at), meshes, vertex_makers, index_makers),
    {
        let vertices = p.vertices();
        let material: usize = match p.material {
            Some(material) => material,
            None => 0,
        };
        self.primitive_push_constants.push(
            PushConstants { object_id: at.node as u32, material_id: material as u32 },
        );
        self.vertex_buffers.push(
            fill(
                make_vertices,
                vk::BUFFER_USAGE_VERTEX_BUFFER,
                vertex_bytes(&vertices),
                Ghost(vertices_words(vertices@)),
            ),
        );
        self.index_counts.push(p.indices.len() as u32);
        self.index_buffers.push(
            fill(
                make_indices,
                vk::BUFFER_USAGE_INDEX_BUFFER,
                index_bytes(&p.indices),
                Ghost(p.indices@),
            ),
        );
        let ghost more = refs.push(at);
        assert forall|i: int| 0 <= i < more.len() implies self.primitive_made(
            i,
            #[trigger] more[i],
            meshes[more[i].mesh as int]@[more[i].primitive as int],
            vertex_makers[i],
            index_makers[i],
        ) by {
            if i < refs.len() {
                assert(more[i] == refs[i]);
                assert(old(self).primitive_made(
                    i,
                    refs[i],
                    meshes[refs[i].mesh as int]@[refs[i].primitive as int],
                    vertex_makers[i],
                    index_makers[i],
                ));
            } else {
                assert(p.are_vertices(vertices@));
            }
        }
    }
}

proof fn lemma_mesh_part(
    node: usize,
    mesh: usize,
    primitives: Seq<PrimitiveSource>,
    count: nat,
    tangents: bool,
    r: PrimitiveRef,
)
    requires
        count <= primitives.len() <= usize::MAX,
    ensures
        mesh_part(node, mesh, primitives, count, tangents).contains(r) <==> {
            &&& r.node == node
            &&& r.mesh == mesh
            &&& r.primitive < count
            &&& primitives[r.primitive as int].tangents is Some == tangents
        },
    decreases count,
{
    if count > 0 {
        lemma_mesh_part(node, mesh, primitives, (count - 1) as nat, tangents, r);
        let earlier = mesh_part(node, mesh, primitives, (count - 1) as nat, tangents);
        let last = PrimitiveRef { node, mesh, primitive: (count - 1) as usize };
        let more = earlier.push(last);
        if earlier.contains(r) {
            let k = choose|k: int| 0 <= k < earlier.len() && earlier[k] == r;
            assert(more[k] == r);
        }
        assert(more[earlier.len() as int] == last);
        if more.contains(r) && r != last {
            let k = choose|k: int| 0 <= k < more.len() && more[k] == r;
            assert(earlier[k] == r);
        }
    }
}

/// Of the primitives of the roots, those that have tangents are brought to the device and those
/// that lack them are reported as left out: every primitive is one or the other, and nothing else
/// is either.
pub proof fn law_primitive_is_made_or_left_out(
    roots: Seq<SceneRoot>,
    meshes: Seq<Vec<PrimitiveSource>>,
    count: nat,
    tangents: bool,
    r: PrimitiveRef,
)
    requires
        meshes_exist(roots, meshes),
        count <= roots.len(),
        forall|m: int| 0 <= m < meshes.len() ==> (#[trigger] meshes[m])@.len() <= usize::MAX,
    ensures
        root_part(roots, meshes, count, tangents).contains(r) <==> {
            &&& exists|i: int|
                0 <= i < count && (#[trigger] roots[i]).node == r.node && roots[i].mesh == Some(
                    r.mesh,
                )
            &&& r.primitive < meshes[r.mesh as int]@.len()
            &&& meshes[r.mesh as int]@[r.primitive as int].tangents is Some == tangents
        },
    decreases count,
{
    if count > 0 {
        law_primitive_is_made_or_left_out(roots, meshes, (count - 1) as nat, tangents, r);
        let root = roots[count - 1];
        let earlier = root_part(roots, meshes, (count - 1) as nat, tangents);
        let all = root_part(roots, meshes, count, tangents);
        let last = match root.mesh {
            Some(mesh) => mesh_part(
                root.node,
                mesh,
                meshes[mesh as int]@,
                meshes[mesh as int]@.len(),
                tangents,
            ),
            None => Seq::empty(),
        };
        assert(all == earlier + last);
        if let Some(mesh) = root.mesh {
            lemma_mesh_part(
                root.node,
                mesh,
                meshes[mesh as int]@,
                meshes[mesh as int]@.len(),
                tangents,
                r,
            );
        }
        if earlier.contains(r) {
            let k = choose|k: int| 0 <= k < earlier.len() && earlier[k] == r;
            assert(all[k] == r);
        }
        if last.contains(r) {
            let k = choose|k: int| 0 <= k < last.len() && last[k] == r;
            assert(all[earlier.len() + k] == r);
        }
        if all.contains(r) {
            let k = choose|k: int| 0 <= k < all.len() && all[k] == r;
            if k < earlier.len() {
                assert(earlier[k] == r);
            } else {
                assert(last[k - earlier.len()] == r);
            }
        }
    }
}

/// What the course of a frame depends on.
#[derive(Clone, Copy, Debug, PartialEq, Eq, Structural)]
pub struct AppState {
    pub phase: FramePhase,
    pub frame_index: usize,
    pub image_index: usize,
}

/// The end of everything.
pub open spec fn app_gives_up(s: AppState, code: i32) -> (AppState, FrameAction) {
    (AppState { phase: FramePhase::Failed, ..s }, FrameAction::Fail(code))
}

/// The course of a frame: what an event leads to. Whatever goes wrong is the end.
pub open spec fn app_step(s: AppState, event: FrameEvent) -> (AppState, FrameAction) {
    match (s.phase, event) {
        (FramePhase::Idle, FrameEvent::Begin) => (
            AppState { phase: FramePhase::Waiting, ..s },
            FrameAction::WaitForFence(s.frame_index),
        ),
        (FramePhase::Waiting, FrameEvent::FenceSignaled) => (
            AppState { phase: FramePhase::Preparing, ..s },
            FrameAction::ResetFence(s.frame_index),
        ),
        (FramePhase::Preparing, FrameEvent::FenceReset { space_pressed }) => (
            AppState { phase: FramePhase::Acquiring, ..s },
            FrameAction::AcquireImage(s.frame_index),
        ),
        (FramePhase::Acquiring, FrameEvent::ImageAcquired(index)) => (
            AppState { phase: FramePhase::Drawing, image_index: index as usize, ..s },
            FrameAction::Draw,
        ),
        (FramePhase::Acquiring, FrameEvent::AcquireFailed(code)) => app_gives_up(s, code),
        (FramePhase::Drawing, FrameEvent::Drawn) => (
            AppState { phase: FramePhase::Submitting, ..s },
            FrameAction::Submit(s.frame_index),
        ),
        (FramePhase::Submitting, FrameEvent::Submitted) => (
            AppState {
                phase: FramePhase::Presenting,
                frame_index: ((s.frame_index + 1) % 2) as usize,
                ..s
            },
            FrameAction::Present(s.image_index),
        ),
        (FramePhase::Presenting, FrameEvent::Presented { suboptimal }) => (
            AppState { phase: FramePhase::Idle, ..s },
            FrameAction::Finish,
        ),
        (FramePhase::Presenting, FrameEvent::PresentFailed(code)) => app_gives_up(s, code),
        _ => (s, FrameAction::Ignore),
    }
}

/// Draws the first primitives of the scene, one after the other.
pub open spec fn forward_draws(index_counts: Seq<u32>, count: nat) -> Seq<Command>
    decreases count,
{
    if count == 0 {
        Seq::empty()
    } else {
        let i = (count - 1) as usize;
        forward_draws(index_counts, (count - 1) as nat).push(
            Command::BindVertexBuffer { primitive: i },
        ).push(Command::BindIndexBuffer { primitive: i, index_type: vk::INDEX_UINT32 }).push(
            Command::DrawIndexed { index_count: index_counts[count - 1], instance_count: 1 },
        )
    }
}

/// The image and the depth buffer are opened for drawing.
pub open spec fn forward_start(size: Extent2D, image_index: usize) -> Seq<Command> {
    seq![
        Command::Barriers {
            first: transition(
                ImageSlot::Swapchain(image_index),
                (vk::STAGE_COLOR_ATTACHMENT_OUTPUT, vk::ACCESS_NONE),
                (vk::STAGE_COLOR_ATTACHMENT_OUTPUT, COLOR_ACCESS),
                (vk::LAYOUT_UNDEFINED, vk::LAYOUT_ATTACHMENT_OPTIMAL),
                vk::ASPECT_COLOR,
                (0, 1),
            ),
            second: Some(
                transition(
                    ImageSlot::Depth,
                    (
                        vk::STAGE_LATE_FRAGMENT_TESTS,
                        vk::ACCESS_DEPTH_STENCIL_ATTACHMENT_WRITE,
                    ),
                    (
                        vk::STAGE_EARLY_FRAGMENT_TESTS,
                        vk::ACCESS_DEPTH_STENCIL_ATTACHMENT_WRITE,
                    ),
                    (vk::LAYOUT_UNDEFINED, vk::LAYOUT_ATTACHMENT_OPTIMAL),
                    vk::ASPECT_DEPTH,
                    (0, 1),
                ),
            ),
            third: None,
        },
        Command::BeginRendering {
            area: size,
            color: Some(
                color_attachment(
                    ImageSlot::Swapchain(image_index),
                    ClearValue::Float {
                        r: vk::F32_ZERO,
                        g: vk::F32_ZERO,
                        b: vk::F32_ONE,
                        a: vk::F32_ONE,
                    },
                ),
            ),
            depth: Some(
                depth_attachment(
                    ImageSlot::Depth,
                    None,
                    vk::LAYOUT_ATTACHMENT_OPTIMAL,
                    vk::STORE_OP_DONT_CARE,
                ),
            ),
        },
        Command::Viewport(size),
        Command::Scissor(size),
        Command::BindPipeline {
            bind_point: vk::BIND_POINT_GRAPHICS,
            pipeline: PipelineSlot::Forward,
        },
    ]
}

/// The image is made ready to be shown.
pub open spec fn forward_end(image_index: usize) -> Seq<Command> {
    seq![
        Command::EndRendering,
        Command::Barriers {
            first: transition(
                ImageSlot::Swapchain(image_index),
                (vk::STAGE_COLOR_ATTACHMENT_OUTPUT, vk::ACCESS_COLOR_ATTACHMENT_WRITE),
                (vk::STAGE_COLOR_ATTACHMENT_OUTPUT, vk::ACCESS_NONE),
                (vk::LAYOUT_ATTACHMENT_OPTIMAL, vk::LAYOUT_PRESENT_SRC_KHR),
                vk::ASPECT_COLOR,
                (0, 1),
            ),
            second: None,
            third: None,
        },
    ]
}

/// The commands of a frame.
pub open spec fn forward_commands(
    size: Extent2D,
    image_index: usize,
    index_counts: Seq<u32>,
) -> Seq<Command> {
    forward_start(size, image_index) + forward_draws(index_counts, index_counts.len())
        + forward_end(image_index)
}

/// The depth buffer, as large as the surface.
pub open spec fn forward_depth_info(extent: Extent2D) -> ImageCreateInfo {
    ImageCreateInfo {
        image_type: vk::IMAGE_TYPE_2D,
        format: DEPTH_FORMAT,
        extent: Extent3D { width: extent.width, height: extent.height, depth: 1 },
        mip_levels: 1,
        array_layers: 1,
        samples: vk::SAMPLES_TYPE_1,
        tiling: vk::TILING_OPTIMAL,
        usage: vk::IMAGE_USAGE_DEPTH_STENCIL_ATTACHMENT,
        initial_layout: vk::LAYOUT_UNDEFINED,
    }
}

/// What the depth buffer and its memory are created with.
pub open spec fn forward_depth_creation(extent: Extent2D) -> ImageCreation {
    ImageCreation {
        info: forward_depth_info(extent),
        allocation: AllocationCreateInfo {
            flags: vk::ALLOCATION_DEDICATED_MEMORY,
            usage: MemoryUsage::Auto,
        },
    }
}

/// What the driver is asked for first: a view for each image of the swapchain, and the depth buffer.
pub open spec fn forward_requests(swapchain_images: Seq<u64>, extent: Extent2D) -> Seq<Request> {
    view_requests(swapchain_images).push(Request::Image(forward_depth_creation(extent)))
}

/// The view of the depth buffer.
pub open spec fn forward_depth_view(image: u64) -> ImageViewCreateInfo {
    ImageViewCreateInfo {
        image,
        view_type: vk::VIEW_TYPE_2D,
        format: DEPTH_FORMAT,
        range: SubresourceRange {
            aspect_mask: vk::ASPECT_DEPTH,
            base_mip_level: 0,
            level_count: 1,
            base_array_layer: 0,
            layer_count: 1,
        },
    }
}

/// A step of handing everything back at the end.
#[derive(Clone, Copy, Debug, PartialEq, Eq, Structural)]
pub enum AppExitStep {
    /// Wait until the device is idle.
    WaitIdle,
    DestroyDepthView(u64),
    DestroyDepthImage(u64),
    /// What any application hands back.
    Exit(ExitStep),
}

/// The application.
#[derive(Debug)]
pub struct App {
    pub ctx: VkCtx,
    pub swapchain: u64,
    pub swapchain_images: Vec<u64>,
    pub swapchain_image_views: Vec<u64>,
    pub depth_image: u64,
    pub depth_view: u64,
    pub scene: ForwardScene,
    /// One semaphore for each image of the swapchain: signalled once it has been drawn.
    pub frame_complete_semaphores: Vec<u64>,
    pub image_index: usize,
    pub frame_index: usize,
    pub phase: FramePhase,
}

impl App {
    /// What the course of a frame depends on.
    pub open spec fn state(&self) -> AppState {
        AppState {
            phase: self.phase,
            frame_index: self.frame_index,
            image_index: self.image_index,
        }
    }

    /// The parts fit together.
    pub open spec fn wf(&self) -> bool {
        &&& self.ctx.wf(MAX_FRAMES_IN_FLIGHT)
        &&& self.scene.wf()
        &&& self.swapchain_image_views@.len() == self.swapchain_images@.len()
        &&& self.frame_complete_semaphores@.len() == self.swapchain_images@.len()
        &&& self.frame_index < MAX_FRAMES_IN_FLIGHT
    }

    /// The image that is drawn exists.
    pub open spec fn image_exists(&self) -> bool {
        &&& self.image_index < self.swapchain_images@.len()
        &&& self.swapchain_images@.len() <= u32::MAX
    }

    /// Decides what the device is created with, from the extensions that it has.
    pub fn device_plan(available: &Vec<String>) -> (r: DevicePlan)
        ensures
            names(r.extensions@) == device_extensions(names(available@), false),
            r.features == (DeviceFeatures {
                sampler_anisotropy: true,
                shader_draw_parameters: false,
                descriptor_indexing: true,
                shader_sampled_image_array_non_uniform_indexing: true,
                descriptor_binding_variable_descriptor_count: true,
                runtime_descriptor_array: true,
                buffer_device_address: true,
                scalar_block_layout: false,
                synchronization2: true,
                dynamic_rendering: true,
            }),
            r.queue_count == 1,
    {
        DevicePlan {
            extensions: VkCtx::device_extensions(available, false),
            features: DeviceFeatures {
                sampler_anisotropy: true,
                shader_draw_parameters: false,
                descriptor_indexing: true,
                shader_sampled_image_array_non_uniform_indexing: true,
                descriptor_binding_variable_descriptor_count: true,
                runtime_descriptor_array: true,
                buffer_device_address: true,
                scalar_block_layout: false,
                synchronization2: true,
                dynamic_rendering: true,
            },
            queue_count: 1,
        }
    }

    /// Decides what the buffer of the constants of a frame is created with. There are as many as
    /// frames in flight.
    pub fn frame_buffer() -> (r: (BufferCreation, u32))
        ensures
            r == (
                host_buffer(SHADER_DATA_SIZE, vk::BUFFER_USAGE_SHADER_DEVICE_ADDRESS),
                MAX_FRAMES_IN_FLIGHT,
            ),
    {
        (
            make_host_buffer(SHADER_DATA_SIZE, vk::BUFFER_USAGE_SHADER_DEVICE_ADDRESS),
            MAX_FRAMES_IN_FLIGHT,
        )
    }

    /// The application before its first frame: makes the swapchain, its views and semaphores and
    /// the depth buffer for a surface.
    pub fn new<
        C: FnOnce(SwapchainPlan) -> u64,
        L: FnOnce(u64) -> Vec<u64>,
        M: FnOnce(Vec<Request>) -> Vec<u64>,
        V: FnOnce(ImageViewCreateInfo) -> u64,
        N: FnOnce(Vec<Request>) -> Vec<u64>,
    >(
        ctx: VkCtx,
        capabilities: SurfaceCapabilities,
        scene: ForwardScene,
        create_swapchain: C,
        list_images: L,
        make: M,
        create_depth_view: V,
        make_semaphores: N,
    ) -> (r: Self)
        requires
            ctx.wf(MAX_FRAMES_IN_FLIGHT),
            scene.wf(),
            create_swapchain.requires((swapchain_plan(capabilities, vk::PRESENT_MODE_FIFO, 0),)),
            forall|swapchain: u64| list_images.requires((swapchain,)),
            forall|images: Seq<u64>|
                answerable(
                    make,
                    #[trigger] forward_requests(images, capabilities.current_extent),
                ),
            forall|image: u64| create_depth_view.requires((#[trigger] forward_depth_view(image),)),
            forall|count: nat| answerable(make_semaphores, #[trigger] semaphore_requests(count)),
        ensures
            r.wf(),
            r.ctx == ctx,
            r.scene == scene,
            create_swapchain.ensures(
                (swapchain_plan(capabilities, vk::PRESENT_MODE_FIFO, 0),),
                r.swapchain,
            ),
            list_images.ensures((r.swapchain,), r.swapchain_images),
            answered(
                make,
                forward_requests(r.swapchain_images@, capabilities.current_extent),
                r.swapchain_image_views@.push(r.depth_image),
            ),
            create_depth_view.ensures((forward_depth_view(r.depth_image),), r.depth_view),
            answered(
                make_semaphores,
                semaphore_requests(r.swapchain_images@.len()),
                r.frame_complete_semaphores@,
            ),
            r.state() == (AppState { phase: FramePhase::Idle, frame_index: 0, image_index: 0 }),
    {
        let swapchain: u64 = create_swapchain(
            make_swapchain_plan(capabilities, vk::PRESENT_MODE_FIFO, 0),
        );
        let swapchain_images: Vec<u64> = list_images(swapchain);
        let count: usize = swapchain_images.len();
        let mut requests: Vec<Request> = Vec::new();
        push_view_requests(&mut requests, &swapchain_images);
        requests.push(
            Request::Image(
                ImageCreation {
                    info: ImageCreateInfo {
                        image_type: vk::IMAGE_TYPE_2D,
                        format: DEPTH_FORMAT,
                        extent: extent_3d(capabilities.current_extent),
                        mip_levels: 1,
                        array_layers: 1,
                        samples: vk::SAMPLES_TYPE_1,
                        tiling: vk::TILING_OPTIMAL,
                        usage: vk::IMAGE_USAGE_DEPTH_STENCIL_ATTACHMENT,
                        initial_layout: vk::LAYOUT_UNDEFINED,
                    },
                    allocation: AllocationCreateInfo {
                        flags: vk::ALLOCATION_DEDICATED_MEMORY,
                        usage: MemoryUsage::Auto,
                    },
                },
            ),
        );
        assert(requests@ =~= forward_requests(swapchain_images@, capabilities.current_extent));
        let handles = ask(make, requests);
        let swapchain_image_views = some_of(&handles, 0, count);
        let depth_image: u64 = handles[count];
        assert(handles@ =~= swapchain_image_views@.push(depth_image));
        let depth_info = ImageViewCreateInfo {
            image: depth_image,
            view_type: vk::VIEW_TYPE_2D,
            format: DEPTH_FORMAT,
            range: SubresourceRange {
                aspect_mask: vk::ASPECT_DEPTH,
                base_mip_level: 0,
                level_count: 1,
                base_array_layer: 0,
                layer_count: 1,
            },
        };
        assert(depth_info == forward_depth_view(depth_image));
        let depth_view: u64 = create_depth_view(depth_info);
        let mut more: Vec<Request> = Vec::new();
        push_semaphore_requests(&mut more, count);
        assert(more@ =~= semaphore_requests(count as nat));
        let frame_complete_semaphores = ask(make_semaphores, more);
        App {
            ctx,
            swapchain,
            swapchain_images,
            swapchain_image_views,
            depth_image,
            depth_view,
            scene,
            frame_complete_semaphores,
            image_index: 0,
            frame_index: 0,
            phase: FramePhase::Idle,
        }
    }

    fn fail(&mut self, code: i32) -> (r: FrameAction)
        ensures
            r == FrameAction::Fail(code),
            *final(self) == (App { phase: FramePhase::Failed, ..*old(self) }),
    {
        self.phase = FramePhase::Failed;
        FrameAction::Fail(code)
    }

    /// Takes a frame one step on: from what happened to what is to be done next.
    pub fn frame(&mut self, event: FrameEvent) -> (r: FrameAction)
        requires
            old(self).wf(),
        ensures
            final(self).wf(),
            (final(self).state(), r) == app_step(old(self).state(), event),
            *final(self) == (App {
                phase: final(self).phase,
                frame_index: final(self).frame_index,
                image_index: final(self).image_index,
                ..*old(self)
            }),
    {
        match (self.phase, event) {
            (FramePhase::Idle, FrameEvent::Begin) => {
                self.phase = FramePhase::Waiting;
                FrameAction::WaitForFence(self.frame_index)
            },
            (FramePhase::Waiting, FrameEvent::FenceSignaled) => {
                self.phase = FramePhase::Preparing;
                FrameAction::ResetFence(self.frame_index)
            },
            (FramePhase::Preparing, FrameEvent::FenceReset { space_pressed: _ }) => {
                self.phase = FramePhase::Acquiring;
                FrameAction::AcquireImage(self.frame_index)
            },
            (FramePhase::Acquiring, FrameEvent::ImageAcquired(index)) => {
                self.image_index = index as usize;
                self.phase = FramePhase::Drawing;
                FrameAction::Draw
            },
            (FramePhase::Acquiring, FrameEvent::AcquireFailed(code)) => self.fail(code),
            (FramePhase::Drawing, FrameEvent::Drawn) => {
                self.phase = FramePhase::Submitting;
                FrameAction::Submit(self.frame_index)
            },
            (FramePhase::Submitting, FrameEvent::Submitted) => {
                self.frame_index = (self.frame_index + 1) % (MAX_FRAMES_IN_FLIGHT as usize);
                self.phase = FramePhase::Presenting;
                FrameAction::Present(self.image_index)
            },
            (FramePhase::Presenting, FrameEvent::Presented { suboptimal: _ }) => {
                self.phase = FramePhase::Idle;
                FrameAction::Finish
            },
            (FramePhase::Presenting, FrameEvent::PresentFailed(code)) => self.fail(code),
            _ => FrameAction::Ignore,
        }
    }

    /// Lists the commands of the frame, for a window of the given size.
    pub fn record(&self, size: Extent2D) -> (r: Vec<Command>)
        ensures
            r@ == forward_commands(size, self.image_index, self.scene.index_counts@),
    {
        let mut out: Vec<Command> = Vec::new();
        out.push(
            Command::Barriers {
                first: make_transition(
                    ImageSlot::Swapchain(self.image_index),
                    (vk::STAGE_COLOR_ATTACHMENT_OUTPUT, vk::ACCESS_NONE),
                    (vk::STAGE_COLOR_ATTACHMENT_OUTPUT, COLOR_ACCESS),
                    (vk::LAYOUT_UNDEFINED, vk::LAYOUT_ATTACHMENT_OPTIMAL),
                    vk::ASPECT_COLOR,
                    (0, 1),
                ),
                second: Some(
                    make_transition(
                        ImageSlot::Depth,
                        (
                            vk::STAGE_LATE_FRAGMENT_TESTS,
                            vk::ACCESS_DEPTH_STENCIL_ATTACHMENT_WRITE,
                        ),
                        (
                            vk::STAGE_EARLY_FRAGMENT_TESTS,
                            vk::ACCESS_DEPTH_STENCIL_ATTACHMENT_WRITE,
                        ),
                        (vk::LAYOUT_UNDEFINED, vk::LAYOUT_ATTACHMENT_OPTIMAL),
                        vk::ASPECT_DEPTH,
                        (0, 1),
                    ),
                ),
                third: None,
            },
        );
        out.push(
            Command::BeginRendering {
                area: size,
                color: Some(
                    make_color_attachment(
                        ImageSlot::Swapchain(self.image_index),
                        ClearValue::Float {
                            r: vk::F32_ZERO,
                            g: vk::F32_ZERO,
                            b: vk::F32_ONE,
                            a: vk::F32_ONE,
                        },
                    ),
                ),
                depth: Some(
                    make_depth_attachment(
                        ImageSlot::Depth,
                        None,
                        vk::LAYOUT_ATTACHMENT_OPTIMAL,
                        vk::STORE_OP_DONT_CARE,
                    ),
                ),
            },
        );
        out.push(Command::Viewport(size));
        out.push(Command::Scissor(size));
        out.push(
            Command::BindPipeline {
                bind_point: vk::BIND_POINT_GRAPHICS,
                pipeline: PipelineSlot::Forward,
            },
        );
        let ghost start = forward_start(size, self.image_index);
        let ghost counts = self.scene.index_counts@;
        assert(out@ =~= start);
        let mut i: usize = 0;
        assert(out@ =~= start + forward_draws(counts, 0));
        while i < self.scene.index_counts.len()
            invariant
                i <= counts.len(),
                counts == self.scene.index_counts@,
                out@ == start + forward_draws(counts, i as nat),
            decreases counts.len() - i,
        {
            out.push(Command::BindVertexBuffer { primitive: i });
            out.push(Command::BindIndexBuffer { primitive: i, index_type: vk::INDEX_UINT32 });
            out.push(
                Command::DrawIndexed {
                    index_count: self.scene.index_counts[i],
                    instance_count: 1,
                },
            );
            i = i + 1;
            assert(out@ =~= start + forward_draws(counts, i as nat));
        }
        out.push(Command::EndRendering);
        out.push(
            Command::Barriers {
                first: make_transition(
                    ImageSlot::Swapchain(self.image_index),
                    (vk::STAGE_COLOR_ATTACHMENT_OUTPUT, vk::ACCESS_COLOR_ATTACHMENT_WRITE),
                    (vk::STAGE_COLOR_ATTACHMENT_OUTPUT, vk::ACCESS_NONE),
                    (vk::LAYOUT_ATTACHMENT_OPTIMAL, vk::LAYOUT_PRESENT_SRC_KHR),
                    vk::ASPECT_COLOR,
                    (0, 1),
                ),
                second: None,
                third: None,
            },
        );
        assert(out@ =~= forward_commands(size, self.image_index, counts));
        out
    }

    /// What is handed to the queue.
    pub open spec fn submitted(&self) -> Submission {
        Submission {
            command_buffer: self.ctx.command_buffers@[self.frame_index as int],
            wait_semaphore: self.ctx.image_acquired_semaphores@[self.frame_index as int],
            wait_stage: vk::WAIT_STAGE_COLOR_ATTACHMENT_OUTPUT,
            signal_semaphore: self.frame_complete_semaphores@[self.image_index as int],
            fence: self.ctx.frame_fences@[self.frame_index as int],
        }
    }

    /// What is handed to the screen.
    pub open spec fn presented(&self) -> Presentation {
        Presentation {
            wait_semaphore: self.frame_complete_semaphores@[self.image_index as int],
            swapchain: self.swapchain,
            image_index: self.image_index as u32,
        }
    }

    /// What is handed to the queue for the frame.
    pub fn submission(&self) -> (r: Submission)
        requires
            self.wf(),
            self.image_exists(),
        ensures
            r == self.submitted(),
            r.command_buffer == self.ctx.command_buffers@[self.frame_index as int],
            r.wait_semaphore == self.ctx.image_acquired_semaphores@[self.frame_index as int],
            r.wait_stage == vk::WAIT_STAGE_COLOR_ATTACHMENT_OUTPUT,
            r.signal_semaphore == self.frame_complete_semaphores@[self.image_index as int],
            r.fence == self.ctx.frame_fences@[self.frame_index as int],
    {
        Submission {
            command_buffer: self.ctx.command_buffers[self.frame_index],
            wait_semaphore: self.ctx.image_acquired_semaphores[self.frame_index],
            wait_stage: vk::WAIT_STAGE_COLOR_ATTACHMENT_OUTPUT,
            signal_semaphore: self.frame_complete_semaphores[self.image_index],
            fence: self.ctx.frame_fences[self.frame_index],
        }
    }

    /// What is handed to the screen: the image, once it has been drawn.
    pub fn presentation(&self) -> (r: Presentation)
        requires
            self.wf(),
            self.image_exists(),
        ensures
            r == self.presented(),
            r.wait_semaphore == self.frame_complete_semaphores@[self.image_index as int],
            r.swapchain == self.swapchain,
            r.image_index == self.image_index,
    {
        Presentation {
            wait_semaphore: self.frame_complete_semaphores[self.image_index],
            swapchain: self.swapchain,
            image_index: self.image_index as u32,
        }
    }

    /// Lists the steps that hand everything back at the end.
    pub fn teardown(&self) -> (r: Vec<AppExitStep>)
        ensures
            r@ == seq![
                AppExitStep::WaitIdle,
                AppExitStep::DestroyDepthView(self.depth_view),
                AppExitStep::DestroyDepthImage(self.depth_image),
                AppExitStep::Exit(ExitStep::DestroySwapchain(self.swapchain)),
                AppExitStep::Exit(ExitStep::DestroyDevice),
                AppExitStep::Exit(ExitStep::DestroySurface),
                AppExitStep::Exit(ExitStep::DestroyInstance),
            ],
    {
        let mut steps: Vec<AppExitStep> = Vec::new();
        steps.push(AppExitStep::WaitIdle);
        steps.push(AppExitStep::DestroyDepthView(self.depth_view));
        steps.push(AppExitStep::DestroyDepthImage(self.depth_image));
        steps.push(AppExitStep::Exit(ExitStep::DestroySwapchain(self.swapchain)));
        steps.push(AppExitStep::Exit(ExitStep::DestroyDevice));
        steps.push(AppExitStep::Exit(ExitStep::DestroySurface));
        steps.push(AppExitStep::Exit(ExitStep::DestroyInstance));
        assert(steps@ =~= seq![
            AppExitStep::WaitIdle,
            AppExitStep::DestroyDepthView(self.depth_view),
            AppExitStep::DestroyDepthImage(self.depth_image),
            AppExitStep::Exit(ExitStep::DestroySwapchain(self.swapchain)),
            AppExitStep::Exit(ExitStep::DestroyDevice),
            AppExitStep::Exit(ExitStep::DestroySurface),
            AppExitStep::Exit(ExitStep::DestroyInstance),
        ]);
        steps
    }
}

/// The draws of the first primitives.
spec fn forward_work(index_counts: Seq<u32>, scope: RenderScope, count: nat) -> Seq<Work> {
    Seq::new(
        count,
        |i: int|
            Work::DrawIndexed {
                scope,
                pipeline: PipelineSlot::Forward,
                payload: None,
                vertices: i,
                indices: i,
                index_type: vk::INDEX_UINT32,
                index_count: index_counts[i],
                instance_count: 1,
            },
    )
}

proof fn lemma_forward_draws(index_counts: Seq<u32>, count: nat, r: Recording)
    requires
        r.graphics == Some(PipelineSlot::Forward),
        r.payload is None,
        draw_fits(r),
    ensures
        record(forward_draws(index_counts, count), r) is Some,
        ({
            let after = record(forward_draws(index_counts, count), r)->0;
            &&& after == Recording {
                vertices: after.vertices,
                indices: after.indices,
                index_type: after.index_type,
                work: after.work,
                ..r
            }
            &&& count <= usize::MAX ==> after.work == r.work + forward_work(
                index_counts,
                r.scope->0,
                count,
            )
        }),
    decreases count,
{
    broadcast use lemma_record_push;

    let all = forward_work(index_counts, r.scope->0, count);
    if count > 0 {
        lemma_forward_draws(index_counts, (count - 1) as nat, r);
        let before = record(forward_draws(index_counts, (count - 1) as nat), r)->0;
        let i = (count - 1) as usize;
        let one = step(Command::BindVertexBuffer { primitive: i }, before)->0;
        let two = step(
            Command::BindIndexBuffer { primitive: i, index_type: vk::INDEX_UINT32 },
            one,
        )->0;
        assert(draw_fits(two) == draw_fits(r));
        if count <= usize::MAX {
            let after = record(forward_draws(index_counts, count), r)->0;
            assert(all =~= forward_work(index_counts, r.scope->0, (count - 1) as nat).push(
                all[count - 1],
            ));
            assert(after.work == before.work.push(all[count - 1]));
            assert(after.work =~= r.work + all);
        }
    } else {
        assert(r.work =~= r.work + all);
    }
}

/// A frame can be recorded whatever state its images are in, and the image that was drawn can be
/// shown.
pub proof fn law_forward_frame_is_in_order(
    size: Extent2D,
    image_index: usize,
    index_counts: Seq<u32>,
    layouts: spec_fn(ImageSlot, int) -> i32,
)
    ensures
        ({
            let after = record(
                forward_commands(size, image_index, index_counts),
                fresh_recording(layouts),
            );
            &&& after is Some
            &&& after->0.scope is None
            &&& (after->0.layouts)(ImageSlot::Swapchain(image_index), 0)
                == vk::LAYOUT_PRESENT_SRC_KHR
            &&& (after->0.unsynced)(ImageSlot::Swapchain(image_index), 0) is None
            &&& after->0.images().visible_to(
                ImageSlot::Swapchain(image_index),
                0,
                vk::STAGE_COLOR_ATTACHMENT_OUTPUT,
                vk::ACCESS_NONE,
            )
        }),
{
    lemma_forward_commands(size, image_index, index_counts, layouts);
}

/// What the forward pass draws into.
spec fn forward_scope(size: Extent2D, image_index: usize) -> RenderScope {
    RenderScope {
        area: size,
        color: Some(
            color_attachment(
                ImageSlot::Swapchain(image_index),
                ClearValue::Float {
                    r: vk::F32_ZERO,
                    g: vk::F32_ZERO,
                    b: vk::F32_ONE,
                    a: vk::F32_ONE,
                },
            ),
        ),
        depth: Some(
            depth_attachment(
                ImageSlot::Depth,
                None,
                vk::LAYOUT_ATTACHMENT_OPTIMAL,
                vk::STORE_OP_DONT_CARE,
            ),
        ),
    }
}

proof fn lemma_forward_commands(
    size: Extent2D,
    image_index: usize,
    index_counts: Seq<u32>,
    layouts: spec_fn(ImageSlot, int) -> i32,
)
    ensures
        ({
            let after = record(
                forward_commands(size, image_index, index_counts),
                fresh_recording(layouts),
            );
            &&& after is Some
            &&& after->0.scope is None
            &&& after->0.images().settled(
                ImageSlot::Swapchain(image_index),
                0,
                vk::LAYOUT_PRESENT_SRC_KHR,
            )
            &&& after->0.images().visible_to(
                ImageSlot::Swapchain(image_index),
                0,
                vk::STAGE_COLOR_ATTACHMENT_OUTPUT,
                vk::ACCESS_NONE,
            )
            &&& index_counts.len() <= usize::MAX ==> after->0.work == forward_work(
                index_counts,
                forward_scope(size, image_index),
                index_counts.len(),
            )
        }),
{
    let r0 = fresh_recording(layouts);
    let start = forward_start(size, image_index);
    let all_draws = forward_draws(index_counts, index_counts.len());
    lemma_record_short(start, r0);
    let r1 = record(start, r0)->0;
    lemma_forward_draws(index_counts, index_counts.len(), r1);
    lemma_record_concat(start, all_draws, r0);
    let r2 = record(all_draws, r1)->0;
    lemma_record_concat(start + all_draws, forward_end(image_index), r0);
    lemma_record_short(forward_end(image_index), r2);
    let work = forward_work(index_counts, forward_scope(size, image_index), index_counts.len());
    assert(r1.work + work =~= work);
}

/// A frame draws every primitive once, with its own vertices and indices and as many of them as it
/// has, into the image that was acquired, all of it, and nothing else.
pub proof fn law_forward_frame_draws_scene(
    size: Extent2D,
    image_index: usize,
    index_counts: Seq<u32>,
    layouts: spec_fn(ImageSlot, int) -> i32,
    i: int,
)
    requires
        0 <= i < index_counts.len() <= usize::MAX,
    ensures
        ({
            let work = record(
                forward_commands(size, image_index, index_counts),
                fresh_recording(layouts),
            )->0.work;
            &&& work.len() == index_counts.len()
            &&& work[i] matches Work::DrawIndexed {
                scope,
                pipeline,
                payload,
                vertices,
                indices,
                index_type,
                index_count,
                instance_count,
            } && {
                &&& pipeline == PipelineSlot::Forward
                &&& payload is None
                &&& vertices == i
                &&& indices == i
                &&& index_type == vk::INDEX_UINT32
                &&& index_count == index_counts[i]
                &&& instance_count == 1
                &&& scope.area == size
                &&& scope.color matches Some(color) && {
                    &&& color.image == ImageSlot::Swapchain(image_index)
                    &&& color.layer is None
                    &&& color.load_op == vk::LOAD_OP_CLEAR
                    &&& color.store_op == vk::STORE_OP_STORE
                    &&& color.clear matches ClearValue::Float { r, g, b, a } && r == vk::F32_ZERO
                        && g == vk::F32_ZERO && b == vk::F32_ONE && a == vk::F32_ONE
                }
                &&& scope.depth matches Some(depth) && {
                    &&& depth.image == ImageSlot::Depth
                    &&& depth.layer is None
                    &&& depth.load_op == vk::LOAD_OP_CLEAR
                    &&& depth.store_op == vk::STORE_OP_DONT_CARE
                    &&& depth.clear matches ClearValue::DepthStencil { depth: far, stencil } && far
                        == vk::F32_ONE && stencil == 0
                }
            }
        }),
{
    lemma_forward_commands(size, image_index, index_counts, layouts);
}

/// The fences after an event.
pub open spec fn app_fences_after(
    s: AppState,
    event: FrameEvent,
    fences: Seq<FenceState>,
) -> Seq<FenceState> {
    match (s.phase, event) {
        (FramePhase::Waiting, FrameEvent::FenceSignaled) => fences.update(
            s.frame_index as int,
            FenceState::Signaled,
        ),
        (FramePhase::Preparing, FrameEvent::FenceReset { space_pressed }) => fences.update(
            s.frame_index as int,
            FenceState::Unsignaled,
        ),
        (FramePhase::Submitting, FrameEvent::Submitted) => fences.update(
            s.frame_index as int,
            FenceState::Pending,
        ),
        _ => fences,
    }
}

/// Until something fails, a fence stands for nothing only while the commands that it will stand
/// for are on their way.
pub open spec fn app_fences_fit(s: AppState, fences: Seq<FenceState>) -> bool {
    &&& fences.len() == MAX_FRAMES_IN_FLIGHT
    &&& s.frame_index < MAX_FRAMES_IN_FLIGHT
    &&& s.phase is Failed || forall|i: int|
        0 <= i < fences.len() ==> ((#[trigger] fences[i] is Unsignaled) <==> i == s.frame_index && (
        s.phase is Acquiring || s.phase is Drawing || s.phase is Submitting))
    &&& s.phase is Preparing ==> fences[s.frame_index as int] is Signaled
}

/// Fences are used as they have to be: none is waited for that nothing will signal, none is reset
/// while it stands for work, and none is handed to a submission unless it has been reset.
pub proof fn law_app_fences_are_used_in_order(
    s: AppState,
    event: FrameEvent,
    fences: Seq<FenceState>,
)
    requires
        app_fences_fit(s, fences),
    ensures
        ({
            let (next, action) = app_step(s, event);
            let after = app_fences_after(s, event, fences);
            &&& app_fences_fit(next, after)
            &&& match action {
                FrameAction::WaitForFence(i) => !(after[i as int] is Unsignaled),
                FrameAction::ResetFence(i) => after[i as int] is Signaled,
                FrameAction::Submit(i) => after[i as int] is Unsignaled,
                _ => true,
            }
        }),
{
}


/// The state after events, one after the other.
pub open spec fn app_course(s: AppState, events: Seq<FrameEvent>) -> AppState
    decreases events.len(),
{
    if events.len() == 0 {
        s
    } else {
        app_step(app_course(s, events.drop_last()), events.last()).0
    }
}

/// The image that was acquired last in the course of events, while one was asked for.
pub open spec fn app_last_acquired(s: AppState, events: Seq<FrameEvent>) -> Option<u32>
    decreases events.len(),
{
    if events.len() == 0 {
        None
    } else {
        match (app_course(s, events.drop_last()).phase, events.last()) {
            (FramePhase::Acquiring, FrameEvent::ImageAcquired(n)) => Some(n),
            _ => app_last_acquired(s, events.drop_last()),
        }
    }
}

proof fn lemma_app_acquired(s: AppState, events: Seq<FrameEvent>)
    requires
        s.phase == FramePhase::Idle,
    ensures
        match app_last_acquired(s, events) {
            Some(n) => app_course(s, events).image_index == n,
            None => {
                let phase = app_course(s, events).phase;
                &&& app_course(s, events).image_index == s.image_index
                &&& phase is Idle || phase is Waiting || phase is Preparing || phase is Acquiring
                    || phase is Failed
            },
        },
    decreases events.len(),
{
    if events.len() > 0 {
        lemma_app_acquired(s, events.drop_last());
    }
}

/// The image that is presented is the one that was acquired: whatever has happened, the image of
/// the state is the one acquired last, no other event changes it, and it is the one that is handed
/// to the screen.
pub proof fn law_app_presents_acquired_image(
    s: AppState,
    events: Seq<FrameEvent>,
    event: FrameEvent,
)
    requires
        s.phase == FramePhase::Idle,
    ensures
        ({
            let now = app_course(s, events);
            let (next, action) = app_step(now, event);
            &&& match app_last_acquired(s, events) {
                Some(n) => now.image_index == n,
                None => now.image_index == s.image_index,
            }
            &&& match (now.phase, event) {
                (FramePhase::Acquiring, FrameEvent::ImageAcquired(n)) => next.image_index == n,
                _ => next.image_index == now.image_index,
            }
            &&& action matches FrameAction::Present(k) ==> {
                &&& app_last_acquired(s, events) matches Some(n)
                &&& k == n
            }
        }),
{
    lemma_app_acquired(s, events);
}

/// What is to be done is what the state goes on from, for the frame in flight and the image of the
/// state; frames in flight take turns, each from when it has been submitted.
pub proof fn law_app_actions_fit_state(s: AppState, event: FrameEvent)
    requires
        s.frame_index < MAX_FRAMES_IN_FLIGHT,
    ensures
        ({
            let (next, action) = app_step(s, event);
            &&& match action {
                FrameAction::WaitForFence(i) => next.phase is Waiting && i == s.frame_index,
                FrameAction::ResetFence(i) => next.phase is Preparing && i == s.frame_index,
                FrameAction::AcquireImage(i) => next.phase is Acquiring && i == s.frame_index,
                FrameAction::Draw => next.phase is Drawing,
                FrameAction::Submit(i) => next.phase is Submitting && i == s.frame_index,
                FrameAction::Present(i) => next.phase is Presenting && i == s.image_index,
                FrameAction::Finish => next.phase is Idle && s.phase is Presenting,
                FrameAction::Fail(code) => next.phase is Failed && (event
                    == FrameEvent::AcquireFailed(code) || event == FrameEvent::PresentFailed(code)),
                FrameAction::Ignore => next == s,
                _ => false,
            }
            &&& if action is Present {
                next.frame_index + s.frame_index == 1
            } else {
                next.frame_index == s.frame_index
            }
        }),
{
}

/// A frame with no trouble, and any other: the fence is waited for and reset, an image is acquired,
/// the frame is drawn and submitted, and that image is presented; a failure to acquire or to present
/// is the end, with the result that told of it, and after that nothing happens any more.
pub proof fn law_app_frame_takes_its_course(
    s: AppState,
    event: FrameEvent,
    image: u32,
    space_pressed: bool,
    suboptimal: bool,
    code: i32,
)
    requires
        s.phase == FramePhase::Idle,
        s.frame_index < MAX_FRAMES_IN_FLIGHT,
    ensures
        ({
            let (waiting, wait) = app_step(s, FrameEvent::Begin);
            let (preparing, reset) = app_step(waiting, FrameEvent::FenceSignaled);
            let (asking, ask) = app_step(preparing, FrameEvent::FenceReset { space_pressed });
            let (drawing, draw) = app_step(asking, FrameEvent::ImageAcquired(image));
            let (submitting, submit) = app_step(drawing, FrameEvent::Drawn);
            let (presenting, present) = app_step(submitting, FrameEvent::Submitted);
            let (done, finish) = app_step(presenting, FrameEvent::Presented { suboptimal });
            let (lost, fail) = app_step(asking, FrameEvent::AcquireFailed(code));
            &&& wait == FrameAction::WaitForFence(s.frame_index)
            &&& reset == FrameAction::ResetFence(s.frame_index)
            &&& ask == FrameAction::AcquireImage(s.frame_index)
            &&& draw is Draw
            &&& submit == FrameAction::Submit(s.frame_index)
            &&& present == FrameAction::Present(image as usize)
            &&& finish is Finish
            &&& done.phase is Idle
            &&& done.frame_index + s.frame_index == 1
            &&& done.image_index == image
            &&& fail == FrameAction::Fail(code)
            &&& app_step(lost, event) == (lost, FrameAction::Ignore)
            &&& app_step(presenting, FrameEvent::PresentFailed(code)).1 == FrameAction::Fail(code)
        }),
{
}


/// All primitives of the roots, counted once for every root that they are at.
pub open spec fn primitive_total(
    roots: Seq<SceneRoot>,
    meshes: Seq<Vec<PrimitiveSource>>,
    count: nat,
) -> nat
    decreases count,
{
    if count == 0 {
        0
    } else {
        primitive_total(roots, meshes, (count - 1) as nat) + match roots[count - 1].mesh {
            Some(mesh) => meshes[mesh as int]@.len(),
            None => 0,
        }
    }
}

proof fn lemma_mesh_parts(
    node: usize,
    mesh: usize,
    primitives: Seq<PrimitiveSource>,
    count: nat,
)
    ensures
        mesh_part(node, mesh, primitives, count, true).len() + mesh_part(
            node,
            mesh,
            primitives,
            count,
            false,
        ).len() == count,
    decreases count,
{
    if count > 0 {
        lemma_mesh_parts(node, mesh, primitives, (count - 1) as nat);
    }
}

/// No primitive is brought to the device or reported as left out more often than it is at a root.
pub proof fn law_primitives_are_counted_once(
    roots: Seq<SceneRoot>,
    meshes: Seq<Vec<PrimitiveSource>>,
    count: nat,
)
    requires
        count <= roots.len(),
    ensures
        root_part(roots, meshes, count, true).len() + root_part(roots, meshes, count, false).len()
            == primitive_total(roots, meshes, count),
    decreases count,
{
    if count > 0 {
        law_primitives_are_counted_once(roots, meshes, (count - 1) as nat);
        if let Some(mesh) = roots[count - 1].mesh {
            lemma_mesh_parts(
                roots[count - 1].node,
                mesh,
                meshes[mesh as int]@,
                meshes[mesh as int]@.len(),
            );
        }
    }
}

/// A primitive on the device has the numbers of its root and of the material that it names, or the
/// first, and as many indices as it was loaded with; its buffers hold its own indices and its own
/// vertices, each for its own use.
pub proof fn law_forward_primitive_is_brought<U: FnOnce(BufferCreation, Vec<u8>) -> u64>(
    scene: ForwardScene,
    refs: Seq<PrimitiveRef>,
    meshes: Seq<Vec<PrimitiveSource>>,
    vertices: Seq<U>,
    indices: Seq<U>,
    i: int,
)
    requires
        scene.made(refs, meshes, vertices, indices),
        0 <= i < refs.len(),
    ensures
        ({
            let p = meshes[refs[i].mesh as int]@[refs[i].primitive as int];
            &&& scene.primitive_push_constants@.len() == refs.len()
            &&& scene.primitive_push_constants@[i].object_id == refs[i].node
            &&& match p.material {
                Some(material) => scene.primitive_push_constants@[i].material_id == material,
                None => scene.primitive_push_constants@[i].material_id == 0,
            }
            &&& scene.index_counts@[i] == p.indices@.len()
            &&& filled(
                indices[i],
                vk::BUFFER_USAGE_INDEX_BUFFER,
                p.indices@,
                scene.index_buffers@[i],
            )
            &&& exists|data: Seq<VertexData>|
                #![trigger p.are_vertices(data)]
                p.are_vertices(data) && filled(
                    vertices[i],
                    vk::BUFFER_USAGE_VERTEX_BUFFER,
                    vertices_words(data),
                    scene.vertex_buffers@[i],
                )
        }),
{
    assert(refs[i] == refs[i]);
}

/// A buffer that is written from outside the device has the size and the use asked for and stays
/// mapped, to be written in order or filled by a transfer instead.
pub proof fn law_host_buffer_is_mapped(size: u64, usage: u32)
    ensures
        host_buffer(size, usage).info.size == size,
        host_buffer(size, usage).info.usage == usage,
        host_buffer(size, usage).allocation.usage == MemoryUsage::Auto,
        host_buffer(SHADER_DATA_SIZE, usage).info.size == 16 * 4,
        host_buffer(size, usage).allocation.flags == vk::ALLOCATION_HOST_ACCESS_SEQUENTIAL_WRITE
            | vk::ALLOCATION_HOST_ACCESS_ALLOW_TRANSFER_INSTEAD | vk::ALLOCATION_MAPPED,
{
}

/// The depth buffer is as large as the surface, in the format that depth is tested in, and its view
/// shows all of it; besides it there is a view for each image of the swapchain.
pub proof fn law_forward_depth_fits_surface(
    swapchain_images: Seq<u64>,
    extent: Extent2D,
    image: u64,
    i: int,
)
    requires
        0 <= i < swapchain_images.len(),
    ensures
        ({
            let info = forward_depth_creation(extent).info;
            &&& info.image_type == vk::IMAGE_TYPE_2D
            &&& info.format == ImageSlot::Depth.format()
            &&& info.extent.width == extent.width
            &&& info.extent.height == extent.height
            &&& info.extent.depth == 1
            &&& info.mip_levels == 1
            &&& info.array_layers == 1
            &&& info.samples == vk::SAMPLES_TYPE_1
            &&& info.tiling == vk::TILING_OPTIMAL
            &&& info.usage == vk::IMAGE_USAGE_DEPTH_STENCIL_ATTACHMENT
            &&& info.initial_layout == vk::LAYOUT_UNDEFINED
            &&& forward_depth_creation(extent).allocation.flags == vk::ALLOCATION_DEDICATED_MEMORY
            &&& forward_depth_creation(extent).allocation.usage == MemoryUsage::Auto
        }),
        ({
            let view = forward_depth_view(image);
            &&& view.image == image
            &&& view.view_type == vk::VIEW_TYPE_2D
            &&& view.format == ImageSlot::Depth.format()
            &&& view.range.aspect_mask == ImageSlot::Depth.aspect()
            &&& view.range.base_mip_level == 0
            &&& view.range.level_count == 1
            &&& view.range.base_array_layer == 0
            &&& view.range.layer_count == 1
        }),
        ({
            let requests = forward_requests(swapchain_images, extent);
            &&& requests.len() == swapchain_images.len() + 1
            &&& requests[i] matches Request::ImageView(view) && view.image == swapchain_images[i]
            &&& requests.last() == Request::Image(forward_depth_creation(extent))
        }),
{
}


/// What is presented waits for the drawing of the same image, and the commands are those of the
/// place of the frame, signal its fence, and wait for its image before they put out colour.
pub proof fn law_app_presentation_waits_for_drawing(app: App)
    requires
        app.wf(),
        app.image_exists(),
    ensures
        app.presented().wait_semaphore == app.submitted().signal_semaphore,
        app.presented().image_index == app.image_index,
        app.presented().swapchain == app.swapchain,
        app.submitted().signal_semaphore
            == app.frame_complete_semaphores@[app.presented().image_index as int],
        app.submitted().command_buffer == app.ctx.command_buffers@[app.frame_index as int],
        app.submitted().fence == app.ctx.frame_fences@[app.frame_index as int],
        app.submitted().wait_semaphore
            == app.ctx.image_acquired_semaphores@[app.frame_index as int],
        app.submitted().wait_stage == ImageSlot::Swapchain(app.image_index).earlier_use().stage,
{
}


/// A primitive can be brought to the device just if its node, the number of its indices and that of
/// its material are words.
pub proof fn law_forward_numbers_fit(r: PrimitiveRef, meshes: Seq<Vec<PrimitiveSource>>)
    ensures
        ref_fits(r, meshes) <==> {
            let p = meshes[r.mesh as int]@[r.primitive as int];
            &&& r.node < 0x1_0000_0000
            &&& p.indices@.len() < 0x1_0000_0000
            &&& p.material matches Some(material) ==> material < 0x1_0000_0000
        },
{
}

} // verus!
