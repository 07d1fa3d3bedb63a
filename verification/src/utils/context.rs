//! The device context: how it is set up, and how work and resources pass through it.
use crate::outside::{
    debug_utils_name, instance_flags_union, local_read_name, make_api_version,
    portability_enumeration_name, portability_subset_name, queue_flags_contain, swapchain_name,
};
use crate::utils::requests::{answerable, answered, ask, Request};
use crate::vk;
use vstd::prelude::*;

verus! {

/// One resource to hand back to the driver.
#[derive(Clone, Copy, Debug, PartialEq, Eq, Structural)]
pub enum DestroyStep {
    ImageView(u64),
    Image(u64),
    Buffer(u64),
}

/// A resource that has to be handed back to the driver by hand.
pub trait VkDrop {
    /// What is handed back, in order.
    spec fn destruction(&self) -> Seq<DestroyStep>;

    /// Lists what has to be handed back, in order.
    fn destroy(&self) -> (r: Vec<DestroyStep>)
        ensures
            r@ == self.destruction(),
    ;
}

/// The texts of strings.
pub open spec fn names(strings: Seq<String>) -> Seq<Seq<char>> {
    strings.map_values(|s: String| s@)
}

/// Whether a name is among those that are available.
pub fn has_name(available: &Vec<String>, name: &String) -> (r: bool)
    ensures
        r == names(available@).contains(name@),
{
    let mut i: usize = 0;
    while i < available.len()
        invariant
            i <= available@.len(),
            forall|j: int| 0 <= j < i ==> (#[trigger] available@[j])@ != name@,
        decreases available@.len() - i,
    {
        if available[i] == *name {
            assert(names(available@)[i as int] == name@);
            return true;
        }
        i = i + 1;
    }
    proof {
        if names(available@).contains(name@) {
            let k = choose|k: int| 0 <= k < names(available@).len() && names(available@)[k] == name@;
            assert(available@[k]@ == name@);
        }
    }
    false
}

/// What a Vulkan instance is created with.
#[derive(Debug)]
pub struct InstancePlan {
    pub application_name: String,
    pub engine_version: u32,
    pub api_version: u32,
    pub extensions: Vec<String>,
    pub layers: Vec<String>,
    pub flags: u32,
}

/// Validation is switched on in debugging builds that the driver has debugging support for.
pub open spec fn validates(available: Seq<Seq<char>>, debug: bool) -> bool {
    debug && available.contains("VK_EXT_debug_utils"@)
}

/// Devices of partial conformance are listed where the driver knows of them.
pub open spec fn lists_portability(available: Seq<Seq<char>>) -> bool {
    available.contains("VK_KHR_portability_enumeration"@)
}

/// The instance extensions: those that the window system requires, then the optional ones.
pub open spec fn instance_extensions(
    required: Seq<Seq<char>>,
    available: Seq<Seq<char>>,
    debug: bool,
) -> Seq<Seq<char>> {
    required + (if validates(available, debug) {
        seq!["VK_EXT_debug_utils"@]
    } else {
        seq![]
    }) + (if lists_portability(available) {
        seq!["VK_KHR_portability_enumeration"@]
    } else {
        seq![]
    })
}

/// The device extensions: the swapchain, then the optional ones that the device has.
pub open spec fn device_extensions(available: Seq<Seq<char>>, local_read: bool) -> Seq<Seq<char>> {
    seq!["VK_KHR_swapchain"@] + (if available.contains("VK_KHR_portability_subset"@) {
        seq!["VK_KHR_portability_subset"@]
    } else {
        seq![]
    }) + (if local_read && available.contains("VK_KHR_dynamic_rendering_local_read"@) {
        seq!["VK_KHR_dynamic_rendering_local_read"@]
    } else {
        seq![]
    })
}

/// The device features that are switched on.
#[derive(Clone, Copy, Debug, PartialEq, Eq, Structural)]
pub struct DeviceFeatures {
    pub sampler_anisotropy: bool,
    pub shader_draw_parameters: bool,
    pub descriptor_indexing: bool,
    pub shader_sampled_image_array_non_uniform_indexing: bool,
    pub descriptor_binding_variable_descriptor_count: bool,
    pub runtime_descriptor_array: bool,
    pub buffer_device_address: bool,
    pub scalar_block_layout: bool,
    pub synchronization2: bool,
    pub dynamic_rendering: bool,
}

/// What a logical device is created with.
#[derive(Debug)]
pub struct DevicePlan {
    pub extensions: Vec<String>,
    pub features: DeviceFeatures,
    /// How many queues of the chosen family are created, each of full priority.
    pub queue_count: u32,
}

/// Whether a queue family can draw and present. A failed query counts as no support.
pub open spec fn suitable_family(flags: u32, present: Option<bool>) -> bool {
    flags & vk::QUEUE_GRAPHICS == vk::QUEUE_GRAPHICS && present == Some(true)
}

/// One step of a piece of set-up work on the device.
#[derive(Debug, PartialEq, Eq)]
pub enum SetupStep<T> {
    /// Begin the command buffer, with the given usage flags.
    Begin(u32),
    /// Record a command.
    Record(T),
    /// End the command buffer.
    End,
    /// Submit the command buffer to the queue, with no fence.
    Submit,
    /// Wait until the device is idle.
    WaitIdle,
}

impl<T: Copy> Clone for SetupStep<T> {
    fn clone(&self) -> (r: Self)
        ensures
            r == *self,
    {
        *self
    }
}

impl<T: Copy> Copy for SetupStep<T> {

}

/// The steps that run commands once and wait for them.
pub open spec fn setup_steps<T>(commands: Seq<T>) -> Seq<SetupStep<T>> {
    seq![SetupStep::<T>::Begin(vk::COMMAND_BUFFER_ONE_TIME_SUBMIT)] + commands.map_values(
        |c: T| SetupStep::Record(c),
    ) + seq![SetupStep::<T>::End, SetupStep::Submit, SetupStep::WaitIdle]
}

/// What the driver is asked to create for frames in flight: for each, a fence that starts out
/// signalled and then a semaphore.
pub open spec fn frame_requests(max_frames_in_flight: u32) -> Seq<Request> {
    Seq::new(
        2 * max_frames_in_flight as nat,
        |k: int|
            if k % 2 == 0 {
                Request::Fence(vk::FENCE_SIGNALED)
            } else {
                Request::Semaphore
            },
    )
}

/// Two lists of the same length, taking turns.
pub open spec fn in_turns(first: Seq<u64>, second: Seq<u64>) -> Seq<u64> {
    Seq::new(
        first.len() + second.len(),
        |k: int|
            if k % 2 == 0 {
                first[k / 2]
            } else {
                second[k / 2]
            },
    )
}

/// The objects of the device context that frames are told apart by.
#[derive(Debug)]
pub struct VkCtx {
    pub queue_family_index: u32,
    pub command_buffers: Vec<u64>,
    pub frame_fences: Vec<u64>,
    pub image_acquired_semaphores: Vec<u64>,
    /// The command buffer for set-up work.
    pub setup_cb: u64,
}

impl VkCtx {
    /// There is a command buffer, a fence and a semaphore for every frame in flight.
    pub open spec fn wf(&self, max_frames_in_flight: u32) -> bool {
        &&& self.command_buffers@.len() == max_frames_in_flight
        &&& self.frame_fences@.len() == max_frames_in_flight
        &&& self.image_acquired_semaphores@.len() == max_frames_in_flight
    }

    /// Decides what the instance is created with, from the extensions that the window system
    /// requires and those that the driver has.
    pub fn instance_plan(
        required: Vec<String>,
        available: &Vec<String>,
        debug: bool,
    ) -> (r: InstancePlan)
        ensures
            r.application_name@ == "vk demo"@,
            r.engine_version == 0x1000,
            r.api_version == 0x403000,
            names(r.extensions@) == instance_extensions(
                names(required@),
                names(available@),
                debug,
            ),
            names(r.layers@) == if validates(names(available@), debug) {
                seq!["VK_LAYER_KHRONOS_validation"@]
            } else {
                seq![]
            },
            r.flags == if lists_portability(names(available@)) {
                vk::INSTANCE_ENUMERATE_PORTABILITY_KHR
            } else {
                0
            },
    {
        let validate = debug && has_name(available, &debug_utils_name());
        let portability = has_name(available, &portability_enumeration_name());
        let ghost asked = names(required@);
        let mut extensions = required;
        let mut layers: Vec<String> = Vec::new();
        let mut flags: u32 = 0;
        if validate {
            extensions.push(debug_utils_name());
            layers.push("VK_LAYER_KHRONOS_validation".to_owned());
        }
        if portability {
            extensions.push(portability_enumeration_name());
            flags = instance_flags_union(flags, vk::INSTANCE_ENUMERATE_PORTABILITY_KHR);
        }
        assert(0u32 | 1u32 == 1u32) by (bit_vector);
        assert((0u32 << 29) | (0u32 << 22) | (1u32 << 12) | 0u32 == 0x1000) by (bit_vector);
        assert((0u32 << 29) | (1u32 << 22) | (3u32 << 12) | 0u32 == 0x403000) by (bit_vector);
        assert(names(extensions@) =~= instance_extensions(asked, names(available@), debug));
        assert(names(layers@) =~= if validates(names(available@), debug) {
            seq!["VK_LAYER_KHRONOS_validation"@]
        } else {
            seq![]
        });
        InstancePlan {
            application_name: "vk demo".to_owned(),
            engine_version: make_api_version(0, 0, 1, 0),
            api_version: make_api_version(0, 1, 3, 0),
            extensions,
            layers,
            flags,
        }
    }

    /// The device to use: the first one, if there is any.
    pub fn pick_physical_device(devices: &Vec<u64>) -> (r: Option<u64>)
        ensures
            r == if devices@.len() == 0 {
                None
            } else {
                Some(devices@[0])
            },
    {
        if devices.len() == 0 {
            None
        } else {
            Some(devices[0])
        }
    }

    /// The queue family to use: the first one that can both draw and present, if there is any.
    pub fn pick_queue_family(flags: &Vec<u32>, present: &Vec<Option<bool>>) -> (r: Option<u32>)
        requires
            flags@.len() == present@.len(),
            flags@.len() <= u32::MAX,
        ensures
            match r {
                Some(i) => {
                    &&& i < flags@.len()
                    &&& suitable_family(flags@[i as int], present@[i as int])
                    &&& forall|j: int|
                        0 <= j < i ==> !suitable_family(#[trigger] flags@[j], present@[j])
                },
                None => forall|j: int|
                    0 <= j < flags@.len() ==> !suitable_family(#[trigger] flags@[j], present@[j]),
            },
    {
        let mut i: usize = 0;
        while i < flags.len()
            invariant
                i <= flags@.len() <= u32::MAX,
                flags@.len() == present@.len(),
                forall|j: int| 0 <= j < i ==> !suitable_family(#[trigger] flags@[j], present@[j]),
            decreases flags@.len() - i,
        {
            let graphics_valid = queue_flags_contain(flags[i], vk::QUEUE_GRAPHICS);
            let surface_valid = match present[i] {
                Some(supported) => supported,
                None => false,
            };
            if graphics_valid && surface_valid {
                return Some(i as u32);
            }
            i = i + 1;
        }
        None
    }

    /// Lists the device extensions to switch on, of those that the device has.
    pub fn device_extensions(available: &Vec<String>, local_read: bool) -> (r: Vec<String>)
        ensures
            names(r@) == device_extensions(names(available@), local_read),
    {
        let mut extensions: Vec<String> = Vec::new();
        extensions.push(swapchain_name());
        let subset = portability_subset_name();
        if has_name(available, &subset) {
            extensions.push(subset);
        }
        if local_read {
            let read = local_read_name();
            if has_name(available, &read) {
                extensions.push(read);
            }
        }
        assert(names(extensions@) =~= device_extensions(names(available@), local_read));
        extensions
    }

    /// Decides what the device is created with, from the extensions that it has.
    pub fn device_plan(available: &Vec<String>) -> (r: DevicePlan)
        ensures
            names(r.extensions@) == device_extensions(names(available@), true),
            r.features == (DeviceFeatures {
                sampler_anisotropy: true,
                shader_draw_parameters: true,
                descriptor_indexing: true,
                shader_sampled_image_array_non_uniform_indexing: true,
                descriptor_binding_variable_descriptor_count: true,
                runtime_descriptor_array: true,
                buffer_device_address: true,
                scalar_block_layout: true,
                synchronization2: true,
                dynamic_rendering: true,
            }),
            r.queue_count == 1,
    {
        DevicePlan {
            extensions: Self::device_extensions(available, true),
            features: DeviceFeatures {
                sampler_anisotropy: true,
                shader_draw_parameters: true,
                descriptor_indexing: true,
                shader_sampled_image_array_non_uniform_indexing: true,
                descriptor_binding_variable_descriptor_count: true,
                runtime_descriptor_array: true,
                buffer_device_address: true,
                scalar_block_layout: true,
                synchronization2: true,
                dynamic_rendering: true,
            },
            queue_count: 1,
        }
    }

    /// Has the driver make the objects of each frame in flight: a command buffer, a fence that
    /// starts out signalled and a semaphore; and one more command buffer for set-up work. It hands
    /// out as many command buffers as it is asked for. Nothing can be asked for twice.
    pub fn new<
        C: FnOnce(u32) -> Vec<u64>,
        M: FnOnce(Vec<Request>) -> Vec<u64>,
        S: FnOnce(u32) -> Vec<u64>,
    >(
        queue_family_index: u32,
        max_frames_in_flight: u32,
        allocate_frame_buffers: C,
        make: M,
        allocate_setup_buffer: S,
    ) -> (r: Self)
        requires
            allocate_frame_buffers.requires((max_frames_in_flight,)),
            forall|v: Vec<u64>| #[trigger]
                allocate_frame_buffers.ensures((max_frames_in_flight,), v) ==> v@.len()
                    == max_frames_in_flight,
            answerable(make, frame_requests(max_frames_in_flight)),
            allocate_setup_buffer.requires((1u32,)),
            forall|v: Vec<u64>| #[trigger]
                allocate_setup_buffer.ensures((1u32,), v) ==> v@.len() == 1,
        ensures
            r.wf(max_frames_in_flight),
            r.queue_family_index == queue_family_index,
            allocate_frame_buffers.ensures((max_frames_in_flight,), r.command_buffers),
            answered(
                make,
                frame_requests(max_frames_in_flight),
                in_turns(r.frame_fences@, r.image_acquired_semaphores@),
            ),
            exists|v: Vec<u64>| #[trigger]
                allocate_setup_buffer.ensures((1u32,), v) && v@ == seq![r.setup_cb],
    {
        let command_buffers = allocate_frame_buffers(max_frames_in_flight);
        let mut requests: Vec<Request> = Vec::new();
        let mut i: u32 = 0;
        while i < max_frames_in_flight
            invariant
                i <= max_frames_in_flight,
                requests@ =~= frame_requests(i),
            decreases max_frames_in_flight - i,
        {
            requests.push(Request::Fence(vk::FENCE_SIGNALED));
            requests.push(Request::Semaphore);
            i = i + 1;
        }
        let handles = ask(make, requests);
        let mut frame_fences: Vec<u64> = Vec::new();
        let mut image_acquired_semaphores: Vec<u64> = Vec::new();
        let mut k: usize = 0;
        while k < handles.len()
            invariant
                k <= handles@.len(),
                k % 2 == 0,
                handles@.len() == 2 * max_frames_in_flight,
                frame_fences@.len() == k / 2,
                image_acquired_semaphores@.len() == k / 2,
                in_turns(frame_fences@, image_acquired_semaphores@) =~= handles@.take(k as int),
            decreases handles@.len() - k,
        {
            frame_fences.push(handles[k]);
            image_acquired_semaphores.push(handles[k + 1]);
            k = k + 2;
        }
        assert(handles@.take(handles@.len() as int) =~= handles@);
        let setup = allocate_setup_buffer(1);
        assert(setup@ =~= seq![setup@[0]]);
        VkCtx {
            queue_family_index,
            command_buffers,
            frame_fences,
            image_acquired_semaphores,
            setup_cb: setup[0],
        }
    }

    /// Lists what has to be done to hand a resource back to the driver.
    pub fn destroy<T: VkDrop>(&self, resource: &T) -> (r: Vec<DestroyStep>)
        ensures
            r@ == resource.destruction(),
    {
        resource.destroy()
    }

    /// Lists the steps that run commands once and wait for them.
    pub fn with_setup_cb<T: Copy>(&self, commands: &Vec<T>) -> (r: Vec<SetupStep<T>>)
        ensures
            r@ == setup_steps(commands@),
    {
        let mut steps: Vec<SetupStep<T>> = Vec::new();
        steps.push(SetupStep::Begin(vk::COMMAND_BUFFER_ONE_TIME_SUBMIT));
        let mut i: usize = 0;
        while i < commands.len()
            invariant
                i <= commands@.len(),
                steps@ =~= seq![SetupStep::<T>::Begin(vk::COMMAND_BUFFER_ONE_TIME_SUBMIT)]
                    + commands@.take(i as int).map_values(|c: T| SetupStep::Record(c)),
            decreases commands@.len() - i,
        {
            steps.push(SetupStep::Record(commands[i]));
            i = i + 1;
        }
        steps.push(SetupStep::End);
        steps.push(SetupStep::Submit);
        steps.push(SetupStep::WaitIdle);
        assert(commands@.take(commands@.len() as int) =~= commands@);
        assert(steps@ =~= setup_steps(commands@));
        steps
    }
}

/// The driver is asked for as many objects as there are fences and semaphores, no more and no less,
/// and each frame has the fence and the semaphore that were created for it.
pub proof fn law_frame_objects_are_created_once(
    max_frames_in_flight: u32,
    fences: Seq<u64>,
    semaphores: Seq<u64>,
    i: int,
)
    requires
        fences.len() == max_frames_in_flight,
        semaphores.len() == max_frames_in_flight,
        0 <= i < max_frames_in_flight,
    ensures
        frame_requests(max_frames_in_flight).len() == fences.len() + semaphores.len(),
        frame_requests(max_frames_in_flight)[2 * i] == Request::Fence(vk::FENCE_SIGNALED),
        in_turns(fences, semaphores)[2 * i] == fences[i],
        frame_requests(max_frames_in_flight)[2 * i + 1] == Request::Semaphore,
        in_turns(fences, semaphores)[2 * i + 1] == semaphores[i],
{
}


/// An instance has all extensions that the window system requires, first and in their order, and
/// besides them only ones that the driver has: debugging support in debugging builds, and the
/// listing of devices of partial conformance, wherever the driver has them.
pub proof fn law_instance_extensions_are_available(
    required: Seq<Seq<char>>,
    available: Seq<Seq<char>>,
    debug: bool,
    i: int,
)
    requires
        0 <= i < instance_extensions(required, available, debug).len(),
    ensures
        ({
            let all = instance_extensions(required, available, debug);
            let debugs = debug && available.contains("VK_EXT_debug_utils"@);
            let lists = available.contains("VK_KHR_portability_enumeration"@);
            &&& i < required.len() ==> all[i] == required[i]
            &&& i >= required.len() ==> available.contains(all[i])
            &&& debugs ==> all[required.len() as int] == "VK_EXT_debug_utils"@
            &&& lists ==> all.last() == "VK_KHR_portability_enumeration"@
            &&& all.len() == required.len() + (if debugs {
                1int
            } else {
                0
            }) + (if lists {
                1int
            } else {
                0
            })
        }),
{
}

/// A device has the extension for swapchains, and besides it only ones that it offers: that for
/// partial conformance wherever it is offered, and that for local reads where it is wanted too.
pub proof fn law_device_extensions_are_available(
    available: Seq<Seq<char>>,
    local_read: bool,
    i: int,
)
    requires
        0 <= i < device_extensions(available, local_read).len(),
    ensures
        ({
            let all = device_extensions(available, local_read);
            let subset = available.contains("VK_KHR_portability_subset"@);
            let reads = local_read && available.contains("VK_KHR_dynamic_rendering_local_read"@);
            &&& all[0] == "VK_KHR_swapchain"@
            &&& i >= 1 ==> available.contains(all[i])
            &&& subset ==> all[1] == "VK_KHR_portability_subset"@
            &&& reads ==> all.last() == "VK_KHR_dynamic_rendering_local_read"@
            &&& all.len() == 1 + (if subset {
                1int
            } else {
                0
            }) + (if reads {
                1int
            } else {
                0
            })
        }),
{
}

/// A queue family will do just if its first flag, that for drawing, is set and the surface says
/// that it can present; a query that failed says nothing of the kind.
pub proof fn law_family_draws_and_presents(flags: u32, present: Option<bool>)
    ensures
        suitable_family(flags, present) <==> flags % 2 == 1 && present == Some(true),
        !suitable_family(flags, None),
        !suitable_family(flags, Some(false)),
{
    assert((flags & 1u32 == 1u32) == (flags % 2 == 1)) by (bit_vector);
}

/// Set-up work runs its commands once and in their order: the command buffer is begun for one
/// submission, takes every command, is ended, submitted, and waited for.
pub proof fn law_setup_runs_commands_once<T>(commands: Seq<T>, i: int)
    ensures
        ({
            let steps = setup_steps(commands);
            let n = commands.len() as int;
            &&& steps.len() == n + 4
            &&& steps[0] == SetupStep::<T>::Begin(vk::COMMAND_BUFFER_ONE_TIME_SUBMIT)
            &&& 0 <= i < n ==> steps[1 + i] == SetupStep::Record(commands[i])
            &&& steps[n + 1] is End
            &&& steps[n + 2] is Submit
            &&& steps[n + 3] is WaitIdle
        }),
{
}

/// Validation and the listing of devices of partial conformance are asked for just where the driver
/// knows of them, validation in debugging builds only.
pub proof fn law_options_need_support(available: Seq<Seq<char>>, debug: bool)
    ensures
        validates(available, debug) <==> debug && available.contains("VK_EXT_debug_utils"@),
        lists_portability(available) <==> available.contains("VK_KHR_portability_enumeration"@),
{
}

} // verus!
