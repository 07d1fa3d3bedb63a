//! Uploads: how bytes reach memory that only the device can write.
use crate::utils::buffer::BufferCreation;
use crate::utils::context::{setup_steps, SetupStep, VkCtx};
use crate::vk;
use crate::vk::{AllocationCreateInfo, BufferCreateInfo, MemoryUsage};
use vstd::prelude::*;

verus! {

/// One step of an upload into a resource that is created with `R` and filled by commands `C`.
#[derive(Debug, PartialEq, Eq)]
pub enum UploadStep<R, C> {
    /// Create the staging buffer.
    CreateStaging(BufferCreation),
    /// Write bytes to the mapped memory of the staging buffer, from its start.
    WriteStaging(Vec<u8>),
    /// Create the resource that the bytes are for.
    CreateTarget(R),
    /// Go on with the set-up work, whose commands read the staging buffer and write the resource.
    Setup(SetupStep<C>),
    /// Hand the staging buffer back.
    DestroyStaging,
}

/// A buffer that bytes are written to from outside the device and copied from on it.
pub open spec fn staging_buffer(byte_count: u64) -> BufferCreation {
    BufferCreation {
        info: BufferCreateInfo { size: byte_count, usage: vk::BUFFER_USAGE_TRANSFER_SRC },
        allocation: AllocationCreateInfo {
            flags: vk::ALLOCATION_HOST_ACCESS_SEQUENTIAL_WRITE | vk::ALLOCATION_MAPPED,
            usage: MemoryUsage::Auto,
        },
    }
}

/// The steps of an upload: the bytes go to a staging buffer, the resource is created, the commands
/// are run and waited for, and the staging buffer is handed back.
pub open spec fn upload_steps<R, C>(bytes: Vec<u8>, target: R, commands: Seq<C>) -> Seq<
    UploadStep<R, C>,
> {
    seq![
        UploadStep::<R, C>::CreateStaging(staging_buffer(bytes@.len() as u64)),
        UploadStep::WriteStaging(bytes),
        UploadStep::CreateTarget(target),
    ] + setup_steps(commands).map_values(|s: SetupStep<C>| UploadStep::<R, C>::Setup(s)) + seq![
        UploadStep::<R, C>::DestroyStaging,
    ]
}

/// Lists the steps of an upload.
pub(crate) fn list_upload<R, C: Copy>(
    ctx: &VkCtx,
    bytes: Vec<u8>,
    target: R,
    commands: &Vec<C>,
) -> (r: Vec<UploadStep<R, C>>)
    ensures
        r@ == upload_steps(bytes, target, commands@),
{
    let size: u64 = bytes.len() as u64;
    let ghost data = bytes;
    let ghost created = target;
    let staging = BufferCreation {
        info: BufferCreateInfo { size, usage: vk::BUFFER_USAGE_TRANSFER_SRC },
        allocation: AllocationCreateInfo {
            flags: vk::ALLOCATION_HOST_ACCESS_SEQUENTIAL_WRITE | vk::ALLOCATION_MAPPED,
            usage: MemoryUsage::Auto,
        },
    };
    let mut steps: Vec<UploadStep<R, C>> = Vec::new();
    steps.push(UploadStep::CreateStaging(staging));
    steps.push(UploadStep::WriteStaging(bytes));
    steps.push(UploadStep::CreateTarget(target));
    let ghost start = steps@;
    let setup = ctx.with_setup_cb(commands);
    let mut i: usize = 0;
    while i < setup.len()
        invariant
            i <= setup@.len(),
            steps@ =~= start + setup@.take(i as int).map_values(
                |s: SetupStep<C>| UploadStep::<R, C>::Setup(s),
            ),
        decreases setup@.len() - i,
    {
        steps.push(UploadStep::Setup(setup[i]));
        i = i + 1;
    }
    assert(setup@.take(setup@.len() as int) =~= setup@);
    steps.push(UploadStep::DestroyStaging);
    assert(steps@ =~= upload_steps(data, created, commands@));
    steps
}

/// Steps were carried out, in their order, and gave the resource under a handle.
pub open spec fn carried_out<R, C, U: FnOnce(Vec<UploadStep<R, C>>) -> u64>(
    upload: U,
    steps: Seq<UploadStep<R, C>>,
    handle: u64,
) -> bool {
    exists|list: Vec<UploadStep<R, C>>| list@ == steps && #[trigger] upload.ensures((list,), handle)
}

/// A staging buffer in the course of an upload.
pub enum Staging {
    /// It has not been created yet.
    Missing,
    /// It has been created with a size.
    Created(u64),
    /// Bytes have been written to it.
    Holding(Seq<u8>),
    /// It has been handed back.
    Destroyed,
}

/// What an upload has come to.
pub struct UploadState<R, C> {
    pub staging: Staging,
    /// The resource, once it is created.
    pub target: Option<R>,
    /// The commands recorded so far, while they are recorded.
    pub recording: Option<Seq<C>>,
    /// The commands that have been recorded and wait to be submitted.
    pub recorded: Option<Seq<C>>,
    /// The commands that may be running.
    pub running: Seq<C>,
    /// The commands that have run, each with what the staging buffer held all the while.
    pub done: Seq<(C, Seq<u8>)>,
}

/// An upload before its first step.
pub open spec fn upload_start<R, C>() -> UploadState<R, C> {
    UploadState {
        staging: Staging::Missing,
        target: None,
        recording: None,
        recorded: None,
        running: Seq::empty(),
        done: Seq::empty(),
    }
}

/// What a step leads to, or nothing if it comes at the wrong time: the staging buffer is created
/// and written once, and handed back once and only while nothing runs that reads it; commands are
/// recorded when there is something to read and to write, and submitted once they are recorded.
pub open spec fn upload_step<R, C>(s: UploadState<R, C>, step: UploadStep<R, C>) -> Option<
    UploadState<R, C>,
> {
    match (step, s.staging) {
        (UploadStep::CreateStaging(creation), Staging::Missing) => Some(
            UploadState { staging: Staging::Created(creation.info.size), ..s },
        ),
        (UploadStep::WriteStaging(bytes), Staging::Created(size)) => if bytes@.len() == size {
            Some(UploadState { staging: Staging::Holding(bytes@), ..s })
        } else {
            None
        },
        (UploadStep::CreateTarget(target), _) => if s.target is None {
            Some(UploadState { target: Some(target), ..s })
        } else {
            None
        },
        (UploadStep::Setup(SetupStep::Begin(_)), _) => if s.recording is None && s.recorded is None
            && s.running.len() == 0 {
            Some(UploadState { recording: Some(Seq::empty()), ..s })
        } else {
            None
        },
        (UploadStep::Setup(SetupStep::Record(command)), Staging::Holding(_)) => match s.recording {
            Some(earlier) => if s.target is Some {
                Some(UploadState { recording: Some(earlier.push(command)), ..s })
            } else {
                None
            },
            None => None,
        },
        (UploadStep::Setup(SetupStep::End), _) => if s.recording is Some {
            Some(UploadState { recording: None, recorded: s.recording, ..s })
        } else {
            None
        },
        (UploadStep::Setup(SetupStep::Submit), _) => match s.recorded {
            Some(commands) => Some(UploadState { recorded: None, running: commands, ..s }),
            None => None,
        },
        (UploadStep::Setup(SetupStep::WaitIdle), Staging::Holding(bytes)) => Some(
            UploadState {
                running: Seq::empty(),
                done: s.done + s.running.map_values(|c: C| (c, bytes)),
                ..s
            },
        ),
        (UploadStep::DestroyStaging, Staging::Holding(_)) => if s.recording is None
            && s.recorded is None && s.running.len() == 0 {
            Some(UploadState { staging: Staging::Destroyed, ..s })
        } else {
            None
        },
        _ => None,
    }
}

/// What steps lead to, one after the other, or nothing if one of them comes at the wrong time.
pub open spec fn upload_run<R, C>(steps: Seq<UploadStep<R, C>>, s: UploadState<R, C>) -> Option<
    UploadState<R, C>,
>
    decreases steps.len(),
{
    if steps.len() == 0 {
        Some(s)
    } else {
        match upload_run(steps.drop_last(), s) {
            Some(before) => upload_step(before, steps.last()),
            None => None,
        }
    }
}

proof fn lemma_run_push<R, C>(
    steps: Seq<UploadStep<R, C>>,
    step: UploadStep<R, C>,
    s: UploadState<R, C>,
)
    ensures
        upload_run(steps.push(step), s) == match upload_run(steps, s) {
            Some(before) => upload_step(before, step),
            None => None,
        },
{
    assert(steps.push(step).drop_last() =~= steps);
}

proof fn lemma_run_records<R, C>(
    steps: Seq<UploadStep<R, C>>,
    commands: Seq<C>,
    s: UploadState<R, C>,
    before: UploadState<R, C>,
)
    requires
        upload_run(steps, s) == Some(before),
        before.staging is Holding,
        before.target is Some,
        before.recording == Some(Seq::<C>::empty()),
    ensures
        upload_run(
            steps + commands.map_values(
                |c: C| UploadStep::<R, C>::Setup(SetupStep::Record(c)),
            ),
            s,
        ) == Some(UploadState { recording: Some(commands), ..before }),
    decreases commands.len(),
{
    let records = commands.map_values(|c: C| UploadStep::<R, C>::Setup(SetupStep::Record(c)));
    if commands.len() == 0 {
        assert(steps + records =~= steps);
        assert(commands =~= Seq::<C>::empty());
    } else {
        let fewer = commands.drop_last();
        let earlier = fewer.map_values(|c: C| UploadStep::<R, C>::Setup(SetupStep::Record(c)));
        lemma_run_records(steps, fewer, s, before);
        lemma_run_push(
            steps + earlier,
            UploadStep::<R, C>::Setup(SetupStep::Record(commands.last())),
            s,
        );
        assert(steps + records =~= (steps + earlier).push(
            UploadStep::<R, C>::Setup(SetupStep::Record(commands.last())),
        ));
        assert(fewer.push(commands.last()) =~= commands);
    }
}

/// Every step of an upload comes at its time. In the end the resource is created, every command
/// has run to its end while the staging buffer held the bytes, and the staging buffer has been
/// handed back: once, and after the wait.
pub proof fn law_upload_is_in_order<R, C>(bytes: Vec<u8>, target: R, commands: Seq<C>)
    requires
        bytes@.len() <= u64::MAX,
    ensures
        upload_run(upload_steps(bytes, target, commands), upload_start()) == Some(
            UploadState {
                staging: Staging::Destroyed,
                target: Some(target),
                recording: None,
                recorded: None,
                running: Seq::empty(),
                done: commands.map_values(|c: C| (c, bytes@)),
            },
        ),
{
    let start = upload_start::<R, C>();
    let s0 = Seq::<UploadStep<R, C>>::empty();
    let a = UploadStep::<R, C>::CreateStaging(staging_buffer(bytes@.len() as u64));
    let b = UploadStep::<R, C>::WriteStaging(bytes);
    let c = UploadStep::<R, C>::CreateTarget(target);
    let d = UploadStep::<R, C>::Setup(SetupStep::Begin(vk::COMMAND_BUFFER_ONE_TIME_SUBMIT));
    lemma_run_push(s0, a, start);
    lemma_run_push(s0.push(a), b, start);
    lemma_run_push(s0.push(a).push(b), c, start);
    lemma_run_push(s0.push(a).push(b).push(c), d, start);
    let s4 = s0.push(a).push(b).push(c).push(d);
    let ready = UploadState {
        staging: Staging::Holding(bytes@),
        target: Some(target),
        recording: Some(Seq::<C>::empty()),
        recorded: None,
        running: Seq::empty(),
        done: Seq::empty(),
    };
    assert(upload_run(s4, start) == Some(ready));
    lemma_run_records(s4, commands, start, ready);
    let s5 = s4 + commands.map_values(|c: C| UploadStep::<R, C>::Setup(SetupStep::Record(c)));
    let e = UploadStep::<R, C>::Setup(SetupStep::End);
    let f = UploadStep::<R, C>::Setup(SetupStep::Submit);
    let g = UploadStep::<R, C>::Setup(SetupStep::WaitIdle);
    let h = UploadStep::<R, C>::DestroyStaging;
    lemma_run_push(s5, e, start);
    lemma_run_push(s5.push(e), f, start);
    lemma_run_push(s5.push(e).push(f), g, start);
    lemma_run_push(s5.push(e).push(f).push(g), h, start);
    assert(Seq::<(C, Seq<u8>)>::empty() + commands.map_values(|c: C| (c, bytes@))
        =~= commands.map_values(|c: C| (c, bytes@)));
    assert(s5.push(e).push(f).push(g).push(h) =~= upload_steps(bytes, target, commands));
}


/// A staging buffer is as large as the bytes, is mapped and written in order from outside the
/// device, and can be copied from and nothing else.
pub proof fn law_staging_buffer_fits_bytes(byte_count: u64)
    ensures
        staging_buffer(byte_count).info.size == byte_count,
        staging_buffer(byte_count).info.usage == vk::BUFFER_USAGE_TRANSFER_SRC,
        staging_buffer(byte_count).allocation.flags == vk::ALLOCATION_HOST_ACCESS_SEQUENTIAL_WRITE
            | vk::ALLOCATION_MAPPED,
        staging_buffer(byte_count).allocation.usage == MemoryUsage::Auto,
{
}

} // verus!
