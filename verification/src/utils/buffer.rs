//! Buffers: how they are created, filled and addressed.
use crate::outside::buffer_usage_union;
use crate::utils::context::{DestroyStep, VkCtx, VkDrop};
use crate::utils::requests::{answerable, answered, ask, Request};
use crate::utils::upload::{
    carried_out, law_upload_is_in_order, list_upload, upload_run, upload_start, upload_steps,
    Staging, UploadState, UploadStep,
};
use crate::vk;
use crate::vk::{AllocationCreateInfo, BufferCopy, BufferCreateInfo, MemoryUsage};
use vstd::prelude::*;

verus! {

/// A buffer that the driver holds.
#[derive(Clone, Copy, Debug, PartialEq, Eq)]
pub struct Buffer {
    pub buffer: u64,
    /// The size in bytes that the buffer was created with.
    pub size: u64,
    /// The device address, once it has been asked for.
    pub address: Option<u64>,
}

/// A buffer together with the memory it is to live in.
#[derive(Clone, Copy, Debug, PartialEq, Eq, Structural)]
pub struct BufferCreation {
    pub info: BufferCreateInfo,
    pub allocation: AllocationCreateInfo,
}

/// What a buffer in device memory for the given uses is created with. It can be copied into,
/// whatever uses were asked for.
pub open spec fn data_buffer(usage: u32, byte_count: u64) -> BufferCreation {
    BufferCreation {
        info: BufferCreateInfo { size: byte_count, usage: usage | vk::BUFFER_USAGE_TRANSFER_DST },
        allocation: AllocationCreateInfo { flags: 0, usage: MemoryUsage::AutoPreferDevice },
    }
}

/// The copy of the first bytes of one buffer to the start of another.
pub open spec fn data_copy(byte_count: u64) -> BufferCopy {
    BufferCopy { src_offset: 0, dst_offset: 0, size: byte_count }
}

/// As many buffers as asked for, all created alike.
pub open spec fn buffer_requests(creation: BufferCreation, count: u32) -> Seq<Request> {
    Seq::new(count as nat, |i: int| Request::Buffer(creation))
}

/// The handles of buffers.
pub open spec fn buffer_handles(buffers: Seq<Buffer>) -> Seq<u64> {
    buffers.map_values(|b: Buffer| b.buffer)
}

/// How bytes are brought into a device buffer for the given uses.
pub open spec fn buffer_upload(usage: u32, bytes: Vec<u8>) -> Seq<
    UploadStep<BufferCreation, BufferCopy>,
> {
    upload_steps(
        bytes,
        data_buffer(usage, bytes@.len() as u64),
        seq![data_copy(bytes@.len() as u64)],
    )
}

impl VkDrop for Buffer {
    open spec fn destruction(&self) -> Seq<DestroyStep> {
        seq![DestroyStep::Buffer(self.buffer)]
    }

    fn destroy(&self) -> (r: Vec<DestroyStep>) {
        let mut steps: Vec<DestroyStep> = Vec::new();
        steps.push(DestroyStep::Buffer(self.buffer));
        assert(steps@ =~= self.destruction());
        steps
    }
}

impl Buffer {
    /// Has the driver create a buffer of the given size, for the given uses and in the given
    /// kind of memory. Its address has not been asked for yet.
    pub fn new<F: FnOnce(BufferCreateInfo, AllocationCreateInfo) -> u64>(
        create: F,
        size: u64,
        usage: u32,
        mem_usage: MemoryUsage,
        mem_flags: u32,
    ) -> (r: Self)
        requires
            create.requires(
                (
                    BufferCreateInfo { size, usage },
                    AllocationCreateInfo { flags: mem_flags, usage: mem_usage },
                ),
            ),
        ensures
            create.ensures(
                (
                    BufferCreateInfo { size, usage },
                    AllocationCreateInfo { flags: mem_flags, usage: mem_usage },
                ),
                r.buffer,
            ),
            r.size == size,
            r.address == None::<u64>,
    {
        let buffer: u64 = create(
            BufferCreateInfo { size, usage },
            AllocationCreateInfo { flags: mem_flags, usage: mem_usage },
        );
        Buffer { buffer, size, address: None }
    }

    /// Has the driver create a buffer for each of the frames in flight, and no others.
    pub fn for_frames<M: FnOnce(Vec<Request>) -> Vec<u64>>(
        make: M,
        creation: BufferCreation,
        count: u32,
    ) -> (r: Vec<Self>)
        requires
            answerable(make, buffer_requests(creation, count)),
        ensures
            answered(make, buffer_requests(creation, count), buffer_handles(r@)),
            r@.len() == count,
            forall|i: int|
                0 <= i < count ==> (#[trigger] r@[i]).size == creation.info.size
                    && r@[i].address is None,
    {
        let mut requests: Vec<Request> = Vec::new();
        let mut i: u32 = 0;
        while i < count
            invariant
                i <= count,
                requests@ =~= buffer_requests(creation, i),
            decreases count - i,
        {
            requests.push(Request::Buffer(creation));
            i = i + 1;
        }
        let handles = ask(make, requests);
        let mut buffers: Vec<Buffer> = Vec::new();
        let mut k: usize = 0;
        while k < handles.len()
            invariant
                k <= handles@.len(),
                buffers@.len() == k,
                buffer_handles(buffers@) =~= handles@.take(k as int),
                forall|j: int|
                    0 <= j < k ==> (#[trigger] buffers@[j]).size == creation.info.size
                        && buffers@[j].address is None,
            decreases handles@.len() - k,
        {
            buffers.push(Buffer { buffer: handles[k], size: creation.info.size, address: None });
            k = k + 1;
        }
        assert(handles@.take(handles@.len() as int) =~= handles@);
        buffers
    }

    /// Copies bytes into the mapped memory of the buffer, of which as much as there are bytes is
    /// handed in.
    pub fn write(&self, mapped: &mut [u8], bytes: &[u8])
        requires
            old(mapped)@.len() == bytes@.len(),
        ensures
            final(mapped)@ == bytes@,
    {
        let mut i: usize = 0;
        while i < bytes.len()
            invariant
                i <= bytes@.len(),
                mapped@.len() == bytes@.len(),
                forall|j: int| 0 <= j < i ==> mapped@[j] == bytes@[j],
            decreases bytes@.len() - i,
        {
            mapped[i] = bytes[i];
            i = i + 1;
        }
        assert(mapped@ =~= bytes@);
    }

    /// The range of the memory to flush after a write: all of it, as offset and size.
    pub fn flush(&self) -> (r: (u64, u64))
        ensures
            r == (0u64, self.size),
    {
        (0, self.size)
    }

    /// The device address. The driver is asked for it the first time only.
    pub fn address<F: FnOnce(u64) -> u64>(&mut self, query: F) -> (r: u64)
        requires
            old(self).address is None ==> query.requires((old(self).buffer,)),
        ensures
            final(self).buffer == old(self).buffer,
            final(self).size == old(self).size,
            final(self).address == Some(r),
            match old(self).address {
                Some(known) => r == known,
                None => query.ensures((old(self).buffer,), r),
            },
    {
        match self.address {
            Some(known) => known,
            None => {
                let found: u64 = query(self.buffer);
                self.address = Some(found);
                found
            },
        }
    }

    /// Brings bytes into a device buffer for the given uses. `upload` carries out the steps and
    /// gives the handle of the buffer that is created on the way.
    pub fn from_data<U: FnOnce(Vec<UploadStep<BufferCreation, BufferCopy>>) -> u64>(
        ctx: &VkCtx,
        upload: U,
        usage: u32,
        bytes: Vec<u8>,
    ) -> (r: Self)
        requires
            forall|steps: Vec<UploadStep<BufferCreation, BufferCopy>>|
                steps@ == buffer_upload(usage, bytes) ==> #[trigger] upload.requires((steps,)),
        ensures
            carried_out(upload, buffer_upload(usage, bytes), r.buffer),
            r.size == bytes@.len(),
            r.address is None,
    {
        let size: u64 = bytes.len() as u64;
        let target = BufferCreation {
            info: BufferCreateInfo {
                size,
                usage: buffer_usage_union(usage, vk::BUFFER_USAGE_TRANSFER_DST),
            },
            allocation: AllocationCreateInfo { flags: 0, usage: MemoryUsage::AutoPreferDevice },
        };
        let mut commands: Vec<BufferCopy> = Vec::new();
        commands.push(BufferCopy { src_offset: 0, dst_offset: 0, size });
        assert(commands@ =~= seq![data_copy(size)]);
        let steps = list_upload(ctx, bytes, target, &commands);
        let ghost list = steps;
        let buffer: u64 = upload(steps);
        assert(upload.ensures((list,), buffer));
        Buffer { buffer, size, address: None }
    }
}

/// What a buffer holds after a copy from another one.
pub open spec fn copied(copy: BufferCopy, src: Seq<u8>, dst: Seq<u8>) -> Seq<u8> {
    Seq::new(
        dst.len(),
        |i: int|
            if copy.dst_offset <= i < copy.dst_offset + copy.size {
                src[copy.src_offset + i - copy.dst_offset]
            } else {
                dst[i]
            },
    )
}

/// Bringing bytes into a device buffer runs a single copy, from a staging buffer that holds the
/// bytes, and the buffer then holds the bytes, whatever was in it before. The staging buffer is
/// handed back once, after the copy.
pub proof fn law_buffer_holds_data(usage: u32, bytes: Vec<u8>, before: Seq<u8>)
    requires
        bytes@.len() <= u64::MAX,
        before.len() == bytes@.len(),
    ensures
        upload_run(buffer_upload(usage, bytes), upload_start()) == Some(
            UploadState {
                staging: Staging::Destroyed,
                target: Some(data_buffer(usage, bytes@.len() as u64)),
                recording: None,
                recorded: None,
                running: Seq::empty(),
                done: seq![(data_copy(bytes@.len() as u64), bytes@)],
            },
        ),
        copied(data_copy(bytes@.len() as u64), bytes@, before) == bytes@,
{
    let copy = data_copy(bytes@.len() as u64);
    law_upload_is_in_order(bytes, data_buffer(usage, bytes@.len() as u64), seq![copy]);
    assert(seq![copy].map_values(|c: BufferCopy| (c, bytes@)) =~= seq![(copy, bytes@)]);
    assert(copied(copy, bytes@, before) =~= bytes@);
}


/// A buffer for data is as large as the data, can be copied into besides what it was asked for, and
/// nothing else, and lives where the device reads it best. The copy into it covers all of it.
pub proof fn law_data_buffer_fits_data(usage: u32, byte_count: u64)
    ensures
        data_buffer(usage, byte_count).info.size == byte_count,
        data_buffer(usage, byte_count).info.usage == usage | vk::BUFFER_USAGE_TRANSFER_DST,
        data_buffer(usage, byte_count).allocation.flags == 0,
        data_buffer(usage, byte_count).allocation.usage == MemoryUsage::AutoPreferDevice,
        data_copy(byte_count).src_offset == 0,
        data_copy(byte_count).dst_offset == 0,
        data_copy(byte_count).size == byte_count,
{
}

/// The buffers of frames are all created alike, one for each frame, and each has the handle that
/// answers its request.
pub proof fn law_frame_buffers_are_alike(
    creation: BufferCreation,
    count: u32,
    buffers: Seq<Buffer>,
    i: int,
)
    requires
        0 <= i < count,
        buffers.len() == count,
    ensures
        buffer_requests(creation, count).len() == count,
        buffer_requests(creation, count)[i] == Request::Buffer(creation),
        buffer_handles(buffers).len() == count,
        buffer_handles(buffers)[i] == buffers[i].buffer,
{
}

/// Handing a buffer back hands back that buffer and nothing else.
pub proof fn law_destruction_covers_buffer(buffer: Buffer)
    ensures
        buffer.destruction().len() == 1,
        buffer.destruction()[0] == DestroyStep::Buffer(buffer.buffer),
{
}

} // verus!
