use std::cell::{Cell, RefCell};
use vkdemo::renderer::Renderer;
use vkdemo::utils::buffer::{Buffer, BufferCreation};
use vkdemo::utils::context::{DestroyStep, SetupStep, VkCtx, VkDrop};
use vkdemo::utils::requests::Request;
use vkdemo::utils::upload::UploadStep;
use vkdemo::vk;
use vkdemo::vk::{AllocationCreateInfo, BufferCopy, BufferCreateInfo, MemoryUsage};

#[test]
fn buffer_is_created_as_asked() {
    let buffer = Buffer::new(
        |info, memory| {
            assert_eq!((info.size, info.usage), (868, 0x20020));
            assert_eq!((memory.flags, memory.usage), (5, MemoryUsage::Auto));
            42
        },
        868,
        vk::BUFFER_USAGE_SHADER_DEVICE_ADDRESS | vk::BUFFER_USAGE_STORAGE_BUFFER,
        MemoryUsage::Auto,
        5,
    );
    assert_eq!(buffer, Buffer { buffer: 42, size: 868, address: None });
    assert_eq!(buffer.flush(), (0, 868));
    assert_eq!(buffer.destroy(), vec![DestroyStep::Buffer(42)]);
}

#[test]
fn writing_fills_mapped_memory() {
    let buffer = Buffer { buffer: 1, size: 8, address: None };
    let mut memory = [9u8; 3];
    buffer.write(&mut memory, &[1, 2, 3]);
    assert_eq!(memory, [1, 2, 3]);
    buffer.write(&mut [], &[]);
}

#[test]
fn address_is_asked_for_once() {
    let asked = Cell::new(0);
    let mut buffer = Buffer { buffer: 7, size: 8, address: None };
    for _ in 0..3 {
        let address = buffer.address(|handle| {
            asked.set(asked.get() + 1);
            handle + 1000
        });
        assert_eq!(address, 1007);
    }
    assert_eq!(asked.get(), 1);
    assert_eq!(buffer.address, Some(1007));
}

fn context() -> VkCtx {
    VkCtx::new(0, 1, |_| vec![1], |_| vec![2, 3], |_| vec![4])
}

#[test]
fn every_frame_has_its_own_buffer() {
    let creation = Renderer::plan().frame_buffer;
    let buffers = Buffer::for_frames(
        |requests| {
            assert_eq!(requests, vec![Request::Buffer(creation); 2]);
            vec![50, 51]
        },
        creation,
        2,
    );
    assert_eq!(
        buffers,
        vec![
            Buffer { buffer: 50, size: 868, address: None },
            Buffer { buffer: 51, size: 868, address: None },
        ]
    );
}

#[test]
fn data_goes_through_a_staging_buffer() {
    let usage = vk::BUFFER_USAGE_VERTEX_BUFFER;
    let seen = RefCell::new(Vec::new());
    let buffer = Buffer::from_data(
        &context(),
        |steps| {
            *seen.borrow_mut() = steps;
            77
        },
        usage,
        vec![7; 120],
    );
    assert_eq!(buffer, Buffer { buffer: 77, size: 120, address: None });
    assert_eq!(
        seen.into_inner(),
        vec![
            UploadStep::CreateStaging(BufferCreation {
                info: BufferCreateInfo {
                    size: 120,
                    usage: ash::vk::BufferUsageFlags::TRANSFER_SRC.as_raw(),
                },
                allocation: AllocationCreateInfo {
                    flags: vk::ALLOCATION_HOST_ACCESS_SEQUENTIAL_WRITE | vk::ALLOCATION_MAPPED,
                    usage: MemoryUsage::Auto,
                },
            }),
            UploadStep::WriteStaging(vec![7; 120]),
            UploadStep::CreateTarget(BufferCreation {
                info: BufferCreateInfo {
                    size: 120,
                    usage: (ash::vk::BufferUsageFlags::VERTEX_BUFFER
                        | ash::vk::BufferUsageFlags::TRANSFER_DST)
                        .as_raw(),
                },
                allocation: AllocationCreateInfo {
                    flags: 0,
                    usage: MemoryUsage::AutoPreferDevice,
                },
            }),
            UploadStep::Setup(SetupStep::Begin(vk::COMMAND_BUFFER_ONE_TIME_SUBMIT)),
            UploadStep::Setup(SetupStep::Record(BufferCopy {
                src_offset: 0,
                dst_offset: 0,
                size: 120,
            })),
            UploadStep::Setup(SetupStep::End),
            UploadStep::Setup(SetupStep::Submit),
            UploadStep::Setup(SetupStep::WaitIdle),
            UploadStep::DestroyStaging,
        ]
    );
}
