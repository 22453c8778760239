use vulkano::buffer::cpu_access::{CpuAccessibleBuffer, ReadLockError, WriteLockError};
use vulkano::buffer::sys::UnsafeBuffer;
use vulkano::buffer::{BufferAccess, BufferUsage};
use vulkano::command_buffer::{CommandBuffer, CommandBufferUsage};
use vulkano::device::{
    Device, DeviceExtensions, Features, FormatSupport, MemoryPropertyFlags, MemoryType,
    PhysicalDevice, Properties, Queue,
};
use vulkano::format::{Format, FormatFeatures, FormatProperties};
use vulkano::image::storage::StorageImage;
use vulkano::image::sys::UnsafeImage;
use vulkano::image::{ImageAccess, ImageDimensions};
use vulkano::memory::pool::{PotentialDedicatedAllocation, StandardMemoryPoolAlloc};
use vulkano::memory::{DeviceMemory, MemoryAllocateFlags};
use vulkano::swapchain::{present, SwapchainAcquireFuture, SwapchainPresentInfo};
use vulkano::sync::future::now::now;
use vulkano::sync::future::{
    AccessCheckError, AccessError, BuildStep, FlushError, FlushStep, GpuFuture, GpuFutureExt,
    SubmitAnyBuilder, Submission,
};
use vulkano::sync::tracker::AccessTracker;
use vulkano::sync::{CurrentAccess, Semaphore};
use vulkano::{Version, VulkanError};

type HostBuffer = CpuAccessibleBuffer<PotentialDedicatedAllocation<StandardMemoryPoolAlloc>>;

fn image_features() -> FormatFeatures {
    FormatFeatures {
        sampled_image: true,
        storage_image: true,
        color_attachment: true,
        color_attachment_blend: true,
        transfer_src: true,
        transfer_dst: true,
        blit_src: true,
        blit_dst: true,
        sampled_image_filter_linear: true,
        ..FormatFeatures::empty()
    }
}

fn gfx_dev_and_queue() -> (Device, Queue) {
    let device = Device {
        handle: 1,
        api_version: Version::major_minor(1, 1),
        enabled_extensions: DeviceExtensions::empty(),
        enabled_features: Features::empty(),
        physical_device: PhysicalDevice {
            properties: Properties {
                max_buffer_size: None,
                min_texel_buffer_offset_alignment: 16,
                min_storage_buffer_offset_alignment: 16,
                min_uniform_buffer_offset_alignment: 64,
                max_texel_buffer_elements: 1 << 27,
                storage_texel_buffer_offset_alignment_bytes: None,
                storage_texel_buffer_offset_single_texel_alignment: None,
                uniform_texel_buffer_offset_alignment_bytes: None,
                uniform_texel_buffer_offset_single_texel_alignment: None,
                max_multiview_view_count: None,
                max_color_attachments: 8,
            },
            memory_types: vec![MemoryType {
                property_flags: MemoryPropertyFlags {
                    device_local: true,
                    ..MemoryPropertyFlags::empty()
                },
                heap_index: 0,
            }],
            queue_family_count: 1,
            supported_extensions: DeviceExtensions::empty(),
            format_support: vec![
                FormatSupport {
                    format: Format::R8G8B8A8_UNORM,
                    properties: FormatProperties {
                        linear_tiling_features: image_features(),
                        optimal_tiling_features: image_features(),
                        buffer_features: FormatFeatures::empty(),
                    },
                },
                FormatSupport {
                    format: Format::D16_UNORM,
                    properties: FormatProperties {
                        linear_tiling_features: FormatFeatures::empty(),
                        optimal_tiling_features: FormatFeatures {
                            sampled_image: true,
                            storage_image: true,
                            depth_stencil_attachment: true,
                            transfer_src: true,
                            transfer_dst: true,
                            ..FormatFeatures::empty()
                        },
                        buffer_features: FormatFeatures::empty(),
                    },
                },
            ],
        },
    };
    let queue = Queue {
        device: 1,
        queue_family_index: 0,
        id_within_family: 0,
    };
    (device, queue)
}


fn swapchain_image(key: u64) -> UnsafeImage {
    let (device, queue) = gfx_dev_and_queue();
    let mut image = StorageImage::new(
        &device,
        ImageDimensions::Dim2d {
            width: 32,
            height: 32,
            array_layers: 1,
        },
        Format::R8G8B8A8_UNORM,
        vec![queue.queue_family_index],
    )
    .unwrap();
    let memory = DeviceMemory {
        handle: 9,
        allocation_size: 4096,
        memory_type_index: 0,
        flags: MemoryAllocateFlags {
            device_address: false,
        },
    };
    image.bound(key, 100 + key, PotentialDedicatedAllocation::Dedicated(memory));
    image.inner().image
}

fn host_buffer(tracker: &mut AccessTracker, size: u64) -> HostBuffer {
    let (device, _) = gfx_dev_and_queue();
    let usage = BufferUsage {
        transfer_src: true,
        ..BufferUsage::empty()
    };
    let info = HostBuffer::uninitialized_array(&device, size, 1, usage, false).unwrap();
    let key = tracker.add_buffer(size).unwrap();
    let inner = UnsafeBuffer::from_handle(&device, 5, info, key);
    let memory = DeviceMemory {
        handle: 9,
        allocation_size: size,
        memory_type_index: 0,
        flags: MemoryAllocateFlags {
            device_address: false,
        },
    };
    HostBuffer::from_parts(inner, PotentialDedicatedAllocation::Dedicated(memory), vec![])
}

#[test]
fn host_reads_share_the_buffer() {
    let mut tracker = AccessTracker::new();
    let buffer = host_buffer(&mut tracker, 64);
    let key = buffer.inner().buffer.key();
    let first = buffer.read(&mut tracker).unwrap();
    let second = buffer.read(&mut tracker).unwrap();
    assert_eq!((first.buffer, first.start, first.end), (key, 0, 64));
    assert_eq!(
        tracker.buffer(key).unwrap().current_access(0),
        Some(CurrentAccess::Shared {
            cpu_reads: 2,
            gpu_reads: 0
        })
    );
    assert!(matches!(
        buffer.write(&mut tracker),
        Err(WriteLockError::CpuLocked)
    ));
    first.unlock(&mut tracker);
    assert!(matches!(
        buffer.write(&mut tracker),
        Err(WriteLockError::CpuLocked)
    ));
    second.unlock(&mut tracker);
    assert_eq!(
        tracker.buffer(key).unwrap().current_access(63),
        Some(CurrentAccess::Shared {
            cpu_reads: 0,
            gpu_reads: 0
        })
    );
    assert!(buffer.write(&mut tracker).is_ok());
}

#[test]
fn host_write_has_the_buffer_alone() {
    let mut tracker = AccessTracker::new();
    let buffer = host_buffer(&mut tracker, 64);
    let key = buffer.inner().buffer.key();
    let lock = buffer.write(&mut tracker).unwrap();
    assert_eq!(
        tracker.buffer(key).unwrap().current_access(10),
        Some(CurrentAccess::CpuExclusive)
    );
    assert!(matches!(
        buffer.read(&mut tracker),
        Err(ReadLockError::CpuWriteLocked)
    ));
    assert!(matches!(
        buffer.write(&mut tracker),
        Err(WriteLockError::CpuLocked)
    ));
    lock.unlock(&mut tracker);
    assert!(buffer.read(&mut tracker).is_ok());
}

#[test]
fn host_cannot_touch_what_the_device_writes() {
    let mut tracker = AccessTracker::new();
    let buffer = host_buffer(&mut tracker, 64);
    let key = buffer.inner().buffer.key();
    tracker.buffer(key).unwrap();
    let commands = CommandBuffer {
        key: 1,
        device: 1,
        usage: CommandBufferUsage::MultipleSubmit,
        in_use: false,
        buffers: vec![vulkano::sync::tracker::BufferUse {
            buffer: buffer.inner().buffer,
            start: 0,
            end: 16,
            exclusive: true,
            stages: vulkano::sync::PipelineStages::empty(),
            access: vulkano::sync::AccessFlags::empty(),
        }],
        images: vec![],
    };
    let queue = Queue {
        device: 1,
        queue_family_index: 0,
        id_within_family: 0,
    };
    let mut future = now(1).then_execute(queue, commands, &mut tracker).unwrap();
    assert!(matches!(
        buffer.read(&mut tracker),
        Err(ReadLockError::GpuWriteLocked)
    ));
    assert!(matches!(
        buffer.write(&mut tracker),
        Err(WriteLockError::GpuLocked)
    ));
    assert!(matches!(future.flush(), FlushStep::Submit(_)));
    future.submitted(Ok(()));
    assert!(matches!(future.flush(), FlushStep::Done(Ok(()))));
    future.signal_finished(&mut tracker);
    assert!(buffer.write(&mut tracker).is_ok());
}

#[test]
fn acquired_image_is_presented_after_its_semaphore() {
    let image = swapchain_image(0);
    let semaphore = Semaphore { handle: 4 };
    let acquire = SwapchainAcquireFuture::new(1, 12, 2, image.key, true, Some(semaphore));
    assert_eq!(acquire.image_index(), 2);
    assert_eq!(acquire.device(), 1);
    assert_eq!(acquire.queue(), None);
    assert!(acquire.queue_change_allowed());
    assert_eq!(acquire.check_swapchain_image_acquired(&image, false), Ok(()));
    assert_eq!(acquire.check_swapchain_image_acquired(&image, true), Ok(()));
    let other = swapchain_image(1);
    assert_eq!(
        acquire.check_swapchain_image_acquired(&other, false),
        Err(AccessCheckError::Unknown)
    );

    let queue = Queue {
        device: 1,
        queue_family_index: 0,
        id_within_family: 0,
    };
    let info = SwapchainPresentInfo {
        swapchain: 12,
        image_index: 2,
        image,
    };
    let mut future = acquire.then_swapchain_present(queue, info);
    assert_eq!(future.image_id(), 2);
    assert_eq!(future.queue(), Some(queue));
    match future.flush() {
        FlushStep::Submit(Submission::Present { queue: on, present }) => {
            assert_eq!(on, queue);
            assert_eq!(present.wait_semaphores, vec![semaphore]);
            assert_eq!(present.swapchain_infos, vec![info]);
        }
        _ => panic!(),
    }
    future.submitted(Ok(()));
    for _ in 0..2 {
        assert!(matches!(future.flush(), FlushStep::Done(Ok(()))));
    }
    assert!(matches!(
        future.build_submission(),
        BuildStep::Ready(Ok(SubmitAnyBuilder::Empty))
    ));
}

#[test]
fn image_that_was_not_acquired_is_not_presented() {
    let image = swapchain_image(0);
    let queue = Queue {
        device: 1,
        queue_family_index: 0,
        id_within_family: 0,
    };
    let info = SwapchainPresentInfo {
        swapchain: 12,
        image_index: 0,
        image,
    };
    let mut future = present(now(1), queue, info);
    for _ in 0..2 {
        assert!(matches!(
            future.flush(),
            FlushStep::Done(Err(FlushError::AccessError(
                AccessError::SwapchainImageNotAcquired
            )))
        ));
    }
}

#[test]
fn present_that_is_out_of_date_says_so() {
    let image = swapchain_image(0);
    let acquire = SwapchainAcquireFuture::new(1, 12, 0, image.key, false, None);
    let queue = Queue {
        device: 1,
        queue_family_index: 0,
        id_within_family: 0,
    };
    let info = SwapchainPresentInfo {
        swapchain: 12,
        image_index: 0,
        image,
    };
    let mut future = present(acquire, queue, info);
    assert!(matches!(
        future.flush(),
        FlushStep::Submit(Submission::Present { .. })
    ));
    future.submitted(Err(VulkanError::OutOfDate));
    let result = match future.flush() {
        FlushStep::Done(result) => result,
        FlushStep::Submit(_) => panic!(),
    };
    assert_eq!(result, Err(FlushError::OutOfDate));
    assert!(result.unwrap_err().needs_new_swapchain());
}
