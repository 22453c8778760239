use vulkano::buffer::device_local::DeviceLocalBuffer;
use vulkano::buffer::sys::UnsafeBuffer;
use vulkano::buffer::view::{
    BufferView, BufferViewAbstract, BufferViewCreateInfo, BufferViewCreationError,
};
use vulkano::buffer::{BufferAccess, BufferUsage};
use vulkano::device::{
    Device, DeviceExtensions, Features, FormatSupport, MemoryPropertyFlags, MemoryType,
    PhysicalDevice, Properties, Queue,
};
use vulkano::format::{Format, FormatFeatures, FormatProperties};
use vulkano::memory::pool::{PotentialDedicatedAllocation, StandardMemoryPoolAlloc};
use vulkano::memory::{DeviceMemory, MemoryAllocateFlags};
use vulkano::Version;

type Local = DeviceLocalBuffer<PotentialDedicatedAllocation<StandardMemoryPoolAlloc>>;

fn texel_features() -> FormatFeatures {
    FormatFeatures {
        uniform_texel_buffer: true,
        storage_texel_buffer: true,
        ..FormatFeatures::empty()
    }
}

fn device_with(enabled_features: Features) -> Device {
    Device {
        handle: 1,
        api_version: Version::major_minor(1, 0),
        enabled_extensions: DeviceExtensions::empty(),
        enabled_features,
        physical_device: PhysicalDevice {
            properties: Properties {
                max_buffer_size: Some(1 << 30),
                min_texel_buffer_offset_alignment: 16,
                min_storage_buffer_offset_alignment: 32,
                min_uniform_buffer_offset_alignment: 64,
                max_texel_buffer_elements: 1 << 16,
                storage_texel_buffer_offset_alignment_bytes: None,
                storage_texel_buffer_offset_single_texel_alignment: None,
                uniform_texel_buffer_offset_alignment_bytes: None,
                uniform_texel_buffer_offset_single_texel_alignment: None,
                max_multiview_view_count: None,
                max_color_attachments: 8,
            },
            memory_types: vec![
                MemoryType {
                    property_flags: MemoryPropertyFlags {
                        device_local: true,
                        ..MemoryPropertyFlags::empty()
                    },
                    heap_index: 0,
                },
                MemoryType {
                    property_flags: MemoryPropertyFlags {
                        host_visible: true,
                        host_coherent: true,
                        ..MemoryPropertyFlags::empty()
                    },
                    heap_index: 1,
                },
            ],
            queue_family_count: 2,
            supported_extensions: DeviceExtensions::empty(),
            format_support: vec![
                FormatSupport {
                    format: Format::R8G8B8A8_UNORM,
                    properties: FormatProperties {
                        linear_tiling_features: FormatFeatures::empty(),
                        optimal_tiling_features: FormatFeatures::empty(),
                        buffer_features: texel_features(),
                    },
                },
                FormatSupport {
                    format: Format::R32_UINT,
                    properties: FormatProperties {
                        linear_tiling_features: FormatFeatures::empty(),
                        optimal_tiling_features: FormatFeatures::empty(),
                        buffer_features: FormatFeatures {
                            storage_texel_buffer_atomic: true,
                            ..texel_features()
                        },
                    },
                },
            ],
        },
    }
}

fn gfx_dev_and_queue() -> (Device, Queue) {
    (device_with(Features::empty()), Queue { device: 1, queue_family_index: 0, id_within_family: 0 })
}

fn local_array(
    device: &Device,
    len: u64,
    element_size: u64,
    usage: BufferUsage,
    queue_family_index: u32,
) -> Local {
    let families = vec![queue_family_index];
    let info = Local::array(device, len, element_size, usage, &families).unwrap();
    let size = info.size;
    let inner = UnsafeBuffer::from_handle(device, 5, info, 0);
    let memory = DeviceMemory {
        handle: 9,
        allocation_size: size,
        memory_type_index: 0,
        flags: MemoryAllocateFlags {
            device_address: false,
        },
    };
    Local::from_parts(inner, PotentialDedicatedAllocation::Dedicated(memory), families)
}

#[test]
fn create_uniform() {
    let (device, queue) = gfx_dev_and_queue();

    let usage = BufferUsage {
        uniform_texel_buffer: true,
        ..BufferUsage::empty()
    };

    let buffer = local_array(&device, 128, 4, usage, queue.queue_family_index);
    BufferView::new(
        &device,
        buffer,
        BufferViewCreateInfo {
            format: Some(Format::R8G8B8A8_UNORM),
            ..Default::default()
        },
    )
    .unwrap();
}

#[test]
fn create_storage() {
    let (device, queue) = gfx_dev_and_queue();

    let usage = BufferUsage {
        storage_texel_buffer: true,
        ..BufferUsage::empty()
    };

    let buffer = local_array(&device, 128, 4, usage, queue.queue_family_index);
    BufferView::new(
        &device,
        buffer,
        BufferViewCreateInfo {
            format: Some(Format::R8G8B8A8_UNORM),
            ..Default::default()
        },
    )
    .unwrap();
}

#[test]
fn create_storage_atomic() {
    let (device, queue) = gfx_dev_and_queue();

    let usage = BufferUsage {
        storage_texel_buffer: true,
        ..BufferUsage::empty()
    };

    let buffer = local_array(&device, 128, 4, usage, queue.queue_family_index);
    BufferView::new(
        &device,
        buffer,
        BufferViewCreateInfo {
            format: Some(Format::R32_UINT),
            ..Default::default()
        },
    )
    .unwrap();
}

#[test]
fn wrong_usage() {
    let (device, queue) = gfx_dev_and_queue();

    let buffer = local_array(
        &device,
        128,
        4,
        BufferUsage {
            transfer_dst: true,
            ..BufferUsage::empty()
        },
        queue.queue_family_index,
    );

    match BufferView::new(
        &device,
        buffer,
        BufferViewCreateInfo {
            format: Some(Format::R8G8B8A8_UNORM),
            ..Default::default()
        },
    ) {
        Err(BufferViewCreationError::BufferMissingUsage) => (),
        _ => panic!(),
    }
}

#[test]
fn unsupported_format() {
    let (device, queue) = gfx_dev_and_queue();

    let usage = BufferUsage {
        uniform_texel_buffer: true,
        storage_texel_buffer: true,
        ..BufferUsage::empty()
    };

    let buffer = local_array(&device, 128, 32, usage, queue.queue_family_index);

    match BufferView::new(
        &device,
        buffer,
        BufferViewCreateInfo {
            format: Some(Format::R64G64B64A64_SFLOAT),
            ..Default::default()
        },
    ) {
        Err(BufferViewCreationError::UnsupportedFormat) => (),
        _ => panic!(),
    }
}

#[test]
fn view_shows_the_whole_buffer() {
    let (device, queue) = gfx_dev_and_queue();
    let usage = BufferUsage {
        uniform_texel_buffer: true,
        ..BufferUsage::empty()
    };
    let buffer = local_array(&device, 128, 4, usage, queue.queue_family_index);
    let mut view = BufferView::new(
        &device,
        buffer,
        BufferViewCreateInfo {
            format: Some(Format::R8G8B8A8_UNORM),
        },
    )
    .unwrap();
    assert_eq!(view.range(), 0..512);
    assert_eq!(view.format(), Some(Format::R8G8B8A8_UNORM));
    assert_eq!(view.format_features(), &texel_features());
    assert_eq!(view.internal_object(), None);
    assert_eq!(view.buffer().size(), 512);
    assert_eq!(view.inner_buffer().offset, 0);
    view.created(41);
    assert_eq!(view.internal_object(), Some(41));
    assert_eq!(view.range(), 0..512);
}

#[test]
fn view_of_a_size_that_is_no_multiple_of_the_block_is_refused() {
    let (device, queue) = gfx_dev_and_queue();
    let usage = BufferUsage {
        storage_texel_buffer: true,
        ..BufferUsage::empty()
    };
    let buffer = local_array(&device, 126, 1, usage, queue.queue_family_index);
    match BufferView::new(
        &device,
        buffer,
        BufferViewCreateInfo {
            format: Some(Format::R8G8B8A8_UNORM),
        },
    ) {
        Err(BufferViewCreationError::RangeNotAligned {
            range,
            required_alignment,
        }) => {
            assert_eq!(range, 126);
            assert_eq!(required_alignment, 4);
        }
        _ => panic!(),
    }
}

#[test]
fn view_of_too_many_texels_is_refused() {
    let (device, queue) = gfx_dev_and_queue();
    let usage = BufferUsage {
        storage_texel_buffer: true,
        ..BufferUsage::empty()
    };
    let at_limit = local_array(&device, 1 << 16, 4, usage, queue.queue_family_index);
    assert!(BufferView::new(
        &device,
        at_limit,
        BufferViewCreateInfo {
            format: Some(Format::R8G8B8A8_UNORM),
        },
    )
    .is_ok());
    let over = local_array(&device, (1 << 16) + 1, 4, usage, queue.queue_family_index);
    match BufferView::new(
        &device,
        over,
        BufferViewCreateInfo {
            format: Some(Format::R8G8B8A8_UNORM),
        },
    ) {
        Err(BufferViewCreationError::MaxTexelBufferElementsExceeded) => (),
        _ => panic!(),
    }
}

#[test]
fn buffer_view_errors_have_words() {
    assert_eq!(
        BufferViewCreationError::BufferMissingUsage.to_string(),
        "the buffer was not created with one of the `storage_texel_buffer` or `uniform_texel_buffer` usages"
    );
    assert_eq!(
        BufferViewCreationError::UnsupportedFormat.to_string(),
        "the requested format is not supported for this usage"
    );
    assert_eq!(
        BufferViewCreationError::OffsetNotAligned {
            offset: 3,
            required_alignment: 16
        }
        .to_string(),
        "the offset within the buffer is not a multiple of the required alignment"
    );
}
