use vulkano::buffer::cpu_access::CpuAccessibleBuffer;
use vulkano::buffer::device_local::DeviceLocalBuffer;
use vulkano::buffer::sys::{
    align, BufferCreationError, SparseLevel, UnsafeBuffer, UnsafeBufferCreateInfo,
};
use vulkano::buffer::BufferUsage;
use vulkano::device::{
    Device, DeviceExtensions, Features, FormatSupport, MemoryPropertyFlags, MemoryType,
    PhysicalDevice, Properties, Queue,
};
use vulkano::format::{Format, FormatFeatures, FormatProperties};
use vulkano::memory::pool::{
    MemoryAllocateInfo, PotentialDedicatedAllocation, StandardMemoryPoolAlloc,
};
use vulkano::memory::{
    DedicatedAllocation, DeviceMemory, ExternalMemoryHandleTypes, MemoryAllocateFlags,
    MemoryRequirements,
};
use vulkano::sync::{QueueFamilyIndices, Sharing};
use vulkano::{OomError, RequiresOneOf, Version, VulkanError};

type Local = DeviceLocalBuffer<PotentialDedicatedAllocation<StandardMemoryPoolAlloc>>;
type Host = CpuAccessibleBuffer<PotentialDedicatedAllocation<StandardMemoryPoolAlloc>>;

fn texel_features() -> FormatFeatures {
    FormatFeatures {
        uniform_texel_buffer: true,
        storage_texel_buffer: true,
        ..FormatFeatures::empty()
    }
}

fn device_with(enabled_features: Features) -> Device {
    Device {
        handle: 1,
        api_version: Version::major_minor(1, 0),
        enabled_extensions: DeviceExtensions::empty(),
        enabled_features,
        physical_device: PhysicalDevice {
            properties: Properties {
                max_buffer_size: Some(1 << 30),
                min_texel_buffer_offset_alignment: 16,
                min_storage_buffer_offset_alignment: 32,
                min_uniform_buffer_offset_alignment: 64,
                max_texel_buffer_elements: 1 << 16,
                storage_texel_buffer_offset_alignment_bytes: None,
                storage_texel_buffer_offset_single_texel_alignment: None,
                uniform_texel_buffer_offset_alignment_bytes: None,
                uniform_texel_buffer_offset_single_texel_alignment: None,
                max_multiview_view_count: None,
                max_color_attachments: 8,
            },
            memory_types: vec![
                MemoryType {
                    property_flags: MemoryPropertyFlags {
                        device_local: true,
                        ..MemoryPropertyFlags::empty()
                    },
                    heap_index: 0,
                },
                MemoryType {
                    property_flags: MemoryPropertyFlags {
                        host_visible: true,
                        host_coherent: true,
                        ..MemoryPropertyFlags::empty()
                    },
                    heap_index: 1,
                },
            ],
            queue_family_count: 2,
            supported_extensions: DeviceExtensions::empty(),
            format_support: vec![
                FormatSupport {
                    format: Format::R8G8B8A8_UNORM,
                    properties: FormatProperties {
                        linear_tiling_features: FormatFeatures::empty(),
                        optimal_tiling_features: FormatFeatures::empty(),
                        buffer_features: texel_features(),
                    },
                },
                FormatSupport {
                    format: Format::R32_UINT,
                    properties: FormatProperties {
                        linear_tiling_features: FormatFeatures::empty(),
                        optimal_tiling_features: FormatFeatures::empty(),
                        buffer_features: FormatFeatures {
                            storage_texel_buffer_atomic: true,
                            ..texel_features()
                        },
                    },
                },
            ],
        },
    }
}

fn gfx_dev_and_queue() -> (Device, Queue) {
    (device_with(Features::empty()), Queue { device: 1, queue_family_index: 0, id_within_family: 0 })
}

fn transfer_dst() -> BufferUsage {
    BufferUsage {
        transfer_dst: true,
        ..BufferUsage::empty()
    }
}

#[test]
fn sys_create() {
    let (device, _) = gfx_dev_and_queue();
    let info = UnsafeBuffer::new(
        &device,
        UnsafeBufferCreateInfo {
            size: 128,
            usage: transfer_dst(),
            ..Default::default()
        },
    )
    .unwrap();
    let buf = UnsafeBuffer::from_handle(&device, 77, info, 0);
    let reqs = buf.memory_requirements(
        &device,
        MemoryRequirements {
            size: 128,
            alignment: 4,
            memory_type_bits: 3,
            prefer_dedicated: false,
        },
        None,
    );

    assert!(reqs.size >= 128);
    assert_eq!(buf.size(), 128);
    assert_eq!(buf.device(), device.handle);
}

#[test]
fn missing_feature_sparse_binding() {
    let (device, _) = gfx_dev_and_queue();
    match UnsafeBuffer::new(
        &device,
        UnsafeBufferCreateInfo {
            size: 128,
            sparse: Some(SparseLevel::empty()),
            usage: transfer_dst(),
            ..Default::default()
        },
    ) {
        Err(BufferCreationError::RequirementNotMet {
            requires_one_of: RequiresOneOf { features, .. },
            ..
        }) if features.contains(&"sparse_binding") => (),
        _ => panic!(),
    }
}

#[test]
fn missing_feature_sparse_residency() {
    let device = device_with(Features {
        sparse_binding: true,
        ..Features::empty()
    });
    match UnsafeBuffer::new(
        &device,
        UnsafeBufferCreateInfo {
            size: 128,
            sparse: Some(SparseLevel {
                sparse_residency: true,
                sparse_aliased: false,
            }),
            usage: transfer_dst(),
            ..Default::default()
        },
    ) {
        Err(BufferCreationError::RequirementNotMet {
            requires_one_of: RequiresOneOf { features, .. },
            ..
        }) if features.contains(&"sparse_residency_buffer") => (),
        _ => panic!(),
    }
}

#[test]
fn missing_feature_sparse_aliased() {
    let device = device_with(Features {
        sparse_binding: true,
        ..Features::empty()
    });
    match UnsafeBuffer::new(
        &device,
        UnsafeBufferCreateInfo {
            size: 128,
            sparse: Some(SparseLevel {
                sparse_residency: false,
                sparse_aliased: true,
            }),
            usage: transfer_dst(),
            ..Default::default()
        },
    ) {
        Err(BufferCreationError::RequirementNotMet {
            requires_one_of: RequiresOneOf { features, .. },
            ..
        }) if features.contains(&"sparse_residency_aliased") => (),
        _ => panic!(),
    }
}

#[test]
fn sparse_buffer_with_all_features_is_accepted() {
    let device = device_with(Features {
        sparse_binding: true,
        sparse_residency_buffer: true,
        sparse_residency_aliased: true,
        ..Features::empty()
    });
    let info = UnsafeBuffer::new(
        &device,
        UnsafeBufferCreateInfo {
            size: 128,
            sparse: Some(SparseLevel {
                sparse_residency: true,
                sparse_aliased: true,
            }),
            usage: transfer_dst(),
            ..Default::default()
        },
    )
    .unwrap();
    assert_eq!(info.size, 128);
    assert_eq!(info.usage, transfer_dst());
}

#[test]
fn shared_queue_families_are_sorted_and_kept_once() {
    let (device, _) = gfx_dev_and_queue();
    let info = UnsafeBuffer::new(
        &device,
        UnsafeBufferCreateInfo {
            size: 16,
            usage: transfer_dst(),
            sharing: Sharing::Concurrent(QueueFamilyIndices::from_vec(&vec![1, 0, 1, 0])),
            ..Default::default()
        },
    )
    .unwrap();
    match info.sharing {
        Sharing::Concurrent(indices) => assert_eq!(indices.to_vec(), vec![0, 1]),
        Sharing::Exclusive => panic!(),
    }
}

#[test]
fn unknown_queue_family_is_refused() {
    let (device, _) = gfx_dev_and_queue();
    match UnsafeBuffer::new(
        &device,
        UnsafeBufferCreateInfo {
            size: 16,
            usage: transfer_dst(),
            sharing: Sharing::Concurrent(QueueFamilyIndices::from_vec(&vec![5, 0, 7])),
            ..Default::default()
        },
    ) {
        Err(BufferCreationError::SharingQueueFamilyIndexOutOfRange {
            queue_family_index,
            queue_family_count,
        }) => {
            assert_eq!(queue_family_index, 5);
            assert_eq!(queue_family_count, 2);
        }
        _ => panic!(),
    }
}

#[test]
fn buffer_over_the_largest_size_is_refused() {
    let (device, _) = gfx_dev_and_queue();
    match UnsafeBuffer::new(
        &device,
        UnsafeBufferCreateInfo {
            size: (1 << 30) + 1,
            usage: transfer_dst(),
            ..Default::default()
        },
    ) {
        Err(BufferCreationError::MaxBufferSizeExceeded { size, max }) => {
            assert_eq!(size, (1 << 30) + 1);
            assert_eq!(max, 1 << 30);
        }
        _ => panic!(),
    }
    assert!(UnsafeBuffer::new(
        &device,
        UnsafeBufferCreateInfo {
            size: 1 << 30,
            usage: transfer_dst(),
            ..Default::default()
        },
    )
    .is_ok());
}

#[test]
fn external_memory_needs_the_version_or_the_extension() {
    let (device, _) = gfx_dev_and_queue();
    match UnsafeBuffer::new(
        &device,
        UnsafeBufferCreateInfo {
            size: 16,
            usage: transfer_dst(),
            external_memory_handle_types: ExternalMemoryHandleTypes {
                opaque_fd: true,
                ..ExternalMemoryHandleTypes::empty()
            },
            ..Default::default()
        },
    ) {
        Err(BufferCreationError::RequirementNotMet {
            requires_one_of:
                RequiresOneOf {
                    api_version,
                    device_extensions,
                    ..
                },
            ..
        }) => {
            assert_eq!(api_version, Some(Version::major_minor(1, 1)));
            assert!(device_extensions.contains(&"khr_external_memory"));
        }
        _ => panic!(),
    }
}

#[test]
fn align_rounds_up_to_a_multiple() {
    assert_eq!(align(0, 16), 0);
    assert_eq!(align(1, 16), 16);
    assert_eq!(align(16, 16), 16);
    assert_eq!(align(17, 16), 32);
    assert_eq!(align(100, 64), 128);
    assert_eq!(align(7, 1), 7);
}

#[test]
fn memory_requirements_take_the_alignment_of_the_uses() {
    let (device, _) = gfx_dev_and_queue();
    let reported = MemoryRequirements {
        size: 200,
        alignment: 4,
        memory_type_bits: 0b10,
        prefer_dedicated: false,
    };
    let plain = UnsafeBuffer::from_handle(
        &device,
        1,
        UnsafeBufferCreateInfo {
            size: 200,
            usage: transfer_dst(),
            ..Default::default()
        },
        0,
    );
    let out = plain.memory_requirements(&device, reported, Some(true));
    assert_eq!(out.alignment, 4);
    assert_eq!(out.size, 200);
    assert_eq!(out.memory_type_bits, 0b10);
    assert!(out.prefer_dedicated);

    let texel = UnsafeBuffer::from_handle(
        &device,
        2,
        UnsafeBufferCreateInfo {
            size: 200,
            usage: BufferUsage {
                uniform_texel_buffer: true,
                ..BufferUsage::empty()
            },
            ..Default::default()
        },
        1,
    );
    assert_eq!(texel.memory_requirements(&device, reported, None).alignment, 16);
    assert!(!texel.memory_requirements(&device, reported, Some(false)).prefer_dedicated);

    let all = UnsafeBuffer::from_handle(
        &device,
        3,
        UnsafeBufferCreateInfo {
            size: 200,
            usage: BufferUsage {
                storage_texel_buffer: true,
                storage_buffer: true,
                uniform_buffer: true,
                ..BufferUsage::empty()
            },
            ..Default::default()
        },
        2,
    );
    assert_eq!(all.memory_requirements(&device, reported, None).alignment, 64);
}

#[test]
fn bind_memory_reports_what_the_driver_answered() {
    let (device, _) = gfx_dev_and_queue();
    let buffer = UnsafeBuffer::from_handle(
        &device,
        1,
        UnsafeBufferCreateInfo {
            size: 64,
            usage: transfer_dst(),
            ..Default::default()
        },
        0,
    );
    let memory = DeviceMemory {
        handle: 9,
        allocation_size: 64,
        memory_type_index: 0,
        flags: MemoryAllocateFlags {
            device_address: false,
        },
    };
    assert!(buffer.can_bind_memory(&device, &memory));
    assert_eq!(buffer.bind_memory(&device, &memory, 0, Ok(())), Ok(()));
    assert_eq!(
        buffer.bind_memory(&device, &memory, 0, Err(VulkanError::OutOfDeviceMemory)),
        Err(OomError::OutOfDeviceMemory)
    );
    assert_eq!(
        buffer.bind_memory(&device, &memory, 0, Err(VulkanError::OutOfHostMemory)),
        Err(OomError::OutOfHostMemory)
    );

    let addressed = UnsafeBuffer::from_handle(
        &device,
        2,
        UnsafeBufferCreateInfo {
            size: 64,
            usage: BufferUsage {
                shader_device_address: true,
                ..BufferUsage::empty()
            },
            ..Default::default()
        },
        1,
    );
    assert!(!addressed.can_bind_memory(&device, &memory));
}

#[test]
fn buffer_errors_have_words() {
    assert_eq!(
        BufferCreationError::AllocError(vulkano::memory::DeviceMemoryError::TooManyObjects)
            .to_string(),
        "allocating memory failed"
    );
    assert_eq!(
        BufferCreationError::MaxBufferSizeExceeded { size: 2, max: 1 }.to_string(),
        "the specified size exceeded the value of the `max_buffer_size` limit"
    );
}

#[test]
fn requirement_is_told_in_full() {
    let (device, _) = gfx_dev_and_queue();
    let err = UnsafeBuffer::new(
        &device,
        UnsafeBufferCreateInfo {
            size: 128,
            sparse: Some(SparseLevel::empty()),
            usage: transfer_dst(),
            ..Default::default()
        },
    )
    .unwrap_err();
    assert_eq!(
        err.to_string(),
        "a requirement was not met for: `create_info.sparse` is `Some`; requires one of: feature sparse_binding"
    );
}

#[test]
fn buffers_are_prepared_with_their_staging_buffer() {
    let (device, _) = gfx_dev_and_queue();
    let usage = BufferUsage {
        vertex_buffer: true,
        ..BufferUsage::empty()
    };
    let (staging, local) = Local::from_iter(&device, 16, 12, usage, &vec![0]).unwrap();
    assert_eq!(staging.size, 192);
    assert_eq!(
        staging.usage,
        BufferUsage {
            transfer_src: true,
            ..BufferUsage::empty()
        }
    );
    assert!(matches!(staging.sharing, Sharing::Exclusive));
    assert_eq!(local.size, 192);
    assert_eq!(
        local.usage,
        BufferUsage {
            vertex_buffer: true,
            transfer_dst: true,
            ..BufferUsage::empty()
        }
    );
    let (staging, local) = Local::from_data(&device, 40, usage, &vec![0, 1]).unwrap();
    assert_eq!(staging.size, 40);
    assert_eq!(local.size, 40);
    match local.sharing {
        Sharing::Concurrent(indices) => assert_eq!(indices.to_vec(), vec![0, 1]),
        Sharing::Exclusive => panic!(),
    }
    let plain = Local::new(&device, 8, usage, &vec![1]).unwrap();
    assert_eq!(plain.size, 8);
    assert_eq!(plain.usage, usage);

    let host = Host::from_iter(&device, 3, 4, usage, true).unwrap();
    assert_eq!(host.size, 12);
    assert_eq!(Host::from_data(&device, 5, usage, false).unwrap().size, 5);
    assert_eq!(Host::uninitialized(&device, 6, usage, false).unwrap().size, 6);
}

#[test]
fn exportable_buffer_gets_a_block_of_its_own() {
    let mut device = device_with(Features::empty());
    device.enabled_extensions.khr_external_memory = true;
    device.enabled_extensions.khr_external_memory_fd = true;
    let usage = BufferUsage {
        storage_buffer: true,
        ..BufferUsage::empty()
    };
    let info = Local::raw_with_exportable_fd(&device, 256, usage, &vec![0]).unwrap();
    assert_eq!(info.size, 256);
    let buffer = UnsafeBuffer::from_handle(&device, 3, info, 9);
    let requirements = MemoryRequirements {
        size: 256,
        alignment: 32,
        memory_type_bits: 0b11,
        prefer_dedicated: false,
    };
    assert_eq!(
        Local::exportable_memory(&device, &buffer, &requirements),
        Some(MemoryAllocateInfo {
            allocation_size: 256,
            memory_type_index: 0,
            dedicated_allocation: Some(DedicatedAllocation::Buffer(9)),
            export_handle_types: ExternalMemoryHandleTypes {
                opaque_fd: true,
                ..ExternalMemoryHandleTypes::empty()
            },
        })
    );
    let host_only = MemoryRequirements {
        memory_type_bits: 0b10,
        ..requirements
    };
    assert_eq!(
        Local::exportable_memory(&device, &buffer, &host_only).map(|info| info.memory_type_index),
        Some(1)
    );
    let none = MemoryRequirements {
        memory_type_bits: 0b100,
        ..requirements
    };
    assert_eq!(Local::exportable_memory(&device, &buffer, &none), None);
}

#[test]
fn memory_fits_where_size_alignment_and_type_agree() {
    let (device, _) = gfx_dev_and_queue();
    let buffer = UnsafeBuffer::from_handle(
        &device,
        1,
        UnsafeBufferCreateInfo {
            size: 100,
            usage: BufferUsage {
                storage_buffer: true,
                ..BufferUsage::empty()
            },
            ..Default::default()
        },
        0,
    );
    let reported = MemoryRequirements {
        size: 100,
        alignment: 4,
        memory_type_bits: 0b10,
        prefer_dedicated: false,
    };
    let memory = |memory_type_index: u32, allocation_size: u64| DeviceMemory {
        handle: 9,
        allocation_size,
        memory_type_index,
        flags: MemoryAllocateFlags {
            device_address: false,
        },
    };
    assert!(buffer.binding_fits(&device, &reported, &memory(1, 256), 32));
    assert!(buffer.binding_fits(&device, &reported, &memory(1, 132), 32));
    // Too little room behind the offset.
    assert!(!buffer.binding_fits(&device, &reported, &memory(1, 131), 32));
    assert!(!buffer.binding_fits(&device, &reported, &memory(1, 16), 32));
    // Aligned for the driver, not for a storage buffer.
    assert!(!buffer.binding_fits(&device, &reported, &memory(1, 256), 4));
    // Not aligned for the driver.
    let odd = MemoryRequirements {
        alignment: 64,
        ..reported
    };
    assert!(!buffer.binding_fits(&device, &odd, &memory(1, 256), 32));
    // A type of memory that the driver does not name.
    assert!(!buffer.binding_fits(&device, &reported, &memory(0, 256), 32));
    assert!(!buffer.binding_fits(&device, &reported, &memory(40, 256), 32));
}
