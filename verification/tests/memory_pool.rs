use vulkano::device::{
    Device, DeviceExtensions, Features, MemoryPropertyFlags, MemoryType, PhysicalDevice,
    Properties,
};
use vulkano::memory::pool::{
    alloc_dedicated_with_exportable_fd, alloc_from_requirements, alloc_source,
    choose_allocation_memory_type, AllocFromRequirements, AllocFromRequirementsFilter,
    AllocLayout, AllocSource, MappingRequirement, MemoryAllocateInfo, MemoryPool,
    MemoryPoolAlloc, PotentialDedicatedAllocation, StandardMemoryPoolAlloc, MAX_POOL_ALLOC,
};
use vulkano::memory::{
    DedicatedAllocation, DeviceMemory, DeviceMemoryError, ExternalMemoryHandleTypes,
    MappedDeviceMemory, MemoryAllocateFlags, MemoryRequirements,
};
use vulkano::Version;

fn memory_type(device_local: bool, host_visible: bool) -> MemoryType {
    MemoryType {
        property_flags: MemoryPropertyFlags {
            device_local,
            host_visible,
            ..MemoryPropertyFlags::empty()
        },
        heap_index: 0,
    }
}

fn device(memory_types: Vec<MemoryType>, enabled_extensions: DeviceExtensions) -> Device {
    Device {
        handle: 1,
        api_version: Version::major_minor(1, 1),
        enabled_extensions,
        enabled_features: Features::empty(),
        physical_device: PhysicalDevice {
            properties: Properties {
                max_buffer_size: None,
                min_texel_buffer_offset_alignment: 16,
                min_storage_buffer_offset_alignment: 16,
                min_uniform_buffer_offset_alignment: 64,
                max_texel_buffer_elements: 1 << 27,
                storage_texel_buffer_offset_alignment_bytes: None,
                storage_texel_buffer_offset_single_texel_alignment: None,
                uniform_texel_buffer_offset_alignment_bytes: None,
                uniform_texel_buffer_offset_single_texel_alignment: None,
                max_multiview_view_count: None,
                max_color_attachments: 8,
            },
            memory_types,
            queue_family_count: 1,
            supported_extensions: DeviceExtensions::empty(),
            format_support: vec![],
        },
    }
}

fn requirements(size: u64, memory_type_bits: u32, prefer_dedicated: bool) -> MemoryRequirements {
    MemoryRequirements {
        size,
        alignment: 16,
        memory_type_bits,
        prefer_dedicated,
    }
}

fn prefers_device_local(ty: &MemoryType) -> AllocFromRequirementsFilter {
    if ty.property_flags.device_local {
        AllocFromRequirementsFilter::Preferred
    } else {
        AllocFromRequirementsFilter::Allowed
    }
}

fn block(handle: u64, memory_type_index: u32, allocation_size: u64) -> DeviceMemory {
    DeviceMemory {
        handle,
        allocation_size,
        memory_type_index,
        flags: MemoryAllocateFlags {
            device_address: false,
        },
    }
}

struct CountingPool {
    calls: Vec<(u32, u64, u64)>,
    fails: bool,
}

impl MemoryPool for CountingPool {
    type Alloc = StandardMemoryPoolAlloc;

    fn alloc_generic(
        &mut self,
        memory_type_index: u32,
        size: u64,
        alignment: u64,
        _layout: AllocLayout,
        _map: MappingRequirement,
    ) -> Result<StandardMemoryPoolAlloc, DeviceMemoryError> {
        self.calls.push((memory_type_index, size, alignment));
        if self.fails {
            return Err(DeviceMemoryError::TooManyObjects);
        }
        Ok(StandardMemoryPoolAlloc {
            memory: block(5, memory_type_index, 1 << 20),
            mapped: None,
            offset: 64,
            size,
        })
    }
}

#[test]
fn preferred_type_is_chosen_before_an_allowed_one() {
    let device = device(
        vec![
            memory_type(false, true),
            memory_type(true, false),
            memory_type(true, true),
        ],
        DeviceExtensions::empty(),
    );
    let reqs = requirements(64, 0b111, false);
    assert_eq!(
        choose_allocation_memory_type(
            &device,
            &reqs,
            prefers_device_local,
            MappingRequirement::DoNotMap
        ),
        Some(1)
    );
    assert_eq!(
        choose_allocation_memory_type(
            &device,
            &reqs,
            prefers_device_local,
            MappingRequirement::Mapped
        ),
        Some(2)
    );
}

#[test]
fn types_outside_the_bits_are_passed_over() {
    let device = device(
        vec![
            memory_type(true, false),
            memory_type(false, true),
            memory_type(true, true),
        ],
        DeviceExtensions::empty(),
    );
    assert_eq!(
        choose_allocation_memory_type(
            &device,
            &requirements(64, 0b110, false),
            prefers_device_local,
            MappingRequirement::DoNotMap
        ),
        Some(2)
    );
    assert_eq!(
        choose_allocation_memory_type(
            &device,
            &requirements(64, 0b010, false),
            prefers_device_local,
            MappingRequirement::DoNotMap
        ),
        Some(1)
    );
    assert_eq!(
        choose_allocation_memory_type(
            &device,
            &requirements(64, 0b001, false),
            prefers_device_local,
            MappingRequirement::Mapped
        ),
        None
    );
    assert_eq!(
        choose_allocation_memory_type(
            &device,
            &requirements(64, 0, false),
            prefers_device_local,
            MappingRequirement::DoNotMap
        ),
        None
    );
}

#[test]
fn forbidden_types_are_never_chosen() {
    let device = device(
        vec![memory_type(true, false), memory_type(false, true)],
        DeviceExtensions::empty(),
    );
    let only_host = |ty: &MemoryType| {
        if ty.property_flags.host_visible {
            AllocFromRequirementsFilter::Allowed
        } else {
            AllocFromRequirementsFilter::Forbidden
        }
    };
    assert_eq!(
        choose_allocation_memory_type(
            &device,
            &requirements(64, 0b11, false),
            only_host,
            MappingRequirement::DoNotMap
        ),
        Some(1)
    );
    let none = |_: &MemoryType| AllocFromRequirementsFilter::Forbidden;
    assert_eq!(
        choose_allocation_memory_type(
            &device,
            &requirements(64, 0b11, false),
            none,
            MappingRequirement::DoNotMap
        ),
        None
    );
}

#[test]
fn small_allocations_come_out_of_the_pool() {
    let reqs = requirements(1024, 0b1, false);
    assert_eq!(
        alloc_source(&reqs, Some(DedicatedAllocation::Buffer(3)), 0),
        AllocSource::Pool {
            memory_type_index: 0
        }
    );
    assert_eq!(
        alloc_source(&requirements(MAX_POOL_ALLOC, 0b1, false), Some(DedicatedAllocation::Buffer(3)), 2),
        AllocSource::Pool {
            memory_type_index: 2
        }
    );
    assert_eq!(
        alloc_source(&requirements(1024, 0b1, true), None, 1),
        AllocSource::Pool {
            memory_type_index: 1
        }
    );
    assert_eq!(
        alloc_source(&requirements(MAX_POOL_ALLOC + 1, 0b1, false), None, 1),
        AllocSource::Pool {
            memory_type_index: 1
        }
    );
}

#[test]
fn large_or_preferred_allocations_are_dedicated() {
    let expected = |size: u64| {
        AllocSource::Dedicated(MemoryAllocateInfo {
            allocation_size: size,
            memory_type_index: 1,
            dedicated_allocation: Some(DedicatedAllocation::Image(4)),
            export_handle_types: ExternalMemoryHandleTypes::empty(),
        })
    };
    assert_eq!(
        alloc_source(
            &requirements(1024, 0b1, true),
            Some(DedicatedAllocation::Image(4)),
            1
        ),
        expected(1024)
    );
    assert_eq!(
        alloc_source(
            &requirements(MAX_POOL_ALLOC + 1, 0b1, false),
            Some(DedicatedAllocation::Image(4)),
            1
        ),
        expected(MAX_POOL_ALLOC + 1)
    );
}

#[test]
fn pool_is_asked_for_what_the_requirements_say() {
    let device = device(
        vec![memory_type(false, true), memory_type(true, false)],
        DeviceExtensions::empty(),
    );
    let mut pool = CountingPool {
        calls: vec![],
        fails: false,
    };
    let result = alloc_from_requirements(
        &mut pool,
        &device,
        &requirements(1024, 0b11, false),
        AllocLayout::Linear,
        MappingRequirement::DoNotMap,
        Some(DedicatedAllocation::Buffer(1)),
        prefers_device_local,
    );
    assert_eq!(pool.calls, vec![(1, 1024, 16)]);
    match result {
        Some(Ok(AllocFromRequirements::Allocated(PotentialDedicatedAllocation::Generic(alloc)))) => {
            assert_eq!(alloc.offset, 64);
            assert_eq!(alloc.size, 1024);
            assert_eq!(alloc.memory.memory_type_index, 1);
        }
        _ => panic!(),
    }

    let dedicated = alloc_from_requirements(
        &mut pool,
        &device,
        &requirements(1024, 0b11, true),
        AllocLayout::Optimal,
        MappingRequirement::DoNotMap,
        Some(DedicatedAllocation::Buffer(1)),
        prefers_device_local,
    );
    assert_eq!(pool.calls.len(), 1);
    assert_eq!(
        dedicated,
        Some(Ok(AllocFromRequirements::Dedicated(MemoryAllocateInfo {
            allocation_size: 1024,
            memory_type_index: 1,
            dedicated_allocation: Some(DedicatedAllocation::Buffer(1)),
            export_handle_types: ExternalMemoryHandleTypes::empty(),
        })))
    );

    let nothing = alloc_from_requirements(
        &mut pool,
        &device,
        &requirements(1024, 0b100, false),
        AllocLayout::Optimal,
        MappingRequirement::DoNotMap,
        None,
        prefers_device_local,
    );
    assert_eq!(nothing, None);
    assert_eq!(pool.calls.len(), 1);
}

#[test]
fn error_of_the_pool_is_handed_on() {
    let device = device(vec![memory_type(true, true)], DeviceExtensions::empty());
    let mut pool = CountingPool {
        calls: vec![],
        fails: true,
    };
    let result = alloc_from_requirements(
        &mut pool,
        &device,
        &requirements(32, 0b1, false),
        AllocLayout::Linear,
        MappingRequirement::Mapped,
        None,
        prefers_device_local,
    );
    assert_eq!(result, Some(Err(DeviceMemoryError::TooManyObjects)));
    assert_eq!(pool.calls, vec![(0, 32, 16)]);
}

#[test]
fn exportable_memory_is_dedicated_and_names_the_handle_type() {
    let device = device(
        vec![memory_type(false, true), memory_type(true, false)],
        DeviceExtensions {
            khr_external_memory: true,
            khr_external_memory_fd: true,
            ..DeviceExtensions::empty()
        },
    );
    let info = alloc_dedicated_with_exportable_fd(
        &device,
        &requirements(4096, 0b11, false),
        AllocLayout::Optimal,
        MappingRequirement::DoNotMap,
        DedicatedAllocation::Image(9),
        prefers_device_local,
    );
    assert_eq!(
        info,
        Some(MemoryAllocateInfo {
            allocation_size: 4096,
            memory_type_index: 1,
            dedicated_allocation: Some(DedicatedAllocation::Image(9)),
            export_handle_types: ExternalMemoryHandleTypes {
                opaque_fd: true,
                ..ExternalMemoryHandleTypes::empty()
            },
        })
    );
    assert_eq!(
        alloc_dedicated_with_exportable_fd(
            &device,
            &requirements(4096, 0b100, false),
            AllocLayout::Optimal,
            MappingRequirement::DoNotMap,
            DedicatedAllocation::Image(9),
            prefers_device_local,
        ),
        None
    );
}

#[test]
fn allocations_tell_their_memory_and_offset() {
    let memory = block(7, 0, 4096);
    let generic = StandardMemoryPoolAlloc {
        memory,
        mapped: None,
        offset: 128,
        size: 256,
    };
    assert_eq!(generic.memory(), memory);
    assert_eq!(generic.offset(), 128);
    assert_eq!(generic.mapped_memory(), None);

    let wrapped: PotentialDedicatedAllocation<StandardMemoryPoolAlloc> =
        PotentialDedicatedAllocation::from_generic(generic);
    assert_eq!(wrapped.offset(), 128);
    assert_eq!(wrapped.memory(), memory);

    let dedicated: PotentialDedicatedAllocation<StandardMemoryPoolAlloc> =
        PotentialDedicatedAllocation::dedicated(memory, MappingRequirement::DoNotMap);
    assert_eq!(dedicated, PotentialDedicatedAllocation::Dedicated(memory));
    assert_eq!(dedicated.offset(), 0);
    assert_eq!(dedicated.mapped_memory(), None);

    let mapped: PotentialDedicatedAllocation<StandardMemoryPoolAlloc> =
        PotentialDedicatedAllocation::dedicated(memory, MappingRequirement::Mapped);
    let whole = MappedDeviceMemory {
        memory,
        start: 0,
        end: 4096,
    };
    assert_eq!(mapped, PotentialDedicatedAllocation::DedicatedMapped(whole));
    assert_eq!(mapped.mapped_memory(), Some(whole));
    assert_eq!(mapped.memory(), memory);
}
