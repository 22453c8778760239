//! Pools of device memory, and how memory is chosen for a resource.

use crate::device::{Device, MemoryType};
use crate::memory::{
    DedicatedAllocation, DeviceMemory, DeviceMemoryError, ExternalMemoryHandleTypes,
    MappedDeviceMemory, MemoryRequirements,
};
use crate::{DeviceSize, VulkanError};
use vstd::prelude::*;

verus! {

/// If the allocation size goes beyond this, then we perform a dedicated allocation which bypasses
/// the pool. This prevents the pool from overallocating a significant amount of memory.
pub const MAX_POOL_ALLOC: DeviceSize = 268435456;

/// What a filter says of a type of memory.
#[derive(Clone, Copy, Debug, PartialEq, Eq, Structural)]
pub enum AllocFromRequirementsFilter {
    Preferred,
    Allowed,
    Forbidden,
}

/// Whether an allocation should map the memory or not.
#[derive(Clone, Copy, Debug, PartialEq, Eq, Hash, Structural)]
pub enum MappingRequirement {
    /// Should map.
    Mapped,
    /// Shouldn't map.
    DoNotMap,
}

/// Layout of the object being allocated.
#[derive(Clone, Copy, Debug, PartialEq, Eq, Hash, Structural)]
pub enum AllocLayout {
    /// The object has a linear layout.
    Linear,
    /// The object has an optimal layout.
    Optimal,
}

/// Whether the resource can use the memory type of index `i`, and the host
/// can see the memory where it is to be mapped.
pub open spec fn type_usable(
    types: Seq<MemoryType>,
    memory_type_bits: u32,
    map: MappingRequirement,
    i: int,
) -> bool {
    &&& 0 <= i < types.len()
    &&& i < 32
    &&& memory_type_bits & (1u32 << (i as u32)) != 0
    &&& (map is Mapped ==> types[i].property_flags.host_visible)
}

/// Whether `i` is the first usable memory type for which the filter can
/// answer `wanted`: for each usable type before it the filter gave another
/// answer.
pub open spec fn first_answering<F: Fn(&MemoryType) -> AllocFromRequirementsFilter>(
    types: Seq<MemoryType>,
    memory_type_bits: u32,
    map: MappingRequirement,
    filter: F,
    wanted: AllocFromRequirementsFilter,
    i: int,
) -> bool {
    &&& type_usable(types, memory_type_bits, map, i)
    &&& call_ensures(filter, (&types[i],), wanted)
    &&& forall|j: int|
        0 <= j < i && #[trigger] type_usable(types, memory_type_bits, map, j) ==> exists|
            answer: AllocFromRequirementsFilter,
        |
            answer != wanted && call_ensures(filter, (&types[j],), answer)
}

/// Whether the filter gave another answer than `wanted` for each usable
/// memory type.
pub open spec fn none_answering<F: Fn(&MemoryType) -> AllocFromRequirementsFilter>(
    types: Seq<MemoryType>,
    memory_type_bits: u32,
    map: MappingRequirement,
    filter: F,
    wanted: AllocFromRequirementsFilter,
) -> bool {
    forall|j: int| #[trigger]
        type_usable(types, memory_type_bits, map, j) ==> exists|
            answer: AllocFromRequirementsFilter,
        |
            answer != wanted && call_ensures(filter, (&types[j],), answer)
}

/// The first usable memory type from place `from` on for which the filter
/// answers `wanted`.
fn find_memory_type<F: Fn(&MemoryType) -> AllocFromRequirementsFilter>(
    device: &Device,
    requirements: &MemoryRequirements,
    filter: &F,
    map: MappingRequirement,
    wanted: AllocFromRequirementsFilter,
) -> (found: Option<u32>)
    requires
        device.physical_device.memory_types.len() <= 32,
        forall|ty: &MemoryType| call_requires(*filter, (ty,)),
    ensures
        match found {
            Some(i) => first_answering(
                device.physical_device.memory_types@,
                requirements.memory_type_bits,
                map,
                *filter,
                wanted,
                i as int,
            ),
            None => none_answering(
                device.physical_device.memory_types@,
                requirements.memory_type_bits,
                map,
                *filter,
                wanted,
            ),
        },
{
    let types = &device.physical_device.memory_types;
    let mut i: usize = 0;
    while i < types.len()
        invariant
            types == &device.physical_device.memory_types,
            types.len() <= 32,
            i <= types.len(),
            forall|ty: &MemoryType| call_requires(*filter, (ty,)),
            forall|j: int|
                0 <= j < i && #[trigger] type_usable(
                    types@,
                    requirements.memory_type_bits,
                    map,
                    j,
                ) ==> exists|answer: AllocFromRequirementsFilter|
                    answer != wanted && call_ensures(*filter, (&types@[j],), answer),
        decreases types.len() - i,
    {
        let bit: u32 = 1u32 << (i as u32);
        let usable = requirements.memory_type_bits & bit != 0 && (match map {
            MappingRequirement::Mapped => types[i].property_flags.host_visible,
            MappingRequirement::DoNotMap => true,
        });
        if usable {
            let answer = filter(&types[i]);
            if answer == wanted {
                return Some(i as u32);
            }
        }
        i += 1;
    }
    None
}

/// Chooses the type of memory for a resource: the first type that the
/// resource can use and the filter prefers, or else the first one that the
/// resource can use and the filter allows. Where the memory is to be mapped,
/// only types that the host can see are considered. `None` where no type is
/// left.
pub fn choose_allocation_memory_type<F: Fn(&MemoryType) -> AllocFromRequirementsFilter>(
    device: &Device,
    requirements: &MemoryRequirements,
    filter: F,
    map: MappingRequirement,
) -> (chosen: Option<u32>)
    requires
        device.physical_device.memory_types.len() <= 32,
        forall|ty: &MemoryType| call_requires(filter, (ty,)),
    ensures
        match chosen {
            Some(i) => {
                let types = device.physical_device.memory_types@;
                let bits = requirements.memory_type_bits;
                ||| first_answering(
                    types,
                    bits,
                    map,
                    filter,
                    AllocFromRequirementsFilter::Preferred,
                    i as int,
                )
                ||| (none_answering(types, bits, map, filter, AllocFromRequirementsFilter::Preferred)
                    && first_answering(
                    types,
                    bits,
                    map,
                    filter,
                    AllocFromRequirementsFilter::Allowed,
                    i as int,
                ))
            },
            None => {
                let types = device.physical_device.memory_types@;
                let bits = requirements.memory_type_bits;
                &&& none_answering(types, bits, map, filter, AllocFromRequirementsFilter::Preferred)
                &&& none_answering(types, bits, map, filter, AllocFromRequirementsFilter::Allowed)
            },
        },
{
    match find_memory_type(
        device,
        requirements,
        &filter,
        map,
        AllocFromRequirementsFilter::Preferred,
    ) {
        Some(i) => Some(i),
        None => find_memory_type(
            device,
            requirements,
            &filter,
            map,
            AllocFromRequirementsFilter::Allowed,
        ),
    }
}

/// What to ask of the driver for memory of a resource's own.
#[derive(Clone, Copy, Debug, PartialEq, Eq, Structural)]
pub struct MemoryAllocateInfo {
    /// The number of bytes to allocate.
    pub allocation_size: DeviceSize,
    /// The index of the type of memory to allocate.
    pub memory_type_index: u32,
    /// The resource that the memory is for alone, if it is for one.
    pub dedicated_allocation: Option<DedicatedAllocation>,
    /// The kinds of handle under which the memory can be exported.
    pub export_handle_types: ExternalMemoryHandleTypes,
}

/// Whether the extensions for exporting memory as a file descriptor are
/// enabled on the device.
pub open spec fn fd_exportable(device: &Device) -> bool {
    device.enabled_extensions.khr_external_memory_fd && device.enabled_extensions.khr_external_memory
}

/// The kinds of handle of memory that is exported as a file descriptor.
pub open spec fn opaque_fd_only() -> ExternalMemoryHandleTypes {
    ExternalMemoryHandleTypes {
        opaque_fd: true,
        opaque_win32: false,
        opaque_win32_kmt: false,
        d3d11_texture: false,
        d3d11_texture_kmt: false,
        d3d12_heap: false,
        d3d12_resource: false,
        dma_buf: false,
        android_hardware_buffer: false,
        host_allocation: false,
        host_mapped_foreign_memory: false,
    }
}

/// Allocate dedicated memory with exportable fd: says what to ask of the
/// driver. Memory pool memory always exports the same fd, thus dedicated is
/// preferred. `None` where no type of memory is left.
pub fn alloc_dedicated_with_exportable_fd<F: Fn(&MemoryType) -> AllocFromRequirementsFilter>(
    device: &Device,
    requirements: &MemoryRequirements,
    _layout: AllocLayout,
    map: MappingRequirement,
    dedicated_allocation: DedicatedAllocation,
    filter: F,
) -> (info: Option<MemoryAllocateInfo>)
    requires
        fd_exportable(device),
        device.physical_device.memory_types.len() <= 32,
        forall|ty: &MemoryType| call_requires(filter, (ty,)),
    ensures
        match info {
            Some(info) => {
                &&& info.allocation_size == requirements.size
                &&& info.dedicated_allocation == Some(dedicated_allocation)
                &&& info.export_handle_types == opaque_fd_only()
                &&& type_usable(
                    device.physical_device.memory_types@,
                    requirements.memory_type_bits,
                    map,
                    info.memory_type_index as int,
                )
                &&& (call_ensures(
                    filter,
                    (&device.physical_device.memory_types@[info.memory_type_index as int],),
                    AllocFromRequirementsFilter::Preferred,
                ) || call_ensures(
                    filter,
                    (&device.physical_device.memory_types@[info.memory_type_index as int],),
                    AllocFromRequirementsFilter::Allowed,
                ))
            },
            None => {
                let types = device.physical_device.memory_types@;
                let bits = requirements.memory_type_bits;
                &&& none_answering(types, bits, map, filter, AllocFromRequirementsFilter::Preferred)
                &&& none_answering(types, bits, map, filter, AllocFromRequirementsFilter::Allowed)
            },
        },
{
    match choose_allocation_memory_type(device, requirements, filter, map) {
        Some(memory_type_index) => {
            let mut export_handle_types = ExternalMemoryHandleTypes::empty();
            export_handle_types.opaque_fd = true;
            Some(
                MemoryAllocateInfo {
                    allocation_size: requirements.size,
                    memory_type_index,
                    dedicated_allocation: Some(dedicated_allocation),
                    export_handle_types,
                },
            )
        },
        None => None,
    }
}

/// Object that represents a single allocation. Its destructor should free the chunk.
pub trait MemoryPoolAlloc {
    /// The mapped memory that this is allocated from, if it is mapped.
    spec fn mapped_memory_spec(&self) -> Option<MappedDeviceMemory>;

    /// The memory that this is allocated from.
    spec fn memory_spec(&self) -> DeviceMemory;

    /// The offset of the first byte of the allocation within the memory.
    spec fn offset_spec(&self) -> DeviceSize;

    /// Returns the memory object from which this is allocated. Returns `None` if the memory is
    /// not mapped.
    fn mapped_memory(&self) -> (mapped: Option<MappedDeviceMemory>)
        ensures
            mapped == self.mapped_memory_spec(),
    ;

    /// Returns the memory object from which this is allocated.
    fn memory(&self) -> (memory: DeviceMemory)
        ensures
            memory == self.memory_spec(),
    ;

    /// Returns the offset at the start of the memory where the first byte of this allocation
    /// resides.
    fn offset(&self) -> (offset: DeviceSize)
        ensures
            offset == self.offset_spec(),
    ;
}

/// An allocation out of one of the blocks of the standard pool.
#[derive(Clone, Copy, Debug, PartialEq, Eq, Structural)]
pub struct StandardMemoryPoolAlloc {
    /// The block that the allocation lies in.
    pub memory: DeviceMemory,
    /// The mapping of the block, where it is mapped.
    pub mapped: Option<MappedDeviceMemory>,
    /// The offset of the allocation within the block.
    pub offset: DeviceSize,
    /// The size of the allocation.
    pub size: DeviceSize,
}

impl MemoryPoolAlloc for StandardMemoryPoolAlloc {
    open spec fn mapped_memory_spec(&self) -> Option<MappedDeviceMemory> {
        self.mapped
    }

    open spec fn memory_spec(&self) -> DeviceMemory {
        self.memory
    }

    open spec fn offset_spec(&self) -> DeviceSize {
        self.offset
    }

    fn mapped_memory(&self) -> (mapped: Option<MappedDeviceMemory>) {
        self.mapped
    }

    fn memory(&self) -> (memory: DeviceMemory) {
        self.memory
    }

    fn offset(&self) -> (offset: DeviceSize) {
        self.offset
    }
}

/// Enumeration that can contain either a generic allocation coming from a pool, or a dedicated
/// allocation for one specific resource.
#[derive(Clone, Copy, Debug, PartialEq, Eq)]
pub enum PotentialDedicatedAllocation<A> {
    Generic(A),
    Dedicated(DeviceMemory),
    DedicatedMapped(MappedDeviceMemory),
}

impl<A: MemoryPoolAlloc> MemoryPoolAlloc for PotentialDedicatedAllocation<A> {
    open spec fn mapped_memory_spec(&self) -> Option<MappedDeviceMemory> {
        match *self {
            PotentialDedicatedAllocation::Generic(alloc) => alloc.mapped_memory_spec(),
            PotentialDedicatedAllocation::Dedicated(_) => None,
            PotentialDedicatedAllocation::DedicatedMapped(mem) => Some(mem),
        }
    }

    open spec fn memory_spec(&self) -> DeviceMemory {
        match *self {
            PotentialDedicatedAllocation::Generic(alloc) => alloc.memory_spec(),
            PotentialDedicatedAllocation::Dedicated(mem) => mem,
            PotentialDedicatedAllocation::DedicatedMapped(mem) => mem.memory,
        }
    }

    open spec fn offset_spec(&self) -> DeviceSize {
        match *self {
            PotentialDedicatedAllocation::Generic(alloc) => alloc.offset_spec(),
            PotentialDedicatedAllocation::Dedicated(_) => 0,
            PotentialDedicatedAllocation::DedicatedMapped(_) => 0,
        }
    }

    fn mapped_memory(&self) -> (mapped: Option<MappedDeviceMemory>) {
        match self {
            PotentialDedicatedAllocation::Generic(alloc) => alloc.mapped_memory(),
            PotentialDedicatedAllocation::Dedicated(_) => None,
            PotentialDedicatedAllocation::DedicatedMapped(mem) => Some(*mem),
        }
    }

    fn memory(&self) -> (memory: DeviceMemory) {
        match self {
            PotentialDedicatedAllocation::Generic(alloc) => alloc.memory(),
            PotentialDedicatedAllocation::Dedicated(mem) => *mem,
            PotentialDedicatedAllocation::DedicatedMapped(mem) => mem.memory,
        }
    }

    fn offset(&self) -> (offset: DeviceSize) {
        match self {
            PotentialDedicatedAllocation::Generic(alloc) => alloc.offset(),
            PotentialDedicatedAllocation::Dedicated(_) => 0,
            PotentialDedicatedAllocation::DedicatedMapped(_) => 0,
        }
    }
}

impl<A> PotentialDedicatedAllocation<A> {
    /// An allocation that comes from a pool.
    pub fn from_generic(alloc: A) -> (r: PotentialDedicatedAllocation<A>)
        ensures
            r == PotentialDedicatedAllocation::Generic(alloc),
    {
        PotentialDedicatedAllocation::Generic(alloc)
    }

    /// A block of memory that the driver gave for one resource alone, mapped
    /// as a whole where `map` asks for it.
    pub fn dedicated(memory: DeviceMemory, map: MappingRequirement) -> (r:
        PotentialDedicatedAllocation<A>)
        ensures
            r == match map {
                MappingRequirement::Mapped => PotentialDedicatedAllocation::<
                    A,
                >::DedicatedMapped(
                    MappedDeviceMemory { memory, start: 0, end: memory.allocation_size },
                ),
                MappingRequirement::DoNotMap => PotentialDedicatedAllocation::<A>::Dedicated(
                    memory,
                ),
            },
    {
        match map {
            MappingRequirement::Mapped => PotentialDedicatedAllocation::DedicatedMapped(
                MappedDeviceMemory { memory, start: 0, end: memory.allocation_size },
            ),
            MappingRequirement::DoNotMap => PotentialDedicatedAllocation::Dedicated(memory),
        }
    }
}

/// Where the memory for a resource is to come from.
#[derive(Clone, Copy, Debug, PartialEq, Eq, Structural)]
pub enum AllocSource {
    /// From the pool, with `alloc_generic`.
    Pool {
        /// The index of the type of memory.
        memory_type_index: u32,
    },
    /// From the driver, for the resource alone.
    Dedicated(MemoryAllocateInfo),
}

/// Where the memory for a resource comes from, once its type is chosen:
/// from the pool unless the resource prefers memory of its own, or is too
/// large for the pool, and names itself.
pub open spec fn alloc_source_spec(
    requirements: MemoryRequirements,
    dedicated_allocation: Option<DedicatedAllocation>,
    memory_type_index: u32,
) -> AllocSource {
    if (!requirements.prefer_dedicated && requirements.size <= MAX_POOL_ALLOC)
        || dedicated_allocation is None {
        AllocSource::Pool { memory_type_index }
    } else {
        AllocSource::Dedicated(
            MemoryAllocateInfo {
                allocation_size: requirements.size,
                memory_type_index,
                dedicated_allocation,
                export_handle_types: ExternalMemoryHandleTypes::empty_spec(),
            },
        )
    }
}

/// Decides where the memory for a resource comes from, once its type is
/// chosen.
pub fn alloc_source(
    requirements: &MemoryRequirements,
    dedicated_allocation: Option<DedicatedAllocation>,
    memory_type_index: u32,
) -> (source: AllocSource)
    ensures
        source == alloc_source_spec(*requirements, dedicated_allocation, memory_type_index),
{
    if !requirements.prefer_dedicated && requirements.size <= MAX_POOL_ALLOC {
        return AllocSource::Pool { memory_type_index };
    }
    if dedicated_allocation.is_none() {
        return AllocSource::Pool { memory_type_index };
    }
    AllocSource::Dedicated(
        MemoryAllocateInfo {
            allocation_size: requirements.size,
            memory_type_index,
            dedicated_allocation,
            export_handle_types: ExternalMemoryHandleTypes::empty(),
        },
    )
}

/// What an allocation for a resource came to.
#[derive(Clone, Copy, Debug, PartialEq, Eq)]
pub enum AllocFromRequirements<A> {
    /// The pool gave the memory.
    Allocated(PotentialDedicatedAllocation<A>),
    /// The driver is to be asked for memory for the resource alone.
    Dedicated(MemoryAllocateInfo),
}

/// Pool of GPU-visible memory that can be allocated from.
pub trait MemoryPool: Sized {
    /// Object that represents a single allocation. Its destructor should free the chunk.
    type Alloc: MemoryPoolAlloc;

    /// Allocates memory from the pool.
    fn alloc_generic(
        &mut self,
        memory_type_index: u32,
        size: DeviceSize,
        alignment: DeviceSize,
        layout: AllocLayout,
        map: MappingRequirement,
    ) -> (result: Result<Self::Alloc, DeviceMemoryError>)
        requires
            size != 0,
            alignment != 0,
    ;
}

/// Chooses a memory type and allocates memory from it.
///
/// Contrary to `alloc_generic`, this function may ask for a whole new block of memory
/// dedicated to a resource, based on `requirements.prefer_dedicated`.
///
/// `filter` can be used to restrict the memory types and to indicate which are preferred.
/// If `map` is `MappingRequirement::Mapped`, then non-host-visible memory types will
/// automatically be filtered out.
pub fn alloc_from_requirements<P: MemoryPool, F: Fn(&MemoryType) -> AllocFromRequirementsFilter>(
    pool: &mut P,
    device: &Device,
    requirements: &MemoryRequirements,
    layout: AllocLayout,
    map: MappingRequirement,
    dedicated_allocation: Option<DedicatedAllocation>,
    filter: F,
) -> (result: Option<Result<AllocFromRequirements<P::Alloc>, DeviceMemoryError>>)
    requires
        requirements.size != 0,
        requirements.alignment != 0,
        device.physical_device.memory_types.len() <= 32,
        forall|ty: &MemoryType| call_requires(filter, (ty,)),
    ensures
        result is None ==> {
            let types = device.physical_device.memory_types@;
            let bits = requirements.memory_type_bits;
            &&& none_answering(types, bits, map, filter, AllocFromRequirementsFilter::Preferred)
            &&& none_answering(types, bits, map, filter, AllocFromRequirementsFilter::Allowed)
        },
        result is Some ==> exists|i: int| #[trigger]
            type_usable(
                device.physical_device.memory_types@,
                requirements.memory_type_bits,
                map,
                i,
            ) && (call_ensures(
                filter,
                (&device.physical_device.memory_types@[i],),
                AllocFromRequirementsFilter::Preferred,
            ) || call_ensures(
                filter,
                (&device.physical_device.memory_types@[i],),
                AllocFromRequirementsFilter::Allowed,
            )),
        result matches Some(Ok(AllocFromRequirements::Dedicated(info))) ==> {
            &&& (requirements.prefer_dedicated || requirements.size > MAX_POOL_ALLOC)
            &&& dedicated_allocation is Some
            &&& alloc_source_spec(*requirements, dedicated_allocation, info.memory_type_index)
                == AllocSource::Dedicated(info)
            &&& type_usable(
                device.physical_device.memory_types@,
                requirements.memory_type_bits,
                map,
                info.memory_type_index as int,
            )
        },
        result matches Some(Ok(AllocFromRequirements::Allocated(alloc))) ==> {
            &&& alloc is Generic
            &&& (!requirements.prefer_dedicated && requirements.size <= MAX_POOL_ALLOC)
                || dedicated_allocation is None
        },
        result matches Some(Err(_)) ==> (!requirements.prefer_dedicated && requirements.size
            <= MAX_POOL_ALLOC) || dedicated_allocation is None,
{
    let memory_type_index = match choose_allocation_memory_type(
        device,
        requirements,
        filter,
        map,
    ) {
        Some(index) => index,
        None => {
            return None;
        },
    };
    match alloc_source(requirements, dedicated_allocation, memory_type_index) {
        AllocSource::Pool { memory_type_index } => {
            match pool.alloc_generic(
                memory_type_index,
                requirements.size,
                requirements.alignment,
                layout,
                map,
            ) {
                Ok(alloc) => Some(
                    Ok(
                        AllocFromRequirements::Allocated(
                            PotentialDedicatedAllocation::from_generic(alloc),
                        ),
                    ),
                ),
                Err(err) => Some(Err(err)),
            }
        },
        AllocSource::Dedicated(info) => Some(Ok(AllocFromRequirements::Dedicated(info))),
    }
}

} // verus!
