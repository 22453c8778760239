//! The state of a buffer: which accesses to each of its bytes are under way.
//!
//! A buffer keeps one `BufferState`. Before the host maps the buffer, or the
//! device is given work that uses it, the state is asked whether the access
//! may be added, and the access is then locked on the bytes it covers. The
//! lock is given back when the access has ended.

use crate::buffer::cpu_access::{ReadLockError, WriteLockError};
use crate::buffer::BufferUsage;
use crate::device::Device;
use crate::memory::{
    DeviceMemory, DeviceMemoryError, ExternalMemoryHandleTypes, MemoryRequirements,
};
use crate::sync::{two_distinct, QueueFamilyIndices, Sharing};
use crate::{
    names, requirement_says, OomError, RequirementNotMet, RequiresOneOf, Version, VulkanError,
};
use crate::range_map::RangeMap;
use crate::sync::future::AccessError;
use crate::sync::{
    first_conflict, is_first_conflict, lemma_first_conflict_exists, lemma_first_conflict_is,
    lemma_first_conflict_local, lemma_first_conflict_none, lockable_range, locked_range,
    locked_range_times, unlockable_range, unlocked_range, unlocked_range_times, valid_states,
    CurrentAccess, LockKind,
};
use crate::DeviceSize;
use std::ops::Range;
use crate::{requirement_message, requirement_text};
use vstd::prelude::*;

verus! {

/// The level of sparse binding that a buffer should be created with.
#[derive(Clone, Copy, Debug, PartialEq, Eq, Hash, Structural)]
pub struct SparseLevel {
    pub sparse_residency: bool,
    pub sparse_aliased: bool,
}

impl SparseLevel {
    /// The set without any flag.
    pub open spec fn empty_spec() -> SparseLevel {
        SparseLevel {
            sparse_residency: false,
            sparse_aliased: false,
        }
    }

    /// The set without any flag.
    pub fn empty() -> (flags: SparseLevel)
        ensures
            flags == SparseLevel::empty_spec(),
    {
        SparseLevel {
            sparse_residency: false,
            sparse_aliased: false,
        }
    }

    /// Whether no flag is set.
    pub open spec fn is_empty_spec(self) -> bool {
        self == SparseLevel::empty_spec()
    }

    /// Whether no flag is set.
    pub fn is_empty(&self) -> (r: bool)
        ensures
            r == self.is_empty_spec(),
    {
        !(self.sparse_residency || self.sparse_aliased)
    }

    /// The flags that are set in `self` or in `other`.
    pub open spec fn union_spec(self, other: SparseLevel) -> SparseLevel {
        SparseLevel {
            sparse_residency: self.sparse_residency || other.sparse_residency,
            sparse_aliased: self.sparse_aliased || other.sparse_aliased,
        }
    }

    /// The flags that are set in `self` or in `other`.
    pub fn union(&self, other: &SparseLevel) -> (flags: SparseLevel)
        ensures
            flags == self.union_spec(*other),
    {
        SparseLevel {
            sparse_residency: self.sparse_residency || other.sparse_residency,
            sparse_aliased: self.sparse_aliased || other.sparse_aliased,
        }
    }

    /// The flags that are set in `self` and in `other`.
    pub open spec fn intersection_spec(self, other: SparseLevel) -> SparseLevel {
        SparseLevel {
            sparse_residency: self.sparse_residency && other.sparse_residency,
            sparse_aliased: self.sparse_aliased && other.sparse_aliased,
        }
    }

    /// The flags that are set in `self` and in `other`.
    pub fn intersection(&self, other: &SparseLevel) -> (flags: SparseLevel)
        ensures
            flags == self.intersection_spec(*other),
    {
        SparseLevel {
            sparse_residency: self.sparse_residency && other.sparse_residency,
            sparse_aliased: self.sparse_aliased && other.sparse_aliased,
        }
    }

    /// Whether every flag of `other` is set in `self`.
    pub open spec fn contains_spec(self, other: SparseLevel) -> bool {
        (other.sparse_residency ==> self.sparse_residency)
            && (other.sparse_aliased ==> self.sparse_aliased)
    }

    /// Whether every flag of `other` is set in `self`.
    pub fn contains(&self, other: &SparseLevel) -> (r: bool)
        ensures
            r == self.contains_spec(*other),
    {
        (!other.sparse_residency || self.sparse_residency)
            && (!other.sparse_aliased || self.sparse_aliased)
    }
}
/// Parameters to create a new `UnsafeBuffer`.
#[derive(Debug)]
pub struct UnsafeBufferCreateInfo {
    /// Whether the buffer can be shared across multiple queues, or is limited to a single queue.
    ///
    /// The default value is [`Sharing::Exclusive`].
    pub sharing: Sharing<QueueFamilyIndices>,
    /// The size in bytes of the buffer.
    ///
    /// The default value is `0`, which must be overridden.
    pub size: DeviceSize,
    /// Create a buffer with sparsely bound memory.
    ///
    /// The default value is `None`.
    pub sparse: Option<SparseLevel>,
    /// How the buffer is going to be used.
    ///
    /// The default value is [`BufferUsage::empty()`], which must be overridden.
    pub usage: BufferUsage,
    /// The external memory handle types that are going to be used with the buffer.
    ///
    /// If any of the fields in this value are set, the device must either support API version 1.1
    /// or the `khr_external_memory` extension must be enabled.
    ///
    /// The default value is [`ExternalMemoryHandleTypes::empty()`].
    pub external_memory_handle_types: ExternalMemoryHandleTypes,
}

impl Default for UnsafeBufferCreateInfo {
    fn default() -> (info: UnsafeBufferCreateInfo)
        ensures
            info.sharing is Exclusive,
            info.size == 0,
            info.sparse is None,
            info.usage == BufferUsage::empty_spec(),
            info.external_memory_handle_types == ExternalMemoryHandleTypes::empty_spec(),
    {
        UnsafeBufferCreateInfo {
            sharing: Sharing::Exclusive,
            size: 0,
            sparse: None,
            usage: BufferUsage::empty(),
            external_memory_handle_types: ExternalMemoryHandleTypes::empty(),
        }
    }
}

/// Error that can happen when creating a buffer.
#[derive(Clone, Copy, Debug, PartialEq, Eq)]
pub enum BufferCreationError {
    /// Allocating memory failed.
    AllocError(DeviceMemoryError),
    /// Something was asked for that the device does not allow.
    RequirementNotMet { required_for: &'static str, requires_one_of: RequiresOneOf },
    /// The specified size exceeded the value of the `max_buffer_size` limit.
    MaxBufferSizeExceeded { size: DeviceSize, max: DeviceSize },
    /// The sharing mode was set to `Concurrent`, but one of the specified queue family indices was
    /// out of range.
    SharingQueueFamilyIndexOutOfRange { queue_family_index: u32, queue_family_count: u32 },
}

impl BufferCreationError {
    /// The error of a lack of memory.
    pub fn from_oom(err: OomError) -> (r: BufferCreationError)
        ensures
            r matches BufferCreationError::AllocError(DeviceMemoryError::OomError(inner)) && inner
                == err,
    {
        BufferCreationError::AllocError(DeviceMemoryError::from_oom(err))
    }

    /// The error that stands for an error of the driver: one of its two
    /// errors on memory.
    pub fn from_vulkan_error(err: VulkanError) -> (r: BufferCreationError)
        requires
            OomError::convertible(err),
        ensures
            r matches BufferCreationError::AllocError(inner) && inner.stands_for(err),
    {
        BufferCreationError::AllocError(DeviceMemoryError::from_vulkan_error(err))
    }

    /// The error of a requirement that the device does not meet.
    pub fn from_requirement(err: RequirementNotMet) -> (r: BufferCreationError)
        ensures
            r matches BufferCreationError::RequirementNotMet { required_for, requires_one_of }
                && required_for == err.required_for && requires_one_of == err.requires_one_of,
    {
        BufferCreationError::RequirementNotMet {
            required_for: err.required_for,
            requires_one_of: err.requires_one_of,
        }
    }

    /// What went wrong, in words.
    pub fn to_string(&self) -> (s: String)
        ensures
            s@ == match *self {
                BufferCreationError::AllocError(_) => "allocating memory failed"@,
                BufferCreationError::RequirementNotMet { required_for, requires_one_of } => requirement_text(
                    required_for,
                    requires_one_of,
                ),
                BufferCreationError::MaxBufferSizeExceeded { .. } => "the specified size exceeded the value of the `max_buffer_size` limit"@,
                BufferCreationError::SharingQueueFamilyIndexOutOfRange { .. } => "the sharing mode was set to `Concurrent`, but one of the specified queue family indices was out of range"@,
            },
    {
        match self {
            BufferCreationError::AllocError(_) => "allocating memory failed".to_owned(),
            BufferCreationError::RequirementNotMet { required_for, requires_one_of } => requirement_message(
                required_for,
                requires_one_of,
            ),
            BufferCreationError::MaxBufferSizeExceeded { .. } => "the specified size exceeded the value of the `max_buffer_size` limit".to_owned(),
            BufferCreationError::SharingQueueFamilyIndexOutOfRange { .. } => "the sharing mode was set to `Concurrent`, but one of the specified queue family indices was out of range".to_owned(),
        }
    }
}

/// Why a buffer cannot be created on a device.
pub enum BufferRefusal {
    /// The device cannot use a buffer in the ways asked for.
    Usage,
    /// Sparse binding was asked for; the device lacks the feature.
    SparseBinding,
    /// Sparse residency was asked for; the device lacks the feature.
    SparseResidency,
    /// Sparse aliasing was asked for; the device lacks the feature.
    SparseAliased,
    /// The device has no queue family of this index.
    QueueFamily { queue_family_index: u32, queue_family_count: u32 },
    /// The buffer is larger than the device allows.
    MaxBufferSize { size: DeviceSize, max: DeviceSize },
    /// Handles to outside memory were asked for; the device cannot give any.
    ExternalMemory,
    /// The device lacks the extension for a kind of handle that was asked
    /// for.
    ExternalHandleTypes { required_for: Seq<char>, extension: Seq<char> },
}

/// The first index of the list that names no queue family of the device.
pub open spec fn first_out_of_range(indices: Seq<u32>, queue_family_count: u32) -> Option<u32> {
    match first_conflict(indices, 0, indices.len() as int, |index: u32| index >= queue_family_count) {
        Some(at) => Some(indices[at]),
        None => None,
    }
}

/// Why a buffer cannot be created on a device, if it cannot: what the first
/// rule that is broken says.
pub open spec fn buffer_refusal(device: &Device, info: &UnsafeBufferCreateInfo) -> Option<
    BufferRefusal,
> {
    if info.usage.device_refusal(device) {
        Some(BufferRefusal::Usage)
    } else if info.sparse is Some && !device.enabled_features.sparse_binding {
        Some(BufferRefusal::SparseBinding)
    } else if info.sparse matches Some(level) && level.sparse_residency
        && !device.enabled_features.sparse_residency_buffer {
        Some(BufferRefusal::SparseResidency)
    } else if info.sparse matches Some(level) && level.sparse_aliased
        && !device.enabled_features.sparse_residency_aliased {
        Some(BufferRefusal::SparseAliased)
    } else if info.sharing matches Sharing::Concurrent(indices) && first_out_of_range(
        indices@,
        device.physical_device.queue_family_count,
    ) is Some {
        Some(
            BufferRefusal::QueueFamily {
                queue_family_index: first_out_of_range(
                    info.sharing->Concurrent_0@,
                    device.physical_device.queue_family_count,
                )->0,
                queue_family_count: device.physical_device.queue_family_count,
            },
        )
    } else if device.physical_device.properties.max_buffer_size matches Some(max) && info.size
        > max {
        Some(
            BufferRefusal::MaxBufferSize {
                size: info.size,
                max: device.physical_device.properties.max_buffer_size->0,
            },
        )
    } else if info.external_memory_handle_types.is_empty_spec() {
        None
    } else if !device.api_version.at_least_spec(Version::major_minor_spec(1, 1))
        && !device.enabled_extensions.khr_external_memory {
        Some(BufferRefusal::ExternalMemory)
    } else if info.external_memory_handle_types.missing_extension(device) is Some {
        Some(
            BufferRefusal::ExternalHandleTypes {
                required_for: info.external_memory_handle_types.missing_for(device),
                extension: info.external_memory_handle_types.missing_extension(device)->0,
            },
        )
    } else {
        None
    }
}

impl BufferRefusal {
    /// Whether an error reports this refusal.
    pub open spec fn reported_by(self, err: BufferCreationError) -> bool {
        match self {
            BufferRefusal::Usage => err matches BufferCreationError::RequirementNotMet {
                required_for,
                requires_one_of,
            } && requirement_says(
                required_for,
                requires_one_of,
                "`BufferUsage::shader_device_address`"@,
                Some(Version::major_minor_spec(1, 2)),
                Seq::empty(),
                seq!["khr_buffer_device_address"@, "ext_buffer_device_address"@],
            ),
            BufferRefusal::SparseBinding => err matches BufferCreationError::RequirementNotMet {
                required_for,
                requires_one_of,
            } && requirement_says(
                required_for,
                requires_one_of,
                "`create_info.sparse` is `Some`"@,
                None,
                seq!["sparse_binding"@],
                Seq::empty(),
            ),
            BufferRefusal::SparseResidency => err matches BufferCreationError::RequirementNotMet {
                required_for,
                requires_one_of,
            } && requirement_says(
                required_for,
                requires_one_of,
                "`create_info.sparse` is `Some(sparse_level)`, where `sparse_level.sparse_residency` is set"@,
                None,
                seq!["sparse_residency_buffer"@],
                Seq::empty(),
            ),
            BufferRefusal::SparseAliased => err matches BufferCreationError::RequirementNotMet {
                required_for,
                requires_one_of,
            } && requirement_says(
                required_for,
                requires_one_of,
                "`create_info.sparse` is `Some(sparse_level)`, where `sparse_level.sparse_aliased` is set"@,
                None,
                seq!["sparse_residency_aliased"@],
                Seq::empty(),
            ),
            BufferRefusal::QueueFamily { queue_family_index, queue_family_count } => err
                == (BufferCreationError::SharingQueueFamilyIndexOutOfRange {
                queue_family_index,
                queue_family_count,
            }),
            BufferRefusal::MaxBufferSize { size, max } => err
                == (BufferCreationError::MaxBufferSizeExceeded { size, max }),
            BufferRefusal::ExternalMemory => err matches BufferCreationError::RequirementNotMet {
                required_for,
                requires_one_of,
            } && requirement_says(
                required_for,
                requires_one_of,
                "`create_info.external_memory_handle_types` is not empty"@,
                Some(Version::major_minor_spec(1, 1)),
                Seq::empty(),
                seq!["khr_external_memory"@],
            ),
            BufferRefusal::ExternalHandleTypes { required_for: text, extension } => err matches BufferCreationError::RequirementNotMet {
                required_for,
                requires_one_of,
            } && requirement_says(
                required_for,
                requires_one_of,
                text,
                None,
                Seq::empty(),
                seq![extension],
            ),
        }
    }
}

/// Whether a buffer can be asked for at all: it has a size and a use, and
/// where several queue families share it, two of them differ.
pub open spec fn buffer_askable(info: &UnsafeBufferCreateInfo) -> bool {
    &&& !info.usage.is_empty_spec()
    &&& info.size != 0
    &&& (info.sharing matches Sharing::Concurrent(indices) ==> two_distinct(indices@))
}

/// Whether `after` holds the parameters of `before` as they are handed to
/// the driver: where several queue families share the buffer, each of their
/// indices stands once, in ascending order.
pub open spec fn normalized(before: UnsafeBufferCreateInfo, after: UnsafeBufferCreateInfo) -> bool {
    &&& buffer_askable(&after)
    &&& after.size == before.size
    &&& after.sparse == before.sparse
    &&& after.usage == before.usage
    &&& after.external_memory_handle_types == before.external_memory_handle_types
    &&& match (before.sharing, after.sharing) {
        (Sharing::Exclusive, Sharing::Exclusive) => true,
        (Sharing::Concurrent(before), Sharing::Concurrent(after)) => {
            &&& crate::sync::strictly_ascending(after@)
            &&& forall|k: int| 0 <= k < after@.len() ==> before@.contains(#[trigger] after@[k])
            &&& forall|m: int| 0 <= m < before@.len() ==> after@.contains(#[trigger] before@[m])
        },
        _ => false,
    }
}

/// The least multiple of `alignment` that is not below `value`.
pub open spec fn align_spec(value: DeviceSize, alignment: DeviceSize) -> int {
    alignment * (1 + (value - 1) / (alignment as int))
}

/// The least multiple of `alignment` that is not below `value`.
pub fn align(value: DeviceSize, alignment: DeviceSize) -> (aligned: DeviceSize)
    requires
        value >= 1,
        alignment >= 1,
        align_spec(value, alignment) <= u64::MAX,
    ensures
        aligned == align_spec(value, alignment),
        aligned >= value,
        aligned % alignment == 0,
        aligned - value < alignment,
{
    let blocks = 1 + (value - 1) / alignment;
    proof {
        let q = (value - 1) / (alignment as int);
        let r = (value - 1) % (alignment as int);
        assert(value - 1 == alignment * q + r) by (nonlinear_arith)
            requires
                q == (value - 1) / (alignment as int),
                r == (value - 1) % (alignment as int),
                alignment >= 1,
        ;
        assert(0 <= r < alignment) by (nonlinear_arith)
            requires
                r == (value - 1) % (alignment as int),
                alignment >= 1,
        ;
        assert(alignment * (1 + q) == alignment * q + alignment) by (nonlinear_arith);
        assert((alignment * (1 + q)) % (alignment as int) == 0) by (nonlinear_arith)
            requires
                alignment >= 1,
        ;
    }
    alignment * blocks
}

/// Data storage in a GPU-accessible location.
#[derive(Clone, Copy, Debug, PartialEq, Eq, Structural)]
pub struct UnsafeBuffer {
    handle: u64,
    device: u64,
    key: u64,
    size: DeviceSize,
    usage: BufferUsage,
    external_memory_handle_types: ExternalMemoryHandleTypes,
}

impl UnsafeBuffer {
    /// The key of the buffer.
    pub closed spec fn key_spec(&self) -> u64 {
        self.key
    }

    /// The driver's handle of the buffer.
    pub closed spec fn handle_spec(&self) -> u64 {
        self.handle
    }

    /// The size of the buffer in bytes.
    pub closed spec fn size_spec(&self) -> DeviceSize {
        self.size
    }

    /// The usage the buffer was created with.
    pub closed spec fn usage_spec(&self) -> BufferUsage {
        self.usage
    }

    /// The device that the buffer belongs to.
    pub closed spec fn device_spec(&self) -> u64 {
        self.device
    }

    /// The external memory handle types that are supported with this buffer.
    pub closed spec fn external_memory_handle_types_spec(&self) -> ExternalMemoryHandleTypes {
        self.external_memory_handle_types
    }

    /// Prepares the creation of a buffer: where several queue families share
    /// it, their indices are put in order and each is kept once; then the
    /// parameters are held against the rules of `validate_new`. The
    /// parameters come back as they are to be handed to the driver.
    pub fn new(device: &Device, create_info: UnsafeBufferCreateInfo) -> (result: Result<
        UnsafeBufferCreateInfo,
        BufferCreationError,
    >)
        requires
            buffer_askable(&create_info),
        ensures
            exists|info: UnsafeBufferCreateInfo| #[trigger]
                normalized(create_info, info) && match buffer_refusal(device, &info) {
                    None => result matches Ok(out) && out == info,
                    Some(refusal) => result matches Err(err) && refusal.reported_by(err),
                },
    {
        let UnsafeBufferCreateInfo { sharing, size, sparse, usage, external_memory_handle_types } =
            create_info;
        let sharing = match sharing {
            Sharing::Exclusive => Sharing::Exclusive,
            Sharing::Concurrent(mut queue_family_indices) => {
                queue_family_indices.sort_and_dedup();
                proof {
                    let after = queue_family_indices@;
                    assert(after.len() >= 2);
                    assert(after[0] < after[1]);
                }
                Sharing::Concurrent(queue_family_indices)
            },
        };
        let info = UnsafeBufferCreateInfo {
            sharing,
            size,
            sparse,
            usage,
            external_memory_handle_types,
        };
        assert(normalized(create_info, info));
        match UnsafeBuffer::validate_new(device, &info) {
            Ok(_) => Ok(info),
            Err(err) => Err(err),
        }
    }

    /// Holds the parameters of a buffer against the rules of the device, in
    /// this order: the uses; the features for sparse binding; the queue
    /// families that share the buffer; the largest size; the handles to
    /// outside memory.
    #[verifier::loop_isolation(false)]
    pub fn validate_new(device: &Device, create_info: &UnsafeBufferCreateInfo) -> (result: Result<
        (),
        BufferCreationError,
    >)
        requires
            buffer_askable(create_info),
        ensures
            match buffer_refusal(device, create_info) {
                None => result is Ok,
                Some(refusal) => result matches Err(err) && refusal.reported_by(err),
            },
    {
        let none: &'static [&'static str] = &[];
        proof {
            assert(names(none) =~= Seq::<Seq<char>>::empty());
        }
        match create_info.usage.validate_device(device) {
            Ok(_) => {},
            Err(err) => {
                return Err(BufferCreationError::from_requirement(err));
            },
        }
        match create_info.sparse {
            Some(sparse_level) => {
                if !device.enabled_features.sparse_binding {
                    let features: &'static [&'static str] = &["sparse_binding"];
                    assert(names(features) =~= seq!["sparse_binding"@]);
                    return Err(
                        BufferCreationError::from_requirement(
                            RequirementNotMet::new(
                                "`create_info.sparse` is `Some`",
                                None,
                                features,
                                none,
                            ),
                        ),
                    );
                }
                if sparse_level.sparse_residency && !device.enabled_features.sparse_residency_buffer {
                    let features: &'static [&'static str] = &["sparse_residency_buffer"];
                    assert(names(features) =~= seq!["sparse_residency_buffer"@]);
                    return Err(
                        BufferCreationError::from_requirement(
                            RequirementNotMet::new(
                                "`create_info.sparse` is `Some(sparse_level)`, where `sparse_level.sparse_residency` is set",
                                None,
                                features,
                                none,
                            ),
                        ),
                    );
                }
                if sparse_level.sparse_aliased && !device.enabled_features.sparse_residency_aliased {
                    let features: &'static [&'static str] = &["sparse_residency_aliased"];
                    assert(names(features) =~= seq!["sparse_residency_aliased"@]);
                    return Err(
                        BufferCreationError::from_requirement(
                            RequirementNotMet::new(
                                "`create_info.sparse` is `Some(sparse_level)`, where `sparse_level.sparse_aliased` is set",
                                None,
                                features,
                                none,
                            ),
                        ),
                    );
                }
            },
            None => {},
        }
        match &create_info.sharing {
            Sharing::Exclusive => {},
            Sharing::Concurrent(queue_family_indices) => {
                let queue_family_count = device.physical_device.queue_family_count;
                let n = queue_family_indices.len();
                let ghost indices = queue_family_indices@;
                let ghost beyond = |index: u32| index >= queue_family_count;
                let mut i: usize = 0;
                while i < n
                    invariant
                        indices == queue_family_indices@,
                        n == indices.len(),
                        i <= n,
                        queue_family_count == device.physical_device.queue_family_count,
                        beyond == (|index: u32| index >= queue_family_count),
                        forall|k: int| 0 <= k < i ==> !beyond(#[trigger] indices[k]),
                    decreases n - i,
                {
                    let queue_family_index = queue_family_indices.at(i);
                    if queue_family_index >= queue_family_count {
                        proof {
                            lemma_first_conflict_is(indices, 0, n as int, beyond, i as int);
                        }
                        return Err(
                            BufferCreationError::SharingQueueFamilyIndexOutOfRange {
                                queue_family_index,
                                queue_family_count,
                            },
                        );
                    }
                    i += 1;
                }
                proof {
                    lemma_first_conflict_none(indices, 0, n as int, beyond);
                }
            },
        }
        match device.physical_device.properties.max_buffer_size {
            Some(max_buffer_size) => {
                if create_info.size > max_buffer_size {
                    return Err(
                        BufferCreationError::MaxBufferSizeExceeded {
                            size: create_info.size,
                            max: max_buffer_size,
                        },
                    );
                }
            },
            None => {},
        }
        if !create_info.external_memory_handle_types.is_empty() {
            if !(device.api_version.at_least(Version::v1_1())
                || device.enabled_extensions.khr_external_memory) {
                let extensions: &'static [&'static str] = &["khr_external_memory"];
                assert(names(extensions) =~= seq!["khr_external_memory"@]);
                return Err(
                    BufferCreationError::from_requirement(
                        RequirementNotMet::new(
                            "`create_info.external_memory_handle_types` is not empty",
                            Some(Version::v1_1()),
                            none,
                            extensions,
                        ),
                    ),
                );
            }
            match create_info.external_memory_handle_types.validate_device(device) {
                Ok(_) => {},
                Err(err) => {
                    return Err(BufferCreationError::from_requirement(err));
                },
            }
        }
        Ok(())
    }

    /// Creates a new `UnsafeBuffer` from a raw object handle. `key` is the key of the buffer's
    /// state in the tracker.
    pub fn from_handle(device: &Device, handle: u64, create_info: UnsafeBufferCreateInfo, key: u64) -> (buffer:
        UnsafeBuffer)
        ensures
            buffer.handle_spec() == handle,
            buffer.device_spec() == device.handle,
            buffer.key_spec() == key,
            buffer.size_spec() == create_info.size,
            buffer.usage_spec() == create_info.usage,
            buffer.external_memory_handle_types_spec() == create_info.external_memory_handle_types,
    {
        UnsafeBuffer {
            handle,
            device: device.handle,
            key,
            size: create_info.size,
            usage: create_info.usage,
            external_memory_handle_types: create_info.external_memory_handle_types,
        }
    }

    /// The alignment that memory for the buffer must have: what the driver
    /// asks for, made a multiple of the alignment that each use of the buffer
    /// asks for, texel buffers first, then storage buffers, then uniform
    /// buffers.
    pub open spec fn required_alignment(usage: BufferUsage, device: &Device, alignment: DeviceSize) -> int {
        let properties = device.physical_device.properties;
        let a1 = if usage.uniform_texel_buffer || usage.storage_texel_buffer {
            align_spec(alignment, properties.min_texel_buffer_offset_alignment)
        } else {
            alignment as int
        };
        let a2 = if usage.storage_buffer {
            align_spec(a1 as u64, properties.min_storage_buffer_offset_alignment)
        } else {
            a1
        };
        if usage.uniform_buffer {
            align_spec(a2 as u64, properties.min_uniform_buffer_offset_alignment)
        } else {
            a2
        }
    }

    /// Whether the alignments that the uses of the buffer ask for can be
    /// worked into what the driver asks for.
    pub open spec fn alignable(usage: BufferUsage, device: &Device, alignment: DeviceSize) -> bool {
        let properties = device.physical_device.properties;
        let a1 = if usage.uniform_texel_buffer || usage.storage_texel_buffer {
            align_spec(alignment, properties.min_texel_buffer_offset_alignment)
        } else {
            alignment as int
        };
        let a2 = if usage.storage_buffer {
            align_spec(a1 as u64, properties.min_storage_buffer_offset_alignment)
        } else {
            a1
        };
        &&& alignment >= 1
        &&& properties.min_texel_buffer_offset_alignment >= 1
        &&& properties.min_storage_buffer_offset_alignment >= 1
        &&& properties.min_uniform_buffer_offset_alignment >= 1
        &&& a1 <= u64::MAX
        &&& a2 <= u64::MAX
        &&& UnsafeBuffer::required_alignment(usage, device, alignment) <= u64::MAX
    }

    /// Returns the memory requirements for this buffer: those that the driver reports, with
    /// the alignment that the uses of the buffer ask for. `prefers_dedicated` is what the driver
    /// says of a dedicated allocation, where it was asked.
    pub fn memory_requirements(
        &self,
        device: &Device,
        reported: MemoryRequirements,
        prefers_dedicated: Option<bool>,
    ) -> (requirements: MemoryRequirements)
        requires
            UnsafeBuffer::alignable(self.usage_spec(), device, reported.alignment),
        ensures
            requirements.size == reported.size,
            requirements.memory_type_bits == reported.memory_type_bits,
            requirements.prefer_dedicated == (prefers_dedicated == Some(true)),
            requirements.alignment == UnsafeBuffer::required_alignment(
                self.usage_spec(),
                device,
                reported.alignment,
            ),
    {
        let properties = &device.physical_device.properties;
        let mut alignment = reported.alignment;
        if self.usage.uniform_texel_buffer || self.usage.storage_texel_buffer {
            alignment = align(alignment, properties.min_texel_buffer_offset_alignment);
        }
        if self.usage.storage_buffer {
            alignment = align(alignment, properties.min_storage_buffer_offset_alignment);
        }
        if self.usage.uniform_buffer {
            alignment = align(alignment, properties.min_uniform_buffer_offset_alignment);
        }
        MemoryRequirements {
            size: reported.size,
            alignment,
            memory_type_bits: reported.memory_type_bits,
            prefer_dedicated: match prefers_dedicated {
                Some(prefers) => prefers,
                None => false,
            },
        }
    }

    /// Whether a place in a block of memory is one that the buffer can be
    /// bound to: the block is of a type that the driver names for the
    /// buffer, what the buffer needs fits behind the offset, and the offset
    /// is aligned as the driver and the uses of the buffer ask.
    pub open spec fn binding_fits_spec(
        &self,
        device: &Device,
        reported: MemoryRequirements,
        memory: &DeviceMemory,
        offset: DeviceSize,
    ) -> bool {
        let properties = device.physical_device.properties;
        let usage = self.usage_spec();
        &&& offset <= memory.allocation_size
        &&& reported.size <= memory.allocation_size - offset
        &&& reported.alignment != 0 && offset % reported.alignment == 0
        &&& memory.memory_type_index < 32
        &&& reported.memory_type_bits & (1u32 << memory.memory_type_index) != 0
        &&& (usage.uniform_texel_buffer || usage.storage_texel_buffer ==> {
            &&& properties.min_texel_buffer_offset_alignment != 0
            &&& offset % properties.min_texel_buffer_offset_alignment == 0
        })
        &&& (usage.storage_buffer ==> {
            &&& properties.min_storage_buffer_offset_alignment != 0
            &&& offset % properties.min_storage_buffer_offset_alignment == 0
        })
        &&& (usage.uniform_buffer ==> {
            &&& properties.min_uniform_buffer_offset_alignment != 0
            &&& offset % properties.min_uniform_buffer_offset_alignment == 0
        })
    }

    /// Whether a place in a block of memory is one that the buffer can be
    /// bound to.
    pub fn binding_fits(
        &self,
        device: &Device,
        reported: &MemoryRequirements,
        memory: &DeviceMemory,
        offset: DeviceSize,
    ) -> (r: bool)
        ensures
            r == self.binding_fits_spec(device, *reported, memory, offset),
    {
        let properties = &device.physical_device.properties;
        if offset > memory.allocation_size || reported.size > memory.allocation_size - offset {
            return false;
        }
        if reported.alignment == 0 || offset % reported.alignment != 0 {
            return false;
        }
        if memory.memory_type_index >= 32 || reported.memory_type_bits & (1u32
            << memory.memory_type_index) == 0 {
            return false;
        }
        if self.usage.uniform_texel_buffer || self.usage.storage_texel_buffer {
            if properties.min_texel_buffer_offset_alignment == 0 || offset
                % properties.min_texel_buffer_offset_alignment != 0 {
                return false;
            }
        }
        if self.usage.storage_buffer {
            if properties.min_storage_buffer_offset_alignment == 0 || offset
                % properties.min_storage_buffer_offset_alignment != 0 {
                return false;
            }
        }
        if self.usage.uniform_buffer {
            if properties.min_uniform_buffer_offset_alignment == 0 || offset
                % properties.min_uniform_buffer_offset_alignment != 0 {
                return false;
            }
        }
        true
    }

    /// Whether memory may be bound to the buffer: a buffer whose address can
    /// be asked for needs memory allocated for that, unless the device has
    /// the older extension for buffer addresses.
    pub open spec fn bindable(&self, device: &Device, memory: &DeviceMemory) -> bool {
        self.usage_spec().shader_device_address
            && !device.enabled_extensions.ext_buffer_device_address ==> memory.flags.device_address
    }

    /// Whether memory may be bound to the buffer.
    pub fn can_bind_memory(&self, device: &Device, memory: &DeviceMemory) -> (r: bool)
        ensures
            r == self.bindable(device, memory),
    {
        !(self.usage.shader_device_address && !device.enabled_extensions.ext_buffer_device_address)
            || memory.flags.device_address
    }

    /// Takes note of what the driver answered when memory was bound to the
    /// buffer.
    pub fn bind_memory(
        &self,
        device: &Device,
        memory: &DeviceMemory,
        offset: DeviceSize,
        outcome: Result<(), VulkanError>,
    ) -> (result: Result<(), OomError>)
        requires
            self.bindable(device, memory),
            outcome matches Err(err) ==> OomError::convertible(err),
        ensures
            result == match outcome {
                Ok(_) => Ok::<(), OomError>(()),
                Err(err) => Err::<(), OomError>(OomError::from_vulkan_error_spec(err)),
            },
    {
        match outcome {
            Ok(_) => Ok(()),
            Err(err) => Err(OomError::from_vulkan_error(err)),
        }
    }

    /// Returns the size of the buffer in bytes.
    pub fn size(&self) -> (size: DeviceSize)
        ensures
            size == self.size_spec(),
    {
        self.size
    }

    /// Returns the usage the buffer was created with.
    pub fn usage(&self) -> (usage: &BufferUsage)
        ensures
            *usage == self.usage_spec(),
    {
        &self.usage
    }

    /// Returns the external memory handle types that are supported with this buffer.
    pub fn external_memory_handle_types(&self) -> (types: ExternalMemoryHandleTypes)
        ensures
            types == self.external_memory_handle_types_spec(),
    {
        self.external_memory_handle_types
    }

    /// Returns a key unique to each `UnsafeBuffer`: the key of its state in
    /// the tracker.
    pub fn key(&self) -> (key: u64)
        ensures
            key == self.key_spec(),
    {
        self.key
    }

    /// The driver's handle of the buffer.
    pub fn internal_object(&self) -> (handle: u64)
        ensures
            handle == self.handle_spec(),
    {
        self.handle
    }

    /// The device that the buffer belongs to.
    pub fn device(&self) -> (device: u64)
        ensures
            device == self.device_spec(),
    {
        self.device
    }
}

/// The current state of a specific range of bytes in a buffer.
#[derive(Clone, Copy, Debug, PartialEq, Eq)]
struct BufferRangeState {
    current_access: CurrentAccess,
}

/// The current state of a buffer.
#[derive(Debug)]
pub struct BufferState {
    ranges: RangeMap<BufferRangeState>,
}

impl View for BufferState {
    type V = Seq<CurrentAccess>;

    /// The accesses under way on each byte of the buffer.
    closed spec fn view(&self) -> Seq<CurrentAccess> {
        Seq::new(self.ranges@.len(), |p: int| self.ranges@[p].current_access)
    }
}

/// What a host read of the bytes `start..end` is answered: the conflict of
/// the first byte that has one.
pub open spec fn check_cpu_read_spec(s: Seq<CurrentAccess>, start: int, end: int) -> Result<
    (),
    ReadLockError,
> {
    match first_conflict(s, start, end, |a: CurrentAccess| a.cpu_read_conflict() is Some) {
        None => Ok(()),
        Some(p) => Err(s[p].cpu_read_conflict().unwrap()),
    }
}

/// What a host write of the bytes `start..end` is answered: the conflict of
/// the first byte that has one.
pub open spec fn check_cpu_write_spec(s: Seq<CurrentAccess>, start: int, end: int) -> Result<
    (),
    WriteLockError,
> {
    match first_conflict(s, start, end, |a: CurrentAccess| a.cpu_write_conflict() is Some) {
        None => Ok(()),
        Some(p) => Err(s[p].cpu_write_conflict().unwrap()),
    }
}

/// What a device read of the bytes `start..end` is answered: it is refused
/// where the host writes one of them.
pub open spec fn check_gpu_read_spec(s: Seq<CurrentAccess>, start: int, end: int) -> Result<
    (),
    AccessError,
> {
    match first_conflict(s, start, end, |a: CurrentAccess| a.gpu_read_conflict()) {
        None => Ok(()),
        Some(_) => Err(AccessError::AlreadyInUse),
    }
}

/// What a device write of the bytes `start..end` is answered: it is refused
/// where one of them is read or written by anything.
pub open spec fn check_gpu_write_spec(s: Seq<CurrentAccess>, start: int, end: int) -> Result<
    (),
    AccessError,
> {
    match first_conflict(s, start, end, |a: CurrentAccess| a.gpu_write_conflict()) {
        None => Ok(()),
        Some(_) => Err(AccessError::AlreadyInUse),
    }
}

impl BufferState {
    /// The state of a buffer of `size` bytes that nothing accesses.
    pub fn new(size: DeviceSize) -> (state: Self)
        ensures
            state@ == Seq::new(size as nat, |p: int| CurrentAccess::idle()),
    {
        let state = BufferState {
            ranges: RangeMap::new(
                size,
                BufferRangeState {
                    current_access: CurrentAccess::Shared { cpu_reads: 0, gpu_reads: 0 },
                },
            ),
        };
        assert(state@ =~= Seq::new(size as nat, |p: int| CurrentAccess::idle()));
        state
    }

    /// The size of the buffer in bytes.
    pub fn size(&self) -> (size: DeviceSize)
        ensures
            size == self@.len(),
    {
        self.ranges.size()
    }

    /// The accesses under way on the byte at `offset`.
    pub fn current_access(&self, offset: DeviceSize) -> (access: Option<CurrentAccess>)
        ensures
            access == if offset < self@.len() {
                Some(self@[offset as int])
            } else {
                None
            },
    {
        match self.ranges.get(offset) {
            Some(state) => Some(state.current_access),
            None => None,
        }
    }

    /// The state of the first byte of `range` that `conflicts` accepts.
    fn first_conflicting<F: Fn(BufferRangeState) -> bool>(
        &self,
        range: &Range<DeviceSize>,
        conflicts: F,
        Ghost(conflict): Ghost<spec_fn(CurrentAccess) -> bool>,
    ) -> (hit: Option<CurrentAccess>)
        requires
            forall|state: BufferRangeState| call_requires(conflicts, (state,)),
            forall|state: BufferRangeState, found: bool|
                call_ensures(conflicts, (state,), found) ==> found == conflict(
                    state.current_access,
                ),
        ensures
            match hit {
                None => first_conflict(self@, range.start as int, range.end as int, conflict)
                    is None,
                Some(access) => first_conflict(
                    self@,
                    range.start as int,
                    range.end as int,
                    conflict,
                ) matches Some(p) && self@[p] == access && conflict(access),
            },
    {
        let hit = self.ranges.first_match(range.start, range.end, conflicts);
        match hit {
            None => {
                proof {
                    assert forall|p: int|
                        range.start <= p < range.end && 0 <= p < self@.len() implies !conflict(
                        #[trigger] self@[p],
                    ) by {
                        let _ = self.ranges@[p];
                    }
                    lemma_first_conflict_none(
                        self@,
                        range.start as int,
                        range.end as int,
                        conflict,
                    );
                }
                None
            },
            Some((at, state)) => {
                proof {
                    assert forall|q: int| range.start <= q < at && 0 <= q implies !conflict(
                        #[trigger] self@[q],
                    ) by {
                        let _ = self.ranges@[q];
                    }
                    lemma_first_conflict_is(
                        self@,
                        range.start as int,
                        range.end as int,
                        conflict,
                        at as int,
                    );
                }
                Some(state.current_access)
            },
        }
    }

    /// Replaces the state of each byte of `range` by what `change` makes of
    /// it.
    fn transition<F: Fn(BufferRangeState) -> BufferRangeState>(
        &mut self,
        range: &Range<DeviceSize>,
        change: F,
        Ghost(allowed): Ghost<spec_fn(CurrentAccess) -> bool>,
        Ghost(next): Ghost<spec_fn(CurrentAccess) -> CurrentAccess>,
    )
        requires
            forall|p: int|
                range.start <= p < range.end && 0 <= p < old(self)@.len() ==> allowed(
                    #[trigger] old(self)@[p],
                ),
            forall|state: BufferRangeState|
                allowed(state.current_access) ==> call_requires(change, (state,)),
            forall|state: BufferRangeState, out: BufferRangeState|
                allowed(state.current_access) && call_ensures(change, (state,), out)
                    ==> out.current_access == next(state.current_access),
        ensures
            final(self)@ == Seq::new(
                old(self)@.len(),
                |p: int|
                    if range.start <= p < range.end {
                        next(old(self)@[p])
                    } else {
                        old(self)@[p]
                    },
            ),
    {
        proof {
            assert forall|p: int|
                range.start <= p < range.end && p < self.ranges@.len() implies call_requires(
                change,
                (#[trigger] self.ranges@[p],),
            ) by {
                assert(allowed(self@[p]));
            }
        }
        self.ranges.update_range(range.start, range.end, change);
        proof {
            let after = self@;
            let expected = Seq::new(
                old(self)@.len(),
                |p: int|
                    if range.start <= p < range.end {
                        next(old(self)@[p])
                    } else {
                        old(self)@[p]
                    },
            );
            assert forall|p: int| 0 <= p < after.len() implies after[p] == expected[p] by {
                let _ = self.ranges@[p];
                if range.start <= p < range.end {
                    assert(allowed(old(self)@[p]));
                }
            }
            assert(after =~= expected);
        }
    }

    /// Whether a lock of the given kind may be taken on each byte of `range`.
    pub fn can_lock(&self, range: Range<DeviceSize>, kind: LockKind) -> (r: bool)
        ensures
            r == lockable_range(self@, kind, range.start as int, range.end as int),
    {
        let refuses = |state: BufferRangeState| -> (found: bool)
            ensures
                found == !state.current_access.lockable(kind),
            {
                match kind {
                    LockKind::CpuRead => match state.current_access {
                        CurrentAccess::Shared { cpu_reads, .. } => cpu_reads == u32::MAX,
                        _ => true,
                    },
                    LockKind::CpuWrite => match state.current_access {
                        CurrentAccess::Shared { cpu_reads, gpu_reads } => cpu_reads != 0
                            || gpu_reads != 0,
                        _ => true,
                    },
                    LockKind::GpuRead => match state.current_access {
                        CurrentAccess::CpuExclusive => true,
                        CurrentAccess::GpuExclusive { gpu_reads, .. } => gpu_reads == u32::MAX,
                        CurrentAccess::Shared { gpu_reads, .. } => gpu_reads == u32::MAX,
                    },
                    LockKind::GpuWrite => match state.current_access {
                        CurrentAccess::CpuExclusive => true,
                        CurrentAccess::GpuExclusive { gpu_writes, .. } => gpu_writes == u32::MAX,
                        CurrentAccess::Shared { cpu_reads, .. } => cpu_reads != 0,
                    },
                }
            };
        let ghost refused = |a: CurrentAccess| !a.lockable(kind);
        let hit = self.first_conflicting(&range, refuses, Ghost(refused));
        proof {
            if hit is None {
                assert forall|p: int|
                    range.start <= p < range.end && 0 <= p < self@.len() implies (
                #[trigger] self@[p]).lockable(kind) by {
                    if refused(self@[p]) {
                        lemma_first_conflict_exists(
                            self@,
                            range.start as int,
                            range.end as int,
                            refused,
                            p,
                        );
                    }
                }
            } else {
                let p = first_conflict(self@, range.start as int, range.end as int, refused)->0;
                assert(is_first_conflict(
                    self@,
                    range.start as int,
                    range.end as int,
                    refused,
                    p,
                ));
            }
        }
        hit.is_none()
    }

    /// Whether each byte of `range` holds a lock of the given kind.
    pub fn can_unlock(&self, range: Range<DeviceSize>, kind: LockKind) -> (r: bool)
        ensures
            r == unlockable_range(self@, kind, range.start as int, range.end as int),
    {
        let refuses = |state: BufferRangeState| -> (found: bool)
            ensures
                found == !state.current_access.unlockable(kind),
            {
                match kind {
                    LockKind::CpuRead => match state.current_access {
                        CurrentAccess::Shared { cpu_reads, .. } => cpu_reads == 0,
                        _ => true,
                    },
                    LockKind::CpuWrite => match state.current_access {
                        CurrentAccess::CpuExclusive => false,
                        _ => true,
                    },
                    LockKind::GpuRead => match state.current_access {
                        CurrentAccess::CpuExclusive => true,
                        CurrentAccess::GpuExclusive { gpu_reads, .. } => gpu_reads == 0,
                        CurrentAccess::Shared { gpu_reads, .. } => gpu_reads == 0,
                    },
                    LockKind::GpuWrite => match state.current_access {
                        CurrentAccess::GpuExclusive { gpu_writes, .. } => gpu_writes == 0,
                        _ => true,
                    },
                }
            };
        let ghost refused = |a: CurrentAccess| !a.unlockable(kind);
        let hit = self.first_conflicting(&range, refuses, Ghost(refused));
        proof {
            if hit is None {
                assert forall|p: int|
                    range.start <= p < range.end && 0 <= p < self@.len() implies (
                #[trigger] self@[p]).unlockable(kind) by {
                    if refused(self@[p]) {
                        lemma_first_conflict_exists(
                            self@,
                            range.start as int,
                            range.end as int,
                            refused,
                            p,
                        );
                    }
                }
            } else {
                let p = first_conflict(self@, range.start as int, range.end as int, refused)->0;
                assert(is_first_conflict(
                    self@,
                    range.start as int,
                    range.end as int,
                    refused,
                    p,
                ));
            }
        }
        hit.is_none()
    }

    /// Whether the host may read the bytes of `range`. It may not while the
    /// host or the device writes one of them.
    pub fn check_cpu_read(&self, range: Range<DeviceSize>) -> (result: Result<(), ReadLockError>)
        ensures
            result == check_cpu_read_spec(self@, range.start as int, range.end as int),
    {
        let conflicts = |state: BufferRangeState| -> (found: bool)
            ensures
                found == (state.current_access.cpu_read_conflict() is Some),
            {
                match state.current_access {
                    CurrentAccess::Shared { .. } => false,
                    _ => true,
                }
            };
        let hit = self.first_conflicting(
            &range,
            conflicts,
            Ghost(|a: CurrentAccess| a.cpu_read_conflict() is Some),
        );
        match hit {
            Some(CurrentAccess::CpuExclusive) => Err(ReadLockError::CpuWriteLocked),
            Some(CurrentAccess::GpuExclusive { .. }) => Err(ReadLockError::GpuWriteLocked),
            _ => Ok(()),
        }
    }

    /// Counts one more host read on each byte of `range`.
    pub fn cpu_read_lock(&mut self, range: Range<DeviceSize>)
        requires
            lockable_range(old(self)@, LockKind::CpuRead, range.start as int, range.end as int),
        ensures
            final(self)@ == locked_range(
                old(self)@,
                LockKind::CpuRead,
                range.start as int,
                range.end as int,
            ),
    {
        let change = |state: BufferRangeState| -> (out: BufferRangeState)
            requires
                state.current_access.lockable(LockKind::CpuRead),
            ensures
                out.current_access == state.current_access.locked(LockKind::CpuRead),
            {
                match state.current_access {
                    CurrentAccess::Shared { cpu_reads, gpu_reads } => BufferRangeState {
                        current_access: CurrentAccess::Shared {
                            cpu_reads: cpu_reads + 1,
                            gpu_reads,
                        },
                    },
                    _ => state,
                }
            };
        self.transition(
            &range,
            change,
            Ghost(|a: CurrentAccess| a.lockable(LockKind::CpuRead)),
            Ghost(|a: CurrentAccess| a.locked(LockKind::CpuRead)),
        );
        assert(self@ =~= locked_range(
            old(self)@,
            LockKind::CpuRead,
            range.start as int,
            range.end as int,
        ));
    }

    /// Counts one host read less on each byte of `range`.
    pub fn cpu_read_unlock(&mut self, range: Range<DeviceSize>)
        requires
            unlockable_range(old(self)@, LockKind::CpuRead, range.start as int, range.end as int),
        ensures
            final(self)@ == unlocked_range(
                old(self)@,
                LockKind::CpuRead,
                range.start as int,
                range.end as int,
            ),
    {
        let change = |state: BufferRangeState| -> (out: BufferRangeState)
            requires
                state.current_access.unlockable(LockKind::CpuRead),
            ensures
                out.current_access == state.current_access.unlocked(LockKind::CpuRead),
            {
                match state.current_access {
                    CurrentAccess::Shared { cpu_reads, gpu_reads } => BufferRangeState {
                        current_access: CurrentAccess::Shared {
                            cpu_reads: cpu_reads - 1,
                            gpu_reads,
                        },
                    },
                    _ => state,
                }
            };
        self.transition(
            &range,
            change,
            Ghost(|a: CurrentAccess| a.unlockable(LockKind::CpuRead)),
            Ghost(|a: CurrentAccess| a.unlocked(LockKind::CpuRead)),
        );
        assert(self@ =~= unlocked_range(
            old(self)@,
            LockKind::CpuRead,
            range.start as int,
            range.end as int,
        ));
    }

    /// Whether the host may write the bytes of `range`. It may not while
    /// anything accesses one of them.
    pub fn check_cpu_write(&self, range: Range<DeviceSize>) -> (result: Result<
        (),
        WriteLockError,
    >)
        ensures
            result == check_cpu_write_spec(self@, range.start as int, range.end as int),
    {
        let conflicts = |state: BufferRangeState| -> (found: bool)
            ensures
                found == (state.current_access.cpu_write_conflict() is Some),
            {
                match state.current_access {
                    CurrentAccess::Shared { cpu_reads, gpu_reads } => cpu_reads != 0 || gpu_reads
                        != 0,
                    _ => true,
                }
            };
        let hit = self.first_conflicting(
            &range,
            conflicts,
            Ghost(|a: CurrentAccess| a.cpu_write_conflict() is Some),
        );
        match hit {
            None => Ok(()),
            Some(CurrentAccess::CpuExclusive) => Err(WriteLockError::CpuLocked),
            Some(CurrentAccess::GpuExclusive { .. }) => Err(WriteLockError::GpuLocked),
            Some(CurrentAccess::Shared { cpu_reads, .. }) => if cpu_reads > 0 {
                Err(WriteLockError::CpuLocked)
            } else {
                Err(WriteLockError::GpuLocked)
            },
        }
    }

    /// Gives each byte of `range` to the host alone.
    pub fn cpu_write_lock(&mut self, range: Range<DeviceSize>)
        requires
            lockable_range(old(self)@, LockKind::CpuWrite, range.start as int, range.end as int),
        ensures
            final(self)@ == locked_range(
                old(self)@,
                LockKind::CpuWrite,
                range.start as int,
                range.end as int,
            ),
    {
        let change = |state: BufferRangeState| -> (out: BufferRangeState)
            ensures
                out.current_access == state.current_access.locked(LockKind::CpuWrite),
            { BufferRangeState { current_access: CurrentAccess::CpuExclusive } };
        self.transition(
            &range,
            change,
            Ghost(|a: CurrentAccess| a.lockable(LockKind::CpuWrite)),
            Ghost(|a: CurrentAccess| a.locked(LockKind::CpuWrite)),
        );
        assert(self@ =~= locked_range(
            old(self)@,
            LockKind::CpuWrite,
            range.start as int,
            range.end as int,
        ));
    }

    /// Takes each byte of `range` back from the host: nothing accesses it any
    /// more.
    pub fn cpu_write_unlock(&mut self, range: Range<DeviceSize>)
        requires
            unlockable_range(
                old(self)@,
                LockKind::CpuWrite,
                range.start as int,
                range.end as int,
            ),
        ensures
            final(self)@ == unlocked_range(
                old(self)@,
                LockKind::CpuWrite,
                range.start as int,
                range.end as int,
            ),
    {
        let change = |state: BufferRangeState| -> (out: BufferRangeState)
            ensures
                out.current_access == state.current_access.unlocked(LockKind::CpuWrite),
            {
                BufferRangeState {
                    current_access: CurrentAccess::Shared { cpu_reads: 0, gpu_reads: 0 },
                }
            };
        self.transition(
            &range,
            change,
            Ghost(|a: CurrentAccess| a.unlockable(LockKind::CpuWrite)),
            Ghost(|a: CurrentAccess| a.unlocked(LockKind::CpuWrite)),
        );
        assert(self@ =~= unlocked_range(
            old(self)@,
            LockKind::CpuWrite,
            range.start as int,
            range.end as int,
        ));
    }

    /// Whether the state of the buffer lets the device read the bytes of
    /// `range`: the host writes none of them.
    pub fn check_gpu_read(&self, range: Range<DeviceSize>) -> (result: Result<(), AccessError>)
        ensures
            result == check_gpu_read_spec(self@, range.start as int, range.end as int),
    {
        let conflicts = |state: BufferRangeState| -> (found: bool)
            ensures
                found == state.current_access.gpu_read_conflict(),
            {
                match state.current_access {
                    CurrentAccess::CpuExclusive => true,
                    _ => false,
                }
            };
        let hit = self.first_conflicting(
            &range,
            conflicts,
            Ghost(|a: CurrentAccess| a.gpu_read_conflict()),
        );
        match hit {
            None => Ok(()),
            Some(_) => Err(AccessError::AlreadyInUse),
        }
    }

    /// Counts one more device read on each byte of `range`.
    pub fn gpu_read_lock(&mut self, range: Range<DeviceSize>)
        requires
            lockable_range(old(self)@, LockKind::GpuRead, range.start as int, range.end as int),
        ensures
            final(self)@ == locked_range(
                old(self)@,
                LockKind::GpuRead,
                range.start as int,
                range.end as int,
            ),
    {
        let change = |state: BufferRangeState| -> (out: BufferRangeState)
            requires
                state.current_access.lockable(LockKind::GpuRead),
            ensures
                out.current_access == state.current_access.locked(LockKind::GpuRead),
            {
                match state.current_access {
                    CurrentAccess::GpuExclusive { gpu_reads, gpu_writes } => BufferRangeState {
                        current_access: CurrentAccess::GpuExclusive {
                            gpu_reads: gpu_reads + 1,
                            gpu_writes,
                        },
                    },
                    CurrentAccess::Shared { cpu_reads, gpu_reads } => BufferRangeState {
                        current_access: CurrentAccess::Shared {
                            cpu_reads,
                            gpu_reads: gpu_reads + 1,
                        },
                    },
                    CurrentAccess::CpuExclusive => state,
                }
            };
        self.transition(
            &range,
            change,
            Ghost(|a: CurrentAccess| a.lockable(LockKind::GpuRead)),
            Ghost(|a: CurrentAccess| a.locked(LockKind::GpuRead)),
        );
        assert(self@ =~= locked_range(
            old(self)@,
            LockKind::GpuRead,
            range.start as int,
            range.end as int,
        ));
    }

    /// Counts one device read less on each byte of `range`.
    pub fn gpu_read_unlock(&mut self, range: Range<DeviceSize>)
        requires
            unlockable_range(old(self)@, LockKind::GpuRead, range.start as int, range.end as int),
        ensures
            final(self)@ == unlocked_range(
                old(self)@,
                LockKind::GpuRead,
                range.start as int,
                range.end as int,
            ),
    {
        let change = |state: BufferRangeState| -> (out: BufferRangeState)
            requires
                state.current_access.unlockable(LockKind::GpuRead),
            ensures
                out.current_access == state.current_access.unlocked(LockKind::GpuRead),
            {
                match state.current_access {
                    CurrentAccess::GpuExclusive { gpu_reads, gpu_writes } => BufferRangeState {
                        current_access: CurrentAccess::GpuExclusive {
                            gpu_reads: gpu_reads - 1,
                            gpu_writes,
                        },
                    },
                    CurrentAccess::Shared { cpu_reads, gpu_reads } => BufferRangeState {
                        current_access: CurrentAccess::Shared {
                            cpu_reads,
                            gpu_reads: gpu_reads - 1,
                        },
                    },
                    CurrentAccess::CpuExclusive => state,
                }
            };
        self.transition(
            &range,
            change,
            Ghost(|a: CurrentAccess| a.unlockable(LockKind::GpuRead)),
            Ghost(|a: CurrentAccess| a.unlocked(LockKind::GpuRead)),
        );
        assert(self@ =~= unlocked_range(
            old(self)@,
            LockKind::GpuRead,
            range.start as int,
            range.end as int,
        ));
    }

    /// Whether the state of the buffer lets the device write the bytes of
    /// `range`: nothing accesses any of them.
    pub fn check_gpu_write(&self, range: Range<DeviceSize>) -> (result: Result<(), AccessError>)
        ensures
            result == check_gpu_write_spec(self@, range.start as int, range.end as int),
    {
        let conflicts = |state: BufferRangeState| -> (found: bool)
            ensures
                found == state.current_access.gpu_write_conflict(),
            {
                match state.current_access {
                    CurrentAccess::Shared { cpu_reads, gpu_reads } => cpu_reads != 0 || gpu_reads
                        != 0,
                    _ => true,
                }
            };
        let hit = self.first_conflicting(
            &range,
            conflicts,
            Ghost(|a: CurrentAccess| a.gpu_write_conflict()),
        );
        match hit {
            None => Ok(()),
            Some(_) => Err(AccessError::AlreadyInUse),
        }
    }

    /// Counts one more device write on each byte of `range`. A shared byte
    /// becomes the device's alone and keeps its count of device reads.
    pub fn gpu_write_lock(&mut self, range: Range<DeviceSize>)
        requires
            lockable_range(old(self)@, LockKind::GpuWrite, range.start as int, range.end as int),
        ensures
            final(self)@ == locked_range(
                old(self)@,
                LockKind::GpuWrite,
                range.start as int,
                range.end as int,
            ),
    {
        let change = |state: BufferRangeState| -> (out: BufferRangeState)
            requires
                state.current_access.lockable(LockKind::GpuWrite),
            ensures
                out.current_access == state.current_access.locked(LockKind::GpuWrite),
            {
                match state.current_access {
                    CurrentAccess::GpuExclusive { gpu_reads, gpu_writes } => BufferRangeState {
                        current_access: CurrentAccess::GpuExclusive {
                            gpu_reads,
                            gpu_writes: gpu_writes + 1,
                        },
                    },
                    CurrentAccess::Shared { gpu_reads, .. } => BufferRangeState {
                        current_access: CurrentAccess::GpuExclusive { gpu_reads, gpu_writes: 1 },
                    },
                    CurrentAccess::CpuExclusive => state,
                }
            };
        self.transition(
            &range,
            change,
            Ghost(|a: CurrentAccess| a.lockable(LockKind::GpuWrite)),
            Ghost(|a: CurrentAccess| a.locked(LockKind::GpuWrite)),
        );
        assert(self@ =~= locked_range(
            old(self)@,
            LockKind::GpuWrite,
            range.start as int,
            range.end as int,
        ));
    }

    /// Counts one device write less on each byte of `range`. When the last
    /// one ends, the byte is shared again, with the device reads that are
    /// still under way.
    pub fn gpu_write_unlock(&mut self, range: Range<DeviceSize>)
        requires
            unlockable_range(
                old(self)@,
                LockKind::GpuWrite,
                range.start as int,
                range.end as int,
            ),
        ensures
            final(self)@ == unlocked_range(
                old(self)@,
                LockKind::GpuWrite,
                range.start as int,
                range.end as int,
            ),
    {
        let change = |state: BufferRangeState| -> (out: BufferRangeState)
            requires
                state.current_access.unlockable(LockKind::GpuWrite),
            ensures
                out.current_access == state.current_access.unlocked(LockKind::GpuWrite),
            {
                match state.current_access {
                    CurrentAccess::GpuExclusive { gpu_reads, gpu_writes } => if gpu_writes == 1 {
                        BufferRangeState {
                            current_access: CurrentAccess::Shared { cpu_reads: 0, gpu_reads },
                        }
                    } else {
                        BufferRangeState {
                            current_access: CurrentAccess::GpuExclusive {
                                gpu_reads,
                                gpu_writes: gpu_writes - 1,
                            },
                        }
                    },
                    _ => state,
                }
            };
        self.transition(
            &range,
            change,
            Ghost(|a: CurrentAccess| a.unlockable(LockKind::GpuWrite)),
            Ghost(|a: CurrentAccess| a.unlocked(LockKind::GpuWrite)),
        );
        assert(self@ =~= unlocked_range(
            old(self)@,
            LockKind::GpuWrite,
            range.start as int,
            range.end as int,
        ));
    }
}

/// The lowest offset that two ranges starting at `a` and at `b` can share.
pub open spec fn first_shared(a: int, b: int) -> int {
    if a <= b {
        if b <= 0 {
            0
        } else {
            b
        }
    } else if a <= 0 {
        0
    } else {
        a
    }
}

/// While the host holds a write lock on a range, a host write of a range
/// that shares a byte of the buffer with it is refused.
pub proof fn lemma_cpu_write_lock_refuses_cpu_write(
    s: Seq<CurrentAccess>,
    locked_start: int,
    locked_end: int,
    start: int,
    end: int,
)
    requires
        first_shared(locked_start, start) < locked_end,
        first_shared(locked_start, start) < end,
        first_shared(locked_start, start) < s.len(),
    ensures
        check_cpu_write_spec(
            locked_range(s, LockKind::CpuWrite, locked_start, locked_end),
            start,
            end,
        ) is Err,
{
    let p = first_shared(locked_start, start);
    let t = locked_range(s, LockKind::CpuWrite, locked_start, locked_end);
    let conflict = |a: CurrentAccess| a.cpu_write_conflict() is Some;
    assert(t[p] == CurrentAccess::CpuExclusive);
    lemma_first_conflict_exists(t, start, end, conflict, p);
}

/// While the host holds a write lock on a range, a host write of a range
/// that shares a byte of the buffer with it is refused as locked by the host,
/// unless a byte of the asked range below the first shared one is in use by
/// the device and no byte below that one by the host: then the device is
/// named.
pub proof fn lemma_cpu_write_lock_blocks_cpu_write(
    s: Seq<CurrentAccess>,
    locked_start: int,
    locked_end: int,
    start: int,
    end: int,
)
    requires
        first_shared(locked_start, start) < locked_end,
        first_shared(locked_start, start) < end,
        first_shared(locked_start, start) < s.len(),
        check_cpu_write_spec(s, start, first_shared(locked_start, start)) != Err::<
            (),
            WriteLockError,
        >(WriteLockError::GpuLocked),
    ensures
        check_cpu_write_spec(
            locked_range(s, LockKind::CpuWrite, locked_start, locked_end),
            start,
            end,
        ) == Err::<(), WriteLockError>(WriteLockError::CpuLocked),
{
    let shared = first_shared(locked_start, start);
    let t = locked_range(s, LockKind::CpuWrite, locked_start, locked_end);
    let conflict = |a: CurrentAccess| a.cpu_write_conflict() is Some;
    assert(t[shared] == CurrentAccess::CpuExclusive);
    let first = lemma_first_conflict_exists(t, start, end, conflict, shared);
    if first < shared {
        assert(t[first] == s[first]);
        assert(is_first_conflict(s, start, shared, conflict, first)) by {
            assert forall|q: int| start <= q < first && 0 <= q implies !conflict(
                #[trigger] s[q],
            ) by {
                assert(t[q] == s[q]);
            }
        }
        lemma_first_conflict_is(s, start, shared, conflict, first);
    }
}

/// Ranges are independent: a lock taken or given back on one range changes
/// no answer and no lock on a range that shares no byte with it.
pub proof fn lemma_range_independence(
    s: Seq<CurrentAccess>,
    kind: LockKind,
    changed_start: int,
    changed_end: int,
    start: int,
    end: int,
)
    requires
        changed_end <= start || end <= changed_start || changed_start >= changed_end || start
            >= end,
    ensures
        ({
            let t = locked_range(s, kind, changed_start, changed_end);
            &&& check_cpu_read_spec(t, start, end) == check_cpu_read_spec(s, start, end)
            &&& check_cpu_write_spec(t, start, end) == check_cpu_write_spec(s, start, end)
            &&& check_gpu_read_spec(t, start, end) == check_gpu_read_spec(s, start, end)
            &&& check_gpu_write_spec(t, start, end) == check_gpu_write_spec(s, start, end)
            &&& forall|other: LockKind|
                lockable_range(t, other, start, end) == lockable_range(s, other, start, end)
            &&& forall|other: LockKind|
                unlockable_range(t, other, start, end) == unlockable_range(s, other, start, end)
            &&& forall|other: LockKind|
                locked_range(t, other, start, end) == locked_range(
                    locked_range(s, other, start, end),
                    kind,
                    changed_start,
                    changed_end,
                )
        }),
        ({
            let u = unlocked_range(s, kind, changed_start, changed_end);
            &&& check_cpu_read_spec(u, start, end) == check_cpu_read_spec(s, start, end)
            &&& check_cpu_write_spec(u, start, end) == check_cpu_write_spec(s, start, end)
            &&& check_gpu_read_spec(u, start, end) == check_gpu_read_spec(s, start, end)
            &&& check_gpu_write_spec(u, start, end) == check_gpu_write_spec(s, start, end)
            &&& forall|other: LockKind|
                lockable_range(u, other, start, end) == lockable_range(s, other, start, end)
            &&& forall|other: LockKind|
                unlockable_range(u, other, start, end) == unlockable_range(s, other, start, end)
        }),
{
    let t = locked_range(s, kind, changed_start, changed_end);
    let u = unlocked_range(s, kind, changed_start, changed_end);
    lemma_checks_local(s, t, start, end);
    lemma_checks_local(s, u, start, end);
    assert forall|other: LockKind|
        lockable_range(t, other, start, end) == lockable_range(s, other, start, end) by {
        lemma_locks_local(s, t, other, start, end);
    }
    assert forall|other: LockKind|
        unlockable_range(t, other, start, end) == unlockable_range(s, other, start, end) by {
        lemma_locks_local(s, t, other, start, end);
    }
    assert forall|other: LockKind|
        lockable_range(u, other, start, end) == lockable_range(s, other, start, end) by {
        lemma_locks_local(s, u, other, start, end);
    }
    assert forall|other: LockKind|
        unlockable_range(u, other, start, end) == unlockable_range(s, other, start, end) by {
        lemma_locks_local(s, u, other, start, end);
    }
    assert forall|other: LockKind|
        locked_range(t, other, start, end) == locked_range(
            locked_range(s, other, start, end),
            kind,
            changed_start,
            changed_end,
        ) by {
        assert(locked_range(t, other, start, end) =~= locked_range(
            locked_range(s, other, start, end),
            kind,
            changed_start,
            changed_end,
        ));
    }
}

/// The four answers about a range depend on the states of its bytes alone.
pub proof fn lemma_checks_local(s: Seq<CurrentAccess>, t: Seq<CurrentAccess>, start: int, end: int)
    requires
        s.len() == t.len(),
        forall|p: int| start <= p < end && 0 <= p < s.len() ==> #[trigger] s[p] == t[p],
    ensures
        check_cpu_read_spec(t, start, end) == check_cpu_read_spec(s, start, end),
        check_cpu_write_spec(t, start, end) == check_cpu_write_spec(s, start, end),
        check_gpu_read_spec(t, start, end) == check_gpu_read_spec(s, start, end),
        check_gpu_write_spec(t, start, end) == check_gpu_write_spec(s, start, end),
{
    let cpu_read = |a: CurrentAccess| a.cpu_read_conflict() is Some;
    let cpu_write = |a: CurrentAccess| a.cpu_write_conflict() is Some;
    let gpu_read = |a: CurrentAccess| a.gpu_read_conflict();
    let gpu_write = |a: CurrentAccess| a.gpu_write_conflict();
    lemma_first_conflict_local(s, t, start, end, cpu_read);
    lemma_first_conflict_local(s, t, start, end, cpu_write);
    lemma_first_conflict_local(s, t, start, end, gpu_read);
    lemma_first_conflict_local(s, t, start, end, gpu_write);
    if first_conflict(s, start, end, cpu_read) is Some {
        let p = first_conflict(s, start, end, cpu_read)->0;
        assert(is_first_conflict(s, start, end, cpu_read, p));
    }
    if first_conflict(s, start, end, cpu_write) is Some {
        let p = first_conflict(s, start, end, cpu_write)->0;
        assert(is_first_conflict(s, start, end, cpu_write, p));
    }
}

/// Whether a range can be locked or unlocked depends on the states of its
/// bytes alone.
pub proof fn lemma_locks_local(
    s: Seq<CurrentAccess>,
    t: Seq<CurrentAccess>,
    kind: LockKind,
    start: int,
    end: int,
)
    requires
        s.len() == t.len(),
        forall|p: int| start <= p < end && 0 <= p < s.len() ==> #[trigger] s[p] == t[p],
    ensures
        lockable_range(t, kind, start, end) == lockable_range(s, kind, start, end),
        unlockable_range(t, kind, start, end) == unlockable_range(s, kind, start, end),
{
    if lockable_range(s, kind, start, end) {
        assert forall|p: int| start <= p < end && 0 <= p < t.len() implies (#[trigger] t[p]).lockable(
            kind,
        ) by {
            assert(s[p] == t[p]);
        }
    }
    if lockable_range(t, kind, start, end) {
        assert forall|p: int| start <= p < end && 0 <= p < s.len() implies (#[trigger] s[p]).lockable(
            kind,
        ) by {
            assert(s[p] == t[p]);
        }
    }
    if unlockable_range(s, kind, start, end) {
        assert forall|p: int|
            start <= p < end && 0 <= p < t.len() implies (#[trigger] t[p]).unlockable(kind) by {
            assert(s[p] == t[p]);
        }
    }
    if unlockable_range(t, kind, start, end) {
        assert forall|p: int|
            start <= p < end && 0 <= p < s.len() implies (#[trigger] s[p]).unlockable(kind) by {
            assert(s[p] == t[p]);
        }
    }
}

/// A lock that is taken and given back leaves every byte as it was, and
/// leaves the states valid in between.
pub proof fn lemma_lock_unlock_round_trip(
    s: Seq<CurrentAccess>,
    kind: LockKind,
    start: int,
    end: int,
)
    requires
        valid_states(s),
        lockable_range(s, kind, start, end),
    ensures
        valid_states(locked_range(s, kind, start, end)),
        unlockable_range(locked_range(s, kind, start, end), kind, start, end),
        unlocked_range(locked_range(s, kind, start, end), kind, start, end) == s,
{
    let t = locked_range(s, kind, start, end);
    assert forall|p: int| 0 <= p < t.len() implies (#[trigger] t[p]).valid() by {
        assert(s[p].valid());
        if start <= p < end {
            assert(s[p].lockable(kind));
        }
    }
    assert forall|p: int| start <= p < end && 0 <= p < t.len() implies (#[trigger] t[p]).unlockable(
        kind,
    ) by {
        assert(s[p].lockable(kind));
    }
    assert forall|p: int| 0 <= p < s.len() implies unlocked_range(t, kind, start, end)[p]
        == s[p] by {
        assert(s[p].valid());
        if start <= p < end {
            assert(s[p].lockable(kind));
        }
    }
    assert(unlocked_range(t, kind, start, end) =~= s);
}

/// A lock that is given back leaves the states valid.
pub proof fn lemma_unlock_valid(s: Seq<CurrentAccess>, kind: LockKind, start: int, end: int)
    requires
        valid_states(s),
        unlockable_range(s, kind, start, end),
    ensures
        valid_states(unlocked_range(s, kind, start, end)),
{
    let t = unlocked_range(s, kind, start, end);
    assert forall|p: int| 0 <= p < t.len() implies (#[trigger] t[p]).valid() by {
        assert(s[p].valid());
        if start <= p < end {
            assert(s[p].unlockable(kind));
        }
    }
}

/// A range that is shared or written by the device can be locked for a
/// device read any number of times that its counters can hold, and a device
/// read of it is allowed each time. As many unlocks, and no fewer, bring
/// every byte back to where it was.
pub proof fn lemma_gpu_read_lock_nests(s: Seq<CurrentAccess>, start: int, end: int, n: nat)
    requires
        forall|p: int|
            start <= p < end && 0 <= p < s.len() ==> !((#[trigger] s[p]) is CpuExclusive)
                && s[p].gpu_reads() + n <= u32::MAX,
    ensures
        forall|k: nat|
            k < n ==> lockable_range(
                #[trigger] locked_range_times(s, LockKind::GpuRead, start, end, k),
                LockKind::GpuRead,
                start,
                end,
            ),
        forall|k: nat|
            k <= n ==> check_gpu_read_spec(
                #[trigger] locked_range_times(s, LockKind::GpuRead, start, end, k),
                start,
                end,
            ) is Ok,
        forall|p: int|
            start <= p < end && 0 <= p < s.len() ==> (#[trigger] locked_range_times(
                s,
                LockKind::GpuRead,
                start,
                end,
                n,
            )[p]).gpu_reads() == s[p].gpu_reads() + n,
        unlocked_range_times(
            locked_range_times(s, LockKind::GpuRead, start, end, n),
            LockKind::GpuRead,
            start,
            end,
            n,
        ) == s,
        forall|k: nat|
            k < n && first_shared(start, 0) < end && first_shared(start, 0) < s.len()
                ==> #[trigger] unlocked_range_times(
                locked_range_times(s, LockKind::GpuRead, start, end, n),
                LockKind::GpuRead,
                start,
                end,
                k,
            ) != s,
    decreases n,
{
    lemma_gpu_read_locked_times(s, start, end, n);
    assert forall|k: nat| k < n implies lockable_range(
        #[trigger] locked_range_times(s, LockKind::GpuRead, start, end, k),
        LockKind::GpuRead,
        start,
        end,
    ) by {
        lemma_gpu_read_locked_times(s, start, end, k);
        let t = locked_range_times(s, LockKind::GpuRead, start, end, k);
        assert forall|p: int| start <= p < end && 0 <= p < t.len() implies (#[trigger] t[p]).lockable(
            LockKind::GpuRead,
        ) by {
            assert(!(s[p] is CpuExclusive));
        }
    }
    assert forall|k: nat| k <= n implies check_gpu_read_spec(
        #[trigger] locked_range_times(s, LockKind::GpuRead, start, end, k),
        start,
        end,
    ) is Ok by {
        lemma_gpu_read_locked_times(s, start, end, k);
        let t = locked_range_times(s, LockKind::GpuRead, start, end, k);
        let conflict = |a: CurrentAccess| a.gpu_read_conflict();
        assert forall|p: int| start <= p < end && 0 <= p < t.len() implies !conflict(
            #[trigger] t[p],
        ) by {
            assert(!(s[p] is CpuExclusive));
        }
        lemma_first_conflict_none(t, start, end, conflict);
    }
    let t = locked_range_times(s, LockKind::GpuRead, start, end, n);
    assert forall|k: nat| k <= n implies #[trigger] unlocked_range_times(
        t,
        LockKind::GpuRead,
        start,
        end,
        k,
    ) == locked_range_times(s, LockKind::GpuRead, start, end, (n - k) as nat) by {
        lemma_gpu_read_unlocked_times(s, start, end, n, k);
    }
    assert(locked_range_times(s, LockKind::GpuRead, start, end, 0) == s);
    assert forall|k: nat|
        k < n && first_shared(start, 0) < end && first_shared(start, 0)
            < s.len() implies #[trigger] unlocked_range_times(t, LockKind::GpuRead, start, end, k)
        != s by {
        let p = first_shared(start, 0);
        lemma_gpu_read_locked_times(s, start, end, (n - k) as nat);
        let v = locked_range_times(s, LockKind::GpuRead, start, end, (n - k) as nat);
        assert(!(s[p] is CpuExclusive));
        assert(v[p] == gpu_reads_added(s[p], (n - k) as nat));
        assert(v[p].gpu_reads() == s[p].gpu_reads() + (n - k));
        assert(unlocked_range_times(t, LockKind::GpuRead, start, end, k) == v);
    }
}

/// The states after `n` device read locks: the bytes of the range have `n`
/// more device reads under way and are otherwise as they were.
proof fn lemma_gpu_read_locked_times(s: Seq<CurrentAccess>, start: int, end: int, n: nat)
    requires
        forall|p: int|
            start <= p < end && 0 <= p < s.len() ==> !((#[trigger] s[p]) is CpuExclusive)
                && s[p].gpu_reads() + n <= u32::MAX,
    ensures
        locked_range_times(s, LockKind::GpuRead, start, end, n).len() == s.len(),
        forall|p: int|
            0 <= p < s.len() ==> (#[trigger] locked_range_times(
                s,
                LockKind::GpuRead,
                start,
                end,
                n,
            )[p]) == gpu_reads_added(s[p], if start <= p < end {
                n
            } else {
                0
            }),
    decreases n,
{
    if n > 0 {
        lemma_gpu_read_locked_times(s, start, end, (n - 1) as nat);
        let t = locked_range_times(s, LockKind::GpuRead, start, end, (n - 1) as nat);
        assert forall|p: int| 0 <= p < s.len() implies (#[trigger] locked_range_times(
            s,
            LockKind::GpuRead,
            start,
            end,
            n,
        )[p]) == gpu_reads_added(s[p], if start <= p < end {
            n
        } else {
            0
        }) by {
            assert(t[p] == gpu_reads_added(s[p], if start <= p < end {
                (n - 1) as nat
            } else {
                0
            }));
            if start <= p < end {
                assert(!(s[p] is CpuExclusive));
            }
        }
    }
}

/// The state with `n` more device reads under way.
pub open spec fn gpu_reads_added(a: CurrentAccess, n: nat) -> CurrentAccess {
    match a {
        CurrentAccess::CpuExclusive => a,
        CurrentAccess::GpuExclusive { gpu_reads, gpu_writes } => CurrentAccess::GpuExclusive {
            gpu_reads: (gpu_reads + n) as u32,
            gpu_writes,
        },
        CurrentAccess::Shared { cpu_reads, gpu_reads } => CurrentAccess::Shared {
            cpu_reads,
            gpu_reads: (gpu_reads + n) as u32,
        },
    }
}

/// Giving back `k` of `n` device read locks leaves `n - k` of them.
proof fn lemma_gpu_read_unlocked_times(
    s: Seq<CurrentAccess>,
    start: int,
    end: int,
    n: nat,
    k: nat,
)
    requires
        k <= n,
        forall|p: int|
            start <= p < end && 0 <= p < s.len() ==> !((#[trigger] s[p]) is CpuExclusive)
                && s[p].gpu_reads() + n <= u32::MAX,
    ensures
        unlocked_range_times(
            locked_range_times(s, LockKind::GpuRead, start, end, n),
            LockKind::GpuRead,
            start,
            end,
            k,
        ) == locked_range_times(s, LockKind::GpuRead, start, end, (n - k) as nat),
    decreases k,
{
    if k > 0 {
        let t = locked_range_times(s, LockKind::GpuRead, start, end, n);
        let v = locked_range_times(s, LockKind::GpuRead, start, end, (n - 1) as nat);
        lemma_gpu_read_locked_times(s, start, end, n);
        lemma_gpu_read_locked_times(s, start, end, (n - 1) as nat);
        assert forall|p: int| 0 <= p < s.len() implies unlocked_range(
            t,
            LockKind::GpuRead,
            start,
            end,
        )[p] == v[p] by {
            if start <= p < end {
                assert(!(s[p] is CpuExclusive));
            }
        }
        assert(unlocked_range(t, LockKind::GpuRead, start, end) =~= v);
        lemma_gpu_read_unlocked_times(s, start, end, (n - 1) as nat, (k - 1) as nat);
    }
}

} // verus!
