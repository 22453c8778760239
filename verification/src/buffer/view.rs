//! View of a buffer, in order to use it as a uniform texel buffer or storage texel buffer.
//!
//! In order to use a buffer as a uniform texel buffer or a storage texel buffer, you have to
//! create a `BufferView`, which indicates which format the data is in.
//!
//! In order to create a view from a buffer, the buffer must have been created with either the
//! `uniform_texel_buffer` or the `storage_texel_buffer` usage.

use crate::buffer::{BufferAccess, BufferInner, BufferUsage};
use crate::device::Device;
use crate::format::{Format, FormatFeatures};
use crate::{
    names, requirement_says, DeviceSize, OomError, RequirementNotMet, RequiresOneOf, Version,
    VulkanError,
};
use std::ops::Range;
use crate::{requirement_message, requirement_text};
use vstd::prelude::*;

verus! {

/// Parameters to create a new `BufferView`.
#[derive(Clone, Copy, Debug)]
pub struct BufferViewCreateInfo {
    /// The format of the buffer view.
    ///
    /// The default value is `None`, which must be overridden.
    pub format: Option<Format>,
}

impl Default for BufferViewCreateInfo {
    fn default() -> (info: BufferViewCreateInfo)
        ensures
            info.format is None,
    {
        BufferViewCreateInfo { format: None }
    }
}

/// Error that can happen when creating a buffer view.
#[derive(Clone, Copy, Debug, PartialEq, Eq)]
pub enum BufferViewCreationError {
    /// Out of memory.
    OomError(OomError),
    /// Something was asked for that the device does not allow.
    RequirementNotMet { required_for: &'static str, requires_one_of: RequiresOneOf },
    /// The buffer was not created with one of the `storage_texel_buffer` or
    /// `uniform_texel_buffer` usages.
    BufferMissingUsage,
    /// The offset within the buffer is not a multiple of the required alignment.
    OffsetNotAligned { offset: DeviceSize, required_alignment: DeviceSize },
    /// The range within the buffer is not a multiple of the required alignment.
    RangeNotAligned { range: DeviceSize, required_alignment: DeviceSize },
    /// The requested format is not supported for this usage.
    UnsupportedFormat,
    /// The `max_texel_buffer_elements` limit has been exceeded.
    MaxTexelBufferElementsExceeded,
}

impl BufferViewCreationError {
    /// The error of a lack of memory.
    pub fn from_oom(err: OomError) -> (r: BufferViewCreationError)
        ensures
            r == BufferViewCreationError::OomError(err),
    {
        BufferViewCreationError::OomError(err)
    }

    /// The error that stands for an error of the driver: one of its two
    /// errors on memory.
    pub fn from_vulkan_error(err: VulkanError) -> (r: BufferViewCreationError)
        requires
            OomError::convertible(err),
        ensures
            r == BufferViewCreationError::OomError(OomError::from_vulkan_error_spec(err)),
    {
        BufferViewCreationError::OomError(OomError::from_vulkan_error(err))
    }

    /// The error of a requirement that the device does not meet.
    pub fn from_requirement(err: RequirementNotMet) -> (r: BufferViewCreationError)
        ensures
            r matches BufferViewCreationError::RequirementNotMet { required_for, requires_one_of }
                && required_for == err.required_for && requires_one_of == err.requires_one_of,
    {
        BufferViewCreationError::RequirementNotMet {
            required_for: err.required_for,
            requires_one_of: err.requires_one_of,
        }
    }

    /// What went wrong, in words.
    pub fn to_string(&self) -> (s: String)
        ensures
            s@ == match *self {
                BufferViewCreationError::OomError(_) => "out of memory when creating buffer view"@,
                BufferViewCreationError::RequirementNotMet { required_for, requires_one_of } => requirement_text(
                    required_for,
                    requires_one_of,
                ),
                BufferViewCreationError::BufferMissingUsage => "the buffer was not created with one of the `storage_texel_buffer` or `uniform_texel_buffer` usages"@,
                BufferViewCreationError::OffsetNotAligned { .. } => "the offset within the buffer is not a multiple of the required alignment"@,
                BufferViewCreationError::RangeNotAligned { .. } => "the range within the buffer is not a multiple of the required alignment"@,
                BufferViewCreationError::UnsupportedFormat => "the requested format is not supported for this usage"@,
                BufferViewCreationError::MaxTexelBufferElementsExceeded => "the `max_texel_buffer_elements` limit has been exceeded"@,
            },
    {
        match self {
            BufferViewCreationError::OomError(_) => "out of memory when creating buffer view".to_owned(),
            BufferViewCreationError::RequirementNotMet { required_for, requires_one_of } => requirement_message(
                required_for,
                requires_one_of,
            ),
            BufferViewCreationError::BufferMissingUsage => "the buffer was not created with one of the `storage_texel_buffer` or `uniform_texel_buffer` usages".to_owned(),
            BufferViewCreationError::OffsetNotAligned { .. } => "the offset within the buffer is not a multiple of the required alignment".to_owned(),
            BufferViewCreationError::RangeNotAligned { .. } => "the range within the buffer is not a multiple of the required alignment".to_owned(),
            BufferViewCreationError::UnsupportedFormat => "the requested format is not supported for this usage".to_owned(),
            BufferViewCreationError::MaxTexelBufferElementsExceeded => "the `max_texel_buffer_elements` limit has been exceeded".to_owned(),
        }
    }
}

/// The size of one element of a format of the given block size: a block
/// of three equal components counts as one of them.
pub open spec fn element_size_spec(block_size: DeviceSize) -> DeviceSize {
    if block_size % 3 == 0 {
        block_size / 3
    } else {
        block_size
    }
}

/// The alignment that the offset of a texel buffer must have, where the
/// device names one for the kind of texel buffer: that alignment, or the
/// size of one element where that is smaller and the device lets one element
/// do.
pub open spec fn texel_alignment_spec(
    alignment_bytes: DeviceSize,
    single_texel_alignment: bool,
    block_size: DeviceSize,
) -> DeviceSize {
    if single_texel_alignment && element_size_spec(block_size) < alignment_bytes {
        element_size_spec(block_size)
    } else {
        alignment_bytes
    }
}

/// The first rule on the format and the use of a buffer that a view of it
/// breaks, if it breaks one.
pub open spec fn view_format_refusal(device: &Device, usage: BufferUsage, format: Format) -> Option<
    BufferViewCreationError,
> {
    let features = device.physical_device.format_properties_spec(format).buffer_features;
    if format.device_refusal(device) {
        Some(
            BufferViewCreationError::RequirementNotMet {
                required_for: "`Format` is a YCbCr format",
                requires_one_of: RequiresOneOf {
                    api_version: None,
                    features: &[],
                    device_extensions: &[],
                    instance_extensions: &[],
                },
            },
        )
    } else if !(usage.uniform_texel_buffer || usage.storage_texel_buffer) {
        Some(BufferViewCreationError::BufferMissingUsage)
    } else if usage.uniform_texel_buffer && !features.uniform_texel_buffer {
        Some(BufferViewCreationError::UnsupportedFormat)
    } else if usage.storage_texel_buffer && !features.storage_texel_buffer {
        Some(BufferViewCreationError::UnsupportedFormat)
    } else {
        None
    }
}

/// The first rule on the size of a buffer that a view of it breaks, if it
/// breaks one: the size is a whole number of blocks, and the number of
/// texels, cut to 32 bits, is within the limit of the device.
pub open spec fn view_range_refusal(device: &Device, size: DeviceSize, format: Format) -> Option<
    BufferViewCreationError,
> {
    let block_size = format.block_size_spec()->0;
    let texels = format.texels_per_block_spec();
    if size % block_size != 0 {
        Some(BufferViewCreationError::RangeNotAligned { range: size, required_alignment: block_size })
    } else if (((size / block_size) * texels) as u64 & 0xffff_ffff)
        > device.physical_device.properties.max_texel_buffer_elements {
        Some(BufferViewCreationError::MaxTexelBufferElementsExceeded)
    } else {
        None
    }
}

/// Whether the device names alignments for each kind of texel buffer.
pub open spec fn names_texel_alignments(device: &Device) -> bool {
    device.api_version.at_least_spec(Version::major_minor_spec(1, 3))
        || device.enabled_features.texel_buffer_alignment
}

/// The alignment that the offset of a storage texel buffer must have.
pub open spec fn storage_alignment(device: &Device, format: Format) -> DeviceSize {
    let properties = device.physical_device.properties;
    texel_alignment_spec(
        properties.storage_texel_buffer_offset_alignment_bytes->0,
        properties.storage_texel_buffer_offset_single_texel_alignment->0,
        format.block_size_spec()->0,
    )
}

/// The alignment that the offset of a uniform texel buffer must have.
pub open spec fn uniform_alignment(device: &Device, format: Format) -> DeviceSize {
    let properties = device.physical_device.properties;
    texel_alignment_spec(
        properties.uniform_texel_buffer_offset_alignment_bytes->0,
        properties.uniform_texel_buffer_offset_single_texel_alignment->0,
        format.block_size_spec()->0,
    )
}

/// The first rule on the offset of a buffer that a view of it breaks, if it
/// breaks one.
pub open spec fn view_offset_refusal(
    device: &Device,
    usage: BufferUsage,
    offset: DeviceSize,
    format: Format,
) -> Option<BufferViewCreationError> {
    let properties = device.physical_device.properties;
    if names_texel_alignments(device) {
        if usage.storage_texel_buffer && offset % storage_alignment(device, format) != 0 {
            Some(
                BufferViewCreationError::OffsetNotAligned {
                    offset,
                    required_alignment: storage_alignment(device, format),
                },
            )
        } else if usage.uniform_texel_buffer && offset % uniform_alignment(device, format) != 0 {
            Some(
                BufferViewCreationError::OffsetNotAligned {
                    offset,
                    required_alignment: uniform_alignment(device, format),
                },
            )
        } else {
            None
        }
    } else if offset % properties.min_texel_buffer_offset_alignment != 0 {
        Some(
            BufferViewCreationError::OffsetNotAligned {
                offset,
                required_alignment: properties.min_texel_buffer_offset_alignment,
            },
        )
    } else {
        None
    }
}

/// Whether a view can be asked for at all: a format is named; and, as far as
/// no rule before is broken, the format has blocks of one size, the number
/// of texels can be counted, and the device names the alignments that are
/// asked of it, none of them zero.
pub open spec fn view_askable(
    device: &Device,
    usage: BufferUsage,
    offset: DeviceSize,
    size: DeviceSize,
    format: Option<Format>,
) -> bool {
    let properties = device.physical_device.properties;
    &&& format is Some
    &&& view_format_refusal(device, usage, format->0) is None ==> {
        &&& format->0.block_size_spec() is Some
        &&& (size / format->0.block_size_spec()->0) * format->0.texels_per_block_spec() <= u64::MAX
        &&& view_range_refusal(device, size, format->0) is None ==> if names_texel_alignments(
            device,
        ) {
            &&& usage.storage_texel_buffer ==> {
                &&& properties.storage_texel_buffer_offset_alignment_bytes is Some
                &&& properties.storage_texel_buffer_offset_single_texel_alignment is Some
                &&& properties.storage_texel_buffer_offset_alignment_bytes->0 > 0
            }
            &&& usage.uniform_texel_buffer && !(usage.storage_texel_buffer && offset
                % storage_alignment(device, format->0) != 0) ==> {
                &&& properties.uniform_texel_buffer_offset_alignment_bytes is Some
                &&& properties.uniform_texel_buffer_offset_single_texel_alignment is Some
                &&& properties.uniform_texel_buffer_offset_alignment_bytes->0 > 0
            }
        } else {
            properties.min_texel_buffer_offset_alignment > 0
        }
    }
}

/// The first rule that a view of a buffer breaks, if it breaks one.
pub open spec fn view_refusal(
    device: &Device,
    usage: BufferUsage,
    offset: DeviceSize,
    size: DeviceSize,
    format: Format,
) -> Option<BufferViewCreationError> {
    if view_format_refusal(device, usage, format) is Some {
        view_format_refusal(device, usage, format)
    } else if view_range_refusal(device, size, format) is Some {
        view_range_refusal(device, size, format)
    } else {
        view_offset_refusal(device, usage, offset, format)
    }
}

/// Whether an error tells of a refusal: it is the refusal, or both are a
/// requirement that was not met.
pub open spec fn tells_of(err: BufferViewCreationError, refusal: BufferViewCreationError) -> bool {
    if refusal is RequirementNotMet {
        err matches BufferViewCreationError::RequirementNotMet { required_for, requires_one_of }
            && requirement_says(
            required_for,
            requires_one_of,
            "`Format` is a YCbCr format"@,
            Some(Version::major_minor_spec(1, 1)),
            Seq::empty(),
            seq!["khr_sampler_ycbcr_conversion"@],
        )
    } else {
        err == refusal
    }
}

/// Represents a way for the GPU to interpret buffer data. See the documentation of the
/// `view` module.
#[derive(Debug)]
pub struct BufferView<B> {
    handle: Option<u64>,
    buffer: B,
    format: Option<Format>,
    format_features: FormatFeatures,
    range: Range<DeviceSize>,
}

impl<B: BufferAccess> BufferView<B> {
    /// Prepares a new `BufferView`: holds the buffer and the format against
    /// the rules, and gives the view as the driver is to make it.
    pub fn new(device: &Device, buffer: B, create_info: BufferViewCreateInfo) -> (result: Result<
        BufferView<B>,
        BufferViewCreationError,
    >)
        requires
            view_askable(
                device,
                buffer.inner_spec().buffer.usage_spec(),
                buffer.inner_spec().offset,
                buffer.size_spec(),
                create_info.format,
            ),
        ensures
            match view_refusal(
                device,
                buffer.inner_spec().buffer.usage_spec(),
                buffer.inner_spec().offset,
                buffer.size_spec(),
                create_info.format->0,
            ) {
                Some(refusal) => result matches Err(err) && tells_of(err, refusal),
                None => result matches Ok(view) && view.buffer_spec() == buffer
                    && view.handle_spec() is None && view.format_spec() == create_info.format
                    && view.format_features_spec() == device.physical_device.format_properties_spec(
                    create_info.format->0,
                ).buffer_features && view.range_spec() == (0..buffer.size_spec()),
            },
    {
        let properties = &device.physical_device.properties;
        let size = buffer.size();
        let BufferInner { buffer: inner_buffer, offset } = buffer.inner();
        let format = create_info.format.unwrap();
        match format.validate_device(device) {
            Ok(_) => {},
            Err(err) => {
                return Err(BufferViewCreationError::from_requirement(err));
            },
        }
        if !(inner_buffer.usage().uniform_texel_buffer || inner_buffer.usage().storage_texel_buffer) {
            return Err(BufferViewCreationError::BufferMissingUsage);
        }
        let format_features = device.physical_device.format_properties(format).buffer_features;
        if inner_buffer.usage().uniform_texel_buffer && !format_features.uniform_texel_buffer {
            return Err(BufferViewCreationError::UnsupportedFormat);
        }
        if inner_buffer.usage().storage_texel_buffer && !format_features.storage_texel_buffer {
            return Err(BufferViewCreationError::UnsupportedFormat);
        }
        let block_size = format.block_size().unwrap();
        let texels_per_block = format.texels_per_block();
        assert(block_size > 0);
        if size % block_size != 0 {
            return Err(
                BufferViewCreationError::RangeNotAligned {
                    range: size,
                    required_alignment: block_size,
                },
            );
        }
        let texels: u64 = (size / block_size) * (texels_per_block as u64);
        if (texels & 0xffff_ffff) > properties.max_texel_buffer_elements as u64 {
            return Err(BufferViewCreationError::MaxTexelBufferElementsExceeded);
        }
        if device.api_version.at_least(Version::v1_3())
            || device.enabled_features.texel_buffer_alignment {
            let element_size = if block_size % 3 == 0 {
                block_size / 3
            } else {
                block_size
            };
            if inner_buffer.usage().storage_texel_buffer {
                let mut required_alignment =
                    properties.storage_texel_buffer_offset_alignment_bytes.unwrap();
                if properties.storage_texel_buffer_offset_single_texel_alignment.unwrap() {
                    if element_size < required_alignment {
                        required_alignment = element_size;
                    }
                }
                if offset % required_alignment != 0 {
                    return Err(
                        BufferViewCreationError::OffsetNotAligned { offset, required_alignment },
                    );
                }
            }
            if inner_buffer.usage().uniform_texel_buffer {
                let mut required_alignment =
                    properties.uniform_texel_buffer_offset_alignment_bytes.unwrap();
                if properties.uniform_texel_buffer_offset_single_texel_alignment.unwrap() {
                    if element_size < required_alignment {
                        required_alignment = element_size;
                    }
                }
                if offset % required_alignment != 0 {
                    return Err(
                        BufferViewCreationError::OffsetNotAligned { offset, required_alignment },
                    );
                }
            }
        } else {
            let required_alignment = properties.min_texel_buffer_offset_alignment;
            if offset % required_alignment != 0 {
                return Err(
                    BufferViewCreationError::OffsetNotAligned { offset, required_alignment },
                );
            }
        }
        Ok(
            BufferView {
                handle: None,
                buffer,
                format: Some(format),
                format_features,
                range: 0..size,
            },
        )
    }

    /// The buffer associated to this view.
    pub closed spec fn buffer_spec(&self) -> B {
        self.buffer
    }

    /// The driver's handle of the view, once the driver has made it.
    pub closed spec fn handle_spec(&self) -> Option<u64> {
        self.handle
    }

    /// The format of the view.
    pub closed spec fn format_spec(&self) -> Option<Format> {
        self.format
    }

    /// What the device can do with a buffer of the view's format.
    pub closed spec fn format_features_spec(&self) -> FormatFeatures {
        self.format_features
    }

    /// The bytes of the buffer that the view shows.
    pub closed spec fn range_spec(&self) -> Range<DeviceSize> {
        self.range
    }

    /// Takes note of the handle under which the driver has made the view.
    pub fn created(&mut self, handle: u64)
        ensures
            final(self).handle_spec() == Some(handle),
            final(self).buffer_spec() == old(self).buffer_spec(),
            final(self).format_spec() == old(self).format_spec(),
            final(self).format_features_spec() == old(self).format_features_spec(),
            final(self).range_spec() == old(self).range_spec(),
    {
        self.handle = Some(handle);
    }

    /// The driver's handle of the view, once the driver has made it.
    pub fn internal_object(&self) -> (handle: Option<u64>)
        ensures
            handle == self.handle_spec(),
    {
        self.handle
    }

    /// Returns the buffer associated to this view.
    pub fn buffer(&self) -> (buffer: &B)
        ensures
            *buffer == self.buffer_spec(),
    {
        &self.buffer
    }
}

/// What every view of a buffer tells of itself.
pub trait BufferViewAbstract {
    /// The wrapped buffer that the view was created from.
    spec fn inner_buffer_spec(&self) -> BufferInner;

    /// The format of the view.
    spec fn view_format_spec(&self) -> Option<Format>;

    /// What the device can do with a buffer of the view's format.
    spec fn view_format_features_spec(&self) -> FormatFeatures;

    /// The bytes of the wrapped buffer that the view shows.
    spec fn view_range_spec(&self) -> Range<DeviceSize>;

    /// Returns the wrapped buffer that this buffer view was created from.
    fn inner_buffer(&self) -> (buffer: BufferInner)
        ensures
            buffer == self.inner_buffer_spec(),
    ;

    /// Returns the format of the buffer view.
    fn format(&self) -> (format: Option<Format>)
        ensures
            format == self.view_format_spec(),
    ;

    /// Returns the features supported by the buffer view's format.
    fn format_features(&self) -> (features: &FormatFeatures)
        ensures
            *features == self.view_format_features_spec(),
    ;

    /// Returns the byte range of the wrapped buffer that this view exposes.
    fn range(&self) -> (range: Range<DeviceSize>)
        ensures
            range == self.view_range_spec(),
    ;
}

impl<B: BufferAccess> BufferViewAbstract for BufferView<B> {
    closed spec fn inner_buffer_spec(&self) -> BufferInner {
        self.buffer.inner_spec()
    }

    closed spec fn view_format_spec(&self) -> Option<Format> {
        self.format
    }

    closed spec fn view_format_features_spec(&self) -> FormatFeatures {
        self.format_features
    }

    closed spec fn view_range_spec(&self) -> Range<DeviceSize> {
        self.range
    }

    fn inner_buffer(&self) -> (buffer: BufferInner) {
        self.buffer.inner()
    }

    fn format(&self) -> (format: Option<Format>) {
        self.format
    }

    fn format_features(&self) -> (features: &FormatFeatures) {
        &self.format_features
    }

    fn range(&self) -> (range: Range<DeviceSize>) {
        self.range.start..self.range.end
    }
}

} // verus!
