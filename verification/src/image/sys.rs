//! The image as the driver has it.

use crate::device::Device;
use crate::format::{Format, FormatFeatures};
use crate::image::{
    ImageCreateFlags, ImageCreationError, ImageDimensions, ImageTiling, ImageUsage, SampleCount,
};
use crate::memory::ExternalMemoryHandleTypes;
use crate::sync::{first_conflict, lemma_first_conflict_is, lemma_first_conflict_none};
use crate::sync::{two_distinct, QueueFamilyIndices, Sharing};
use crate::{names, requirement_says, RequirementNotMet, Version};
use vstd::prelude::*;

verus! {

/// A storage for pixels or arbitrary data, as far as the rules of this
/// library read it.
#[derive(Clone, Copy, Debug, PartialEq, Eq)]
pub struct UnsafeImage {
    /// The key of the image: no other image has it.
    pub key: u64,
    /// The driver's handle of the image.
    pub handle: u64,
    /// The device that the image belongs to.
    pub device: u64,
    /// The dimensions of the image.
    pub dimensions: ImageDimensions,
    /// The format of the image.
    pub format: Option<Format>,
    /// What the device can do with an image of this format and tiling.
    pub format_features: FormatFeatures,
    /// The number of mip levels.
    pub mip_levels: u32,
    /// The number of samples per texel.
    pub samples: SampleCount,
    /// The tiling of the image.
    pub tiling: ImageTiling,
    /// What the image is used for.
    pub usage: ImageUsage,
    /// What the stencil aspect of the image is used for.
    pub stencil_usage: ImageUsage,
    /// The flags that the image was created with.
    pub flags: ImageCreateFlags,
    /// The kinds of handle to outside memory that the image is used with.
    pub external_memory_handle_types: ExternalMemoryHandleTypes,
}

/// Parameters to create a new `UnsafeImage`.
#[derive(Debug)]
pub struct UnsafeImageCreateInfo {
    /// The type, extent and number of array layers to create the image with.
    pub dimensions: ImageDimensions,
    /// The format used to store the image data.
    pub format: Option<Format>,
    /// The number of mip levels to create the image with.
    pub mip_levels: u32,
    /// The number of samples per texel that the image should use.
    pub samples: SampleCount,
    /// The memory arrangement of the texel blocks.
    pub tiling: ImageTiling,
    /// How the image is going to be used.
    pub usage: ImageUsage,
    /// How the stencil aspect of the image is going to be used, if any.
    pub stencil_usage: ImageUsage,
    /// Whether the image can be shared across multiple queues, or is limited to a single queue.
    pub sharing: Sharing<QueueFamilyIndices>,
    /// The flags to create the image with.
    pub flags: ImageCreateFlags,
    /// The kinds of handle to outside memory that the image is going to be
    /// used with. Where one is named, the device must speak version 1.1 of
    /// the device interface or have the extension for outside memory.
    pub external_memory_handle_types: ExternalMemoryHandleTypes,
}

/// Why an image cannot be created on a device.
pub enum ImageRefusal {
    /// The device cannot use the format.
    Format,
    /// The device cannot use the format for an image of the tiling.
    FormatNotSupported,
    /// The image has more mip levels than its dimensions allow.
    MaxMipLevels { mip_levels: u32, max: u32 },
    /// The device has no queue family of this index.
    QueueFamily { queue_family_index: u32, queue_family_count: u32 },
    /// The format cannot be used in the named way.
    FormatUsage(Seq<char>),
    /// Handles to outside memory were asked for; the device cannot give any.
    ExternalMemory,
    /// The device lacks the extension for a kind of handle that was asked
    /// for.
    ExternalHandleTypes { required_for: Seq<char>, extension: Seq<char> },
}

impl ImageRefusal {
    /// Whether an error reports this refusal.
    pub open spec fn reported_by(self, err: ImageCreationError) -> bool {
        match self {
            ImageRefusal::Format => err matches ImageCreationError::RequirementNotMet {
                required_for,
                requires_one_of,
            } && requirement_says(
                required_for,
                requires_one_of,
                "`Format` is a YCbCr format"@,
                Some(Version::major_minor_spec(1, 1)),
                Seq::empty(),
                seq!["khr_sampler_ycbcr_conversion"@],
            ),
            ImageRefusal::FormatNotSupported => err is FormatNotSupported,
            ImageRefusal::MaxMipLevels { mip_levels, max } => err
                == (ImageCreationError::MaxMipLevelsExceeded { mip_levels, max }),
            ImageRefusal::QueueFamily { queue_family_index, queue_family_count } => err
                == (ImageCreationError::SharingQueueFamilyIndexOutOfRange {
                queue_family_index,
                queue_family_count,
            }),
            ImageRefusal::FormatUsage(name) => err matches ImageCreationError::FormatUsageNotSupported {
                usage,
            } && usage@ == name,
            ImageRefusal::ExternalMemory => err matches ImageCreationError::RequirementNotMet {
                required_for,
                requires_one_of,
            } && requirement_says(
                required_for,
                requires_one_of,
                "`create_info.external_memory_handle_types` is not empty"@,
                Some(Version::major_minor_spec(1, 1)),
                Seq::empty(),
                seq!["khr_external_memory"@],
            ),
            ImageRefusal::ExternalHandleTypes { required_for: text, extension } => err matches ImageCreationError::RequirementNotMet {
                required_for,
                requires_one_of,
            } && requirement_says(
                required_for,
                requires_one_of,
                text,
                None,
                Seq::empty(),
                seq![extension],
            ),
        }
    }
}

/// What the device can do with an image of the given format and tiling.
pub open spec fn image_features_spec(device: &Device, format: Format, tiling: ImageTiling) -> FormatFeatures {
    let properties = device.physical_device.format_properties_spec(format);
    match tiling {
        ImageTiling::Optimal => properties.optimal_tiling_features,
        ImageTiling::Linear => properties.linear_tiling_features,
    }
}

/// The first use of an image that the format cannot be put to, if there is
/// one: sampling, storage, the two kinds of attachment, then the two
/// directions of transfer.
pub open spec fn unsupported_usage(usage: ImageUsage, features: FormatFeatures) -> Option<Seq<char>> {
    if usage.sampled && !features.sampled_image {
        Some("sampled"@)
    } else if usage.storage && !features.storage_image {
        Some("storage"@)
    } else if usage.color_attachment && !features.color_attachment {
        Some("color_attachment"@)
    } else if usage.depth_stencil_attachment && !features.depth_stencil_attachment {
        Some("depth_stencil_attachment"@)
    } else if usage.transfer_src && !features.transfer_src {
        Some("transfer_src"@)
    } else if usage.transfer_dst && !features.transfer_dst {
        Some("transfer_dst"@)
    } else {
        None
    }
}

/// The first index of the list that names no queue family of the device.
pub open spec fn first_beyond(indices: Seq<u32>, queue_family_count: u32) -> Option<u32> {
    match first_conflict(indices, 0, indices.len() as int, |index: u32| index >= queue_family_count) {
        Some(at) => Some(indices[at]),
        None => None,
    }
}

/// The first rule that an image breaks, if it breaks one.
pub open spec fn image_refusal(device: &Device, info: &UnsafeImageCreateInfo) -> Option<ImageRefusal> {
    let format = info.format->0;
    let features = image_features_spec(device, format, info.tiling);
    if format.device_refusal(device) {
        Some(ImageRefusal::Format)
    } else if features == FormatFeatures::empty_spec() {
        Some(ImageRefusal::FormatNotSupported)
    } else if info.mip_levels > info.dimensions.max_mip_levels_spec() {
        Some(
            ImageRefusal::MaxMipLevels {
                mip_levels: info.mip_levels,
                max: info.dimensions.max_mip_levels_spec(),
            },
        )
    } else if info.sharing matches Sharing::Concurrent(indices) && first_beyond(
        indices@,
        device.physical_device.queue_family_count,
    ) is Some {
        Some(
            ImageRefusal::QueueFamily {
                queue_family_index: first_beyond(
                    info.sharing->Concurrent_0@,
                    device.physical_device.queue_family_count,
                )->0,
                queue_family_count: device.physical_device.queue_family_count,
            },
        )
    } else if unsupported_usage(info.usage, features) is Some {
        Some(ImageRefusal::FormatUsage(unsupported_usage(info.usage, features)->0))
    } else if info.external_memory_handle_types.is_empty_spec() {
        None
    } else if !device.api_version.at_least_spec(Version::major_minor_spec(1, 1))
        && !device.enabled_extensions.khr_external_memory {
        Some(ImageRefusal::ExternalMemory)
    } else if info.external_memory_handle_types.missing_extension(device) is Some {
        Some(
            ImageRefusal::ExternalHandleTypes {
                required_for: info.external_memory_handle_types.missing_for(device),
                extension: info.external_memory_handle_types.missing_extension(device)->0,
            },
        )
    } else {
        None
    }
}

/// Whether an image can be asked for at all: it has a format and a use, and
/// where several queue families share it, there are two of them.
pub open spec fn image_askable(info: &UnsafeImageCreateInfo) -> bool {
    &&& info.format is Some
    &&& !info.usage.is_empty_spec()
    &&& (info.sharing matches Sharing::Concurrent(indices) ==> indices@.len() >= 2)
}

impl UnsafeImage {
    /// Prepares a new image: holds the parameters against the rules of the
    /// device, in this order: the format; the number of mip levels; the
    /// queue families that share the image; the uses of the format; the
    /// handles to outside memory. The image comes back as the driver is to
    /// make it, under the given key.
    #[verifier::loop_isolation(false)]
    pub fn new(device: &Device, create_info: &UnsafeImageCreateInfo, key: u64) -> (result: Result<
        UnsafeImage,
        ImageCreationError,
    >)
        requires
            image_askable(create_info),
        ensures
            match image_refusal(device, create_info) {
                Some(refusal) => result matches Err(err) && refusal.reported_by(err),
                None => result matches Ok(image) && image.key == key && image.device
                    == device.handle && image.dimensions == create_info.dimensions && image.format
                    == create_info.format && image.format_features == image_features_spec(
                    device,
                    create_info.format->0,
                    create_info.tiling,
                ) && image.mip_levels == create_info.mip_levels && image.samples
                    == create_info.samples && image.tiling == create_info.tiling && image.usage
                    == create_info.usage && image.stencil_usage == create_info.stencil_usage
                    && image.flags == create_info.flags && image.external_memory_handle_types
                    == create_info.external_memory_handle_types,
            },
    {
        let format = create_info.format.unwrap();
        match format.validate_device(device) {
            Ok(_) => {},
            Err(err) => {
                return Err(
                    ImageCreationError::RequirementNotMet {
                        required_for: err.required_for,
                        requires_one_of: err.requires_one_of,
                    },
                );
            },
        }
        let properties = device.physical_device.format_properties(format);
        let format_features = match create_info.tiling {
            ImageTiling::Optimal => properties.optimal_tiling_features,
            ImageTiling::Linear => properties.linear_tiling_features,
        };
        if format_features.is_empty() {
            return Err(ImageCreationError::FormatNotSupported);
        }
        let max = create_info.dimensions.max_mip_levels();
        if create_info.mip_levels > max {
            return Err(
                ImageCreationError::MaxMipLevelsExceeded { mip_levels: create_info.mip_levels, max },
            );
        }
        match &create_info.sharing {
            Sharing::Exclusive => {},
            Sharing::Concurrent(queue_family_indices) => {
                let queue_family_count = device.physical_device.queue_family_count;
                let n = queue_family_indices.len();
                let ghost indices = queue_family_indices@;
                let ghost beyond = |index: u32| index >= queue_family_count;
                let mut i: usize = 0;
                while i < n
                    invariant
                        indices == queue_family_indices@,
                        n == indices.len(),
                        i <= n,
                        forall|k: int| 0 <= k < i ==> !beyond(#[trigger] indices[k]),
                    decreases n - i,
                {
                    let queue_family_index = queue_family_indices.at(i);
                    if queue_family_index >= queue_family_count {
                        proof {
                            lemma_first_conflict_is(indices, 0, n as int, beyond, i as int);
                        }
                        return Err(
                            ImageCreationError::SharingQueueFamilyIndexOutOfRange {
                                queue_family_index,
                                queue_family_count,
                            },
                        );
                    }
                    i += 1;
                }
                proof {
                    lemma_first_conflict_none(indices, 0, n as int, beyond);
                }
            },
        }
        let usage = &create_info.usage;
        if usage.sampled && !format_features.sampled_image {
            return Err(ImageCreationError::FormatUsageNotSupported { usage: "sampled" });
        }
        if usage.storage && !format_features.storage_image {
            return Err(ImageCreationError::FormatUsageNotSupported { usage: "storage" });
        }
        if usage.color_attachment && !format_features.color_attachment {
            return Err(ImageCreationError::FormatUsageNotSupported { usage: "color_attachment" });
        }
        if usage.depth_stencil_attachment && !format_features.depth_stencil_attachment {
            return Err(
                ImageCreationError::FormatUsageNotSupported { usage: "depth_stencil_attachment" },
            );
        }
        if usage.transfer_src && !format_features.transfer_src {
            return Err(ImageCreationError::FormatUsageNotSupported { usage: "transfer_src" });
        }
        if usage.transfer_dst && !format_features.transfer_dst {
            return Err(ImageCreationError::FormatUsageNotSupported { usage: "transfer_dst" });
        }
        if !create_info.external_memory_handle_types.is_empty() {
            if !(device.api_version.at_least(Version::v1_1())
                || device.enabled_extensions.khr_external_memory) {
                let none: &'static [&'static str] = &[];
                let extensions: &'static [&'static str] = &["khr_external_memory"];
                assert(names(extensions) =~= seq!["khr_external_memory"@]);
                assert(names(none) =~= Seq::<Seq<char>>::empty());
                let err = RequirementNotMet::new(
                    "`create_info.external_memory_handle_types` is not empty",
                    Some(Version::v1_1()),
                    none,
                    extensions,
                );
                return Err(
                    ImageCreationError::RequirementNotMet {
                        required_for: err.required_for,
                        requires_one_of: err.requires_one_of,
                    },
                );
            }
            match create_info.external_memory_handle_types.validate_device(device) {
                Ok(_) => {},
                Err(err) => {
                    return Err(
                        ImageCreationError::RequirementNotMet {
                            required_for: err.required_for,
                            requires_one_of: err.requires_one_of,
                        },
                    );
                },
            }
        }
        Ok(
            UnsafeImage {
                key,
                handle: 0,
                device: device.handle,
                dimensions: create_info.dimensions,
                format: create_info.format,
                format_features,
                mip_levels: create_info.mip_levels,
                samples: create_info.samples,
                tiling: create_info.tiling,
                usage: create_info.usage,
                stencil_usage: create_info.stencil_usage,
                flags: create_info.flags,
                external_memory_handle_types: create_info.external_memory_handle_types,
            },
        )
    }

    /// Returns a key unique to each `UnsafeImage`.
    pub fn key(&self) -> (key: u64)
        ensures
            key == self.key,
    {
        self.key
    }

    /// Returns the number of mipmap levels of the image.
    pub fn mip_levels(&self) -> (levels: u32)
        ensures
            levels == self.mip_levels,
    {
        self.mip_levels
    }
}

} // verus!
