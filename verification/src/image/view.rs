//! Image views.
//!
//! This module contains types related to image views. An image view wraps around
//! an image and describes how the GPU should interpret the data. It is needed when an image is
//! to be used in a shader descriptor or as a framebuffer attachment.

use crate::device::Device;
use crate::format::{ChromaSampling, Format, FormatFeatures};
use crate::image::sys::UnsafeImage;
use crate::image::{
    dimensions_of, image_dimensions, whole_aspects, whole_aspects_spec, ImageAccess, ImageAspects,
    ImageDimensions, ImageInner, ImageSubresourceRange, ImageTiling, ImageType, ImageUsage,
    SampleCount,
};
use crate::sampler::{ComponentMapping, SamplerYcbcrConversion};
use crate::{
    names, requirement_says, OomError, RequirementNotMet, RequiresOneOf, Version, VulkanError,
};
use crate::{requirement_message, requirement_text};
use vstd::prelude::*;

verus! {

/// The geometry type of an image view.
#[derive(Clone, Copy, Debug, PartialEq, Eq, Hash, Structural)]
pub enum ImageViewType {
    Dim1d,
    Dim2d,
    Dim3d,
    Cube,
    Dim1dArray,
    Dim2dArray,
    CubeArray,
}

impl ImageViewType {
    /// Whether the type is arrayed.
    pub open spec fn is_arrayed_spec(self) -> bool {
        self is Dim1dArray || self is Dim2dArray || self is CubeArray
    }

    /// Returns whether the type is arrayed.
    pub fn is_arrayed(&self) -> (r: bool)
        ensures
            r == self.is_arrayed_spec(),
    {
        match self {
            ImageViewType::Dim1d
            | ImageViewType::Dim2d
            | ImageViewType::Dim3d
            | ImageViewType::Cube => false,
            ImageViewType::Dim1dArray | ImageViewType::Dim2dArray | ImageViewType::CubeArray => true,
        }
    }

    /// Whether a view of this type can be made of an image of the given
    /// type: views of one dimension of images of one dimension; views of two
    /// dimensions of images of two or three; cubes of images of two; views of
    /// three dimensions of images of three.
    pub open spec fn is_compatible_with_spec(self, image_type: ImageType) -> bool {
        match self {
            ImageViewType::Dim1d | ImageViewType::Dim1dArray => image_type is Dim1d,
            ImageViewType::Dim2d | ImageViewType::Dim2dArray => image_type is Dim2d
                || image_type is Dim3d,
            ImageViewType::Cube | ImageViewType::CubeArray => image_type is Dim2d,
            ImageViewType::Dim3d => image_type is Dim3d,
        }
    }

    /// Returns whether `self` is compatible with the given `image_type`.
    pub fn is_compatible_with(&self, image_type: ImageType) -> (r: bool)
        ensures
            r == self.is_compatible_with_spec(image_type),
    {
        match (*self, image_type) {
            (ImageViewType::Dim1d, ImageType::Dim1d) => true,
            (ImageViewType::Dim1dArray, ImageType::Dim1d) => true,
            (ImageViewType::Dim2d, ImageType::Dim2d) => true,
            (ImageViewType::Dim2d, ImageType::Dim3d) => true,
            (ImageViewType::Dim2dArray, ImageType::Dim2d) => true,
            (ImageViewType::Dim2dArray, ImageType::Dim3d) => true,
            (ImageViewType::Cube, ImageType::Dim2d) => true,
            (ImageViewType::CubeArray, ImageType::Dim2d) => true,
            (ImageViewType::Dim3d, ImageType::Dim3d) => true,
            _ => false,
        }
    }
}

/// Parameters to create a new `ImageView`.
#[derive(Debug)]
pub struct ImageViewCreateInfo {
    /// The image view type.
    ///
    /// The view type must be compatible with the dimensions of the image and the selected array
    /// layers.
    ///
    /// The default value is [`ImageViewType::Dim2d`].
    pub view_type: ImageViewType,
    /// The format of the image view.
    ///
    /// If this is set to a format that is different from the image, the image must be created with
    /// the `mutable_format` flag.
    ///
    /// The default value is `None`, which must be overridden.
    pub format: Option<Format>,
    /// How to map components of each pixel.
    ///
    /// The default value is [`ComponentMapping::identity()`].
    pub component_mapping: ComponentMapping,
    /// The subresource range of the image that the view should cover.
    ///
    /// The default value is empty, which must be overridden.
    pub subresource_range: ImageSubresourceRange,
    /// How the image view is going to be used.
    ///
    /// If `usage` is empty, then a default value is used based on the parent image's usages.
    /// Depending on the image aspects selected in `subresource_range`,
    /// the default `usage` will be equal to the parent image's `usage`, its `stencil_usage`,
    /// or the intersection of the two.
    ///
    /// The default value is [`ImageUsage::empty()`].
    pub usage: ImageUsage,
    /// The sampler YCbCr conversion to be used with the image view.
    ///
    /// The default value is `None`.
    pub sampler_ycbcr_conversion: Option<SamplerYcbcrConversion>,
}

impl Default for ImageViewCreateInfo {
    fn default() -> (info: ImageViewCreateInfo)
        ensures
            info.view_type == ImageViewType::Dim2d,
            info.format is None,
            info.component_mapping == ComponentMapping::identity_spec(),
            info.subresource_range.aspects == ImageAspects::empty_spec(),
            info.subresource_range.array_layers == (0u32..0u32),
            info.subresource_range.mip_levels == (0u32..0u32),
            info.usage == ImageUsage::empty_spec(),
            info.sampler_ycbcr_conversion is None,
    {
        ImageViewCreateInfo {
            view_type: ImageViewType::Dim2d,
            format: None,
            component_mapping: ComponentMapping::identity(),
            subresource_range: ImageSubresourceRange {
                aspects: ImageAspects::empty(),
                array_layers: 0..0,
                mip_levels: 0..0,
            },
            usage: ImageUsage::empty(),
            sampler_ycbcr_conversion: None,
        }
    }
}

/// The type of the view of a whole image of the given dimensions: arrayed
/// where the image has more or less than one layer.
pub open spec fn view_type_of(dimensions: ImageDimensions) -> ImageViewType {
    match dimensions {
        ImageDimensions::Dim1d { array_layers, .. } => if array_layers == 1 {
            ImageViewType::Dim1d
        } else {
            ImageViewType::Dim1dArray
        },
        ImageDimensions::Dim2d { array_layers, .. } => if array_layers == 1 {
            ImageViewType::Dim2d
        } else {
            ImageViewType::Dim2dArray
        },
        ImageDimensions::Dim3d { .. } => ImageViewType::Dim3d,
    }
}

impl ImageViewCreateInfo {
    /// Returns an `ImageViewCreateInfo` with the `view_type` determined from the image type and
    /// array layers, and `subresource_range` determined from the image format and covering the
    /// whole image.
    pub fn from_image<I: ImageAccess>(image: &I) -> (info: ImageViewCreateInfo)
        requires
            image.inner_spec().image.format is Some,
        ensures
            info.view_type == view_type_of(dimensions_of(image.inner_spec())),
            info.format == image.inner_spec().image.format,
            info.component_mapping == ComponentMapping::identity_spec(),
            info.subresource_range.aspects == whole_aspects_spec(
                image.inner_spec().image.format->0,
            ),
            info.subresource_range.mip_levels == (0u32..image.inner_spec().num_mipmap_levels),
            info.subresource_range.array_layers == (0u32..dimensions_of(
                image.inner_spec(),
            ).array_layers_spec()),
            info.usage == ImageUsage::empty_spec(),
            info.sampler_ycbcr_conversion is None,
    {
        let inner = image.inner();
        let dimensions = image_dimensions(image);
        let format = inner.image.format.unwrap();
        ImageViewCreateInfo {
            view_type: match dimensions {
                ImageDimensions::Dim1d { array_layers, .. } => if array_layers == 1 {
                    ImageViewType::Dim1d
                } else {
                    ImageViewType::Dim1dArray
                },
                ImageDimensions::Dim2d { array_layers, .. } => if array_layers == 1 {
                    ImageViewType::Dim2d
                } else {
                    ImageViewType::Dim2dArray
                },
                ImageDimensions::Dim3d { .. } => ImageViewType::Dim3d,
            },
            format: Some(format),
            component_mapping: ComponentMapping::identity(),
            subresource_range: ImageSubresourceRange {
                aspects: whole_aspects(format),
                mip_levels: 0..inner.num_mipmap_levels,
                array_layers: 0..dimensions.array_layers(),
            },
            usage: ImageUsage::empty(),
            sampler_ycbcr_conversion: None,
        }
    }
}

/// Error that can happen when creating an image view.
#[derive(Clone, Copy, Debug, PartialEq, Eq)]
pub enum ImageViewCreationError {
    /// Allocating memory failed.
    OomError(OomError),
    /// Something was asked for that the device does not allow.
    RequirementNotMet { required_for: &'static str, requires_one_of: RequiresOneOf },
    /// A 2D image view was requested from a 3D image, but a range of multiple mip levels was
    /// specified.
    Array2dCompatibleMultipleMipLevels,
    /// The specified range of array layers was not a subset of those in the image.
    ArrayLayersOutOfRange { range_end: u32, max: u32 },
    /// The image has the `block_texel_view_compatible` flag, but a range of multiple array layers
    /// was specified.
    BlockTexelViewCompatibleMultipleArrayLayers,
    /// The image has the `block_texel_view_compatible` flag, but a range of multiple mip levels
    /// was specified.
    BlockTexelViewCompatibleMultipleMipLevels,
    /// The image has the `block_texel_view_compatible` flag, and an uncompressed format was
    /// requested, and the image view type was `Dim3d`.
    BlockTexelViewCompatibleUncompressedIs3d,
    /// The requested format has chroma subsampling, but the width and/or height of the image was
    /// not a multiple of 2.
    FormatChromaSubsamplingInvalidImageDimensions,
    /// The requested format was not compatible with the image.
    FormatNotCompatible,
    /// The given format was not supported by the device.
    FormatNotSupported,
    /// The format requires a sampler YCbCr conversion, but none was provided.
    FormatRequiresSamplerYcbcrConversion { format: Format },
    /// A requested usage flag was not supported by the given format.
    FormatUsageNotSupported { usage: &'static str },
    /// An aspect was selected that was not present in the image.
    ImageAspectsNotCompatible { aspects: ImageAspects, image_aspects: ImageAspects },
    /// The image was not created with one of the required usages for image views.
    ImageMissingUsage,
    /// A 2D image view was requested from a 3D image, but the image was not created with the
    /// `array_2d_compatible` flag.
    ImageNotArray2dCompatible,
    /// A cube image view type was requested, but the image was not created with the
    /// `cube_compatible` flag.
    ImageNotCubeCompatible,
    /// The given image view type was not compatible with the type of the image.
    ImageTypeNotCompatible,
    /// The requested [`ImageViewType`] was not compatible with the image, or with the specified
    /// ranges of array layers and mipmap levels.
    IncompatibleType,
    /// The specified range of mip levels was not a subset of those in the image.
    MipLevelsOutOfRange { range_end: u32, max: u32 },
    /// The image has multisampling enabled, but the image view type was not `Dim2d` or
    /// `Dim2dArray`.
    MultisamplingNot2d,
    /// Sampler YCbCr conversion was enabled, but `component_mapping` was not the identity mapping.
    SamplerYcbcrConversionComponentMappingNotIdentity { component_mapping: ComponentMapping },
    /// The `CubeArray` image view type was specified, but the range of array layers did not have a
    /// size that is a multiple 6.
    TypeCubeArrayNotMultipleOf6ArrayLayers,
    /// The `Cube` image view type was specified, but the range of array layers did not have a size
    /// of 6.
    TypeCubeNot6ArrayLayers,
    /// A non-arrayed image view type was specified, but a range of multiple array layers was
    /// specified.
    TypeNonArrayedMultipleArrayLayers,
    /// The provided `usage` is not supported by the parent image.
    UsageNotSupportedByImage { usage: ImageUsage, supported_usage: ImageUsage },
}

impl ImageViewCreationError {
    /// The error of a lack of memory.
    pub fn from_oom(err: OomError) -> (r: ImageViewCreationError)
        ensures
            r == ImageViewCreationError::OomError(err),
    {
        ImageViewCreationError::OomError(err)
    }

    /// The error that stands for an error of the driver: one of its two
    /// errors on memory.
    pub fn from_vulkan_error(err: VulkanError) -> (r: ImageViewCreationError)
        requires
            OomError::convertible(err),
        ensures
            r == ImageViewCreationError::OomError(OomError::from_vulkan_error_spec(err)),
    {
        ImageViewCreationError::OomError(OomError::from_vulkan_error(err))
    }

    /// The error of a requirement that the device does not meet.
    pub fn from_requirement(err: RequirementNotMet) -> (r: ImageViewCreationError)
        ensures
            r matches ImageViewCreationError::RequirementNotMet { required_for, requires_one_of }
                && required_for == err.required_for && requires_one_of == err.requires_one_of,
    {
        ImageViewCreationError::RequirementNotMet {
            required_for: err.required_for,
            requires_one_of: err.requires_one_of,
        }
    }

    /// What went wrong, in words.
    pub fn to_string(&self) -> (s: String)
        ensures
            s@ == match *self {
                ImageViewCreationError::OomError(_) => "allocating memory failed"@,
                ImageViewCreationError::RequirementNotMet { required_for, requires_one_of } => requirement_text(
                    required_for,
                    requires_one_of,
                ),
                ImageViewCreationError::Array2dCompatibleMultipleMipLevels => "a 2D image view was requested from a 3D image, but a range of multiple mip levels was specified"@,
                ImageViewCreationError::ArrayLayersOutOfRange { .. } => "the specified range of array layers was not a subset of those in the image"@,
                ImageViewCreationError::BlockTexelViewCompatibleMultipleArrayLayers => "the image has the `block_texel_view_compatible` flag, but a range of multiple array layers was specified"@,
                ImageViewCreationError::BlockTexelViewCompatibleMultipleMipLevels => "the image has the `block_texel_view_compatible` flag, but a range of multiple mip levels was specified"@,
                ImageViewCreationError::BlockTexelViewCompatibleUncompressedIs3d => "the image has the `block_texel_view_compatible` flag, and an uncompressed format was requested, and the image view type was `Dim3d`"@,
                ImageViewCreationError::FormatChromaSubsamplingInvalidImageDimensions => "the requested format has chroma subsampling, but the width and/or height of the image was not a multiple of 2"@,
                ImageViewCreationError::FormatNotCompatible => "the requested format was not compatible with the image"@,
                ImageViewCreationError::FormatNotSupported => "the given format was not supported by the device"@,
                ImageViewCreationError::FormatRequiresSamplerYcbcrConversion { .. } => "the format requires a sampler YCbCr conversion, but none was provided"@,
                ImageViewCreationError::FormatUsageNotSupported { .. } => "a requested usage flag was not supported by the given format"@,
                ImageViewCreationError::ImageAspectsNotCompatible { .. } => "an aspect was selected that was not present in the image"@,
                ImageViewCreationError::ImageMissingUsage => "the image was not created with one of the required usages for image views"@,
                ImageViewCreationError::ImageNotArray2dCompatible => "a 2D image view was requested from a 3D image, but the image was not created with the `array_2d_compatible` flag"@,
                ImageViewCreationError::ImageNotCubeCompatible => "a cube image view type was requested, but the image was not created with the `cube_compatible` flag"@,
                ImageViewCreationError::ImageTypeNotCompatible => "the given image view type was not compatible with the type of the image"@,
                ImageViewCreationError::IncompatibleType => "image view type is not compatible with image, array layers or mipmap levels"@,
                ImageViewCreationError::MipLevelsOutOfRange { .. } => "the specified range of mip levels was not a subset of those in the image"@,
                ImageViewCreationError::MultisamplingNot2d => "the image has multisampling enabled, but the image view type was not `Dim2d` or `Dim2dArray`"@,
                ImageViewCreationError::SamplerYcbcrConversionComponentMappingNotIdentity { .. } => "sampler YCbCr conversion was enabled, but `component_mapping` was not the identity mapping"@,
                ImageViewCreationError::TypeCubeArrayNotMultipleOf6ArrayLayers => "the `CubeArray` image view type was specified, but the range of array layers did not have a size that is a multiple 6"@,
                ImageViewCreationError::TypeCubeNot6ArrayLayers => "the `Cube` image view type was specified, but the range of array layers did not have a size of 6"@,
                ImageViewCreationError::TypeNonArrayedMultipleArrayLayers => "a non-arrayed image view type was specified, but a range of multiple array layers was specified"@,
                ImageViewCreationError::UsageNotSupportedByImage { .. } => "the provided `usage` is not supported by the parent image"@,
            },
    {
        match self {
            ImageViewCreationError::OomError(_) => "allocating memory failed".to_owned(),
            ImageViewCreationError::RequirementNotMet { required_for, requires_one_of } => requirement_message(
                required_for,
                requires_one_of,
            ),
            ImageViewCreationError::Array2dCompatibleMultipleMipLevels => "a 2D image view was requested from a 3D image, but a range of multiple mip levels was specified".to_owned(),
            ImageViewCreationError::ArrayLayersOutOfRange { .. } => "the specified range of array layers was not a subset of those in the image".to_owned(),
            ImageViewCreationError::BlockTexelViewCompatibleMultipleArrayLayers => "the image has the `block_texel_view_compatible` flag, but a range of multiple array layers was specified".to_owned(),
            ImageViewCreationError::BlockTexelViewCompatibleMultipleMipLevels => "the image has the `block_texel_view_compatible` flag, but a range of multiple mip levels was specified".to_owned(),
            ImageViewCreationError::BlockTexelViewCompatibleUncompressedIs3d => "the image has the `block_texel_view_compatible` flag, and an uncompressed format was requested, and the image view type was `Dim3d`".to_owned(),
            ImageViewCreationError::FormatChromaSubsamplingInvalidImageDimensions => "the requested format has chroma subsampling, but the width and/or height of the image was not a multiple of 2".to_owned(),
            ImageViewCreationError::FormatNotCompatible => "the requested format was not compatible with the image".to_owned(),
            ImageViewCreationError::FormatNotSupported => "the given format was not supported by the device".to_owned(),
            ImageViewCreationError::FormatRequiresSamplerYcbcrConversion { .. } => "the format requires a sampler YCbCr conversion, but none was provided".to_owned(),
            ImageViewCreationError::FormatUsageNotSupported { .. } => "a requested usage flag was not supported by the given format".to_owned(),
            ImageViewCreationError::ImageAspectsNotCompatible { .. } => "an aspect was selected that was not present in the image".to_owned(),
            ImageViewCreationError::ImageMissingUsage => "the image was not created with one of the required usages for image views".to_owned(),
            ImageViewCreationError::ImageNotArray2dCompatible => "a 2D image view was requested from a 3D image, but the image was not created with the `array_2d_compatible` flag".to_owned(),
            ImageViewCreationError::ImageNotCubeCompatible => "a cube image view type was requested, but the image was not created with the `cube_compatible` flag".to_owned(),
            ImageViewCreationError::ImageTypeNotCompatible => "the given image view type was not compatible with the type of the image".to_owned(),
            ImageViewCreationError::IncompatibleType => "image view type is not compatible with image, array layers or mipmap levels".to_owned(),
            ImageViewCreationError::MipLevelsOutOfRange { .. } => "the specified range of mip levels was not a subset of those in the image".to_owned(),
            ImageViewCreationError::MultisamplingNot2d => "the image has multisampling enabled, but the image view type was not `Dim2d` or `Dim2dArray`".to_owned(),
            ImageViewCreationError::SamplerYcbcrConversionComponentMappingNotIdentity { .. } => "sampler YCbCr conversion was enabled, but `component_mapping` was not the identity mapping".to_owned(),
            ImageViewCreationError::TypeCubeArrayNotMultipleOf6ArrayLayers => "the `CubeArray` image view type was specified, but the range of array layers did not have a size that is a multiple 6".to_owned(),
            ImageViewCreationError::TypeCubeNot6ArrayLayers => "the `Cube` image view type was specified, but the range of array layers did not have a size of 6".to_owned(),
            ImageViewCreationError::TypeNonArrayedMultipleArrayLayers => "a non-arrayed image view type was specified, but a range of multiple array layers was specified".to_owned(),
            ImageViewCreationError::UsageNotSupportedByImage { .. } => "the provided `usage` is not supported by the parent image".to_owned(),
        }
    }
}

/// Why a view of an image cannot be created.
pub enum ImageViewRefusal {
    /// The device lacks something: what was asked for, and the version, the
    /// features and the extensions of which one would do.
    Requirement {
        text: Seq<char>,
        api_version: Option<Version>,
        features: Seq<Seq<char>>,
        device_extensions: Seq<Seq<char>>,
    },
    /// The format cannot be used in the named way.
    FormatUsage(Seq<char>),
    /// Another rule is broken.
    Error(ImageViewCreationError),
}

impl ImageViewRefusal {
    /// Whether an error reports this refusal.
    pub open spec fn reported_by(self, err: ImageViewCreationError) -> bool {
        match self {
            ImageViewRefusal::Requirement { text, api_version, features, device_extensions } => err matches ImageViewCreationError::RequirementNotMet {
                required_for,
                requires_one_of,
            } && requirement_says(
                required_for,
                requires_one_of,
                text,
                api_version,
                features,
                device_extensions,
            ),
            ImageViewRefusal::FormatUsage(name) => err matches ImageViewCreationError::FormatUsageNotSupported {
                usage,
            } && usage@ == name,
            ImageViewRefusal::Error(refusal) => err == refusal,
        }
    }
}

/// The usage of a view that names none: that of the image for the aspects
/// of the view. The stencil aspect has a usage of its own.
pub open spec fn default_usage_spec(aspects: ImageAspects, image: UnsafeImage) -> ImageUsage {
    let has_non_stencil_aspect = aspects.color || aspects.depth || aspects.metadata
        || aspects.plane0 || aspects.plane1 || aspects.plane2 || aspects.memory_plane0
        || aspects.memory_plane1 || aspects.memory_plane2;
    if aspects.stencil && has_non_stencil_aspect {
        image.usage.intersection_spec(image.stencil_usage)
    } else if aspects.stencil {
        image.stencil_usage
    } else {
        image.usage
    }
}

/// What the device reports of a view of the given format of an image: what
/// it can do with the image, or with the format and the tiling of the image
/// where the format is another one.
pub open spec fn reported_features_spec(device: &Device, format: Format, image: UnsafeImage) -> FormatFeatures {
    if Some(format) != image.format {
        let properties = device.physical_device.format_properties_spec(format);
        match image.tiling {
            ImageTiling::Optimal => properties.optimal_tiling_features,
            ImageTiling::Linear => properties.linear_tiling_features,
        }
    } else {
        image.format_features
    }
}

/// The features of a format on a device that does not report all of them:
/// three of them are worked out from the format and the features of the
/// device.
pub open spec fn completed_features_spec(
    device: &Device,
    format: Format,
    reported: FormatFeatures,
) -> FormatFeatures {
    if device.enabled_extensions.khr_format_feature_flags2 {
        reported
    } else {
        let without_format = format.shader_storage_image_without_format_spec();
        FormatFeatures {
            sampled_image: reported.sampled_image,
            storage_image: reported.storage_image,
            storage_image_atomic: reported.storage_image_atomic,
            storage_read_without_format: without_format
                && device.enabled_features.shader_storage_image_read_without_format,
            storage_write_without_format: without_format
                && device.enabled_features.shader_storage_image_write_without_format,
            color_attachment: reported.color_attachment,
            color_attachment_blend: reported.color_attachment_blend,
            depth_stencil_attachment: reported.depth_stencil_attachment,
            uniform_texel_buffer: reported.uniform_texel_buffer,
            storage_texel_buffer: reported.storage_texel_buffer,
            storage_texel_buffer_atomic: reported.storage_texel_buffer_atomic,
            vertex_buffer: reported.vertex_buffer,
            transfer_src: reported.transfer_src,
            transfer_dst: reported.transfer_dst,
            blit_src: reported.blit_src,
            blit_dst: reported.blit_dst,
            sampled_image_filter_linear: reported.sampled_image_filter_linear,
            sampled_image_depth_comparison: format.type_color_spec() is None
                && reported.sampled_image,
        }
    }
}

/// What the device can do with a view of the given format of an image.
pub open spec fn view_format_features_spec(device: &Device, format: Format, image: UnsafeImage) -> FormatFeatures {
    completed_features_spec(device, format, reported_features_spec(device, format, image))
}

/// The number of aspects of a view among color, depth, stencil and the
/// three planes.
pub open spec fn view_aspect_count(aspects: ImageAspects) -> int {
    (if aspects.color { 1int } else { 0int }) + (if aspects.depth { 1int } else { 0int }) + (
    if aspects.stencil { 1int } else { 0int }) + (if aspects.plane0 { 1int } else { 0int }) + (
    if aspects.plane1 { 1int } else { 0int }) + (if aspects.plane2 { 1int } else { 0int })
}

/// The index of the plane that the aspects of a view select.
pub open spec fn selected_plane(aspects: ImageAspects) -> int {
    if aspects.plane0 {
        0
    } else if aspects.plane1 {
        1
    } else {
        2
    }
}

/// Whether a view can be asked for at all: a format is named; the ranges of
/// mip levels and of array layers are not empty; one aspect is selected, or
/// depth and stencil together; the image has a format; and the version of the
/// image that lies behind each rule is there where the rule is reached.
pub open spec fn image_view_askable(device: &Device, inner: ImageInner, info: &ImageViewCreateInfo) -> bool {
    let aspects = info.subresource_range.aspects;
    let image = inner.image;
    &&& info.format is Some
    &&& info.subresource_range.mip_levels.start < info.subresource_range.mip_levels.end
    &&& info.subresource_range.array_layers.start < info.subresource_range.array_layers.end
    &&& !(aspects.metadata || aspects.memory_plane0 || aspects.memory_plane1
        || aspects.memory_plane2)
    &&& (view_aspect_count(aspects) == 1 || (aspects.depth && aspects.stencil && !(aspects.color
        || aspects.plane0 || aspects.plane1 || aspects.plane2)))
    &&& image.format is Some
    &&& (dimensions_of(inner).image_type_spec() is Dim3d && (info.view_type is Dim2d
        || info.view_type is Dim2dArray) ==> image.dimensions.mip_level_dimensions_spec(
        info.subresource_range.mip_levels.start,
    ) is Some)
    &&& (image.flags.mutable_format && image.format->0.plane_count_spec() > 0 && !aspects.color ==> (
    aspects.plane0 || aspects.plane1 || aspects.plane2) && selected_plane(aspects)
        < image.format->0.plane_count_spec())
    &&& (info.sampler_ycbcr_conversion matches Some(conversion) ==> conversion.device
        == device.handle)
}

/// Whether a view that names a usage of its own names that of the image.
pub open spec fn has_non_default_usage_spec(inner: ImageInner, info: &ImageViewCreateInfo) -> bool {
    !info.usage.is_empty_spec() && info.usage == default_usage_spec(
        info.subresource_range.aspects,
        inner.image,
    )
}

/// The usage of a view: the one that it names, or that of the image where it
/// names none.
pub open spec fn view_usage_spec(inner: ImageInner, info: &ImageViewCreateInfo) -> ImageUsage {
    if info.usage.is_empty_spec() {
        default_usage_spec(info.subresource_range.aspects, inner.image)
    } else {
        info.usage
    }
}

/// The first rule on the device, the aspects and the type of a view that is
/// broken, if one is.
pub open spec fn view_shape_refusal(device: &Device, inner: ImageInner, info: &ImageViewCreateInfo) -> Option<
    ImageViewRefusal,
> {
    let image = inner.image;
    let format = info.format->0;
    let view_type = info.view_type;
    let range = info.subresource_range;
    let aspects = range.aspects;
    let level_count = range.mip_levels.end - range.mip_levels.start;
    let image_type = dimensions_of(inner).image_type_spec();
    let features = view_format_features_spec(device, format, image);
    if format.device_refusal(device) {
        Some(
            ImageViewRefusal::Requirement {
                text: "`Format` is a YCbCr format"@,
                api_version: Some(Version::major_minor_spec(1, 1)),
                features: Seq::empty(),
                device_extensions: seq!["khr_sampler_ycbcr_conversion"@],
            },
        )
    } else if aspects.device_refusal(device) {
        Some(
            ImageViewRefusal::Requirement {
                text: "`ImageAspects::plane0`"@,
                api_version: Some(Version::major_minor_spec(1, 1)),
                features: Seq::empty(),
                device_extensions: seq!["khr_sampler_ycbcr_conversion"@],
            },
        )
    } else if !image.format->0.aspects_spec().contains_spec(aspects) {
        Some(
            ImageViewRefusal::Error(
                ImageViewCreationError::ImageAspectsNotCompatible {
                    aspects,
                    image_aspects: image.format->0.aspects_spec(),
                },
            ),
        )
    } else if features == FormatFeatures::empty_spec() {
        Some(ImageViewRefusal::Error(ImageViewCreationError::FormatNotSupported))
    } else if !view_type.is_compatible_with_spec(image_type) {
        Some(ImageViewRefusal::Error(ImageViewCreationError::ImageTypeNotCompatible))
    } else if (view_type is Cube || view_type is CubeArray) && !image.flags.cube_compatible {
        Some(ImageViewRefusal::Error(ImageViewCreationError::ImageNotCubeCompatible))
    } else if view_type is CubeArray && !device.enabled_features.image_cube_array {
        Some(
            ImageViewRefusal::Requirement {
                text: "`create_info.viewtype` is `ImageViewType::CubeArray`"@,
                api_version: None,
                features: seq!["image_cube_array"@],
                device_extensions: Seq::empty(),
            },
        )
    } else if range.mip_levels.end > image.mip_levels {
        Some(
            ImageViewRefusal::Error(
                ImageViewCreationError::MipLevelsOutOfRange {
                    range_end: range.mip_levels.end,
                    max: image.mip_levels,
                },
            ),
        )
    } else if image_type is Dim3d && (view_type is Dim2d || view_type is Dim2dArray) {
        let max = image.dimensions.mip_level_dimensions_spec(range.mip_levels.start)->0.depth_spec();
        if !image.flags.array_2d_compatible {
            Some(ImageViewRefusal::Error(ImageViewCreationError::ImageNotArray2dCompatible))
        } else if level_count != 1 {
            Some(
                ImageViewRefusal::Error(ImageViewCreationError::Array2dCompatibleMultipleMipLevels),
            )
        } else if range.array_layers.end > max {
            Some(
                ImageViewRefusal::Error(
                    ImageViewCreationError::ArrayLayersOutOfRange {
                        range_end: range.array_layers.end,
                        max,
                    },
                ),
            )
        } else {
            None
        }
    } else if range.array_layers.end > image.dimensions.array_layers_spec() {
        Some(
            ImageViewRefusal::Error(
                ImageViewCreationError::ArrayLayersOutOfRange {
                    range_end: range.array_layers.end,
                    max: image.dimensions.array_layers_spec(),
                },
            ),
        )
    } else {
        None
    }
}

/// The first rule on the usage of a view that is broken, if one is.
pub open spec fn view_usage_refusal(device: &Device, inner: ImageInner, info: &ImageViewCreateInfo) -> Option<
    ImageViewRefusal,
> {
    let image = inner.image;
    let format = info.format->0;
    let view_type = info.view_type;
    let features = view_format_features_spec(device, format, image);
    let usage = view_usage_spec(inner, info);
    let default_usage = default_usage_spec(info.subresource_range.aspects, image);
    if !(image.samples is Sample1) && !(view_type is Dim2d || view_type is Dim2dArray) {
        Some(ImageViewRefusal::Error(ImageViewCreationError::MultisamplingNot2d))
    } else if has_non_default_usage_spec(inner, info) && !device.api_version.at_least_spec(
        Version::major_minor_spec(1, 1),
    ) && !device.enabled_extensions.khr_maintenance2 {
        Some(
            ImageViewRefusal::Requirement {
                text: "`create_info.usage` is not the default value"@,
                api_version: Some(Version::major_minor_spec(1, 1)),
                features: Seq::empty(),
                device_extensions: seq!["khr_maintenance2"@],
            },
        )
    } else if has_non_default_usage_spec(inner, info) && !default_usage.contains_spec(usage) {
        Some(
            ImageViewRefusal::Error(
                ImageViewCreationError::UsageNotSupportedByImage {
                    usage,
                    supported_usage: default_usage,
                },
            ),
        )
    } else if !(image.usage.sampled || image.usage.storage || image.usage.color_attachment
        || image.usage.depth_stencil_attachment || image.usage.input_attachment
        || image.usage.transient_attachment) {
        Some(ImageViewRefusal::Error(ImageViewCreationError::ImageMissingUsage))
    } else if usage.sampled && !features.sampled_image {
        Some(ImageViewRefusal::FormatUsage("sampled"@))
    } else if usage.storage && !features.storage_image {
        Some(ImageViewRefusal::FormatUsage("storage"@))
    } else if usage.color_attachment && !features.color_attachment {
        Some(ImageViewRefusal::FormatUsage("color_attachment"@))
    } else if usage.depth_stencil_attachment && !features.depth_stencil_attachment {
        Some(ImageViewRefusal::FormatUsage("depth_stencil_attachment"@))
    } else if usage.input_attachment && !(features.color_attachment
        || features.depth_stencil_attachment) {
        Some(ImageViewRefusal::FormatUsage("input_attachment"@))
    } else {
        None
    }
}

/// The first rule on the format of a view that is broken, if one is.
pub open spec fn view_compatibility_refusal(
    device: &Device,
    inner: ImageInner,
    info: &ImageViewCreateInfo,
) -> Option<ImageViewRefusal> {
    let image = inner.image;
    let image_format = image.format->0;
    let format = info.format->0;
    let view_type = info.view_type;
    let range = info.subresource_range;
    let aspects = range.aspects;
    let level_count = range.mip_levels.end - range.mip_levels.start;
    let layer_count = range.array_layers.end - range.array_layers.start;
    let incompatible = Some(ImageViewRefusal::Error(ImageViewCreationError::FormatNotCompatible));
    if image.flags.block_texel_view_compatible && !(format.compatibility_spec()
        == image_format.compatibility_spec() || format.block_size_spec()
        == image_format.block_size_spec()) {
        incompatible
    } else if image.flags.block_texel_view_compatible && layer_count != 1 {
        Some(
            ImageViewRefusal::Error(
                ImageViewCreationError::BlockTexelViewCompatibleMultipleArrayLayers,
            ),
        )
    } else if image.flags.block_texel_view_compatible && level_count != 1 {
        Some(
            ImageViewRefusal::Error(
                ImageViewCreationError::BlockTexelViewCompatibleMultipleMipLevels,
            ),
        )
    } else if image.flags.block_texel_view_compatible && format.compression_spec() is None
        && view_type is Dim3d {
        Some(
            ImageViewRefusal::Error(ImageViewCreationError::BlockTexelViewCompatibleUncompressedIs3d),
        )
    } else if !image.flags.block_texel_view_compatible && image.flags.mutable_format
        && image_format.plane_count_spec() == 0 && format.compatibility_spec()
        != image_format.compatibility_spec() {
        incompatible
    } else if image.flags.mutable_format && image_format.plane_count_spec() > 0 && !aspects.color {
        if format.compatibility_spec() != image_format.plane_spec(
            selected_plane(aspects),
        )->0.compatibility_spec() {
            incompatible
        } else {
            None
        }
    } else if Some(format) != image.format {
        incompatible
    } else {
        None
    }
}

/// The first rule on the layers, the chroma and the conversion of a view
/// that is broken, if one is.
pub open spec fn view_layers_refusal(device: &Device, inner: ImageInner, info: &ImageViewCreateInfo) -> Option<
    ImageViewRefusal,
> {
    let image = inner.image;
    let format = info.format->0;
    let view_type = info.view_type;
    let range = info.subresource_range;
    let layer_count = range.array_layers.end - range.array_layers.start;
    let odd = Some(
        ImageViewRefusal::Error(
            ImageViewCreationError::FormatChromaSubsamplingInvalidImageDimensions,
        ),
    );
    if (view_type is Dim1d || view_type is Dim2d || view_type is Dim3d) && layer_count != 1 {
        Some(ImageViewRefusal::Error(ImageViewCreationError::TypeNonArrayedMultipleArrayLayers))
    } else if view_type is Cube && layer_count != 6 {
        Some(ImageViewRefusal::Error(ImageViewCreationError::TypeCubeNot6ArrayLayers))
    } else if view_type is CubeArray && layer_count % 6 != 0 {
        Some(
            ImageViewRefusal::Error(ImageViewCreationError::TypeCubeArrayNotMultipleOf6ArrayLayers),
        )
    } else if format.ycbcr_chroma_sampling_spec() == Some(ChromaSampling::Mode422)
        && image.dimensions.width_spec() % 2 != 0 {
        odd
    } else if format.ycbcr_chroma_sampling_spec() == Some(ChromaSampling::Mode420) && (
    image.dimensions.width_spec() % 2 != 0 || image.dimensions.height_spec() % 2 != 0) {
        odd
    } else if info.sampler_ycbcr_conversion is Some {
        if !info.component_mapping.is_identity_spec() {
            Some(
                ImageViewRefusal::Error(
                    ImageViewCreationError::SamplerYcbcrConversionComponentMappingNotIdentity {
                        component_mapping: info.component_mapping,
                    },
                ),
            )
        } else {
            None
        }
    } else if format.ycbcr_chroma_sampling_spec() is Some {
        Some(
            ImageViewRefusal::Error(
                ImageViewCreationError::FormatRequiresSamplerYcbcrConversion { format },
            ),
        )
    } else {
        None
    }
}

/// The first rule that a view of an image breaks, if it breaks one.
pub open spec fn image_view_refusal(device: &Device, inner: ImageInner, info: &ImageViewCreateInfo) -> Option<
    ImageViewRefusal,
> {
    if view_shape_refusal(device, inner, info) is Some {
        view_shape_refusal(device, inner, info)
    } else if view_usage_refusal(device, inner, info) is Some {
        view_usage_refusal(device, inner, info)
    } else if view_compatibility_refusal(device, inner, info) is Some {
        view_compatibility_refusal(device, inner, info)
    } else {
        view_layers_refusal(device, inner, info)
    }
}

/// A wrapper around an image that makes it available to shaders or framebuffers.
#[derive(Debug)]
pub struct ImageView<I> {
    handle: Option<u64>,
    image: I,
    component_mapping: ComponentMapping,
    format: Option<Format>,
    format_features: FormatFeatures,
    sampler_ycbcr_conversion: Option<SamplerYcbcrConversion>,
    subresource_range: ImageSubresourceRange,
    usage: ImageUsage,
    view_type: ImageViewType,
    filter_cubic: bool,
    filter_cubic_minmax: bool,
}

/// The usage of a view that names none: that of the image for the aspects of
/// the view.
pub fn get_default_usage(aspects: ImageAspects, image: &UnsafeImage) -> (usage: ImageUsage)
    ensures
        usage == default_usage_spec(aspects, *image),
{
    let has_stencil_aspect = aspects.stencil;
    let has_non_stencil_aspect = aspects.color || aspects.depth || aspects.metadata
        || aspects.plane0 || aspects.plane1 || aspects.plane2 || aspects.memory_plane0
        || aspects.memory_plane1 || aspects.memory_plane2;
    if has_stencil_aspect && has_non_stencil_aspect {
        image.usage.intersection(&image.stencil_usage)
    } else if has_stencil_aspect {
        image.stencil_usage
    } else {
        image.usage
    }
}

/// What the device reports of a view of the given format of an image.
pub fn reported_features(device: &Device, format: Format, image: &UnsafeImage) -> (features:
    FormatFeatures)
    ensures
        features == reported_features_spec(device, format, *image),
{
    let same = match image.format {
        Some(image_format) => image_format == format,
        None => false,
    };
    if !same {
        let format_properties = device.physical_device.format_properties(format);
        match image.tiling {
            ImageTiling::Optimal => format_properties.optimal_tiling_features,
            ImageTiling::Linear => format_properties.linear_tiling_features,
        }
    } else {
        image.format_features
    }
}

/// The features of a format on a device that does not report all of them.
pub fn completed_features(device: &Device, format: Format, reported: FormatFeatures) -> (features:
    FormatFeatures)
    ensures
        features == completed_features_spec(device, format, reported),
{
    if device.enabled_extensions.khr_format_feature_flags2 {
        reported
    } else {
        let is_without_format = format.shader_storage_image_without_format();
        let no_color = format.type_color().is_none();
        FormatFeatures {
            sampled_image: reported.sampled_image,
            storage_image: reported.storage_image,
            storage_image_atomic: reported.storage_image_atomic,
            storage_read_without_format: is_without_format
                && device.enabled_features.shader_storage_image_read_without_format,
            storage_write_without_format: is_without_format
                && device.enabled_features.shader_storage_image_write_without_format,
            color_attachment: reported.color_attachment,
            color_attachment_blend: reported.color_attachment_blend,
            depth_stencil_attachment: reported.depth_stencil_attachment,
            uniform_texel_buffer: reported.uniform_texel_buffer,
            storage_texel_buffer: reported.storage_texel_buffer,
            storage_texel_buffer_atomic: reported.storage_texel_buffer_atomic,
            vertex_buffer: reported.vertex_buffer,
            transfer_src: reported.transfer_src,
            transfer_dst: reported.transfer_dst,
            blit_src: reported.blit_src,
            blit_dst: reported.blit_dst,
            sampled_image_filter_linear: reported.sampled_image_filter_linear,
            sampled_image_depth_comparison: no_color && reported.sampled_image,
        }
    }
}

/// What the device can do with a view of the given format of an image.
pub fn get_format_features(device: &Device, format: Format, image: &UnsafeImage) -> (features:
    FormatFeatures)
    ensures
        features == view_format_features_spec(device, format, *image),
{
    completed_features(device, format, reported_features(device, format, image))
}

impl<I: ImageAccess> ImageView<I> {
    /// Holds the parameters of a view of an image against the rules, and
    /// gives what the device can do with the view.
    #[verifier::rlimit(60)]
    pub fn validate_new(device: &Device, image: &I, create_info: &ImageViewCreateInfo) -> (result:
        Result<FormatFeatures, ImageViewCreationError>)
        requires
            image_view_askable(device, image.inner_spec(), create_info),
        ensures
            match image_view_refusal(device, image.inner_spec(), create_info) {
                None => result == Ok::<FormatFeatures, ImageViewCreationError>(
                    view_format_features_spec(
                        device,
                        create_info.format->0,
                        image.inner_spec().image,
                    ),
                ),
                Some(refusal) => result matches Err(err) && refusal.reported_by(err),
            },
    {
        let none: &'static [&'static str] = &[];
        proof {
            assert(names(none) =~= Seq::<Seq<char>>::empty());
        }
        let view_type = create_info.view_type;
        let component_mapping = create_info.component_mapping;
        let subresource_range = &create_info.subresource_range;
        let mut usage = create_info.usage;
        let inner = image.inner();
        let image_inner = &inner.image;
        let format = create_info.format.unwrap();
        let level_count = subresource_range.mip_levels.end - subresource_range.mip_levels.start;
        let layer_count = subresource_range.array_layers.end - subresource_range.array_layers.start;
        let aspects = subresource_range.aspects;
        let default_usage = get_default_usage(aspects, image_inner);
        let has_non_default_usage = if usage.is_empty() {
            usage = default_usage;
            false
        } else {
            usage == default_usage
        };
        match format.validate_device(device) {
            Ok(_) => {},
            Err(err) => {
                return Err(ImageViewCreationError::from_requirement(err));
            },
        }
        match aspects.validate_device(device) {
            Ok(_) => {},
            Err(err) => {
                return Err(ImageViewCreationError::from_requirement(err));
            },
        }
        let format_features = get_format_features(device, format, image_inner);
        let image_format = image_inner.format.unwrap();
        if !image_format.aspects().contains(&aspects) {
            return Err(
                ImageViewCreationError::ImageAspectsNotCompatible {
                    aspects,
                    image_aspects: image_format.aspects(),
                },
            );
        }
        if format_features.is_empty() {
            return Err(ImageViewCreationError::FormatNotSupported);
        }
        let image_type = image_dimensions(image).image_type();
        if !view_type.is_compatible_with(image_type) {
            return Err(ImageViewCreationError::ImageTypeNotCompatible);
        }
        let is_cube = match view_type {
            ImageViewType::Cube | ImageViewType::CubeArray => true,
            _ => false,
        };
        let is_cube_array = match view_type {
            ImageViewType::CubeArray => true,
            _ => false,
        };
        let is_2d = match view_type {
            ImageViewType::Dim2d | ImageViewType::Dim2dArray => true,
            _ => false,
        };
        if is_cube && !image_inner.flags.cube_compatible {
            return Err(ImageViewCreationError::ImageNotCubeCompatible);
        }
        if is_cube_array && !device.enabled_features.image_cube_array {
            let features: &'static [&'static str] = &["image_cube_array"];
            assert(names(features) =~= seq!["image_cube_array"@]);
            return Err(
                ImageViewCreationError::from_requirement(
                    RequirementNotMet::new(
                        "`create_info.viewtype` is `ImageViewType::CubeArray`",
                        None,
                        features,
                        none,
                    ),
                ),
            );
        }
        if subresource_range.mip_levels.end > image_inner.mip_levels {
            return Err(
                ImageViewCreationError::MipLevelsOutOfRange {
                    range_end: subresource_range.mip_levels.end,
                    max: image_inner.mip_levels,
                },
            );
        }
        let is_3d_image = match image_type {
            ImageType::Dim3d => true,
            _ => false,
        };
        if is_3d_image && is_2d {
            if !image_inner.flags.array_2d_compatible {
                return Err(ImageViewCreationError::ImageNotArray2dCompatible);
            }
            if level_count != 1 {
                return Err(ImageViewCreationError::Array2dCompatibleMultipleMipLevels);
            }
            // We're using the depth dimension as array layers, but because of mip scaling, the
            // depth, and therefore number of layers available, shrinks as the mip level gets
            // higher.
            let max = image_inner.dimensions.mip_level_dimensions(
                subresource_range.mip_levels.start,
            ).unwrap().depth();
            if subresource_range.array_layers.end > max {
                return Err(
                    ImageViewCreationError::ArrayLayersOutOfRange {
                        range_end: subresource_range.array_layers.end,
                        max,
                    },
                );
            }
        } else {
            if subresource_range.array_layers.end > image_inner.dimensions.array_layers() {
                return Err(
                    ImageViewCreationError::ArrayLayersOutOfRange {
                        range_end: subresource_range.array_layers.end,
                        max: image_inner.dimensions.array_layers(),
                    },
                );
            }
        }
        let single_sampled = match image_inner.samples {
            SampleCount::Sample1 => true,
            _ => false,
        };
        if !single_sampled && !is_2d {
            return Err(ImageViewCreationError::MultisamplingNot2d);
        }
        if has_non_default_usage {
            if !(device.api_version.at_least(Version::v1_1())
                || device.enabled_extensions.khr_maintenance2) {
                let extensions: &'static [&'static str] = &["khr_maintenance2"];
                assert(names(extensions) =~= seq!["khr_maintenance2"@]);
                return Err(
                    ImageViewCreationError::from_requirement(
                        RequirementNotMet::new(
                            "`create_info.usage` is not the default value",
                            Some(Version::v1_1()),
                            none,
                            extensions,
                        ),
                    ),
                );
            }
            if !default_usage.contains(&usage) {
                return Err(
                    ImageViewCreationError::UsageNotSupportedByImage {
                        usage,
                        supported_usage: default_usage,
                    },
                );
            }
        }
        if !(image_inner.usage.sampled || image_inner.usage.storage
            || image_inner.usage.color_attachment || image_inner.usage.depth_stencil_attachment
            || image_inner.usage.input_attachment || image_inner.usage.transient_attachment) {
            return Err(ImageViewCreationError::ImageMissingUsage);
        }
        if usage.sampled && !format_features.sampled_image {
            return Err(ImageViewCreationError::FormatUsageNotSupported { usage: "sampled" });
        }
        if usage.storage && !format_features.storage_image {
            return Err(ImageViewCreationError::FormatUsageNotSupported { usage: "storage" });
        }
        if usage.color_attachment && !format_features.color_attachment {
            return Err(
                ImageViewCreationError::FormatUsageNotSupported { usage: "color_attachment" },
            );
        }
        if usage.depth_stencil_attachment && !format_features.depth_stencil_attachment {
            return Err(
                ImageViewCreationError::FormatUsageNotSupported {
                    usage: "depth_stencil_attachment",
                },
            );
        }
        if usage.input_attachment && !(format_features.color_attachment
            || format_features.depth_stencil_attachment) {
            return Err(
                ImageViewCreationError::FormatUsageNotSupported { usage: "input_attachment" },
            );
        }
        let has_planes = image_format.plane_count() > 0;
        if image_inner.flags.block_texel_view_compatible {
            if !(format.compatibility() == image_format.compatibility() || format.block_size()
                == image_format.block_size()) {
                return Err(ImageViewCreationError::FormatNotCompatible);
            }
            if layer_count != 1 {
                return Err(ImageViewCreationError::BlockTexelViewCompatibleMultipleArrayLayers);
            }
            if level_count != 1 {
                return Err(ImageViewCreationError::BlockTexelViewCompatibleMultipleMipLevels);
            }
            let is_3d_view = match view_type {
                ImageViewType::Dim3d => true,
                _ => false,
            };
            if format.compression().is_none() && is_3d_view {
                return Err(ImageViewCreationError::BlockTexelViewCompatibleUncompressedIs3d);
            }
        } else if image_inner.flags.mutable_format && !has_planes && format.compatibility()
            != image_format.compatibility() {
            return Err(ImageViewCreationError::FormatNotCompatible);
        }
        if image_inner.flags.mutable_format && has_planes && !aspects.color {
            let plane: usize = if aspects.plane0 {
                0
            } else if aspects.plane1 {
                1
            } else {
                2
            };
            let plane_format = image_format.plane(plane).unwrap();
            if format.compatibility() != plane_format.compatibility() {
                return Err(ImageViewCreationError::FormatNotCompatible);
            }
        } else if format != image_format {
            return Err(ImageViewCreationError::FormatNotCompatible);
        }
        let non_arrayed = match view_type {
            ImageViewType::Dim1d | ImageViewType::Dim2d | ImageViewType::Dim3d => true,
            _ => false,
        };
        let is_plain_cube = match view_type {
            ImageViewType::Cube => true,
            _ => false,
        };
        if non_arrayed && layer_count != 1 {
            return Err(ImageViewCreationError::TypeNonArrayedMultipleArrayLayers);
        } else if is_plain_cube && layer_count != 6 {
            return Err(ImageViewCreationError::TypeCubeNot6ArrayLayers);
        } else if is_cube_array && layer_count % 6 != 0 {
            return Err(ImageViewCreationError::TypeCubeArrayNotMultipleOf6ArrayLayers);
        }
        match format.ycbcr_chroma_sampling() {
            Some(ChromaSampling::Mode422) => {
                if image_inner.dimensions.width() % 2 != 0 {
                    return Err(
                        ImageViewCreationError::FormatChromaSubsamplingInvalidImageDimensions,
                    );
                }
            },
            Some(ChromaSampling::Mode420) => {
                if image_inner.dimensions.width() % 2 != 0 || image_inner.dimensions.height() % 2
                    != 0 {
                    return Err(
                        ImageViewCreationError::FormatChromaSubsamplingInvalidImageDimensions,
                    );
                }
            },
            _ => {},
        }
        match &create_info.sampler_ycbcr_conversion {
            Some(_) => {
                if !component_mapping.is_identity() {
                    return Err(
                        ImageViewCreationError::SamplerYcbcrConversionComponentMappingNotIdentity {
                            component_mapping,
                        },
                    );
                }
            },
            None => {
                if format.ycbcr_chroma_sampling().is_some() {
                    return Err(
                        ImageViewCreationError::FormatRequiresSamplerYcbcrConversion { format },
                    );
                }
            },
        }
        Ok(format_features)
    }
}

/// Whether a view names a usage of its own that is the usage of the image.
pub fn has_non_default_usage(image: &UnsafeImage, create_info: &ImageViewCreateInfo) -> (r: bool)
    ensures
        r == (!create_info.usage.is_empty_spec() && create_info.usage == default_usage_spec(
            create_info.subresource_range.aspects,
            *image,
        )),
{
    if create_info.usage.is_empty() {
        false
    } else {
        create_info.usage == get_default_usage(create_info.subresource_range.aspects, image)
    }
}

impl<I: ImageAccess> ImageView<I> {
    /// Prepares a new `ImageView`: holds the parameters against the rules and gives the view as
    /// the driver is to make it.
    pub fn new(device: &Device, image: I, create_info: ImageViewCreateInfo) -> (result: Result<
        ImageView<I>,
        ImageViewCreationError,
    >)
        requires
            image_view_askable(device, image.inner_spec(), &create_info),
        ensures
            match image_view_refusal(device, image.inner_spec(), &create_info) {
                None => result matches Ok(view) && view.image_spec() == image
                    && view.handle_spec() is None && view.format_spec() == create_info.format
                    && view.view_type_spec() == create_info.view_type
                    && view.component_mapping_spec() == create_info.component_mapping
                    && view.range_spec() == create_info.subresource_range
                    && view.usage_spec() == view_usage_spec(image.inner_spec(), &create_info)
                    && view.format_features_spec() == view_format_features_spec(
                    device,
                    create_info.format->0,
                    image.inner_spec().image,
                ) && view.conversion_spec() == create_info.sampler_ycbcr_conversion,
                Some(refusal) => result matches Err(err) && refusal.reported_by(err),
            },
    {
        match ImageView::<I>::validate_new(device, &image, &create_info) {
            Ok(format_features) => Ok(
                ImageView::<I>::from_create_info(image, create_info, format_features),
            ),
            Err(err) => Err(err),
        }
    }

    /// Prepares a default `ImageView`. Equivalent to
    /// `ImageView::new(image, ImageViewCreateInfo::from_image(image))`.
    pub fn new_default(device: &Device, image: I) -> (result: Result<
        ImageView<I>,
        ImageViewCreationError,
    >)
        requires
            image.inner_spec().image.format is Some,
            forall|info: ImageViewCreateInfo| #[trigger]
                whole_view(image.inner_spec(), info) ==> image_view_askable(
                    device,
                    image.inner_spec(),
                    &info,
                ),
        ensures
            exists|info: ImageViewCreateInfo| #[trigger]
                whole_view(image.inner_spec(), info) && match image_view_refusal(
                    device,
                    image.inner_spec(),
                    &info,
                ) {
                    None => result matches Ok(view) && view.image_spec() == image
                        && view.view_type_spec() == info.view_type && view.format_spec()
                        == info.format && view.range_spec() == info.subresource_range,
                    Some(refusal) => result matches Err(err) && refusal.reported_by(err),
                },
    {
        let create_info = ImageViewCreateInfo::from_image(&image);
        assert(whole_view(image.inner_spec(), create_info));
        ImageView::<I>::new(device, image, create_info)
    }

    /// The view that the parameters describe, before the driver has made
    /// it.
    fn from_create_info(image: I, create_info: ImageViewCreateInfo, format_features: FormatFeatures) -> (view:
        ImageView<I>)
        ensures
            view.image_spec() == image,
            view.handle_spec() is None,
            view.format_spec() == create_info.format,
            view.view_type_spec() == create_info.view_type,
            view.component_mapping_spec() == create_info.component_mapping,
            view.range_spec() == create_info.subresource_range,
            view.usage_spec() == view_usage_spec(image.inner_spec(), &create_info),
            view.format_features_spec() == format_features,
            view.conversion_spec() == create_info.sampler_ycbcr_conversion,
    {
        let inner = image.inner();
        let mut usage = create_info.usage;
        if usage.is_empty() {
            usage = get_default_usage(create_info.subresource_range.aspects, &inner.image);
        }
        ImageView {
            handle: None,
            image,
            view_type: create_info.view_type,
            format: create_info.format,
            format_features,
            component_mapping: create_info.component_mapping,
            subresource_range: create_info.subresource_range,
            usage,
            sampler_ycbcr_conversion: create_info.sampler_ycbcr_conversion,
            filter_cubic: false,
            filter_cubic_minmax: false,
        }
    }

    /// Makes a view of a handle that the driver gave, without holding the
    /// parameters against the rules. `cubic` says whether the view can be
    /// read with a cubic filter, and with one that takes the least or the
    /// greatest value, where the device was asked.
    pub fn from_handle(
        device: &Device,
        image: I,
        handle: u64,
        create_info: ImageViewCreateInfo,
        cubic: Option<(bool, bool)>,
    ) -> (view: ImageView<I>)
        requires
            create_info.format is Some,
        ensures
            view.image_spec() == image,
            view.handle_spec() == Some(handle),
            view.format_spec() == create_info.format,
            view.view_type_spec() == create_info.view_type,
            view.range_spec() == create_info.subresource_range,
            view.usage_spec() == view_usage_spec(image.inner_spec(), &create_info),
            view.format_features_spec() == view_format_features_spec(
                device,
                create_info.format->0,
                image.inner_spec().image,
            ),
            view.filter_cubic_spec() == cubic_allowed(device, cubic).0,
            view.filter_cubic_minmax_spec() == cubic_allowed(device, cubic).1,
    {
        let inner = image.inner();
        let format_features = get_format_features(device, create_info.format.unwrap(), &inner.image);
        let mut view = ImageView::<I>::from_create_info(image, create_info, format_features);
        view.created(device, handle, cubic);
        view
    }

    /// Takes note of the handle under which the driver has made the view,
    /// and of what the device says of cubic filters.
    pub fn created(&mut self, device: &Device, handle: u64, cubic: Option<(bool, bool)>)
        ensures
            final(self).handle_spec() == Some(handle),
            final(self).image_spec() == old(self).image_spec(),
            final(self).format_spec() == old(self).format_spec(),
            final(self).view_type_spec() == old(self).view_type_spec(),
            final(self).component_mapping_spec() == old(self).component_mapping_spec(),
            final(self).range_spec() == old(self).range_spec(),
            final(self).usage_spec() == old(self).usage_spec(),
            final(self).format_features_spec() == old(self).format_features_spec(),
            final(self).conversion_spec() == old(self).conversion_spec(),
            final(self).filter_cubic_spec() == cubic_allowed(device, cubic).0,
            final(self).filter_cubic_minmax_spec() == cubic_allowed(device, cubic).1,
    {
        self.handle = Some(handle);
        self.filter_cubic = false;
        self.filter_cubic_minmax = false;
        if device.physical_device.supported_extensions.ext_filter_cubic {
            match cubic {
                Some((filter_cubic, filter_cubic_minmax)) => {
                    self.filter_cubic = filter_cubic;
                    self.filter_cubic_minmax = filter_cubic_minmax;
                },
                None => {},
            }
        }
    }

    /// The image that the view is of.
    pub closed spec fn image_spec(&self) -> I {
        self.image
    }

    /// The driver's handle of the view, once the driver has made it.
    pub closed spec fn handle_spec(&self) -> Option<u64> {
        self.handle
    }

    /// The format of the view.
    pub closed spec fn format_spec(&self) -> Option<Format> {
        self.format
    }

    /// The type of the view.
    pub closed spec fn view_type_spec(&self) -> ImageViewType {
        self.view_type
    }

    /// How the components of the image are mapped to those of the view.
    pub closed spec fn component_mapping_spec(&self) -> ComponentMapping {
        self.component_mapping
    }

    /// The part of the image that the view shows.
    pub closed spec fn range_spec(&self) -> ImageSubresourceRange {
        self.subresource_range
    }

    /// The ways in which the view can be used.
    pub closed spec fn usage_spec(&self) -> ImageUsage {
        self.usage
    }

    /// What the device can do with a view of the view's format.
    pub closed spec fn format_features_spec(&self) -> FormatFeatures {
        self.format_features
    }

    /// The conversion from YCbCr that is applied to the view, if one is.
    pub closed spec fn conversion_spec(&self) -> Option<SamplerYcbcrConversion> {
        self.sampler_ycbcr_conversion
    }

    /// Whether the view can be sampled with a cubic filter.
    pub closed spec fn filter_cubic_spec(&self) -> bool {
        self.filter_cubic
    }

    /// Whether the view can be sampled with a cubic filter that reduces to
    /// the least or the greatest value.
    pub closed spec fn filter_cubic_minmax_spec(&self) -> bool {
        self.filter_cubic_minmax
    }

    /// Returns the wrapped image that this image view was created from.
    pub fn image(&self) -> (image: &I)
        ensures
            *image == self.image_spec(),
    {
        &self.image
    }

    /// The driver's handle of the view, once the driver has made it.
    pub fn internal_object(&self) -> (handle: Option<u64>)
        ensures
            handle == self.handle_spec(),
    {
        self.handle
    }
}

/// Whether a view can be read with a cubic filter, and with one that takes
/// the least or the greatest value: as the device says, where it knows cubic
/// filters.
pub open spec fn cubic_allowed(device: &Device, cubic: Option<(bool, bool)>) -> (bool, bool) {
    match cubic {
        Some(pair) => if device.physical_device.supported_extensions.ext_filter_cubic {
            pair
        } else {
            (false, false)
        },
        None => (false, false),
    }
}

/// Whether the parameters are those of the view of a whole image.
pub open spec fn whole_view(inner: ImageInner, info: ImageViewCreateInfo) -> bool {
    &&& info.view_type == view_type_of(dimensions_of(inner))
    &&& info.format == inner.image.format
    &&& info.component_mapping == ComponentMapping::identity_spec()
    &&& info.subresource_range.aspects == whole_aspects_spec(inner.image.format->0)
    &&& info.subresource_range.mip_levels == (0u32..inner.num_mipmap_levels)
    &&& info.subresource_range.array_layers == (0u32..dimensions_of(inner).array_layers_spec())
    &&& info.usage == ImageUsage::empty_spec()
    &&& info.sampler_ycbcr_conversion is None
}

/// The dimensions of a view: those of the image, with the layers of the
/// view. An image of three dimensions keeps its own.
pub open spec fn view_dimensions_spec(image: ImageDimensions, layers: std::ops::Range<u32>) -> ImageDimensions {
    match image {
        ImageDimensions::Dim1d { width, .. } => ImageDimensions::Dim1d {
            width,
            array_layers: (layers.end - layers.start) as u32,
        },
        ImageDimensions::Dim2d { width, height, .. } => ImageDimensions::Dim2d {
            width,
            height,
            array_layers: (layers.end - layers.start) as u32,
        },
        dimensions => dimensions,
    }
}

/// Trait for types that represent the GPU can access an image view.
pub trait ImageViewAbstract {
    /// The wrapped image that the view was created from.
    spec fn image_inner_spec(&self) -> ImageInner;

    /// The component mapping of the view.
    spec fn mapping_spec(&self) -> ComponentMapping;

    /// Whether the view can be read with a cubic filter.
    spec fn cubic_spec(&self) -> bool;

    /// Whether the view can be read with a cubic filter that takes the least
    /// or the greatest value.
    spec fn cubic_minmax_spec(&self) -> bool;

    /// The format of the view.
    spec fn view_format_spec(&self) -> Option<Format>;

    /// What the device can do with the view.
    spec fn features_spec(&self) -> FormatFeatures;

    /// The conversion that the view was created with, if any.
    spec fn ycbcr_conversion_spec(&self) -> Option<SamplerYcbcrConversion>;

    /// The range of the image that the view shows.
    spec fn subresource_range_spec(&self) -> ImageSubresourceRange;

    /// The usage of the view.
    spec fn view_usage_spec(&self) -> ImageUsage;

    /// The type of the view.
    spec fn type_spec(&self) -> ImageViewType;

    /// Returns the wrapped image that this image view was created from.
    fn image_inner(&self) -> (inner: ImageInner)
        ensures
            inner == self.image_inner_spec(),
    ;

    /// Returns the component mapping of this view.
    fn component_mapping(&self) -> (mapping: ComponentMapping)
        ensures
            mapping == self.mapping_spec(),
    ;

    /// Returns the dimensions of this view.
    fn dimensions(&self) -> (dimensions: ImageDimensions)
        requires
            self.subresource_range_spec().array_layers.start
                <= self.subresource_range_spec().array_layers.end,
        ensures
            dimensions == view_dimensions_spec(
                dimensions_of(self.image_inner_spec()),
                self.subresource_range_spec().array_layers,
            ),
    {
        let subresource_range = self.subresource_range();
        let array_layers = subresource_range.array_layers.end
            - subresource_range.array_layers.start;
        let inner = self.image_inner();
        let image_dimensions = match inner.image.dimensions {
            ImageDimensions::Dim1d { width, .. } => ImageDimensions::Dim1d {
                width,
                array_layers: inner.num_layers,
            },
            ImageDimensions::Dim2d { width, height, .. } => ImageDimensions::Dim2d {
                width,
                height,
                array_layers: inner.num_layers,
            },
            dimensions => dimensions,
        };
        match image_dimensions {
            ImageDimensions::Dim1d { width, .. } => ImageDimensions::Dim1d { width, array_layers },
            ImageDimensions::Dim2d { width, height, .. } => ImageDimensions::Dim2d {
                width,
                height,
                array_layers,
            },
            ImageDimensions::Dim3d { width, height, depth } => ImageDimensions::Dim3d {
                width,
                height,
                depth,
            },
        }
    }

    /// Returns whether the image view supports sampling with a `Cubic` `mag_filter` or
    /// `min_filter`.
    fn filter_cubic(&self) -> (r: bool)
        ensures
            r == self.cubic_spec(),
    ;

    /// Returns whether the image view supports sampling with a `Cubic` `mag_filter` or
    /// `min_filter`, and with a `Min` or `Max` `reduction_mode`.
    fn filter_cubic_minmax(&self) -> (r: bool)
        ensures
            r == self.cubic_minmax_spec(),
    ;

    /// Returns the format of this view. This can be different from the parent's format.
    fn format(&self) -> (format: Option<Format>)
        ensures
            format == self.view_format_spec(),
    ;

    /// Returns the features supported by the image view's format.
    fn format_features(&self) -> (features: &FormatFeatures)
        ensures
            *features == self.features_spec(),
    ;

    /// Returns the sampler YCbCr conversion that this image view was created with, if any.
    fn sampler_ycbcr_conversion(&self) -> (conversion: Option<SamplerYcbcrConversion>)
        ensures
            conversion == self.ycbcr_conversion_spec(),
    ;

    /// Returns the subresource range of the wrapped image that this view exposes.
    fn subresource_range(&self) -> (range: &ImageSubresourceRange)
        ensures
            *range == self.subresource_range_spec(),
    ;

    /// Returns the usage of the image view.
    fn usage(&self) -> (usage: &ImageUsage)
        ensures
            *usage == self.view_usage_spec(),
    ;

    /// Returns the [`ImageViewType`] of this image view.
    fn view_type(&self) -> (view_type: ImageViewType)
        ensures
            view_type == self.type_spec(),
    ;
}

impl<I: ImageAccess> ImageViewAbstract for ImageView<I> {
    closed spec fn image_inner_spec(&self) -> ImageInner {
        self.image.inner_spec()
    }

    closed spec fn mapping_spec(&self) -> ComponentMapping {
        self.component_mapping
    }

    closed spec fn cubic_spec(&self) -> bool {
        self.filter_cubic
    }

    closed spec fn cubic_minmax_spec(&self) -> bool {
        self.filter_cubic_minmax
    }

    closed spec fn view_format_spec(&self) -> Option<Format> {
        self.format
    }

    closed spec fn features_spec(&self) -> FormatFeatures {
        self.format_features
    }

    closed spec fn ycbcr_conversion_spec(&self) -> Option<SamplerYcbcrConversion> {
        self.sampler_ycbcr_conversion
    }

    closed spec fn subresource_range_spec(&self) -> ImageSubresourceRange {
        self.subresource_range
    }

    closed spec fn view_usage_spec(&self) -> ImageUsage {
        self.usage
    }

    closed spec fn type_spec(&self) -> ImageViewType {
        self.view_type
    }

    fn image_inner(&self) -> (inner: ImageInner) {
        self.image.inner()
    }

    fn component_mapping(&self) -> (mapping: ComponentMapping) {
        self.component_mapping
    }

    fn filter_cubic(&self) -> (r: bool) {
        self.filter_cubic
    }

    fn filter_cubic_minmax(&self) -> (r: bool) {
        self.filter_cubic_minmax
    }

    fn format(&self) -> (format: Option<Format>) {
        self.format
    }

    fn format_features(&self) -> (features: &FormatFeatures) {
        &self.format_features
    }

    fn sampler_ycbcr_conversion(&self) -> (conversion: Option<SamplerYcbcrConversion>) {
        self.sampler_ycbcr_conversion
    }

    fn subresource_range(&self) -> (range: &ImageSubresourceRange) {
        &self.subresource_range
    }

    fn usage(&self) -> (usage: &ImageUsage) {
        &self.usage
    }

    fn view_type(&self) -> (view_type: ImageViewType) {
        self.view_type
    }
}

} // verus!
