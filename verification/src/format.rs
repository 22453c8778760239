//! The formats of texels, and what the rules read of them.

use crate::device::Device;
use crate::image::ImageAspects;
use crate::{names, DeviceSize, RequirementNotMet, Version};
use vstd::prelude::*;

verus! {

/// What a format can be used for on a device.
#[derive(Clone, Copy, Debug, PartialEq, Eq, Hash, Structural)]
pub struct FormatFeatures {
    pub sampled_image: bool,
    pub storage_image: bool,
    pub storage_image_atomic: bool,
    pub storage_read_without_format: bool,
    pub storage_write_without_format: bool,
    pub color_attachment: bool,
    pub color_attachment_blend: bool,
    pub depth_stencil_attachment: bool,
    pub uniform_texel_buffer: bool,
    pub storage_texel_buffer: bool,
    pub storage_texel_buffer_atomic: bool,
    pub vertex_buffer: bool,
    pub transfer_src: bool,
    pub transfer_dst: bool,
    pub blit_src: bool,
    pub blit_dst: bool,
    pub sampled_image_filter_linear: bool,
    pub sampled_image_depth_comparison: bool,
}

impl FormatFeatures {
    /// The set without any flag.
    pub open spec fn empty_spec() -> FormatFeatures {
        FormatFeatures {
            sampled_image: false,
            storage_image: false,
            storage_image_atomic: false,
            storage_read_without_format: false,
            storage_write_without_format: false,
            color_attachment: false,
            color_attachment_blend: false,
            depth_stencil_attachment: false,
            uniform_texel_buffer: false,
            storage_texel_buffer: false,
            storage_texel_buffer_atomic: false,
            vertex_buffer: false,
            transfer_src: false,
            transfer_dst: false,
            blit_src: false,
            blit_dst: false,
            sampled_image_filter_linear: false,
            sampled_image_depth_comparison: false,
        }
    }

    /// The set without any flag.
    pub fn empty() -> (flags: FormatFeatures)
        ensures
            flags == FormatFeatures::empty_spec(),
    {
        FormatFeatures {
            sampled_image: false,
            storage_image: false,
            storage_image_atomic: false,
            storage_read_without_format: false,
            storage_write_without_format: false,
            color_attachment: false,
            color_attachment_blend: false,
            depth_stencil_attachment: false,
            uniform_texel_buffer: false,
            storage_texel_buffer: false,
            storage_texel_buffer_atomic: false,
            vertex_buffer: false,
            transfer_src: false,
            transfer_dst: false,
            blit_src: false,
            blit_dst: false,
            sampled_image_filter_linear: false,
            sampled_image_depth_comparison: false,
        }
    }

    /// Whether no flag is set.
    pub open spec fn is_empty_spec(self) -> bool {
        self == FormatFeatures::empty_spec()
    }

    /// Whether no flag is set.
    pub fn is_empty(&self) -> (r: bool)
        ensures
            r == self.is_empty_spec(),
    {
        !(self.sampled_image || self.storage_image || self.storage_image_atomic || self.storage_read_without_format || self.storage_write_without_format || self.color_attachment || self.color_attachment_blend || self.depth_stencil_attachment || self.uniform_texel_buffer || self.storage_texel_buffer || self.storage_texel_buffer_atomic || self.vertex_buffer || self.transfer_src || self.transfer_dst || self.blit_src || self.blit_dst || self.sampled_image_filter_linear || self.sampled_image_depth_comparison)
    }

    /// The flags that are set in `self` or in `other`.
    pub open spec fn union_spec(self, other: FormatFeatures) -> FormatFeatures {
        FormatFeatures {
            sampled_image: self.sampled_image || other.sampled_image,
            storage_image: self.storage_image || other.storage_image,
            storage_image_atomic: self.storage_image_atomic || other.storage_image_atomic,
            storage_read_without_format: self.storage_read_without_format || other.storage_read_without_format,
            storage_write_without_format: self.storage_write_without_format || other.storage_write_without_format,
            color_attachment: self.color_attachment || other.color_attachment,
            color_attachment_blend: self.color_attachment_blend || other.color_attachment_blend,
            depth_stencil_attachment: self.depth_stencil_attachment || other.depth_stencil_attachment,
            uniform_texel_buffer: self.uniform_texel_buffer || other.uniform_texel_buffer,
            storage_texel_buffer: self.storage_texel_buffer || other.storage_texel_buffer,
            storage_texel_buffer_atomic: self.storage_texel_buffer_atomic || other.storage_texel_buffer_atomic,
            vertex_buffer: self.vertex_buffer || other.vertex_buffer,
            transfer_src: self.transfer_src || other.transfer_src,
            transfer_dst: self.transfer_dst || other.transfer_dst,
            blit_src: self.blit_src || other.blit_src,
            blit_dst: self.blit_dst || other.blit_dst,
            sampled_image_filter_linear: self.sampled_image_filter_linear || other.sampled_image_filter_linear,
            sampled_image_depth_comparison: self.sampled_image_depth_comparison || other.sampled_image_depth_comparison,
        }
    }

    /// The flags that are set in `self` or in `other`.
    pub fn union(&self, other: &FormatFeatures) -> (flags: FormatFeatures)
        ensures
            flags == self.union_spec(*other),
    {
        FormatFeatures {
            sampled_image: self.sampled_image || other.sampled_image,
            storage_image: self.storage_image || other.storage_image,
            storage_image_atomic: self.storage_image_atomic || other.storage_image_atomic,
            storage_read_without_format: self.storage_read_without_format || other.storage_read_without_format,
            storage_write_without_format: self.storage_write_without_format || other.storage_write_without_format,
            color_attachment: self.color_attachment || other.color_attachment,
            color_attachment_blend: self.color_attachment_blend || other.color_attachment_blend,
            depth_stencil_attachment: self.depth_stencil_attachment || other.depth_stencil_attachment,
            uniform_texel_buffer: self.uniform_texel_buffer || other.uniform_texel_buffer,
            storage_texel_buffer: self.storage_texel_buffer || other.storage_texel_buffer,
            storage_texel_buffer_atomic: self.storage_texel_buffer_atomic || other.storage_texel_buffer_atomic,
            vertex_buffer: self.vertex_buffer || other.vertex_buffer,
            transfer_src: self.transfer_src || other.transfer_src,
            transfer_dst: self.transfer_dst || other.transfer_dst,
            blit_src: self.blit_src || other.blit_src,
            blit_dst: self.blit_dst || other.blit_dst,
            sampled_image_filter_linear: self.sampled_image_filter_linear || other.sampled_image_filter_linear,
            sampled_image_depth_comparison: self.sampled_image_depth_comparison || other.sampled_image_depth_comparison,
        }
    }

    /// The flags that are set in `self` and in `other`.
    pub open spec fn intersection_spec(self, other: FormatFeatures) -> FormatFeatures {
        FormatFeatures {
            sampled_image: self.sampled_image && other.sampled_image,
            storage_image: self.storage_image && other.storage_image,
            storage_image_atomic: self.storage_image_atomic && other.storage_image_atomic,
            storage_read_without_format: self.storage_read_without_format && other.storage_read_without_format,
            storage_write_without_format: self.storage_write_without_format && other.storage_write_without_format,
            color_attachment: self.color_attachment && other.color_attachment,
            color_attachment_blend: self.color_attachment_blend && other.color_attachment_blend,
            depth_stencil_attachment: self.depth_stencil_attachment && other.depth_stencil_attachment,
            uniform_texel_buffer: self.uniform_texel_buffer && other.uniform_texel_buffer,
            storage_texel_buffer: self.storage_texel_buffer && other.storage_texel_buffer,
            storage_texel_buffer_atomic: self.storage_texel_buffer_atomic && other.storage_texel_buffer_atomic,
            vertex_buffer: self.vertex_buffer && other.vertex_buffer,
            transfer_src: self.transfer_src && other.transfer_src,
            transfer_dst: self.transfer_dst && other.transfer_dst,
            blit_src: self.blit_src && other.blit_src,
            blit_dst: self.blit_dst && other.blit_dst,
            sampled_image_filter_linear: self.sampled_image_filter_linear && other.sampled_image_filter_linear,
            sampled_image_depth_comparison: self.sampled_image_depth_comparison && other.sampled_image_depth_comparison,
        }
    }

    /// The flags that are set in `self` and in `other`.
    pub fn intersection(&self, other: &FormatFeatures) -> (flags: FormatFeatures)
        ensures
            flags == self.intersection_spec(*other),
    {
        FormatFeatures {
            sampled_image: self.sampled_image && other.sampled_image,
            storage_image: self.storage_image && other.storage_image,
            storage_image_atomic: self.storage_image_atomic && other.storage_image_atomic,
            storage_read_without_format: self.storage_read_without_format && other.storage_read_without_format,
            storage_write_without_format: self.storage_write_without_format && other.storage_write_without_format,
            color_attachment: self.color_attachment && other.color_attachment,
            color_attachment_blend: self.color_attachment_blend && other.color_attachment_blend,
            depth_stencil_attachment: self.depth_stencil_attachment && other.depth_stencil_attachment,
            uniform_texel_buffer: self.uniform_texel_buffer && other.uniform_texel_buffer,
            storage_texel_buffer: self.storage_texel_buffer && other.storage_texel_buffer,
            storage_texel_buffer_atomic: self.storage_texel_buffer_atomic && other.storage_texel_buffer_atomic,
            vertex_buffer: self.vertex_buffer && other.vertex_buffer,
            transfer_src: self.transfer_src && other.transfer_src,
            transfer_dst: self.transfer_dst && other.transfer_dst,
            blit_src: self.blit_src && other.blit_src,
            blit_dst: self.blit_dst && other.blit_dst,
            sampled_image_filter_linear: self.sampled_image_filter_linear && other.sampled_image_filter_linear,
            sampled_image_depth_comparison: self.sampled_image_depth_comparison && other.sampled_image_depth_comparison,
        }
    }

    /// Whether every flag of `other` is set in `self`.
    pub open spec fn contains_spec(self, other: FormatFeatures) -> bool {
        (other.sampled_image ==> self.sampled_image)
            && (other.storage_image ==> self.storage_image)
            && (other.storage_image_atomic ==> self.storage_image_atomic)
            && (other.storage_read_without_format ==> self.storage_read_without_format)
            && (other.storage_write_without_format ==> self.storage_write_without_format)
            && (other.color_attachment ==> self.color_attachment)
            && (other.color_attachment_blend ==> self.color_attachment_blend)
            && (other.depth_stencil_attachment ==> self.depth_stencil_attachment)
            && (other.uniform_texel_buffer ==> self.uniform_texel_buffer)
            && (other.storage_texel_buffer ==> self.storage_texel_buffer)
            && (other.storage_texel_buffer_atomic ==> self.storage_texel_buffer_atomic)
            && (other.vertex_buffer ==> self.vertex_buffer)
            && (other.transfer_src ==> self.transfer_src)
            && (other.transfer_dst ==> self.transfer_dst)
            && (other.blit_src ==> self.blit_src)
            && (other.blit_dst ==> self.blit_dst)
            && (other.sampled_image_filter_linear ==> self.sampled_image_filter_linear)
            && (other.sampled_image_depth_comparison ==> self.sampled_image_depth_comparison)
    }

    /// Whether every flag of `other` is set in `self`.
    pub fn contains(&self, other: &FormatFeatures) -> (r: bool)
        ensures
            r == self.contains_spec(*other),
    {
        (!other.sampled_image || self.sampled_image)
            && (!other.storage_image || self.storage_image)
            && (!other.storage_image_atomic || self.storage_image_atomic)
            && (!other.storage_read_without_format || self.storage_read_without_format)
            && (!other.storage_write_without_format || self.storage_write_without_format)
            && (!other.color_attachment || self.color_attachment)
            && (!other.color_attachment_blend || self.color_attachment_blend)
            && (!other.depth_stencil_attachment || self.depth_stencil_attachment)
            && (!other.uniform_texel_buffer || self.uniform_texel_buffer)
            && (!other.storage_texel_buffer || self.storage_texel_buffer)
            && (!other.storage_texel_buffer_atomic || self.storage_texel_buffer_atomic)
            && (!other.vertex_buffer || self.vertex_buffer)
            && (!other.transfer_src || self.transfer_src)
            && (!other.transfer_dst || self.transfer_dst)
            && (!other.blit_src || self.blit_src)
            && (!other.blit_dst || self.blit_dst)
            && (!other.sampled_image_filter_linear || self.sampled_image_filter_linear)
            && (!other.sampled_image_depth_comparison || self.sampled_image_depth_comparison)
    }
}
/// What a device can do with a format, by the kind of resource.
#[derive(Clone, Copy, Debug, PartialEq, Eq, Structural)]
pub struct FormatProperties {
    /// What images with linear tiling can be used for.
    pub linear_tiling_features: FormatFeatures,
    /// What images with optimal tiling can be used for.
    pub optimal_tiling_features: FormatFeatures,
    /// What buffers can be used for.
    pub buffer_features: FormatFeatures,
}

impl FormatProperties {
    /// The properties of a format that a device cannot use for anything.
    pub open spec fn none_spec() -> FormatProperties {
        FormatProperties {
            linear_tiling_features: FormatFeatures::empty_spec(),
            optimal_tiling_features: FormatFeatures::empty_spec(),
            buffer_features: FormatFeatures::empty_spec(),
        }
    }

    /// The properties of a format that a device cannot use for anything.
    pub fn none() -> (r: FormatProperties)
        ensures
            r == FormatProperties::none_spec(),
    {
        FormatProperties {
            linear_tiling_features: FormatFeatures::empty(),
            optimal_tiling_features: FormatFeatures::empty(),
            buffer_features: FormatFeatures::empty(),
        }
    }

    /// What an image of the format can be used for with one tiling or the
    /// other.
    pub open spec fn potential_format_features_spec(self) -> FormatFeatures {
        self.linear_tiling_features.union_spec(self.optimal_tiling_features)
    }

    /// What an image of the format can be used for with one tiling or the
    /// other.
    pub fn potential_format_features(&self) -> (r: FormatFeatures)
        ensures
            r == self.potential_format_features_spec(),
    {
        self.linear_tiling_features.union(&self.optimal_tiling_features)
    }
}

/// How the texels of a block are compressed.
#[derive(Clone, Copy, Debug, PartialEq, Eq, Structural)]
#[allow(non_camel_case_types)]
pub enum CompressionType {
    ASTC_LDR,
    BC,
    ETC2,
}

/// How the chroma planes of a format are made smaller than the luma plane.
#[derive(Clone, Copy, Debug, PartialEq, Eq, Structural)]
pub enum ChromaSampling {
    /// The chroma components are represented at the same resolution as the luma component.
    Mode444,
    /// The chroma components have half the horizontal resolution as the luma component.
    Mode422,
    /// The chroma components have half the horizontal and vertical resolution as the luma
    /// component.
    Mode420,
}

/// The numeric type of the components of a format.
#[derive(Clone, Copy, Debug, PartialEq, Eq, Structural)]
#[allow(non_camel_case_types)]
pub enum NumericType {
    SFLOAT,
    UINT,
    SINT,
    UNORM,
    SNORM,
    SRGB,
}

/// The class of a format: formats of one class can stand for one another
/// in the views of an image.
#[derive(Clone, Copy, Debug, PartialEq, Eq, Structural)]
#[allow(non_camel_case_types)]
pub enum FormatCompatibility {
    Class_8bit,
    Class_16bit,
    Class_24bit,
    Class_32bit,
    Class_64bit,
    Class_128bit,
    Class_256bit,
    Class_D16,
    Class_D32,
    Class_S8,
    Class_D24S8,
    Class_D32S8,
    Class_BC1_RGBA,
    Class_BC7,
    Class_ETC2_RGB,
    Class_ASTC_4x4,
    Class_32bit_G8B8G8R8,
    Class_8bit_3plane_420,
    Class_8bit_2plane_420,
}

/// The format of the texels of an image or of the elements of a buffer view.
#[derive(Clone, Copy, Debug, PartialEq, Eq, Hash, Structural)]
#[allow(non_camel_case_types)]
pub enum Format {
    R8_UNORM,
    R8G8_UNORM,
    R8G8B8_UNORM,
    R8G8B8A8_UNORM,
    R8G8B8A8_SRGB,
    B8G8R8A8_UNORM,
    B8G8R8A8_SRGB,
    R16G16B16A16_SFLOAT,
    R32_UINT,
    R32_SFLOAT,
    R32G32B32A32_SFLOAT,
    R64G64B64A64_SFLOAT,
    D16_UNORM,
    D32_SFLOAT,
    S8_UINT,
    D24_UNORM_S8_UINT,
    D32_SFLOAT_S8_UINT,
    BC1_RGBA_UNORM_BLOCK,
    BC7_UNORM_BLOCK,
    ETC2_R8G8B8_UNORM_BLOCK,
    ASTC_4x4_UNORM_BLOCK,
    G8B8G8R8_422_UNORM,
    G8_B8_R8_3PLANE_420_UNORM,
    G8_B8R8_2PLANE_420_UNORM,
}

impl Format {
    /// The aspects that an image of the format has.
    pub open spec fn aspects_spec(self) -> ImageAspects {
        match self {
            Format::R8_UNORM => ImageAspects { color: true, depth: false, stencil: false, metadata: false, plane0: false, plane1: false, plane2: false, memory_plane0: false, memory_plane1: false, memory_plane2: false },
            Format::R8G8_UNORM => ImageAspects { color: true, depth: false, stencil: false, metadata: false, plane0: false, plane1: false, plane2: false, memory_plane0: false, memory_plane1: false, memory_plane2: false },
            Format::R8G8B8_UNORM => ImageAspects { color: true, depth: false, stencil: false, metadata: false, plane0: false, plane1: false, plane2: false, memory_plane0: false, memory_plane1: false, memory_plane2: false },
            Format::R8G8B8A8_UNORM => ImageAspects { color: true, depth: false, stencil: false, metadata: false, plane0: false, plane1: false, plane2: false, memory_plane0: false, memory_plane1: false, memory_plane2: false },
            Format::R8G8B8A8_SRGB => ImageAspects { color: true, depth: false, stencil: false, metadata: false, plane0: false, plane1: false, plane2: false, memory_plane0: false, memory_plane1: false, memory_plane2: false },
            Format::B8G8R8A8_UNORM => ImageAspects { color: true, depth: false, stencil: false, metadata: false, plane0: false, plane1: false, plane2: false, memory_plane0: false, memory_plane1: false, memory_plane2: false },
            Format::B8G8R8A8_SRGB => ImageAspects { color: true, depth: false, stencil: false, metadata: false, plane0: false, plane1: false, plane2: false, memory_plane0: false, memory_plane1: false, memory_plane2: false },
            Format::R16G16B16A16_SFLOAT => ImageAspects { color: true, depth: false, stencil: false, metadata: false, plane0: false, plane1: false, plane2: false, memory_plane0: false, memory_plane1: false, memory_plane2: false },
            Format::R32_UINT => ImageAspects { color: true, depth: false, stencil: false, metadata: false, plane0: false, plane1: false, plane2: false, memory_plane0: false, memory_plane1: false, memory_plane2: false },
            Format::R32_SFLOAT => ImageAspects { color: true, depth: false, stencil: false, metadata: false, plane0: false, plane1: false, plane2: false, memory_plane0: false, memory_plane1: false, memory_plane2: false },
            Format::R32G32B32A32_SFLOAT => ImageAspects { color: true, depth: false, stencil: false, metadata: false, plane0: false, plane1: false, plane2: false, memory_plane0: false, memory_plane1: false, memory_plane2: false },
            Format::R64G64B64A64_SFLOAT => ImageAspects { color: true, depth: false, stencil: false, metadata: false, plane0: false, plane1: false, plane2: false, memory_plane0: false, memory_plane1: false, memory_plane2: false },
            Format::D16_UNORM => ImageAspects { color: false, depth: true, stencil: false, metadata: false, plane0: false, plane1: false, plane2: false, memory_plane0: false, memory_plane1: false, memory_plane2: false },
            Format::D32_SFLOAT => ImageAspects { color: false, depth: true, stencil: false, metadata: false, plane0: false, plane1: false, plane2: false, memory_plane0: false, memory_plane1: false, memory_plane2: false },
            Format::S8_UINT => ImageAspects { color: false, depth: false, stencil: true, metadata: false, plane0: false, plane1: false, plane2: false, memory_plane0: false, memory_plane1: false, memory_plane2: false },
            Format::D24_UNORM_S8_UINT => ImageAspects { color: false, depth: true, stencil: true, metadata: false, plane0: false, plane1: false, plane2: false, memory_plane0: false, memory_plane1: false, memory_plane2: false },
            Format::D32_SFLOAT_S8_UINT => ImageAspects { color: false, depth: true, stencil: true, metadata: false, plane0: false, plane1: false, plane2: false, memory_plane0: false, memory_plane1: false, memory_plane2: false },
            Format::BC1_RGBA_UNORM_BLOCK => ImageAspects { color: true, depth: false, stencil: false, metadata: false, plane0: false, plane1: false, plane2: false, memory_plane0: false, memory_plane1: false, memory_plane2: false },
            Format::BC7_UNORM_BLOCK => ImageAspects { color: true, depth: false, stencil: false, metadata: false, plane0: false, plane1: false, plane2: false, memory_plane0: false, memory_plane1: false, memory_plane2: false },
            Format::ETC2_R8G8B8_UNORM_BLOCK => ImageAspects { color: true, depth: false, stencil: false, metadata: false, plane0: false, plane1: false, plane2: false, memory_plane0: false, memory_plane1: false, memory_plane2: false },
            Format::ASTC_4x4_UNORM_BLOCK => ImageAspects { color: true, depth: false, stencil: false, metadata: false, plane0: false, plane1: false, plane2: false, memory_plane0: false, memory_plane1: false, memory_plane2: false },
            Format::G8B8G8R8_422_UNORM => ImageAspects { color: true, depth: false, stencil: false, metadata: false, plane0: false, plane1: false, plane2: false, memory_plane0: false, memory_plane1: false, memory_plane2: false },
            Format::G8_B8_R8_3PLANE_420_UNORM => ImageAspects { color: true, depth: false, stencil: false, metadata: false, plane0: true, plane1: true, plane2: true, memory_plane0: false, memory_plane1: false, memory_plane2: false },
            Format::G8_B8R8_2PLANE_420_UNORM => ImageAspects { color: true, depth: false, stencil: false, metadata: false, plane0: true, plane1: true, plane2: false, memory_plane0: false, memory_plane1: false, memory_plane2: false },
        }
    }

    /// The aspects that an image of the format has.
    pub fn aspects(&self) -> (r: ImageAspects)
        ensures
            r == self.aspects_spec(),
    {
        match self {
            Format::R8_UNORM => ImageAspects { color: true, depth: false, stencil: false, metadata: false, plane0: false, plane1: false, plane2: false, memory_plane0: false, memory_plane1: false, memory_plane2: false },
            Format::R8G8_UNORM => ImageAspects { color: true, depth: false, stencil: false, metadata: false, plane0: false, plane1: false, plane2: false, memory_plane0: false, memory_plane1: false, memory_plane2: false },
            Format::R8G8B8_UNORM => ImageAspects { color: true, depth: false, stencil: false, metadata: false, plane0: false, plane1: false, plane2: false, memory_plane0: false, memory_plane1: false, memory_plane2: false },
            Format::R8G8B8A8_UNORM => ImageAspects { color: true, depth: false, stencil: false, metadata: false, plane0: false, plane1: false, plane2: false, memory_plane0: false, memory_plane1: false, memory_plane2: false },
            Format::R8G8B8A8_SRGB => ImageAspects { color: true, depth: false, stencil: false, metadata: false, plane0: false, plane1: false, plane2: false, memory_plane0: false, memory_plane1: false, memory_plane2: false },
            Format::B8G8R8A8_UNORM => ImageAspects { color: true, depth: false, stencil: false, metadata: false, plane0: false, plane1: false, plane2: false, memory_plane0: false, memory_plane1: false, memory_plane2: false },
            Format::B8G8R8A8_SRGB => ImageAspects { color: true, depth: false, stencil: false, metadata: false, plane0: false, plane1: false, plane2: false, memory_plane0: false, memory_plane1: false, memory_plane2: false },
            Format::R16G16B16A16_SFLOAT => ImageAspects { color: true, depth: false, stencil: false, metadata: false, plane0: false, plane1: false, plane2: false, memory_plane0: false, memory_plane1: false, memory_plane2: false },
            Format::R32_UINT => ImageAspects { color: true, depth: false, stencil: false, metadata: false, plane0: false, plane1: false, plane2: false, memory_plane0: false, memory_plane1: false, memory_plane2: false },
            Format::R32_SFLOAT => ImageAspects { color: true, depth: false, stencil: false, metadata: false, plane0: false, plane1: false, plane2: false, memory_plane0: false, memory_plane1: false, memory_plane2: false },
            Format::R32G32B32A32_SFLOAT => ImageAspects { color: true, depth: false, stencil: false, metadata: false, plane0: false, plane1: false, plane2: false, memory_plane0: false, memory_plane1: false, memory_plane2: false },
            Format::R64G64B64A64_SFLOAT => ImageAspects { color: true, depth: false, stencil: false, metadata: false, plane0: false, plane1: false, plane2: false, memory_plane0: false, memory_plane1: false, memory_plane2: false },
            Format::D16_UNORM => ImageAspects { color: false, depth: true, stencil: false, metadata: false, plane0: false, plane1: false, plane2: false, memory_plane0: false, memory_plane1: false, memory_plane2: false },
            Format::D32_SFLOAT => ImageAspects { color: false, depth: true, stencil: false, metadata: false, plane0: false, plane1: false, plane2: false, memory_plane0: false, memory_plane1: false, memory_plane2: false },
            Format::S8_UINT => ImageAspects { color: false, depth: false, stencil: true, metadata: false, plane0: false, plane1: false, plane2: false, memory_plane0: false, memory_plane1: false, memory_plane2: false },
            Format::D24_UNORM_S8_UINT => ImageAspects { color: false, depth: true, stencil: true, metadata: false, plane0: false, plane1: false, plane2: false, memory_plane0: false, memory_plane1: false, memory_plane2: false },
            Format::D32_SFLOAT_S8_UINT => ImageAspects { color: false, depth: true, stencil: true, metadata: false, plane0: false, plane1: false, plane2: false, memory_plane0: false, memory_plane1: false, memory_plane2: false },
            Format::BC1_RGBA_UNORM_BLOCK => ImageAspects { color: true, depth: false, stencil: false, metadata: false, plane0: false, plane1: false, plane2: false, memory_plane0: false, memory_plane1: false, memory_plane2: false },
            Format::BC7_UNORM_BLOCK => ImageAspects { color: true, depth: false, stencil: false, metadata: false, plane0: false, plane1: false, plane2: false, memory_plane0: false, memory_plane1: false, memory_plane2: false },
            Format::ETC2_R8G8B8_UNORM_BLOCK => ImageAspects { color: true, depth: false, stencil: false, metadata: false, plane0: false, plane1: false, plane2: false, memory_plane0: false, memory_plane1: false, memory_plane2: false },
            Format::ASTC_4x4_UNORM_BLOCK => ImageAspects { color: true, depth: false, stencil: false, metadata: false, plane0: false, plane1: false, plane2: false, memory_plane0: false, memory_plane1: false, memory_plane2: false },
            Format::G8B8G8R8_422_UNORM => ImageAspects { color: true, depth: false, stencil: false, metadata: false, plane0: false, plane1: false, plane2: false, memory_plane0: false, memory_plane1: false, memory_plane2: false },
            Format::G8_B8_R8_3PLANE_420_UNORM => ImageAspects { color: true, depth: false, stencil: false, metadata: false, plane0: true, plane1: true, plane2: true, memory_plane0: false, memory_plane1: false, memory_plane2: false },
            Format::G8_B8R8_2PLANE_420_UNORM => ImageAspects { color: true, depth: false, stencil: false, metadata: false, plane0: true, plane1: true, plane2: false, memory_plane0: false, memory_plane1: false, memory_plane2: false },
        }
    }
    /// The size in bytes of one block of texels. `None` for a format of several planes.
    pub open spec fn block_size_spec(self) -> Option<DeviceSize> {
        match self {
            Format::R8_UNORM => Some(1),
            Format::R8G8_UNORM => Some(2),
            Format::R8G8B8_UNORM => Some(3),
            Format::R8G8B8A8_UNORM => Some(4),
            Format::R8G8B8A8_SRGB => Some(4),
            Format::B8G8R8A8_UNORM => Some(4),
            Format::B8G8R8A8_SRGB => Some(4),
            Format::R16G16B16A16_SFLOAT => Some(8),
            Format::R32_UINT => Some(4),
            Format::R32_SFLOAT => Some(4),
            Format::R32G32B32A32_SFLOAT => Some(16),
            Format::R64G64B64A64_SFLOAT => Some(32),
            Format::D16_UNORM => Some(2),
            Format::D32_SFLOAT => Some(4),
            Format::S8_UINT => Some(1),
            Format::D24_UNORM_S8_UINT => Some(4),
            Format::D32_SFLOAT_S8_UINT => Some(5),
            Format::BC1_RGBA_UNORM_BLOCK => Some(8),
            Format::BC7_UNORM_BLOCK => Some(16),
            Format::ETC2_R8G8B8_UNORM_BLOCK => Some(8),
            Format::ASTC_4x4_UNORM_BLOCK => Some(16),
            Format::G8B8G8R8_422_UNORM => Some(4),
            Format::G8_B8_R8_3PLANE_420_UNORM => None,
            Format::G8_B8R8_2PLANE_420_UNORM => None,
        }
    }

    /// The size in bytes of one block of texels. `None` for a format of several planes.
    pub fn block_size(&self) -> (r: Option<DeviceSize>)
        ensures
            r == self.block_size_spec(),
    {
        match self {
            Format::R8_UNORM => Some(1),
            Format::R8G8_UNORM => Some(2),
            Format::R8G8B8_UNORM => Some(3),
            Format::R8G8B8A8_UNORM => Some(4),
            Format::R8G8B8A8_SRGB => Some(4),
            Format::B8G8R8A8_UNORM => Some(4),
            Format::B8G8R8A8_SRGB => Some(4),
            Format::R16G16B16A16_SFLOAT => Some(8),
            Format::R32_UINT => Some(4),
            Format::R32_SFLOAT => Some(4),
            Format::R32G32B32A32_SFLOAT => Some(16),
            Format::R64G64B64A64_SFLOAT => Some(32),
            Format::D16_UNORM => Some(2),
            Format::D32_SFLOAT => Some(4),
            Format::S8_UINT => Some(1),
            Format::D24_UNORM_S8_UINT => Some(4),
            Format::D32_SFLOAT_S8_UINT => Some(5),
            Format::BC1_RGBA_UNORM_BLOCK => Some(8),
            Format::BC7_UNORM_BLOCK => Some(16),
            Format::ETC2_R8G8B8_UNORM_BLOCK => Some(8),
            Format::ASTC_4x4_UNORM_BLOCK => Some(16),
            Format::G8B8G8R8_422_UNORM => Some(4),
            Format::G8_B8_R8_3PLANE_420_UNORM => None,
            Format::G8_B8R8_2PLANE_420_UNORM => None,
        }
    }
    /// The number of texels in one block.
    pub open spec fn texels_per_block_spec(self) -> u8 {
        match self {
            Format::R8_UNORM => 1,
            Format::R8G8_UNORM => 1,
            Format::R8G8B8_UNORM => 1,
            Format::R8G8B8A8_UNORM => 1,
            Format::R8G8B8A8_SRGB => 1,
            Format::B8G8R8A8_UNORM => 1,
            Format::B8G8R8A8_SRGB => 1,
            Format::R16G16B16A16_SFLOAT => 1,
            Format::R32_UINT => 1,
            Format::R32_SFLOAT => 1,
            Format::R32G32B32A32_SFLOAT => 1,
            Format::R64G64B64A64_SFLOAT => 1,
            Format::D16_UNORM => 1,
            Format::D32_SFLOAT => 1,
            Format::S8_UINT => 1,
            Format::D24_UNORM_S8_UINT => 1,
            Format::D32_SFLOAT_S8_UINT => 1,
            Format::BC1_RGBA_UNORM_BLOCK => 16,
            Format::BC7_UNORM_BLOCK => 16,
            Format::ETC2_R8G8B8_UNORM_BLOCK => 16,
            Format::ASTC_4x4_UNORM_BLOCK => 16,
            Format::G8B8G8R8_422_UNORM => 1,
            Format::G8_B8_R8_3PLANE_420_UNORM => 1,
            Format::G8_B8R8_2PLANE_420_UNORM => 1,
        }
    }

    /// The number of texels in one block.
    pub fn texels_per_block(&self) -> (r: u8)
        ensures
            r == self.texels_per_block_spec(),
    {
        match self {
            Format::R8_UNORM => 1,
            Format::R8G8_UNORM => 1,
            Format::R8G8B8_UNORM => 1,
            Format::R8G8B8A8_UNORM => 1,
            Format::R8G8B8A8_SRGB => 1,
            Format::B8G8R8A8_UNORM => 1,
            Format::B8G8R8A8_SRGB => 1,
            Format::R16G16B16A16_SFLOAT => 1,
            Format::R32_UINT => 1,
            Format::R32_SFLOAT => 1,
            Format::R32G32B32A32_SFLOAT => 1,
            Format::R64G64B64A64_SFLOAT => 1,
            Format::D16_UNORM => 1,
            Format::D32_SFLOAT => 1,
            Format::S8_UINT => 1,
            Format::D24_UNORM_S8_UINT => 1,
            Format::D32_SFLOAT_S8_UINT => 1,
            Format::BC1_RGBA_UNORM_BLOCK => 16,
            Format::BC7_UNORM_BLOCK => 16,
            Format::ETC2_R8G8B8_UNORM_BLOCK => 16,
            Format::ASTC_4x4_UNORM_BLOCK => 16,
            Format::G8B8G8R8_422_UNORM => 1,
            Format::G8_B8_R8_3PLANE_420_UNORM => 1,
            Format::G8_B8R8_2PLANE_420_UNORM => 1,
        }
    }
    /// The width, height and depth of one block in texels.
    pub open spec fn block_extent_spec(self) -> [u32; 3] {
        match self {
            Format::R8_UNORM => [1, 1, 1],
            Format::R8G8_UNORM => [1, 1, 1],
            Format::R8G8B8_UNORM => [1, 1, 1],
            Format::R8G8B8A8_UNORM => [1, 1, 1],
            Format::R8G8B8A8_SRGB => [1, 1, 1],
            Format::B8G8R8A8_UNORM => [1, 1, 1],
            Format::B8G8R8A8_SRGB => [1, 1, 1],
            Format::R16G16B16A16_SFLOAT => [1, 1, 1],
            Format::R32_UINT => [1, 1, 1],
            Format::R32_SFLOAT => [1, 1, 1],
            Format::R32G32B32A32_SFLOAT => [1, 1, 1],
            Format::R64G64B64A64_SFLOAT => [1, 1, 1],
            Format::D16_UNORM => [1, 1, 1],
            Format::D32_SFLOAT => [1, 1, 1],
            Format::S8_UINT => [1, 1, 1],
            Format::D24_UNORM_S8_UINT => [1, 1, 1],
            Format::D32_SFLOAT_S8_UINT => [1, 1, 1],
            Format::BC1_RGBA_UNORM_BLOCK => [4, 4, 1],
            Format::BC7_UNORM_BLOCK => [4, 4, 1],
            Format::ETC2_R8G8B8_UNORM_BLOCK => [4, 4, 1],
            Format::ASTC_4x4_UNORM_BLOCK => [4, 4, 1],
            Format::G8B8G8R8_422_UNORM => [2, 1, 1],
            Format::G8_B8_R8_3PLANE_420_UNORM => [1, 1, 1],
            Format::G8_B8R8_2PLANE_420_UNORM => [1, 1, 1],
        }
    }

    /// The width, height and depth of one block in texels.
    pub fn block_extent(&self) -> (r: [u32; 3])
        ensures
            r == self.block_extent_spec(),
    {
        match self {
            Format::R8_UNORM => [1, 1, 1],
            Format::R8G8_UNORM => [1, 1, 1],
            Format::R8G8B8_UNORM => [1, 1, 1],
            Format::R8G8B8A8_UNORM => [1, 1, 1],
            Format::R8G8B8A8_SRGB => [1, 1, 1],
            Format::B8G8R8A8_UNORM => [1, 1, 1],
            Format::B8G8R8A8_SRGB => [1, 1, 1],
            Format::R16G16B16A16_SFLOAT => [1, 1, 1],
            Format::R32_UINT => [1, 1, 1],
            Format::R32_SFLOAT => [1, 1, 1],
            Format::R32G32B32A32_SFLOAT => [1, 1, 1],
            Format::R64G64B64A64_SFLOAT => [1, 1, 1],
            Format::D16_UNORM => [1, 1, 1],
            Format::D32_SFLOAT => [1, 1, 1],
            Format::S8_UINT => [1, 1, 1],
            Format::D24_UNORM_S8_UINT => [1, 1, 1],
            Format::D32_SFLOAT_S8_UINT => [1, 1, 1],
            Format::BC1_RGBA_UNORM_BLOCK => [4, 4, 1],
            Format::BC7_UNORM_BLOCK => [4, 4, 1],
            Format::ETC2_R8G8B8_UNORM_BLOCK => [4, 4, 1],
            Format::ASTC_4x4_UNORM_BLOCK => [4, 4, 1],
            Format::G8B8G8R8_422_UNORM => [2, 1, 1],
            Format::G8_B8_R8_3PLANE_420_UNORM => [1, 1, 1],
            Format::G8_B8R8_2PLANE_420_UNORM => [1, 1, 1],
        }
    }
    /// How the blocks of the format are compressed, if they are.
    pub open spec fn compression_spec(self) -> Option<CompressionType> {
        match self {
            Format::R8_UNORM => None,
            Format::R8G8_UNORM => None,
            Format::R8G8B8_UNORM => None,
            Format::R8G8B8A8_UNORM => None,
            Format::R8G8B8A8_SRGB => None,
            Format::B8G8R8A8_UNORM => None,
            Format::B8G8R8A8_SRGB => None,
            Format::R16G16B16A16_SFLOAT => None,
            Format::R32_UINT => None,
            Format::R32_SFLOAT => None,
            Format::R32G32B32A32_SFLOAT => None,
            Format::R64G64B64A64_SFLOAT => None,
            Format::D16_UNORM => None,
            Format::D32_SFLOAT => None,
            Format::S8_UINT => None,
            Format::D24_UNORM_S8_UINT => None,
            Format::D32_SFLOAT_S8_UINT => None,
            Format::BC1_RGBA_UNORM_BLOCK => Some(CompressionType::BC),
            Format::BC7_UNORM_BLOCK => Some(CompressionType::BC),
            Format::ETC2_R8G8B8_UNORM_BLOCK => Some(CompressionType::ETC2),
            Format::ASTC_4x4_UNORM_BLOCK => Some(CompressionType::ASTC_LDR),
            Format::G8B8G8R8_422_UNORM => None,
            Format::G8_B8_R8_3PLANE_420_UNORM => None,
            Format::G8_B8R8_2PLANE_420_UNORM => None,
        }
    }

    /// How the blocks of the format are compressed, if they are.
    pub fn compression(&self) -> (r: Option<CompressionType>)
        ensures
            r == self.compression_spec(),
    {
        match self {
            Format::R8_UNORM => None,
            Format::R8G8_UNORM => None,
            Format::R8G8B8_UNORM => None,
            Format::R8G8B8A8_UNORM => None,
            Format::R8G8B8A8_SRGB => None,
            Format::B8G8R8A8_UNORM => None,
            Format::B8G8R8A8_SRGB => None,
            Format::R16G16B16A16_SFLOAT => None,
            Format::R32_UINT => None,
            Format::R32_SFLOAT => None,
            Format::R32G32B32A32_SFLOAT => None,
            Format::R64G64B64A64_SFLOAT => None,
            Format::D16_UNORM => None,
            Format::D32_SFLOAT => None,
            Format::S8_UINT => None,
            Format::D24_UNORM_S8_UINT => None,
            Format::D32_SFLOAT_S8_UINT => None,
            Format::BC1_RGBA_UNORM_BLOCK => Some(CompressionType::BC),
            Format::BC7_UNORM_BLOCK => Some(CompressionType::BC),
            Format::ETC2_R8G8B8_UNORM_BLOCK => Some(CompressionType::ETC2),
            Format::ASTC_4x4_UNORM_BLOCK => Some(CompressionType::ASTC_LDR),
            Format::G8B8G8R8_422_UNORM => None,
            Format::G8_B8_R8_3PLANE_420_UNORM => None,
            Format::G8_B8R8_2PLANE_420_UNORM => None,
        }
    }
    /// The class of the format.
    pub open spec fn compatibility_spec(self) -> FormatCompatibility {
        match self {
            Format::R8_UNORM => FormatCompatibility::Class_8bit,
            Format::R8G8_UNORM => FormatCompatibility::Class_16bit,
            Format::R8G8B8_UNORM => FormatCompatibility::Class_24bit,
            Format::R8G8B8A8_UNORM => FormatCompatibility::Class_32bit,
            Format::R8G8B8A8_SRGB => FormatCompatibility::Class_32bit,
            Format::B8G8R8A8_UNORM => FormatCompatibility::Class_32bit,
            Format::B8G8R8A8_SRGB => FormatCompatibility::Class_32bit,
            Format::R16G16B16A16_SFLOAT => FormatCompatibility::Class_64bit,
            Format::R32_UINT => FormatCompatibility::Class_32bit,
            Format::R32_SFLOAT => FormatCompatibility::Class_32bit,
            Format::R32G32B32A32_SFLOAT => FormatCompatibility::Class_128bit,
            Format::R64G64B64A64_SFLOAT => FormatCompatibility::Class_256bit,
            Format::D16_UNORM => FormatCompatibility::Class_D16,
            Format::D32_SFLOAT => FormatCompatibility::Class_D32,
            Format::S8_UINT => FormatCompatibility::Class_S8,
            Format::D24_UNORM_S8_UINT => FormatCompatibility::Class_D24S8,
            Format::D32_SFLOAT_S8_UINT => FormatCompatibility::Class_D32S8,
            Format::BC1_RGBA_UNORM_BLOCK => FormatCompatibility::Class_BC1_RGBA,
            Format::BC7_UNORM_BLOCK => FormatCompatibility::Class_BC7,
            Format::ETC2_R8G8B8_UNORM_BLOCK => FormatCompatibility::Class_ETC2_RGB,
            Format::ASTC_4x4_UNORM_BLOCK => FormatCompatibility::Class_ASTC_4x4,
            Format::G8B8G8R8_422_UNORM => FormatCompatibility::Class_32bit_G8B8G8R8,
            Format::G8_B8_R8_3PLANE_420_UNORM => FormatCompatibility::Class_8bit_3plane_420,
            Format::G8_B8R8_2PLANE_420_UNORM => FormatCompatibility::Class_8bit_2plane_420,
        }
    }

    /// The class of the format.
    pub fn compatibility(&self) -> (r: FormatCompatibility)
        ensures
            r == self.compatibility_spec(),
    {
        match self {
            Format::R8_UNORM => FormatCompatibility::Class_8bit,
            Format::R8G8_UNORM => FormatCompatibility::Class_16bit,
            Format::R8G8B8_UNORM => FormatCompatibility::Class_24bit,
            Format::R8G8B8A8_UNORM => FormatCompatibility::Class_32bit,
            Format::R8G8B8A8_SRGB => FormatCompatibility::Class_32bit,
            Format::B8G8R8A8_UNORM => FormatCompatibility::Class_32bit,
            Format::B8G8R8A8_SRGB => FormatCompatibility::Class_32bit,
            Format::R16G16B16A16_SFLOAT => FormatCompatibility::Class_64bit,
            Format::R32_UINT => FormatCompatibility::Class_32bit,
            Format::R32_SFLOAT => FormatCompatibility::Class_32bit,
            Format::R32G32B32A32_SFLOAT => FormatCompatibility::Class_128bit,
            Format::R64G64B64A64_SFLOAT => FormatCompatibility::Class_256bit,
            Format::D16_UNORM => FormatCompatibility::Class_D16,
            Format::D32_SFLOAT => FormatCompatibility::Class_D32,
            Format::S8_UINT => FormatCompatibility::Class_S8,
            Format::D24_UNORM_S8_UINT => FormatCompatibility::Class_D24S8,
            Format::D32_SFLOAT_S8_UINT => FormatCompatibility::Class_D32S8,
            Format::BC1_RGBA_UNORM_BLOCK => FormatCompatibility::Class_BC1_RGBA,
            Format::BC7_UNORM_BLOCK => FormatCompatibility::Class_BC7,
            Format::ETC2_R8G8B8_UNORM_BLOCK => FormatCompatibility::Class_ETC2_RGB,
            Format::ASTC_4x4_UNORM_BLOCK => FormatCompatibility::Class_ASTC_4x4,
            Format::G8B8G8R8_422_UNORM => FormatCompatibility::Class_32bit_G8B8G8R8,
            Format::G8_B8_R8_3PLANE_420_UNORM => FormatCompatibility::Class_8bit_3plane_420,
            Format::G8_B8R8_2PLANE_420_UNORM => FormatCompatibility::Class_8bit_2plane_420,
        }
    }
    /// The number of planes of the format. Zero for a format of one plane.
    pub open spec fn plane_count_spec(self) -> usize {
        match self {
            Format::R8_UNORM => 0,
            Format::R8G8_UNORM => 0,
            Format::R8G8B8_UNORM => 0,
            Format::R8G8B8A8_UNORM => 0,
            Format::R8G8B8A8_SRGB => 0,
            Format::B8G8R8A8_UNORM => 0,
            Format::B8G8R8A8_SRGB => 0,
            Format::R16G16B16A16_SFLOAT => 0,
            Format::R32_UINT => 0,
            Format::R32_SFLOAT => 0,
            Format::R32G32B32A32_SFLOAT => 0,
            Format::R64G64B64A64_SFLOAT => 0,
            Format::D16_UNORM => 0,
            Format::D32_SFLOAT => 0,
            Format::S8_UINT => 0,
            Format::D24_UNORM_S8_UINT => 0,
            Format::D32_SFLOAT_S8_UINT => 0,
            Format::BC1_RGBA_UNORM_BLOCK => 0,
            Format::BC7_UNORM_BLOCK => 0,
            Format::ETC2_R8G8B8_UNORM_BLOCK => 0,
            Format::ASTC_4x4_UNORM_BLOCK => 0,
            Format::G8B8G8R8_422_UNORM => 0,
            Format::G8_B8_R8_3PLANE_420_UNORM => 3,
            Format::G8_B8R8_2PLANE_420_UNORM => 2,
        }
    }

    /// The number of planes of the format. Zero for a format of one plane.
    pub fn plane_count(&self) -> (r: usize)
        ensures
            r == self.plane_count_spec(),
    {
        match self {
            Format::R8_UNORM => 0,
            Format::R8G8_UNORM => 0,
            Format::R8G8B8_UNORM => 0,
            Format::R8G8B8A8_UNORM => 0,
            Format::R8G8B8A8_SRGB => 0,
            Format::B8G8R8A8_UNORM => 0,
            Format::B8G8R8A8_SRGB => 0,
            Format::R16G16B16A16_SFLOAT => 0,
            Format::R32_UINT => 0,
            Format::R32_SFLOAT => 0,
            Format::R32G32B32A32_SFLOAT => 0,
            Format::R64G64B64A64_SFLOAT => 0,
            Format::D16_UNORM => 0,
            Format::D32_SFLOAT => 0,
            Format::S8_UINT => 0,
            Format::D24_UNORM_S8_UINT => 0,
            Format::D32_SFLOAT_S8_UINT => 0,
            Format::BC1_RGBA_UNORM_BLOCK => 0,
            Format::BC7_UNORM_BLOCK => 0,
            Format::ETC2_R8G8B8_UNORM_BLOCK => 0,
            Format::ASTC_4x4_UNORM_BLOCK => 0,
            Format::G8B8G8R8_422_UNORM => 0,
            Format::G8_B8_R8_3PLANE_420_UNORM => 3,
            Format::G8_B8R8_2PLANE_420_UNORM => 2,
        }
    }
    /// How the chroma is sampled, for a YCbCr format.
    pub open spec fn ycbcr_chroma_sampling_spec(self) -> Option<ChromaSampling> {
        match self {
            Format::R8_UNORM => None,
            Format::R8G8_UNORM => None,
            Format::R8G8B8_UNORM => None,
            Format::R8G8B8A8_UNORM => None,
            Format::R8G8B8A8_SRGB => None,
            Format::B8G8R8A8_UNORM => None,
            Format::B8G8R8A8_SRGB => None,
            Format::R16G16B16A16_SFLOAT => None,
            Format::R32_UINT => None,
            Format::R32_SFLOAT => None,
            Format::R32G32B32A32_SFLOAT => None,
            Format::R64G64B64A64_SFLOAT => None,
            Format::D16_UNORM => None,
            Format::D32_SFLOAT => None,
            Format::S8_UINT => None,
            Format::D24_UNORM_S8_UINT => None,
            Format::D32_SFLOAT_S8_UINT => None,
            Format::BC1_RGBA_UNORM_BLOCK => None,
            Format::BC7_UNORM_BLOCK => None,
            Format::ETC2_R8G8B8_UNORM_BLOCK => None,
            Format::ASTC_4x4_UNORM_BLOCK => None,
            Format::G8B8G8R8_422_UNORM => Some(ChromaSampling::Mode422),
            Format::G8_B8_R8_3PLANE_420_UNORM => Some(ChromaSampling::Mode420),
            Format::G8_B8R8_2PLANE_420_UNORM => Some(ChromaSampling::Mode420),
        }
    }

    /// How the chroma is sampled, for a YCbCr format.
    pub fn ycbcr_chroma_sampling(&self) -> (r: Option<ChromaSampling>)
        ensures
            r == self.ycbcr_chroma_sampling_spec(),
    {
        match self {
            Format::R8_UNORM => None,
            Format::R8G8_UNORM => None,
            Format::R8G8B8_UNORM => None,
            Format::R8G8B8A8_UNORM => None,
            Format::R8G8B8A8_SRGB => None,
            Format::B8G8R8A8_UNORM => None,
            Format::B8G8R8A8_SRGB => None,
            Format::R16G16B16A16_SFLOAT => None,
            Format::R32_UINT => None,
            Format::R32_SFLOAT => None,
            Format::R32G32B32A32_SFLOAT => None,
            Format::R64G64B64A64_SFLOAT => None,
            Format::D16_UNORM => None,
            Format::D32_SFLOAT => None,
            Format::S8_UINT => None,
            Format::D24_UNORM_S8_UINT => None,
            Format::D32_SFLOAT_S8_UINT => None,
            Format::BC1_RGBA_UNORM_BLOCK => None,
            Format::BC7_UNORM_BLOCK => None,
            Format::ETC2_R8G8B8_UNORM_BLOCK => None,
            Format::ASTC_4x4_UNORM_BLOCK => None,
            Format::G8B8G8R8_422_UNORM => Some(ChromaSampling::Mode422),
            Format::G8_B8_R8_3PLANE_420_UNORM => Some(ChromaSampling::Mode420),
            Format::G8_B8R8_2PLANE_420_UNORM => Some(ChromaSampling::Mode420),
        }
    }
    /// The numeric type of the color components. `None` for a format without color.
    pub open spec fn type_color_spec(self) -> Option<NumericType> {
        match self {
            Format::R8_UNORM => Some(NumericType::UNORM),
            Format::R8G8_UNORM => Some(NumericType::UNORM),
            Format::R8G8B8_UNORM => Some(NumericType::UNORM),
            Format::R8G8B8A8_UNORM => Some(NumericType::UNORM),
            Format::R8G8B8A8_SRGB => Some(NumericType::SRGB),
            Format::B8G8R8A8_UNORM => Some(NumericType::UNORM),
            Format::B8G8R8A8_SRGB => Some(NumericType::SRGB),
            Format::R16G16B16A16_SFLOAT => Some(NumericType::SFLOAT),
            Format::R32_UINT => Some(NumericType::UINT),
            Format::R32_SFLOAT => Some(NumericType::SFLOAT),
            Format::R32G32B32A32_SFLOAT => Some(NumericType::SFLOAT),
            Format::R64G64B64A64_SFLOAT => Some(NumericType::SFLOAT),
            Format::D16_UNORM => None,
            Format::D32_SFLOAT => None,
            Format::S8_UINT => None,
            Format::D24_UNORM_S8_UINT => None,
            Format::D32_SFLOAT_S8_UINT => None,
            Format::BC1_RGBA_UNORM_BLOCK => Some(NumericType::UNORM),
            Format::BC7_UNORM_BLOCK => Some(NumericType::UNORM),
            Format::ETC2_R8G8B8_UNORM_BLOCK => Some(NumericType::UNORM),
            Format::ASTC_4x4_UNORM_BLOCK => Some(NumericType::UNORM),
            Format::G8B8G8R8_422_UNORM => Some(NumericType::UNORM),
            Format::G8_B8_R8_3PLANE_420_UNORM => Some(NumericType::UNORM),
            Format::G8_B8R8_2PLANE_420_UNORM => Some(NumericType::UNORM),
        }
    }

    /// The numeric type of the color components. `None` for a format without color.
    pub fn type_color(&self) -> (r: Option<NumericType>)
        ensures
            r == self.type_color_spec(),
    {
        match self {
            Format::R8_UNORM => Some(NumericType::UNORM),
            Format::R8G8_UNORM => Some(NumericType::UNORM),
            Format::R8G8B8_UNORM => Some(NumericType::UNORM),
            Format::R8G8B8A8_UNORM => Some(NumericType::UNORM),
            Format::R8G8B8A8_SRGB => Some(NumericType::SRGB),
            Format::B8G8R8A8_UNORM => Some(NumericType::UNORM),
            Format::B8G8R8A8_SRGB => Some(NumericType::SRGB),
            Format::R16G16B16A16_SFLOAT => Some(NumericType::SFLOAT),
            Format::R32_UINT => Some(NumericType::UINT),
            Format::R32_SFLOAT => Some(NumericType::SFLOAT),
            Format::R32G32B32A32_SFLOAT => Some(NumericType::SFLOAT),
            Format::R64G64B64A64_SFLOAT => Some(NumericType::SFLOAT),
            Format::D16_UNORM => None,
            Format::D32_SFLOAT => None,
            Format::S8_UINT => None,
            Format::D24_UNORM_S8_UINT => None,
            Format::D32_SFLOAT_S8_UINT => None,
            Format::BC1_RGBA_UNORM_BLOCK => Some(NumericType::UNORM),
            Format::BC7_UNORM_BLOCK => Some(NumericType::UNORM),
            Format::ETC2_R8G8B8_UNORM_BLOCK => Some(NumericType::UNORM),
            Format::ASTC_4x4_UNORM_BLOCK => Some(NumericType::UNORM),
            Format::G8B8G8R8_422_UNORM => Some(NumericType::UNORM),
            Format::G8_B8_R8_3PLANE_420_UNORM => Some(NumericType::UNORM),
            Format::G8_B8R8_2PLANE_420_UNORM => Some(NumericType::UNORM),
        }
    }
    /// Whether a storage image of the format can be read and written without naming the format in the shader.
    pub open spec fn shader_storage_image_without_format_spec(self) -> bool {
        match self {
            Format::R8_UNORM => true,
            Format::R8G8_UNORM => true,
            Format::R8G8B8_UNORM => false,
            Format::R8G8B8A8_UNORM => true,
            Format::R8G8B8A8_SRGB => false,
            Format::B8G8R8A8_UNORM => false,
            Format::B8G8R8A8_SRGB => false,
            Format::R16G16B16A16_SFLOAT => true,
            Format::R32_UINT => true,
            Format::R32_SFLOAT => true,
            Format::R32G32B32A32_SFLOAT => true,
            Format::R64G64B64A64_SFLOAT => false,
            Format::D16_UNORM => false,
            Format::D32_SFLOAT => false,
            Format::S8_UINT => false,
            Format::D24_UNORM_S8_UINT => false,
            Format::D32_SFLOAT_S8_UINT => false,
            Format::BC1_RGBA_UNORM_BLOCK => false,
            Format::BC7_UNORM_BLOCK => false,
            Format::ETC2_R8G8B8_UNORM_BLOCK => false,
            Format::ASTC_4x4_UNORM_BLOCK => false,
            Format::G8B8G8R8_422_UNORM => false,
            Format::G8_B8_R8_3PLANE_420_UNORM => false,
            Format::G8_B8R8_2PLANE_420_UNORM => false,
        }
    }

    /// Whether a storage image of the format can be read and written without naming the format in the shader.
    pub fn shader_storage_image_without_format(&self) -> (r: bool)
        ensures
            r == self.shader_storage_image_without_format_spec(),
    {
        match self {
            Format::R8_UNORM => true,
            Format::R8G8_UNORM => true,
            Format::R8G8B8_UNORM => false,
            Format::R8G8B8A8_UNORM => true,
            Format::R8G8B8A8_SRGB => false,
            Format::B8G8R8A8_UNORM => false,
            Format::B8G8R8A8_SRGB => false,
            Format::R16G16B16A16_SFLOAT => true,
            Format::R32_UINT => true,
            Format::R32_SFLOAT => true,
            Format::R32G32B32A32_SFLOAT => true,
            Format::R64G64B64A64_SFLOAT => false,
            Format::D16_UNORM => false,
            Format::D32_SFLOAT => false,
            Format::S8_UINT => false,
            Format::D24_UNORM_S8_UINT => false,
            Format::D32_SFLOAT_S8_UINT => false,
            Format::BC1_RGBA_UNORM_BLOCK => false,
            Format::BC7_UNORM_BLOCK => false,
            Format::ETC2_R8G8B8_UNORM_BLOCK => false,
            Format::ASTC_4x4_UNORM_BLOCK => false,
            Format::G8B8G8R8_422_UNORM => false,
            Format::G8_B8_R8_3PLANE_420_UNORM => false,
            Format::G8_B8R8_2PLANE_420_UNORM => false,
        }
    }
    /// The format of plane `i`, for a format of several planes.
    pub open spec fn plane_spec(self, i: int) -> Option<Format> {
        match self {
            Format::G8_B8_R8_3PLANE_420_UNORM => if i == 0 { Some(Format::R8_UNORM) } else if i == 1 { Some(Format::R8_UNORM) } else if i == 2 { Some(Format::R8_UNORM) } else { None },
            Format::G8_B8R8_2PLANE_420_UNORM => if i == 0 { Some(Format::R8_UNORM) } else if i == 1 { Some(Format::R8G8_UNORM) } else { None },
            _ => None,
        }
    }

    /// The format of plane `i`, for a format of several planes.
    pub fn plane(&self, i: usize) -> (r: Option<Format>)
        ensures
            r == self.plane_spec(i as int),
            r is Some <==> i < self.plane_count_spec(),
    {
        match self {
            Format::G8_B8_R8_3PLANE_420_UNORM => if i == 0 { Some(Format::R8_UNORM) } else if i == 1 { Some(Format::R8_UNORM) } else if i == 2 { Some(Format::R8_UNORM) } else { None },
            Format::G8_B8R8_2PLANE_420_UNORM => if i == 0 { Some(Format::R8_UNORM) } else if i == 1 { Some(Format::R8G8_UNORM) } else { None },
            _ => None,
        }
    }

    /// Whether the device lacks what the format asks for: a YCbCr format
    /// asks for version 1.1 of the device interface or for the extension for
    /// YCbCr conversions.
    pub open spec fn device_refusal(self, device: &Device) -> bool {
        self.ycbcr_chroma_sampling_spec() is Some && !device.api_version.at_least_spec(
            Version::major_minor_spec(1, 1),
        ) && !device.enabled_extensions.khr_sampler_ycbcr_conversion
    }

    /// Checks that the format can be used on the device.
    pub fn validate_device(&self, device: &Device) -> (result: Result<(), RequirementNotMet>)
        ensures
            result is Err <==> self.device_refusal(device),
            result matches Err(err) ==> err.says(
                "`Format` is a YCbCr format"@,
                Some(Version::major_minor_spec(1, 1)),
                Seq::empty(),
                seq!["khr_sampler_ycbcr_conversion"@],
            ),
    {
        if self.ycbcr_chroma_sampling().is_some() && !device.api_version.at_least(Version::v1_1())
            && !device.enabled_extensions.khr_sampler_ycbcr_conversion {
            let none: &'static [&'static str] = &[];
            let extensions: &'static [&'static str] = &["khr_sampler_ycbcr_conversion"];
            assert(names(extensions) =~= seq!["khr_sampler_ycbcr_conversion"@]);
            assert(names(none) =~= Seq::<Seq<char>>::empty());
            Err(
                RequirementNotMet::new(
                    "`Format` is a YCbCr format",
                    Some(Version::v1_1()),
                    none,
                    extensions,
                ),
            )
        } else {
            Ok(())
        }
    }
}

} // verus!
