//! Images: multi-dimensional arrays of texels in device memory.

use crate::device::Device;
use crate::format::Format;
use crate::image::sys::UnsafeImage;
use crate::image::view::ImageViewCreationError;
use crate::memory::DeviceMemoryError;
use crate::{names, OomError, RequirementNotMet, RequiresOneOf, Version};
use std::ops::Range;
use vstd::prelude::*;

pub mod immutable;
pub mod state;
pub mod storage;
pub mod sys;
pub mod view;

verus! {

/// How the texels of an image are arranged in memory, which decides what the
/// image can be used for.
#[derive(Clone, Copy, Debug, PartialEq, Eq, Structural)]
pub enum ImageLayout {
    Undefined,
    General,
    ColorAttachmentOptimal,
    DepthStencilAttachmentOptimal,
    DepthStencilReadOnlyOptimal,
    ShaderReadOnlyOptimal,
    TransferSrcOptimal,
    TransferDstOptimal,
    Preinitialized,
    DepthReadOnlyStencilAttachmentOptimal,
    DepthAttachmentStencilReadOnlyOptimal,
    PresentSrc,
}

/// The aspects of an image: the kinds of data that each of its texels holds.
#[derive(Clone, Copy, Debug, PartialEq, Eq, Hash, Structural)]
pub struct ImageAspects {
    pub color: bool,
    pub depth: bool,
    pub stencil: bool,
    pub metadata: bool,
    pub plane0: bool,
    pub plane1: bool,
    pub plane2: bool,
    pub memory_plane0: bool,
    pub memory_plane1: bool,
    pub memory_plane2: bool,
}

impl ImageAspects {
    /// Whether the device lacks what the aspects ask for: the planes of an
    /// image ask for version 1.1 of the device interface or for the extension
    /// for YCbCr conversions.
    pub open spec fn device_refusal(self, device: &Device) -> bool {
        (self.plane0 || self.plane1 || self.plane2) && !device.api_version.at_least_spec(
            Version::major_minor_spec(1, 1),
        ) && !device.enabled_extensions.khr_sampler_ycbcr_conversion
    }

    /// Checks that the device knows the aspects.
    pub fn validate_device(&self, device: &Device) -> (result: Result<(), RequirementNotMet>)
        ensures
            result is Err <==> self.device_refusal(device),
            result matches Err(err) ==> err.says(
                "`ImageAspects::plane0`"@,
                Some(Version::major_minor_spec(1, 1)),
                Seq::empty(),
                seq!["khr_sampler_ycbcr_conversion"@],
            ),
    {
        if (self.plane0 || self.plane1 || self.plane2) && !device.api_version.at_least(
            Version::v1_1(),
        ) && !device.enabled_extensions.khr_sampler_ycbcr_conversion {
            let none: &'static [&'static str] = &[];
            let extensions: &'static [&'static str] = &["khr_sampler_ycbcr_conversion"];
            assert(names(extensions) =~= seq!["khr_sampler_ycbcr_conversion"@]);
            assert(names(none) =~= Seq::<Seq<char>>::empty());
            Err(
                RequirementNotMet::new(
                    "`ImageAspects::plane0`",
                    Some(Version::v1_1()),
                    none,
                    extensions,
                ),
            )
        } else {
            Ok(())
        }
    }

    /// The set without any flag.
    pub open spec fn empty_spec() -> ImageAspects {
        ImageAspects {
            color: false,
            depth: false,
            stencil: false,
            metadata: false,
            plane0: false,
            plane1: false,
            plane2: false,
            memory_plane0: false,
            memory_plane1: false,
            memory_plane2: false,
        }
    }

    /// The set without any flag.
    pub fn empty() -> (flags: ImageAspects)
        ensures
            flags == ImageAspects::empty_spec(),
    {
        ImageAspects {
            color: false,
            depth: false,
            stencil: false,
            metadata: false,
            plane0: false,
            plane1: false,
            plane2: false,
            memory_plane0: false,
            memory_plane1: false,
            memory_plane2: false,
        }
    }

    /// Whether no flag is set.
    pub open spec fn is_empty_spec(self) -> bool {
        self == ImageAspects::empty_spec()
    }

    /// Whether no flag is set.
    pub fn is_empty(&self) -> (r: bool)
        ensures
            r == self.is_empty_spec(),
    {
        !(self.color || self.depth || self.stencil || self.metadata || self.plane0 || self.plane1 || self.plane2 || self.memory_plane0 || self.memory_plane1 || self.memory_plane2)
    }

    /// The flags that are set in `self` or in `other`.
    pub open spec fn union_spec(self, other: ImageAspects) -> ImageAspects {
        ImageAspects {
            color: self.color || other.color,
            depth: self.depth || other.depth,
            stencil: self.stencil || other.stencil,
            metadata: self.metadata || other.metadata,
            plane0: self.plane0 || other.plane0,
            plane1: self.plane1 || other.plane1,
            plane2: self.plane2 || other.plane2,
            memory_plane0: self.memory_plane0 || other.memory_plane0,
            memory_plane1: self.memory_plane1 || other.memory_plane1,
            memory_plane2: self.memory_plane2 || other.memory_plane2,
        }
    }

    /// The flags that are set in `self` or in `other`.
    pub fn union(&self, other: &ImageAspects) -> (flags: ImageAspects)
        ensures
            flags == self.union_spec(*other),
    {
        ImageAspects {
            color: self.color || other.color,
            depth: self.depth || other.depth,
            stencil: self.stencil || other.stencil,
            metadata: self.metadata || other.metadata,
            plane0: self.plane0 || other.plane0,
            plane1: self.plane1 || other.plane1,
            plane2: self.plane2 || other.plane2,
            memory_plane0: self.memory_plane0 || other.memory_plane0,
            memory_plane1: self.memory_plane1 || other.memory_plane1,
            memory_plane2: self.memory_plane2 || other.memory_plane2,
        }
    }

    /// The flags that are set in `self` and in `other`.
    pub open spec fn intersection_spec(self, other: ImageAspects) -> ImageAspects {
        ImageAspects {
            color: self.color && other.color,
            depth: self.depth && other.depth,
            stencil: self.stencil && other.stencil,
            metadata: self.metadata && other.metadata,
            plane0: self.plane0 && other.plane0,
            plane1: self.plane1 && other.plane1,
            plane2: self.plane2 && other.plane2,
            memory_plane0: self.memory_plane0 && other.memory_plane0,
            memory_plane1: self.memory_plane1 && other.memory_plane1,
            memory_plane2: self.memory_plane2 && other.memory_plane2,
        }
    }

    /// The flags that are set in `self` and in `other`.
    pub fn intersection(&self, other: &ImageAspects) -> (flags: ImageAspects)
        ensures
            flags == self.intersection_spec(*other),
    {
        ImageAspects {
            color: self.color && other.color,
            depth: self.depth && other.depth,
            stencil: self.stencil && other.stencil,
            metadata: self.metadata && other.metadata,
            plane0: self.plane0 && other.plane0,
            plane1: self.plane1 && other.plane1,
            plane2: self.plane2 && other.plane2,
            memory_plane0: self.memory_plane0 && other.memory_plane0,
            memory_plane1: self.memory_plane1 && other.memory_plane1,
            memory_plane2: self.memory_plane2 && other.memory_plane2,
        }
    }

    /// Whether every flag of `other` is set in `self`.
    pub open spec fn contains_spec(self, other: ImageAspects) -> bool {
        (other.color ==> self.color)
            && (other.depth ==> self.depth)
            && (other.stencil ==> self.stencil)
            && (other.metadata ==> self.metadata)
            && (other.plane0 ==> self.plane0)
            && (other.plane1 ==> self.plane1)
            && (other.plane2 ==> self.plane2)
            && (other.memory_plane0 ==> self.memory_plane0)
            && (other.memory_plane1 ==> self.memory_plane1)
            && (other.memory_plane2 ==> self.memory_plane2)
    }

    /// Whether every flag of `other` is set in `self`.
    pub fn contains(&self, other: &ImageAspects) -> (r: bool)
        ensures
            r == self.contains_spec(*other),
    {
        (!other.color || self.color)
            && (!other.depth || self.depth)
            && (!other.stencil || self.stencil)
            && (!other.metadata || self.metadata)
            && (!other.plane0 || self.plane0)
            && (!other.plane1 || self.plane1)
            && (!other.plane2 || self.plane2)
            && (!other.memory_plane0 || self.memory_plane0)
            && (!other.memory_plane1 || self.memory_plane1)
            && (!other.memory_plane2 || self.memory_plane2)
    }
}
/// What an image is going to be used for.
#[derive(Clone, Copy, Debug, PartialEq, Eq, Hash, Structural)]
pub struct ImageUsage {
    pub transfer_src: bool,
    pub transfer_dst: bool,
    pub sampled: bool,
    pub storage: bool,
    pub color_attachment: bool,
    pub depth_stencil_attachment: bool,
    pub transient_attachment: bool,
    pub input_attachment: bool,
}

impl ImageUsage {
    /// The set without any flag.
    pub open spec fn empty_spec() -> ImageUsage {
        ImageUsage {
            transfer_src: false,
            transfer_dst: false,
            sampled: false,
            storage: false,
            color_attachment: false,
            depth_stencil_attachment: false,
            transient_attachment: false,
            input_attachment: false,
        }
    }

    /// The set without any flag.
    pub fn empty() -> (flags: ImageUsage)
        ensures
            flags == ImageUsage::empty_spec(),
    {
        ImageUsage {
            transfer_src: false,
            transfer_dst: false,
            sampled: false,
            storage: false,
            color_attachment: false,
            depth_stencil_attachment: false,
            transient_attachment: false,
            input_attachment: false,
        }
    }

    /// Whether no flag is set.
    pub open spec fn is_empty_spec(self) -> bool {
        self == ImageUsage::empty_spec()
    }

    /// Whether no flag is set.
    pub fn is_empty(&self) -> (r: bool)
        ensures
            r == self.is_empty_spec(),
    {
        !(self.transfer_src || self.transfer_dst || self.sampled || self.storage || self.color_attachment || self.depth_stencil_attachment || self.transient_attachment || self.input_attachment)
    }

    /// The flags that are set in `self` or in `other`.
    pub open spec fn union_spec(self, other: ImageUsage) -> ImageUsage {
        ImageUsage {
            transfer_src: self.transfer_src || other.transfer_src,
            transfer_dst: self.transfer_dst || other.transfer_dst,
            sampled: self.sampled || other.sampled,
            storage: self.storage || other.storage,
            color_attachment: self.color_attachment || other.color_attachment,
            depth_stencil_attachment: self.depth_stencil_attachment || other.depth_stencil_attachment,
            transient_attachment: self.transient_attachment || other.transient_attachment,
            input_attachment: self.input_attachment || other.input_attachment,
        }
    }

    /// The flags that are set in `self` or in `other`.
    pub fn union(&self, other: &ImageUsage) -> (flags: ImageUsage)
        ensures
            flags == self.union_spec(*other),
    {
        ImageUsage {
            transfer_src: self.transfer_src || other.transfer_src,
            transfer_dst: self.transfer_dst || other.transfer_dst,
            sampled: self.sampled || other.sampled,
            storage: self.storage || other.storage,
            color_attachment: self.color_attachment || other.color_attachment,
            depth_stencil_attachment: self.depth_stencil_attachment || other.depth_stencil_attachment,
            transient_attachment: self.transient_attachment || other.transient_attachment,
            input_attachment: self.input_attachment || other.input_attachment,
        }
    }

    /// The flags that are set in `self` and in `other`.
    pub open spec fn intersection_spec(self, other: ImageUsage) -> ImageUsage {
        ImageUsage {
            transfer_src: self.transfer_src && other.transfer_src,
            transfer_dst: self.transfer_dst && other.transfer_dst,
            sampled: self.sampled && other.sampled,
            storage: self.storage && other.storage,
            color_attachment: self.color_attachment && other.color_attachment,
            depth_stencil_attachment: self.depth_stencil_attachment && other.depth_stencil_attachment,
            transient_attachment: self.transient_attachment && other.transient_attachment,
            input_attachment: self.input_attachment && other.input_attachment,
        }
    }

    /// The flags that are set in `self` and in `other`.
    pub fn intersection(&self, other: &ImageUsage) -> (flags: ImageUsage)
        ensures
            flags == self.intersection_spec(*other),
    {
        ImageUsage {
            transfer_src: self.transfer_src && other.transfer_src,
            transfer_dst: self.transfer_dst && other.transfer_dst,
            sampled: self.sampled && other.sampled,
            storage: self.storage && other.storage,
            color_attachment: self.color_attachment && other.color_attachment,
            depth_stencil_attachment: self.depth_stencil_attachment && other.depth_stencil_attachment,
            transient_attachment: self.transient_attachment && other.transient_attachment,
            input_attachment: self.input_attachment && other.input_attachment,
        }
    }

    /// Whether every flag of `other` is set in `self`.
    pub open spec fn contains_spec(self, other: ImageUsage) -> bool {
        (other.transfer_src ==> self.transfer_src)
            && (other.transfer_dst ==> self.transfer_dst)
            && (other.sampled ==> self.sampled)
            && (other.storage ==> self.storage)
            && (other.color_attachment ==> self.color_attachment)
            && (other.depth_stencil_attachment ==> self.depth_stencil_attachment)
            && (other.transient_attachment ==> self.transient_attachment)
            && (other.input_attachment ==> self.input_attachment)
    }

    /// Whether every flag of `other` is set in `self`.
    pub fn contains(&self, other: &ImageUsage) -> (r: bool)
        ensures
            r == self.contains_spec(*other),
    {
        (!other.transfer_src || self.transfer_src)
            && (!other.transfer_dst || self.transfer_dst)
            && (!other.sampled || self.sampled)
            && (!other.storage || self.storage)
            && (!other.color_attachment || self.color_attachment)
            && (!other.depth_stencil_attachment || self.depth_stencil_attachment)
            && (!other.transient_attachment || self.transient_attachment)
            && (!other.input_attachment || self.input_attachment)
    }
}
/// Flags that an image is created with.
#[derive(Clone, Copy, Debug, PartialEq, Eq, Hash, Structural)]
pub struct ImageCreateFlags {
    pub mutable_format: bool,
    pub cube_compatible: bool,
    pub array_2d_compatible: bool,
    pub block_texel_view_compatible: bool,
}

impl ImageCreateFlags {
    /// The set without any flag.
    pub open spec fn empty_spec() -> ImageCreateFlags {
        ImageCreateFlags {
            mutable_format: false,
            cube_compatible: false,
            array_2d_compatible: false,
            block_texel_view_compatible: false,
        }
    }

    /// The set without any flag.
    pub fn empty() -> (flags: ImageCreateFlags)
        ensures
            flags == ImageCreateFlags::empty_spec(),
    {
        ImageCreateFlags {
            mutable_format: false,
            cube_compatible: false,
            array_2d_compatible: false,
            block_texel_view_compatible: false,
        }
    }

    /// Whether no flag is set.
    pub open spec fn is_empty_spec(self) -> bool {
        self == ImageCreateFlags::empty_spec()
    }

    /// Whether no flag is set.
    pub fn is_empty(&self) -> (r: bool)
        ensures
            r == self.is_empty_spec(),
    {
        !(self.mutable_format || self.cube_compatible || self.array_2d_compatible || self.block_texel_view_compatible)
    }

    /// The flags that are set in `self` or in `other`.
    pub open spec fn union_spec(self, other: ImageCreateFlags) -> ImageCreateFlags {
        ImageCreateFlags {
            mutable_format: self.mutable_format || other.mutable_format,
            cube_compatible: self.cube_compatible || other.cube_compatible,
            array_2d_compatible: self.array_2d_compatible || other.array_2d_compatible,
            block_texel_view_compatible: self.block_texel_view_compatible || other.block_texel_view_compatible,
        }
    }

    /// The flags that are set in `self` or in `other`.
    pub fn union(&self, other: &ImageCreateFlags) -> (flags: ImageCreateFlags)
        ensures
            flags == self.union_spec(*other),
    {
        ImageCreateFlags {
            mutable_format: self.mutable_format || other.mutable_format,
            cube_compatible: self.cube_compatible || other.cube_compatible,
            array_2d_compatible: self.array_2d_compatible || other.array_2d_compatible,
            block_texel_view_compatible: self.block_texel_view_compatible || other.block_texel_view_compatible,
        }
    }

    /// The flags that are set in `self` and in `other`.
    pub open spec fn intersection_spec(self, other: ImageCreateFlags) -> ImageCreateFlags {
        ImageCreateFlags {
            mutable_format: self.mutable_format && other.mutable_format,
            cube_compatible: self.cube_compatible && other.cube_compatible,
            array_2d_compatible: self.array_2d_compatible && other.array_2d_compatible,
            block_texel_view_compatible: self.block_texel_view_compatible && other.block_texel_view_compatible,
        }
    }

    /// The flags that are set in `self` and in `other`.
    pub fn intersection(&self, other: &ImageCreateFlags) -> (flags: ImageCreateFlags)
        ensures
            flags == self.intersection_spec(*other),
    {
        ImageCreateFlags {
            mutable_format: self.mutable_format && other.mutable_format,
            cube_compatible: self.cube_compatible && other.cube_compatible,
            array_2d_compatible: self.array_2d_compatible && other.array_2d_compatible,
            block_texel_view_compatible: self.block_texel_view_compatible && other.block_texel_view_compatible,
        }
    }

    /// Whether every flag of `other` is set in `self`.
    pub open spec fn contains_spec(self, other: ImageCreateFlags) -> bool {
        (other.mutable_format ==> self.mutable_format)
            && (other.cube_compatible ==> self.cube_compatible)
            && (other.array_2d_compatible ==> self.array_2d_compatible)
            && (other.block_texel_view_compatible ==> self.block_texel_view_compatible)
    }

    /// Whether every flag of `other` is set in `self`.
    pub fn contains(&self, other: &ImageCreateFlags) -> (r: bool)
        ensures
            r == self.contains_spec(*other),
    {
        (!other.mutable_format || self.mutable_format)
            && (!other.cube_compatible || self.cube_compatible)
            && (!other.array_2d_compatible || self.array_2d_compatible)
            && (!other.block_texel_view_compatible || self.block_texel_view_compatible)
    }
}

/// The number of dimensions of an image.
#[derive(Clone, Copy, Debug, PartialEq, Eq, Structural)]
pub enum ImageType {
    Dim1d,
    Dim2d,
    Dim3d,
}

/// The tiling of an image: how its texels are arranged in memory.
#[derive(Clone, Copy, Debug, PartialEq, Eq, Structural)]
pub enum ImageTiling {
    /// The arrangement is the device's own.
    Optimal,
    /// The texels stand row by row.
    Linear,
}

/// The number of samples per texel of an image.
#[derive(Clone, Copy, Debug, PartialEq, Eq, Structural)]
pub enum SampleCount {
    Sample1,
    Sample2,
    Sample4,
    Sample8,
    Sample16,
    Sample32,
    Sample64,
}

/// Specifies how many mipmaps must be allocated.
#[derive(Clone, Copy, Debug, PartialEq, Eq, Structural)]
pub enum MipmapsCount {
    /// Allocates the number of mipmaps required to store all the mipmaps of the image where each
    /// mipmap is half the dimensions of the previous level.
    Log2,
    /// Allocate one mipmap (ie. just the main level).
    One,
    /// Allocate the given number of mipmaps.
    Specific(u32),
}

/// The number of bits that it takes to write a number: zero for zero.
pub open spec fn bit_length(x: u32) -> nat
    decreases x,
{
    if x == 0 {
        0
    } else {
        1 + bit_length(x / 2)
    }
}

/// The power of two with the given exponent.
pub open spec fn pow2(n: nat) -> int
    decreases n,
{
    if n == 0 {
        1
    } else {
        2 * pow2((n - 1) as nat)
    }
}

/// A number below a power of two takes no more bits than the exponent.
pub proof fn lemma_bit_length_bound(x: u32, n: nat)
    requires
        x < pow2(n),
        n <= 32,
    ensures
        bit_length(x) <= n,
    decreases n,
{
    if x != 0 && n > 0 {
        lemma_bit_length_bound(x / 2, (n - 1) as nat);
    }
}

/// A number of 32 bits takes at most 32 bits.
pub proof fn lemma_bit_length(x: u32)
    ensures
        bit_length(x) <= 32,
{
    reveal_with_fuel(pow2, 33);
    assert(pow2(32) == 0x1_0000_0000);
    lemma_bit_length_bound(x, 32);
}

/// The number of bits that it takes to write a number.
pub fn bits_of(x: u32) -> (n: u32)
    ensures
        n == bit_length(x),
        n <= 32,
{
    proof {
        lemma_bit_length(x);
    }
    let mut rest = x;
    let mut n: u32 = 0;
    while rest != 0
        invariant
            bit_length(x) == n + bit_length(rest),
            bit_length(x) <= 32,
        decreases rest,
    {
        rest = rest / 2;
        n = n + 1;
    }
    n
}

/// The dimensions of an image.
#[derive(Clone, Copy, Debug, PartialEq, Eq, Structural)]
pub enum ImageDimensions {
    Dim1d { width: u32, array_layers: u32 },
    Dim2d { width: u32, height: u32, array_layers: u32 },
    Dim3d { width: u32, height: u32, depth: u32 },
}

/// The extent of a mip level: half as often as the level says, and at
/// least one.
pub open spec fn mip_extent(extent: u32, level: u32) -> u32 {
    if level >= 32 || (extent >> level) == 0 {
        1
    } else {
        extent >> level
    }
}

impl ImageDimensions {
    /// The width of the image in texels.
    pub open spec fn width_spec(self) -> u32 {
        match self {
            ImageDimensions::Dim1d { width, .. } => width,
            ImageDimensions::Dim2d { width, .. } => width,
            ImageDimensions::Dim3d { width, .. } => width,
        }
    }

    /// The height of the image in texels: one for an image of one dimension.
    pub open spec fn height_spec(self) -> u32 {
        match self {
            ImageDimensions::Dim1d { .. } => 1,
            ImageDimensions::Dim2d { height, .. } => height,
            ImageDimensions::Dim3d { height, .. } => height,
        }
    }

    /// The depth of the image in texels: one but for an image of three
    /// dimensions.
    pub open spec fn depth_spec(self) -> u32 {
        match self {
            ImageDimensions::Dim1d { .. } => 1,
            ImageDimensions::Dim2d { .. } => 1,
            ImageDimensions::Dim3d { depth, .. } => depth,
        }
    }

    /// The number of array layers: one for an image of three dimensions.
    pub open spec fn array_layers_spec(self) -> u32 {
        match self {
            ImageDimensions::Dim1d { array_layers, .. } => array_layers,
            ImageDimensions::Dim2d { array_layers, .. } => array_layers,
            ImageDimensions::Dim3d { .. } => 1,
        }
    }

    /// The number of dimensions of the image.
    pub open spec fn image_type_spec(self) -> ImageType {
        match self {
            ImageDimensions::Dim1d { .. } => ImageType::Dim1d,
            ImageDimensions::Dim2d { .. } => ImageType::Dim2d,
            ImageDimensions::Dim3d { .. } => ImageType::Dim3d,
        }
    }

    /// The number of mip levels down to the level of one texel.
    pub open spec fn max_mip_levels_spec(self) -> u32 {
        bit_length(self.width_spec() | self.height_spec() | self.depth_spec()) as u32
    }

    /// The dimensions of a mip level, if the image can have that level.
    pub open spec fn mip_level_dimensions_spec(self, level: u32) -> Option<ImageDimensions> {
        if level == 0 {
            Some(self)
        } else if level >= self.max_mip_levels_spec() {
            None
        } else {
            Some(
                match self {
                    ImageDimensions::Dim1d { width, array_layers } => ImageDimensions::Dim1d {
                        width: mip_extent(width, level),
                        array_layers,
                    },
                    ImageDimensions::Dim2d { width, height, array_layers } => {
                        ImageDimensions::Dim2d {
                            width: mip_extent(width, level),
                            height: mip_extent(height, level),
                            array_layers,
                        }
                    },
                    ImageDimensions::Dim3d { width, height, depth } => ImageDimensions::Dim3d {
                        width: mip_extent(width, level),
                        height: mip_extent(height, level),
                        depth: mip_extent(depth, level),
                    },
                },
            )
        }
    }

    /// The width of the image in texels.
    pub fn width(&self) -> (r: u32)
        ensures
            r == self.width_spec(),
    {
        match *self {
            ImageDimensions::Dim1d { width, .. } => width,
            ImageDimensions::Dim2d { width, .. } => width,
            ImageDimensions::Dim3d { width, .. } => width,
        }
    }

    /// The height of the image in texels: one for an image of one dimension.
    pub fn height(&self) -> (r: u32)
        ensures
            r == self.height_spec(),
    {
        match *self {
            ImageDimensions::Dim1d { .. } => 1,
            ImageDimensions::Dim2d { height, .. } => height,
            ImageDimensions::Dim3d { height, .. } => height,
        }
    }

    /// The width and the height of the image.
    pub fn width_height(&self) -> (r: [u32; 2])
        ensures
            r[0] == self.width_spec(),
            r[1] == self.height_spec(),
    {
        [self.width(), self.height()]
    }

    /// The depth of the image in texels: one unless the image has three
    /// dimensions.
    pub fn depth(&self) -> (r: u32)
        ensures
            r == self.depth_spec(),
    {
        match *self {
            ImageDimensions::Dim1d { .. } => 1,
            ImageDimensions::Dim2d { .. } => 1,
            ImageDimensions::Dim3d { depth, .. } => depth,
        }
    }

    /// The width, the height and the depth of the image.
    pub fn width_height_depth(&self) -> (r: [u32; 3])
        ensures
            r[0] == self.width_spec(),
            r[1] == self.height_spec(),
            r[2] == self.depth_spec(),
    {
        [self.width(), self.height(), self.depth()]
    }

    /// The number of layers of the image: one for an image of three
    /// dimensions.
    pub fn array_layers(&self) -> (r: u32)
        ensures
            r == self.array_layers_spec(),
    {
        match *self {
            ImageDimensions::Dim1d { array_layers, .. } => array_layers,
            ImageDimensions::Dim2d { array_layers, .. } => array_layers,
            ImageDimensions::Dim3d { .. } => 1,
        }
    }

    /// The number of dimensions of the image.
    pub fn image_type(&self) -> (r: ImageType)
        ensures
            r == self.image_type_spec(),
    {
        match *self {
            ImageDimensions::Dim1d { .. } => ImageType::Dim1d,
            ImageDimensions::Dim2d { .. } => ImageType::Dim2d,
            ImageDimensions::Dim3d { .. } => ImageType::Dim3d,
        }
    }

    /// Returns the maximum number of mipmap levels for these image dimensions.
    ///
    /// The returned value is always at least 1 for an image that has a texel.
    pub fn max_mip_levels(&self) -> (r: u32)
        ensures
            r == self.max_mip_levels_spec(),
            r <= 32,
    {
        bits_of(self.width() | self.height() | self.depth())
    }

    /// Returns the dimensions of the `level`th mipmap level. If `level` is 0, then the dimensions
    /// are left unchanged.
    ///
    /// Returns `None` if `level` is superior or equal to `max_mip_levels()`.
    pub fn mip_level_dimensions(&self, level: u32) -> (r: Option<ImageDimensions>)
        ensures
            r == self.mip_level_dimensions_spec(level),
    {
        if level == 0 {
            return Some(*self);
        }
        if level >= self.max_mip_levels() {
            return None;
        }
        Some(
            match *self {
                ImageDimensions::Dim1d { width, array_layers } => ImageDimensions::Dim1d {
                    width: mip_extent_of(width, level),
                    array_layers,
                },
                ImageDimensions::Dim2d { width, height, array_layers } => ImageDimensions::Dim2d {
                    width: mip_extent_of(width, level),
                    height: mip_extent_of(height, level),
                    array_layers,
                },
                ImageDimensions::Dim3d { width, height, depth } => ImageDimensions::Dim3d {
                    width: mip_extent_of(width, level),
                    height: mip_extent_of(height, level),
                    depth: mip_extent_of(depth, level),
                },
            },
        )
    }
}

/// The extent of a mip level.
pub fn mip_extent_of(extent: u32, level: u32) -> (r: u32)
    ensures
        r == mip_extent(extent, level),
{
    if level >= 32 {
        return 1;
    }
    let shifted = extent >> level;
    if shifted == 0 {
        1
    } else {
        shifted
    }
}

/// A range of the mip levels, the array layers and the aspects of an image.
#[derive(Debug, PartialEq, Eq)]
pub struct ImageSubresourceRange {
    /// Selects the aspects that will be included.
    pub aspects: ImageAspects,
    /// Selects the range of the mip levels that will be included.
    pub mip_levels: Range<u32>,
    /// Selects the range of array layers that will be included.
    pub array_layers: Range<u32>,
}

/// One mip level, a range of the array layers and the aspects of an image.
#[derive(Debug, PartialEq, Eq)]
pub struct ImageSubresourceLayers {
    /// Selects the aspects that will be included.
    pub aspects: ImageAspects,
    /// Selects mip level that will be included.
    pub mip_level: u32,
    /// Selects the range of array layers that will be included.
    pub array_layers: Range<u32>,
}

/// The aspects of a format that a copy or a view of a whole image covers:
/// the first plane alone for a format of several planes, else all of them.
pub open spec fn whole_aspects_spec(format: Format) -> ImageAspects {
    let aspects = format.aspects_spec();
    if aspects.plane0 {
        ImageAspects {
            color: false,
            depth: false,
            stencil: false,
            metadata: false,
            plane0: true,
            plane1: false,
            plane2: false,
            memory_plane0: false,
            memory_plane1: false,
            memory_plane2: false,
        }
    } else {
        aspects
    }
}

/// The aspects of a format that a copy or a view of a whole image covers.
pub fn whole_aspects(format: Format) -> (r: ImageAspects)
    ensures
        r == whole_aspects_spec(format),
{
    let aspects = format.aspects();
    if aspects.plane0 {
        let mut first = ImageAspects::empty();
        first.plane0 = true;
        first
    } else {
        aspects
    }
}

impl ImageSubresourceLayers {
    /// The layers of the first mip level of an image of the given format and
    /// number of layers.
    pub fn from_parameters(format: Format, array_layers: u32) -> (r: ImageSubresourceLayers)
        ensures
            r.aspects == whole_aspects_spec(format),
            r.mip_level == 0,
            r.array_layers == (0..array_layers),
    {
        ImageSubresourceLayers {
            aspects: whole_aspects(format),
            mip_level: 0,
            array_layers: 0..array_layers,
        }
    }
}

/// The layouts in which an image is bound to each kind of descriptor.
#[derive(Clone, Copy, Debug, PartialEq, Eq, Structural)]
pub struct ImageDescriptorLayouts {
    /// The image layout to use in a descriptor as a storage image.
    pub storage_image: ImageLayout,
    /// The image layout to use in a descriptor as a combined image sampler.
    pub combined_image_sampler: ImageLayout,
    /// The image layout to use in a descriptor as a sampled image.
    pub sampled_image: ImageLayout,
    /// The image layout to use in a descriptor as an input attachment.
    pub input_attachment: ImageLayout,
}

/// The image as the driver has it, and the part of it that an image of the
/// library stands for.
#[derive(Clone, Copy, Debug, PartialEq, Eq)]
pub struct ImageInner {
    /// The underlying image.
    pub image: UnsafeImage,
    /// The first layer of `image` to consider.
    pub first_layer: u32,
    /// The number of layers of `image` to consider.
    pub num_layers: u32,
    /// The first mipmap level of `image` to consider.
    pub first_mipmap_level: u32,
    /// The number of mipmap levels of `image` to consider.
    pub num_mipmap_levels: u32,
}

/// Trait for types that represent the way a GPU can access an image.
pub trait ImageAccess {
    /// The underlying image and the part of it that this image stands for.
    spec fn inner_spec(&self) -> ImageInner;

    /// The layout that the image has to be in before work of the device uses
    /// it.
    spec fn initial_layout_requirement_spec(&self) -> ImageLayout;

    /// The layout that work of the device leaves the image in.
    spec fn final_layout_requirement_spec(&self) -> ImageLayout;

    /// The layouts in which the image is bound to descriptors, if it can be.
    spec fn descriptor_layouts_spec(&self) -> Option<ImageDescriptorLayouts>;

    /// Returns the inner unsafe image object used by this image.
    fn inner(&self) -> (inner: ImageInner)
        ensures
            inner == self.inner_spec(),
    ;

    /// Returns the layout that the image has when it is first used in a primary command buffer.
    fn initial_layout_requirement(&self) -> (layout: ImageLayout)
        ensures
            layout == self.initial_layout_requirement_spec(),
    ;

    /// Returns the layout that the image must be returned to before the end of the command
    /// buffer.
    fn final_layout_requirement(&self) -> (layout: ImageLayout)
        ensures
            layout == self.final_layout_requirement_spec(),
    ;

    /// Returns an `ImageDescriptorLayouts` structure specifying the image layout to use
    /// in descriptors of various kinds.
    fn descriptor_layouts(&self) -> (layouts: Option<ImageDescriptorLayouts>)
        ensures
            layouts == self.descriptor_layouts_spec(),
    ;
}

/// The dimensions of an image: those of the underlying image, with the
/// layers that the image stands for.
pub open spec fn dimensions_of(inner: ImageInner) -> ImageDimensions {
    match inner.image.dimensions {
        ImageDimensions::Dim1d { width, .. } => ImageDimensions::Dim1d {
            width,
            array_layers: inner.num_layers,
        },
        ImageDimensions::Dim2d { width, height, .. } => ImageDimensions::Dim2d {
            width,
            height,
            array_layers: inner.num_layers,
        },
        dimensions => dimensions,
    }
}

/// The dimensions of an image: those of the underlying image, with the
/// layers that the image stands for.
pub fn image_dimensions<I: ImageAccess>(image: &I) -> (dimensions: ImageDimensions)
    ensures
        dimensions == dimensions_of(image.inner_spec()),
{
    let inner = image.inner();
    match inner.image.dimensions {
        ImageDimensions::Dim1d { width, .. } => ImageDimensions::Dim1d {
            width,
            array_layers: inner.num_layers,
        },
        ImageDimensions::Dim2d { width, height, .. } => ImageDimensions::Dim2d {
            width,
            height,
            array_layers: inner.num_layers,
        },
        dimensions => dimensions,
    }
}

/// Error that can happen when creating an image.
#[derive(Clone, Copy, Debug, PartialEq, Eq)]
pub enum ImageCreationError {
    /// Allocating memory failed.
    AllocError(DeviceMemoryError),
    /// Something was asked for that the device does not allow.
    RequirementNotMet { required_for: &'static str, requires_one_of: RequiresOneOf },
    /// The `max_mip_levels` limit of the dimensions was exceeded.
    MaxMipLevelsExceeded { mip_levels: u32, max: u32 },
    /// The sharing mode was set to `Concurrent`, but one of the specified queue family indices was
    /// out of range.
    SharingQueueFamilyIndexOutOfRange { queue_family_index: u32, queue_family_count: u32 },
    /// The format of the image cannot be used for an image on the device.
    FormatNotSupported,
    /// The format cannot be used in one of the ways asked for.
    FormatUsageNotSupported { usage: &'static str },
    /// The image view of a storage image could not be created.
    DirectImageViewCreationFailed(ImageViewCreationError),
}

impl ImageCreationError {
    /// The error of an allocation that failed.
    pub fn from_memory_error(err: DeviceMemoryError) -> (r: ImageCreationError)
        ensures
            r == ImageCreationError::AllocError(err),
    {
        ImageCreationError::AllocError(err)
    }

    /// The error of a lack of memory.
    pub fn from_oom(err: OomError) -> (r: ImageCreationError)
        ensures
            r == ImageCreationError::AllocError(DeviceMemoryError::OomError(err)),
    {
        ImageCreationError::AllocError(DeviceMemoryError::OomError(err))
    }
}

} // verus!
