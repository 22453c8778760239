//! Images whose purpose is to be used for read-only purposes. You can write to the image once,
//! but then you must only ever read from it.

use crate::buffer::cpu_access::{raw_askable, raw_refused, sharing_of, CpuAccessibleBuffer};
use crate::buffer::sys::{buffer_refusal, UnsafeBufferCreateInfo};
use crate::buffer::BufferUsage;
use crate::command_buffer::{
    copy_measurable_spec, copy_size_spec, BufferImageCopy, CommandBufferBeginError, ImageBlit,
};
use crate::device::Device;
use crate::format::Format;
use crate::image::sys::{image_refusal, UnsafeImage, UnsafeImageCreateInfo};
use crate::image::{
    whole_aspects_spec, ImageAccess, ImageCreateFlags, ImageCreationError, ImageDescriptorLayouts,
    ImageDimensions, ImageInner, ImageLayout, ImageSubresourceLayers, ImageTiling, ImageUsage,
    MipmapsCount, SampleCount,
};
use crate::memory::pool::{PotentialDedicatedAllocation, StandardMemoryPoolAlloc};
use crate::memory::DeviceMemoryError;
use crate::{DeviceSize, OomError};
use crate::{decimal_size, decimal_spec};
use crate::memory::ExternalMemoryHandleTypes;
use crate::buffer::device_local::source_usage;
use vstd::pervasive::unreached;
use vstd::prelude::*;

verus! {

/// Image whose purpose is to be used for read-only purposes. You can write to the image once,
/// but then you must only ever read from it.
#[derive(Debug)]
pub struct ImmutableImage {
    image: UnsafeImage,
    dimensions: ImageDimensions,
    memory: Option<PotentialDedicatedAllocation<StandardMemoryPoolAlloc>>,
    layout: ImageLayout,
}

/// Whether an image of the given count of mip levels has levels besides the
/// first.
pub open spec fn has_mipmaps_spec(mipmaps: MipmapsCount) -> bool {
    match mipmaps {
        MipmapsCount::One => false,
        MipmapsCount::Log2 => true,
        MipmapsCount::Specific(x) => x > 1,
    }
}

/// Whether an image of the given count of mip levels has levels besides the
/// first.
pub fn has_mipmaps(mipmaps: MipmapsCount) -> (r: bool)
    ensures
        r == has_mipmaps_spec(mipmaps),
{
    match mipmaps {
        MipmapsCount::One => false,
        MipmapsCount::Log2 => true,
        MipmapsCount::Specific(x) => x > 1,
    }
}

/// The number of mip levels that a count of mip levels stands for.
pub open spec fn mip_levels_spec(mipmaps: MipmapsCount, dimensions: ImageDimensions) -> u32 {
    match mipmaps {
        MipmapsCount::Specific(num) => num,
        MipmapsCount::Log2 => dimensions.max_mip_levels_spec(),
        MipmapsCount::One => 1,
    }
}

/// Whether `blit` fills the mip level `level + 1` of an image from its level
/// `level`: it reads the whole of the one and writes the whole of the other,
/// in every layer.
pub open spec fn is_mip_blit(
    blit: ImageBlit,
    format: Format,
    dimensions: ImageDimensions,
    level: u32,
) -> bool {
    let source = dimensions.mip_level_dimensions_spec(level)->0;
    let destination = dimensions.mip_level_dimensions_spec((level + 1) as u32)->0;
    &&& blit.src_subresource.aspects == whole_aspects_spec(format)
    &&& blit.src_subresource.mip_level == level
    &&& blit.src_subresource.array_layers == (0u32..dimensions.array_layers_spec())
    &&& blit.dst_subresource.aspects == whole_aspects_spec(format)
    &&& blit.dst_subresource.mip_level == level + 1
    &&& blit.dst_subresource.array_layers == (0u32..dimensions.array_layers_spec())
    &&& blit.src_offsets[0]@ == seq![0u32, 0u32, 0u32]
    &&& blit.src_offsets[1]@ == seq![
        source.width_spec(),
        source.height_spec(),
        source.depth_spec(),
    ]
    &&& blit.dst_offsets[0]@ == seq![0u32, 0u32, 0u32]
    &&& blit.dst_offsets[1]@ == seq![
        destination.width_spec(),
        destination.height_spec(),
        destination.depth_spec(),
    ]
}

/// The blits that fill the mip levels of an image from its first level: one
/// for each level after the first, each from the level before it.
pub fn generate_mipmaps(
    mip_levels: u32,
    format: Format,
    dimensions: ImageDimensions,
    _layout: ImageLayout,
) -> (blits: Vec<ImageBlit>)
    requires
        mip_levels <= dimensions.max_mip_levels_spec(),
    ensures
        blits@.len() == if mip_levels == 0 {
            0
        } else {
            mip_levels - 1
        },
        forall|k: int|
            0 <= k < blits@.len() ==> is_mip_blit(#[trigger] blits@[k], format, dimensions, k as u32),
{
    let mut blits: Vec<ImageBlit> = Vec::new();
    let mut level: u32 = 1;
    while level < mip_levels
        invariant
            1 <= level,
            mip_levels <= dimensions.max_mip_levels_spec(),
            level <= mip_levels || (mip_levels == 0 && level == 1),
            blits@.len() == level - 1,
            forall|k: int|
                0 <= k < blits@.len() ==> is_mip_blit(
                    #[trigger] blits@[k],
                    format,
                    dimensions,
                    k as u32,
                ),
        decreases mip_levels - level,
    {
        let src_size = dimensions.mip_level_dimensions(level - 1).unwrap().width_height_depth();
        let dst_size = dimensions.mip_level_dimensions(level).unwrap().width_height_depth();
        let blit = ImageBlit {
            src_subresource: ImageSubresourceLayers {
                aspects: crate::image::whole_aspects(format),
                mip_level: level - 1,
                array_layers: 0..dimensions.array_layers(),
            },
            src_offsets: [[0, 0, 0], src_size],
            dst_subresource: ImageSubresourceLayers {
                aspects: crate::image::whole_aspects(format),
                mip_level: level,
                array_layers: 0..dimensions.array_layers(),
            },
            dst_offsets: [[0, 0, 0], dst_size],
        };
        proof {
            assert(blit.src_offsets[0]@ =~= seq![0u32, 0u32, 0u32]);
            assert(blit.dst_offsets[0]@ =~= seq![0u32, 0u32, 0u32]);
            let source = dimensions.mip_level_dimensions_spec((level - 1) as u32)->0;
            let destination = dimensions.mip_level_dimensions_spec(level)->0;
            assert(blit.src_offsets[1]@ =~= seq![
                source.width_spec(),
                source.height_spec(),
                source.depth_spec(),
            ]);
            assert(blit.dst_offsets[1]@ =~= seq![
                destination.width_spec(),
                destination.height_spec(),
                destination.depth_spec(),
            ]);
            assert(is_mip_blit(blit, format, dimensions, (level - 1) as u32));
        }
        blits.push(blit);
        level = level + 1;
    }
    blits
}

/// Error that can happen when creating an `ImmutableImage`.
#[derive(Clone, Copy, Debug, PartialEq, Eq)]
pub enum ImmutableImageCreationError {
    ImageCreationError(ImageCreationError),
    DeviceMemoryAllocationError(DeviceMemoryError),
    CommandBufferBeginError(CommandBufferBeginError),
    /// The size of the provided source data is less than the required size for an image with the
    /// given format and dimensions.
    SourceTooSmall { source_size: DeviceSize, required_size: DeviceSize },
}

impl ImmutableImageCreationError {
    /// The error of an image that could not be created.
    pub fn from_image_error(err: ImageCreationError) -> (r: ImmutableImageCreationError)
        ensures
            r == ImmutableImageCreationError::ImageCreationError(err),
    {
        ImmutableImageCreationError::ImageCreationError(err)
    }

    /// The error of an allocation that failed.
    pub fn from_memory_error(err: DeviceMemoryError) -> (r: ImmutableImageCreationError)
        ensures
            r == ImmutableImageCreationError::DeviceMemoryAllocationError(err),
    {
        ImmutableImageCreationError::DeviceMemoryAllocationError(err)
    }

    /// The error of a lack of memory.
    pub fn from_oom(err: OomError) -> (r: ImmutableImageCreationError)
        ensures
            r == ImmutableImageCreationError::DeviceMemoryAllocationError(
                DeviceMemoryError::OomError(err),
            ),
    {
        ImmutableImageCreationError::DeviceMemoryAllocationError(DeviceMemoryError::OomError(err))
    }

    /// The error of a command buffer that could not be begun.
    pub fn from_begin_error(err: CommandBufferBeginError) -> (r: ImmutableImageCreationError)
        ensures
            r == ImmutableImageCreationError::CommandBufferBeginError(err),
    {
        ImmutableImageCreationError::CommandBufferBeginError(err)
    }

    /// What went wrong with the size of the source, in words.
    pub fn to_string(&self) -> (s: String)
        requires
            *self is SourceTooSmall,
        ensures
            s@ == "the size of the provided source data ("@ + decimal_spec(
                self->source_size as nat,
            ) + " bytes) is less than the required size for an image of the given format and dimensions ("@
                + decimal_spec(self->required_size as nat) + " bytes)"@,
    {
        match self {
            ImmutableImageCreationError::SourceTooSmall { source_size, required_size } => {
                let mut text = "the size of the provided source data (".to_owned();
                text.append(decimal_size(*source_size).as_str());
                text.append(
                    " bytes) is less than the required size for an image of the given format and dimensions (",
                );
                text.append(decimal_size(*required_size).as_str());
                text.append(" bytes)");
                text
            },
            _ => unreached(),
        }
    }
}

/// The parameters of an immutable image as they go to the driver.
pub open spec fn immutable_create_info(
    info: UnsafeImageCreateInfo,
    dimensions: ImageDimensions,
    format: Format,
    mip_levels: MipmapsCount,
    usage: ImageUsage,
    flags: ImageCreateFlags,
    queue_family_indices: Seq<u32>,
) -> bool {
    &&& info.dimensions == dimensions
    &&& info.format == Some(format)
    &&& info.mip_levels == mip_levels_spec(mip_levels, dimensions)
    &&& info.samples == SampleCount::Sample1
    &&& info.tiling == ImageTiling::Optimal
    &&& info.usage == usage
    &&& info.stencil_usage == usage
    &&& info.flags == flags
    &&& info.external_memory_handle_types == ExternalMemoryHandleTypes::empty_spec()
    &&& match info.sharing {
        crate::sync::Sharing::Concurrent(indices) => queue_family_indices.len() >= 2 && indices@
            == queue_family_indices,
        crate::sync::Sharing::Exclusive => queue_family_indices.len() < 2,
    }
}

/// The usage of an immutable image that is filled from a buffer: it is the
/// destination of a transfer, and the source of one where it has mip levels
/// to fill; then it is sampled.
pub open spec fn upload_usage_spec(mip_levels: MipmapsCount) -> ImageUsage {
    ImageUsage {
        transfer_src: has_mipmaps_spec(mip_levels),
        transfer_dst: true,
        sampled: true,
        storage: false,
        color_attachment: false,
        depth_stencil_attachment: false,
        transient_attachment: false,
        input_attachment: false,
    }
}

/// The region of a copy that fills the first mip level of a whole image.
pub open spec fn is_whole_region(region: BufferImageCopy, format: Format, dimensions: ImageDimensions) -> bool {
    &&& region.buffer_offset == 0
    &&& region.buffer_row_length == 0
    &&& region.buffer_image_height == 0
    &&& region.image_subresource.aspects == whole_aspects_spec(format)
    &&& region.image_subresource.mip_level == 0
    &&& region.image_subresource.array_layers == (0u32..dimensions.array_layers_spec())
    &&& region.image_offset@ == seq![0u32, 0u32, 0u32]
    &&& region.image_extent@ == seq![
        dimensions.width_spec(),
        dimensions.height_spec(),
        dimensions.depth_spec(),
    ]
}

/// What is recorded to fill an immutable image from a buffer.
#[derive(Debug)]
pub struct ImmutableImageUpload {
    /// The image.
    pub image: ImmutableImage,
    /// The access through which the image is filled.
    pub initialization: ImmutableImageInitialization,
    /// The region of the copy from the buffer into the image.
    pub region: BufferImageCopy,
    /// The blits that fill the mip levels after the first.
    pub blits: Vec<ImageBlit>,
}

impl ImmutableImage {
    /// Whether the image is one of the given parameters that the driver has
    /// not made yet.
    pub closed spec fn is_described(
        &self,
        device: &Device,
        dimensions: ImageDimensions,
        format: Format,
        mip_levels: u32,
        usage: ImageUsage,
        flags: ImageCreateFlags,
        layout: ImageLayout,
    ) -> bool {
        &&& self.dimensions == dimensions
        &&& self.layout == layout
        &&& self.memory is None
        &&& self.image.dimensions == dimensions
        &&& self.image.format == Some(format)
        &&& self.image.usage == usage
        &&& self.image.flags == flags
        &&& self.image.mip_levels == mip_levels
        &&& self.image.device == device.handle
    }

    /// Prepares an uninitialized immutable image.
    ///
    /// Returns two things: the image, and a special access that should be used for the initial
    /// upload to the image.
    pub fn uninitialized(
        device: &Device,
        dimensions: ImageDimensions,
        format: Format,
        mip_levels: MipmapsCount,
        usage: ImageUsage,
        flags: ImageCreateFlags,
        layout: ImageLayout,
        queue_family_indices: &Vec<u32>,
    ) -> (result: Result<(ImmutableImage, ImmutableImageInitialization), ImmutableImageCreationError>)
        requires
            !usage.is_empty_spec(),
        ensures
            exists|info: UnsafeImageCreateInfo| #[trigger]
                immutable_create_info(
                    info,
                    dimensions,
                    format,
                    mip_levels,
                    usage,
                    flags,
                    queue_family_indices@,
                ) && match image_refusal(device, &info) {
                    Some(refusal) => result matches Err(
                        ImmutableImageCreationError::ImageCreationError(err),
                    ) && refusal.reported_by(err),
                    None => result matches Ok(pair) && pair.0.is_described(
                        device,
                        dimensions,
                        format,
                        mip_levels_spec(mip_levels, dimensions),
                        usage,
                        flags,
                        layout,
                    ) && pair.1.inner_spec() == pair.0.inner_spec()
                        && pair.1.final_layout_requirement_spec() == layout,
                },
    {
        let create_info = UnsafeImageCreateInfo {
            dimensions,
            format: Some(format),
            mip_levels: match mip_levels {
                MipmapsCount::Specific(num) => num,
                MipmapsCount::Log2 => dimensions.max_mip_levels(),
                MipmapsCount::One => 1,
            },
            samples: SampleCount::Sample1,
            tiling: ImageTiling::Optimal,
            usage,
            stencil_usage: usage,
            sharing: sharing_of(queue_family_indices),
            flags,
            external_memory_handle_types: ExternalMemoryHandleTypes::empty(),
        };
        assert(immutable_create_info(
            create_info,
            dimensions,
            format,
            mip_levels,
            usage,
            flags,
            queue_family_indices@,
        ));
        match UnsafeImage::new(device, &create_info, 0) {
            Ok(image) => {
                let init = ImmutableImageInitialization { image, dimensions, layout };
                Ok((ImmutableImage { image, dimensions, memory: None, layout }, init))
            },
            Err(err) => Err(ImmutableImageCreationError::from_image_error(err)),
        }
    }

    /// Prepares an ImmutableImage from the contents of `len` elements of
    /// `element_size` bytes each: says how the buffer that holds them on
    /// their way is to be made, and what is recorded to copy them over.
    pub fn from_iter(
        device: &Device,
        len: DeviceSize,
        element_size: DeviceSize,
        dimensions: ImageDimensions,
        mip_levels: MipmapsCount,
        format: Format,
        queue_family_indices: &Vec<u32>,
    ) -> (result: Result<(UnsafeBufferCreateInfo, ImmutableImageUpload), ImmutableImageCreationError>)
        requires
            len * element_size <= u64::MAX,
            raw_askable((len * element_size) as u64, source_usage(), Seq::empty()),
            !raw_refused(device, (len * element_size) as u64, source_usage(), Seq::empty()),
            upload_askable(dimensions, mip_levels, format),
        ensures
            upload_result(
                device,
                (len * element_size) as u64,
                dimensions,
                mip_levels,
                format,
                queue_family_indices@,
                match result {
                    Ok(pair) => Ok(pair.1),
                    Err(err) => Err(err),
                },
            ),
            result matches Ok(pair) ==> pair.0.size == len * element_size && pair.0.usage
                == source_usage() && buffer_refusal(device, &pair.0) is None,
    {
        let mut usage = BufferUsage::empty();
        usage.transfer_src = true;
        let source = match CpuAccessibleBuffer::<
            PotentialDedicatedAllocation<StandardMemoryPoolAlloc>,
        >::uninitialized_array(device, len, element_size, usage, false) {
            Ok(source) => source,
            Err(err) => {
                return Err(ImmutableImageCreationError::from_memory_error(err));
            },
        };
        match ImmutableImage::from_buffer(
            device,
            len * element_size,
            dimensions,
            mip_levels,
            format,
            queue_family_indices,
        ) {
            Ok(upload) => Ok((source, upload)),
            Err(err) => Err(err),
        }
    }

    /// Prepares an ImmutableImage containing a copy of the data in a buffer of `source_size`
    /// bytes: says what is recorded to copy the data over and to fill the mip levels.
    pub fn from_buffer(
        device: &Device,
        source_size: DeviceSize,
        dimensions: ImageDimensions,
        mip_levels: MipmapsCount,
        format: Format,
        queue_family_indices: &Vec<u32>,
    ) -> (result: Result<ImmutableImageUpload, ImmutableImageCreationError>)
        requires
            upload_askable(dimensions, mip_levels, format),
        ensures
            upload_result(
                device,
                source_size,
                dimensions,
                mip_levels,
                format,
                queue_family_indices@,
                result,
            ),
    {
        let region = BufferImageCopy {
            buffer_offset: 0,
            buffer_row_length: 0,
            buffer_image_height: 0,
            image_subresource: ImageSubresourceLayers::from_parameters(
                format,
                dimensions.array_layers(),
            ),
            image_offset: [0, 0, 0],
            image_extent: dimensions.width_height_depth(),
        };
        proof {
            assert(region.image_offset@ =~= seq![0u32, 0u32, 0u32]);
            assert(region.image_extent@ =~= seq![
                dimensions.width_spec(),
                dimensions.height_spec(),
                dimensions.depth_spec(),
            ]);
            assert(is_whole_region(region, format, dimensions));
        }
        let required_size = region.buffer_copy_size(format);
        if source_size < required_size {
            return Err(
                ImmutableImageCreationError::SourceTooSmall { source_size, required_size },
            );
        }
        let need_to_generate_mipmaps = has_mipmaps(mip_levels);
        let usage = ImageUsage {
            transfer_src: need_to_generate_mipmaps,
            transfer_dst: true,
            sampled: true,
            storage: false,
            color_attachment: false,
            depth_stencil_attachment: false,
            transient_attachment: false,
            input_attachment: false,
        };
        let flags = ImageCreateFlags::empty();
        let layout = ImageLayout::ShaderReadOnlyOptimal;
        let created = ImmutableImage::uninitialized(
            device,
            dimensions,
            format,
            mip_levels,
            usage,
            flags,
            layout,
            queue_family_indices,
        );
        let ghost info = choose|info: UnsafeImageCreateInfo| #[trigger]
            immutable_create_info(
                info,
                dimensions,
                format,
                mip_levels,
                usage,
                flags,
                queue_family_indices@,
            ) && match image_refusal(device, &info) {
                Some(refusal) => created matches Err(
                    ImmutableImageCreationError::ImageCreationError(err),
                ) && refusal.reported_by(err),
                None => created matches Ok(pair) && pair.0.is_described(
                    device,
                    dimensions,
                    format,
                    mip_levels_spec(mip_levels, dimensions),
                    usage,
                    flags,
                    layout,
                ) && pair.1.inner_spec() == pair.0.inner_spec()
                    && pair.1.final_layout_requirement_spec() == layout,
            };
        assert(immutable_create_info(
            info,
            dimensions,
            format,
            mip_levels,
            upload_usage_spec(mip_levels),
            ImageCreateFlags::empty_spec(),
            queue_family_indices@,
        ));
        let (image, initialization) = match created {
            Ok(pair) => pair,
            Err(err) => {
                return Err(err);
            },
        };
        let blits = if need_to_generate_mipmaps {
            generate_mipmaps(
                image.image.mip_levels,
                format,
                image.dimensions,
                ImageLayout::ShaderReadOnlyOptimal,
            )
        } else {
            Vec::new()
        };
        Ok(ImmutableImageUpload { image, initialization, region, blits })
    }
}

/// The number of bytes that fill the first mip level of a whole image.
pub open spec fn whole_copy_size(format: Format, dimensions: ImageDimensions) -> int {
    copy_size_spec(
        0,
        0,
        dimensions.width_spec(),
        dimensions.height_spec(),
        dimensions.depth_spec(),
        dimensions.array_layers_spec() as int,
        whole_aspects_spec(format),
        format,
    )
}

/// Whether an image can be filled from a buffer at all: the size of the
/// copy can be worked out, and the image can have the mip levels asked for.
pub open spec fn upload_askable(dimensions: ImageDimensions, mip_levels: MipmapsCount, format: Format) -> bool {
    &&& copy_measurable_spec(
        0,
        0,
        dimensions.width_spec(),
        dimensions.height_spec(),
        dimensions.depth_spec(),
        dimensions.array_layers_spec() as int,
        whole_aspects_spec(format),
        format,
    )
    &&& (has_mipmaps_spec(mip_levels) ==> mip_levels_spec(mip_levels, dimensions)
        <= dimensions.max_mip_levels_spec())
}

/// Whether `upload` is what is recorded to fill a described image of the
/// given parameters: the copy of the whole first level, and one blit for each
/// mip level after it.
pub open spec fn is_upload(
    upload: ImmutableImageUpload,
    device: &Device,
    dimensions: ImageDimensions,
    mip_levels: MipmapsCount,
    format: Format,
) -> bool {
    &&& is_whole_region(upload.region, format, dimensions)
    &&& upload.image.is_described(
        device,
        dimensions,
        format,
        mip_levels_spec(mip_levels, dimensions),
        upload_usage_spec(mip_levels),
        ImageCreateFlags::empty_spec(),
        ImageLayout::ShaderReadOnlyOptimal,
    )
    &&& upload.initialization.inner_spec() == upload.image.inner_spec()
    &&& upload.blits@.len() == if has_mipmaps_spec(mip_levels) && mip_levels_spec(
        mip_levels,
        dimensions,
    ) > 0 {
        mip_levels_spec(mip_levels, dimensions) - 1
    } else {
        0
    }
    &&& forall|k: int|
        0 <= k < upload.blits@.len() ==> is_mip_blit(
            #[trigger] upload.blits@[k],
            format,
            dimensions,
            k as u32,
        )
}

/// What the preparation of an upload comes to: the source is too small; or
/// the image is refused; or the image is described, with what is recorded
/// to fill it.
pub open spec fn upload_result(
    device: &Device,
    source_size: DeviceSize,
    dimensions: ImageDimensions,
    mip_levels: MipmapsCount,
    format: Format,
    queue_family_indices: Seq<u32>,
    result: Result<ImmutableImageUpload, ImmutableImageCreationError>,
) -> bool {
    if source_size < whole_copy_size(format, dimensions) {
        result == Err::<ImmutableImageUpload, ImmutableImageCreationError>(
            ImmutableImageCreationError::SourceTooSmall {
                source_size,
                required_size: whole_copy_size(format, dimensions) as u64,
            },
        )
    } else {
        exists|info: UnsafeImageCreateInfo| #[trigger]
            immutable_create_info(
                info,
                dimensions,
                format,
                mip_levels,
                upload_usage_spec(mip_levels),
                ImageCreateFlags::empty_spec(),
                queue_family_indices,
            ) && match image_refusal(device, &info) {
                Some(refusal) => result matches Err(
                    ImmutableImageCreationError::ImageCreationError(err),
                ) && refusal.reported_by(err),
                None => result matches Ok(upload) && is_upload(
                    upload,
                    device,
                    dimensions,
                    mip_levels,
                    format,
                ),
            }
    }
}

impl ImageAccess for ImmutableImage {
    closed spec fn inner_spec(&self) -> ImageInner {
        ImageInner {
            image: self.image,
            first_layer: 0,
            num_layers: self.image.dimensions.array_layers_spec(),
            first_mipmap_level: 0,
            num_mipmap_levels: self.image.mip_levels,
        }
    }

    closed spec fn initial_layout_requirement_spec(&self) -> ImageLayout {
        self.layout
    }

    closed spec fn final_layout_requirement_spec(&self) -> ImageLayout {
        self.layout
    }

    closed spec fn descriptor_layouts_spec(&self) -> Option<ImageDescriptorLayouts> {
        Some(
            ImageDescriptorLayouts {
                storage_image: ImageLayout::General,
                combined_image_sampler: self.layout,
                sampled_image: self.layout,
                input_attachment: self.layout,
            },
        )
    }

    fn inner(&self) -> (inner: ImageInner) {
        ImageInner {
            image: self.image,
            first_layer: 0,
            num_layers: self.image.dimensions.array_layers(),
            first_mipmap_level: 0,
            num_mipmap_levels: self.image.mip_levels,
        }
    }

    fn initial_layout_requirement(&self) -> (layout: ImageLayout) {
        self.layout
    }

    fn final_layout_requirement(&self) -> (layout: ImageLayout) {
        self.layout
    }

    fn descriptor_layouts(&self) -> (layouts: Option<ImageDescriptorLayouts>) {
        Some(
            ImageDescriptorLayouts {
                storage_image: ImageLayout::General,
                combined_image_sampler: self.layout,
                sampled_image: self.layout,
                input_attachment: self.layout,
            },
        )
    }
}

/// The access through which an immutable image is filled: the image comes in
/// an undefined layout and leaves in its own.
#[derive(Debug)]
pub struct ImmutableImageInitialization {
    image: UnsafeImage,
    dimensions: ImageDimensions,
    layout: ImageLayout,
}

impl ImageAccess for ImmutableImageInitialization {
    closed spec fn inner_spec(&self) -> ImageInner {
        ImageInner {
            image: self.image,
            first_layer: 0,
            num_layers: self.image.dimensions.array_layers_spec(),
            first_mipmap_level: 0,
            num_mipmap_levels: self.image.mip_levels,
        }
    }

    open spec fn initial_layout_requirement_spec(&self) -> ImageLayout {
        ImageLayout::Undefined
    }

    closed spec fn final_layout_requirement_spec(&self) -> ImageLayout {
        self.layout
    }

    open spec fn descriptor_layouts_spec(&self) -> Option<ImageDescriptorLayouts> {
        None
    }

    fn inner(&self) -> (inner: ImageInner) {
        ImageInner {
            image: self.image,
            first_layer: 0,
            num_layers: self.image.dimensions.array_layers(),
            first_mipmap_level: 0,
            num_mipmap_levels: self.image.mip_levels,
        }
    }

    fn initial_layout_requirement(&self) -> (layout: ImageLayout) {
        ImageLayout::Undefined
    }

    fn final_layout_requirement(&self) -> (layout: ImageLayout) {
        self.layout
    }

    fn descriptor_layouts(&self) -> (layouts: Option<ImageDescriptorLayouts>) {
        None
    }
}

} // verus!
