//! General-purpose images in device memory.

use crate::buffer::cpu_access::sharing_of;
use crate::device::{Device, Queue};
use crate::format::Format;
use crate::image::sys::{
    image_askable, image_features_spec, image_refusal, UnsafeImage, UnsafeImageCreateInfo,
};
use crate::image::view::{
    image_view_askable, image_view_refusal, whole_view, ImageView, ImageViewCreateInfo,
    ImageViewCreationError,
};
use crate::image::{
    ImageAccess, ImageCreateFlags, ImageCreationError, ImageDescriptorLayouts, ImageDimensions,
    ImageInner, ImageLayout, ImageTiling, ImageUsage, SampleCount,
};
use crate::buffer::device_local::device_local_exportable;
use crate::memory::pool::{
    fd_exportable, opaque_fd_only, type_usable, AllocLayout, MappingRequirement,
    MemoryAllocateInfo,
    MemoryPoolAlloc, PotentialDedicatedAllocation, StandardMemoryPoolAlloc,
};
use crate::memory::{DedicatedAllocation, ExternalMemoryHandleTypes, MemoryRequirements};
use crate::DeviceSize;
use vstd::pervasive::unreached;
use vstd::prelude::*;

verus! {

/// General-purpose image in device memory. Can be used for any usage, but will be slower than a
/// specialized image.
#[derive(Debug)]
pub struct StorageImage {
    image: UnsafeImage,
    memory: Option<PotentialDedicatedAllocation<StandardMemoryPoolAlloc>>,
    dimensions: ImageDimensions,
}

/// The usage of a general-purpose image of a format: everything, with the
/// kind of attachment that the format is for.
pub open spec fn storage_usage_spec(format: Format) -> ImageUsage {
    let is_depth = format.aspects_spec().depth || format.aspects_spec().stencil;
    ImageUsage {
        transfer_src: true,
        transfer_dst: true,
        sampled: true,
        storage: true,
        color_attachment: !is_depth,
        depth_stencil_attachment: is_depth,
        transient_attachment: false,
        input_attachment: true,
    }
}

/// The parameters of a general-purpose image whose memory can be handed
/// out as a file descriptor, as they go to the driver.
pub open spec fn exportable_create_info(
    info: UnsafeImageCreateInfo,
    dimensions: ImageDimensions,
    format: Format,
    usage: ImageUsage,
    flags: ImageCreateFlags,
    queue_family_indices: Seq<u32>,
) -> bool {
    &&& info.external_memory_handle_types == opaque_fd_only()
    &&& storage_parameters(info, dimensions, format, usage, flags, queue_family_indices)
}

/// The parameters of a general-purpose image as they go to the driver.
pub open spec fn storage_create_info(
    info: UnsafeImageCreateInfo,
    dimensions: ImageDimensions,
    format: Format,
    usage: ImageUsage,
    flags: ImageCreateFlags,
    queue_family_indices: Seq<u32>,
) -> bool {
    &&& info.external_memory_handle_types == ExternalMemoryHandleTypes::empty_spec()
    &&& storage_parameters(info, dimensions, format, usage, flags, queue_family_indices)
}

/// The parameters of a general-purpose image as they go to the driver, but
/// for the handles to outside memory.
pub open spec fn storage_parameters(
    info: UnsafeImageCreateInfo,
    dimensions: ImageDimensions,
    format: Format,
    usage: ImageUsage,
    flags: ImageCreateFlags,
    queue_family_indices: Seq<u32>,
) -> bool {
    &&& info.dimensions == dimensions
    &&& info.format == Some(format)
    &&& info.mip_levels == 1
    &&& info.samples == SampleCount::Sample1
    &&& info.tiling == ImageTiling::Optimal
    &&& info.usage == usage
    &&& info.stencil_usage == usage
    &&& info.flags == flags
    &&& match info.sharing {
        crate::sync::Sharing::Concurrent(indices) => queue_family_indices.len() >= 2 && indices@
            == queue_family_indices,
        crate::sync::Sharing::Exclusive => queue_family_indices.len() < 2,
    }
}

impl StorageImage {
    /// Prepares a new image with the given dimensions and format.
    pub fn new(
        device: &Device,
        dimensions: ImageDimensions,
        format: Format,
        queue_family_indices: Vec<u32>,
    ) -> (result: Result<StorageImage, ImageCreationError>)
        requires
            format.compression_spec() is None,
        ensures
            exists|info: UnsafeImageCreateInfo| #[trigger]
                storage_create_info(
                    info,
                    dimensions,
                    format,
                    storage_usage_spec(format),
                    ImageCreateFlags::empty_spec(),
                    queue_family_indices@,
                ) && match image_refusal(device, &info) {
                    Some(refusal) => result matches Err(err) && refusal.reported_by(err),
                    None => result matches Ok(image) && image.is_described(
                        device,
                        dimensions,
                        format,
                        storage_usage_spec(format),
                        ImageCreateFlags::empty_spec(),
                    ),
                },
    {
        let aspects = format.aspects();
        let is_depth = aspects.depth || aspects.stencil;
        let usage = ImageUsage {
            transfer_src: true,
            transfer_dst: true,
            sampled: true,
            storage: true,
            color_attachment: !is_depth,
            depth_stencil_attachment: is_depth,
            transient_attachment: false,
            input_attachment: true,
        };
        let flags = ImageCreateFlags::empty();
        assert(usage == storage_usage_spec(format));
        let ghost indices = queue_family_indices@;
        let result = StorageImage::with_usage(
            device,
            dimensions,
            format,
            usage,
            flags,
            queue_family_indices,
        );
        proof {
            let info = choose|info: UnsafeImageCreateInfo| #[trigger]
                storage_create_info(info, dimensions, format, usage, flags, indices)
                    && match image_refusal(device, &info) {
                    Some(refusal) => result matches Err(err) && refusal.reported_by(err),
                    None => result matches Ok(image) && image.is_described(
                        device,
                        dimensions,
                        format,
                        usage,
                        flags,
                    ),
                };
            assert(storage_create_info(
                info,
                dimensions,
                format,
                storage_usage_spec(format),
                ImageCreateFlags::empty_spec(),
                indices,
            ));
        }
        result
    }

    /// Whether the image is one of the given parameters that the driver has
    /// not made yet.
    pub closed spec fn is_described(
        &self,
        device: &Device,
        dimensions: ImageDimensions,
        format: Format,
        usage: ImageUsage,
        flags: ImageCreateFlags,
    ) -> bool {
        &&& self.dimensions == dimensions
        &&& self.memory is None
        &&& self.image.dimensions == dimensions
        &&& self.image.format == Some(format)
        &&& self.image.usage == usage
        &&& self.image.stencil_usage == usage
        &&& self.image.flags == flags
        &&& self.image.mip_levels == 1
        &&& self.image.samples == SampleCount::Sample1
        &&& self.image.tiling == ImageTiling::Optimal
        &&& self.image.device == device.handle
        &&& self.image.format_features == image_features_spec(device, format, ImageTiling::Optimal)
    }

    /// Same as `with_usage`, for an image whose memory can be handed out as
    /// a file descriptor: the image is asked for with the kind of handle
    /// that stands for one.
    pub fn new_with_exportable_fd(
        device: &Device,
        dimensions: ImageDimensions,
        format: Format,
        usage: ImageUsage,
        flags: ImageCreateFlags,
        queue_family_indices: Vec<u32>,
    ) -> (result: Result<StorageImage, ImageCreationError>)
        requires
            !usage.is_empty_spec(),
        ensures
            exists|info: UnsafeImageCreateInfo| #[trigger]
                exportable_create_info(info, dimensions, format, usage, flags, queue_family_indices@)
                    && match image_refusal(device, &info) {
                    Some(refusal) => result matches Err(err) && refusal.reported_by(err),
                    None => result matches Ok(image) && image.is_described(
                        device,
                        dimensions,
                        format,
                        usage,
                        flags,
                    ) && image.inner_spec().image.external_memory_handle_types == opaque_fd_only(),
                },
    {
        let mut external_memory_handle_types = ExternalMemoryHandleTypes::empty();
        external_memory_handle_types.opaque_fd = true;
        let create_info = UnsafeImageCreateInfo {
            dimensions,
            format: Some(format),
            mip_levels: 1,
            samples: SampleCount::Sample1,
            tiling: ImageTiling::Optimal,
            usage,
            stencil_usage: usage,
            sharing: sharing_of(&queue_family_indices),
            flags,
            external_memory_handle_types,
        };
        assert(exportable_create_info(
            create_info,
            dimensions,
            format,
            usage,
            flags,
            queue_family_indices@,
        ));
        match UnsafeImage::new(device, &create_info, 0) {
            Ok(image) => Ok(StorageImage { image, memory: None, dimensions }),
            Err(err) => Err(err),
        }
    }

    /// What memory to ask the driver for, for an image whose memory can be
    /// handed out as a file descriptor: a block of its own for the image, of
    /// the first type of memory that is local to the device and will do, or
    /// else of the first type that will do. `None` where no type will do.
    pub fn exportable_memory(&self, device: &Device, requirements: &MemoryRequirements) -> (info:
        Option<MemoryAllocateInfo>)
        requires
            fd_exportable(device),
            device.physical_device.memory_types.len() <= 32,
        ensures
            match info {
                Some(info) => {
                    &&& info.allocation_size == requirements.size
                    &&& info.dedicated_allocation == Some(
                        DedicatedAllocation::Image(self.inner_spec().image.key),
                    )
                    &&& info.export_handle_types == opaque_fd_only()
                    &&& type_usable(
                        device.physical_device.memory_types@,
                        requirements.memory_type_bits,
                        MappingRequirement::DoNotMap,
                        info.memory_type_index as int,
                    )
                },
                None => forall|i: int|
                    !type_usable(
                        device.physical_device.memory_types@,
                        requirements.memory_type_bits,
                        MappingRequirement::DoNotMap,
                        i,
                    ),
            },
    {
        device_local_exportable(
            device,
            requirements,
            AllocLayout::Optimal,
            DedicatedAllocation::Image(self.image.key),
        )
    }

    /// Same as `new`, but allows specifying the usage.
    pub fn with_usage(
        device: &Device,
        dimensions: ImageDimensions,
        format: Format,
        usage: ImageUsage,
        flags: ImageCreateFlags,
        queue_family_indices: Vec<u32>,
    ) -> (result: Result<StorageImage, ImageCreationError>)
        requires
            !usage.is_empty_spec(),
        ensures
            exists|info: UnsafeImageCreateInfo| #[trigger]
                storage_create_info(info, dimensions, format, usage, flags, queue_family_indices@)
                    && match image_refusal(device, &info) {
                    Some(refusal) => result matches Err(err) && refusal.reported_by(err),
                    None => result matches Ok(image) && image.is_described(
                        device,
                        dimensions,
                        format,
                        usage,
                        flags,
                    ),
                },
    {
        let create_info = UnsafeImageCreateInfo {
            dimensions,
            format: Some(format),
            mip_levels: 1,
            samples: SampleCount::Sample1,
            tiling: ImageTiling::Optimal,
            usage,
            stencil_usage: usage,
            sharing: sharing_of(&queue_family_indices),
            flags,
            external_memory_handle_types: ExternalMemoryHandleTypes::empty(),
        };
        assert(storage_create_info(
            create_info,
            dimensions,
            format,
            usage,
            flags,
            queue_family_indices@,
        ));
        match UnsafeImage::new(device, &create_info, 0) {
            Ok(image) => Ok(StorageImage { image, memory: None, dimensions }),
            Err(err) => Err(err),
        }
    }

    /// Takes note of the key and the handle of the image that the driver has
    /// made, and of the memory that was bound to it.
    pub fn bound(
        &mut self,
        key: u64,
        handle: u64,
        memory: PotentialDedicatedAllocation<StandardMemoryPoolAlloc>,
    )
        ensures
            final(self).memory_spec() == Some(memory),
            final(self).inner_spec().image.key == key,
            final(self).inner_spec().image.handle == handle,
            final(self).inner_spec().image.usage == old(self).inner_spec().image.usage,
            final(self).inner_spec().image.format == old(self).inner_spec().image.format,
            final(self).inner_spec().image.dimensions == old(self).inner_spec().image.dimensions,
    {
        self.image.key = key;
        self.image.handle = handle;
        self.memory = Some(memory);
    }

    /// The memory that backs the image, once it is bound.
    pub closed spec fn memory_spec(&self) -> Option<
        PotentialDedicatedAllocation<StandardMemoryPoolAlloc>,
    > {
        self.memory
    }

    /// Return the size of the allocated memory (used e.g. with cuda).
    pub fn mem_size(&self) -> (size: DeviceSize)
        requires
            self.memory_spec() is Some,
        ensures
            size == self.memory_spec()->0.memory_spec().allocation_size,
    {
        match &self.memory {
            Some(memory) => memory.memory().allocation_size(),
            None => unreached(),
        }
    }

    /// What the image is used for.
    pub fn usage(&self) -> (usage: &ImageUsage)
        ensures
            *usage == self.inner_spec().image.usage,
    {
        &self.image.usage
    }
}

impl ImageAccess for StorageImage {
    closed spec fn inner_spec(&self) -> ImageInner {
        ImageInner {
            image: self.image,
            first_layer: 0,
            num_layers: self.dimensions.array_layers_spec(),
            first_mipmap_level: 0,
            num_mipmap_levels: 1,
        }
    }

    open spec fn initial_layout_requirement_spec(&self) -> ImageLayout {
        ImageLayout::General
    }

    open spec fn final_layout_requirement_spec(&self) -> ImageLayout {
        ImageLayout::General
    }

    open spec fn descriptor_layouts_spec(&self) -> Option<ImageDescriptorLayouts> {
        Some(
            ImageDescriptorLayouts {
                storage_image: ImageLayout::General,
                combined_image_sampler: ImageLayout::General,
                sampled_image: ImageLayout::General,
                input_attachment: ImageLayout::General,
            },
        )
    }

    fn inner(&self) -> (inner: ImageInner) {
        ImageInner {
            image: self.image,
            first_layer: 0,
            num_layers: self.dimensions.array_layers(),
            first_mipmap_level: 0,
            num_mipmap_levels: 1,
        }
    }

    fn initial_layout_requirement(&self) -> (layout: ImageLayout) {
        ImageLayout::General
    }

    fn final_layout_requirement(&self) -> (layout: ImageLayout) {
        ImageLayout::General
    }

    fn descriptor_layouts(&self) -> (layouts: Option<ImageDescriptorLayouts>) {
        Some(
            ImageDescriptorLayouts {
                storage_image: ImageLayout::General,
                combined_image_sampler: ImageLayout::General,
                sampled_image: ImageLayout::General,
                input_attachment: ImageLayout::General,
            },
        )
    }
}

/// The view of a whole image of two dimensions and one layer can be asked
/// for, whatever its format.
pub proof fn lemma_whole_view_askable(device: &Device, inner: ImageInner, info: ImageViewCreateInfo)
    requires
        whole_view(inner, info),
        inner.image.format is Some,
        inner.image.dimensions is Dim2d,
        inner.num_layers == 1,
        inner.num_mipmap_levels == 1,
        !inner.image.flags.mutable_format,
    ensures
        image_view_askable(device, inner, &info),
{
}

/// Whether the view of the whole of a general-purpose image of the given
/// size, once the image is described, is refused with the given error.
pub open spec fn direct_view_refused(
    device: &Device,
    image: StorageImage,
    info: ImageViewCreateInfo,
    size: [u32; 2],
    format: Format,
    usage: ImageUsage,
    err: ImageViewCreationError,
) -> bool {
    &&& whole_view(image.inner_spec(), info)
    &&& image.is_described(
        device,
        ImageDimensions::Dim2d { width: size[0], height: size[1], array_layers: 1 },
        format,
        usage,
        ImageCreateFlags::empty_spec(),
    )
    &&& (image_view_refusal(device, image.inner_spec(), &info) matches Some(refusal)
        && refusal.reported_by(err))
}

impl StorageImage {
    /// Allows the creation of a simple 2D general purpose image view from `StorageImage`.
    pub fn general_purpose_image_view(
        device: &Device,
        queue: &Queue,
        size: [u32; 2],
        format: Format,
        usage: ImageUsage,
    ) -> (result: Result<ImageView<StorageImage>, ImageCreationError>)
        requires
            !usage.is_empty_spec(),
        ensures
            result matches Ok(view) ==> view.image_spec().is_described(
                device,
                ImageDimensions::Dim2d { width: size[0], height: size[1], array_layers: 1 },
                format,
                usage,
                ImageCreateFlags::empty_spec(),
            ),
            result matches Err(ImageCreationError::DirectImageViewCreationFailed(err))
                ==> exists|image: StorageImage, info: ImageViewCreateInfo| #[trigger]
                direct_view_refused(device, image, info, size, format, usage, err),
    {
        let dims = ImageDimensions::Dim2d { width: size[0], height: size[1], array_layers: 1 };
        let flags = ImageCreateFlags::empty();
        let mut queue_family_indices: Vec<u32> = Vec::new();
        queue_family_indices.push(queue.queue_family_index);
        let image_result = StorageImage::with_usage(
            device,
            dims,
            format,
            usage,
            flags,
            queue_family_indices,
        );
        match image_result {
            Ok(image) => {
                proof {
                    assert forall|info: ImageViewCreateInfo| #[trigger]
                        whole_view(image.inner_spec(), info) implies image_view_askable(
                        device,
                        image.inner_spec(),
                        &info,
                    ) by {
                        lemma_whole_view_askable(device, image.inner_spec(), info);
                    }
                }
                let ghost described = image;
                let image_view = ImageView::new_default(device, image);
                proof {
                    let info = choose|info: ImageViewCreateInfo| #[trigger]
                        whole_view(described.inner_spec(), info) && match image_view_refusal(
                            device,
                            described.inner_spec(),
                            &info,
                        ) {
                            None => image_view matches Ok(view) && view.image_spec() == described
                                && view.view_type_spec() == info.view_type && view.format_spec()
                                == info.format && view.range_spec() == info.subresource_range,
                            Some(refusal) => image_view matches Err(err) && refusal.reported_by(
                                err,
                            ),
                        };
                    if image_view is Err {
                        assert(direct_view_refused(
                            device,
                            described,
                            info,
                            size,
                            format,
                            usage,
                            image_view->Err_0,
                        ));
                    }
                }
                match image_view {
                    Ok(view) => Ok(view),
                    Err(e) => Err(ImageCreationError::DirectImageViewCreationFailed(e)),
                }
            },
            Err(e) => Err(e),
        }
    }
}

} // verus!
