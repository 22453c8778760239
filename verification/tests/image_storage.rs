use vulkano::device::{
    Device, DeviceExtensions, Features, FormatSupport, MemoryPropertyFlags, MemoryType,
    PhysicalDevice, Properties, Queue,
};
use vulkano::format::{Format, FormatFeatures, FormatProperties};
use vulkano::image::storage::StorageImage;
use vulkano::image::view::{ImageViewAbstract, ImageViewCreationError, ImageViewType};
use vulkano::image::{ImageAccess, ImageCreationError, ImageDimensions, ImageLayout, ImageUsage};
use vulkano::memory::pool::{
    MemoryPoolAlloc, PotentialDedicatedAllocation, StandardMemoryPoolAlloc,
};
use vulkano::memory::{DeviceMemory, MemoryAllocateFlags};
use vulkano::Version;

fn image_features() -> FormatFeatures {
    FormatFeatures {
        sampled_image: true,
        storage_image: true,
        color_attachment: true,
        color_attachment_blend: true,
        transfer_src: true,
        transfer_dst: true,
        blit_src: true,
        blit_dst: true,
        sampled_image_filter_linear: true,
        ..FormatFeatures::empty()
    }
}

fn gfx_dev_and_queue() -> (Device, Queue) {
    let device = Device {
        handle: 1,
        api_version: Version::major_minor(1, 1),
        enabled_extensions: DeviceExtensions::empty(),
        enabled_features: Features::empty(),
        physical_device: PhysicalDevice {
            properties: Properties {
                max_buffer_size: None,
                min_texel_buffer_offset_alignment: 16,
                min_storage_buffer_offset_alignment: 16,
                min_uniform_buffer_offset_alignment: 64,
                max_texel_buffer_elements: 1 << 27,
                storage_texel_buffer_offset_alignment_bytes: None,
                storage_texel_buffer_offset_single_texel_alignment: None,
                uniform_texel_buffer_offset_alignment_bytes: None,
                uniform_texel_buffer_offset_single_texel_alignment: None,
                max_multiview_view_count: None,
                max_color_attachments: 8,
            },
            memory_types: vec![MemoryType {
                property_flags: MemoryPropertyFlags {
                    device_local: true,
                    ..MemoryPropertyFlags::empty()
                },
                heap_index: 0,
            }],
            queue_family_count: 1,
            supported_extensions: DeviceExtensions::empty(),
            format_support: vec![
                FormatSupport {
                    format: Format::R8G8B8A8_UNORM,
                    properties: FormatProperties {
                        linear_tiling_features: image_features(),
                        optimal_tiling_features: image_features(),
                        buffer_features: FormatFeatures::empty(),
                    },
                },
                FormatSupport {
                    format: Format::D16_UNORM,
                    properties: FormatProperties {
                        linear_tiling_features: FormatFeatures::empty(),
                        optimal_tiling_features: FormatFeatures {
                            sampled_image: true,
                            storage_image: true,
                            depth_stencil_attachment: true,
                            transfer_src: true,
                            transfer_dst: true,
                            ..FormatFeatures::empty()
                        },
                        buffer_features: FormatFeatures::empty(),
                    },
                },
            ],
        },
    };
    let queue = Queue {
        device: 1,
        queue_family_index: 0,
        id_within_family: 0,
    };
    (device, queue)
}

#[test]
fn storage_create() {
    let (device, queue) = gfx_dev_and_queue();
    let _img = StorageImage::new(
        &device,
        ImageDimensions::Dim2d {
            width: 32,
            height: 32,
            array_layers: 1,
        },
        Format::R8G8B8A8_UNORM,
        vec![queue.queue_family_index],
    )
    .unwrap();
}

#[test]
fn create_general_purpose_image_view() {
    let (device, queue) = gfx_dev_and_queue();
    let usage = ImageUsage {
        transfer_src: true,
        transfer_dst: true,
        color_attachment: true,
        ..ImageUsage::empty()
    };
    let img_view = StorageImage::general_purpose_image_view(
        &device,
        &queue,
        [32, 32],
        Format::R8G8B8A8_UNORM,
        usage,
    )
    .unwrap();
    assert_eq!(img_view.image().usage(), &usage);
}

#[test]
fn create_general_purpose_image_view_failed() {
    let (device, queue) = gfx_dev_and_queue();
    // Not valid for image view...
    let usage = ImageUsage {
        transfer_src: true,
        ..ImageUsage::empty()
    };
    let img_result = StorageImage::general_purpose_image_view(
        &device,
        &queue,
        [32, 32],
        Format::R8G8B8A8_UNORM,
        usage,
    );
    match img_result {
        Err(err) => assert_eq!(
            err,
            ImageCreationError::DirectImageViewCreationFailed(
                ImageViewCreationError::ImageMissingUsage
            )
        ),
        Ok(_) => panic!("the view must be refused"),
    }
}

#[test]
fn storage_image_usage_follows_the_format() {
    let (device, queue) = gfx_dev_and_queue();
    let color = StorageImage::new(
        &device,
        ImageDimensions::Dim2d {
            width: 8,
            height: 8,
            array_layers: 1,
        },
        Format::R8G8B8A8_UNORM,
        vec![queue.queue_family_index],
    )
    .unwrap();
    assert!(color.usage().color_attachment);
    assert!(!color.usage().depth_stencil_attachment);
    assert!(color.usage().input_attachment && color.usage().storage && color.usage().sampled);
    let depth = StorageImage::new(
        &device,
        ImageDimensions::Dim2d {
            width: 8,
            height: 8,
            array_layers: 1,
        },
        Format::D16_UNORM,
        vec![queue.queue_family_index],
    )
    .unwrap();
    assert!(!depth.usage().color_attachment);
    assert!(depth.usage().depth_stencil_attachment);
    assert_eq!(depth.initial_layout_requirement(), ImageLayout::General);
    assert_eq!(depth.final_layout_requirement(), ImageLayout::General);
    assert_eq!(depth.inner().num_mipmap_levels, 1);
}

#[test]
fn storage_image_of_unknown_format_is_refused() {
    let (device, queue) = gfx_dev_and_queue();
    let result = StorageImage::new(
        &device,
        ImageDimensions::Dim2d {
            width: 8,
            height: 8,
            array_layers: 1,
        },
        Format::R32_UINT,
        vec![queue.queue_family_index],
    );
    assert_eq!(result.err(), Some(ImageCreationError::FormatNotSupported));
}

#[test]
fn storage_image_shared_with_missing_family_is_refused() {
    let (device, _queue) = gfx_dev_and_queue();
    let result = StorageImage::new(
        &device,
        ImageDimensions::Dim2d {
            width: 8,
            height: 8,
            array_layers: 1,
        },
        Format::R8G8B8A8_UNORM,
        vec![0, 7],
    );
    assert_eq!(
        result.err(),
        Some(ImageCreationError::SharingQueueFamilyIndexOutOfRange {
            queue_family_index: 7,
            queue_family_count: 1
        })
    );
}

#[test]
fn mem_size_is_the_size_of_the_allocation() {
    let (device, queue) = gfx_dev_and_queue();
    let mut img = StorageImage::new(
        &device,
        ImageDimensions::Dim2d {
            width: 32,
            height: 32,
            array_layers: 1,
        },
        Format::R8G8B8A8_UNORM,
        vec![queue.queue_family_index],
    )
    .unwrap();
    let memory = DeviceMemory {
        handle: 9,
        allocation_size: 4096,
        memory_type_index: 0,
        flags: MemoryAllocateFlags {
            device_address: false,
        },
    };
    let allocation: PotentialDedicatedAllocation<StandardMemoryPoolAlloc> =
        PotentialDedicatedAllocation::Dedicated(memory);
    assert_eq!(allocation.offset(), 0);
    assert_eq!(allocation.mapped_memory(), None);
    img.bound(3, 77, allocation);
    assert_eq!(img.mem_size(), 4096);
    assert_eq!(img.inner().image.key, 3);
    assert_eq!(img.inner().image.handle, 77);
}

#[test]
fn general_purpose_view_covers_the_whole_image() {
    let (device, queue) = gfx_dev_and_queue();
    let usage = ImageUsage {
        sampled: true,
        ..ImageUsage::empty()
    };
    let view = StorageImage::general_purpose_image_view(
        &device,
        &queue,
        [16, 4],
        Format::R8G8B8A8_UNORM,
        usage,
    )
    .unwrap();
    assert_eq!(view.view_type(), ImageViewType::Dim2d);
    assert_eq!(view.format(), Some(Format::R8G8B8A8_UNORM));
    assert_eq!(view.subresource_range().mip_levels, 0..1);
    assert_eq!(view.subresource_range().array_layers, 0..1);
    assert!(view.subresource_range().aspects.color);
    assert_eq!(
        view.dimensions(),
        ImageDimensions::Dim2d {
            width: 16,
            height: 4,
            array_layers: 1
        }
    );
    assert_eq!(view.usage(), &usage);
    assert!(!view.filter_cubic());
    assert_eq!(view.internal_object(), None);
}

#[test]
fn exportable_image_names_the_kind_of_handle() {
    let (mut device, queue) = gfx_dev_and_queue();
    let usage = ImageUsage {
        sampled: true,
        ..ImageUsage::empty()
    };
    let dims = ImageDimensions::Dim2d {
        width: 8,
        height: 8,
        array_layers: 1,
    };
    let image = StorageImage::new_with_exportable_fd(
        &device,
        dims,
        Format::R8G8B8A8_UNORM,
        usage,
        vulkano::image::ImageCreateFlags::empty(),
        vec![queue.queue_family_index],
    )
    .unwrap();
    assert!(image.inner().image.external_memory_handle_types.opaque_fd);
    assert!(!image.inner().image.external_memory_handle_types.dma_buf);

    device.api_version = Version::major_minor(1, 0);
    match StorageImage::new_with_exportable_fd(
        &device,
        dims,
        Format::R8G8B8A8_UNORM,
        usage,
        vulkano::image::ImageCreateFlags::empty(),
        vec![queue.queue_family_index],
    ) {
        Err(ImageCreationError::RequirementNotMet {
            required_for,
            requires_one_of,
        }) => {
            assert_eq!(
                required_for,
                "`create_info.external_memory_handle_types` is not empty"
            );
            assert_eq!(requires_one_of.device_extensions, &["khr_external_memory"]);
        }
        _ => panic!(),
    }

    device.enabled_extensions.khr_external_memory = true;
    device.enabled_extensions.khr_external_memory_fd = true;
    let mut image = StorageImage::new_with_exportable_fd(
        &device,
        dims,
        Format::R8G8B8A8_UNORM,
        usage,
        vulkano::image::ImageCreateFlags::empty(),
        vec![queue.queue_family_index],
    )
    .unwrap();
    let requirements = vulkano::memory::MemoryRequirements {
        size: 512,
        alignment: 64,
        memory_type_bits: 1,
        prefer_dedicated: true,
    };
    let info = image.exportable_memory(&device, &requirements).unwrap();
    assert_eq!(info.allocation_size, 512);
    assert_eq!(info.memory_type_index, 0);
    assert_eq!(
        info.dedicated_allocation,
        Some(vulkano::memory::DedicatedAllocation::Image(0))
    );
    assert!(info.export_handle_types.opaque_fd);
    let memory = DeviceMemory {
        handle: 9,
        allocation_size: 512,
        memory_type_index: 0,
        flags: MemoryAllocateFlags {
            device_address: false,
        },
    };
    image.bound(4, 70, PotentialDedicatedAllocation::Dedicated(memory));
    assert_eq!(
        image
            .exportable_memory(&device, &requirements)
            .unwrap()
            .dedicated_allocation,
        Some(vulkano::memory::DedicatedAllocation::Image(4))
    );
}
