use vulkano::device::{
    Device, DeviceExtensions, Features, FormatSupport, MemoryPropertyFlags, MemoryType,
    PhysicalDevice, Properties, Queue,
};
use vulkano::format::{Format, FormatFeatures, FormatProperties};
use vulkano::image::storage::StorageImage;
use vulkano::image::view::{
    ImageView, ImageViewAbstract, ImageViewCreateInfo, ImageViewCreationError, ImageViewType,
};
use vulkano::image::{
    ImageAspects, ImageCreateFlags, ImageDimensions, ImageSubresourceRange, ImageUsage,
};
use vulkano::{RequiresOneOf, Version};

fn image_features() -> FormatFeatures {
    FormatFeatures {
        sampled_image: true,
        storage_image: true,
        color_attachment: true,
        color_attachment_blend: true,
        transfer_src: true,
        transfer_dst: true,
        blit_src: true,
        blit_dst: true,
        sampled_image_filter_linear: true,
        ..FormatFeatures::empty()
    }
}

fn gfx_dev_and_queue() -> (Device, Queue) {
    let device = Device {
        handle: 1,
        api_version: Version::major_minor(1, 1),
        enabled_extensions: DeviceExtensions::empty(),
        enabled_features: Features::empty(),
        physical_device: PhysicalDevice {
            properties: Properties {
                max_buffer_size: None,
                min_texel_buffer_offset_alignment: 16,
                min_storage_buffer_offset_alignment: 16,
                min_uniform_buffer_offset_alignment: 64,
                max_texel_buffer_elements: 1 << 27,
                storage_texel_buffer_offset_alignment_bytes: None,
                storage_texel_buffer_offset_single_texel_alignment: None,
                uniform_texel_buffer_offset_alignment_bytes: None,
                uniform_texel_buffer_offset_single_texel_alignment: None,
                max_multiview_view_count: None,
                max_color_attachments: 8,
            },
            memory_types: vec![MemoryType {
                property_flags: MemoryPropertyFlags {
                    device_local: true,
                    ..MemoryPropertyFlags::empty()
                },
                heap_index: 0,
            }],
            queue_family_count: 1,
            supported_extensions: DeviceExtensions::empty(),
            format_support: vec![
                FormatSupport {
                    format: Format::R8G8B8A8_UNORM,
                    properties: FormatProperties {
                        linear_tiling_features: image_features(),
                        optimal_tiling_features: image_features(),
                        buffer_features: FormatFeatures::empty(),
                    },
                },
                FormatSupport {
                    format: Format::D16_UNORM,
                    properties: FormatProperties {
                        linear_tiling_features: FormatFeatures::empty(),
                        optimal_tiling_features: FormatFeatures {
                            sampled_image: true,
                            storage_image: true,
                            depth_stencil_attachment: true,
                            transfer_src: true,
                            transfer_dst: true,
                            ..FormatFeatures::empty()
                        },
                        buffer_features: FormatFeatures::empty(),
                    },
                },
            ],
        },
    };
    let queue = Queue {
        device: 1,
        queue_family_index: 0,
        id_within_family: 0,
    };
    (device, queue)
}


fn sampled() -> ImageUsage {
    ImageUsage {
        sampled: true,
        transfer_dst: true,
        ..ImageUsage::empty()
    }
}

fn image(dimensions: ImageDimensions, flags: ImageCreateFlags) -> StorageImage {
    let (device, queue) = gfx_dev_and_queue();
    StorageImage::with_usage(
        &device,
        dimensions,
        Format::R8G8B8A8_UNORM,
        sampled(),
        flags,
        vec![queue.queue_family_index],
    )
    .unwrap()
}

fn layers(array_layers: u32) -> ImageDimensions {
    ImageDimensions::Dim2d {
        width: 16,
        height: 16,
        array_layers,
    }
}

fn info(view_type: ImageViewType, array_layers: std::ops::Range<u32>) -> ImageViewCreateInfo {
    ImageViewCreateInfo {
        view_type,
        format: Some(Format::R8G8B8A8_UNORM),
        subresource_range: ImageSubresourceRange {
            aspects: ImageAspects {
                color: true,
                ..ImageAspects::empty()
            },
            mip_levels: 0..1,
            array_layers,
        },
        ..Default::default()
    }
}

fn refused(image: StorageImage, info: ImageViewCreateInfo) -> ImageViewCreationError {
    let (device, _) = gfx_dev_and_queue();
    ImageView::new(&device, image, info).unwrap_err()
}

#[test]
fn view_takes_its_parameters_from_the_image() {
    let image = image(layers(4), ImageCreateFlags::empty());
    let from_image = ImageViewCreateInfo::from_image(&image);
    assert_eq!(from_image.view_type, ImageViewType::Dim2dArray);
    assert_eq!(from_image.format, Some(Format::R8G8B8A8_UNORM));
    assert_eq!(from_image.subresource_range.array_layers, 0..4);
    assert_eq!(from_image.subresource_range.mip_levels, 0..1);
    assert_eq!(
        from_image.subresource_range.aspects,
        ImageAspects {
            color: true,
            ..ImageAspects::empty()
        }
    );

    let (device, _) = gfx_dev_and_queue();
    let mut view = ImageView::new(&device, image, info(ImageViewType::Dim2dArray, 1..3)).unwrap();
    assert_eq!(view.view_type(), ImageViewType::Dim2dArray);
    assert_eq!(view.format(), Some(Format::R8G8B8A8_UNORM));
    assert_eq!(view.usage(), &sampled());
    assert_eq!(view.subresource_range().array_layers, 1..3);
    assert_eq!(view.dimensions(), layers(2));
    assert_eq!(view.internal_object(), None);
    assert!(view.component_mapping().is_identity());
    assert_eq!(view.sampler_ycbcr_conversion(), None);
    view.created(&device, 55, None);
    assert_eq!(view.internal_object(), Some(55));
    assert!(!view.filter_cubic());
    assert!(!view.filter_cubic_minmax());
}

#[test]
fn view_type_must_fit_the_image() {
    assert_eq!(
        refused(
            image(layers(1), ImageCreateFlags::empty()),
            info(ImageViewType::Dim1d, 0..1)
        ),
        ImageViewCreationError::ImageTypeNotCompatible
    );
    assert_eq!(
        refused(
            image(layers(1), ImageCreateFlags::empty()),
            info(ImageViewType::Dim3d, 0..1)
        ),
        ImageViewCreationError::ImageTypeNotCompatible
    );
}

#[test]
fn cube_view_needs_a_cube_compatible_image_of_six_layers() {
    assert_eq!(
        refused(
            image(layers(6), ImageCreateFlags::empty()),
            info(ImageViewType::Cube, 0..6)
        ),
        ImageViewCreationError::ImageNotCubeCompatible
    );
    let cube = ImageCreateFlags {
        cube_compatible: true,
        ..ImageCreateFlags::empty()
    };
    assert_eq!(
        refused(image(layers(6), cube), info(ImageViewType::Cube, 0..5)),
        ImageViewCreationError::TypeCubeNot6ArrayLayers
    );
    let (device, _) = gfx_dev_and_queue();
    assert!(ImageView::new(&device, image(layers(6), cube), info(ImageViewType::Cube, 0..6)).is_ok());

    match refused(image(layers(12), cube), info(ImageViewType::CubeArray, 0..12)) {
        ImageViewCreationError::RequirementNotMet {
            requires_one_of: RequiresOneOf { features, .. },
            ..
        } => assert_eq!(features, &["image_cube_array"]),
        _ => panic!(),
    }
    let mut with_arrays = device;
    with_arrays.enabled_features.image_cube_array = true;
    assert_eq!(
        ImageView::new(
            &with_arrays,
            image(layers(12), cube),
            info(ImageViewType::CubeArray, 0..8)
        )
        .unwrap_err(),
        ImageViewCreationError::TypeCubeArrayNotMultipleOf6ArrayLayers
    );
    assert!(ImageView::new(
        &with_arrays,
        image(layers(12), cube),
        info(ImageViewType::CubeArray, 0..12)
    )
    .is_ok());
}

#[test]
fn view_stays_within_the_levels_and_layers_of_the_image() {
    let mut levels = info(ImageViewType::Dim2d, 0..1);
    levels.subresource_range.mip_levels = 0..2;
    assert_eq!(
        refused(image(layers(1), ImageCreateFlags::empty()), levels),
        ImageViewCreationError::MipLevelsOutOfRange {
            range_end: 2,
            max: 1
        }
    );
    assert_eq!(
        refused(
            image(layers(2), ImageCreateFlags::empty()),
            info(ImageViewType::Dim2dArray, 1..3)
        ),
        ImageViewCreationError::ArrayLayersOutOfRange {
            range_end: 3,
            max: 2
        }
    );
    assert_eq!(
        refused(
            image(layers(2), ImageCreateFlags::empty()),
            info(ImageViewType::Dim2d, 0..2)
        ),
        ImageViewCreationError::TypeNonArrayedMultipleArrayLayers
    );
}

#[test]
fn view_selects_aspects_of_the_image() {
    let mut depth = info(ImageViewType::Dim2d, 0..1);
    depth.subresource_range.aspects = ImageAspects {
        depth: true,
        ..ImageAspects::empty()
    };
    assert_eq!(
        refused(image(layers(1), ImageCreateFlags::empty()), depth),
        ImageViewCreationError::ImageAspectsNotCompatible {
            aspects: ImageAspects {
                depth: true,
                ..ImageAspects::empty()
            },
            image_aspects: ImageAspects {
                color: true,
                ..ImageAspects::empty()
            },
        }
    );
}

#[test]
fn view_of_another_format_needs_a_mutable_image() {
    let mut other = info(ImageViewType::Dim2d, 0..1);
    other.format = Some(Format::R32_UINT);
    assert_eq!(
        refused(image(layers(1), ImageCreateFlags::empty()), other),
        ImageViewCreationError::FormatNotSupported
    );
}

#[test]
fn view_of_a_volume_as_layers_needs_the_flag() {
    let volume = ImageDimensions::Dim3d {
        width: 8,
        height: 8,
        depth: 4,
    };
    assert_eq!(
        refused(
            image(volume, ImageCreateFlags::empty()),
            info(ImageViewType::Dim2dArray, 0..4)
        ),
        ImageViewCreationError::ImageNotArray2dCompatible
    );
    let flag = ImageCreateFlags {
        array_2d_compatible: true,
        ..ImageCreateFlags::empty()
    };
    assert_eq!(
        refused(image(volume, flag), info(ImageViewType::Dim2dArray, 0..5)),
        ImageViewCreationError::ArrayLayersOutOfRange {
            range_end: 5,
            max: 4
        }
    );
    let (device, _) = gfx_dev_and_queue();
    let view = ImageView::new(&device, image(volume, flag), info(ImageViewType::Dim2dArray, 0..4))
        .unwrap();
    assert_eq!(view.view_type(), ImageViewType::Dim2dArray);
}

#[test]
fn usage_of_a_view_is_within_that_of_the_image() {
    let mut narrowed = info(ImageViewType::Dim2d, 0..1);
    narrowed.usage = ImageUsage {
        sampled: true,
        ..ImageUsage::empty()
    };
    let (device, _) = gfx_dev_and_queue();
    let view = ImageView::new(&device, image(layers(1), ImageCreateFlags::empty()), narrowed)
        .unwrap();
    assert_eq!(
        view.usage(),
        &ImageUsage {
            sampled: true,
            ..ImageUsage::empty()
        }
    );
}

#[test]
fn image_view_errors_have_words() {
    assert_eq!(
        ImageViewCreationError::ImageTypeNotCompatible.to_string(),
        "the given image view type was not compatible with the type of the image"
    );
    assert_eq!(
        ImageViewCreationError::TypeCubeNot6ArrayLayers.to_string(),
        "the `Cube` image view type was specified, but the range of array layers did not have a size of 6"
    );
}
