use vulkano::command_buffer::BufferImageCopy;
use vulkano::device::{
    Device, DeviceExtensions, Features, FormatSupport, MemoryPropertyFlags, MemoryType,
    PhysicalDevice, Properties, Queue,
};
use vulkano::format::{Format, FormatFeatures, FormatProperties};
use vulkano::image::immutable::{
    generate_mipmaps, has_mipmaps, ImmutableImage, ImmutableImageCreationError,
};
use vulkano::image::view::ImageViewType;
use vulkano::image::{
    bits_of, mip_extent_of, whole_aspects, ImageAccess, ImageAspects, ImageDimensions,
    ImageLayout, ImageSubresourceLayers, ImageType, ImageUsage, MipmapsCount,
};
use vulkano::Version;

fn image_features() -> FormatFeatures {
    FormatFeatures {
        sampled_image: true,
        storage_image: true,
        color_attachment: true,
        color_attachment_blend: true,
        transfer_src: true,
        transfer_dst: true,
        blit_src: true,
        blit_dst: true,
        sampled_image_filter_linear: true,
        ..FormatFeatures::empty()
    }
}

fn gfx_dev_and_queue() -> (Device, Queue) {
    let device = Device {
        handle: 1,
        api_version: Version::major_minor(1, 1),
        enabled_extensions: DeviceExtensions::empty(),
        enabled_features: Features::empty(),
        physical_device: PhysicalDevice {
            properties: Properties {
                max_buffer_size: None,
                min_texel_buffer_offset_alignment: 16,
                min_storage_buffer_offset_alignment: 16,
                min_uniform_buffer_offset_alignment: 64,
                max_texel_buffer_elements: 1 << 27,
                storage_texel_buffer_offset_alignment_bytes: None,
                storage_texel_buffer_offset_single_texel_alignment: None,
                uniform_texel_buffer_offset_alignment_bytes: None,
                uniform_texel_buffer_offset_single_texel_alignment: None,
                max_multiview_view_count: None,
                max_color_attachments: 8,
            },
            memory_types: vec![MemoryType {
                property_flags: MemoryPropertyFlags {
                    device_local: true,
                    ..MemoryPropertyFlags::empty()
                },
                heap_index: 0,
            }],
            queue_family_count: 1,
            supported_extensions: DeviceExtensions::empty(),
            format_support: vec![
                FormatSupport {
                    format: Format::R8G8B8A8_UNORM,
                    properties: FormatProperties {
                        linear_tiling_features: image_features(),
                        optimal_tiling_features: image_features(),
                        buffer_features: FormatFeatures::empty(),
                    },
                },
                FormatSupport {
                    format: Format::D16_UNORM,
                    properties: FormatProperties {
                        linear_tiling_features: FormatFeatures::empty(),
                        optimal_tiling_features: FormatFeatures {
                            sampled_image: true,
                            storage_image: true,
                            depth_stencil_attachment: true,
                            transfer_src: true,
                            transfer_dst: true,
                            ..FormatFeatures::empty()
                        },
                        buffer_features: FormatFeatures::empty(),
                    },
                },
            ],
        },
    };
    let queue = Queue {
        device: 1,
        queue_family_index: 0,
        id_within_family: 0,
    };
    (device, queue)
}


#[test]
fn dimensions_tell_their_extent() {
    let one = ImageDimensions::Dim1d {
        width: 7,
        array_layers: 3,
    };
    assert_eq!(one.width(), 7);
    assert_eq!(one.height(), 1);
    assert_eq!(one.depth(), 1);
    assert_eq!(one.array_layers(), 3);
    assert_eq!(one.width_height(), [7, 1]);
    assert_eq!(one.width_height_depth(), [7, 1, 1]);
    assert_eq!(one.image_type(), ImageType::Dim1d);

    let two = ImageDimensions::Dim2d {
        width: 640,
        height: 480,
        array_layers: 1,
    };
    assert_eq!(two.width_height_depth(), [640, 480, 1]);
    assert_eq!(two.image_type(), ImageType::Dim2d);

    let three = ImageDimensions::Dim3d {
        width: 4,
        height: 5,
        depth: 6,
    };
    assert_eq!(three.width_height_depth(), [4, 5, 6]);
    assert_eq!(three.array_layers(), 1);
    assert_eq!(three.image_type(), ImageType::Dim3d);
}

#[test]
fn max_mip_levels_is_the_bit_length_of_the_largest_extent() {
    let dims = |width, height| ImageDimensions::Dim2d {
        width,
        height,
        array_layers: 1,
    };
    assert_eq!(dims(2, 1).max_mip_levels(), 2);
    assert_eq!(dims(2, 3).max_mip_levels(), 2);
    assert_eq!(dims(512, 512).max_mip_levels(), 10);
    assert_eq!(dims(1, 1).max_mip_levels(), 1);
    assert_eq!(dims(283, 175).max_mip_levels(), 9);
    assert_eq!(
        ImageDimensions::Dim3d {
            width: 4,
            height: 5,
            depth: 64
        }
        .max_mip_levels(),
        7
    );
    assert_eq!(bits_of(0), 0);
    assert_eq!(bits_of(1), 1);
    assert_eq!(bits_of(255), 8);
    assert_eq!(bits_of(256), 9);
    assert_eq!(bits_of(u32::MAX), 32);
}

#[test]
fn mip_levels_halve_the_extent() {
    let dims = ImageDimensions::Dim2d {
        width: 283,
        height: 175,
        array_layers: 1,
    };
    let level = |width, height| {
        Some(ImageDimensions::Dim2d {
            width,
            height,
            array_layers: 1,
        })
    };
    assert_eq!(dims.mip_level_dimensions(0), level(283, 175));
    assert_eq!(dims.mip_level_dimensions(1), level(141, 87));
    assert_eq!(dims.mip_level_dimensions(2), level(70, 43));
    assert_eq!(dims.mip_level_dimensions(3), level(35, 21));
    assert_eq!(dims.mip_level_dimensions(4), level(17, 10));
    assert_eq!(dims.mip_level_dimensions(5), level(8, 5));
    assert_eq!(dims.mip_level_dimensions(6), level(4, 2));
    assert_eq!(dims.mip_level_dimensions(7), level(2, 1));
    assert_eq!(dims.mip_level_dimensions(8), level(1, 1));
    assert_eq!(dims.mip_level_dimensions(9), None);
    assert_eq!(mip_extent_of(283, 1), 141);
    assert_eq!(mip_extent_of(1, 5), 1);
    assert_eq!(mip_extent_of(8, 3), 1);
    assert_eq!(mip_extent_of(8, 40), 1);

    let layered = ImageDimensions::Dim1d {
        width: 8,
        array_layers: 5,
    };
    assert_eq!(
        layered.mip_level_dimensions(2),
        Some(ImageDimensions::Dim1d {
            width: 2,
            array_layers: 5
        })
    );
}

#[test]
fn mipmaps_are_asked_for_by_more_than_one_level() {
    assert!(!has_mipmaps(MipmapsCount::One));
    assert!(has_mipmaps(MipmapsCount::Log2));
    assert!(!has_mipmaps(MipmapsCount::Specific(0)));
    assert!(!has_mipmaps(MipmapsCount::Specific(1)));
    assert!(has_mipmaps(MipmapsCount::Specific(2)));
}

#[test]
fn each_mip_level_is_blitted_from_the_one_before() {
    let dims = ImageDimensions::Dim2d {
        width: 8,
        height: 2,
        array_layers: 3,
    };
    let blits = generate_mipmaps(
        4,
        Format::R8G8B8A8_UNORM,
        dims,
        ImageLayout::ShaderReadOnlyOptimal,
    );
    assert_eq!(blits.len(), 3);
    let extents = [[8, 2, 1], [4, 1, 1], [2, 1, 1], [1, 1, 1]];
    for (level, blit) in blits.iter().enumerate() {
        assert_eq!(blit.src_subresource.mip_level, level as u32);
        assert_eq!(blit.dst_subresource.mip_level, level as u32 + 1);
        assert_eq!(blit.src_subresource.array_layers, 0..3);
        assert_eq!(blit.dst_subresource.array_layers, 0..3);
        assert_eq!(
            blit.src_subresource.aspects,
            ImageAspects {
                color: true,
                ..ImageAspects::empty()
            }
        );
        assert_eq!(blit.src_offsets, [[0, 0, 0], extents[level]]);
        assert_eq!(blit.dst_offsets, [[0, 0, 0], extents[level + 1]]);
    }
    assert!(generate_mipmaps(1, Format::R8G8B8A8_UNORM, dims, ImageLayout::General).is_empty());
    assert!(generate_mipmaps(0, Format::R8G8B8A8_UNORM, dims, ImageLayout::General).is_empty());
}

#[test]
fn view_types_match_image_types() {
    assert!(!ImageViewType::Dim1d.is_arrayed());
    assert!(ImageViewType::Dim1dArray.is_arrayed());
    assert!(!ImageViewType::Dim2d.is_arrayed());
    assert!(ImageViewType::Dim2dArray.is_arrayed());
    assert!(!ImageViewType::Dim3d.is_arrayed());
    assert!(!ImageViewType::Cube.is_arrayed());
    assert!(ImageViewType::CubeArray.is_arrayed());

    assert!(ImageViewType::Dim1d.is_compatible_with(ImageType::Dim1d));
    assert!(ImageViewType::Dim1dArray.is_compatible_with(ImageType::Dim1d));
    assert!(!ImageViewType::Dim1d.is_compatible_with(ImageType::Dim2d));
    assert!(ImageViewType::Dim2d.is_compatible_with(ImageType::Dim2d));
    assert!(ImageViewType::Dim2d.is_compatible_with(ImageType::Dim3d));
    assert!(ImageViewType::Dim2dArray.is_compatible_with(ImageType::Dim3d));
    assert!(ImageViewType::Cube.is_compatible_with(ImageType::Dim2d));
    assert!(ImageViewType::CubeArray.is_compatible_with(ImageType::Dim2d));
    assert!(!ImageViewType::Cube.is_compatible_with(ImageType::Dim3d));
    assert!(ImageViewType::Dim3d.is_compatible_with(ImageType::Dim3d));
    assert!(!ImageViewType::Dim3d.is_compatible_with(ImageType::Dim2d));
}

#[test]
fn whole_aspects_follow_the_format() {
    assert_eq!(
        whole_aspects(Format::R8G8B8A8_UNORM),
        ImageAspects {
            color: true,
            ..ImageAspects::empty()
        }
    );
    assert_eq!(
        whole_aspects(Format::D16_UNORM),
        ImageAspects {
            depth: true,
            ..ImageAspects::empty()
        }
    );
    assert_eq!(
        ImageSubresourceLayers::from_parameters(Format::D16_UNORM, 6),
        ImageSubresourceLayers {
            aspects: ImageAspects {
                depth: true,
                ..ImageAspects::empty()
            },
            mip_level: 0,
            array_layers: 0..6,
        }
    );
}

#[test]
fn copy_size_counts_blocks() {
    let region = |extent: [u32; 3], layers: u32, row: u32, height: u32| BufferImageCopy {
        buffer_offset: 0,
        buffer_row_length: row,
        buffer_image_height: height,
        image_subresource: ImageSubresourceLayers::from_parameters(
            Format::R8G8B8A8_UNORM,
            layers,
        ),
        image_offset: [0, 0, 0],
        image_extent: extent,
    };
    assert_eq!(
        region([32, 32, 1], 1, 0, 0).buffer_copy_size(Format::R8G8B8A8_UNORM),
        4096
    );
    assert_eq!(
        region([1, 1, 1], 1, 0, 0).buffer_copy_size(Format::R8G8B8A8_UNORM),
        4
    );
    assert_eq!(
        region([3, 2, 1], 1, 8, 0).buffer_copy_size(Format::R8G8B8A8_UNORM),
        (8 + 3) * 4
    );
    assert_eq!(
        region([3, 2, 1], 2, 8, 4).buffer_copy_size(Format::R8G8B8A8_UNORM),
        (4 * 8 + 8 + 3) * 4
    );
    assert_eq!(
        region([4, 4, 5], 1, 0, 0).buffer_copy_size(Format::R8G8B8A8_UNORM),
        (4 * 16 + 3 * 4 + 4) * 4
    );
    let depth = BufferImageCopy {
        buffer_offset: 0,
        buffer_row_length: 0,
        buffer_image_height: 0,
        image_subresource: ImageSubresourceLayers::from_parameters(Format::D16_UNORM, 1),
        image_offset: [0, 0, 0],
        image_extent: [10, 10, 1],
    };
    assert_eq!(depth.buffer_copy_size(Format::D16_UNORM), 200);
}

#[test]
fn upload_of_too_little_data_is_refused() {
    let (device, queue) = gfx_dev_and_queue();
    let dims = ImageDimensions::Dim2d {
        width: 16,
        height: 16,
        array_layers: 1,
    };
    match ImmutableImage::from_buffer(
        &device,
        1023,
        dims,
        MipmapsCount::One,
        Format::R8G8B8A8_UNORM,
        &vec![queue.queue_family_index],
    ) {
        Err(ImmutableImageCreationError::SourceTooSmall {
            source_size,
            required_size,
        }) => {
            assert_eq!(source_size, 1023);
            assert_eq!(required_size, 1024);
        }
        _ => panic!(),
    }
}

#[test]
fn upload_copies_the_first_level_and_blits_the_rest() {
    let (device, queue) = gfx_dev_and_queue();
    let dims = ImageDimensions::Dim2d {
        width: 16,
        height: 16,
        array_layers: 1,
    };
    let upload = ImmutableImage::from_buffer(
        &device,
        1024,
        dims,
        MipmapsCount::Log2,
        Format::R8G8B8A8_UNORM,
        &vec![queue.queue_family_index],
    )
    .unwrap();
    assert_eq!(upload.region.image_extent, [16, 16, 1]);
    assert_eq!(upload.region.image_offset, [0, 0, 0]);
    assert_eq!(upload.region.buffer_offset, 0);
    assert_eq!(upload.blits.len(), 4);
    let inner = upload.image.inner();
    assert_eq!(inner.image.mip_levels, 5);
    assert_eq!(inner.num_mipmap_levels, 5);
    assert_eq!(
        inner.image.usage,
        ImageUsage {
            transfer_src: true,
            transfer_dst: true,
            sampled: true,
            ..ImageUsage::empty()
        }
    );
    assert_eq!(
        upload.image.final_layout_requirement(),
        ImageLayout::ShaderReadOnlyOptimal
    );
    assert_eq!(
        upload.initialization.initial_layout_requirement(),
        ImageLayout::Undefined
    );
    assert_eq!(
        upload.initialization.final_layout_requirement(),
        ImageLayout::ShaderReadOnlyOptimal
    );

    let (staging, plain) = ImmutableImage::from_iter(
        &device,
        256,
        4,
        dims,
        MipmapsCount::One,
        Format::R8G8B8A8_UNORM,
        &vec![queue.queue_family_index],
    )
    .unwrap();
    assert_eq!(staging.size, 1024);
    assert!(staging.usage.transfer_src);
    assert!(plain.blits.is_empty());
    assert!(!plain.image.inner().image.usage.transfer_src);
}
