use vulkano::device::{
    Device, DeviceExtensions, Features, FormatSupport, MemoryPropertyFlags, MemoryType,
    PhysicalDevice, Properties,
};
use vulkano::format::{Format, FormatFeatures, FormatProperties};
use vulkano::image::{ImageAspects, ImageLayout, SampleCount};
use vulkano::render_pass::arrange::{
    arrange_references, dependency_flags, input_aspect_references, multiview_lists, raw_subpass,
    second_version, view_offset, InputAspectReference, SubpassPlaces, SUBPASS_EXTERNAL,
};
use vulkano::render_pass::create::RenderPassCreationError;
use vulkano::render_pass::{
    AttachmentDescription, AttachmentReference, LoadOp, RenderPass, RenderPassCreateInfo,
    StoreOp, SubpassDependency, SubpassDescription,
};
use vulkano::sync::{AccessFlags, PipelineStages};
use vulkano::{RequiresOneOf, Version};

fn image_features() -> FormatFeatures {
    FormatFeatures {
        sampled_image: true,
        storage_image: true,
        color_attachment: true,
        color_attachment_blend: true,
        transfer_src: true,
        transfer_dst: true,
        blit_src: true,
        blit_dst: true,
        sampled_image_filter_linear: true,
        ..FormatFeatures::empty()
    }
}

fn device_with(enabled_features: Features, max_multiview_view_count: Option<u32>) -> Device {
    Device {
        handle: 1,
        api_version: Version::major_minor(1, 0),
        enabled_extensions: DeviceExtensions::empty(),
        enabled_features,
        physical_device: PhysicalDevice {
            properties: Properties {
                max_buffer_size: None,
                min_texel_buffer_offset_alignment: 16,
                min_storage_buffer_offset_alignment: 16,
                min_uniform_buffer_offset_alignment: 64,
                max_texel_buffer_elements: 1 << 27,
                storage_texel_buffer_offset_alignment_bytes: None,
                storage_texel_buffer_offset_single_texel_alignment: None,
                uniform_texel_buffer_offset_alignment_bytes: None,
                uniform_texel_buffer_offset_single_texel_alignment: None,
                max_multiview_view_count,
                max_color_attachments: 4,
            },
            memory_types: vec![MemoryType {
                property_flags: MemoryPropertyFlags {
                    device_local: true,
                    ..MemoryPropertyFlags::empty()
                },
                heap_index: 0,
            }],
            queue_family_count: 1,
            supported_extensions: DeviceExtensions::empty(),
            format_support: vec![
                FormatSupport {
                    format: Format::R8G8B8A8_UNORM,
                    properties: FormatProperties {
                        linear_tiling_features: image_features(),
                        optimal_tiling_features: image_features(),
                        buffer_features: FormatFeatures::empty(),
                    },
                },
                FormatSupport {
                    format: Format::D16_UNORM,
                    properties: FormatProperties {
                        linear_tiling_features: FormatFeatures::empty(),
                        optimal_tiling_features: FormatFeatures {
                            sampled_image: true,
                            storage_image: true,
                            depth_stencil_attachment: true,
                            transfer_src: true,
                            transfer_dst: true,
                            ..FormatFeatures::empty()
                        },
                        buffer_features: FormatFeatures::empty(),
                    },
                },
            ],
        },
    }
}

fn device() -> Device {
    device_with(Features::empty(), None)
}

fn color(samples: SampleCount) -> AttachmentDescription {
    AttachmentDescription {
        format: Some(Format::R8G8B8A8_UNORM),
        samples,
        load_op: LoadOp::Clear,
        store_op: StoreOp::Store,
        stencil_load_op: LoadOp::DontCare,
        stencil_store_op: StoreOp::DontCare,
        initial_layout: ImageLayout::ColorAttachmentOptimal,
        final_layout: ImageLayout::ColorAttachmentOptimal,
    }
}

fn depth() -> AttachmentDescription {
    AttachmentDescription {
        format: Some(Format::D16_UNORM),
        samples: SampleCount::Sample1,
        load_op: LoadOp::Clear,
        store_op: StoreOp::DontCare,
        stencil_load_op: LoadOp::DontCare,
        stencil_store_op: StoreOp::DontCare,
        initial_layout: ImageLayout::DepthStencilAttachmentOptimal,
        final_layout: ImageLayout::DepthStencilAttachmentOptimal,
    }
}

fn reference(attachment: u32, layout: ImageLayout) -> Option<AttachmentReference> {
    Some(AttachmentReference {
        attachment,
        layout,
        aspects: ImageAspects::empty(),
    })
}

fn subpass() -> SubpassDescription {
    SubpassDescription {
        view_mask: 0,
        input_attachments: vec![],
        color_attachments: vec![],
        resolve_attachments: vec![],
        depth_stencil_attachment: None,
        preserve_attachments: vec![],
    }
}

fn draws_to(attachment: u32) -> SubpassDescription {
    SubpassDescription {
        color_attachments: vec![reference(attachment, ImageLayout::ColorAttachmentOptimal)],
        ..subpass()
    }
}

fn pass(
    attachments: Vec<AttachmentDescription>,
    subpasses: Vec<SubpassDescription>,
) -> RenderPassCreateInfo {
    RenderPassCreateInfo {
        attachments,
        subpasses,
        dependencies: vec![],
        correlated_view_masks: vec![],
    }
}

fn fragment_to_fragment(source: Option<u32>, destination: Option<u32>) -> SubpassDependency {
    SubpassDependency {
        source_subpass: source,
        destination_subpass: destination,
        source_stages: PipelineStages {
            color_attachment_output: true,
            ..PipelineStages::empty()
        },
        destination_stages: PipelineStages {
            fragment_shader: true,
            ..PipelineStages::empty()
        },
        source_access: AccessFlags {
            color_attachment_write: true,
            ..AccessFlags::empty()
        },
        destination_access: AccessFlags {
            input_attachment_read: true,
            ..AccessFlags::empty()
        },
        by_region: true,
        view_local: None,
    }
}

fn validate(info: RenderPassCreateInfo) -> Result<u32, RenderPassCreationError> {
    let mut info = info;
    RenderPass::validate(&device(), &mut info)
}

#[test]
fn pass_with_color_and_depth_is_accepted() {
    let mut info = pass(
        vec![color(SampleCount::Sample1), depth()],
        vec![SubpassDescription {
            color_attachments: vec![reference(0, ImageLayout::ColorAttachmentOptimal)],
            depth_stencil_attachment: reference(1, ImageLayout::DepthStencilAttachmentOptimal),
            ..subpass()
        }],
    );
    let before = info.clone();
    assert_eq!(RenderPass::validate(&device(), &mut info), Ok(0));
    assert_eq!(info, before);
}

#[test]
fn pass_without_attachments_is_accepted() {
    assert_eq!(validate(pass(vec![], vec![subpass()])), Ok(0));
}

#[test]
fn final_layout_must_be_defined() {
    let mut attachment = color(SampleCount::Sample1);
    attachment.final_layout = ImageLayout::Undefined;
    assert_eq!(
        validate(pass(vec![color(SampleCount::Sample1), attachment], vec![subpass()])),
        Err(RenderPassCreationError::AttachmentLayoutInvalid { attachment: 1 })
    );
    let mut attachment = color(SampleCount::Sample1);
    attachment.final_layout = ImageLayout::Preinitialized;
    assert_eq!(
        validate(pass(vec![attachment], vec![subpass()])),
        Err(RenderPassCreationError::AttachmentLayoutInvalid { attachment: 0 })
    );
}

#[test]
fn layouts_must_fit_the_format() {
    let mut attachment = color(SampleCount::Sample1);
    attachment.initial_layout = ImageLayout::DepthStencilAttachmentOptimal;
    assert_eq!(
        validate(pass(vec![attachment], vec![subpass()])),
        Err(RenderPassCreationError::AttachmentLayoutInvalid { attachment: 0 })
    );
    let mut attachment = depth();
    attachment.final_layout = ImageLayout::ColorAttachmentOptimal;
    assert_eq!(
        validate(pass(vec![attachment], vec![subpass()])),
        Err(RenderPassCreationError::AttachmentLayoutInvalid { attachment: 0 })
    );
    let mut attachment = color(SampleCount::Sample1);
    attachment.initial_layout = ImageLayout::Undefined;
    attachment.final_layout = ImageLayout::PresentSrc;
    assert_eq!(validate(pass(vec![attachment], vec![subpass()])), Ok(0));
}

#[test]
fn attachment_of_a_subpass_must_exist() {
    assert_eq!(
        validate(pass(vec![color(SampleCount::Sample1)], vec![subpass(), draws_to(1)])),
        Err(RenderPassCreationError::SubpassAttachmentOutOfRange {
            subpass: 1,
            attachment: 1
        })
    );
    assert_eq!(
        validate(pass(
            vec![color(SampleCount::Sample1)],
            vec![SubpassDescription {
                preserve_attachments: vec![0, 3],
                ..subpass()
            }]
        )),
        Err(RenderPassCreationError::SubpassAttachmentOutOfRange {
            subpass: 0,
            attachment: 3
        })
    );
}

#[test]
fn format_must_allow_the_use() {
    assert_eq!(
        validate(pass(vec![depth()], vec![draws_to(0)])),
        Err(
            RenderPassCreationError::SubpassAttachmentFormatUsageNotSupported {
                subpass: 0,
                attachment: 0,
                usage: "color"
            }
        )
    );
    assert_eq!(
        validate(pass(
            vec![color(SampleCount::Sample1)],
            vec![SubpassDescription {
                depth_stencil_attachment: reference(0, ImageLayout::General),
                ..subpass()
            }]
        )),
        Err(
            RenderPassCreationError::SubpassAttachmentFormatUsageNotSupported {
                subpass: 0,
                attachment: 0,
                usage: "depth/stencil"
            }
        )
    );
}

#[test]
fn layout_must_allow_the_use() {
    assert_eq!(
        validate(pass(
            vec![color(SampleCount::Sample1)],
            vec![SubpassDescription {
                color_attachments: vec![reference(0, ImageLayout::PresentSrc)],
                ..subpass()
            }]
        )),
        Err(RenderPassCreationError::SubpassAttachmentLayoutInvalid {
            subpass: 0,
            attachment: 0,
            usage: "color"
        })
    );
    assert_eq!(
        validate(pass(
            vec![depth()],
            vec![SubpassDescription {
                depth_stencil_attachment: reference(0, ImageLayout::ColorAttachmentOptimal),
                ..subpass()
            }]
        )),
        Err(RenderPassCreationError::SubpassAttachmentLayoutInvalid {
            subpass: 0,
            attachment: 0,
            usage: "depth/stencil"
        })
    );
    let mut loaded = color(SampleCount::Sample1);
    loaded.load_op = LoadOp::Load;
    assert_eq!(
        validate(pass(
            vec![loaded],
            vec![SubpassDescription {
                input_attachments: vec![reference(0, ImageLayout::ColorAttachmentOptimal)],
                ..subpass()
            }]
        )),
        Err(RenderPassCreationError::SubpassAttachmentLayoutInvalid {
            subpass: 0,
            attachment: 0,
            usage: "input"
        })
    );
}

#[test]
fn uses_within_a_subpass_share_one_layout() {
    let mut loaded = color(SampleCount::Sample1);
    loaded.load_op = LoadOp::Load;
    assert_eq!(
        validate(pass(
            vec![loaded],
            vec![SubpassDescription {
                color_attachments: vec![reference(0, ImageLayout::ColorAttachmentOptimal)],
                input_attachments: vec![reference(0, ImageLayout::General)],
                ..subpass()
            }]
        )),
        Err(RenderPassCreationError::SubpassAttachmentLayoutMismatch {
            subpass: 0,
            attachment: 0
        })
    );
    assert_eq!(
        validate(pass(
            vec![loaded],
            vec![SubpassDescription {
                color_attachments: vec![reference(0, ImageLayout::General)],
                input_attachments: vec![reference(0, ImageLayout::General)],
                ..subpass()
            }]
        )),
        Ok(0)
    );
}

#[test]
fn cleared_attachment_is_not_first_read() {
    assert_eq!(
        validate(pass(
            vec![color(SampleCount::Sample1)],
            vec![
                subpass(),
                SubpassDescription {
                    input_attachments: vec![reference(0, ImageLayout::General)],
                    ..subpass()
                }
            ]
        )),
        Err(RenderPassCreationError::AttachmentFirstUseLoadOpInvalid {
            attachment: 0,
            first_use_subpass: 1
        })
    );
    assert_eq!(
        validate(pass(
            vec![depth()],
            vec![SubpassDescription {
                depth_stencil_attachment: reference(0, ImageLayout::DepthStencilReadOnlyOptimal),
                ..subpass()
            }]
        )),
        Err(RenderPassCreationError::AttachmentFirstUseLoadOpInvalid {
            attachment: 0,
            first_use_subpass: 0
        })
    );
    assert_eq!(
        validate(pass(
            vec![color(SampleCount::Sample1)],
            vec![
                draws_to(0),
                SubpassDescription {
                    input_attachments: vec![reference(0, ImageLayout::ShaderReadOnlyOptimal)],
                    ..subpass()
                }
            ]
        )),
        Ok(0)
    );
}

#[test]
fn input_attachment_gets_the_aspects_of_its_format() {
    let mut info = pass(
        vec![color(SampleCount::Sample1), depth()],
        vec![
            SubpassDescription {
                color_attachments: vec![reference(0, ImageLayout::ColorAttachmentOptimal)],
                depth_stencil_attachment: reference(1, ImageLayout::DepthStencilAttachmentOptimal),
                ..subpass()
            },
            SubpassDescription {
                input_attachments: vec![
                    reference(0, ImageLayout::ShaderReadOnlyOptimal),
                    None,
                    reference(1, ImageLayout::ShaderReadOnlyOptimal),
                ],
                ..subpass()
            },
        ],
    );
    assert_eq!(RenderPass::validate(&device(), &mut info), Ok(0));
    assert_eq!(
        info.subpasses[1].input_attachments,
        vec![
            Some(AttachmentReference {
                attachment: 0,
                layout: ImageLayout::ShaderReadOnlyOptimal,
                aspects: ImageAspects {
                    color: true,
                    ..ImageAspects::empty()
                },
            }),
            None,
            Some(AttachmentReference {
                attachment: 1,
                layout: ImageLayout::ShaderReadOnlyOptimal,
                aspects: ImageAspects {
                    depth: true,
                    ..ImageAspects::empty()
                },
            }),
        ]
    );
    assert_eq!(
        info.subpasses[0].color_attachments,
        vec![reference(0, ImageLayout::ColorAttachmentOptimal)]
    );
}

#[test]
fn input_aspects_other_than_those_of_the_format_need_a_later_version() {
    let selected = Some(AttachmentReference {
        attachment: 0,
        layout: ImageLayout::General,
        aspects: ImageAspects {
            depth: true,
            ..ImageAspects::empty()
        },
    });
    let mut loaded = color(SampleCount::Sample1);
    loaded.load_op = LoadOp::Load;
    let info = pass(
        vec![loaded],
        vec![SubpassDescription {
            input_attachments: vec![selected],
            ..subpass()
        }],
    );
    match validate(info.clone()) {
        Err(RenderPassCreationError::RequirementNotMet {
            requires_one_of:
                RequiresOneOf {
                    api_version,
                    device_extensions,
                    ..
                },
            ..
        }) => {
            assert_eq!(api_version, Some(Version::major_minor(1, 1)));
            assert_eq!(
                device_extensions,
                &["khr_create_renderpass2", "khr_maintenance2"]
            );
        }
        _ => panic!(),
    }
    let mut later = device();
    later.api_version = Version::major_minor(1, 1);
    let mut info = info;
    assert_eq!(
        RenderPass::validate(&later, &mut info),
        Err(
            RenderPassCreationError::SubpassInputAttachmentAspectsNotCompatible {
                subpass: 0,
                attachment: 0
            }
        )
    );
}

#[test]
fn only_input_attachments_select_aspects() {
    assert_eq!(
        validate(pass(
            vec![color(SampleCount::Sample1)],
            vec![SubpassDescription {
                color_attachments: vec![Some(AttachmentReference {
                    attachment: 0,
                    layout: ImageLayout::ColorAttachmentOptimal,
                    aspects: ImageAspects {
                        color: true,
                        ..ImageAspects::empty()
                    },
                })],
                ..subpass()
            }]
        )),
        Err(RenderPassCreationError::SubpassAttachmentAspectsNotEmpty {
            subpass: 0,
            attachment: 0
        })
    );
}

#[test]
fn color_and_depth_attachments_have_one_number_of_samples() {
    assert_eq!(
        validate(pass(
            vec![color(SampleCount::Sample4), color(SampleCount::Sample1)],
            vec![SubpassDescription {
                color_attachments: vec![
                    reference(0, ImageLayout::ColorAttachmentOptimal),
                    reference(1, ImageLayout::ColorAttachmentOptimal)
                ],
                ..subpass()
            }]
        )),
        Err(
            RenderPassCreationError::SubpassColorDepthStencilAttachmentSamplesMismatch {
                subpass: 0,
                attachment: 1,
                samples: SampleCount::Sample1,
                first_samples: SampleCount::Sample4
            }
        )
    );
    assert_eq!(
        validate(pass(
            vec![color(SampleCount::Sample4), depth()],
            vec![SubpassDescription {
                color_attachments: vec![reference(0, ImageLayout::ColorAttachmentOptimal)],
                depth_stencil_attachment: reference(1, ImageLayout::DepthStencilAttachmentOptimal),
                ..subpass()
            }]
        )),
        Err(
            RenderPassCreationError::SubpassColorDepthStencilAttachmentSamplesMismatch {
                subpass: 0,
                attachment: 1,
                samples: SampleCount::Sample1,
                first_samples: SampleCount::Sample4
            }
        )
    );
}

#[test]
fn attachment_is_not_color_and_depth_at_once() {
    let both = FormatFeatures {
        depth_stencil_attachment: true,
        ..image_features()
    };
    let mut device = device();
    device.physical_device.format_support[0].properties.optimal_tiling_features = both;
    let mut info = pass(
        vec![color(SampleCount::Sample1)],
        vec![SubpassDescription {
            color_attachments: vec![reference(0, ImageLayout::General)],
            depth_stencil_attachment: reference(0, ImageLayout::General),
            ..subpass()
        }],
    );
    assert_eq!(
        RenderPass::validate(&device, &mut info),
        Err(
            RenderPassCreationError::SubpassAttachmentUsageColorDepthStencil {
                subpass: 0,
                attachment: 0
            }
        )
    );
}

#[test]
fn number_of_color_attachments_is_limited() {
    let attachments = vec![color(SampleCount::Sample1); 5];
    let colors = (0..5)
        .map(|i| reference(i, ImageLayout::ColorAttachmentOptimal))
        .collect();
    assert_eq!(
        validate(pass(
            attachments,
            vec![SubpassDescription {
                color_attachments: colors,
                ..subpass()
            }]
        )),
        Err(RenderPassCreationError::SubpassMaxColorAttachmentsExceeded {
            subpass: 0,
            color_attachment_count: 5,
            max: 4
        })
    );
}

#[test]
fn resolve_attachments_follow_the_color_attachments() {
    let resolved = |attachments: Vec<AttachmentDescription>,
                    colors: Vec<Option<AttachmentReference>>,
                    resolves: Vec<Option<AttachmentReference>>| {
        validate(pass(
            attachments,
            vec![SubpassDescription {
                color_attachments: colors,
                resolve_attachments: resolves,
                ..subpass()
            }],
        ))
    };
    let layout = ImageLayout::ColorAttachmentOptimal;
    assert_eq!(
        resolved(
            vec![color(SampleCount::Sample4), color(SampleCount::Sample1)],
            vec![reference(0, layout)],
            vec![reference(1, layout)]
        ),
        Ok(0)
    );
    assert_eq!(
        resolved(
            vec![color(SampleCount::Sample4), color(SampleCount::Sample1)],
            vec![reference(0, layout)],
            vec![reference(1, layout), None]
        ),
        Err(
            RenderPassCreationError::SubpassResolveAttachmentsColorAttachmentsLenMismatch {
                subpass: 0
            }
        )
    );
    assert_eq!(
        resolved(
            vec![color(SampleCount::Sample4), color(SampleCount::Sample1)],
            vec![None],
            vec![reference(1, layout)]
        ),
        Err(
            RenderPassCreationError::SubpassResolveAttachmentWithoutColorAttachment {
                subpass: 0
            }
        )
    );
    assert_eq!(
        resolved(
            vec![color(SampleCount::Sample4), color(SampleCount::Sample4)],
            vec![reference(0, layout)],
            vec![reference(1, layout)]
        ),
        Err(RenderPassCreationError::SubpassResolveAttachmentMultisampled {
            subpass: 0,
            attachment: 1
        })
    );
    assert_eq!(
        resolved(
            vec![color(SampleCount::Sample1), color(SampleCount::Sample1)],
            vec![reference(0, layout)],
            vec![reference(1, layout)]
        ),
        Err(
            RenderPassCreationError::SubpassColorAttachmentWithResolveNotMultisampled {
                subpass: 0,
                attachment: 1
            }
        )
    );
}

#[test]
fn resolve_attachment_has_the_format_of_its_color_attachment() {
    let both = FormatFeatures {
        color_attachment: true,
        ..FormatFeatures::empty()
    };
    let mut device = device();
    device.physical_device.format_support[1].properties.optimal_tiling_features = both;
    let mut other = depth();
    other.initial_layout = ImageLayout::General;
    other.final_layout = ImageLayout::General;
    let mut info = pass(
        vec![color(SampleCount::Sample4), other],
        vec![SubpassDescription {
            color_attachments: vec![reference(0, ImageLayout::General)],
            resolve_attachments: vec![reference(1, ImageLayout::General)],
            ..subpass()
        }],
    );
    assert_eq!(
        RenderPass::validate(&device, &mut info),
        Err(RenderPassCreationError::SubpassResolveAttachmentFormatMismatch {
            subpass: 0,
            resolve_attachment: 1,
            color_attachment: 0
        })
    );
}

#[test]
fn preserved_attachment_is_not_used_in_the_subpass() {
    assert_eq!(
        validate(pass(
            vec![color(SampleCount::Sample1), color(SampleCount::Sample1)],
            vec![SubpassDescription {
                preserve_attachments: vec![1, 0],
                ..draws_to(0)
            }]
        )),
        Err(RenderPassCreationError::SubpassPreserveAttachmentUsedElsewhere {
            subpass: 0,
            attachment: 0
        })
    );
    assert_eq!(
        validate(pass(
            vec![color(SampleCount::Sample1), color(SampleCount::Sample1)],
            vec![
                draws_to(0),
                SubpassDescription {
                    preserve_attachments: vec![0],
                    ..draws_to(1)
                }
            ]
        )),
        Ok(0)
    );
}

#[test]
fn multiview_needs_the_feature() {
    let info = pass(
        vec![],
        vec![SubpassDescription {
            view_mask: 0b101,
            ..subpass()
        }],
    );
    match validate(info.clone()) {
        Err(RenderPassCreationError::RequirementNotMet {
            required_for,
            requires_one_of: RequiresOneOf { features, .. },
        }) => {
            assert_eq!(
                required_for,
                "`create_info.subpasses[0].view_mask` is not `0`"
            );
            assert_eq!(features, &["multiview"]);
        }
        _ => panic!(),
    }
    let enabled = Features {
        multiview: true,
        ..Features::empty()
    };
    let mut accepted = info.clone();
    assert_eq!(
        RenderPass::validate(&device_with(enabled, Some(6)), &mut accepted),
        Ok(3)
    );
    let mut refused = info.clone();
    assert_eq!(
        RenderPass::validate(&device_with(enabled, Some(2)), &mut refused),
        Err(
            RenderPassCreationError::SubpassMaxMultiviewViewCountExceeded {
                subpass: 0,
                view_count: 3,
                max: 2
            }
        )
    );
    let mut unnamed = info;
    assert_eq!(
        RenderPass::validate(&device_with(enabled, None), &mut unnamed),
        Err(
            RenderPassCreationError::SubpassMaxMultiviewViewCountExceeded {
                subpass: 0,
                view_count: 3,
                max: 0
            }
        )
    );
}

#[test]
fn views_used_is_the_largest_number_of_views() {
    let enabled = Features {
        multiview: true,
        ..Features::empty()
    };
    let views = |masks: &[u32]| {
        let mut info = pass(
            vec![],
            masks
                .iter()
                .map(|&view_mask| SubpassDescription {
                    view_mask,
                    ..subpass()
                })
                .collect(),
        );
        RenderPass::validate(&device_with(enabled, Some(32)), &mut info)
    };
    assert_eq!(views(&[0b1, 0b1000, 0b11]), Ok(4));
    assert_eq!(views(&[0x8000_0000]), Ok(32));
    assert_eq!(
        views(&[0b1, 0]),
        Err(RenderPassCreationError::SubpassMultiviewMismatch {
            subpass: 1,
            multiview: false,
            first_subpass_multiview: true
        })
    );
    let mut plain = pass(
        vec![],
        vec![
            subpass(),
            SubpassDescription {
                view_mask: 1,
                ..subpass()
            },
        ],
    );
    assert_eq!(
        RenderPass::validate(&device(), &mut plain),
        Err(RenderPassCreationError::SubpassMultiviewMismatch {
            subpass: 1,
            multiview: true,
            first_subpass_multiview: false
        })
    );
}

#[test]
fn correlated_view_masks_do_not_overlap() {
    let enabled = Features {
        multiview: true,
        ..Features::empty()
    };
    let correlated = |view_mask: u32, masks: Vec<u32>| {
        let mut info = pass(
            vec![],
            vec![SubpassDescription {
                view_mask,
                ..subpass()
            }],
        );
        info.correlated_view_masks = masks;
        RenderPass::validate(&device_with(enabled, Some(8)), &mut info)
    };
    assert_eq!(correlated(0b11, vec![0b01, 0b10]), Ok(2));
    assert_eq!(correlated(0b11, vec![0b01, 0b110, 0b100]), Err(RenderPassCreationError::CorrelatedViewMasksOverlapping));
    assert_eq!(correlated(0b11, vec![0, 0]), Ok(2));
    assert_eq!(
        correlated(0, vec![0b01]),
        Err(RenderPassCreationError::CorrelatedViewMasksMultiviewNotEnabled)
    );
    assert_eq!(correlated(0, vec![]), Ok(0));
}

fn depends(dependency: SubpassDependency) -> Result<u32, RenderPassCreationError> {
    let mut info = pass(
        vec![color(SampleCount::Sample1)],
        vec![draws_to(0), subpass()],
    );
    info.dependencies = vec![fragment_to_fragment(Some(0), Some(1)), dependency];
    validate(info)
}

#[test]
fn dependency_between_two_subpasses_is_accepted() {
    assert_eq!(depends(fragment_to_fragment(Some(0), Some(1))), Ok(0));
    assert_eq!(depends(fragment_to_fragment(None, Some(0))), Ok(0));
    assert_eq!(depends(fragment_to_fragment(Some(1), None)), Ok(0));
    assert_eq!(depends(fragment_to_fragment(Some(1), Some(1))), Ok(0));
}

#[test]
fn dependency_names_subpasses_in_their_order() {
    assert_eq!(
        depends(fragment_to_fragment(None, None)),
        Err(RenderPassCreationError::DependencyBothSubpassesExternal { dependency: 1 })
    );
    assert_eq!(
        depends(fragment_to_fragment(Some(0), Some(2))),
        Err(RenderPassCreationError::DependencySubpassOutOfRange {
            dependency: 1,
            subpass: 2
        })
    );
    assert_eq!(
        depends(fragment_to_fragment(Some(7), Some(0))),
        Err(RenderPassCreationError::DependencySubpassOutOfRange {
            dependency: 1,
            subpass: 7
        })
    );
    assert_eq!(
        depends(fragment_to_fragment(Some(1), Some(0))),
        Err(
            RenderPassCreationError::DependencySourceSubpassAfterDestinationSubpass {
                dependency: 1
            }
        )
    );
}

#[test]
fn dependency_stages_must_be_known_and_fit_the_access() {
    let mut geometry = fragment_to_fragment(Some(0), Some(1));
    geometry.source_stages.geometry_shader = true;
    match depends(geometry) {
        Err(RenderPassCreationError::RequirementNotMet {
            requires_one_of: RequiresOneOf { features, .. },
            ..
        }) => assert_eq!(features, &["geometry_shader"]),
        _ => panic!(),
    }
    let mut tessellation = fragment_to_fragment(Some(0), Some(1));
    tessellation.destination_stages.tessellation_evaluation_shader = true;
    match depends(tessellation) {
        Err(RenderPassCreationError::RequirementNotMet {
            requires_one_of: RequiresOneOf { features, .. },
            ..
        }) => assert_eq!(features, &["tessellation_shader"]),
        _ => panic!(),
    }
    let mut empty = fragment_to_fragment(Some(0), Some(1));
    empty.source_stages = PipelineStages::empty();
    empty.source_access = AccessFlags::empty();
    match depends(empty) {
        Err(RenderPassCreationError::RequirementNotMet {
            requires_one_of: RequiresOneOf { features, .. },
            ..
        }) => assert_eq!(features, &["synchronization2"]),
        _ => panic!(),
    }
    let mut access = fragment_to_fragment(Some(0), Some(1));
    access.destination_access.transfer_write = true;
    assert_eq!(
        depends(access),
        Err(RenderPassCreationError::DependencyAccessNotSupportedByStages { dependency: 1 })
    );
    let mut compute = fragment_to_fragment(Some(0), Some(1));
    compute.source_stages.compute_shader = true;
    assert_eq!(
        depends(compute),
        Err(RenderPassCreationError::DependencyStageNotSupported { dependency: 1 })
    );
    let mut outside = fragment_to_fragment(None, Some(1));
    outside.source_stages.compute_shader = true;
    assert_eq!(depends(outside), Ok(0));
}

#[test]
fn view_local_dependency_needs_multiview_and_two_subpasses() {
    let mut local = fragment_to_fragment(Some(0), Some(1));
    local.view_local = Some(0);
    assert_eq!(
        depends(local),
        Err(RenderPassCreationError::DependencyViewLocalMultiviewNotEnabled { dependency: 1 })
    );

    let enabled = Features {
        multiview: true,
        ..Features::empty()
    };
    let depends_multiview = |dependency: SubpassDependency, view_mask: u32| {
        let mut info = pass(
            vec![],
            vec![
                SubpassDescription {
                    view_mask,
                    ..subpass()
                },
                SubpassDescription {
                    view_mask,
                    ..subpass()
                },
            ],
        );
        info.dependencies = vec![dependency];
        RenderPass::validate(&device_with(enabled, Some(8)), &mut info)
    };
    let mut external = fragment_to_fragment(None, Some(1));
    external.view_local = Some(1);
    assert_eq!(
        depends_multiview(external, 0b11),
        Err(RenderPassCreationError::DependencyViewLocalExternalDependency { dependency: 0 })
    );
    let mut shifted = fragment_to_fragment(Some(0), Some(1));
    shifted.view_local = Some(-1);
    assert_eq!(depends_multiview(shifted, 0b11), Ok(2));

    let mut own = fragment_to_fragment(Some(1), Some(1));
    own.view_local = Some(1);
    assert_eq!(
        depends_multiview(own, 0b11),
        Err(
            RenderPassCreationError::DependencySelfDependencyViewLocalNonzeroOffset {
                dependency: 0
            }
        )
    );
    own.view_local = Some(0);
    assert_eq!(depends_multiview(own, 0b11), Ok(2));
    own.view_local = None;
    assert_eq!(
        depends_multiview(own, 0b11),
        Err(
            RenderPassCreationError::DependencySelfDependencyViewMaskMultiple {
                dependency: 0,
                subpass: 1
            }
        )
    );
    assert_eq!(depends_multiview(own, 0b100), Ok(3));
}

#[test]
fn self_dependency_keeps_the_order_of_the_stages() {
    let mut unordered = fragment_to_fragment(Some(0), Some(0));
    unordered.by_region = false;
    assert_eq!(
        depends(unordered),
        Err(
            RenderPassCreationError::DependencySelfDependencyFramebufferStagesWithoutByRegion {
                dependency: 1
            }
        )
    );

    let mut late = fragment_to_fragment(Some(0), Some(0));
    late.source_stages = PipelineStages {
        fragment_shader: true,
        ..PipelineStages::empty()
    };
    late.source_access = AccessFlags {
        shader_read: true,
        ..AccessFlags::empty()
    };
    late.destination_stages = PipelineStages {
        vertex_shader: true,
        ..PipelineStages::empty()
    };
    late.destination_access = AccessFlags {
        shader_read: true,
        ..AccessFlags::empty()
    };
    assert_eq!(
        depends(late),
        Err(
            RenderPassCreationError::DependencySelfDependencySourceStageAfterDestinationStage {
                dependency: 1
            }
        )
    );

    let mut early = late;
    early.source_stages = PipelineStages {
        draw_indirect: true,
        ..PipelineStages::empty()
    };
    early.source_access = AccessFlags {
        indirect_command_read: true,
        ..AccessFlags::empty()
    };
    early.destination_stages = PipelineStages {
        all_graphics: true,
        ..PipelineStages::empty()
    };
    early.destination_access = AccessFlags {
        shader_read: true,
        ..AccessFlags::empty()
    };
    assert_eq!(depends(early), Ok(0));
}

#[test]
fn errors_say_which_attachment_and_subpass() {
    assert_eq!(
        RenderPassCreationError::AttachmentLayoutInvalid { attachment: 12 }.to_string(),
        "attachment 12 has an `initial_layout` or `final_layout` value that is invalid for the provided `format`"
    );
    assert_eq!(
        RenderPassCreationError::SubpassAttachmentOutOfRange {
            subpass: 0,
            attachment: 4294967295
        }
        .to_string(),
        "the attachment index 4294967295 in subpass 0 is not less than the number of attachments in the render pass"
    );
    assert_eq!(
        RenderPassCreationError::SubpassAttachmentLayoutInvalid {
            subpass: 3,
            attachment: 10,
            usage: "depth/stencil"
        }
        .to_string(),
        "attachment 10 used as depth/stencil attachment in subpass 3 has a layout that is not supported for that usage"
    );
    assert_eq!(
        RenderPassCreationError::SubpassColorDepthStencilAttachmentSamplesMismatch {
            subpass: 1,
            attachment: 2,
            samples: SampleCount::Sample1,
            first_samples: SampleCount::Sample16
        }
        .to_string(),
        "attachment 2 used as a color or depth/stencil attachment in subpass 1 has a `samples` value Sample1 that is different from the first color attachment (Sample16)"
    );
    assert_eq!(
        RenderPassCreationError::SubpassMultiviewMismatch {
            subpass: 7,
            multiview: false,
            first_subpass_multiview: true
        }
        .to_string(),
        "the multiview state (whether `view_mask` is nonzero) of subpass 7 is false, which is different from the first subpass (true)"
    );
    assert_eq!(
        RenderPassCreationError::DependencySubpassOutOfRange {
            dependency: 100,
            subpass: 205
        }
        .to_string(),
        "the subpass index 205 in subpass dependency 100 is not less than the number of subpasses in the render pass"
    );
    assert_eq!(
        RenderPassCreationError::CorrelatedViewMasksOverlapping.to_string(),
        "the provided correlated view masks contain a bit that is set in more than one element"
    );
}

#[test]
fn requirement_says_of_what_one_would_do() {
    let requirement = RenderPassCreationError::RequirementNotMet {
        required_for: "`x` is set",
        requires_one_of: RequiresOneOf {
            api_version: Some(Version::major_minor(1, 10)),
            features: &["a"],
            device_extensions: &["b", "c", "d"],
            instance_extensions: &[],
        },
    };
    assert_eq!(
        requirement.to_string(),
        "a requirement was not met for: `x` is set; requires one of: Vulkan API version 1.10, feature a, device extensions b, c, d"
    );
    assert_eq!(RequiresOneOf::empty().to_string(), "");
    assert_eq!(
        RequiresOneOf {
            api_version: None,
            features: &["one", "two"],
            device_extensions: &[],
            instance_extensions: &["three"],
        }
        .to_string(),
        "features one, two, instance extension three"
    );
    assert_eq!(vulkano::decimal(0), "0");
    assert_eq!(vulkano::decimal(7), "7");
    assert_eq!(vulkano::decimal(10), "10");
    assert_eq!(vulkano::decimal(4096), "4096");
    assert_eq!(vulkano::decimal(u32::MAX), "4294967295");
}

#[test]
fn references_are_arranged_in_one_list() {
    let color = ImageLayout::ColorAttachmentOptimal;
    let subpasses = vec![
        SubpassDescription {
            color_attachments: vec![reference(0, color), None],
            resolve_attachments: vec![None, reference(2, color)],
            depth_stencil_attachment: reference(1, ImageLayout::DepthStencilAttachmentOptimal),
            ..subpass()
        },
        SubpassDescription {
            view_mask: 0,
            input_attachments: vec![
                None,
                Some(AttachmentReference {
                    attachment: 0,
                    layout: ImageLayout::General,
                    aspects: ImageAspects {
                        color: true,
                        ..ImageAspects::empty()
                    },
                }),
            ],
            color_attachments: vec![reference(2, color)],
            ..subpass()
        },
    ];
    let (all, places) = arrange_references(&subpasses);
    assert_eq!(
        all,
        vec![
            reference(0, color),
            None,
            None,
            reference(2, color),
            reference(1, ImageLayout::DepthStencilAttachmentOptimal),
            None,
            subpasses[1].input_attachments[1],
            reference(2, color),
        ]
    );
    assert_eq!(
        places,
        vec![
            SubpassPlaces {
                input_attachments: 0,
                color_attachments: 0,
                resolve_attachments: 2,
                depth_stencil_attachment: Some(4),
            },
            SubpassPlaces {
                input_attachments: 5,
                color_attachments: 7,
                resolve_attachments: 8,
                depth_stencil_attachment: None,
            },
        ]
    );

    let old = device();
    assert_eq!(input_aspect_references(&old, &subpasses), vec![]);
    let mut later = device();
    later.api_version = Version::major_minor(1, 1);
    assert_eq!(
        input_aspect_references(&later, &subpasses),
        vec![InputAspectReference {
            subpass: 1,
            input_attachment_index: 1,
            aspects: ImageAspects {
                color: true,
                ..ImageAspects::empty()
            },
        }]
    );
    assert_eq!(second_version(&old), None);
    assert_eq!(second_version(&later), None);
    later.enabled_extensions.khr_create_renderpass2 = true;
    assert_eq!(second_version(&later), Some(false));
    later.api_version = Version::major_minor(1, 2);
    assert_eq!(second_version(&later), Some(true));

    assert_eq!(raw_subpass(Some(3)), 3);
    assert_eq!(raw_subpass(None), SUBPASS_EXTERNAL);
    assert_eq!(SUBPASS_EXTERNAL, u32::MAX);
    let mut dependency = fragment_to_fragment(Some(0), Some(1));
    assert_eq!(dependency_flags(&dependency, true), 1);
    assert_eq!(view_offset(&dependency), 0);
    dependency.view_local = Some(-2);
    assert_eq!(dependency_flags(&dependency, true), 3);
    assert_eq!(dependency_flags(&dependency, false), 1);
    assert_eq!(view_offset(&dependency), -2);
    dependency.by_region = false;
    assert_eq!(dependency_flags(&dependency, true), 2);
    assert_eq!(dependency_flags(&dependency, false), 0);

    assert_eq!(
        multiview_lists(&subpasses, &vec![dependency]),
        (vec![], vec![])
    );
    let views = vec![
        SubpassDescription {
            view_mask: 0b11,
            ..subpass()
        },
        SubpassDescription {
            view_mask: 0b01,
            ..subpass()
        },
    ];
    assert_eq!(
        multiview_lists(&views, &vec![fragment_to_fragment(Some(0), Some(1)), dependency]),
        (vec![0b11, 0b01], vec![0, -2])
    );
}
