//! The rules that a render pass is held against before it is created.
//!
//! The rules are tried in a fixed order: first those on each attachment, then
//! those on each subpass and on each attachment that it uses, then those on
//! each dependency, and last those on the correlated view masks. The first
//! rule that is broken decides the error.

use crate::device::Device;
use crate::format::{Format, FormatFeatures};
use crate::image::{bit_length, bits_of, ImageAspects, ImageLayout, SampleCount};
use crate::render_pass::subpass::{
    check_subpass, formats_known, same_but_inputs, subpass_outcome, UseState,
};
use crate::render_pass::{
    AttachmentDescription, AttachmentReference, LoadOp, RenderPass, RenderPassCreateInfo,
    SubpassDependency, SubpassDescription,
};
use crate::sync::{AccessFlags, PipelineStages};
use crate::{
    names, requirement_says, OomError, RequirementNotMet, RequiresOneOf, Version, VulkanError,
};
use vstd::prelude::*;

verus! {

/// Error that can happen when creating a `RenderPass`.
#[derive(Clone, Copy, Debug, PartialEq, Eq)]
pub enum RenderPassCreationError {
    /// Not enough memory.
    OomError(OomError),
    /// Something was asked for that the device does not allow.
    RequirementNotMet { required_for: &'static str, requires_one_of: RequiresOneOf },
    /// An attachment is first used in the render pass with a read-only layout or as an input
    /// attachment, but its `load_op` or `stencil_load_op` is [`LoadOp::Clear`].
    AttachmentFirstUseLoadOpInvalid { attachment: u32, first_use_subpass: u32 },
    /// An attachment has an `initial_layout` or `final_layout` value that is invalid for the
    /// provided `format`.
    AttachmentLayoutInvalid { attachment: u32 },
    /// Correlated view masks were included, but multiview is not enabled on the render pass.
    CorrelatedViewMasksMultiviewNotEnabled,
    /// The provided correlated view masks contain a bit that is set in more than one element.
    CorrelatedViewMasksOverlapping,
    /// A subpass dependency specified an access type that was not supported by the given stages.
    DependencyAccessNotSupportedByStages { dependency: u32 },
    /// A subpass dependency has both `source_subpass` and `destination_subpass` set to `None`.
    DependencyBothSubpassesExternal { dependency: u32 },
    /// A subpass dependency specifies a subpass self-dependency and includes framebuffer stages in
    /// both `source_stages` and `destination_stages`, but the `by_region` dependency was not
    /// enabled.
    DependencySelfDependencyFramebufferStagesWithoutByRegion { dependency: u32 },
    /// A subpass dependency specifies a subpass self-dependency and includes
    /// non-framebuffer stages, but the latest stage in `source_stages` is after the earliest stage
    /// in `destination_stages`.
    DependencySelfDependencySourceStageAfterDestinationStage { dependency: u32 },
    /// A subpass dependency specifies a subpass self-dependency and has the `view_local` dependency
    /// enabled, but the inner offset value was not 0.
    DependencySelfDependencyViewLocalNonzeroOffset { dependency: u32 },
    /// A subpass dependency specifies a subpass self-dependency without the `view_local`
    /// dependency, but the referenced subpass has more than one bit set in its `view_mask`.
    DependencySelfDependencyViewMaskMultiple { dependency: u32, subpass: u32 },
    /// A subpass dependency has a `source_subpass` that is later than the `destination_subpass`.
    DependencySourceSubpassAfterDestinationSubpass { dependency: u32 },
    /// A subpass dependency has a bit set in the `source_stages` or `destination_stages` that is
    /// not supported for graphics pipelines.
    DependencyStageNotSupported { dependency: u32 },
    /// A subpass index in a subpass dependency is not less than the number of subpasses in the
    /// render pass.
    DependencySubpassOutOfRange { dependency: u32, subpass: u32 },
    /// A subpass dependency has the `view_local` dependency enabled, but `source_subpass` or
    /// `destination_subpass` were set to `None`.
    DependencyViewLocalExternalDependency { dependency: u32 },
    /// A subpass dependency has the `view_local` dependency enabled, but multiview is not enabled
    /// on the render pass.
    DependencyViewLocalMultiviewNotEnabled { dependency: u32 },
    /// A reference to an attachment used other than as an input attachment in a subpass has
    /// one or more aspects selected.
    SubpassAttachmentAspectsNotEmpty { subpass: u32, attachment: u32 },
    /// An attachment used as an attachment in a subpass has a layout that is not supported for
    /// that usage.
    SubpassAttachmentLayoutInvalid { subpass: u32, attachment: u32, usage: &'static str },
    /// The layouts of all uses of an attachment in a subpass do not match.
    SubpassAttachmentLayoutMismatch { subpass: u32, attachment: u32 },
    /// An attachment index in a subpass is not less than the number of attachments in the render
    /// pass.
    SubpassAttachmentOutOfRange { subpass: u32, attachment: u32 },
    /// An attachment is used as both a color attachment and a depth/stencil attachment in a
    /// subpass.
    SubpassAttachmentUsageColorDepthStencil { subpass: u32, attachment: u32 },
    /// An attachment used as an attachment in a subpass has a format that does not support that
    /// usage.
    SubpassAttachmentFormatUsageNotSupported { subpass: u32, attachment: u32, usage: &'static str },
    /// An attachment used as a color attachment in a subpass with resolve attachments has a
    /// `samples` value of [`SampleCount::Sample1`].
    SubpassColorAttachmentWithResolveNotMultisampled { subpass: u32, attachment: u32 },
    /// An attachment used as a color or depth/stencil attachment in a subpass has a `samples` value
    /// that is different from the first color attachment.
    SubpassColorDepthStencilAttachmentSamplesMismatch {
        subpass: u32,
        attachment: u32,
        samples: SampleCount,
        first_samples: SampleCount,
    },
    /// A reference to an attachment used as an input attachment in a subpass selects aspects that
    /// are not present in the format of the attachment.
    SubpassInputAttachmentAspectsNotCompatible { subpass: u32, attachment: u32 },
    /// The `max_color_attachments` limit has been exceeded for a subpass.
    SubpassMaxColorAttachmentsExceeded { subpass: u32, color_attachment_count: u32, max: u32 },
    /// The `max_multiview_view_count` limit has been exceeded for a subpass.
    SubpassMaxMultiviewViewCountExceeded { subpass: u32, view_count: u32, max: u32 },
    /// The multiview state (whether `view_mask` is nonzero) of a subpass is different from the
    /// first subpass.
    SubpassMultiviewMismatch { subpass: u32, multiview: bool, first_subpass_multiview: bool },
    /// An attachment marked as a preserve attachment in a subpass is also used as an attachment
    /// in that subpass.
    SubpassPreserveAttachmentUsedElsewhere { subpass: u32, attachment: u32 },
    /// The `resolve_attachments` field of a subpass was not empty, but its length did not match
    /// the length of `color_attachments`.
    SubpassResolveAttachmentsColorAttachmentsLenMismatch { subpass: u32 },
    /// An attachment used as a resolve attachment in a subpass has a `format` value different from
    /// the corresponding color attachment.
    SubpassResolveAttachmentFormatMismatch {
        subpass: u32,
        resolve_attachment: u32,
        color_attachment: u32,
    },
    /// An attachment used as a resolve attachment in a subpass has a `samples` value other than
    /// [`SampleCount::Sample1`].
    SubpassResolveAttachmentMultisampled { subpass: u32, attachment: u32 },
    /// A resolve attachment in a subpass is `Some`, but the corresponding color attachment is
    /// `None`.
    SubpassResolveAttachmentWithoutColorAttachment { subpass: u32 },
}

impl RenderPassCreationError {
    /// The error of a lack of memory.
    pub fn from_oom(err: OomError) -> (r: RenderPassCreationError)
        ensures
            r == RenderPassCreationError::OomError(err),
    {
        RenderPassCreationError::OomError(err)
    }

    /// The error that stands for an error of the driver: one of its two
    /// errors on memory.
    pub fn from_vulkan_error(err: VulkanError) -> (r: RenderPassCreationError)
        requires
            OomError::convertible(err),
        ensures
            r == RenderPassCreationError::OomError(OomError::from_vulkan_error_spec(err)),
    {
        RenderPassCreationError::OomError(OomError::from_vulkan_error(err))
    }

    /// The error of a requirement that the device does not meet.
    pub fn from_requirement(err: RequirementNotMet) -> (r: RenderPassCreationError)
        ensures
            r matches RenderPassCreationError::RequirementNotMet { required_for, requires_one_of }
                && required_for == err.required_for && requires_one_of == err.requires_one_of,
    {
        RenderPassCreationError::RequirementNotMet {
            required_for: err.required_for,
            requires_one_of: err.requires_one_of,
        }
    }
}

/// Why a render pass cannot be created.
pub enum Refusal {
    /// The device lacks something: what was asked for, and the version, the
    /// features and the extensions of which one would do.
    Requirement {
        text: Seq<char>,
        api_version: Option<Version>,
        features: Seq<Seq<char>>,
        device_extensions: Seq<Seq<char>>,
    },
    /// The format of an attachment cannot be used in the named way.
    FormatUsage { subpass: u32, attachment: u32, usage: Seq<char> },
    /// The layout of an attachment cannot be used in the named way.
    LayoutInvalid { subpass: u32, attachment: u32, usage: Seq<char> },
    /// Another rule is broken.
    Error(RenderPassCreationError),
}

impl Refusal {
    /// Whether an error reports this refusal.
    pub open spec fn reported_by(self, err: RenderPassCreationError) -> bool {
        match self {
            Refusal::Requirement { text, api_version, features, device_extensions } => err matches RenderPassCreationError::RequirementNotMet {
                required_for,
                requires_one_of,
            } && requirement_says(
                required_for,
                requires_one_of,
                text,
                api_version,
                features,
                device_extensions,
            ),
            Refusal::FormatUsage { subpass, attachment, usage } => err matches RenderPassCreationError::SubpassAttachmentFormatUsageNotSupported {
                subpass: s,
                attachment: a,
                usage: u,
            } && s == subpass && a == attachment && u@ == usage,
            Refusal::LayoutInvalid { subpass, attachment, usage } => err matches RenderPassCreationError::SubpassAttachmentLayoutInvalid {
                subpass: s,
                attachment: a,
                usage: u,
            } && s == subpass && a == attachment && u@ == usage,
            Refusal::Error(refusal) => err == refusal,
        }
    }
}

/// The refusal of a device that lacks what a YCbCr format asks for.
pub open spec fn format_requirement() -> Refusal {
    Refusal::Requirement {
        text: "`Format` is a YCbCr format"@,
        api_version: Some(Version::major_minor_spec(1, 1)),
        features: Seq::empty(),
        device_extensions: seq!["khr_sampler_ycbcr_conversion"@],
    }
}

/// The refusal of a device that lacks what the planes of an image ask for.
pub open spec fn aspects_requirement() -> Refusal {
    Refusal::Requirement {
        text: "`ImageAspects::plane0`"@,
        api_version: Some(Version::major_minor_spec(1, 1)),
        features: Seq::empty(),
        device_extensions: seq!["khr_sampler_ycbcr_conversion"@],
    }
}

/// Whether an attachment of depth or stencil may not be in the layout, or
/// one of color may not: the layout for color attachments is for color, the
/// layouts for depth and stencil are for depth and stencil.
pub open spec fn layout_invalid_for(layout: ImageLayout, depth_stencil: bool) -> bool {
    if depth_stencil {
        layout is ColorAttachmentOptimal
    } else {
        layout is DepthStencilAttachmentOptimal || layout is DepthStencilReadOnlyOptimal
            || layout is DepthAttachmentStencilReadOnlyOptimal
            || layout is DepthReadOnlyStencilAttachmentOptimal
    }
}

/// The first rule that an attachment breaks, if it breaks one.
pub open spec fn attachment_refusal(device: &Device, attachment: AttachmentDescription, num: u32) -> Option<
    Refusal,
> {
    let format = attachment.format->0;
    let depth_stencil = format.aspects_spec().depth || format.aspects_spec().stencil;
    let invalid = Some(
        Refusal::Error(RenderPassCreationError::AttachmentLayoutInvalid { attachment: num }),
    );
    if attachment.final_layout is Undefined || attachment.final_layout is Preinitialized {
        invalid
    } else if format.device_refusal(device) {
        Some(format_requirement())
    } else if layout_invalid_for(attachment.initial_layout, depth_stencil) {
        invalid
    } else if layout_invalid_for(attachment.final_layout, depth_stencil) {
        invalid
    } else {
        None
    }
}

/// Holds one attachment against the rules.
pub fn check_attachment_description(device: &Device, attachment: &AttachmentDescription, num: u32) -> (result:
    Result<(), RenderPassCreationError>)
    requires
        attachment.format is Some,
    ensures
        match attachment_refusal(device, *attachment, num) {
            None => result is Ok,
            Some(refusal) => result matches Err(err) && refusal.reported_by(err),
        },
{
    match attachment.final_layout {
        ImageLayout::Undefined | ImageLayout::Preinitialized => {
            return Err(RenderPassCreationError::AttachmentLayoutInvalid { attachment: num });
        },
        _ => {},
    }
    let format = attachment.format.unwrap();
    let aspects = format.aspects();
    match format.validate_device(device) {
        Ok(_) => {},
        Err(err) => {
            return Err(RenderPassCreationError::from_requirement(err));
        },
    }
    if layout_is_invalid_for(attachment.initial_layout, aspects.depth || aspects.stencil) {
        return Err(RenderPassCreationError::AttachmentLayoutInvalid { attachment: num });
    }
    if layout_is_invalid_for(attachment.final_layout, aspects.depth || aspects.stencil) {
        return Err(RenderPassCreationError::AttachmentLayoutInvalid { attachment: num });
    }
    Ok(())
}

/// Whether an attachment of depth or stencil may not be in the layout, or
/// one of color may not.
pub fn layout_is_invalid_for(layout: ImageLayout, depth_stencil: bool) -> (r: bool)
    ensures
        r == layout_invalid_for(layout, depth_stencil),
{
    if depth_stencil {
        match layout {
            ImageLayout::ColorAttachmentOptimal => true,
            _ => false,
        }
    } else {
        match layout {
            ImageLayout::DepthStencilAttachmentOptimal
            | ImageLayout::DepthStencilReadOnlyOptimal
            | ImageLayout::DepthAttachmentStencilReadOnlyOptimal
            | ImageLayout::DepthReadOnlyStencilAttachmentOptimal => true,
            _ => false,
        }
    }
}

/// The first refusal of the list from place `from` on.
pub open spec fn first_refused(refusals: Seq<Option<Refusal>>, from: int) -> Option<Refusal>
    decreases refusals.len() - from,
{
    if from < 0 || from >= refusals.len() {
        None
    } else if refusals[from] is Some {
        refusals[from]
    } else {
        first_refused(refusals, from + 1)
    }
}

/// Places without a refusal can be passed over.
pub proof fn lemma_first_refused_skip(refusals: Seq<Option<Refusal>>, from: int, to: int)
    requires
        0 <= from <= to <= refusals.len(),
        forall|k: int| from <= k < to ==> (#[trigger] refusals[k]) is None,
    ensures
        first_refused(refusals, from) == first_refused(refusals, to),
    decreases to - from,
{
    if from < to {
        lemma_first_refused_skip(refusals, from + 1, to);
    }
}

/// The refusals of the attachments of a render pass, by place.
pub open spec fn attachment_refusals(device: &Device, attachments: Seq<AttachmentDescription>) -> Seq<
    Option<Refusal>,
> {
    Seq::new(attachments.len(), |i: int| attachment_refusal(device, attachments[i], i as u32))
}

/// What may be done with each attachment of a render pass, with one tiling
/// or the other.
pub open spec fn potential_features(device: &Device, attachments: Seq<AttachmentDescription>) -> Seq<
    FormatFeatures,
> {
    Seq::new(
        attachments.len(),
        |i: int|
            device.physical_device.format_properties_spec(
                attachments[i].format->0,
            ).potential_format_features_spec(),
    )
}

/// Holds each attachment against the rules, in their order, and gives what
/// may be done with each of them.
pub fn check_attachments(device: &Device, attachments: &Vec<AttachmentDescription>) -> (result: Result<
    Vec<FormatFeatures>,
    RenderPassCreationError,
>)
    requires
        attachments.len() <= u32::MAX,
        forall|i: int| 0 <= i < attachments.len() ==> (#[trigger] attachments[i]).format is Some,
    ensures
        match first_refused(attachment_refusals(device, attachments@), 0) {
            None => result matches Ok(features) && features@ == potential_features(
                device,
                attachments@,
            ),
            Some(refusal) => result matches Err(err) && refusal.reported_by(err),
        },
{
    let ghost refusals = attachment_refusals(device, attachments@);
    let n = attachments.len();
    let mut features: Vec<FormatFeatures> = Vec::new();
    let mut i: usize = 0;
    while i < n
        invariant
            n == attachments.len(),
            n <= u32::MAX,
            i <= n,
            refusals == attachment_refusals(device, attachments@),
            forall|k: int| 0 <= k < attachments.len() ==> (#[trigger] attachments[k]).format is Some,
            forall|k: int| 0 <= k < i ==> (#[trigger] refusals[k]) is None,
            features@ == potential_features(device, attachments@).take(i as int),
        decreases n - i,
    {
        let attachment = &attachments[i];
        match check_attachment_description(device, attachment, i as u32) {
            Ok(_) => {},
            Err(err) => {
                proof {
                    lemma_first_refused_skip(refusals, 0, i as int);
                }
                return Err(err);
            },
        }
        features.push(
            device.physical_device.format_properties(
                attachment.format.unwrap(),
            ).potential_format_features(),
        );
        assert(features@ =~= potential_features(device, attachments@).take(i + 1));
        i += 1;
    }
    proof {
        lemma_first_refused_skip(refusals, 0, n as int);
        assert(potential_features(device, attachments@).take(n as int) =~= potential_features(
            device,
            attachments@,
        ));
    }
    Ok(features)
}

/// The refusal of a device that lacks a feature that stages ask for.
pub open spec fn stage_requirement(text: Seq<char>, feature: Seq<char>) -> Refusal {
    Refusal::Requirement {
        text,
        api_version: None,
        features: seq![feature],
        device_extensions: Seq::empty(),
    }
}

/// The first rule that the stages and the ways of access of one side of a
/// dependency break, if they break one.
pub open spec fn stages_refusal(
    device: &Device,
    stages: PipelineStages,
    access: AccessFlags,
    num: u32,
) -> Option<Refusal> {
    if stages.geometry_shader && !device.enabled_features.geometry_shader {
        Some(
            stage_requirement(
                "`create_info.dependencies` has an element where `stages.geometry_shader` is set"@,
                "geometry_shader"@,
            ),
        )
    } else if (stages.tessellation_control_shader || stages.tessellation_evaluation_shader)
        && !device.enabled_features.tessellation_shader {
        Some(
            stage_requirement(
                "`create_info.dependencies` has an element where `stages.tessellation_control_shader` or `stages.tessellation_evaluation_shader` are set"@,
                "tessellation_shader"@,
            ),
        )
    } else if stages.is_empty_spec() && !device.enabled_features.synchronization2 {
        Some(
            stage_requirement(
                "`create_info.dependencies` has an element where `stages` is empty"@,
                "synchronization2"@,
            ),
        )
    } else if !stages.supported_access_spec().contains_spec(access) {
        Some(
            Refusal::Error(
                RenderPassCreationError::DependencyAccessNotSupportedByStages { dependency: num },
            ),
        )
    } else {
        None
    }
}

/// Whether the stages hold one that is not a stage of drawing.
pub open spec fn has_other_stages(stages: PipelineStages) -> bool {
    stages.top_of_pipe || stages.vertex_input || stages.compute_shader || stages.transfer
        || stages.bottom_of_pipe || stages.host || stages.all_commands
}

/// The first rule that one side of a dependency breaks by the subpass that
/// it names, if it breaks one.
pub open spec fn side_refusal(
    subpass: Option<u32>,
    stages: PipelineStages,
    view_local: Option<i32>,
    subpass_count: int,
    num: u32,
) -> Option<Refusal> {
    match subpass {
        Some(subpass) => if subpass >= subpass_count {
            Some(
                Refusal::Error(
                    RenderPassCreationError::DependencySubpassOutOfRange {
                        dependency: num,
                        subpass,
                    },
                ),
            )
        } else if has_other_stages(stages) {
            Some(
                Refusal::Error(
                    RenderPassCreationError::DependencyStageNotSupported { dependency: num },
                ),
            )
        } else {
            None
        },
        None => if view_local is Some {
            Some(
                Refusal::Error(
                    RenderPassCreationError::DependencyViewLocalExternalDependency {
                        dependency: num,
                    },
                ),
            )
        } else {
            None
        },
    }
}

/// The place of a stage in the order of drawing, where the stage is named,
/// else zero.
pub open spec fn stage_rank(named: bool, rank: int) -> int {
    if named {
        rank
    } else {
        0
    }
}

/// The greater of two numbers.
pub open spec fn greater(a: int, b: int) -> int {
    if a >= b {
        a
    } else {
        b
    }
}

/// The lesser of two numbers.
pub open spec fn lesser(a: int, b: int) -> int {
    if a <= b {
        a
    } else {
        b
    }
}

/// The place of the latest stage of drawing among the stages: 13 for all
/// the stages of drawing, zero for none.
pub open spec fn latest_stage(stages: PipelineStages) -> int {
    if stages.all_graphics {
        13
    } else {
        greater(
            stage_rank(stages.draw_indirect, 1),
            greater(
                stage_rank(stages.vertex_shader, 4),
                greater(
                    stage_rank(stages.tessellation_control_shader, 5),
                    greater(
                        stage_rank(stages.tessellation_evaluation_shader, 6),
                        greater(
                            stage_rank(stages.geometry_shader, 7),
                            greater(
                                stage_rank(stages.early_fragment_tests, 10),
                                greater(
                                    stage_rank(stages.fragment_shader, 11),
                                    greater(
                                        stage_rank(stages.late_fragment_tests, 12),
                                        stage_rank(stages.color_attachment_output, 13),
                                    ),
                                ),
                            ),
                        ),
                    ),
                ),
            ),
        )
    }
}

/// The least place of a stage of drawing among the stages, where a stage
/// that is not named counts as zero: one for all the stages of drawing.
pub open spec fn earliest_stage(stages: PipelineStages) -> int {
    if stages.all_graphics {
        1
    } else {
        lesser(
            stage_rank(stages.draw_indirect, 1),
            lesser(
                stage_rank(stages.vertex_shader, 4),
                lesser(
                    stage_rank(stages.tessellation_control_shader, 5),
                    lesser(
                        stage_rank(stages.tessellation_evaluation_shader, 6),
                        lesser(
                            stage_rank(stages.geometry_shader, 7),
                            lesser(
                                stage_rank(stages.early_fragment_tests, 10),
                                lesser(
                                    stage_rank(stages.fragment_shader, 11),
                                    lesser(
                                        stage_rank(stages.late_fragment_tests, 12),
                                        stage_rank(stages.color_attachment_output, 13),
                                    ),
                                ),
                            ),
                        ),
                    ),
                ),
            ),
        )
    }
}

/// Whether the stages hold one that works on the framebuffer.
pub open spec fn has_framebuffer_stage(stages: PipelineStages) -> bool {
    stages.fragment_shader || stages.early_fragment_tests || stages.late_fragment_tests
        || stages.color_attachment_output
}

/// Whether the stages hold one that does not work on the framebuffer.
pub open spec fn has_non_framebuffer_stage(stages: PipelineStages) -> bool {
    stages.top_of_pipe || stages.draw_indirect || stages.vertex_input || stages.vertex_shader
        || stages.tessellation_control_shader || stages.tessellation_evaluation_shader
        || stages.geometry_shader || stages.compute_shader || stages.transfer
        || stages.bottom_of_pipe || stages.host || stages.all_graphics || stages.all_commands
}

/// Whether more than one bit of the mask is set.
pub open spec fn has_multiple_bits(mask: u32) -> bool {
    mask != 0 && mask & ((mask - 1) as u32) != 0
}

/// The first rule that a dependency of a subpass on itself breaks, if it
/// breaks one.
pub open spec fn self_dependency_refusal(dependency: SubpassDependency, view_mask: u32, num: u32) -> Option<
    Refusal,
> {
    if (has_non_framebuffer_stage(dependency.source_stages) || has_non_framebuffer_stage(
        dependency.destination_stages,
    )) && latest_stage(dependency.source_stages) > earliest_stage(dependency.destination_stages) {
        Some(
            Refusal::Error(
                RenderPassCreationError::DependencySelfDependencySourceStageAfterDestinationStage {
                    dependency: num,
                },
            ),
        )
    } else if has_framebuffer_stage(dependency.source_stages) && has_framebuffer_stage(
        dependency.destination_stages,
    ) && !dependency.by_region {
        Some(
            Refusal::Error(
                RenderPassCreationError::DependencySelfDependencyFramebufferStagesWithoutByRegion {
                    dependency: num,
                },
            ),
        )
    } else if dependency.view_local matches Some(offset) && offset != 0 {
        Some(
            Refusal::Error(
                RenderPassCreationError::DependencySelfDependencyViewLocalNonzeroOffset {
                    dependency: num,
                },
            ),
        )
    } else if dependency.view_local is None && has_multiple_bits(view_mask) {
        Some(
            Refusal::Error(
                RenderPassCreationError::DependencySelfDependencyViewMaskMultiple {
                    dependency: num,
                    subpass: dependency.source_subpass->0,
                },
            ),
        )
    } else {
        None
    }
}

/// The first of two refusals.
pub open spec fn or_else(first: Option<Refusal>, second: Option<Refusal>) -> Option<Refusal> {
    if first is Some {
        first
    } else {
        second
    }
}

/// The first rule that a dependency breaks, if it breaks one: the rules on
/// the stages of the source, then of the destination; on the view offset;
/// on the subpasses that it names; and on a subpass that depends on itself.
pub open spec fn dependency_refusal(
    device: &Device,
    view_masks: Seq<u32>,
    is_multiview: bool,
    dependency: SubpassDependency,
    num: u32,
) -> Option<Refusal> {
    or_else(
        stages_refusal(device, dependency.source_stages, dependency.source_access, num),
        or_else(
            stages_refusal(
                device,
                dependency.destination_stages,
                dependency.destination_access,
                num,
            ),
            if dependency.view_local is Some && !is_multiview {
                Some(
                    Refusal::Error(
                        RenderPassCreationError::DependencyViewLocalMultiviewNotEnabled {
                            dependency: num,
                        },
                    ),
                )
            } else if dependency.source_subpass is None && dependency.destination_subpass is None {
                Some(
                    Refusal::Error(
                        RenderPassCreationError::DependencyBothSubpassesExternal {
                            dependency: num,
                        },
                    ),
                )
            } else {
                or_else(
                    side_refusal(
                        dependency.source_subpass,
                        dependency.source_stages,
                        dependency.view_local,
                        view_masks.len() as int,
                        num,
                    ),
                    or_else(
                        side_refusal(
                            dependency.destination_subpass,
                            dependency.destination_stages,
                            dependency.view_local,
                            view_masks.len() as int,
                            num,
                        ),
                        if dependency.source_subpass is Some && dependency.destination_subpass
                            is Some {
                            if dependency.source_subpass->0 > dependency.destination_subpass->0 {
                                Some(
                                    Refusal::Error(
                                        RenderPassCreationError::DependencySourceSubpassAfterDestinationSubpass {
                                            dependency: num,
                                        },
                                    ),
                                )
                            } else if dependency.source_subpass->0
                                == dependency.destination_subpass->0 {
                                self_dependency_refusal(
                                    dependency,
                                    view_masks[dependency.source_subpass->0 as int],
                                    num,
                                )
                            } else {
                                None
                            }
                        } else {
                            None
                        },
                    ),
                )
            },
        ),
    )
}

/// Holds the stages and the ways of access of one side of a dependency
/// against the rules.
pub fn check_stages(device: &Device, stages: &PipelineStages, access: &AccessFlags, num: u32) -> (result:
    Result<(), RenderPassCreationError>)
    ensures
        match stages_refusal(device, *stages, *access, num) {
            None => result is Ok,
            Some(refusal) => result matches Err(err) && refusal.reported_by(err),
        },
{
    let none: &'static [&'static str] = &[];
    proof {
        assert(names(none) =~= Seq::<Seq<char>>::empty());
    }
    if stages.geometry_shader && !device.enabled_features.geometry_shader {
        let features: &'static [&'static str] = &["geometry_shader"];
        assert(names(features) =~= seq!["geometry_shader"@]);
        return Err(
            RenderPassCreationError::from_requirement(
                RequirementNotMet::new(
                    "`create_info.dependencies` has an element where `stages.geometry_shader` is set",
                    None,
                    features,
                    none,
                ),
            ),
        );
    }
    if (stages.tessellation_control_shader || stages.tessellation_evaluation_shader)
        && !device.enabled_features.tessellation_shader {
        let features: &'static [&'static str] = &["tessellation_shader"];
        assert(names(features) =~= seq!["tessellation_shader"@]);
        return Err(
            RenderPassCreationError::from_requirement(
                RequirementNotMet::new(
                    "`create_info.dependencies` has an element where `stages.tessellation_control_shader` or `stages.tessellation_evaluation_shader` are set",
                    None,
                    features,
                    none,
                ),
            ),
        );
    }
    if stages.is_empty() && !device.enabled_features.synchronization2 {
        let features: &'static [&'static str] = &["synchronization2"];
        assert(names(features) =~= seq!["synchronization2"@]);
        return Err(
            RenderPassCreationError::from_requirement(
                RequirementNotMet::new(
                    "`create_info.dependencies` has an element where `stages` is empty",
                    None,
                    features,
                    none,
                ),
            ),
        );
    }
    if !stages.supported_access().contains(access) {
        return Err(RenderPassCreationError::DependencyAccessNotSupportedByStages { dependency: num });
    }
    Ok(())
}

/// Holds one side of a dependency against the rules on the subpass that it
/// names.
pub fn check_side(
    subpass: Option<u32>,
    stages: &PipelineStages,
    view_local: Option<i32>,
    subpass_count: usize,
    num: u32,
) -> (result: Result<(), RenderPassCreationError>)
    ensures
        match side_refusal(subpass, *stages, view_local, subpass_count as int, num) {
            None => result is Ok,
            Some(refusal) => result matches Err(err) && refusal.reported_by(err),
        },
{
    match subpass {
        Some(subpass) => {
            if subpass as usize >= subpass_count {
                return Err(
                    RenderPassCreationError::DependencySubpassOutOfRange { dependency: num, subpass },
                );
            }
            if stages.top_of_pipe || stages.vertex_input || stages.compute_shader
                || stages.transfer || stages.bottom_of_pipe || stages.host || stages.all_commands {
                return Err(RenderPassCreationError::DependencyStageNotSupported { dependency: num });
            }
        },
        None => {
            if view_local.is_some() {
                return Err(
                    RenderPassCreationError::DependencyViewLocalExternalDependency {
                        dependency: num,
                    },
                );
            }
        },
    }
    Ok(())
}

/// The place of a stage in the order of drawing, where the stage is named,
/// else zero.
fn rank_of(named: bool, rank: u8) -> (r: u8)
    ensures
        r == stage_rank(named, rank as int),
{
    if named {
        rank
    } else {
        0
    }
}

fn greater_of(a: u8, b: u8) -> (r: u8)
    ensures
        r == greater(a as int, b as int),
{
    if a >= b {
        a
    } else {
        b
    }
}

fn lesser_of(a: u8, b: u8) -> (r: u8)
    ensures
        r == lesser(a as int, b as int),
{
    if a <= b {
        a
    } else {
        b
    }
}

/// The place of the latest stage of drawing among the stages.
pub fn latest_stage_of(stages: &PipelineStages) -> (r: u8)
    ensures
        r == latest_stage(*stages),
{
    if stages.all_graphics {
        13
    } else {
        greater_of(
            rank_of(stages.draw_indirect, 1),
            greater_of(
                rank_of(stages.vertex_shader, 4),
                greater_of(
                    rank_of(stages.tessellation_control_shader, 5),
                    greater_of(
                        rank_of(stages.tessellation_evaluation_shader, 6),
                        greater_of(
                            rank_of(stages.geometry_shader, 7),
                            greater_of(
                                rank_of(stages.early_fragment_tests, 10),
                                greater_of(
                                    rank_of(stages.fragment_shader, 11),
                                    greater_of(
                                        rank_of(stages.late_fragment_tests, 12),
                                        rank_of(stages.color_attachment_output, 13),
                                    ),
                                ),
                            ),
                        ),
                    ),
                ),
            ),
        )
    }
}

/// The least place of a stage of drawing among the stages, where a stage
/// that is not named counts as zero.
pub fn earliest_stage_of(stages: &PipelineStages) -> (r: u8)
    ensures
        r == earliest_stage(*stages),
{
    if stages.all_graphics {
        1
    } else {
        lesser_of(
            rank_of(stages.draw_indirect, 1),
            lesser_of(
                rank_of(stages.vertex_shader, 4),
                lesser_of(
                    rank_of(stages.tessellation_control_shader, 5),
                    lesser_of(
                        rank_of(stages.tessellation_evaluation_shader, 6),
                        lesser_of(
                            rank_of(stages.geometry_shader, 7),
                            lesser_of(
                                rank_of(stages.early_fragment_tests, 10),
                                lesser_of(
                                    rank_of(stages.fragment_shader, 11),
                                    lesser_of(
                                        rank_of(stages.late_fragment_tests, 12),
                                        rank_of(stages.color_attachment_output, 13),
                                    ),
                                ),
                            ),
                        ),
                    ),
                ),
            ),
        )
    }
}

/// Holds a dependency of a subpass on itself against the rules.
pub fn check_self_dependency(dependency: &SubpassDependency, view_mask: u32, num: u32) -> (result:
    Result<(), RenderPassCreationError>)
    requires
        dependency.source_subpass is Some,
    ensures
        match self_dependency_refusal(*dependency, view_mask, num) {
            None => result is Ok,
            Some(refusal) => result matches Err(err) && refusal.reported_by(err),
        },
{
    let source_stages = &dependency.source_stages;
    let destination_stages = &dependency.destination_stages;
    let source_non_framebuffer = source_stages.top_of_pipe || source_stages.draw_indirect
        || source_stages.vertex_input || source_stages.vertex_shader
        || source_stages.tessellation_control_shader
        || source_stages.tessellation_evaluation_shader || source_stages.geometry_shader
        || source_stages.compute_shader || source_stages.transfer || source_stages.bottom_of_pipe
        || source_stages.host || source_stages.all_graphics || source_stages.all_commands;
    let destination_non_framebuffer = destination_stages.top_of_pipe
        || destination_stages.draw_indirect || destination_stages.vertex_input
        || destination_stages.vertex_shader || destination_stages.tessellation_control_shader
        || destination_stages.tessellation_evaluation_shader || destination_stages.geometry_shader
        || destination_stages.compute_shader || destination_stages.transfer
        || destination_stages.bottom_of_pipe || destination_stages.host
        || destination_stages.all_graphics || destination_stages.all_commands;
    if source_non_framebuffer || destination_non_framebuffer {
        let source_latest_stage = latest_stage_of(source_stages);
        let destination_earliest_stage = earliest_stage_of(destination_stages);
        if source_latest_stage > destination_earliest_stage {
            return Err(
                RenderPassCreationError::DependencySelfDependencySourceStageAfterDestinationStage {
                    dependency: num,
                },
            );
        }
    }
    let source_has_framebuffer_stage = source_stages.fragment_shader
        || source_stages.early_fragment_tests || source_stages.late_fragment_tests
        || source_stages.color_attachment_output;
    let destination_has_framebuffer_stage = destination_stages.fragment_shader
        || destination_stages.early_fragment_tests || destination_stages.late_fragment_tests
        || destination_stages.color_attachment_output;
    if source_has_framebuffer_stage && destination_has_framebuffer_stage && !dependency.by_region {
        return Err(
            RenderPassCreationError::DependencySelfDependencyFramebufferStagesWithoutByRegion {
                dependency: num,
            },
        );
    }
    match dependency.view_local {
        Some(view_offset) => {
            if view_offset != 0 {
                return Err(
                    RenderPassCreationError::DependencySelfDependencyViewLocalNonzeroOffset {
                        dependency: num,
                    },
                );
            }
        },
        None => {
            if view_mask != 0 && view_mask & (view_mask - 1) != 0 {
                return Err(
                    RenderPassCreationError::DependencySelfDependencyViewMaskMultiple {
                        dependency: num,
                        subpass: dependency.source_subpass.unwrap(),
                    },
                );
            }
        },
    }
    Ok(())
}

/// The view masks of the subpasses, in their order.
pub open spec fn view_masks_of(subpasses: Seq<SubpassDescription>) -> Seq<u32> {
    Seq::new(subpasses.len(), |i: int| subpasses[i].view_mask)
}

/// Holds a dependency against the rules.
pub fn check_dependency(
    device: &Device,
    subpasses: &Vec<SubpassDescription>,
    is_multiview: bool,
    dependency: &SubpassDependency,
    num: u32,
) -> (result: Result<(), RenderPassCreationError>)
    ensures
        match dependency_refusal(
            device,
            view_masks_of(subpasses@),
            is_multiview,
            *dependency,
            num,
        ) {
            None => result is Ok,
            Some(refusal) => result matches Err(err) && refusal.reported_by(err),
        },
{
    match check_stages(device, &dependency.source_stages, &dependency.source_access, num) {
        Ok(_) => {},
        Err(err) => {
            return Err(err);
        },
    }
    match check_stages(device, &dependency.destination_stages, &dependency.destination_access, num) {
        Ok(_) => {},
        Err(err) => {
            return Err(err);
        },
    }
    if dependency.view_local.is_some() && !is_multiview {
        return Err(
            RenderPassCreationError::DependencyViewLocalMultiviewNotEnabled { dependency: num },
        );
    }
    if dependency.source_subpass.is_none() && dependency.destination_subpass.is_none() {
        return Err(RenderPassCreationError::DependencyBothSubpassesExternal { dependency: num });
    }
    match check_side(
        dependency.source_subpass,
        &dependency.source_stages,
        dependency.view_local,
        subpasses.len(),
        num,
    ) {
        Ok(_) => {},
        Err(err) => {
            return Err(err);
        },
    }
    match check_side(
        dependency.destination_subpass,
        &dependency.destination_stages,
        dependency.view_local,
        subpasses.len(),
        num,
    ) {
        Ok(_) => {},
        Err(err) => {
            return Err(err);
        },
    }
    match (dependency.source_subpass, dependency.destination_subpass) {
        (Some(source_subpass), Some(destination_subpass)) => {
            if source_subpass > destination_subpass {
                return Err(
                    RenderPassCreationError::DependencySourceSubpassAfterDestinationSubpass {
                        dependency: num,
                    },
                );
            }
            if source_subpass == destination_subpass {
                let view_mask = subpasses[source_subpass as usize].view_mask;
                return check_self_dependency(dependency, view_mask, num);
            }
        },
        _ => {},
    }
    Ok(())
}

/// The refusals of the dependencies of a render pass, by place.
pub open spec fn dependency_refusals(
    device: &Device,
    view_masks: Seq<u32>,
    is_multiview: bool,
    dependencies: Seq<SubpassDependency>,
) -> Seq<Option<Refusal>> {
    Seq::new(
        dependencies.len(),
        |i: int| dependency_refusal(device, view_masks, is_multiview, dependencies[i], i as u32),
    )
}

/// Holds each dependency against the rules, in their order.
pub fn check_dependencies(
    device: &Device,
    subpasses: &Vec<SubpassDescription>,
    is_multiview: bool,
    dependencies: &Vec<SubpassDependency>,
) -> (result: Result<(), RenderPassCreationError>)
    requires
        dependencies.len() <= u32::MAX,
    ensures
        match first_refused(
            dependency_refusals(device, view_masks_of(subpasses@), is_multiview, dependencies@),
            0,
        ) {
            None => result is Ok,
            Some(refusal) => result matches Err(err) && refusal.reported_by(err),
        },
{
    let ghost refusals = dependency_refusals(
        device,
        view_masks_of(subpasses@),
        is_multiview,
        dependencies@,
    );
    let n = dependencies.len();
    let mut i: usize = 0;
    while i < n
        invariant
            n == dependencies.len(),
            n <= u32::MAX,
            i <= n,
            refusals == dependency_refusals(
                device,
                view_masks_of(subpasses@),
                is_multiview,
                dependencies@,
            ),
            forall|k: int| 0 <= k < i ==> (#[trigger] refusals[k]) is None,
        decreases n - i,
    {
        match check_dependency(device, subpasses, is_multiview, &dependencies[i], i as u32) {
            Ok(_) => {},
            Err(err) => {
                proof {
                    lemma_first_refused_skip(refusals, 0, i as int);
                }
                return Err(err);
            },
        }
        i += 1;
    }
    proof {
        lemma_first_refused_skip(refusals, 0, n as int);
    }
    Ok(())
}

/// Whether a bit is set in two of the masks from place `from` on, or in one
/// of them and in `seen`.
pub open spec fn masks_overlap(masks: Seq<u32>, from: int, seen: u32) -> bool
    decreases masks.len() - from,
{
    if from < 0 || from >= masks.len() {
        false
    } else if seen & masks[from] != 0 {
        true
    } else {
        masks_overlap(masks, from + 1, seen | masks[from])
    }
}

/// The rule on the correlated view masks that is broken, if one is: there
/// are none without multiview, and no bit is set in two of them.
pub open spec fn correlated_refusal(masks: Seq<u32>, is_multiview: bool) -> Option<Refusal> {
    if masks.len() == 0 {
        None
    } else if !is_multiview {
        Some(Refusal::Error(RenderPassCreationError::CorrelatedViewMasksMultiviewNotEnabled))
    } else if masks_overlap(masks, 0, 0) {
        Some(Refusal::Error(RenderPassCreationError::CorrelatedViewMasksOverlapping))
    } else {
        None
    }
}

/// Holds the correlated view masks against the rules.
pub fn check_correlated_view_masks(masks: &Vec<u32>, is_multiview: bool) -> (result: Result<
    (),
    RenderPassCreationError,
>)
    ensures
        match correlated_refusal(masks@, is_multiview) {
            None => result is Ok,
            Some(refusal) => result matches Err(err) && refusal.reported_by(err),
        },
{
    if masks.len() == 0 {
        return Ok(());
    }
    if !is_multiview {
        return Err(RenderPassCreationError::CorrelatedViewMasksMultiviewNotEnabled);
    }
    let mut total: u32 = 0;
    let mut i: usize = 0;
    while i < masks.len()
        invariant
            i <= masks.len(),
            is_multiview,
            masks_overlap(masks@, 0, 0) == masks_overlap(masks@, i as int, total),
        decreases masks.len() - i,
    {
        let mask = masks[i];
        if total & mask != 0 {
            assert(masks_overlap(masks@, i as int, total));
            return Err(RenderPassCreationError::CorrelatedViewMasksOverlapping);
        }
        assert(masks_overlap(masks@, i as int, total) == masks_overlap(
            masks@,
            i + 1,
            total | mask,
        ));
        total = total | mask;
        i += 1;
    }
    assert(!masks_overlap(masks@, 0, 0));
    Ok(())
}

/// What the rules make of a render pass.
pub struct PassOutcome {
    /// The first rule that is broken, if one is.
    pub refusal: Option<Refusal>,
    /// The input attachments of each subpass as the rules leave them.
    pub inputs: Seq<Seq<Option<AttachmentReference>>>,
    /// The largest number of views of a subpass, where no rule is broken.
    pub views_used: u32,
}

/// The greater of two numbers of views.
pub open spec fn more_views(a: u32, b: u32) -> u32 {
    if a >= b {
        a
    } else {
        b
    }
}

/// The subpasses from place `from` on, held against the rules in their
/// order. `used` says which attachments the earlier subpasses use, `inputs`
/// holds the input attachments of each subpass as the rules have left them
/// so far, and `views` is the largest number of views of an earlier subpass.
pub open spec fn subpasses_from(
    device: &Device,
    attachments: Seq<AttachmentDescription>,
    features: Seq<FormatFeatures>,
    is_multiview: bool,
    subpasses: Seq<SubpassDescription>,
    from: int,
    used: Seq<bool>,
    inputs: Seq<Seq<Option<AttachmentReference>>>,
    views: u32,
) -> PassOutcome
    decreases subpasses.len() - from,
{
    if from < 0 || from >= subpasses.len() {
        PassOutcome { refusal: None, inputs, views_used: views }
    } else {
        let outcome = subpass_outcome(
            device,
            attachments,
            features,
            is_multiview,
            subpasses[from],
            used,
            from as u32,
        );
        if outcome.refusal is Some {
            PassOutcome {
                refusal: outcome.refusal,
                inputs: inputs.update(from, outcome.inputs),
                views_used: views,
            }
        } else {
            subpasses_from(
                device,
                attachments,
                features,
                is_multiview,
                subpasses,
                from + 1,
                outcome.used,
                inputs.update(from, outcome.inputs),
                more_views(views, bit_length(subpasses[from].view_mask) as u32),
            )
        }
    }
}

/// The input attachments of each subpass.
pub open spec fn inputs_of(subpasses: Seq<SubpassDescription>) -> Seq<Seq<Option<AttachmentReference>>> {
    Seq::new(subpasses.len(), |i: int| subpasses[i].input_attachments@)
}

/// The refusal of a device without the feature for multiview.
pub open spec fn multiview_requirement() -> Refusal {
    Refusal::Requirement {
        text: "`create_info.subpasses[0].view_mask` is not `0`"@,
        api_version: None,
        features: seq!["multiview"@],
        device_extensions: Seq::empty(),
    }
}

/// A render pass held against all the rules, in their order: those on the
/// attachments, on multiview, on the subpasses, on the dependencies and on
/// the correlated view masks.
pub open spec fn validation(device: &Device, info: RenderPassCreateInfo) -> PassOutcome {
    let attachments = info.attachments@;
    let subpasses = info.subpasses@;
    let is_multiview = subpasses[0].view_mask != 0;
    let early = or_else(
        first_refused(attachment_refusals(device, attachments), 0),
        if is_multiview && !device.enabled_features.multiview {
            Some(multiview_requirement())
        } else {
            None
        },
    );
    let passes = subpasses_from(
        device,
        attachments,
        potential_features(device, attachments),
        is_multiview,
        subpasses,
        0,
        Seq::new(attachments.len(), |i: int| false),
        inputs_of(subpasses),
        0,
    );
    if early is Some {
        PassOutcome { refusal: early, inputs: inputs_of(subpasses), views_used: 0 }
    } else {
        PassOutcome {
            refusal: or_else(
                passes.refusal,
                or_else(
                    first_refused(
                        dependency_refusals(
                            device,
                            view_masks_of(subpasses),
                            is_multiview,
                            info.dependencies@,
                        ),
                        0,
                    ),
                    correlated_refusal(info.correlated_view_masks@, is_multiview),
                ),
            ),
            inputs: passes.inputs,
            views_used: passes.views_used,
        }
    }
}

/// Whether the rules can be tried on a render pass: it has a subpass, each
/// attachment has a format, and its lists can be counted in 32 bits.
pub open spec fn askable(info: RenderPassCreateInfo) -> bool {
    &&& info.subpasses@.len() > 0
    &&& formats_known(info.attachments@)
    &&& info.attachments@.len() <= u32::MAX
    &&& info.subpasses@.len() <= u32::MAX
    &&& info.dependencies@.len() <= u32::MAX
    &&& forall|i: int|
        0 <= i < info.subpasses@.len() ==> (#[trigger] info.subpasses@[i]).color_attachments@.len()
            <= u32::MAX
}

/// A list that says of none of `count` attachments that it is used.
fn none_used(count: usize) -> (used: Vec<bool>)
    ensures
        used@ == Seq::new(count as nat, |i: int| false),
{
    let mut used: Vec<bool> = Vec::new();
    let mut i: usize = 0;
    while i < count
        invariant
            i <= count,
            used@ == Seq::new(i as nat, |k: int| false),
        decreases count - i,
    {
        used.push(false);
        assert(used@ =~= Seq::new((i + 1) as nat, |k: int| false));
        i += 1;
    }
    used
}

/// Holds the subpasses against the rules, in their order, and gives the
/// largest number of views of a subpass.
pub fn check_subpasses(
    device: &Device,
    attachments: &Vec<AttachmentDescription>,
    features: &Vec<FormatFeatures>,
    is_multiview: bool,
    subpasses: &mut Vec<SubpassDescription>,
) -> (result: Result<u32, RenderPassCreationError>)
    requires
        features.len() == attachments.len(),
        formats_known(attachments@),
        old(subpasses).len() <= u32::MAX,
        forall|i: int|
            0 <= i < old(subpasses).len() ==> (#[trigger] old(subpasses)[i]).color_attachments@.len()
                <= u32::MAX,
    ensures
        final(subpasses).len() == old(subpasses).len(),
        forall|i: int|
            0 <= i < old(subpasses).len() ==> same_but_inputs(
                #[trigger] old(subpasses)[i],
                final(subpasses)[i],
            ),
        inputs_of(final(subpasses)@) == subpasses_from(
            device,
            attachments@,
            features@,
            is_multiview,
            old(subpasses)@,
            0,
            Seq::new(attachments.len() as nat, |i: int| false),
            inputs_of(old(subpasses)@),
            0,
        ).inputs,
        match subpasses_from(
            device,
            attachments@,
            features@,
            is_multiview,
            old(subpasses)@,
            0,
            Seq::new(attachments.len() as nat, |i: int| false),
            inputs_of(old(subpasses)@),
            0,
        ).refusal {
            None => result == Ok::<u32, RenderPassCreationError>(
                subpasses_from(
                    device,
                    attachments@,
                    features@,
                    is_multiview,
                    old(subpasses)@,
                    0,
                    Seq::new(attachments.len() as nat, |i: int| false),
                    inputs_of(old(subpasses)@),
                    0,
                ).views_used,
            ),
            Some(refusal) => result matches Err(err) && refusal.reported_by(err),
        },
{
    let ghost before = old(subpasses)@;
    let ghost whole = subpasses_from(
        device,
        attachments@,
        features@,
        is_multiview,
        before,
        0,
        Seq::new(attachments.len() as nat, |i: int| false),
        inputs_of(before),
        0,
    );
    let mut state = UseState { layouts: Vec::new(), used: none_used(attachments.len()), samples: None };
    let mut views_used: u32 = 0;
    let n = subpasses.len();
    let mut i: usize = 0;
    while i < n
        invariant
            i <= n,
            n == subpasses.len(),
            n == before.len(),
            n <= u32::MAX,
            before == old(subpasses)@,
            features.len() == attachments.len(),
            formats_known(attachments@),
            state.used.len() == attachments.len(),
            forall|k: int| 0 <= k < n ==> same_but_inputs(#[trigger] before[k], subpasses[k]),
            forall|k: int| i <= k < n ==> (#[trigger] subpasses[k]) == before[k],
            forall|k: int|
                0 <= k < n ==> (#[trigger] before[k]).color_attachments@.len() <= u32::MAX,
            whole == subpasses_from(
                device,
                attachments@,
                features@,
                is_multiview,
                before,
                i as int,
                state.used@,
                inputs_of(subpasses@),
                views_used,
            ),
            whole == subpasses_from(
                device,
                attachments@,
                features@,
                is_multiview,
                before,
                0,
                Seq::new(attachments.len() as nat, |i: int| false),
                inputs_of(before),
                0,
            ),
        decreases n - i,
    {
        let ghost listed = subpasses@;
        let ghost outcome = subpass_outcome(
            device,
            attachments@,
            features@,
            is_multiview,
            before[i as int],
            state.used@,
            i as u32,
        );
        let checked = check_subpass(
            device,
            attachments,
            features,
            is_multiview,
            &mut subpasses[i],
            &mut state,
            i as u32,
        );
        proof {
            assert(inputs_of(subpasses@) =~= inputs_of(listed).update(i as int, outcome.inputs));
        }
        match checked {
            Ok(view_count) => {
                if view_count > views_used {
                    views_used = view_count;
                }
            },
            Err(err) => {
                return Err(err);
            },
        }
        i += 1;
    }
    Ok(views_used)
}

impl RenderPass {
    /// Holds what a render pass is to be made from against the rules, and
    /// gives each input attachment that names no aspects those of the
    /// format of its attachment. Gives the number of views that the render
    /// pass draws to.
    pub fn validate(device: &Device, create_info: &mut RenderPassCreateInfo) -> (result: Result<
        u32,
        RenderPassCreationError,
    >)
        requires
            askable(*old(create_info)),
        ensures
            final(create_info).attachments@ == old(create_info).attachments@,
            final(create_info).dependencies@ == old(create_info).dependencies@,
            final(create_info).correlated_view_masks@ == old(create_info).correlated_view_masks@,
            final(create_info).subpasses@.len() == old(create_info).subpasses@.len(),
            forall|i: int|
                0 <= i < old(create_info).subpasses@.len() ==> same_but_inputs(
                    #[trigger] old(create_info).subpasses@[i],
                    final(create_info).subpasses@[i],
                ),
            inputs_of(final(create_info).subpasses@) == validation(
                device,
                *old(create_info),
            ).inputs,
            match validation(device, *old(create_info)).refusal {
                None => result == Ok::<u32, RenderPassCreationError>(
                    validation(device, *old(create_info)).views_used,
                ),
                Some(refusal) => result matches Err(err) && refusal.reported_by(err),
            },
    {
        let features = match check_attachments(device, &create_info.attachments) {
            Ok(features) => features,
            Err(err) => {
                return Err(err);
            },
        };
        let is_multiview = create_info.subpasses[0].view_mask != 0;
        if is_multiview && !device.enabled_features.multiview {
            let none: &'static [&'static str] = &[];
            let needed: &'static [&'static str] = &["multiview"];
            assert(names(needed) =~= seq!["multiview"@]);
            assert(names(none) =~= Seq::<Seq<char>>::empty());
            return Err(
                RenderPassCreationError::from_requirement(
                    RequirementNotMet::new(
                        "`create_info.subpasses[0].view_mask` is not `0`",
                        None,
                        needed,
                        none,
                    ),
                ),
            );
        }
        let views_used = match check_subpasses(
            device,
            &create_info.attachments,
            &features,
            is_multiview,
            &mut create_info.subpasses,
        ) {
            Ok(views_used) => views_used,
            Err(err) => {
                return Err(err);
            },
        };
        proof {
            assert(view_masks_of(create_info.subpasses@) =~= view_masks_of(
                old(create_info).subpasses@,
            ));
        }
        match check_dependencies(
            device,
            &create_info.subpasses,
            is_multiview,
            &create_info.dependencies,
        ) {
            Ok(_) => {},
            Err(err) => {
                return Err(err);
            },
        }
        match check_correlated_view_masks(&create_info.correlated_view_masks, is_multiview) {
            Ok(_) => {},
            Err(err) => {
                return Err(err);
            },
        }
        Ok(views_used)
    }
}

} // verus!
