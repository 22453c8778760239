//! The rules on the attachments that the subpasses of a render pass use.
//!
//! Within a subpass the color attachments are tried first, then the
//! attachment of depth and stencil, then the input attachments, then the
//! resolve attachments, and last the preserved ones. What is known of each
//! attachment (the layout in which the subpass uses it, whether an earlier
//! use has been seen) goes from one use to the next.

use crate::device::Device;
use crate::format::FormatFeatures;
use crate::image::{bit_length, bits_of, ImageLayout, SampleCount};
use crate::render_pass::create::{
    aspects_requirement, first_refused, lemma_first_refused_skip, or_else, Refusal,
    RenderPassCreationError,
};
use crate::render_pass::{AttachmentDescription, AttachmentReference, LoadOp, SubpassDescription};
use crate::{names, RequirementNotMet, Version};
use vstd::prelude::*;

verus! {

/// The ways in which a subpass uses an attachment.
#[derive(Clone, Copy, Debug, PartialEq, Eq, Structural)]
pub enum AttachmentUse {
    /// As an attachment that is drawn to.
    Color,
    /// As the attachment of depth and stencil.
    DepthStencil,
    /// As an attachment that shaders read.
    Input,
    /// As an attachment that a multisampled one is resolved to.
    Resolve,
}

impl AttachmentUse {
    /// The name of the use in an error.
    pub open spec fn name_spec(self) -> Seq<char> {
        match self {
            AttachmentUse::Color => "color"@,
            AttachmentUse::DepthStencil => "depth/stencil"@,
            AttachmentUse::Input => "input"@,
            AttachmentUse::Resolve => "resolve"@,
        }
    }

    /// The name of the use in an error.
    pub fn name(self) -> (r: &'static str)
        ensures
            r@ == self.name_spec(),
    {
        match self {
            AttachmentUse::Color => "color",
            AttachmentUse::DepthStencil => "depth/stencil",
            AttachmentUse::Input => "input",
            AttachmentUse::Resolve => "resolve",
        }
    }

    /// Whether a format with these features can be used in this way.
    pub open spec fn allowed_by_spec(self, features: FormatFeatures) -> bool {
        match self {
            AttachmentUse::Color | AttachmentUse::Resolve => features.color_attachment,
            AttachmentUse::DepthStencil => features.depth_stencil_attachment,
            AttachmentUse::Input => features.color_attachment || features.depth_stencil_attachment,
        }
    }

    /// Whether a format with these features can be used in this way.
    pub fn allowed_by(self, features: &FormatFeatures) -> (r: bool)
        ensures
            r == self.allowed_by_spec(*features),
    {
        match self {
            AttachmentUse::Color | AttachmentUse::Resolve => features.color_attachment,
            AttachmentUse::DepthStencil => features.depth_stencil_attachment,
            AttachmentUse::Input => features.color_attachment || features.depth_stencil_attachment,
        }
    }

    /// Whether an attachment that is used in this way may not be in the
    /// layout.
    pub open spec fn refuses_layout_spec(self, layout: ImageLayout) -> bool {
        layout is Undefined || layout is Preinitialized || layout is PresentSrc || match self {
            AttachmentUse::Color | AttachmentUse::Resolve => layout is DepthStencilAttachmentOptimal
                || layout is ShaderReadOnlyOptimal || layout is DepthAttachmentStencilReadOnlyOptimal
                || layout is DepthReadOnlyStencilAttachmentOptimal,
            AttachmentUse::DepthStencil => layout is ColorAttachmentOptimal
                || layout is ShaderReadOnlyOptimal,
            AttachmentUse::Input => layout is ColorAttachmentOptimal
                || layout is DepthStencilAttachmentOptimal,
        }
    }

    /// Whether an attachment that is used in this way may not be in the
    /// layout.
    pub fn refuses_layout(self, layout: ImageLayout) -> (r: bool)
        ensures
            r == self.refuses_layout_spec(layout),
    {
        match layout {
            ImageLayout::Undefined | ImageLayout::Preinitialized | ImageLayout::PresentSrc => true,
            ImageLayout::DepthStencilAttachmentOptimal => match self {
                AttachmentUse::DepthStencil => false,
                _ => true,
            },
            ImageLayout::ShaderReadOnlyOptimal => match self {
                AttachmentUse::Input => false,
                _ => true,
            },
            ImageLayout::DepthAttachmentStencilReadOnlyOptimal
            | ImageLayout::DepthReadOnlyStencilAttachmentOptimal => match self {
                AttachmentUse::Color | AttachmentUse::Resolve => true,
                _ => false,
            },
            ImageLayout::ColorAttachmentOptimal => match self {
                AttachmentUse::DepthStencil | AttachmentUse::Input => true,
                _ => false,
            },
            _ => false,
        }
    }
}

/// What is known of the attachments of a render pass at one point of a
/// subpass.
pub struct Uses {
    /// The layout in which the subpass uses each attachment, where it has
    /// used it.
    pub layouts: Seq<Option<ImageLayout>>,
    /// Whether this subpass or an earlier one has used each attachment.
    pub used: Seq<bool>,
    /// The number of samples of the first color attachment of the subpass.
    pub samples: Option<SampleCount>,
}

/// What is known of the attachments of a render pass at one point of a
/// subpass.
pub struct UseState {
    /// The layout in which the subpass uses each attachment, where it has
    /// used it.
    pub layouts: Vec<Option<ImageLayout>>,
    /// Whether this subpass or an earlier one has used each attachment.
    pub used: Vec<bool>,
    /// The number of samples of the first color attachment of the subpass.
    pub samples: Option<SampleCount>,
}

impl View for UseState {
    type V = Uses;

    open spec fn view(&self) -> Uses {
        Uses { layouts: self.layouts@, used: self.used@, samples: self.samples }
    }
}

/// Whether the state speaks of each of `count` attachments.
pub open spec fn covers(uses: Uses, count: int) -> bool {
    uses.layouts.len() == count && uses.used.len() == count
}

/// Whether an attachment that is cleared when it is loaded may not be used
/// first in the layout: a layout in which the part that is cleared can only
/// be read.
pub open spec fn first_use_refused(attachment: AttachmentDescription, layout: ImageLayout) -> bool {
    (attachment.load_op is Clear && (layout is ShaderReadOnlyOptimal
        || layout is DepthStencilReadOnlyOptimal || layout is DepthReadOnlyStencilAttachmentOptimal))
        || (attachment.stencil_load_op is Clear && (layout is ShaderReadOnlyOptimal
        || layout is DepthStencilReadOnlyOptimal || layout is DepthAttachmentStencilReadOnlyOptimal))
}

/// The first rule that a use of an attachment breaks, if it breaks one,
/// among the rules that hold of every use but that of preserving.
pub open spec fn use_refusal(
    device: &Device,
    attachments: Seq<AttachmentDescription>,
    features: Seq<FormatFeatures>,
    uses: Uses,
    reference: AttachmentReference,
    subpass: u32,
    usage: AttachmentUse,
) -> Option<Refusal> {
    let attachment = reference.attachment;
    let at = attachment as int;
    if reference.aspects.device_refusal(device) {
        Some(aspects_requirement())
    } else if at >= attachments.len() {
        Some(
            Refusal::Error(
                RenderPassCreationError::SubpassAttachmentOutOfRange { subpass, attachment },
            ),
        )
    } else if uses.layouts[at] is Some && uses.layouts[at] != Some(reference.layout) {
        Some(
            Refusal::Error(
                RenderPassCreationError::SubpassAttachmentLayoutMismatch { subpass, attachment },
            ),
        )
    } else if !uses.used[at] && first_use_refused(attachments[at], reference.layout) {
        Some(
            Refusal::Error(
                RenderPassCreationError::AttachmentFirstUseLoadOpInvalid {
                    attachment,
                    first_use_subpass: subpass,
                },
            ),
        )
    } else if !usage.allowed_by_spec(features[at]) {
        Some(Refusal::FormatUsage { subpass, attachment, usage: usage.name_spec() })
    } else if usage.refuses_layout_spec(reference.layout) {
        Some(Refusal::LayoutInvalid { subpass, attachment, usage: usage.name_spec() })
    } else if !(usage is Input) && !reference.aspects.is_empty_spec() {
        Some(
            Refusal::Error(
                RenderPassCreationError::SubpassAttachmentAspectsNotEmpty { subpass, attachment },
            ),
        )
    } else {
        None
    }
}

/// What is known after a use of an attachment.
pub open spec fn after_use(uses: Uses, reference: AttachmentReference) -> Uses {
    Uses {
        layouts: uses.layouts.update(reference.attachment as int, Some(reference.layout)),
        used: uses.used.update(reference.attachment as int, true),
        samples: uses.samples,
    }
}

/// Whether the layout is one in which an attachment that is cleared when it
/// is loaded may not be used first.
fn first_use_is_refused(attachment: &AttachmentDescription, layout: ImageLayout) -> (r: bool)
    ensures
        r == first_use_refused(*attachment, layout),
{
    let color_read_only = match layout {
        ImageLayout::ShaderReadOnlyOptimal
        | ImageLayout::DepthStencilReadOnlyOptimal
        | ImageLayout::DepthReadOnlyStencilAttachmentOptimal => true,
        _ => false,
    };
    let stencil_read_only = match layout {
        ImageLayout::ShaderReadOnlyOptimal
        | ImageLayout::DepthStencilReadOnlyOptimal
        | ImageLayout::DepthAttachmentStencilReadOnlyOptimal => true,
        _ => false,
    };
    let clears = match attachment.load_op {
        LoadOp::Clear => true,
        _ => false,
    };
    let clears_stencil = match attachment.stencil_load_op {
        LoadOp::Clear => true,
        _ => false,
    };
    (clears && color_read_only) || (clears_stencil && stencil_read_only)
}

/// Holds a use of an attachment against the rules that hold of every use,
/// and notes the use. Gives whether it is the first use of the attachment
/// in the render pass.
pub fn check_use(
    device: &Device,
    attachments: &Vec<AttachmentDescription>,
    features: &Vec<FormatFeatures>,
    state: &mut UseState,
    reference: &AttachmentReference,
    subpass: u32,
    usage: AttachmentUse,
) -> (result: Result<bool, RenderPassCreationError>)
    requires
        features.len() == attachments.len(),
        covers(old(state)@, attachments.len() as int),
    ensures
        covers(final(state)@, attachments.len() as int),
        match use_refusal(
            device,
            attachments@,
            features@,
            old(state)@,
            *reference,
            subpass,
            usage,
        ) {
            None => result == Ok::<bool, RenderPassCreationError>(
                !old(state).used@[reference.attachment as int],
            ) && final(state)@ == after_use(old(state)@, *reference) && reference.attachment
                < attachments.len(),
            Some(refusal) => result matches Err(err) && refusal.reported_by(err),
        },
{
    let attachment = reference.attachment;
    match reference.aspects.validate_device(device) {
        Ok(_) => {},
        Err(err) => {
            return Err(RenderPassCreationError::from_requirement(err));
        },
    }
    let at = attachment as usize;
    if at >= attachments.len() {
        return Err(RenderPassCreationError::SubpassAttachmentOutOfRange { subpass, attachment });
    }
    match state.layouts[at] {
        Some(layout) => {
            if layout != reference.layout {
                return Err(
                    RenderPassCreationError::SubpassAttachmentLayoutMismatch { subpass, attachment },
                );
            }
        },
        None => {
            state.layouts.set(at, Some(reference.layout));
        },
    }
    let first_use = !state.used[at];
    state.used.set(at, true);
    if first_use && first_use_is_refused(&attachments[at], reference.layout) {
        return Err(
            RenderPassCreationError::AttachmentFirstUseLoadOpInvalid {
                attachment,
                first_use_subpass: subpass,
            },
        );
    }
    if !usage.allowed_by(&features[at]) {
        return Err(
            RenderPassCreationError::SubpassAttachmentFormatUsageNotSupported {
                subpass,
                attachment,
                usage: usage.name(),
            },
        );
    }
    if usage.refuses_layout(reference.layout) {
        return Err(
            RenderPassCreationError::SubpassAttachmentLayoutInvalid {
                subpass,
                attachment,
                usage: usage.name(),
            },
        );
    }
    let is_input = match usage {
        AttachmentUse::Input => true,
        _ => false,
    };
    if !is_input && !reference.aspects.is_empty() {
        return Err(
            RenderPassCreationError::SubpassAttachmentAspectsNotEmpty { subpass, attachment },
        );
    }
    proof {
        assert(state.layouts@ =~= old(state).layouts@.update(at as int, Some(reference.layout)));
    }
    Ok(first_use)
}

/// A refusal, or what is known of the attachments after the uses that were
/// held against the rules.
pub struct Progress {
    /// The first rule that was broken, if one was.
    pub refusal: Option<Refusal>,
    /// What is known after the uses, where no rule was broken.
    pub uses: Uses,
}

/// The refusal of an attachment whose number of samples is not that of the
/// first color attachment of the subpass.
pub open spec fn samples_refusal(
    first: Option<SampleCount>,
    samples: SampleCount,
    subpass: u32,
    attachment: u32,
) -> Option<Refusal> {
    if first is Some && first->0 != samples {
        Some(
            Refusal::Error(
                RenderPassCreationError::SubpassColorDepthStencilAttachmentSamplesMismatch {
                    subpass,
                    attachment,
                    samples,
                    first_samples: first->0,
                },
            ),
        )
    } else {
        None
    }
}

/// The first rule that a color attachment breaks, if it breaks one.
pub open spec fn color_refusal(
    device: &Device,
    attachments: Seq<AttachmentDescription>,
    features: Seq<FormatFeatures>,
    uses: Uses,
    reference: AttachmentReference,
    subpass: u32,
) -> Option<Refusal> {
    or_else(
        use_refusal(device, attachments, features, uses, reference, subpass, AttachmentUse::Color),
        samples_refusal(
            uses.samples,
            attachments[reference.attachment as int].samples,
            subpass,
            reference.attachment,
        ),
    )
}

/// What is known after a color attachment.
pub open spec fn after_color(
    attachments: Seq<AttachmentDescription>,
    uses: Uses,
    reference: AttachmentReference,
) -> Uses {
    Uses {
        layouts: uses.layouts.update(reference.attachment as int, Some(reference.layout)),
        used: uses.used.update(reference.attachment as int, true),
        samples: Some(attachments[reference.attachment as int].samples),
    }
}

/// The color attachments from place `from` on, held against the rules in
/// their order.
pub open spec fn colors_from(
    device: &Device,
    attachments: Seq<AttachmentDescription>,
    features: Seq<FormatFeatures>,
    colors: Seq<Option<AttachmentReference>>,
    from: int,
    uses: Uses,
    subpass: u32,
) -> Progress
    decreases colors.len() - from,
{
    if from < 0 || from >= colors.len() {
        Progress { refusal: None, uses }
    } else {
        match colors[from] {
            None => colors_from(device, attachments, features, colors, from + 1, uses, subpass),
            Some(reference) => {
                let refusal = color_refusal(
                    device,
                    attachments,
                    features,
                    uses,
                    reference,
                    subpass,
                );
                if refusal is Some {
                    Progress { refusal, uses }
                } else {
                    colors_from(
                        device,
                        attachments,
                        features,
                        colors,
                        from + 1,
                        after_color(attachments, uses, reference),
                        subpass,
                    )
                }
            },
        }
    }
}

/// Whether each attachment that the list names is one of `count`
/// attachments.
pub open spec fn in_range(references: Seq<Option<AttachmentReference>>, count: int) -> bool {
    forall|i: int|
        0 <= i < references.len() && (#[trigger] references[i]) is Some
            ==> references[i]->0.attachment < count
}

/// Holds the number of samples of an attachment against that of the first
/// color attachment of the subpass.
fn check_samples(first: Option<SampleCount>, samples: SampleCount, subpass: u32, attachment: u32) -> (result:
    Result<(), RenderPassCreationError>)
    ensures
        match samples_refusal(first, samples, subpass, attachment) {
            None => result is Ok,
            Some(refusal) => result matches Err(err) && refusal.reported_by(err),
        },
{
    match first {
        Some(first_samples) => {
            if first_samples != samples {
                return Err(
                    RenderPassCreationError::SubpassColorDepthStencilAttachmentSamplesMismatch {
                        subpass,
                        attachment,
                        samples,
                        first_samples,
                    },
                );
            }
        },
        None => {},
    }
    Ok(())
}

/// Holds the color attachments of a subpass against the rules, in their
/// order.
pub fn check_colors(
    device: &Device,
    attachments: &Vec<AttachmentDescription>,
    features: &Vec<FormatFeatures>,
    state: &mut UseState,
    colors: &Vec<Option<AttachmentReference>>,
    subpass: u32,
) -> (result: Result<(), RenderPassCreationError>)
    requires
        features.len() == attachments.len(),
        covers(old(state)@, attachments.len() as int),
    ensures
        covers(final(state)@, attachments.len() as int),
        match colors_from(device, attachments@, features@, colors@, 0, old(state)@, subpass).refusal {
            None => result is Ok && final(state)@ == colors_from(
                device,
                attachments@,
                features@,
                colors@,
                0,
                old(state)@,
                subpass,
            ).uses && in_range(colors@, attachments.len() as int),
            Some(refusal) => result matches Err(err) && refusal.reported_by(err),
        },
{
    let ghost whole = colors_from(device, attachments@, features@, colors@, 0, old(state)@, subpass);
    let mut i: usize = 0;
    while i < colors.len()
        invariant
            i <= colors.len(),
            features.len() == attachments.len(),
            covers(state@, attachments.len() as int),
            whole == colors_from(device, attachments@, features@, colors@, i as int, state@, subpass),
            whole == colors_from(device, attachments@, features@, colors@, 0, old(state)@, subpass),
            forall|k: int|
                0 <= k < i && (#[trigger] colors[k]) is Some ==> colors[k]->0.attachment
                    < attachments.len(),
        decreases colors.len() - i,
    {
        match &colors[i] {
            Some(reference) => {
                let ghost before = state@;
                match check_use(
                    device,
                    attachments,
                    features,
                    state,
                    reference,
                    subpass,
                    AttachmentUse::Color,
                ) {
                    Ok(_) => {},
                    Err(err) => {
                        return Err(err);
                    },
                }
                let samples = attachments[reference.attachment as usize].samples;
                match check_samples(state.samples, samples, subpass, reference.attachment) {
                    Ok(_) => {},
                    Err(err) => {
                        return Err(err);
                    },
                }
                state.samples = Some(samples);
                assert(state@ == after_color(attachments@, before, *reference));
            },
            None => {},
        }
        i += 1;
    }
    Ok(())
}

/// Whether the list names the attachment.
pub open spec fn names_attachment(references: Seq<Option<AttachmentReference>>, attachment: u32) -> bool {
    exists|i: int|
        0 <= i < references.len() && (#[trigger] references[i]) is Some
            && references[i]->0.attachment == attachment
}

/// Whether the list names the attachment.
pub fn has_attachment(references: &Vec<Option<AttachmentReference>>, attachment: u32) -> (r: bool)
    ensures
        r == names_attachment(references@, attachment),
{
    let mut i: usize = 0;
    while i < references.len()
        invariant
            i <= references.len(),
            forall|k: int|
                0 <= k < i ==> !((#[trigger] references[k]) is Some && references[k]->0.attachment
                    == attachment),
        decreases references.len() - i,
    {
        match &references[i] {
            Some(reference) => {
                if reference.attachment == attachment {
                    return true;
                }
            },
            None => {},
        }
        i += 1;
    }
    false
}

/// The first rule that the attachment of depth and stencil breaks, if it
/// breaks one.
pub open spec fn depth_stencil_refusal(
    device: &Device,
    attachments: Seq<AttachmentDescription>,
    features: Seq<FormatFeatures>,
    uses: Uses,
    colors: Seq<Option<AttachmentReference>>,
    reference: AttachmentReference,
    subpass: u32,
) -> Option<Refusal> {
    or_else(
        use_refusal(
            device,
            attachments,
            features,
            uses,
            reference,
            subpass,
            AttachmentUse::DepthStencil,
        ),
        if names_attachment(colors, reference.attachment) {
            Some(
                Refusal::Error(
                    RenderPassCreationError::SubpassAttachmentUsageColorDepthStencil {
                        subpass,
                        attachment: reference.attachment,
                    },
                ),
            )
        } else {
            samples_refusal(
                uses.samples,
                attachments[reference.attachment as int].samples,
                subpass,
                reference.attachment,
            )
        },
    )
}

/// The attachment of depth and stencil, where there is one, held against
/// the rules.
pub open spec fn depth_stencil_step(
    device: &Device,
    attachments: Seq<AttachmentDescription>,
    features: Seq<FormatFeatures>,
    uses: Uses,
    colors: Seq<Option<AttachmentReference>>,
    depth_stencil: Option<AttachmentReference>,
    subpass: u32,
) -> Progress {
    match depth_stencil {
        None => Progress { refusal: None, uses },
        Some(reference) => Progress {
            refusal: depth_stencil_refusal(
                device,
                attachments,
                features,
                uses,
                colors,
                reference,
                subpass,
            ),
            uses: after_use(uses, reference),
        },
    }
}

/// Holds the attachment of depth and stencil of a subpass against the
/// rules, where there is one.
pub fn check_depth_stencil(
    device: &Device,
    attachments: &Vec<AttachmentDescription>,
    features: &Vec<FormatFeatures>,
    state: &mut UseState,
    colors: &Vec<Option<AttachmentReference>>,
    depth_stencil: &Option<AttachmentReference>,
    subpass: u32,
) -> (result: Result<(), RenderPassCreationError>)
    requires
        features.len() == attachments.len(),
        covers(old(state)@, attachments.len() as int),
    ensures
        covers(final(state)@, attachments.len() as int),
        match depth_stencil_step(
            device,
            attachments@,
            features@,
            old(state)@,
            colors@,
            *depth_stencil,
            subpass,
        ).refusal {
            None => result is Ok && final(state)@ == depth_stencil_step(
                device,
                attachments@,
                features@,
                old(state)@,
                colors@,
                *depth_stencil,
                subpass,
            ).uses,
            Some(refusal) => result matches Err(err) && refusal.reported_by(err),
        },
{
    match depth_stencil {
        Some(reference) => {
            match check_use(
                device,
                attachments,
                features,
                state,
                reference,
                subpass,
                AttachmentUse::DepthStencil,
            ) {
                Ok(_) => {},
                Err(err) => {
                    return Err(err);
                },
            }
            if has_attachment(colors, reference.attachment) {
                return Err(
                    RenderPassCreationError::SubpassAttachmentUsageColorDepthStencil {
                        subpass,
                        attachment: reference.attachment,
                    },
                );
            }
            let samples = attachments[reference.attachment as usize].samples;
            check_samples(state.samples, samples, subpass, reference.attachment)
        },
        None => Ok(()),
    }
}

/// The first rule that the aspects of an input attachment break, if they
/// break one: aspects that are not all those of the format ask for a later
/// version of the device interface, or for one of two extensions, and must
/// be among those of the format.
pub open spec fn input_aspects_refusal(
    device: &Device,
    attachment: AttachmentDescription,
    reference: AttachmentReference,
    subpass: u32,
) -> Option<Refusal> {
    let aspects = attachment.format->0.aspects_spec();
    if reference.aspects.is_empty_spec() || reference.aspects == aspects {
        None
    } else if !(device.api_version.at_least_spec(Version::major_minor_spec(1, 1))
        || device.enabled_extensions.khr_create_renderpass2
        || device.enabled_extensions.khr_maintenance2) {
        Some(
            Refusal::Requirement {
                text: "`create_info.subpasses` has an element, where `input_attachments` has an element that is `Some(atch_ref)`, where `atch_ref.aspects` does not match the aspects of the attachment itself"@,
                api_version: Some(Version::major_minor_spec(1, 1)),
                features: Seq::empty(),
                device_extensions: seq!["khr_create_renderpass2"@, "khr_maintenance2"@],
            },
        )
    } else if !aspects.contains_spec(reference.aspects) {
        Some(
            Refusal::Error(
                RenderPassCreationError::SubpassInputAttachmentAspectsNotCompatible {
                    subpass,
                    attachment: reference.attachment,
                },
            ),
        )
    } else {
        None
    }
}

/// The first rule that an input attachment breaks, if it breaks one.
pub open spec fn input_refusal(
    device: &Device,
    attachments: Seq<AttachmentDescription>,
    features: Seq<FormatFeatures>,
    uses: Uses,
    reference: AttachmentReference,
    subpass: u32,
) -> Option<Refusal> {
    let at = reference.attachment as int;
    or_else(
        use_refusal(device, attachments, features, uses, reference, subpass, AttachmentUse::Input),
        or_else(
            input_aspects_refusal(device, attachments[at], reference, subpass),
            if !uses.used[at] && attachments[at].load_op is Clear {
                Some(
                    Refusal::Error(
                        RenderPassCreationError::AttachmentFirstUseLoadOpInvalid {
                            attachment: reference.attachment,
                            first_use_subpass: subpass,
                        },
                    ),
                )
            } else {
                None
            },
        ),
    )
}

/// The input attachment as the rules leave it: where it names no aspects
/// and passes the rules of every use, it gets the aspects of the format of
/// its attachment.
pub open spec fn input_filled(
    device: &Device,
    attachments: Seq<AttachmentDescription>,
    features: Seq<FormatFeatures>,
    uses: Uses,
    reference: AttachmentReference,
    subpass: u32,
) -> AttachmentReference {
    if use_refusal(device, attachments, features, uses, reference, subpass, AttachmentUse::Input)
        is None && reference.aspects.is_empty_spec() {
        AttachmentReference {
            attachment: reference.attachment,
            layout: reference.layout,
            aspects: attachments[reference.attachment as int].format->0.aspects_spec(),
        }
    } else {
        reference
    }
}

/// A refusal, or what is known of the attachments after the input
/// attachments, and the input attachments as the rules leave them.
pub struct InputProgress {
    /// The first rule that was broken, if one was.
    pub refusal: Option<Refusal>,
    /// What is known after the uses, where no rule was broken.
    pub uses: Uses,
    /// The input attachments, with the aspects that were filled in.
    pub references: Seq<Option<AttachmentReference>>,
}

/// The input attachments from place `from` on, held against the rules in
/// their order.
pub open spec fn inputs_from(
    device: &Device,
    attachments: Seq<AttachmentDescription>,
    features: Seq<FormatFeatures>,
    inputs: Seq<Option<AttachmentReference>>,
    from: int,
    uses: Uses,
    subpass: u32,
) -> InputProgress
    decreases inputs.len() - from,
{
    if from < 0 || from >= inputs.len() {
        InputProgress { refusal: None, uses, references: inputs }
    } else {
        match inputs[from] {
            None => inputs_from(device, attachments, features, inputs, from + 1, uses, subpass),
            Some(reference) => {
                let refusal = input_refusal(
                    device,
                    attachments,
                    features,
                    uses,
                    reference,
                    subpass,
                );
                let filled = inputs.update(
                    from,
                    Some(input_filled(device, attachments, features, uses, reference, subpass)),
                );
                if refusal is Some {
                    InputProgress { refusal, uses, references: filled }
                } else {
                    inputs_from(
                        device,
                        attachments,
                        features,
                        filled,
                        from + 1,
                        after_use(uses, reference),
                        subpass,
                    )
                }
            },
        }
    }
}

/// Holds the aspects of an input attachment against the rules.
fn check_input_aspects(
    device: &Device,
    attachment: &AttachmentDescription,
    reference: &AttachmentReference,
    subpass: u32,
) -> (result: Result<(), RenderPassCreationError>)
    requires
        attachment.format is Some,
    ensures
        match input_aspects_refusal(device, *attachment, *reference, subpass) {
            None => result is Ok,
            Some(refusal) => result matches Err(err) && refusal.reported_by(err),
        },
{
    let aspects = attachment.format.unwrap().aspects();
    if reference.aspects.is_empty() || reference.aspects == aspects {
        return Ok(());
    }
    if !(device.api_version.at_least(Version::v1_1())
        || device.enabled_extensions.khr_create_renderpass2
        || device.enabled_extensions.khr_maintenance2) {
        let none: &'static [&'static str] = &[];
        let extensions: &'static [&'static str] = &["khr_create_renderpass2", "khr_maintenance2"];
        assert(names(extensions) =~= seq!["khr_create_renderpass2"@, "khr_maintenance2"@]);
        assert(names(none) =~= Seq::<Seq<char>>::empty());
        return Err(
            RenderPassCreationError::from_requirement(
                RequirementNotMet::new(
                    "`create_info.subpasses` has an element, where `input_attachments` has an element that is `Some(atch_ref)`, where `atch_ref.aspects` does not match the aspects of the attachment itself",
                    Some(Version::v1_1()),
                    none,
                    extensions,
                ),
            ),
        );
    }
    if !aspects.contains(&reference.aspects) {
        return Err(
            RenderPassCreationError::SubpassInputAttachmentAspectsNotCompatible {
                subpass,
                attachment: reference.attachment,
            },
        );
    }
    Ok(())
}

/// Whether each attachment has a format.
pub open spec fn formats_known(attachments: Seq<AttachmentDescription>) -> bool {
    forall|i: int| 0 <= i < attachments.len() ==> (#[trigger] attachments[i]).format is Some
}

/// Holds the input attachments of a subpass against the rules, in their
/// order, and gives each that names no aspects those of the format of its
/// attachment.
pub fn check_inputs(
    device: &Device,
    attachments: &Vec<AttachmentDescription>,
    features: &Vec<FormatFeatures>,
    state: &mut UseState,
    inputs: &mut Vec<Option<AttachmentReference>>,
    subpass: u32,
) -> (result: Result<(), RenderPassCreationError>)
    requires
        features.len() == attachments.len(),
        formats_known(attachments@),
        covers(old(state)@, attachments.len() as int),
    ensures
        covers(final(state)@, attachments.len() as int),
        final(inputs)@ == inputs_from(
            device,
            attachments@,
            features@,
            old(inputs)@,
            0,
            old(state)@,
            subpass,
        ).references,
        match inputs_from(
            device,
            attachments@,
            features@,
            old(inputs)@,
            0,
            old(state)@,
            subpass,
        ).refusal {
            None => result is Ok && final(state)@ == inputs_from(
                device,
                attachments@,
                features@,
                old(inputs)@,
                0,
                old(state)@,
                subpass,
            ).uses,
            Some(refusal) => result matches Err(err) && refusal.reported_by(err),
        },
{
    let ghost whole = inputs_from(
        device,
        attachments@,
        features@,
        old(inputs)@,
        0,
        old(state)@,
        subpass,
    );
    let mut i: usize = 0;
    while i < inputs.len()
        invariant
            i <= inputs.len(),
            features.len() == attachments.len(),
            formats_known(attachments@),
            covers(state@, attachments.len() as int),
            whole == inputs_from(device, attachments@, features@, inputs@, i as int, state@, subpass),
            whole == inputs_from(
                device,
                attachments@,
                features@,
                old(inputs)@,
                0,
                old(state)@,
                subpass,
            ),
        decreases inputs.len() - i,
    {
        match inputs[i] {
            Some(reference) => {
                let ghost before = state@;
                let ghost listed = inputs@;
                let first_use = match check_use(
                    device,
                    attachments,
                    features,
                    state,
                    &reference,
                    subpass,
                    AttachmentUse::Input,
                ) {
                    Ok(first_use) => first_use,
                    Err(err) => {
                        assert(listed.update(i as int, Some(reference)) =~= listed);
                        return Err(err);
                    },
                };
                let attachment = &attachments[reference.attachment as usize];
                if reference.aspects.is_empty() {
                    inputs.set(
                        i,
                        Some(
                            AttachmentReference {
                                attachment: reference.attachment,
                                layout: reference.layout,
                                aspects: attachment.format.unwrap().aspects(),
                            },
                        ),
                    );
                } else {
                    assert(listed.update(i as int, Some(reference)) =~= listed);
                }
                match check_input_aspects(device, attachment, &reference, subpass) {
                    Ok(_) => {},
                    Err(err) => {
                        return Err(err);
                    },
                }
                let clears = match attachment.load_op {
                    LoadOp::Clear => true,
                    _ => false,
                };
                if first_use && clears {
                    return Err(
                        RenderPassCreationError::AttachmentFirstUseLoadOpInvalid {
                            attachment: reference.attachment,
                            first_use_subpass: subpass,
                        },
                    );
                }
            },
            None => {},
        }
        i += 1;
    }
    Ok(())
}

/// The first rule that a resolve attachment breaks, if it breaks one:
/// beside the rules of every use, it has a color attachment at its place,
/// it has one sample and the color attachment more than one, and the two
/// have one format.
pub open spec fn resolve_refusal(
    device: &Device,
    attachments: Seq<AttachmentDescription>,
    features: Seq<FormatFeatures>,
    uses: Uses,
    color: Option<AttachmentReference>,
    reference: AttachmentReference,
    subpass: u32,
) -> Option<Refusal> {
    let attachment = reference.attachment;
    or_else(
        use_refusal(
            device,
            attachments,
            features,
            uses,
            reference,
            subpass,
            AttachmentUse::Resolve,
        ),
        if color is None {
            Some(
                Refusal::Error(
                    RenderPassCreationError::SubpassResolveAttachmentWithoutColorAttachment {
                        subpass,
                    },
                ),
            )
        } else if !(attachments[attachment as int].samples is Sample1) {
            Some(
                Refusal::Error(
                    RenderPassCreationError::SubpassResolveAttachmentMultisampled {
                        subpass,
                        attachment,
                    },
                ),
            )
        } else if attachments[color->0.attachment as int].samples is Sample1 {
            Some(
                Refusal::Error(
                    RenderPassCreationError::SubpassColorAttachmentWithResolveNotMultisampled {
                        subpass,
                        attachment,
                    },
                ),
            )
        } else if attachments[attachment as int].format
            != attachments[color->0.attachment as int].format {
            Some(
                Refusal::Error(
                    RenderPassCreationError::SubpassResolveAttachmentFormatMismatch {
                        subpass,
                        resolve_attachment: attachment,
                        color_attachment: color->0.attachment,
                    },
                ),
            )
        } else {
            None
        },
    )
}

/// The resolve attachments from place `from` on, each with the color
/// attachment at its place, held against the rules in their order.
pub open spec fn resolves_from(
    device: &Device,
    attachments: Seq<AttachmentDescription>,
    features: Seq<FormatFeatures>,
    resolves: Seq<Option<AttachmentReference>>,
    colors: Seq<Option<AttachmentReference>>,
    from: int,
    uses: Uses,
    subpass: u32,
) -> Progress
    decreases resolves.len() - from,
{
    if from < 0 || from >= resolves.len() || from >= colors.len() {
        Progress { refusal: None, uses }
    } else {
        match resolves[from] {
            None => resolves_from(
                device,
                attachments,
                features,
                resolves,
                colors,
                from + 1,
                uses,
                subpass,
            ),
            Some(reference) => {
                let refusal = resolve_refusal(
                    device,
                    attachments,
                    features,
                    uses,
                    colors[from],
                    reference,
                    subpass,
                );
                if refusal is Some {
                    Progress { refusal, uses }
                } else {
                    resolves_from(
                        device,
                        attachments,
                        features,
                        resolves,
                        colors,
                        from + 1,
                        after_use(uses, reference),
                        subpass,
                    )
                }
            },
        }
    }
}

/// Holds a resolve attachment against the rules on the color attachment
/// at its place.
fn check_resolved(
    attachments: &Vec<AttachmentDescription>,
    color: &Option<AttachmentReference>,
    reference: &AttachmentReference,
    subpass: u32,
) -> (result: Result<(), RenderPassCreationError>)
    requires
        formats_known(attachments@),
        reference.attachment < attachments.len(),
        color is Some ==> color->0.attachment < attachments.len(),
    ensures
        result is Ok ==> color is Some && attachments[reference.attachment as int].samples
            is Sample1 && !(attachments[color->0.attachment as int].samples is Sample1)
            && attachments[reference.attachment as int].format
            == attachments[color->0.attachment as int].format,
        result matches Err(err) ==> if color is None {
            err == (RenderPassCreationError::SubpassResolveAttachmentWithoutColorAttachment {
                subpass,
            })
        } else if !(attachments[reference.attachment as int].samples is Sample1) {
            err == (RenderPassCreationError::SubpassResolveAttachmentMultisampled {
                subpass,
                attachment: reference.attachment,
            })
        } else if attachments[color->0.attachment as int].samples is Sample1 {
            err == (RenderPassCreationError::SubpassColorAttachmentWithResolveNotMultisampled {
                subpass,
                attachment: reference.attachment,
            })
        } else {
            attachments[reference.attachment as int].format
                != attachments[color->0.attachment as int].format && err
                == (RenderPassCreationError::SubpassResolveAttachmentFormatMismatch {
                subpass,
                resolve_attachment: reference.attachment,
                color_attachment: color->0.attachment,
            })
        },
{
    let attachment = reference.attachment;
    let color_reference = match color {
        Some(color_reference) => color_reference,
        None => {
            return Err(
                RenderPassCreationError::SubpassResolveAttachmentWithoutColorAttachment { subpass },
            );
        },
    };
    let resolved = &attachments[attachment as usize];
    let colored = &attachments[color_reference.attachment as usize];
    match resolved.samples {
        SampleCount::Sample1 => {},
        _ => {
            return Err(
                RenderPassCreationError::SubpassResolveAttachmentMultisampled { subpass, attachment },
            );
        },
    }
    match colored.samples {
        SampleCount::Sample1 => {
            return Err(
                RenderPassCreationError::SubpassColorAttachmentWithResolveNotMultisampled {
                    subpass,
                    attachment,
                },
            );
        },
        _ => {},
    }
    if resolved.format.unwrap() != colored.format.unwrap() {
        return Err(
            RenderPassCreationError::SubpassResolveAttachmentFormatMismatch {
                subpass,
                resolve_attachment: attachment,
                color_attachment: color_reference.attachment,
            },
        );
    }
    Ok(())
}

/// Holds the resolve attachments of a subpass against the rules, in their
/// order.
pub fn check_resolves(
    device: &Device,
    attachments: &Vec<AttachmentDescription>,
    features: &Vec<FormatFeatures>,
    state: &mut UseState,
    resolves: &Vec<Option<AttachmentReference>>,
    colors: &Vec<Option<AttachmentReference>>,
    subpass: u32,
) -> (result: Result<(), RenderPassCreationError>)
    requires
        features.len() == attachments.len(),
        formats_known(attachments@),
        in_range(colors@, attachments.len() as int),
        covers(old(state)@, attachments.len() as int),
    ensures
        covers(final(state)@, attachments.len() as int),
        match resolves_from(
            device,
            attachments@,
            features@,
            resolves@,
            colors@,
            0,
            old(state)@,
            subpass,
        ).refusal {
            None => result is Ok && final(state)@ == resolves_from(
                device,
                attachments@,
                features@,
                resolves@,
                colors@,
                0,
                old(state)@,
                subpass,
            ).uses,
            Some(refusal) => result matches Err(err) && refusal.reported_by(err),
        },
{
    let ghost whole = resolves_from(
        device,
        attachments@,
        features@,
        resolves@,
        colors@,
        0,
        old(state)@,
        subpass,
    );
    let mut i: usize = 0;
    while i < resolves.len() && i < colors.len()
        invariant
            features.len() == attachments.len(),
            formats_known(attachments@),
            in_range(colors@, attachments.len() as int),
            covers(state@, attachments.len() as int),
            whole == resolves_from(
                device,
                attachments@,
                features@,
                resolves@,
                colors@,
                i as int,
                state@,
                subpass,
            ),
            whole == resolves_from(
                device,
                attachments@,
                features@,
                resolves@,
                colors@,
                0,
                old(state)@,
                subpass,
            ),
        decreases resolves.len() - i,
    {
        match &resolves[i] {
            Some(reference) => {
                match check_use(
                    device,
                    attachments,
                    features,
                    state,
                    reference,
                    subpass,
                    AttachmentUse::Resolve,
                ) {
                    Ok(_) => {},
                    Err(err) => {
                        return Err(err);
                    },
                }
                let color = &colors[i];
                assert(colors@[i as int] is Some ==> colors@[i as int]->0.attachment
                    < attachments.len());
                match check_resolved(attachments, color, reference, subpass) {
                    Ok(_) => {},
                    Err(err) => {
                        return Err(err);
                    },
                }
            },
            None => {},
        }
        i += 1;
    }
    Ok(())
}

/// The rule that a preserved attachment breaks, if it breaks one: it is
/// an attachment of the render pass, and the subpass does not use it.
pub open spec fn preserve_refusal(layouts: Seq<Option<ImageLayout>>, attachment: u32, subpass: u32) -> Option<
    Refusal,
> {
    if attachment >= layouts.len() {
        Some(
            Refusal::Error(
                RenderPassCreationError::SubpassAttachmentOutOfRange { subpass, attachment },
            ),
        )
    } else if layouts[attachment as int] is Some {
        Some(
            Refusal::Error(
                RenderPassCreationError::SubpassPreserveAttachmentUsedElsewhere {
                    subpass,
                    attachment,
                },
            ),
        )
    } else {
        None
    }
}

/// The refusals of the preserved attachments of a subpass, by place.
pub open spec fn preserve_refusals(layouts: Seq<Option<ImageLayout>>, preserved: Seq<u32>, subpass: u32) -> Seq<
    Option<Refusal>,
> {
    Seq::new(preserved.len(), |i: int| preserve_refusal(layouts, preserved[i], subpass))
}

/// Holds the preserved attachments of a subpass against the rules, in
/// their order.
pub fn check_preserved(layouts: &Vec<Option<ImageLayout>>, preserved: &Vec<u32>, subpass: u32) -> (result:
    Result<(), RenderPassCreationError>)
    ensures
        match first_refused(preserve_refusals(layouts@, preserved@, subpass), 0) {
            None => result is Ok,
            Some(refusal) => result matches Err(err) && refusal.reported_by(err),
        },
{
    let ghost refusals = preserve_refusals(layouts@, preserved@, subpass);
    let mut i: usize = 0;
    while i < preserved.len()
        invariant
            i <= preserved.len(),
            refusals == preserve_refusals(layouts@, preserved@, subpass),
            forall|k: int| 0 <= k < i ==> (#[trigger] refusals[k]) is None,
        decreases preserved.len() - i,
    {
        let attachment = preserved[i];
        if attachment as usize >= layouts.len() {
            proof {
                lemma_first_refused_skip(refusals, 0, i as int);
            }
            return Err(RenderPassCreationError::SubpassAttachmentOutOfRange { subpass, attachment });
        }
        if layouts[attachment as usize].is_some() {
            proof {
                lemma_first_refused_skip(refusals, 0, i as int);
            }
            return Err(
                RenderPassCreationError::SubpassPreserveAttachmentUsedElsewhere {
                    subpass,
                    attachment,
                },
            );
        }
        i += 1;
    }
    proof {
        lemma_first_refused_skip(refusals, 0, preserved.len() as int);
    }
    Ok(())
}

/// The largest number of views of a render pass on the device: zero where
/// the device names none.
pub open spec fn max_views(device: &Device) -> u32 {
    match device.physical_device.properties.max_multiview_view_count {
        Some(max) => max,
        None => 0,
    }
}

/// The first rule that a subpass breaks by its views and by the number of
/// its color attachments, if it breaks one.
pub open spec fn head_refusal(
    device: &Device,
    is_multiview: bool,
    subpass: SubpassDescription,
    num: u32,
) -> Option<Refusal> {
    let multiview = subpass.view_mask != 0;
    let max_colors = device.physical_device.properties.max_color_attachments;
    if multiview != is_multiview {
        Some(
            Refusal::Error(
                RenderPassCreationError::SubpassMultiviewMismatch {
                    subpass: num,
                    multiview,
                    first_subpass_multiview: is_multiview,
                },
            ),
        )
    } else if bit_length(subpass.view_mask) > max_views(device) {
        Some(
            Refusal::Error(
                RenderPassCreationError::SubpassMaxMultiviewViewCountExceeded {
                    subpass: num,
                    view_count: bit_length(subpass.view_mask) as u32,
                    max: max_views(device),
                },
            ),
        )
    } else if subpass.color_attachments@.len() > max_colors {
        Some(
            Refusal::Error(
                RenderPassCreationError::SubpassMaxColorAttachmentsExceeded {
                    subpass: num,
                    color_attachment_count: subpass.color_attachments@.len() as u32,
                    max: max_colors,
                },
            ),
        )
    } else {
        None
    }
}

/// The rule on the number of the resolve attachments of a subpass, where
/// it is broken: there are none, or as many as color attachments.
pub open spec fn resolve_count_refusal(subpass: SubpassDescription, num: u32) -> Option<Refusal> {
    if subpass.resolve_attachments@.len() == 0 || subpass.resolve_attachments@.len()
        == subpass.color_attachments@.len() {
        None
    } else {
        Some(
            Refusal::Error(
                RenderPassCreationError::SubpassResolveAttachmentsColorAttachmentsLenMismatch {
                    subpass: num,
                },
            ),
        )
    }
}

/// What the rules make of one subpass.
pub struct SubpassOutcome {
    /// The first rule that the subpass breaks, if it breaks one.
    pub refusal: Option<Refusal>,
    /// The input attachments of the subpass as the rules leave them.
    pub inputs: Seq<Option<AttachmentReference>>,
    /// Whether this subpass or an earlier one has used each attachment,
    /// where the subpass breaks no rule.
    pub used: Seq<bool>,
}

/// What is known of `count` attachments at the start of a subpass.
pub open spec fn at_start(count: int, used: Seq<bool>) -> Uses {
    Uses { layouts: Seq::new(count as nat, |i: int| None), used, samples: None }
}

/// A subpass held against the rules: first its views and the number of
/// its color attachments, then the attachments that it uses.
pub open spec fn subpass_outcome(
    device: &Device,
    attachments: Seq<AttachmentDescription>,
    features: Seq<FormatFeatures>,
    is_multiview: bool,
    subpass: SubpassDescription,
    used: Seq<bool>,
    num: u32,
) -> SubpassOutcome {
    let head = head_refusal(device, is_multiview, subpass, num);
    let colors = colors_from(
        device,
        attachments,
        features,
        subpass.color_attachments@,
        0,
        at_start(attachments.len() as int, used),
        num,
    );
    let depth_stencil = depth_stencil_step(
        device,
        attachments,
        features,
        colors.uses,
        subpass.color_attachments@,
        subpass.depth_stencil_attachment,
        num,
    );
    let inputs = inputs_from(
        device,
        attachments,
        features,
        subpass.input_attachments@,
        0,
        depth_stencil.uses,
        num,
    );
    let resolves = resolves_from(
        device,
        attachments,
        features,
        subpass.resolve_attachments@,
        subpass.color_attachments@,
        0,
        inputs.uses,
        num,
    );
    let early = or_else(head, or_else(colors.refusal, depth_stencil.refusal));
    if early is Some {
        SubpassOutcome { refusal: early, inputs: subpass.input_attachments@, used }
    } else {
        SubpassOutcome {
            refusal: or_else(
                inputs.refusal,
                or_else(
                    resolve_count_refusal(subpass, num),
                    or_else(
                        resolves.refusal,
                        first_refused(
                            preserve_refusals(
                                resolves.uses.layouts,
                                subpass.preserve_attachments@,
                                num,
                            ),
                            0,
                        ),
                    ),
                ),
            ),
            inputs: inputs.references,
            used: resolves.uses.used,
        }
    }
}

/// Whether two subpasses differ in nothing but their input attachments.
pub open spec fn same_but_inputs(a: SubpassDescription, b: SubpassDescription) -> bool {
    a.view_mask == b.view_mask && a.color_attachments@ == b.color_attachments@
        && a.resolve_attachments@ == b.resolve_attachments@ && a.depth_stencil_attachment
        == b.depth_stencil_attachment && a.preserve_attachments@ == b.preserve_attachments@
}

/// A list that names a layout for none of `count` attachments.
fn no_layouts(count: usize) -> (layouts: Vec<Option<ImageLayout>>)
    ensures
        layouts@ == Seq::new(count as nat, |i: int| None::<ImageLayout>),
{
    let mut layouts: Vec<Option<ImageLayout>> = Vec::new();
    let mut i: usize = 0;
    while i < count
        invariant
            i <= count,
            layouts@ == Seq::new(i as nat, |k: int| None::<ImageLayout>),
        decreases count - i,
    {
        layouts.push(None);
        assert(layouts@ =~= Seq::new((i + 1) as nat, |k: int| None::<ImageLayout>));
        i += 1;
    }
    layouts
}

/// Holds the views and the number of the color attachments of a subpass
/// against the rules, and gives the number of its views.
pub fn check_head(device: &Device, is_multiview: bool, subpass: &SubpassDescription, num: u32) -> (result:
    Result<u32, RenderPassCreationError>)
    requires
        subpass.color_attachments.len() <= u32::MAX,
    ensures
        match head_refusal(device, is_multiview, *subpass, num) {
            None => result == Ok::<u32, RenderPassCreationError>(
                bit_length(subpass.view_mask) as u32,
            ),
            Some(refusal) => result matches Err(err) && refusal.reported_by(err),
        },
{
    let multiview = subpass.view_mask != 0;
    if multiview != is_multiview {
        return Err(
            RenderPassCreationError::SubpassMultiviewMismatch {
                subpass: num,
                multiview,
                first_subpass_multiview: is_multiview,
            },
        );
    }
    let view_count = bits_of(subpass.view_mask);
    let max = match device.physical_device.properties.max_multiview_view_count {
        Some(max) => max,
        None => 0,
    };
    if view_count > max {
        return Err(
            RenderPassCreationError::SubpassMaxMultiviewViewCountExceeded {
                subpass: num,
                view_count,
                max,
            },
        );
    }
    let color_attachment_count = subpass.color_attachments.len() as u32;
    let max_colors = device.physical_device.properties.max_color_attachments;
    if color_attachment_count > max_colors {
        return Err(
            RenderPassCreationError::SubpassMaxColorAttachmentsExceeded {
                subpass: num,
                color_attachment_count,
                max: max_colors,
            },
        );
    }
    Ok(view_count)
}

/// Holds a subpass against the rules, gives each of its input attachments
/// that names no aspects those of the format of its attachment, and notes
/// in `state` which attachments the subpass uses. Gives the number of the
/// views of the subpass.
pub fn check_subpass(
    device: &Device,
    attachments: &Vec<AttachmentDescription>,
    features: &Vec<FormatFeatures>,
    is_multiview: bool,
    subpass: &mut SubpassDescription,
    state: &mut UseState,
    num: u32,
) -> (result: Result<u32, RenderPassCreationError>)
    requires
        features.len() == attachments.len(),
        formats_known(attachments@),
        old(state).used.len() == attachments.len(),
        old(subpass).color_attachments.len() <= u32::MAX,
    ensures
        final(state).used.len() == attachments.len(),
        same_but_inputs(*old(subpass), *final(subpass)),
        final(subpass).input_attachments@ == subpass_outcome(
            device,
            attachments@,
            features@,
            is_multiview,
            *old(subpass),
            old(state).used@,
            num,
        ).inputs,
        match subpass_outcome(
            device,
            attachments@,
            features@,
            is_multiview,
            *old(subpass),
            old(state).used@,
            num,
        ).refusal {
            None => result == Ok::<u32, RenderPassCreationError>(
                bit_length(old(subpass).view_mask) as u32,
            ) && final(state).used@ == subpass_outcome(
                device,
                attachments@,
                features@,
                is_multiview,
                *old(subpass),
                old(state).used@,
                num,
            ).used,
            Some(refusal) => result matches Err(err) && refusal.reported_by(err),
        },
{
    let view_count = match check_head(device, is_multiview, subpass, num) {
        Ok(view_count) => view_count,
        Err(err) => {
            return Err(err);
        },
    };
    state.layouts = no_layouts(attachments.len());
    state.samples = None;
    assert(state@ == at_start(attachments.len() as int, old(state).used@));
    match check_colors(device, attachments, features, state, &subpass.color_attachments, num) {
        Ok(_) => {},
        Err(err) => {
            return Err(err);
        },
    }
    match check_depth_stencil(
        device,
        attachments,
        features,
        state,
        &subpass.color_attachments,
        &subpass.depth_stencil_attachment,
        num,
    ) {
        Ok(_) => {},
        Err(err) => {
            return Err(err);
        },
    }
    match check_inputs(device, attachments, features, state, &mut subpass.input_attachments, num) {
        Ok(_) => {},
        Err(err) => {
            return Err(err);
        },
    }
    if !(subpass.resolve_attachments.len() == 0 || subpass.resolve_attachments.len()
        == subpass.color_attachments.len()) {
        return Err(
            RenderPassCreationError::SubpassResolveAttachmentsColorAttachmentsLenMismatch {
                subpass: num,
            },
        );
    }
    match check_resolves(
        device,
        attachments,
        features,
        state,
        &subpass.resolve_attachments,
        &subpass.color_attachments,
        num,
    ) {
        Ok(_) => {},
        Err(err) => {
            return Err(err);
        },
    }
    match check_preserved(&state.layouts, &subpass.preserve_attachments, num) {
        Ok(_) => {},
        Err(err) => {
            return Err(err);
        },
    }
    Ok(view_count)
}

} // verus!
