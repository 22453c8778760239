//! What the errors of the creation of a render pass say.

use crate::decimal;
use crate::decimal_spec;
use crate::image::SampleCount;
use crate::render_pass::create::RenderPassCreationError;
use vstd::prelude::*;

verus! {

/// A truth value in words.
pub open spec fn bool_text(value: bool) -> Seq<char> {
    if value {
        "true"@
    } else {
        "false"@
    }
}

/// A truth value in words.
fn bool_name(value: bool) -> (name: &'static str)
    ensures
        name@ == bool_text(value),
{
    if value {
        "true"
    } else {
        "false"
    }
}

/// The name of a number of samples.
pub open spec fn samples_text(samples: SampleCount) -> Seq<char> {
    match samples {
        SampleCount::Sample1 => "Sample1"@,
        SampleCount::Sample2 => "Sample2"@,
        SampleCount::Sample4 => "Sample4"@,
        SampleCount::Sample8 => "Sample8"@,
        SampleCount::Sample16 => "Sample16"@,
        SampleCount::Sample32 => "Sample32"@,
        SampleCount::Sample64 => "Sample64"@,
    }
}

/// The name of a number of samples.
fn samples_name(samples: SampleCount) -> (name: &'static str)
    ensures
        name@ == samples_text(samples),
{
    match samples {
        SampleCount::Sample1 => "Sample1",
        SampleCount::Sample2 => "Sample2",
        SampleCount::Sample4 => "Sample4",
        SampleCount::Sample8 => "Sample8",
        SampleCount::Sample16 => "Sample16",
        SampleCount::Sample32 => "Sample32",
        SampleCount::Sample64 => "Sample64",
    }
}

impl RenderPassCreationError {
    /// What the error says: a sentence for each kind of error, with the
    /// numbers of the attachments, subpasses and dependencies that it is
    /// about written in decimal figures.
    pub open spec fn to_string_spec(self) -> Seq<char> {
        match self {
            RenderPassCreationError::OomError(_) => "not enough memory available"@,
            RenderPassCreationError::RequirementNotMet { required_for, requires_one_of, .. } => "a requirement was not met for: "@ + required_for@ + "; requires one of: "@ + requires_one_of.to_string_spec(),
            RenderPassCreationError::AttachmentFirstUseLoadOpInvalid { attachment, first_use_subpass, .. } => "attachment "@ + decimal_spec(attachment as nat) + " is first used in the render pass in subpass "@ + decimal_spec(first_use_subpass as nat) + " with a read-only layout or as an input attachment, but its `load_op` or `stencil_load_op` is `LoadOp::Clear`"@,
            RenderPassCreationError::AttachmentLayoutInvalid { attachment, .. } => "attachment "@ + decimal_spec(attachment as nat) + " has an `initial_layout` or `final_layout` value that is invalid for the provided `format`"@,
            RenderPassCreationError::CorrelatedViewMasksMultiviewNotEnabled => "correlated view masks were included, but multiview is not enabled on the render pass"@,
            RenderPassCreationError::CorrelatedViewMasksOverlapping => "the provided correlated view masks contain a bit that is set in more than one element"@,
            RenderPassCreationError::DependencyAccessNotSupportedByStages { dependency, .. } => "subpass dependency "@ + decimal_spec(dependency as nat) + " specified an access type that was not supported by the given stages"@,
            RenderPassCreationError::DependencySelfDependencyFramebufferStagesWithoutByRegion { dependency, .. } => "subpass dependency "@ + decimal_spec(dependency as nat) + " specifies a subpass self-dependency and includes framebuffer stages in both `source_stages` and `destination_stages`, but the `by_region` dependency was not enabled"@,
            RenderPassCreationError::DependencySelfDependencySourceStageAfterDestinationStage { dependency, .. } => "subpass dependency "@ + decimal_spec(dependency as nat) + " specifies a subpass self-dependency and includes non-framebuffer stages, but the latest stage in `source_stages` is after the earliest stage in `destination_stages`"@,
            RenderPassCreationError::DependencySelfDependencyViewLocalNonzeroOffset { dependency, .. } => "subpass dependency "@ + decimal_spec(dependency as nat) + " specifies a subpass self-dependency and has the `view_local` dependency enabled, but the inner offset value was not 0"@,
            RenderPassCreationError::DependencySelfDependencyViewMaskMultiple { dependency, subpass, .. } => "subpass dependency "@ + decimal_spec(dependency as nat) + " specifies a subpass self-dependency without the `view_local` dependency, but the referenced subpass "@ + decimal_spec(subpass as nat) + " has more than one bit set in its `view_mask`"@,
            RenderPassCreationError::DependencySourceSubpassAfterDestinationSubpass { dependency, .. } => "subpass dependency "@ + decimal_spec(dependency as nat) + " has a `source_subpass` that is later than the `destination_subpass`"@,
            RenderPassCreationError::DependencyStageNotSupported { dependency, .. } => "subpass dependency "@ + decimal_spec(dependency as nat) + " has a bit set in the `source_stages` or `destination_stages` that is not supported for graphics pipelines"@,
            RenderPassCreationError::DependencyBothSubpassesExternal { dependency, .. } => "subpass dependency "@ + decimal_spec(dependency as nat) + " has both `source_subpass` and `destination_subpass` set to `None`"@,
            RenderPassCreationError::DependencySubpassOutOfRange { dependency, subpass, .. } => "the subpass index "@ + decimal_spec(subpass as nat) + " in subpass dependency "@ + decimal_spec(dependency as nat) + " is not less than the number of subpasses in the render pass"@,
            RenderPassCreationError::DependencyViewLocalExternalDependency { dependency, .. } => "subpass dependency "@ + decimal_spec(dependency as nat) + " has the `view_local` dependency enabled, but `source_subpass` or `destination_subpass` were set to `None`"@,
            RenderPassCreationError::DependencyViewLocalMultiviewNotEnabled { dependency, .. } => "subpass dependency "@ + decimal_spec(dependency as nat) + " has the `view_local` dependency enabled, but multiview is not enabled on the render pass"@,
            RenderPassCreationError::SubpassAttachmentAspectsNotEmpty { subpass, attachment, .. } => "a reference to attachment "@ + decimal_spec(attachment as nat) + " used other than as an input attachment in subpass "@ + decimal_spec(subpass as nat) + " has one or more aspects selected"@,
            RenderPassCreationError::SubpassAttachmentLayoutMismatch { subpass, attachment, .. } => "the layouts of all uses of attachment "@ + decimal_spec(attachment as nat) + " in subpass "@ + decimal_spec(subpass as nat) + " do not match."@,
            RenderPassCreationError::SubpassAttachmentLayoutInvalid { subpass, attachment, usage, .. } => "attachment "@ + decimal_spec(attachment as nat) + " used as "@ + usage@ + " attachment in subpass "@ + decimal_spec(subpass as nat) + " has a layout that is not supported for that usage"@,
            RenderPassCreationError::SubpassAttachmentOutOfRange { subpass, attachment, .. } => "the attachment index "@ + decimal_spec(attachment as nat) + " in subpass "@ + decimal_spec(subpass as nat) + " is not less than the number of attachments in the render pass"@,
            RenderPassCreationError::SubpassAttachmentUsageColorDepthStencil { subpass, attachment, .. } => "attachment "@ + decimal_spec(attachment as nat) + " is used as both a color attachment and a depth/stencil attachment in subpass "@ + decimal_spec(subpass as nat),
            RenderPassCreationError::SubpassAttachmentFormatUsageNotSupported { subpass, attachment, usage, .. } => "attachment "@ + decimal_spec(attachment as nat) + " used as "@ + usage@ + " attachment in subpass "@ + decimal_spec(subpass as nat) + " has a format that does not support that usage"@,
            RenderPassCreationError::SubpassColorAttachmentWithResolveNotMultisampled { subpass, attachment, .. } => "attachment "@ + decimal_spec(attachment as nat) + " used as a color attachment in subpass "@ + decimal_spec(subpass as nat) + " with resolve attachments has a `samples` value of `SampleCount::Sample1`"@,
            RenderPassCreationError::SubpassColorDepthStencilAttachmentSamplesMismatch { subpass, attachment, samples, first_samples, .. } => "attachment "@ + decimal_spec(attachment as nat) + " used as a color or depth/stencil attachment in subpass "@ + decimal_spec(subpass as nat) + " has a `samples` value "@ + samples_text(samples) + " that is different from the first color attachment ("@ + samples_text(first_samples) + ")"@,
            RenderPassCreationError::SubpassInputAttachmentAspectsNotCompatible { subpass, attachment, .. } => "a reference to attachment "@ + decimal_spec(attachment as nat) + " used as an input attachment in subpass "@ + decimal_spec(subpass as nat) + " selects aspects that are not present in the format of the attachment"@,
            RenderPassCreationError::SubpassMaxColorAttachmentsExceeded { .. } => "the `max_color_attachments` limit has been exceeded"@,
            RenderPassCreationError::SubpassMaxMultiviewViewCountExceeded { .. } => "the `max_multiview_view_count` limit has been exceeded for a subpass"@,
            RenderPassCreationError::SubpassMultiviewMismatch { subpass, multiview, first_subpass_multiview, .. } => "the multiview state (whether `view_mask` is nonzero) of subpass "@ + decimal_spec(subpass as nat) + " is "@ + bool_text(multiview) + ", which is different from the first subpass ("@ + bool_text(first_subpass_multiview) + ")"@,
            RenderPassCreationError::SubpassPreserveAttachmentUsedElsewhere { subpass, attachment, .. } => "attachment "@ + decimal_spec(attachment as nat) + " marked as a preserve attachment in subpass "@ + decimal_spec(subpass as nat) + " is also used as an attachment in that subpass"@,
            RenderPassCreationError::SubpassResolveAttachmentsColorAttachmentsLenMismatch { subpass, .. } => "the `resolve_attachments` field of subpass "@ + decimal_spec(subpass as nat) + " was not empty, but its length did not match the length of `color_attachments`"@,
            RenderPassCreationError::SubpassResolveAttachmentFormatMismatch { subpass, resolve_attachment, color_attachment, .. } => "attachment "@ + decimal_spec(subpass as nat) + " used as a resolve attachment in subpass "@ + decimal_spec(resolve_attachment as nat) + " has a `format` value different from the corresponding color attachment "@ + decimal_spec(color_attachment as nat),
            RenderPassCreationError::SubpassResolveAttachmentMultisampled { subpass, attachment, .. } => "attachment "@ + decimal_spec(attachment as nat) + " used as a resolve attachment in subpass "@ + decimal_spec(subpass as nat) + " has a `samples` value other than `SampleCount::Sample1`"@,
            RenderPassCreationError::SubpassResolveAttachmentWithoutColorAttachment { subpass, .. } => "a resolve attachment in subpass "@ + decimal_spec(subpass as nat) + " is `Some`, but the corresponding color attachment is `None`"@,
        }
    }

    /// What the error says, in words.
    pub fn to_string(&self) -> (text: String)
        ensures
            text@ == self.to_string_spec(),
    {
        match self {
            RenderPassCreationError::OomError(_) => "not enough memory available".to_owned(),
            RenderPassCreationError::RequirementNotMet { required_for, requires_one_of, .. } => {
                let mut text = "a requirement was not met for: ".to_owned();
                text.append(required_for);
                text.append("; requires one of: ");
                text.append(requires_one_of.to_string().as_str());
                text
            },
            RenderPassCreationError::AttachmentFirstUseLoadOpInvalid { attachment, first_use_subpass, .. } => {
                let mut text = "attachment ".to_owned();
                text.append(decimal(*attachment).as_str());
                text.append(" is first used in the render pass in subpass ");
                text.append(decimal(*first_use_subpass).as_str());
                text.append(" with a read-only layout or as an input attachment, but its `load_op` or `stencil_load_op` is `LoadOp::Clear`");
                text
            },
            RenderPassCreationError::AttachmentLayoutInvalid { attachment, .. } => {
                let mut text = "attachment ".to_owned();
                text.append(decimal(*attachment).as_str());
                text.append(" has an `initial_layout` or `final_layout` value that is invalid for the provided `format`");
                text
            },
            RenderPassCreationError::CorrelatedViewMasksMultiviewNotEnabled => "correlated view masks were included, but multiview is not enabled on the render pass".to_owned(),
            RenderPassCreationError::CorrelatedViewMasksOverlapping => "the provided correlated view masks contain a bit that is set in more than one element".to_owned(),
            RenderPassCreationError::DependencyAccessNotSupportedByStages { dependency, .. } => {
                let mut text = "subpass dependency ".to_owned();
                text.append(decimal(*dependency).as_str());
                text.append(" specified an access type that was not supported by the given stages");
                text
            },
            RenderPassCreationError::DependencySelfDependencyFramebufferStagesWithoutByRegion { dependency, .. } => {
                let mut text = "subpass dependency ".to_owned();
                text.append(decimal(*dependency).as_str());
                text.append(" specifies a subpass self-dependency and includes framebuffer stages in both `source_stages` and `destination_stages`, but the `by_region` dependency was not enabled");
                text
            },
            RenderPassCreationError::DependencySelfDependencySourceStageAfterDestinationStage { dependency, .. } => {
                let mut text = "subpass dependency ".to_owned();
                text.append(decimal(*dependency).as_str());
                text.append(" specifies a subpass self-dependency and includes non-framebuffer stages, but the latest stage in `source_stages` is after the earliest stage in `destination_stages`");
                text
            },
            RenderPassCreationError::DependencySelfDependencyViewLocalNonzeroOffset { dependency, .. } => {
                let mut text = "subpass dependency ".to_owned();
                text.append(decimal(*dependency).as_str());
                text.append(" specifies a subpass self-dependency and has the `view_local` dependency enabled, but the inner offset value was not 0");
                text
            },
            RenderPassCreationError::DependencySelfDependencyViewMaskMultiple { dependency, subpass, .. } => {
                let mut text = "subpass dependency ".to_owned();
                text.append(decimal(*dependency).as_str());
                text.append(" specifies a subpass self-dependency without the `view_local` dependency, but the referenced subpass ");
                text.append(decimal(*subpass).as_str());
                text.append(" has more than one bit set in its `view_mask`");
                text
            },
            RenderPassCreationError::DependencySourceSubpassAfterDestinationSubpass { dependency, .. } => {
                let mut text = "subpass dependency ".to_owned();
                text.append(decimal(*dependency).as_str());
                text.append(" has a `source_subpass` that is later than the `destination_subpass`");
                text
            },
            RenderPassCreationError::DependencyStageNotSupported { dependency, .. } => {
                let mut text = "subpass dependency ".to_owned();
                text.append(decimal(*dependency).as_str());
                text.append(" has a bit set in the `source_stages` or `destination_stages` that is not supported for graphics pipelines");
                text
            },
            RenderPassCreationError::DependencyBothSubpassesExternal { dependency, .. } => {
                let mut text = "subpass dependency ".to_owned();
                text.append(decimal(*dependency).as_str());
                text.append(" has both `source_subpass` and `destination_subpass` set to `None`");
                text
            },
            RenderPassCreationError::DependencySubpassOutOfRange { dependency, subpass, .. } => {
                let mut text = "the subpass index ".to_owned();
                text.append(decimal(*subpass).as_str());
                text.append(" in subpass dependency ");
                text.append(decimal(*dependency).as_str());
                text.append(" is not less than the number of subpasses in the render pass");
                text
            },
            RenderPassCreationError::DependencyViewLocalExternalDependency { dependency, .. } => {
                let mut text = "subpass dependency ".to_owned();
                text.append(decimal(*dependency).as_str());
                text.append(" has the `view_local` dependency enabled, but `source_subpass` or `destination_subpass` were set to `None`");
                text
            },
            RenderPassCreationError::DependencyViewLocalMultiviewNotEnabled { dependency, .. } => {
                let mut text = "subpass dependency ".to_owned();
                text.append(decimal(*dependency).as_str());
                text.append(" has the `view_local` dependency enabled, but multiview is not enabled on the render pass");
                text
            },
            RenderPassCreationError::SubpassAttachmentAspectsNotEmpty { subpass, attachment, .. } => {
                let mut text = "a reference to attachment ".to_owned();
                text.append(decimal(*attachment).as_str());
                text.append(" used other than as an input attachment in subpass ");
                text.append(decimal(*subpass).as_str());
                text.append(" has one or more aspects selected");
                text
            },
            RenderPassCreationError::SubpassAttachmentLayoutMismatch { subpass, attachment, .. } => {
                let mut text = "the layouts of all uses of attachment ".to_owned();
                text.append(decimal(*attachment).as_str());
                text.append(" in subpass ");
                text.append(decimal(*subpass).as_str());
                text.append(" do not match.");
                text
            },
            RenderPassCreationError::SubpassAttachmentLayoutInvalid { subpass, attachment, usage, .. } => {
                let mut text = "attachment ".to_owned();
                text.append(decimal(*attachment).as_str());
                text.append(" used as ");
                text.append(usage);
                text.append(" attachment in subpass ");
                text.append(decimal(*subpass).as_str());
                text.append(" has a layout that is not supported for that usage");
                text
            },
            RenderPassCreationError::SubpassAttachmentOutOfRange { subpass, attachment, .. } => {
                let mut text = "the attachment index ".to_owned();
                text.append(decimal(*attachment).as_str());
                text.append(" in subpass ");
                text.append(decimal(*subpass).as_str());
                text.append(" is not less than the number of attachments in the render pass");
                text
            },
            RenderPassCreationError::SubpassAttachmentUsageColorDepthStencil { subpass, attachment, .. } => {
                let mut text = "attachment ".to_owned();
                text.append(decimal(*attachment).as_str());
                text.append(" is used as both a color attachment and a depth/stencil attachment in subpass ");
                text.append(decimal(*subpass).as_str());
                text
            },
            RenderPassCreationError::SubpassAttachmentFormatUsageNotSupported { subpass, attachment, usage, .. } => {
                let mut text = "attachment ".to_owned();
                text.append(decimal(*attachment).as_str());
                text.append(" used as ");
                text.append(usage);
                text.append(" attachment in subpass ");
                text.append(decimal(*subpass).as_str());
                text.append(" has a format that does not support that usage");
                text
            },
            RenderPassCreationError::SubpassColorAttachmentWithResolveNotMultisampled { subpass, attachment, .. } => {
                let mut text = "attachment ".to_owned();
                text.append(decimal(*attachment).as_str());
                text.append(" used as a color attachment in subpass ");
                text.append(decimal(*subpass).as_str());
                text.append(" with resolve attachments has a `samples` value of `SampleCount::Sample1`");
                text
            },
            RenderPassCreationError::SubpassColorDepthStencilAttachmentSamplesMismatch { subpass, attachment, samples, first_samples, .. } => {
                let mut text = "attachment ".to_owned();
                text.append(decimal(*attachment).as_str());
                text.append(" used as a color or depth/stencil attachment in subpass ");
                text.append(decimal(*subpass).as_str());
                text.append(" has a `samples` value ");
                text.append(samples_name(*samples));
                text.append(" that is different from the first color attachment (");
                text.append(samples_name(*first_samples));
                text.append(")");
                text
            },
            RenderPassCreationError::SubpassInputAttachmentAspectsNotCompatible { subpass, attachment, .. } => {
                let mut text = "a reference to attachment ".to_owned();
                text.append(decimal(*attachment).as_str());
                text.append(" used as an input attachment in subpass ");
                text.append(decimal(*subpass).as_str());
                text.append(" selects aspects that are not present in the format of the attachment");
                text
            },
            RenderPassCreationError::SubpassMaxColorAttachmentsExceeded { .. } => "the `max_color_attachments` limit has been exceeded".to_owned(),
            RenderPassCreationError::SubpassMaxMultiviewViewCountExceeded { .. } => "the `max_multiview_view_count` limit has been exceeded for a subpass".to_owned(),
            RenderPassCreationError::SubpassMultiviewMismatch { subpass, multiview, first_subpass_multiview, .. } => {
                let mut text = "the multiview state (whether `view_mask` is nonzero) of subpass ".to_owned();
                text.append(decimal(*subpass).as_str());
                text.append(" is ");
                text.append(bool_name(*multiview));
                text.append(", which is different from the first subpass (");
                text.append(bool_name(*first_subpass_multiview));
                text.append(")");
                text
            },
            RenderPassCreationError::SubpassPreserveAttachmentUsedElsewhere { subpass, attachment, .. } => {
                let mut text = "attachment ".to_owned();
                text.append(decimal(*attachment).as_str());
                text.append(" marked as a preserve attachment in subpass ");
                text.append(decimal(*subpass).as_str());
                text.append(" is also used as an attachment in that subpass");
                text
            },
            RenderPassCreationError::SubpassResolveAttachmentsColorAttachmentsLenMismatch { subpass, .. } => {
                let mut text = "the `resolve_attachments` field of subpass ".to_owned();
                text.append(decimal(*subpass).as_str());
                text.append(" was not empty, but its length did not match the length of `color_attachments`");
                text
            },
            RenderPassCreationError::SubpassResolveAttachmentFormatMismatch { subpass, resolve_attachment, color_attachment, .. } => {
                let mut text = "attachment ".to_owned();
                text.append(decimal(*subpass).as_str());
                text.append(" used as a resolve attachment in subpass ");
                text.append(decimal(*resolve_attachment).as_str());
                text.append(" has a `format` value different from the corresponding color attachment ");
                text.append(decimal(*color_attachment).as_str());
                text
            },
            RenderPassCreationError::SubpassResolveAttachmentMultisampled { subpass, attachment, .. } => {
                let mut text = "attachment ".to_owned();
                text.append(decimal(*attachment).as_str());
                text.append(" used as a resolve attachment in subpass ");
                text.append(decimal(*subpass).as_str());
                text.append(" has a `samples` value other than `SampleCount::Sample1`");
                text
            },
            RenderPassCreationError::SubpassResolveAttachmentWithoutColorAttachment { subpass, .. } => {
                let mut text = "a resolve attachment in subpass ".to_owned();
                text.append(decimal(*subpass).as_str());
                text.append(" is `Some`, but the corresponding color attachment is `None`");
                text
            },
        }
    }
}

} // verus!
