//! Description of the steps of the rendering process, and the images used as input or output.

use crate::format::Format;
use crate::image::{ImageAspects, ImageLayout, SampleCount};
use crate::sync::{AccessFlags, PipelineStages};
use vstd::prelude::*;

pub mod arrange;
pub mod create;
pub mod message;
pub mod subpass;

verus! {

/// Describes what the implementation should do with an attachment at the start of the subpass
/// that first uses it.
#[derive(Clone, Copy, Debug, PartialEq, Eq, Structural)]
pub enum LoadOp {
    /// The content of the attachment will be loaded from memory.
    Load,
    /// The content of the attachment will be filled by the implementation with a uniform value
    /// that you must provide when you start drawing.
    Clear,
    /// The attachment will have undefined content.
    DontCare,
}

/// Describes what the implementation should do with an attachment after all the subpasses have
/// completed.
#[derive(Clone, Copy, Debug, PartialEq, Eq, Structural)]
pub enum StoreOp {
    /// The attachment will be stored.
    Store,
    /// What happens is implementation-specific.
    DontCare,
}

/// Describes an attachment that will be used in a render pass.
#[derive(Clone, Copy, Debug, PartialEq, Eq, Structural)]
pub struct AttachmentDescription {
    /// The format of the image that is going to be bound.
    pub format: Option<Format>,
    /// The number of samples of the image that is going to be bound.
    pub samples: SampleCount,
    /// What the implementation should do with the attachment at the start of the subpass that
    /// first uses it.
    pub load_op: LoadOp,
    /// What the implementation should do with the attachment at the end of the subpass that last
    /// uses it.
    pub store_op: StoreOp,
    /// The equivalent of `load_op` for the stencil component of the attachment, if any.
    pub stencil_load_op: LoadOp,
    /// The equivalent of `store_op` for the stencil component of the attachment, if any.
    pub stencil_store_op: StoreOp,
    /// The layout that the image must in before the render pass begins.
    pub initial_layout: ImageLayout,
    /// The layout that the image will be transitioned to when the render pass ends.
    pub final_layout: ImageLayout,
}

/// A reference in a subpass description to a particular attachment of the render pass.
#[derive(Clone, Copy, Debug, PartialEq, Eq, Structural)]
pub struct AttachmentReference {
    /// The number of the attachment being referred to.
    pub attachment: u32,
    /// The image layout that the attachment should be transitioned to at the start of the
    /// subpass.
    pub layout: ImageLayout,
    /// For references to input attachments, the aspects of the image that should be selected.
    /// For attachment types other than input attachments, the value must be empty.
    ///
    /// If empty, all aspects available in the input attachment's `format` will be selected.
    pub aspects: ImageAspects,
}

/// Describes one of the subpasses of a render pass.
#[derive(Clone, Debug, PartialEq, Eq)]
pub struct SubpassDescription {
    /// If not `0`, enables multiview rendering, and specifies the view indices that are rendered
    /// to in this subpass. The value is a bitmask, so that that for example `0b11` will draw to
    /// the first two views and `0b101` will draw to the first and third view.
    pub view_mask: u32,
    /// The attachments of the render pass that are to be used as input attachments in this
    /// subpass.
    pub input_attachments: Vec<Option<AttachmentReference>>,
    /// The attachments of the render pass that are to be used as color attachments in this
    /// subpass.
    pub color_attachments: Vec<Option<AttachmentReference>>,
    /// The attachments of the render pass that are to be used as resolve attachments in this
    /// subpass.
    ///
    /// This list must either be empty or match the length of `color_attachments`.
    pub resolve_attachments: Vec<Option<AttachmentReference>>,
    /// The single attachment of the render pass that is to be used as depth-stencil attachment in
    /// this subpass.
    pub depth_stencil_attachment: Option<AttachmentReference>,
    /// The indices of attachments of the render pass that will be preserved during this subpass.
    pub preserve_attachments: Vec<u32>,
}

/// A dependency between two subpasses of a render pass.
#[derive(Clone, Copy, Debug, PartialEq, Eq, Structural)]
pub struct SubpassDependency {
    /// The index of the subpass that writes the data that `destination_subpass` is going to use.
    ///
    /// `None` specifies an external dependency.
    pub source_subpass: Option<u32>,
    /// The index of the subpass that reads the data that `source_subpass` wrote.
    ///
    /// `None` specifies an external dependency.
    pub destination_subpass: Option<u32>,
    /// The pipeline stages that must be finished on `source_subpass` before the
    /// `destination_stages` of `destination_subpass` can start.
    pub source_stages: PipelineStages,
    /// The pipeline stages of `destination_subpass` that must wait for the `source_stages` of
    /// `source_subpass` to be finished.
    pub destination_stages: PipelineStages,
    /// The way `source_subpass` accesses the attachments on which we depend.
    pub source_access: AccessFlags,
    /// The way `destination_subpass` accesses the attachments on which we depend.
    pub destination_access: AccessFlags,
    /// If false, then the source operations must be fully finished for the destination operations
    /// to start. If true, then the implementation can start the destination operation for some
    /// given pixels as long as the source operation is finished for these given pixels.
    pub by_region: bool,
    /// If multiview rendering is being used, and this is `Some`, specifies the relative offset
    /// between the view of the source and of the destination.
    pub view_local: Option<i32>,
}

/// Parameters to create a new `RenderPass`.
#[derive(Clone, Debug, PartialEq, Eq)]
pub struct RenderPassCreateInfo {
    /// The attachments available for the render pass.
    pub attachments: Vec<AttachmentDescription>,
    /// The subpasses that make up this render pass.
    ///
    /// A render pass must contain at least one subpass.
    pub subpasses: Vec<SubpassDescription>,
    /// The dependencies between subpasses.
    pub dependencies: Vec<SubpassDependency>,
    /// If multiview rendering is being used, this specifies the views that are
    /// spatially correlated.
    pub correlated_view_masks: Vec<u32>,
}

/// An object representing the discrete steps in which rendering is done.
#[derive(Clone, Debug, PartialEq, Eq)]
pub struct RenderPass {
    /// The driver's handle of the render pass, once the driver has made it.
    pub handle: Option<u64>,
    /// The handle of the device that the render pass belongs to.
    pub device: u64,
    /// What the render pass was made from, with the aspects of the input
    /// attachments filled in.
    pub create_info: RenderPassCreateInfo,
    /// The number of views that the render pass draws to: zero without
    /// multiview.
    pub views_used: u32,
}

} // verus!
