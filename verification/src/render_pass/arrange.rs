//! What is worked out of the description of a render pass before it is
//! handed to the driver.
//!
//! The driver takes the attachment references of all subpasses in one list,
//! and each subpass as places in that list. The first version of the
//! driver's interface takes the aspects of the input attachments and the
//! views of the subpasses in lists of their own.

use crate::device::Device;
use crate::image::ImageAspects;
use crate::render_pass::{AttachmentReference, SubpassDependency, SubpassDescription};
use crate::Version;
use vstd::prelude::*;

verus! {

/// The number that stands for "outside the render pass" where the driver
/// expects the index of a subpass.
pub const SUBPASS_EXTERNAL: u32 = 0xffff_ffff;

/// The bit of a dependency that holds region by region.
pub const DEPENDENCY_BY_REGION: u32 = 1;

/// The bit of a dependency between the views of two subpasses.
pub const DEPENDENCY_VIEW_LOCAL: u32 = 2;

/// The index of a subpass as the driver expects it.
pub fn raw_subpass(subpass: Option<u32>) -> (raw: u32)
    ensures
        raw == match subpass {
            Some(index) => index,
            None => SUBPASS_EXTERNAL,
        },
{
    match subpass {
        Some(index) => index,
        None => SUBPASS_EXTERNAL,
    }
}

/// The flags of a dependency as the driver expects them. The first version
/// of the driver's interface has no flag for the views.
pub open spec fn dependency_flags_spec(dependency: SubpassDependency, with_views: bool) -> u32 {
    if dependency.by_region && with_views && dependency.view_local is Some {
        3
    } else if dependency.by_region {
        DEPENDENCY_BY_REGION
    } else if with_views && dependency.view_local is Some {
        DEPENDENCY_VIEW_LOCAL
    } else {
        0
    }
}

/// The flags of a dependency as the driver expects them.
pub fn dependency_flags(dependency: &SubpassDependency, with_views: bool) -> (flags: u32)
    ensures
        flags == dependency_flags_spec(*dependency, with_views),
{
    let mut flags: u32 = 0;
    if dependency.by_region {
        flags = flags + DEPENDENCY_BY_REGION;
    }
    if with_views && dependency.view_local.is_some() {
        flags = flags + DEPENDENCY_VIEW_LOCAL;
    }
    flags
}

/// The offset between the views of a dependency: zero where it names none.
pub fn view_offset(dependency: &SubpassDependency) -> (offset: i32)
    ensures
        offset == match dependency.view_local {
            Some(offset) => offset,
            None => 0,
        },
{
    match dependency.view_local {
        Some(offset) => offset,
        None => 0,
    }
}

/// The references of one subpass in the order in which the driver's list
/// holds them: input, color and resolve attachments, then the attachment of
/// depth and stencil where there is one.
pub open spec fn subpass_references(subpass: SubpassDescription) -> Seq<Option<AttachmentReference>> {
    subpass.input_attachments@ + subpass.color_attachments@ + subpass.resolve_attachments@ + (
    if subpass.depth_stencil_attachment is Some {
        seq![subpass.depth_stencil_attachment]
    } else {
        Seq::empty()
    })
}

/// The references of the first `upto` subpasses, one subpass after the
/// other.
pub open spec fn all_references(subpasses: Seq<SubpassDescription>, upto: int) -> Seq<
    Option<AttachmentReference>,
>
    decreases upto,
{
    if upto <= 0 {
        Seq::empty()
    } else {
        all_references(subpasses, upto - 1) + subpass_references(subpasses[upto - 1])
    }
}

/// Where the references of a subpass stand in the list of all references.
#[derive(Clone, Copy, Debug, PartialEq, Eq, Structural)]
pub struct SubpassPlaces {
    /// The place of the first input attachment.
    pub input_attachments: usize,
    /// The place of the first color attachment.
    pub color_attachments: usize,
    /// The place of the first resolve attachment.
    pub resolve_attachments: usize,
    /// The place of the attachment of depth and stencil, where there is
    /// one.
    pub depth_stencil_attachment: Option<usize>,
}

/// The places of the references of subpass `at`.
pub open spec fn places_of(subpasses: Seq<SubpassDescription>, at: int) -> SubpassPlaces {
    let start = all_references(subpasses, at).len();
    let subpass = subpasses[at];
    let colors = start + subpass.input_attachments@.len();
    let resolves = colors + subpass.color_attachments@.len();
    SubpassPlaces {
        input_attachments: start as usize,
        color_attachments: colors as usize,
        resolve_attachments: resolves as usize,
        depth_stencil_attachment: if subpass.depth_stencil_attachment is Some {
            Some((resolves + subpass.resolve_attachments@.len()) as usize)
        } else {
            None
        },
    }
}

/// The list of all references grows with the number of subpasses.
pub proof fn lemma_all_references_grow(subpasses: Seq<SubpassDescription>, a: int, b: int)
    requires
        a <= b,
    ensures
        all_references(subpasses, a).len() <= all_references(subpasses, b).len(),
    decreases b - a,
{
    if a < b {
        lemma_all_references_grow(subpasses, a, b - 1);
    }
}

/// Adds the references of a list to the list of all references.
fn append_references(all: &mut Vec<Option<AttachmentReference>>, references: &Vec<Option<AttachmentReference>>)
    ensures
        final(all)@ == old(all)@ + references@,
{
    let mut i: usize = 0;
    while i < references.len()
        invariant
            i <= references.len(),
            all@ == old(all)@ + references@.take(i as int),
        decreases references.len() - i,
    {
        all.push(references[i]);
        assert(all@ =~= old(all)@ + references@.take(i + 1));
        i += 1;
    }
    assert(references@.take(references.len() as int) =~= references@);
}

/// Puts the references of all subpasses in one list, and says for each
/// subpass where its references stand in it.
pub fn arrange_references(subpasses: &Vec<SubpassDescription>) -> (arranged: (
    Vec<Option<AttachmentReference>>,
    Vec<SubpassPlaces>,
))
    ensures
        arranged.0@ == all_references(subpasses@, subpasses@.len() as int),
        arranged.1@.len() == subpasses@.len(),
        forall|i: int|
            0 <= i < subpasses@.len() ==> (#[trigger] arranged.1@[i]) == places_of(subpasses@, i),
{
    let mut all: Vec<Option<AttachmentReference>> = Vec::new();
    let mut places: Vec<SubpassPlaces> = Vec::new();
    let mut i: usize = 0;
    while i < subpasses.len()
        invariant
            i <= subpasses.len(),
            all@ == all_references(subpasses@, i as int),
            places@.len() == i,
            forall|k: int| 0 <= k < i ==> (#[trigger] places@[k]) == places_of(subpasses@, k),
        decreases subpasses.len() - i,
    {
        let subpass = &subpasses[i];
        let input_attachments = all.len();
        append_references(&mut all, &subpass.input_attachments);
        let color_attachments = all.len();
        append_references(&mut all, &subpass.color_attachments);
        let resolve_attachments = all.len();
        append_references(&mut all, &subpass.resolve_attachments);
        let depth_stencil_attachment = match subpass.depth_stencil_attachment {
            Some(reference) => {
                let place = all.len();
                all.push(Some(reference));
                Some(place)
            },
            None => None,
        };
        places.push(
            SubpassPlaces {
                input_attachments,
                color_attachments,
                resolve_attachments,
                depth_stencil_attachment,
            },
        );
        proof {
            assert(all@ =~= all_references(subpasses@, i as int) + subpass_references(
                subpasses@[i as int],
            ));
        }
        i += 1;
    }
    (all, places)
}

/// The aspects that one input attachment of a subpass selects.
#[derive(Clone, Copy, Debug, PartialEq, Eq, Structural)]
pub struct InputAspectReference {
    /// The index of the subpass.
    pub subpass: u32,
    /// The place of the attachment among the input attachments of the
    /// subpass.
    pub input_attachment_index: u32,
    /// The aspects that are selected.
    pub aspects: ImageAspects,
}

/// The aspects of the first `upto` input attachments of a subpass, for each
/// one that is used.
pub open spec fn input_aspects_of(
    inputs: Seq<Option<AttachmentReference>>,
    subpass: u32,
    upto: int,
) -> Seq<InputAspectReference>
    decreases upto,
{
    if upto <= 0 {
        Seq::empty()
    } else {
        let before = input_aspects_of(inputs, subpass, upto - 1);
        match inputs[upto - 1] {
            Some(reference) => before.push(
                InputAspectReference {
                    subpass,
                    input_attachment_index: (upto - 1) as u32,
                    aspects: reference.aspects,
                },
            ),
            None => before,
        }
    }
}

/// The aspects of the input attachments of the first `upto` subpasses.
pub open spec fn input_aspects_upto(subpasses: Seq<SubpassDescription>, upto: int) -> Seq<
    InputAspectReference,
>
    decreases upto,
{
    if upto <= 0 {
        Seq::empty()
    } else {
        input_aspects_upto(subpasses, upto - 1) + input_aspects_of(
            subpasses[upto - 1].input_attachments@,
            (upto - 1) as u32,
            subpasses[upto - 1].input_attachments@.len() as int,
        )
    }
}

/// Whether the device takes the aspects of input attachments in a list of
/// their own: from version 1.1 of the device interface on, or with an
/// extension.
pub open spec fn takes_input_aspects(device: &Device) -> bool {
    device.api_version.at_least_spec(Version::major_minor_spec(1, 1))
        || device.enabled_extensions.khr_maintenance2
}

/// The aspects of the input attachments of a render pass as the first
/// version of the driver's interface takes them: none for a device that
/// takes none.
pub open spec fn input_aspect_references_spec(device: &Device, subpasses: Seq<SubpassDescription>) -> Seq<
    InputAspectReference,
> {
    if takes_input_aspects(device) {
        input_aspects_upto(subpasses, subpasses.len() as int)
    } else {
        Seq::empty()
    }
}

/// Lists the aspects of the input attachments of a render pass as the first
/// version of the driver's interface takes them.
pub fn input_aspect_references(device: &Device, subpasses: &Vec<SubpassDescription>) -> (references:
    Vec<InputAspectReference>)
    requires
        subpasses.len() <= u32::MAX,
        forall|i: int|
            0 <= i < subpasses.len() ==> (#[trigger] subpasses[i]).input_attachments@.len()
                <= u32::MAX,
    ensures
        references@ == input_aspect_references_spec(device, subpasses@),
{
    let mut references: Vec<InputAspectReference> = Vec::new();
    if !(device.api_version.at_least(Version::v1_1()) || device.enabled_extensions.khr_maintenance2) {
        return references;
    }
    let mut i: usize = 0;
    while i < subpasses.len()
        invariant
            i <= subpasses.len(),
            subpasses.len() <= u32::MAX,
            forall|k: int|
                0 <= k < subpasses.len() ==> (#[trigger] subpasses[k]).input_attachments@.len()
                    <= u32::MAX,
            references@ == input_aspects_upto(subpasses@, i as int),
        decreases subpasses.len() - i,
    {
        let inputs = &subpasses[i].input_attachments;
        let ghost before = references@;
        let mut j: usize = 0;
        while j < inputs.len()
            invariant
                j <= inputs.len(),
                i < subpasses.len(),
                subpasses.len() <= u32::MAX,
                inputs.len() <= u32::MAX,
                references@ == before + input_aspects_of(inputs@, i as u32, j as int),
            decreases inputs.len() - j,
        {
            match inputs[j] {
                Some(reference) => {
                    references.push(
                        InputAspectReference {
                            subpass: i as u32,
                            input_attachment_index: j as u32,
                            aspects: reference.aspects,
                        },
                    );
                },
                None => {},
            }
            assert(references@ =~= before + input_aspects_of(inputs@, i as u32, j + 1));
            j += 1;
        }
        i += 1;
    }
    references
}

/// The view masks of the subpasses and the view offsets of the dependencies
/// of a render pass as the first version of the driver's interface takes
/// them: none without multiview.
pub open spec fn multiview_lists_spec(
    subpasses: Seq<SubpassDescription>,
    dependencies: Seq<SubpassDependency>,
) -> (Seq<u32>, Seq<i32>) {
    if subpasses[0].view_mask != 0 {
        (
            Seq::new(subpasses.len(), |i: int| subpasses[i].view_mask),
            Seq::new(
                dependencies.len(),
                |i: int|
                    match dependencies[i].view_local {
                        Some(offset) => offset,
                        None => 0,
                    },
            ),
        )
    } else {
        (Seq::empty(), Seq::empty())
    }
}

/// Lists the view masks of the subpasses and the view offsets of the
/// dependencies of a render pass.
pub fn multiview_lists(subpasses: &Vec<SubpassDescription>, dependencies: &Vec<SubpassDependency>) -> (lists:
    (Vec<u32>, Vec<i32>))
    requires
        subpasses.len() > 0,
    ensures
        lists.0@ == multiview_lists_spec(subpasses@, dependencies@).0,
        lists.1@ == multiview_lists_spec(subpasses@, dependencies@).1,
{
    let mut masks: Vec<u32> = Vec::new();
    let mut offsets: Vec<i32> = Vec::new();
    if subpasses[0].view_mask == 0 {
        return (masks, offsets);
    }
    let mut i: usize = 0;
    while i < subpasses.len()
        invariant
            i <= subpasses.len(),
            masks@ == Seq::new(i as nat, |k: int| subpasses@[k].view_mask),
        decreases subpasses.len() - i,
    {
        masks.push(subpasses[i].view_mask);
        assert(masks@ =~= Seq::new((i + 1) as nat, |k: int| subpasses@[k].view_mask));
        i += 1;
    }
    let mut j: usize = 0;
    while j < dependencies.len()
        invariant
            j <= dependencies.len(),
            offsets@ == Seq::new(
                j as nat,
                |k: int|
                    match dependencies@[k].view_local {
                        Some(offset) => offset,
                        None => 0,
                    },
            ),
        decreases dependencies.len() - j,
    {
        offsets.push(view_offset(&dependencies[j]));
        assert(offsets@ =~= Seq::new(
            (j + 1) as nat,
            |k: int|
                match dependencies@[k].view_local {
                    Some(offset) => offset,
                    None => 0,
                },
        ));
        j += 1;
    }
    (masks, offsets)
}

/// Whether the device has the second version of the driver's interface for
/// render passes at all, and whether it has it as a part of the device
/// interface itself: from version 1.2 on it has; before, an extension
/// brings it.
pub fn second_version(device: &Device) -> (has: Option<bool>)
    ensures
        has == if device.api_version.at_least_spec(Version::major_minor_spec(1, 2)) {
            Some(true)
        } else if device.enabled_extensions.khr_create_renderpass2 {
            Some(false)
        } else {
            None
        },
{
    if device.api_version.at_least(Version::v1_2()) {
        Some(true)
    } else if device.enabled_extensions.khr_create_renderpass2 {
        Some(false)
    } else {
        None
    }
}

} // verus!
