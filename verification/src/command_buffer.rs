//! Work for the device: what a command buffer uses, and how it is handed to a
//! queue.

use crate::buffer::sys::UnsafeBuffer;
use crate::device::Queue;
use crate::image::sys::UnsafeImage;
use crate::format::Format;
use crate::image::{ImageAspects, ImageLayout, ImageSubresourceLayers};
use crate::sync::future::{
    wait_infos, wait_infos_spec, AccessCheckError, AccessError, AccessGrant, BuildStep,
    BuildStepView, FlushError, FlushState, FlushStep, FlushStepView, GpuFuture, SubmissionView,
    SubmitAnyBuilder, SubmitAnyBuilderView, Submission,
};
use crate::sync::tracker::{
    check_use_spec, lemma_locks_held, lemma_use_round_trip, lemma_uses_locked_push, use_lockable,
    use_locked, uses_locked, uses_unlockable, uses_unlocked, valid_buffers, AccessTracker,
    BufferUse,
};
use crate::sync::{AccessFlags, CurrentAccess, Fence, PipelineStages, Semaphore};
use crate::{DeviceSize, VulkanError};
use std::ops::Range;
use vstd::prelude::*;

verus! {

/// A semaphore that a submission waits for, and the stages that wait.
#[derive(Clone, Copy, Debug, PartialEq, Eq, Structural)]
pub struct SemaphoreSubmitInfo {
    /// The semaphore to wait for.
    pub semaphore: Semaphore,
    /// The stages of the submission that wait for it.
    pub stages: PipelineStages,
}

/// One batch of work for a queue.
#[derive(Clone, Debug, PartialEq, Eq)]
pub struct SubmitInfo {
    /// The semaphores to wait for before the command buffers run.
    pub wait_semaphores: Vec<SemaphoreSubmitInfo>,
    /// The command buffers to run, by key.
    pub command_buffers: Vec<u64>,
    /// The semaphores to signal once the command buffers have run.
    pub signal_semaphores: Vec<Semaphore>,
}

/// What a batch of work holds.
pub struct SubmitInfoView {
    pub wait_semaphores: Seq<SemaphoreSubmitInfo>,
    pub command_buffers: Seq<u64>,
    pub signal_semaphores: Seq<Semaphore>,
}

impl View for SubmitInfo {
    type V = SubmitInfoView;

    open spec fn view(&self) -> SubmitInfoView {
        SubmitInfoView {
            wait_semaphores: self.wait_semaphores@,
            command_buffers: self.command_buffers@,
            signal_semaphores: self.signal_semaphores@,
        }
    }
}

impl SubmitInfoView {
    /// A batch without anything in it.
    pub open spec fn empty() -> SubmitInfoView {
        SubmitInfoView {
            wait_semaphores: Seq::empty(),
            command_buffers: Seq::empty(),
            signal_semaphores: Seq::empty(),
        }
    }
}

impl SubmitInfo {
    /// A batch without anything in it.
    pub fn new() -> (info: SubmitInfo)
        ensures
            info@ == SubmitInfoView::empty(),
    {
        SubmitInfo {
            wait_semaphores: Vec::new(),
            command_buffers: Vec::new(),
            signal_semaphores: Vec::new(),
        }
    }
}

/// A region of a blit from one image to another.
#[derive(Debug, PartialEq, Eq)]
pub struct ImageBlit {
    /// The subresource of the source image to blit from.
    pub src_subresource: ImageSubresourceLayers,
    /// The two corners of the source image that the blit reads between.
    pub src_offsets: [[u32; 3]; 2],
    /// The subresource of the destination image to blit to.
    pub dst_subresource: ImageSubresourceLayers,
    /// The two corners of the destination image that the blit writes
    /// between.
    pub dst_offsets: [[u32; 3]; 2],
}

/// A region of a copy between a buffer and an image.
#[derive(Debug, PartialEq, Eq)]
pub struct BufferImageCopy {
    /// The offset in bytes from the start of the buffer to the start of the data.
    pub buffer_offset: DeviceSize,
    /// The number of texels between successive rows of image data in the buffer: that of the
    /// image where it is zero.
    pub buffer_row_length: u32,
    /// The number of rows between successive depth slices of image data in the buffer: that of
    /// the image where it is zero.
    pub buffer_image_height: u32,
    /// The subresource of the image to copy.
    pub image_subresource: ImageSubresourceLayers,
    /// The offset from the zero coordinate of the image that copying will start from.
    pub image_offset: [u32; 3],
    /// The extent of texels in the image to copy.
    pub image_extent: [u32; 3],
}

/// The number of blocks of the given extent that it takes to hold the given
/// number of texels.
pub open spec fn blocks_spec(texels: u32, block: u32) -> int {
    (texels + block - 1) / (block as int)
}

/// The size in bytes of one block of a copy: one byte for a stencil aspect,
/// the size of the depth component for a depth aspect, else the size of a
/// block of the format.
pub open spec fn copy_block_size(aspects: ImageAspects, format: Format) -> int {
    if aspects.stencil {
        1
    } else if aspects.depth {
        match format {
            Format::D16_UNORM => 2,
            _ => 4,
        }
    } else {
        format.block_size_spec()->0 as int
    }
}

/// The number of bytes of a buffer that a copy reads or writes: rows and
/// slices of blocks stand one after the other, and the last row of the last
/// slice ends with the region. A row length or an image height of zero
/// stands for that of the region.
pub open spec fn copy_size_spec(
    buffer_row_length: u32,
    buffer_image_height: u32,
    width_texels: u32,
    height_texels: u32,
    depth_texels: u32,
    layers: int,
    aspects: ImageAspects,
    format: Format,
) -> int {
    let extent = format.block_extent_spec();
    let row_texels = if buffer_row_length == 0 {
        width_texels
    } else {
        buffer_row_length
    };
    let image_texels = if buffer_image_height == 0 {
        height_texels
    } else {
        buffer_image_height
    };
    let row = blocks_spec(row_texels, extent[0]);
    let height = blocks_spec(image_texels, extent[1]);
    let width = blocks_spec(width_texels, extent[0]);
    let rows = blocks_spec(height_texels, extent[1]);
    let depth = blocks_spec(depth_texels, extent[2]);
    let slices = if depth >= layers {
        depth
    } else {
        layers
    };
    ((slices - 1) * height * row + (rows - 1) * row + width) * copy_block_size(aspects, format)
}

/// Whether the size of a copy can be worked out: the region has a texel and a
/// layer, the format suits the aspects, and the numbers stay within 64 bits.
pub open spec fn copy_measurable_spec(
    buffer_row_length: u32,
    buffer_image_height: u32,
    width_texels: u32,
    height_texels: u32,
    depth_texels: u32,
    layers: int,
    aspects: ImageAspects,
    format: Format,
) -> bool {
    &&& width_texels >= 1
    &&& height_texels >= 1
    &&& depth_texels >= 1
    &&& layers >= 1
    &&& (aspects.stencil || (aspects.depth ==> format.aspects_spec().depth) && (!aspects.depth
        ==> format.block_size_spec() is Some))
    &&& buffer_row_length as int + 4 <= u32::MAX
    &&& buffer_image_height as int + 4 <= u32::MAX
    &&& width_texels as int + 4 <= u32::MAX
    &&& height_texels as int + 4 <= u32::MAX
    &&& depth_texels as int + 4 <= u32::MAX
    &&& copy_size_spec(
        buffer_row_length,
        buffer_image_height,
        width_texels,
        height_texels,
        depth_texels,
        layers,
        aspects,
        format,
    ) <= u64::MAX
}

/// The number of bytes of a buffer that a copy of a region reads or writes.
pub open spec fn buffer_copy_size_spec(region: &BufferImageCopy, format: Format) -> int {
    copy_size_spec(
        region.buffer_row_length,
        region.buffer_image_height,
        region.image_extent[0],
        region.image_extent[1],
        region.image_extent[2],
        region.image_subresource.array_layers.end - region.image_subresource.array_layers.start,
        region.image_subresource.aspects,
        format,
    )
}

/// Whether the size of a copy of a region can be worked out.
pub open spec fn copy_measurable(region: &BufferImageCopy, format: Format) -> bool {
    copy_measurable_spec(
        region.buffer_row_length,
        region.buffer_image_height,
        region.image_extent[0],
        region.image_extent[1],
        region.image_extent[2],
        region.image_subresource.array_layers.end - region.image_subresource.array_layers.start,
        region.image_subresource.aspects,
        format,
    )
}

impl BufferImageCopy {
    /// The number of bytes of a buffer that a copy of the region reads or
    /// writes.
    pub fn buffer_copy_size(&self, format: Format) -> (size: DeviceSize)
        requires
            copy_measurable(self, format),
        ensures
            size == buffer_copy_size_spec(self, format),
    {
        let block_extent = format.block_extent();
        let mut buffer_row_length = self.buffer_row_length;
        let mut buffer_image_height = self.buffer_image_height;
        if buffer_row_length == 0 {
            buffer_row_length = self.image_extent[0];
        }
        if buffer_image_height == 0 {
            buffer_image_height = self.image_extent[1];
        }
        assert((block_extent[0] == 1 || block_extent[0] == 2 || block_extent[0] == 4) && (
        block_extent[1] == 1 || block_extent[1] == 4) && block_extent[2] == 1);
        // Scale down from texels to texel blocks, rounding up if needed.
        let row = ((buffer_row_length + block_extent[0] - 1) / block_extent[0]) as u64;
        let height = ((buffer_image_height + block_extent[1] - 1) / block_extent[1]) as u64;
        let width = ((self.image_extent[0] + block_extent[0] - 1) / block_extent[0]) as u64;
        let rows = ((self.image_extent[1] + block_extent[1] - 1) / block_extent[1]) as u64;
        let depth = (self.image_extent[2] + block_extent[2] - 1) / block_extent[2];
        let layers = self.image_subresource.array_layers.end
            - self.image_subresource.array_layers.start;
        // Only one of these is greater than 1, take the greater number.
        let slices = (if depth >= layers {
            depth
        } else {
            layers
        }) as u64;
        let block_size: u64 = if self.image_subresource.aspects.stencil {
            1
        } else if self.image_subresource.aspects.depth {
            match format {
                Format::D16_UNORM => 2,
                _ => 4,
            }
        } else {
            format.block_size().unwrap()
        };
        proof {
            let wide = block_extent[0];
            let high = block_extent[1];
            assert(self.image_extent[0] >= 1 && self.image_extent[1] >= 1 && self.image_extent[2]
                >= 1);
            assert(width >= 1 && width < 0x1_0000_0000 && row < 0x1_0000_0000) by {
                if wide == 1 {
                    assert(width == self.image_extent[0]);
                    assert(row == buffer_row_length);
                } else if wide == 2 {
                    assert(width == (self.image_extent[0] + 1) / 2);
                    assert(row == (buffer_row_length + 1) / 2);
                } else {
                    assert(wide == 4);
                    assert(width == (self.image_extent[0] + 3) / 4);
                    assert(row == (buffer_row_length + 3) / 4);
                }
            }
            assert(rows >= 1 && height < 0x1_0000_0000) by {
                if high == 1 {
                    assert(rows == self.image_extent[1]);
                    assert(height == buffer_image_height);
                } else {
                    assert(high == 4);
                    assert(rows == (self.image_extent[1] + 3) / 4);
                    assert(height == (buffer_image_height + 3) / 4);
                }
            }
            assert(depth == self.image_extent[2]);
            assert(slices >= 1);
            assert(1 <= block_size <= 32);
            let total = (slices - 1) * height * row + (rows - 1) * row + width;
            assert((slices - 1) * height >= 0) by (nonlinear_arith)
                requires
                    slices >= 1,
                    height >= 0,
            ;
            assert((slices - 1) * height * row >= 0) by (nonlinear_arith)
                requires
                    (slices - 1) * height >= 0,
                    row >= 0,
            ;
            assert((rows - 1) * row >= 0) by (nonlinear_arith)
                requires
                    rows >= 1,
                    row >= 0,
            ;
            assert(total * block_size <= u64::MAX);
            assert(total <= u64::MAX) by (nonlinear_arith)
                requires
                    total * block_size <= u64::MAX,
                    block_size >= 1,
                    total >= 0,
            ;
            assert((slices - 1) * height <= u64::MAX && (slices - 1) * height * row <= u64::MAX
                && (rows - 1) * row <= u64::MAX && (slices - 1) * height * row + (rows - 1) * row
                <= u64::MAX) by (nonlinear_arith)
                requires
                    total == (slices - 1) * height * row + (rows - 1) * row + width,
                    total <= u64::MAX,
                    (slices - 1) * height >= 0,
                    (slices - 1) * height * row >= 0,
                    (rows - 1) * row >= 0,
                    width >= 1,
                    slices >= 1,
                    (slices - 1) * 0x1_0000_0000 <= u64::MAX,
                    height < 0x1_0000_0000,
            ;
        }
        let blocks_to_last_slice = (slices - 1) * height * row;
        let blocks_to_last_row = (rows - 1) * row;
        let num_blocks = blocks_to_last_slice + blocks_to_last_row + width;
        num_blocks * block_size
    }
}

/// Error that can happen when beginning recording of a command buffer.
#[derive(Clone, Copy, Debug, PartialEq, Eq, Structural)]
pub enum CommandBufferBeginError {
    /// Not enough memory.
    OomError(crate::OomError),
    /// A secondary command buffer was asked for on a queue family that cannot take one.
    SecondaryCommandBufferNotAllowed,
}

/// How often and in which way a command buffer is handed to a queue.
#[derive(Clone, Copy, Debug, PartialEq, Eq, Structural)]
pub enum CommandBufferUsage {
    /// The command buffer can only be submitted once.
    OneTimeSubmit,
    /// The command buffer can be used multiple times, but must not execute
    /// more than once simultaneously.
    MultipleSubmit,
    /// The command buffer can be executed multiple times in parallel.
    SimultaneousUse,
}

/// Error that can happen when attempting to execute a command buffer.
#[derive(Clone, Copy, Debug, PartialEq, Eq, Structural)]
pub enum CommandBufferExecError {
    /// Access to a resource has been denied.
    AccessError {
        /// Why it was denied.
        error: AccessError,
        /// The place of the use in the command buffer's list of uses.
        command_offset: usize,
    },
    /// The command buffer or one of the secondary command buffers it executes was created with
    /// the "one time submit" flag, but has already been submitted it the past.
    OneTimeSubmitAlreadySubmitted,
    /// The command buffer or one of the secondary command buffers it executes is already in use
    /// was not created with the "concurrent" flag.
    ExclusiveAlreadyInUse,
}

/// One use that work of the device makes of a range of an image.
#[derive(Clone, Copy, Debug, PartialEq, Eq, Structural)]
pub struct ImageUse {
    /// The key of the image.
    pub image: u64,
    /// The first byte that is used.
    pub start: DeviceSize,
    /// The byte after the last one that is used.
    pub end: DeviceSize,
    /// Whether the bytes are written.
    pub exclusive: bool,
    /// The stages at which the bytes are used.
    pub stages: PipelineStages,
    /// The ways in which the bytes are used.
    pub access: AccessFlags,
    /// The layout in which the work leaves the bytes.
    pub final_layout: ImageLayout,
}

impl ImageUse {
    /// Whether the use shares a byte with `start..end` of the image `image`.
    pub open spec fn overlaps(self, image: u64, start: int, end: int) -> bool {
        self.image == image && self.start < end && start < self.end && self.start < self.end
            && start < end
    }
}

/// Whether one of the uses is of the given buffer.
pub open spec fn uses_buffer(uses: Seq<BufferUse>, buffer: u64) -> bool {
    exists|i: int| 0 <= i < uses.len() && (#[trigger] uses[i]).buffer.key_spec() == buffer
}

/// The stages and the ways of all uses that share a byte with `start..end`
/// of the buffer, added to `latest`. Where exclusive access is asked for and
/// one of these uses is not exclusive, nothing is known.
pub open spec fn latest_buffer_use(
    uses: Seq<BufferUse>,
    buffer: u64,
    start: int,
    end: int,
    exclusive: bool,
    latest: (PipelineStages, AccessFlags),
) -> Result<(PipelineStages, AccessFlags), AccessCheckError>
    decreases uses.len(),
{
    if uses.len() == 0 {
        Ok(latest)
    } else if !uses[0].overlaps(buffer, start, end) {
        latest_buffer_use(uses.drop_first(), buffer, start, end, exclusive, latest)
    } else if exclusive && !uses[0].exclusive {
        Err(AccessCheckError::Unknown)
    } else {
        latest_buffer_use(
            uses.drop_first(),
            buffer,
            start,
            end,
            exclusive,
            (latest.0.union_spec(uses[0].stages), latest.1.union_spec(uses[0].access)),
        )
    }
}

/// What access to a range of a buffer the uses of a command buffer grant to
/// what comes after it: none that it knows of where it does not use the
/// buffer, else the stages and ways of its uses of the range.
pub open spec fn buffer_grant(
    uses: Seq<BufferUse>,
    buffer: u64,
    start: int,
    end: int,
    exclusive: bool,
) -> AccessGrant {
    if !uses_buffer(uses, buffer) {
        Err(AccessCheckError::Unknown)
    } else {
        match latest_buffer_use(
            uses,
            buffer,
            start,
            end,
            exclusive,
            (PipelineStages::empty_spec(), AccessFlags::empty_spec()),
        ) {
            Ok(latest) => Ok(Some(latest)),
            Err(err) => Err(err),
        }
    }
}

/// Whether one of the uses is of the given image.
pub open spec fn uses_image(uses: Seq<ImageUse>, image: u64) -> bool {
    exists|i: int| 0 <= i < uses.len() && (#[trigger] uses[i]).image == image
}

/// The stages and the ways of all uses that share a byte with `start..end`
/// of the image, added to `latest`. A use that leaves the bytes in another
/// layout than the expected one denies the access, unless any layout is
/// accepted.
pub open spec fn latest_image_use(
    uses: Seq<ImageUse>,
    image: u64,
    start: int,
    end: int,
    exclusive: bool,
    expected_layout: ImageLayout,
    latest: (PipelineStages, AccessFlags),
) -> Result<(PipelineStages, AccessFlags), AccessCheckError>
    decreases uses.len(),
{
    if uses.len() == 0 {
        Ok(latest)
    } else if !uses[0].overlaps(image, start, end) {
        latest_image_use(uses.drop_first(), image, start, end, exclusive, expected_layout, latest)
    } else if expected_layout != ImageLayout::Undefined && uses[0].final_layout
        != expected_layout {
        Err(
            AccessCheckError::Denied(
                AccessError::UnexpectedImageLayout {
                    allowed: uses[0].final_layout,
                    requested: expected_layout,
                },
            ),
        )
    } else if exclusive && !uses[0].exclusive {
        Err(AccessCheckError::Unknown)
    } else {
        latest_image_use(
            uses.drop_first(),
            image,
            start,
            end,
            exclusive,
            expected_layout,
            (latest.0.union_spec(uses[0].stages), latest.1.union_spec(uses[0].access)),
        )
    }
}

/// What access to a range of an image the uses of a command buffer grant to
/// what comes after it.
pub open spec fn image_grant(
    uses: Seq<ImageUse>,
    image: u64,
    start: int,
    end: int,
    exclusive: bool,
    expected_layout: ImageLayout,
) -> AccessGrant {
    if !uses_image(uses, image) {
        Err(AccessCheckError::Unknown)
    } else {
        match latest_image_use(
            uses,
            image,
            start,
            end,
            exclusive,
            expected_layout,
            (PipelineStages::empty_spec(), AccessFlags::empty_spec()),
        ) {
            Ok(latest) => Ok(Some(latest)),
            Err(err) => Err(err),
        }
    }
}

/// Whether a buffer is used up to a place in the list, in terms of the place
/// before.
pub proof fn lemma_uses_buffer_step(uses: Seq<BufferUse>, i: int, buffer: u64)
    requires
        0 <= i < uses.len(),
    ensures
        uses_buffer(uses.take(i + 1), buffer) == (uses_buffer(uses.take(i), buffer) || uses[i].buffer.key_spec()
            == buffer),
        uses[i].buffer.key_spec() == buffer ==> uses_buffer(uses, buffer),
{
    let shorter = uses.take(i);
    let longer = uses.take(i + 1);
    if uses_buffer(shorter, buffer) {
        let k = choose|k: int| 0 <= k < shorter.len() && (#[trigger] shorter[k]).buffer.key_spec() == buffer;
        assert(longer[k].buffer.key_spec() == buffer);
    }
    if uses[i].buffer.key_spec() == buffer {
        assert(longer[i].buffer.key_spec() == buffer);
    }
    if uses_buffer(longer, buffer) {
        let k = choose|k: int| 0 <= k < longer.len() && (#[trigger] longer[k]).buffer.key_spec() == buffer;
        if k < i {
            assert(shorter[k].buffer.key_spec() == buffer);
        }
    }
}

/// The latest use from a place of the list on, in terms of the place after.
#[verifier::rlimit(50)]
pub proof fn lemma_latest_buffer_use_step(
    uses: Seq<BufferUse>,
    i: int,
    buffer: u64,
    start: int,
    end: int,
    exclusive: bool,
    latest: (PipelineStages, AccessFlags),
)
    requires
        0 <= i < uses.len(),
    ensures
        latest_buffer_use(uses.skip(i), buffer, start, end, exclusive, latest) == if !uses[i].overlaps(
            buffer,
            start,
            end,
        ) {
            latest_buffer_use(uses.skip(i + 1), buffer, start, end, exclusive, latest)
        } else if exclusive && !uses[i].exclusive {
            Err(AccessCheckError::Unknown)
        } else {
            latest_buffer_use(
                uses.skip(i + 1),
                buffer,
                start,
                end,
                exclusive,
                (latest.0.union_spec(uses[i].stages), latest.1.union_spec(uses[i].access)),
            )
        },
{
    assert(uses.skip(i)[0] == uses[i]);
    assert(uses.skip(i).drop_first() =~= uses.skip(i + 1));
}

/// Whether an image is used up to a place in the list, in terms of the place
/// before.
pub proof fn lemma_uses_image_step(uses: Seq<ImageUse>, i: int, image: u64)
    requires
        0 <= i < uses.len(),
    ensures
        uses_image(uses.take(i + 1), image) == (uses_image(uses.take(i), image) || uses[i].image
            == image),
        uses[i].image == image ==> uses_image(uses, image),
{
    let shorter = uses.take(i);
    let longer = uses.take(i + 1);
    if uses_image(shorter, image) {
        let k = choose|k: int| 0 <= k < shorter.len() && (#[trigger] shorter[k]).image == image;
        assert(longer[k].image == image);
    }
    if uses[i].image == image {
        assert(longer[i].image == image);
    }
    if uses_image(longer, image) {
        let k = choose|k: int| 0 <= k < longer.len() && (#[trigger] longer[k]).image == image;
        if k < i {
            assert(shorter[k].image == image);
        }
    }
}

/// The latest use from a place of the list on, in terms of the place after.
#[verifier::rlimit(50)]
pub proof fn lemma_latest_image_use_step(
    uses: Seq<ImageUse>,
    i: int,
    image: u64,
    start: int,
    end: int,
    exclusive: bool,
    expected_layout: ImageLayout,
    latest: (PipelineStages, AccessFlags),
)
    requires
        0 <= i < uses.len(),
    ensures
        latest_image_use(uses.skip(i), image, start, end, exclusive, expected_layout, latest)
            == if !uses[i].overlaps(image, start, end) {
            latest_image_use(uses.skip(i + 1), image, start, end, exclusive, expected_layout, latest)
        } else if expected_layout != ImageLayout::Undefined && uses[i].final_layout
            != expected_layout {
            Err(
                AccessCheckError::Denied(
                    AccessError::UnexpectedImageLayout {
                        allowed: uses[i].final_layout,
                        requested: expected_layout,
                    },
                ),
            )
        } else if exclusive && !uses[i].exclusive {
            Err(AccessCheckError::Unknown)
        } else {
            latest_image_use(
                uses.skip(i + 1),
                image,
                start,
                end,
                exclusive,
                expected_layout,
                (latest.0.union_spec(uses[i].stages), latest.1.union_spec(uses[i].access)),
            )
        },
{
    assert(uses.skip(i)[0] == uses[i]);
    assert(uses.skip(i).drop_first() =~= uses.skip(i + 1));
}

/// Whether a use may go ahead: the future before it grants the access, or
/// does not know the resource and the state of the resource allows it.
pub open spec fn use_outcome(
    buffers: Seq<Seq<CurrentAccess>>,
    u: BufferUse,
    grant: AccessGrant,
) -> Result<(), AccessError> {
    match grant {
        Err(AccessCheckError::Denied(error)) => Err(error),
        Err(AccessCheckError::Unknown) => check_use_spec(buffers, u),
        Ok(_) => Ok(()),
    }
}

/// The first use from place `from` on that may not go ahead, with the
/// reason, where each use before it has taken its lock.
pub open spec fn first_refusal(
    buffers: Seq<Seq<CurrentAccess>>,
    uses: Seq<BufferUse>,
    grants: Seq<AccessGrant>,
    from: int,
) -> Option<(int, AccessError)>
    decreases uses.len() - from,
{
    if from < 0 || from >= uses.len() {
        None
    } else {
        match use_outcome(buffers, uses[from], grants[from]) {
            Err(error) => Some((from, error)),
            Ok(_) => first_refusal(use_locked(buffers, uses[from]), uses, grants, from + 1),
        }
    }
}

/// Whether each use from place `from` on that may go ahead can take its
/// lock, where each use before it has taken its own: the buffer is known to
/// the tracker, the host does not write the range and no counter is full.
pub open spec fn locks_possible(
    buffers: Seq<Seq<CurrentAccess>>,
    uses: Seq<BufferUse>,
    grants: Seq<AccessGrant>,
    from: int,
) -> bool
    decreases uses.len() - from,
{
    from < 0 || from >= uses.len() || (use_outcome(buffers, uses[from], grants[from]) is Ok ==> {
        &&& use_lockable(buffers, uses[from])
        &&& locks_possible(use_locked(buffers, uses[from]), uses, grants, from + 1)
    })
}

/// What a future grants to each of the uses, in their order.
pub open spec fn grants_of<F: GpuFuture>(future: F, uses: Seq<BufferUse>, queue: Queue) -> Seq<
    AccessGrant,
> {
    Seq::new(
        uses.len(),
        |i: int|
            future.buffer_access(
                uses[i].buffer.key_spec(),
                uses[i].start as int,
                uses[i].end as int,
                uses[i].exclusive,
                queue,
            ),
    )
}

/// A list of commands for the device, with the resources that they use.
#[derive(Clone, Debug, PartialEq, Eq)]
pub struct CommandBuffer {
    /// The key of the command buffer.
    pub key: u64,
    /// The device that the command buffer belongs to.
    pub device: u64,
    /// How often the command buffer may be handed to a queue.
    pub usage: CommandBufferUsage,
    /// Whether the command buffer was handed over already, where it may be
    /// only once, or is in use, where it may not be twice at a time.
    pub in_use: bool,
    /// The ranges of buffers that the commands use.
    pub buffers: Vec<BufferUse>,
    /// The ranges of images that the commands use.
    pub images: Vec<ImageUse>,
}

impl CommandBuffer {
    /// Why the command buffer cannot be handed over once more, if it
    /// cannot.
    pub open spec fn reuse_error(usage: CommandBufferUsage, in_use: bool) -> Option<
        CommandBufferExecError,
    > {
        match usage {
            CommandBufferUsage::OneTimeSubmit => if in_use {
                Some(CommandBufferExecError::OneTimeSubmitAlreadySubmitted)
            } else {
                None
            },
            CommandBufferUsage::MultipleSubmit => if in_use {
                Some(CommandBufferExecError::ExclusiveAlreadyInUse)
            } else {
                None
            },
            CommandBufferUsage::SimultaneousUse => None,
        }
    }

    /// Checks whether the command buffer grants access to a range of a buffer to what comes
    /// after it.
    pub fn check_buffer_access(
        &self,
        buffer: &UnsafeBuffer,
        range: Range<DeviceSize>,
        exclusive: bool,
        queue: &Queue,
    ) -> (grant: AccessGrant)
        ensures
            grant == buffer_grant(
                self.buffers@,
                buffer.key_spec(),
                range.start as int,
                range.end as int,
                exclusive,
            ),
    {
        let key = buffer.key();
        let mut known = false;
        let mut stages = PipelineStages::empty();
        let mut access = AccessFlags::empty();
        let mut i: usize = 0;
        let ghost uses = self.buffers@;
        assert(uses.skip(0) =~= uses);
        while i < self.buffers.len()
            invariant
                uses == self.buffers@,
                key == buffer.key_spec(),
                i <= uses.len(),
                known == uses_buffer(uses.take(i as int), key),
                latest_buffer_use(
                    uses,
                    key,
                    range.start as int,
                    range.end as int,
                    exclusive,
                    (PipelineStages::empty_spec(), AccessFlags::empty_spec()),
                ) == latest_buffer_use(
                    uses.skip(i as int),
                    key,
                    range.start as int,
                    range.end as int,
                    exclusive,
                    (stages, access),
                ),
            decreases uses.len() - i,
        {
            let u = &self.buffers[i];
            proof {
                lemma_uses_buffer_step(uses, i as int, key);
                lemma_latest_buffer_use_step(
                    uses,
                    i as int,
                    key,
                    range.start as int,
                    range.end as int,
                    exclusive,
                    (stages, access),
                );
            }
            if u.buffer.key() == key {
                known = true;
                if u.start < range.end && range.start < u.end && u.start < u.end && range.start
                    < range.end {
                    if exclusive && !u.exclusive {
                        return Err(AccessCheckError::Unknown);
                    }
                    stages = stages.union(&u.stages);
                    access = access.union(&u.access);
                }
            }
            i += 1;
        }
        assert(uses.take(uses.len() as int) =~= uses);
        if known {
            Ok(Some((stages, access)))
        } else {
            Err(AccessCheckError::Unknown)
        }
    }

    /// Checks whether the command buffer grants access to a range of an image to what comes
    /// after it.
    pub fn check_image_access(
        &self,
        image: &UnsafeImage,
        range: Range<DeviceSize>,
        exclusive: bool,
        expected_layout: ImageLayout,
        queue: &Queue,
    ) -> (grant: AccessGrant)
        ensures
            grant == image_grant(
                self.images@,
                image.key,
                range.start as int,
                range.end as int,
                exclusive,
                expected_layout,
            ),
    {
        let key = image.key;
        let mut known = false;
        let mut stages = PipelineStages::empty();
        let mut access = AccessFlags::empty();
        let mut i: usize = 0;
        let ghost uses = self.images@;
        assert(uses.skip(0) =~= uses);
        while i < self.images.len()
            invariant
                uses == self.images@,
                key == image.key,
                i <= uses.len(),
                known == uses_image(uses.take(i as int), key),
                latest_image_use(
                    uses,
                    key,
                    range.start as int,
                    range.end as int,
                    exclusive,
                    expected_layout,
                    (PipelineStages::empty_spec(), AccessFlags::empty_spec()),
                ) == latest_image_use(
                    uses.skip(i as int),
                    key,
                    range.start as int,
                    range.end as int,
                    exclusive,
                    expected_layout,
                    (stages, access),
                ),
            decreases uses.len() - i,
        {
            let u = &self.images[i];
            proof {
                lemma_uses_image_step(uses, i as int, key);
                lemma_latest_image_use_step(
                    uses,
                    i as int,
                    key,
                    range.start as int,
                    range.end as int,
                    exclusive,
                    expected_layout,
                    (stages, access),
                );
            }
            if u.image == key {
                known = true;
                if u.start < range.end && range.start < u.end && u.start < u.end && range.start
                    < range.end {
                    if expected_layout != ImageLayout::Undefined && u.final_layout
                        != expected_layout {
                        return Err(
                            AccessCheckError::Denied(
                                AccessError::UnexpectedImageLayout {
                                    allowed: u.final_layout,
                                    requested: expected_layout,
                                },
                            ),
                        );
                    }
                    if exclusive && !u.exclusive {
                        return Err(AccessCheckError::Unknown);
                    }
                    stages = stages.union(&u.stages);
                    access = access.union(&u.access);
                }
            }
            i += 1;
        }
        assert(uses.take(uses.len() as int) =~= uses);
        if known {
            Ok(Some((stages, access)))
        } else {
            Err(AccessCheckError::Unknown)
        }
    }

    /// Whether the command buffer is marked as handed over once its locks
    /// are taken.
    pub open spec fn marked_in_use(usage: CommandBufferUsage, in_use: bool) -> bool {
        in_use || !(usage is SimultaneousUse)
    }

    /// Takes the locks of all uses of the command buffer, so that it can be
    /// handed to a queue after `future`.
    ///
    /// Each use goes ahead where `future` grants the access, or where it does
    /// not know the resource and the state of the resource allows the access.
    /// Where one use may not go ahead, or the command buffer may not be
    /// handed over once more, nothing is changed.
    pub fn lock_submit<F: GpuFuture>(
        &mut self,
        future: &F,
        queue: &Queue,
        tracker: &mut AccessTracker,
    ) -> (result: Result<(), CommandBufferExecError>)
        requires
            future.inv(),
            old(tracker).wf(),
            CommandBuffer::reuse_error(old(self).usage, old(self).in_use) is None
                ==> locks_possible(
                old(tracker)@.buffers,
                old(self).buffers@,
                grants_of(*future, old(self).buffers@, *queue),
                0,
            ),
        ensures
            final(tracker).wf(),
            final(tracker)@.signaled == old(tracker)@.signaled,
            final(self).key == old(self).key,
            final(self).device == old(self).device,
            final(self).usage == old(self).usage,
            final(self).buffers == old(self).buffers,
            final(self).images == old(self).images,
            match result {
                Ok(_) => {
                    &&& CommandBuffer::reuse_error(old(self).usage, old(self).in_use) is None
                    &&& first_refusal(
                        old(tracker)@.buffers,
                        old(self).buffers@,
                        grants_of(*future, old(self).buffers@, *queue),
                        0,
                    ) is None
                    &&& final(tracker)@.buffers == uses_locked(
                        old(tracker)@.buffers,
                        old(self).buffers@,
                    )
                    &&& final(self).in_use == CommandBuffer::marked_in_use(
                        old(self).usage,
                        old(self).in_use,
                    )
                    &&& uses_unlockable(final(tracker)@.buffers, old(self).buffers@.reverse())
                },
                Err(err) => {
                    &&& final(tracker)@.buffers == old(tracker)@.buffers
                    &&& final(self).in_use == old(self).in_use
                    &&& match CommandBuffer::reuse_error(old(self).usage, old(self).in_use) {
                        Some(reuse) => err == reuse,
                        None => first_refusal(
                            old(tracker)@.buffers,
                            old(self).buffers@,
                            grants_of(*future, old(self).buffers@, *queue),
                            0,
                        ) matches Some((at, error)) && err
                            == (CommandBufferExecError::AccessError {
                            error,
                            command_offset: at as usize,
                        }),
                    }
                },
            },
    {
        match self.usage {
            CommandBufferUsage::OneTimeSubmit => {
                if self.in_use {
                    return Err(CommandBufferExecError::OneTimeSubmitAlreadySubmitted);
                }
            },
            CommandBufferUsage::MultipleSubmit => {
                if self.in_use {
                    return Err(CommandBufferExecError::ExclusiveAlreadyInUse);
                }
            },
            CommandBufferUsage::SimultaneousUse => {},
        }
        let ghost before = tracker@.buffers;
        let ghost uses = self.buffers@;
        let ghost grants = grants_of(*future, uses, *queue);
        let mut failure: Option<AccessError> = None;
        let mut i: usize = 0;
        assert(uses.take(0) =~= Seq::<BufferUse>::empty());
        while i < self.buffers.len() && failure.is_none()
            invariant
                uses == self.buffers@,
                grants == grants_of(*future, uses, *queue),
                future.inv(),
                i <= uses.len(),
                tracker.wf(),
                tracker@.signaled == old(tracker)@.signaled,
                tracker@.buffers == uses_locked(before, uses.take(i as int)),
                first_refusal(before, uses, grants, 0) == first_refusal(
                    tracker@.buffers,
                    uses,
                    grants,
                    i as int,
                ),
                failure is None ==> locks_possible(tracker@.buffers, uses, grants, i as int),
                failure matches Some(error) ==> first_refusal(
                    tracker@.buffers,
                    uses,
                    grants,
                    i as int,
                ) == Some((i as int, error)),
                forall|k: int|
                    0 <= k < i ==> valid_buffers(#[trigger] uses_locked(before, uses.take(k)))
                        && use_lockable(uses_locked(before, uses.take(k)), uses[k]),
            decreases uses.len() - i + (if failure is None { 1int } else { 0int }),
        {
            let u = &self.buffers[i];
            let grant = future.check_buffer_access(&u.buffer, u.start..u.end, u.exclusive, queue);
            assert(grant == grants[i as int]);
            let outcome = match grant {
                Err(AccessCheckError::Denied(error)) => Err(error),
                Err(AccessCheckError::Unknown) => tracker.check_use(u),
                Ok(_) => Ok(()),
            };
            match outcome {
                Err(error) => {
                    failure = Some(error);
                },
                Ok(_) => {
                    proof {
                        lemma_uses_locked_push(before, uses.take(i as int), uses[i as int]);
                        assert(uses.take(i + 1) =~= uses.take(i as int).push(uses[i as int]));
                    }
                    tracker.lock_use(u);
                    i += 1;
                },
            }
        }
        match failure {
            None => {
                assert(uses.take(uses.len() as int) =~= uses);
                proof {
                    lemma_locks_held(before, uses, uses.len() as int);
                }
                match self.usage {
                    CommandBufferUsage::SimultaneousUse => {},
                    _ => {
                        self.in_use = true;
                    },
                }
                Ok(())
            },
            Some(error) => {
                let failed_at = i;
                let mut j: usize = i;
                while j > 0
                    invariant
                        uses == self.buffers@,
                        j <= failed_at <= uses.len(),
                        tracker.wf(),
                        tracker@.signaled == old(tracker)@.signaled,
                        tracker@.buffers == uses_locked(before, uses.take(j as int)),
                        forall|k: int|
                            0 <= k < failed_at ==> valid_buffers(
                                #[trigger] uses_locked(before, uses.take(k)),
                            ) && use_lockable(uses_locked(before, uses.take(k)), uses[k]),
                    decreases j,
                {
                    j -= 1;
                    proof {
                        let earlier = uses_locked(before, uses.take(j as int));
                        assert(valid_buffers(earlier) && use_lockable(earlier, uses[j as int]));
                        lemma_uses_locked_push(before, uses.take(j as int), uses[j as int]);
                        assert(uses.take(j + 1) =~= uses.take(j as int).push(uses[j as int]));
                        lemma_use_round_trip(earlier, uses[j as int]);
                    }
                    tracker.unlock_use(&self.buffers[j]);
                }
                assert(uses.take(0) =~= Seq::<BufferUse>::empty());
                Err(CommandBufferExecError::AccessError { error, command_offset: failed_at })
            },
        }
    }

    /// Gives the locks of all uses of the command buffer back, the last one
    /// first, once the device has carried it out.
    pub fn unlock(&mut self, tracker: &mut AccessTracker)
        requires
            uses_unlockable(old(tracker)@.buffers, old(self).buffers@.reverse()),
        ensures
            old(tracker).wf() ==> final(tracker).wf(),
            final(tracker)@.buffers == uses_unlocked(
                old(tracker)@.buffers,
                old(self).buffers@.reverse(),
            ),
            final(tracker)@.signaled == old(tracker)@.signaled,
            final(self).key == old(self).key,
            final(self).device == old(self).device,
            final(self).usage == old(self).usage,
            final(self).buffers == old(self).buffers,
            final(self).images == old(self).images,
            final(self).in_use == (old(self).in_use && !(old(self).usage is MultipleSubmit)),
    {
        let ghost order = self.buffers@.reverse();
        let n = self.buffers.len();
        let mut j: usize = n;
        assert(order.skip(0) =~= order);
        while j > 0
            invariant
                n == self.buffers.len(),
                order == self.buffers@.reverse(),
                j <= n,
                old(tracker).wf() ==> tracker.wf(),
                tracker@.signaled == old(tracker)@.signaled,
                uses_unlockable(tracker@.buffers, order.skip(n - j)),
                uses_unlocked(tracker@.buffers, order.skip(n - j)) == uses_unlocked(
                    old(tracker)@.buffers,
                    order,
                ),
            decreases j,
        {
            proof {
                assert(order.skip(n - j)[0] == self.buffers@[j - 1]);
                assert(order.skip(n - j).drop_first() =~= order.skip(n - j + 1));
            }
            j -= 1;
            tracker.unlock_use(&self.buffers[j]);
        }
        assert(order.skip(n as int).len() == 0);
        match self.usage {
            CommandBufferUsage::MultipleSubmit => {
                self.in_use = false;
            },
            _ => {},
        }
    }
}

/// The batch that runs a command buffer after what a future before it asks
/// to be handed over: the command buffer waits for that future's semaphores,
/// or joins that future's batch.
pub open spec fn batch_after(builder: SubmitAnyBuilderView, command_buffer: u64) -> (
    SubmitInfoView,
    Option<Fence>,
) {
    match builder {
        SubmitAnyBuilderView::SemaphoresWait(handles) => (
            SubmitInfoView {
                wait_semaphores: wait_infos_spec(handles),
                command_buffers: seq![command_buffer],
                signal_semaphores: Seq::empty(),
            },
            None,
        ),
        SubmitAnyBuilderView::CommandBuffer(info, fence) => (
            SubmitInfoView {
                wait_semaphores: info.wait_semaphores,
                command_buffers: info.command_buffers.push(command_buffer),
                signal_semaphores: info.signal_semaphores,
            },
            fence,
        ),
        _ => (
            SubmitInfoView {
                wait_semaphores: Seq::empty(),
                command_buffers: seq![command_buffer],
                signal_semaphores: Seq::empty(),
            },
            None,
        ),
    }
}

/// Represents a command buffer being executed by the GPU and the moment when the execution
/// finishes.
#[derive(Debug)]
pub struct CommandBufferExecFuture<F> {
    previous: F,
    command_buffer: CommandBuffer,
    queue: Queue,
    state: FlushState,
    finished: bool,
}

/// Whether a command buffer can be run on a queue after a future.
pub open spec fn executable_after<F: GpuFuture>(
    command_buffer: CommandBuffer,
    future: F,
    queue: Queue,
) -> bool {
    &&& future.inv()
    &&& !future.awaiting()
    &&& !future.may_present()
    &&& command_buffer.device == future.device_spec()
    &&& (!future.queue_change_allowed_spec() ==> future.queue_spec() == Some(queue))
}

impl CommandBuffer {
    /// Executes the command buffer after an existing future: takes the locks of its uses and
    /// gives the future of the moment when the device has carried it out.
    pub fn execute_after<F: GpuFuture>(
        self,
        future: F,
        queue: Queue,
        tracker: &mut AccessTracker,
    ) -> (result: Result<CommandBufferExecFuture<F>, CommandBufferExecError>)
        requires
            executable_after(self, future, queue),
            old(tracker).wf(),
            CommandBuffer::reuse_error(self.usage, self.in_use) is None ==> locks_possible(
                old(tracker)@.buffers,
                self.buffers@,
                grants_of(future, self.buffers@, queue),
                0,
            ),
        ensures
            final(tracker).wf(),
            final(tracker)@.signaled == old(tracker)@.signaled,
            match result {
                Ok(exec) => {
                    &&& CommandBuffer::reuse_error(self.usage, self.in_use) is None
                    &&& first_refusal(
                        old(tracker)@.buffers,
                        self.buffers@,
                        grants_of(future, self.buffers@, queue),
                        0,
                    ) is None
                    &&& final(tracker)@.buffers == uses_locked(old(tracker)@.buffers, self.buffers@)
                    &&& exec.inv()
                    &&& !exec.awaiting()
                    &&& exec.previous_spec() == future
                    &&& exec.device_spec() == future.device_spec()
                    &&& exec.queue_spec() == Some(queue)
                    &&& exec.flush_result() is None
                    &&& exec.held() == self.buffers@.reverse() + future.held()
                    &&& uses_unlockable(final(tracker)@.buffers, self.buffers@.reverse())
                },
                Err(err) => {
                    &&& final(tracker)@.buffers == old(tracker)@.buffers
                    &&& match CommandBuffer::reuse_error(self.usage, self.in_use) {
                        Some(reuse) => err == reuse,
                        None => first_refusal(
                            old(tracker)@.buffers,
                            self.buffers@,
                            grants_of(future, self.buffers@, queue),
                            0,
                        ) matches Some((at, error)) && err
                            == (CommandBufferExecError::AccessError {
                            error,
                            command_offset: at as usize,
                        }),
                    }
                },
            },
    {
        let mut command_buffer = self;
        match command_buffer.lock_submit(&future, &queue, tracker) {
            Ok(_) => Ok(
                CommandBufferExecFuture {
                    previous: future,
                    command_buffer,
                    queue,
                    state: FlushState::Pending,
                    finished: false,
                },
            ),
            Err(err) => Err(err),
        }
    }
}

impl<F: GpuFuture> CommandBufferExecFuture<F> {
    /// The future that the command buffer is run after.
    pub closed spec fn previous_spec(&self) -> F {
        self.previous
    }

    /// The command buffer.
    pub closed spec fn command_buffer_spec(&self) -> CommandBuffer {
        self.command_buffer
    }

    /// How far the flush has come.
    pub closed spec fn state_spec(&self) -> FlushState {
        self.state
    }

    /// Whether the future was told that the device has carried out the
    /// command buffer.
    pub closed spec fn is_finished(&self) -> bool {
        self.finished
    }

    spec fn with_previous(&self, previous: F) -> Self {
        CommandBufferExecFuture {
            previous,
            command_buffer: self.command_buffer,
            queue: self.queue,
            state: self.state,
            finished: self.finished,
        }
    }

    spec fn with_state(&self, state: FlushState) -> Self {
        CommandBufferExecFuture {
            previous: self.previous,
            command_buffer: self.command_buffer,
            queue: self.queue,
            state,
            finished: self.finished,
        }
    }

    /// The submission of the command buffer, whether or not it was handed
    /// over already.
    pub closed spec fn build_impl_spec(&self) -> (Self, BuildStepView) {
        let (previous, step) = self.previous.build_spec();
        (
            self.with_previous(previous),
            match step {
                BuildStepView::Ready(Ok(builder)) => {
                    let (info, fence) = batch_after(builder, self.command_buffer.key);
                    BuildStepView::Ready(Ok(SubmitAnyBuilderView::CommandBuffer(info, fence)))
                },
                step => step,
            },
        )
    }

    /// The command buffer, with its mark of being in use as it is once its
    /// locks were given back.
    pub closed spec fn released_command_buffer(&self) -> CommandBuffer {
        CommandBuffer {
            key: self.command_buffer.key,
            device: self.command_buffer.device,
            usage: self.command_buffer.usage,
            in_use: self.command_buffer.in_use && !(self.command_buffer.usage is MultipleSubmit),
            buffers: self.command_buffer.buffers,
            images: self.command_buffer.images,
        }
    }

    fn build_submission_impl(&mut self) -> (step: BuildStep)
        requires
            old(self).inv(),
            !old(self).awaiting(),
        ensures
            (*final(self), step@) == old(self).build_impl_spec(),
    {
        match self.previous.build_submission() {
            BuildStep::Ready(Ok(builder)) => {
                let (info, fence) = match builder {
                    SubmitAnyBuilder::SemaphoresWait(list) => {
                        let mut command_buffers: Vec<u64> = Vec::new();
                        command_buffers.push(self.command_buffer.key);
                        assert(command_buffers@ =~= seq![self.command_buffer.key]);
                        (
                            SubmitInfo {
                                wait_semaphores: wait_infos(&list),
                                command_buffers,
                                signal_semaphores: Vec::new(),
                            },
                            None,
                        )
                    },
                    SubmitAnyBuilder::CommandBuffer(mut info, fence) => {
                        info.command_buffers.push(self.command_buffer.key);
                        (info, fence)
                    },
                    _ => {
                        let mut command_buffers: Vec<u64> = Vec::new();
                        command_buffers.push(self.command_buffer.key);
                        assert(command_buffers@ =~= seq![self.command_buffer.key]);
                        (
                            SubmitInfo {
                                wait_semaphores: Vec::new(),
                                command_buffers,
                                signal_semaphores: Vec::new(),
                            },
                            None,
                        )
                    },
                };
                BuildStep::Ready(Ok(SubmitAnyBuilder::CommandBuffer(info, fence)))
            },
            step => step,
        }
    }
}

impl<F: GpuFuture> GpuFuture for CommandBufferExecFuture<F> {
    closed spec fn inv(&self) -> bool {
        &&& self.previous.inv()
        &&& !self.previous.may_present()
        &&& !(self.state.awaiting() && self.previous.awaiting())
        &&& !(self.state is Presenting) && !(self.state is Presented)
        &&& (self.state is Submitting || (self.state matches FlushState::Flushed(Ok(_)))
            ==> self.previous.signals_flushed())
        &&& self.command_buffer.device == self.previous.device_spec()
    }

    closed spec fn device_spec(&self) -> u64 {
        self.command_buffer.device
    }

    closed spec fn awaiting(&self) -> bool {
        self.state.awaiting() || self.previous.awaiting()
    }

    closed spec fn may_present(&self) -> bool {
        false
    }

    closed spec fn signals_flushed(&self) -> bool {
        self.previous.signals_flushed()
    }

    closed spec fn flush_result(&self) -> Option<Result<(), FlushError>> {
        self.state.result()
    }

    closed spec fn build_spec(&self) -> (Self, BuildStepView) {
        match self.state {
            FlushState::Flushed(Ok(_)) => (*self, BuildStepView::Ready(Ok(SubmitAnyBuilderView::Empty))),
            FlushState::Flushed(Err(err)) => (*self, BuildStepView::Ready(Err(err))),
            _ => self.build_impl_spec(),
        }
    }

    closed spec fn flush_spec(&self) -> (Self, FlushStepView) {
        match self.state {
            FlushState::Flushed(result) => (*self, FlushStepView::Done(result)),
            _ => {
                let (built, step) = self.build_impl_spec();
                match step {
                    BuildStepView::Submit(submission) => (built, FlushStepView::Submit(submission)),
                    BuildStepView::Ready(Err(err)) => (
                        built.with_state(FlushState::Flushed(Err(err))),
                        FlushStepView::Done(Err(err)),
                    ),
                    BuildStepView::Ready(Ok(SubmitAnyBuilderView::CommandBuffer(info, fence))) => (
                        built.with_state(FlushState::Submitting),
                        FlushStepView::Submit(
                            SubmissionView::Submit { queue: self.queue, info, fence },
                        ),
                    ),
                    BuildStepView::Ready(Ok(_)) => (
                        built.with_state(FlushState::Flushed(Ok(()))),
                        FlushStepView::Done(Ok(())),
                    ),
                }
            },
        }
    }

    closed spec fn submitted_spec(&self, outcome: Result<(), VulkanError>) -> Self {
        if self.state.awaiting() {
            self.with_state(FlushState::Flushed(FlushError::outcome_spec(outcome)))
        } else {
            self.with_previous(self.previous.submitted_spec(outcome))
        }
    }

    closed spec fn held(&self) -> Seq<BufferUse> {
        if self.finished {
            self.previous.held()
        } else {
            self.command_buffer.buffers@.reverse() + self.previous.held()
        }
    }

    closed spec fn finished_spec(&self) -> Self {
        CommandBufferExecFuture {
            previous: self.previous.finished_spec(),
            command_buffer: if self.finished {
                self.command_buffer
            } else {
                self.released_command_buffer()
            },
            queue: self.queue,
            state: self.state,
            finished: true,
        }
    }

    closed spec fn cleanup_released(&self, signaled: Set<u64>) -> Seq<BufferUse> {
        self.previous.cleanup_released(signaled)
    }

    closed spec fn cleanup_spec(&self, signaled: Set<u64>) -> Self {
        self.with_previous(self.previous.cleanup_spec(signaled))
    }

    closed spec fn queue_spec(&self) -> Option<Queue> {
        Some(self.queue)
    }

    closed spec fn queue_change_allowed_spec(&self) -> bool {
        false
    }

    closed spec fn buffer_access(
        &self,
        buffer: u64,
        start: int,
        end: int,
        exclusive: bool,
        queue: Queue,
    ) -> AccessGrant {
        match buffer_grant(self.command_buffer.buffers@, buffer, start, end, exclusive) {
            Err(AccessCheckError::Unknown) => self.previous.buffer_access(
                buffer,
                start,
                end,
                exclusive,
                queue,
            ),
            grant => grant,
        }
    }

    closed spec fn image_access(
        &self,
        image: u64,
        start: int,
        end: int,
        exclusive: bool,
        expected_layout: ImageLayout,
        queue: Queue,
    ) -> AccessGrant {
        match image_grant(
            self.command_buffer.images@,
            image,
            start,
            end,
            exclusive,
            expected_layout,
        ) {
            Err(AccessCheckError::Unknown) => self.previous.image_access(
                image,
                start,
                end,
                exclusive,
                expected_layout,
                queue,
            ),
            grant => grant,
        }
    }

    closed spec fn swapchain_image_acquired(&self, image: u64, before: bool) -> Result<
        (),
        AccessCheckError,
    > {
        self.previous.swapchain_image_acquired(image, false)
    }

    proof fn lemma_steps(&self) {
        self.previous.lemma_steps();
    }

    proof fn lemma_submitted(&self, outcome: Result<(), VulkanError>) {
        self.previous.lemma_submitted(outcome);
    }

    proof fn lemma_release(&self, signaled: Set<u64>) {
        self.previous.lemma_release(signaled);
    }

    fn cleanup_finished(&mut self, tracker: &mut AccessTracker) {
        self.previous.cleanup_finished(tracker);
    }

    fn build_submission(&mut self) -> (step: BuildStep) {
        match self.state {
            FlushState::Flushed(Ok(_)) => BuildStep::Ready(Ok(SubmitAnyBuilder::Empty)),
            FlushState::Flushed(Err(err)) => BuildStep::Ready(Err(err)),
            _ => self.build_submission_impl(),
        }
    }

    fn flush(&mut self) -> (step: FlushStep) {
        match self.state {
            FlushState::Flushed(result) => FlushStep::Done(result),
            _ => {
                match self.build_submission_impl() {
                    BuildStep::Submit(submission) => FlushStep::Submit(submission),
                    BuildStep::Ready(Err(err)) => {
                        self.state = FlushState::Flushed(Err(err));
                        FlushStep::Done(Err(err))
                    },
                    BuildStep::Ready(Ok(SubmitAnyBuilder::CommandBuffer(info, fence))) => {
                        self.state = FlushState::Submitting;
                        FlushStep::Submit(Submission::Submit { queue: self.queue, info, fence })
                    },
                    BuildStep::Ready(Ok(_)) => {
                        self.state = FlushState::Flushed(Ok(()));
                        FlushStep::Done(Ok(()))
                    },
                }
            },
        }
    }

    fn submitted(&mut self, outcome: Result<(), VulkanError>) {
        if self.state.is_awaiting() {
            self.state = FlushState::Flushed(
                match outcome {
                    Ok(_) => Ok(()),
                    Err(err) => Err(FlushError::from_vulkan_error(err)),
                },
            );
        } else {
            self.previous.submitted(outcome);
        }
    }

    fn is_awaiting(&self) -> (r: bool) {
        self.state.is_awaiting() || self.previous.is_awaiting()
    }

    fn signal_finished(&mut self, tracker: &mut AccessTracker) {
        if !self.finished {
            proof {
                crate::sync::tracker::lemma_uses_unlockable_concat(
                    tracker@.buffers,
                    self.command_buffer.buffers@.reverse(),
                    self.previous.held(),
                );
            }
            self.finished = true;
            self.command_buffer.unlock(tracker);
        }
        self.previous.signal_finished(tracker);
    }

    fn device(&self) -> (device: u64) {
        self.command_buffer.device
    }

    fn queue(&self) -> (queue: Option<Queue>) {
        Some(self.queue)
    }

    fn queue_change_allowed(&self) -> (allowed: bool) {
        false
    }

    fn check_buffer_access(
        &self,
        buffer: &UnsafeBuffer,
        range: Range<DeviceSize>,
        exclusive: bool,
        queue: &Queue,
    ) -> (grant: AccessGrant) {
        match self.command_buffer.check_buffer_access(
            buffer,
            range.start..range.end,
            exclusive,
            queue,
        ) {
            Err(AccessCheckError::Unknown) => self.previous.check_buffer_access(
                buffer,
                range,
                exclusive,
                queue,
            ),
            grant => grant,
        }
    }

    fn check_image_access(
        &self,
        image: &UnsafeImage,
        range: Range<DeviceSize>,
        exclusive: bool,
        expected_layout: ImageLayout,
        queue: &Queue,
    ) -> (grant: AccessGrant) {
        match self.command_buffer.check_image_access(
            image,
            range.start..range.end,
            exclusive,
            expected_layout,
            queue,
        ) {
            Err(AccessCheckError::Unknown) => self.previous.check_image_access(
                image,
                range,
                exclusive,
                expected_layout,
                queue,
            ),
            grant => grant,
        }
    }

    fn check_swapchain_image_acquired(&self, image: &UnsafeImage, before: bool) -> (result: Result<
        (),
        AccessCheckError,
    >) {
        self.previous.check_swapchain_image_acquired(image, false)
    }
}

} // verus!
