//! Events on the device that have not happened yet, and what may come after
//! them.
//!
//! A future stands for a moment in the work of the device. Futures are built
//! on one another: each knows the futures that must have happened before it.
//! A future does not talk to the driver. Where something must be handed to a
//! queue, `flush` and `build_submission` say what, and stop; the caller hands
//! it over and reports the outcome with `submitted`, then asks again.

use crate::buffer::sys::UnsafeBuffer;
use crate::command_buffer::{
    executable_after, first_refusal, grants_of, locks_possible, CommandBuffer,
    CommandBufferExecError, CommandBufferExecFuture, SemaphoreSubmitInfo, SubmitInfo,
    SubmitInfoView,
};
use crate::device::Queue;
use crate::image::sys::UnsafeImage;
use crate::memory::BindSparseInfo;
use crate::swapchain::{
    present, PresentFuture, PresentInfo, PresentInfoView, SwapchainPresentInfo,
};
use crate::image::ImageLayout;
use crate::sync::tracker::{
    uses_locked, uses_unlockable, uses_unlocked, AccessTracker, BufferUse,
};
use crate::sync::{AccessFlags, CurrentAccess, Fence, PipelineStages, Semaphore};
use crate::{DeviceSize, OomError, VulkanError};
use smallvec::SmallVec;
use std::ops::Range;
use vstd::pervasive::unreached;
use vstd::prelude::*;


pub mod boxed;
pub mod fence_signal;
pub mod join;
pub mod now;
pub mod semaphore_signal;


verus! {

/// Access to a resource was denied.
#[derive(Clone, Copy, Debug, PartialEq, Eq, Structural)]
pub enum AccessError {
    /// Exclusive access is denied.
    ExclusiveDenied,
    /// The resource is already in use, and there is no tracking of concurrent usages.
    AlreadyInUse,
    /// The image is in another layout than the one asked for.
    UnexpectedImageLayout { allowed: ImageLayout, requested: ImageLayout },
    /// Trying to use an image without transitioning it from the "undefined" or
    /// "preinitialized" layouts first.
    ImageNotInitialized {
        /// The layout that was requested for the image.
        requested: ImageLayout,
    },
    /// Trying to use a buffer that still contains garbage data.
    BufferNotInitialized,
    /// Trying to use a swapchain image without depending on a corresponding acquire image
    /// future.
    SwapchainImageNotAcquired,
}

/// Error that can happen when checking whether we have access to a resource.
#[derive(Clone, Copy, Debug, PartialEq, Eq, Structural)]
pub enum AccessCheckError {
    /// Access to the resource has been denied.
    Denied(AccessError),
    /// The resource is unknown, therefore we cannot possibly answer whether we have access or
    /// not.
    Unknown,
}

/// Error that can happen when the work that a future needs is handed to the
/// device.
#[derive(Clone, Copy, Debug, PartialEq, Eq, Structural)]
pub enum FlushError {
    /// Access to a resource has been denied.
    AccessError(AccessError),
    /// Not enough memory.
    OomError(OomError),
    /// The connection to the device has been lost.
    DeviceLost,
    /// The surface is no longer accessible and must be recreated.
    SurfaceLost,
    /// The surface has changed in a way that makes the swapchain unusable. You must query the
    /// surface's new properties and recreate a new swapchain if you want to continue drawing.
    OutOfDate,
    /// The swapchain has lost or doesn't have full screen exclusivity possibly for
    /// implementation-specific reasons outside of the application's control.
    FullScreenExclusiveModeLost,
    /// The flush operation needed to block, but the timeout has elapsed.
    Timeout,
    /// A non-zero present_id must be greater than any non-zero present_id passed previously
    /// for the same swapchain.
    PresentIdLessThanOrEqual,
}

/// Error of a wait for a fence.
#[derive(Clone, Copy, Debug, PartialEq, Eq, Structural)]
pub enum FenceError {
    /// Not enough memory.
    OomError(OomError),
    /// The device has been lost.
    DeviceLost,
    /// The specified timeout wasn't long enough.
    Timeout,
}

/// What access to a resource a future grants to what comes after it: the
/// stages and the ways of the latest use, where it knows them.
pub type AccessGrant = Result<Option<(PipelineStages, AccessFlags)>, AccessCheckError>;

impl AccessError {
    /// What the error says, in words. There are none for an unexpected image
    /// layout.
    pub fn to_string(&self) -> (s: String)
        requires
            !(*self is UnexpectedImageLayout),
        ensures
            s@ == match *self {
                AccessError::ExclusiveDenied => "only shared access is allowed for this resource"@,
                AccessError::AlreadyInUse => "the resource is already in use, and there is no tracking of concurrent usages"@,
                AccessError::UnexpectedImageLayout { .. } => s@,
                AccessError::ImageNotInitialized { .. } => "trying to use an image without transitioning it from the undefined or preinitialized layouts first"@,
                AccessError::BufferNotInitialized => "trying to use a buffer that still contains garbage data"@,
                AccessError::SwapchainImageNotAcquired => "trying to use a swapchain image without depending on a corresponding acquire image future"@,
            },
    {
        match self {
            AccessError::ExclusiveDenied => "only shared access is allowed for this resource".to_owned(),
            AccessError::AlreadyInUse => "the resource is already in use, and there is no tracking of concurrent usages".to_owned(),
            AccessError::UnexpectedImageLayout { .. } => unreached(),
            AccessError::ImageNotInitialized { .. } => "trying to use an image without transitioning it from the undefined or preinitialized layouts first".to_owned(),
            AccessError::BufferNotInitialized => "trying to use a buffer that still contains garbage data".to_owned(),
            AccessError::SwapchainImageNotAcquired => "trying to use a swapchain image without depending on a corresponding acquire image future".to_owned(),
        }
    }
}

impl AccessCheckError {
    /// What the error says, in words.
    pub fn to_string(&self) -> (s: String)
        ensures
            s@ == match *self {
                AccessCheckError::Denied(_) => "access to the resource has been denied"@,
                AccessCheckError::Unknown => "the resource is unknown"@,
            },
    {
        match self {
            AccessCheckError::Denied(_) => "access to the resource has been denied".to_owned(),
            AccessCheckError::Unknown => "the resource is unknown".to_owned(),
        }
    }
}

impl From<AccessError> for AccessCheckError {
    fn from(err: AccessError) -> (r: AccessCheckError) {
        AccessCheckError::Denied(err)
    }
}

impl vstd::std_specs::convert::FromSpecImpl<AccessError> for AccessCheckError {
    open spec fn obeys_from_spec() -> bool {
        true
    }

    open spec fn from_spec(err: AccessError) -> AccessCheckError {
        AccessCheckError::Denied(err)
    }
}

impl FlushError {
    /// Whether the driver's error is one that handing work to a queue can
    /// end with.
    pub open spec fn convertible(err: VulkanError) -> bool {
        err is OutOfHostMemory || err is OutOfDeviceMemory || err is DeviceLost
            || err is SurfaceLost || err is OutOfDate || err is FullScreenExclusiveModeLost
    }

    /// The flush error that stands for an error of the driver.
    pub open spec fn from_vulkan_error_spec(err: VulkanError) -> FlushError {
        match err {
            VulkanError::OutOfHostMemory => FlushError::OomError(OomError::OutOfHostMemory),
            VulkanError::OutOfDeviceMemory => FlushError::OomError(OomError::OutOfDeviceMemory),
            VulkanError::DeviceLost => FlushError::DeviceLost,
            VulkanError::SurfaceLost => FlushError::SurfaceLost,
            VulkanError::OutOfDate => FlushError::OutOfDate,
            _ => FlushError::FullScreenExclusiveModeLost,
        }
    }

    /// Turns an error of the driver into a flush error.
    pub fn from_vulkan_error(err: VulkanError) -> (r: FlushError)
        requires
            FlushError::convertible(err),
        ensures
            r == FlushError::from_vulkan_error_spec(err),
    {
        match err {
            VulkanError::OutOfHostMemory => FlushError::OomError(OomError::OutOfHostMemory),
            VulkanError::OutOfDeviceMemory => FlushError::OomError(OomError::OutOfDeviceMemory),
            VulkanError::DeviceLost => FlushError::DeviceLost,
            VulkanError::SurfaceLost => FlushError::SurfaceLost,
            VulkanError::OutOfDate => FlushError::OutOfDate,
            _ => FlushError::FullScreenExclusiveModeLost,
        }
    }

    /// The flush error that stands for the error of a wait for a fence.
    pub open spec fn from_fence_error_spec(err: FenceError) -> FlushError {
        match err {
            FenceError::OomError(err) => FlushError::OomError(err),
            FenceError::Timeout => FlushError::Timeout,
            FenceError::DeviceLost => FlushError::DeviceLost,
        }
    }

    /// Whether a driver error is one that `from_vulkan_error` takes.
    pub fn is_convertible(err: &VulkanError) -> (r: bool)
        ensures
            r == FlushError::convertible(*err),
    {
        match err {
            VulkanError::OutOfHostMemory
            | VulkanError::OutOfDeviceMemory
            | VulkanError::DeviceLost
            | VulkanError::SurfaceLost
            | VulkanError::OutOfDate
            | VulkanError::FullScreenExclusiveModeLost => true,
            _ => false,
        }
    }

    /// The flush error that stands for the outcome of handing work to a queue.
    pub open spec fn outcome_spec(outcome: Result<(), VulkanError>) -> Result<(), FlushError> {
        match outcome {
            Ok(()) => Ok(()),
            Err(err) => Err(FlushError::from_vulkan_error_spec(err)),
        }
    }

    /// Whether the caller must recreate the swapchain and may then go on.
    pub fn needs_new_swapchain(&self) -> (r: bool)
        ensures
            r == (*self is OutOfDate || *self is FullScreenExclusiveModeLost),
    {
        match self {
            FlushError::OutOfDate | FlushError::FullScreenExclusiveModeLost => true,
            _ => false,
        }
    }

    /// Whether nothing more can be done with the device or the surface.
    pub fn is_fatal(&self) -> (r: bool)
        ensures
            r == (*self is DeviceLost || *self is OomError || *self is SurfaceLost),
    {
        match self {
            FlushError::DeviceLost | FlushError::OomError(_) | FlushError::SurfaceLost => true,
            _ => false,
        }
    }

    /// What the error says, in words.
    pub fn to_string(&self) -> (s: String)
        ensures
            s@ == match *self {
                FlushError::AccessError(_) => "access to a resource has been denied"@,
                FlushError::OomError(_) => "not enough memory"@,
                FlushError::DeviceLost => "the connection to the device has been lost"@,
                FlushError::SurfaceLost => "the surface of this swapchain is no longer valid"@,
                FlushError::OutOfDate => "the swapchain needs to be recreated"@,
                FlushError::FullScreenExclusiveModeLost => "the swapchain no longer has full screen exclusivity"@,
                FlushError::Timeout => "the flush operation needed to block, but the timeout has elapsed"@,
                FlushError::PresentIdLessThanOrEqual => "present id is less than or equal to previous"@,
            },
    {
        match self {
            FlushError::AccessError(_) => "access to a resource has been denied".to_owned(),
            FlushError::OomError(_) => "not enough memory".to_owned(),
            FlushError::DeviceLost => "the connection to the device has been lost".to_owned(),
            FlushError::SurfaceLost => "the surface of this swapchain is no longer valid".to_owned(),
            FlushError::OutOfDate => "the swapchain needs to be recreated".to_owned(),
            FlushError::FullScreenExclusiveModeLost => "the swapchain no longer has full screen exclusivity".to_owned(),
            FlushError::Timeout => "the flush operation needed to block, but the timeout has elapsed".to_owned(),
            FlushError::PresentIdLessThanOrEqual => "present id is less than or equal to previous".to_owned(),
        }
    }
}

impl From<AccessError> for FlushError {
    fn from(err: AccessError) -> (r: FlushError) {
        FlushError::AccessError(err)
    }
}

impl vstd::std_specs::convert::FromSpecImpl<AccessError> for FlushError {
    open spec fn obeys_from_spec() -> bool {
        true
    }

    open spec fn from_spec(err: AccessError) -> FlushError {
        FlushError::AccessError(err)
    }
}

impl From<FenceError> for FlushError {
    fn from(err: FenceError) -> (r: FlushError) {
        match err {
            FenceError::OomError(err) => FlushError::OomError(err),
            FenceError::Timeout => FlushError::Timeout,
            FenceError::DeviceLost => FlushError::DeviceLost,
        }
    }
}

impl vstd::std_specs::convert::FromSpecImpl<FenceError> for FlushError {
    open spec fn obeys_from_spec() -> bool {
        true
    }

    open spec fn from_spec(err: FenceError) -> FlushError {
        FlushError::from_fence_error_spec(err)
    }
}

/// A short list of semaphores, by handle.
#[verifier::external_body]
#[derive(Debug)]
pub struct SemaphoreList {
    inner: SmallVec<[u64; 8]>,
}

/// The handles that a list of semaphores holds, in order.
pub uninterp spec fn semaphore_handles(list: SemaphoreList) -> Seq<u64>;

impl View for SemaphoreList {
    type V = Seq<u64>;

    open spec fn view(&self) -> Seq<u64> {
        semaphore_handles(*self)
    }
}

impl SemaphoreList {
    /// `SmallVec::new`: a list that holds nothing.
    #[verifier::external_body]
    pub(crate) fn empty() -> (list: SemaphoreList)
        ensures
            semaphore_handles(list) == Seq::<u64>::empty(),
    {
        SemaphoreList { inner: SmallVec::new() }
    }

    /// `SmallVec::push`: the handle of the semaphore is added at the end.
    #[verifier::external_body]
    pub(crate) fn push_handle(&mut self, semaphore: Semaphore)
        ensures
            semaphore_handles(*final(self)) == semaphore_handles(*old(self)).push(
                semaphore.handle,
            ),
    {
        self.inner.push(semaphore.handle)
    }

    /// `SmallVec::len`: the number of handles in the list.
    #[verifier::external_body]
    pub(crate) fn count(&self) -> (n: usize)
        ensures
            n == semaphore_handles(*self).len(),
    {
        self.inner.len()
    }

    /// Indexing a `SmallVec`: the semaphore whose handle stands at place `i`.
    #[verifier::external_body]
    pub(crate) fn at(&self, i: usize) -> (semaphore: Semaphore)
        requires
            i < semaphore_handles(*self).len(),
        ensures
            semaphore.handle == semaphore_handles(*self)[i as int],
    {
        Semaphore { handle: self.inner[i] }
    }

    /// A list that holds nothing.
    pub fn new() -> (list: SemaphoreList)
        ensures
            list@ == Seq::<u64>::empty(),
    {
        SemaphoreList::empty()
    }

    /// A list that holds one semaphore.
    pub fn one(semaphore: Semaphore) -> (list: SemaphoreList)
        ensures
            list@ == seq![semaphore.handle],
    {
        let mut list = SemaphoreList::empty();
        list.push_handle(semaphore);
        assert(list@ =~= seq![semaphore.handle]);
        list
    }

    /// Adds a semaphore at the end.
    pub fn push(&mut self, semaphore: Semaphore)
        ensures
            final(self)@ == old(self)@.push(semaphore.handle),
    {
        self.push_handle(semaphore)
    }

    /// The number of semaphores in the list.
    pub fn len(&self) -> (n: usize)
        ensures
            n == self@.len(),
    {
        self.count()
    }

    /// The semaphore at place `i`, if there is one.
    pub fn get(&self, i: usize) -> (semaphore: Option<Semaphore>)
        ensures
            semaphore == if i < self@.len() {
                Some(Semaphore { handle: self@[i as int] })
            } else {
                None
            },
    {
        if i < self.count() {
            Some(self.at(i))
        } else {
            None
        }
    }

    /// Adds the semaphores of `other` at the end, in their order.
    pub fn extend(&mut self, other: &SemaphoreList)
        ensures
            final(self)@ == old(self)@ + other@,
    {
        let n = other.count();
        let mut i: usize = 0;
        while i < n
            invariant
                n == other@.len(),
                i <= n,
                self@ == old(self)@ + other@.take(i as int),
            decreases n - i,
        {
            let semaphore = other.at(i);
            self.push_handle(semaphore);
            assert(other@.take(i + 1) =~= other@.take(i as int).push(other@[i as int]));
            assert(self@ =~= old(self)@ + other@.take(i + 1));
            i += 1;
        }
        assert(other@.take(n as int) =~= other@);
    }

    /// The semaphores of the list, in order.
    pub fn to_vec(&self) -> (semaphores: Vec<Semaphore>)
        ensures
            semaphores@ == self@.map_values(|handle: u64| Semaphore { handle }),
    {
        let n = self.count();
        let mut semaphores: Vec<Semaphore> = Vec::new();
        let mut i: usize = 0;
        while i < n
            invariant
                n == self@.len(),
                i <= n,
                semaphores@ == self@.take(i as int).map_values(|handle: u64| Semaphore { handle }),
            decreases n - i,
        {
            semaphores.push(self.at(i));
            assert(semaphores@ =~= self@.take(i + 1).map_values(
                |handle: u64| Semaphore { handle },
            ));
            i += 1;
        }
        assert(self@.take(n as int) =~= self@);
        semaphores
    }
}

/// Contains all the possible submission builders.
#[derive(Debug)]
pub enum SubmitAnyBuilder {
    /// Nothing has to be handed to a queue.
    Empty,
    /// What comes next has to wait for these semaphores.
    SemaphoresWait(SemaphoreList),
    /// A batch of command buffers, and the fence to signal after it.
    CommandBuffer(SubmitInfo, Option<Fence>),
    /// Images to show.
    QueuePresent(PresentInfo),
    /// Bindings of sparse resources, and the fence to signal after them.
    BindSparse(Vec<BindSparseInfo>, Option<Fence>),
}

/// What a submission builder holds.
pub enum SubmitAnyBuilderView {
    Empty,
    SemaphoresWait(Seq<u64>),
    CommandBuffer(SubmitInfoView, Option<Fence>),
    QueuePresent(PresentInfoView),
    BindSparse(Seq<BindSparseInfo>, Option<Fence>),
}

impl View for SubmitAnyBuilder {
    type V = SubmitAnyBuilderView;

    open spec fn view(&self) -> SubmitAnyBuilderView {
        match *self {
            SubmitAnyBuilder::Empty => SubmitAnyBuilderView::Empty,
            SubmitAnyBuilder::SemaphoresWait(list) => SubmitAnyBuilderView::SemaphoresWait(list@),
            SubmitAnyBuilder::CommandBuffer(info, fence) => SubmitAnyBuilderView::CommandBuffer(
                info@,
                fence,
            ),
            SubmitAnyBuilder::QueuePresent(info) => SubmitAnyBuilderView::QueuePresent(info@),
            SubmitAnyBuilder::BindSparse(infos, fence) => SubmitAnyBuilderView::BindSparse(
                infos@,
                fence,
            ),
        }
    }
}

impl SubmitAnyBuilder {
    /// Returns true if equal to `SubmitAnyBuilder::Empty`.
    pub fn is_empty(&self) -> (r: bool)
        ensures
            r == (self@ is Empty),
    {
        matches!(self, SubmitAnyBuilder::Empty)
    }
}

/// Something to hand to a queue of the device.
#[derive(Debug)]
pub enum Submission {
    /// A batch of work, and the fence to signal after it.
    Submit { queue: Queue, info: SubmitInfo, fence: Option<Fence> },
    /// Images to show.
    Present { queue: Queue, present: PresentInfo },
}

/// What a submission holds.
pub enum SubmissionView {
    Submit { queue: Queue, info: SubmitInfoView, fence: Option<Fence> },
    Present { queue: Queue, present: PresentInfoView },
}

impl View for Submission {
    type V = SubmissionView;

    open spec fn view(&self) -> SubmissionView {
        match *self {
            Submission::Submit { queue, info, fence } => SubmissionView::Submit {
                queue,
                info: info@,
                fence,
            },
            Submission::Present { queue, present } => SubmissionView::Present {
                queue,
                present: present@,
            },
        }
    }
}

/// How far a flush has come.
#[derive(Debug)]
pub enum FlushStep {
    /// Nothing is left to hand over: the flush has ended, with this result.
    Done(Result<(), FlushError>),
    /// This has to be handed to its queue next. The caller reports the
    /// outcome with `submitted` and asks again.
    Submit(Submission),
}

/// What a step of a flush holds.
pub enum FlushStepView {
    Done(Result<(), FlushError>),
    Submit(SubmissionView),
}

impl View for FlushStep {
    type V = FlushStepView;

    open spec fn view(&self) -> FlushStepView {
        match *self {
            FlushStep::Done(result) => FlushStepView::Done(result),
            FlushStep::Submit(submission) => FlushStepView::Submit(submission@),
        }
    }
}

/// How far the building of a submission has come.
#[derive(Debug)]
pub enum BuildStep {
    /// What has to be handed over for the future to happen, or why it cannot
    /// happen.
    Ready(Result<SubmitAnyBuilder, FlushError>),
    /// This has to be handed to its queue first. The caller reports the
    /// outcome with `submitted` and asks again.
    Submit(Submission),
}

/// What a step of the building of a submission holds.
pub enum BuildStepView {
    Ready(Result<SubmitAnyBuilderView, FlushError>),
    Submit(SubmissionView),
}

impl View for BuildStep {
    type V = BuildStepView;

    open spec fn view(&self) -> BuildStepView {
        match *self {
            BuildStep::Ready(Ok(builder)) => BuildStepView::Ready(Ok(builder@)),
            BuildStep::Ready(Err(err)) => BuildStepView::Ready(Err(err)),
            BuildStep::Submit(submission) => BuildStepView::Submit(submission@),
        }
    }
}

/// How far the flush of a future that hands something to a queue itself has
/// come.
#[derive(Clone, Copy, Debug, PartialEq, Eq)]
pub enum FlushState {
    /// Nothing was handed over yet.
    Pending,
    /// A step asked for the future's own submission to be handed over; the
    /// outcome is not known yet.
    Submitting,
    /// A step asked for a presentation that comes before the future's own
    /// submission to be handed over; the outcome is not known yet.
    Presenting,
    /// The presentation that comes before the future's own submission was
    /// handed over. The submission itself was not.
    Presented,
    /// The flush has ended, with this result.
    Flushed(Result<(), FlushError>),
}

impl FlushState {
    /// Whether the outcome of something handed over is waited for.
    pub open spec fn awaiting(self) -> bool {
        self is Submitting || self is Presenting
    }

    /// How the flush ended, if it has ended.
    pub open spec fn result(self) -> Option<Result<(), FlushError>> {
        match self {
            FlushState::Flushed(result) => Some(result),
            _ => None,
        }
    }

    /// Whether the outcome of something handed over is waited for.
    pub fn is_awaiting(&self) -> (r: bool)
        ensures
            r == self.awaiting(),
    {
        match self {
            FlushState::Submitting | FlushState::Presenting => true,
            _ => false,
        }
    }
}

/// The stages that wait for a semaphore where nothing more is known: all of
/// them.
pub open spec fn all_commands_spec() -> PipelineStages {
    PipelineStages {
        top_of_pipe: false,
        draw_indirect: false,
        vertex_input: false,
        vertex_shader: false,
        tessellation_control_shader: false,
        tessellation_evaluation_shader: false,
        geometry_shader: false,
        fragment_shader: false,
        early_fragment_tests: false,
        late_fragment_tests: false,
        color_attachment_output: false,
        compute_shader: false,
        transfer: false,
        bottom_of_pipe: false,
        host: false,
        all_graphics: false,
        all_commands: true,
    }
}

/// The semaphores of a list as semaphores to wait for, at all stages.
pub open spec fn wait_infos_spec(handles: Seq<u64>) -> Seq<SemaphoreSubmitInfo> {
    handles.map_values(
        |handle: u64|
            SemaphoreSubmitInfo { semaphore: Semaphore { handle }, stages: all_commands_spec() },
    )
}

/// The semaphores of a list as semaphores to wait for, at all stages.
pub fn wait_infos(list: &SemaphoreList) -> (infos: Vec<SemaphoreSubmitInfo>)
    ensures
        infos@ == wait_infos_spec(list@),
{
    let n = list.len();
    let mut infos: Vec<SemaphoreSubmitInfo> = Vec::new();
    let mut i: usize = 0;
    while i < n
        invariant
            n == list@.len(),
            i <= n,
            infos@ == wait_infos_spec(list@.take(i as int)),
        decreases n - i,
    {
        let mut stages = PipelineStages::empty();
        stages.all_commands = true;
        let semaphore = list.at(i);
        infos.push(SemaphoreSubmitInfo { semaphore, stages });
        assert(infos@ =~= wait_infos_spec(list@.take(i + 1)));
        i += 1;
    }
    assert(list@.take(n as int) =~= list@);
    infos
}

/// Represents an event that will happen on the GPU in the future.
pub trait GpuFuture: Sized {
    /// Whether the future is in a state that its own operations lead to.
    spec fn inv(&self) -> bool;

    /// The device that the future belongs to.
    spec fn device_spec(&self) -> u64;

    /// Whether a step asked for something to be handed to a queue and the
    /// outcome was not reported yet.
    spec fn awaiting(&self) -> bool;

    /// Whether the submission of the future can be a presentation.
    spec fn may_present(&self) -> bool;

    /// Whether every semaphore and fence that the future or one before it
    /// signals was handed to its queue.
    spec fn signals_flushed(&self) -> bool;

    /// How the flush of the future ended, if it has ended.
    spec fn flush_result(&self) -> Option<Result<(), FlushError>>;

    /// The next step of the building of the submission, and the future
    /// after it.
    spec fn build_spec(&self) -> (Self, BuildStepView);

    /// The next step of the flush, and the future after it.
    spec fn flush_spec(&self) -> (Self, FlushStepView);

    /// The future after the outcome of what the last step asked for was
    /// reported.
    spec fn submitted_spec(&self, outcome: Result<(), VulkanError>) -> Self;

    /// The locks on resources that the future and those before it hold, in
    /// the order in which they are given back.
    spec fn held(&self) -> Seq<BufferUse>;

    /// The future after it was told that what it stands for has happened.
    spec fn finished_spec(&self) -> Self;

    /// The locks that a cleanup gives back, where the device has signaled the
    /// given fences.
    spec fn cleanup_released(&self, signaled: Set<u64>) -> Seq<BufferUse>;

    /// The future after a cleanup, where the device has signaled the given
    /// fences.
    spec fn cleanup_spec(&self, signaled: Set<u64>) -> Self;

    /// The queue that triggers the event, where it is known and matters.
    spec fn queue_spec(&self) -> Option<Queue>;

    /// Whether what comes after the future may be handed to another queue.
    spec fn queue_change_allowed_spec(&self) -> bool;

    /// What access to a range of a buffer the future grants to what comes
    /// after it.
    spec fn buffer_access(
        &self,
        buffer: u64,
        start: int,
        end: int,
        exclusive: bool,
        queue: Queue,
    ) -> AccessGrant;

    /// What access to a range of an image the future grants to what comes
    /// after it.
    spec fn image_access(
        &self,
        image: u64,
        start: int,
        end: int,
        exclusive: bool,
        expected_layout: ImageLayout,
        queue: Queue,
    ) -> AccessGrant;

    /// Whether an image of a swapchain was acquired before the future, or
    /// before the one before it where `before` is set.
    spec fn swapchain_image_acquired(&self, image: u64, before: bool) -> Result<
        (),
        AccessCheckError,
    >;

    /// What holds of every future: its steps keep it well formed; a flush
    /// that has ended is not taken up again, and answers as it ended; what a
    /// cleanup and the end of the event give back is what the future held.
    proof fn lemma_steps(&self)
        requires
            self.inv(),
            !self.awaiting(),
        ensures
            self.flush_spec().0.inv(),
            self.build_spec().0.inv(),
            self.flush_spec().1 is Submit <==> self.flush_spec().0.awaiting(),
            self.build_spec().1 is Submit <==> self.build_spec().0.awaiting(),
            self.flush_result() is Some ==> self.flush_spec() == (
                *self,
                FlushStepView::Done(self.flush_result()->0),
            ),
            self.flush_spec().1 is Done ==> self.flush_spec().0.flush_result() == Some(
                self.flush_spec().1->Done_0,
            ),
            (self.flush_spec().1 matches FlushStepView::Done(Ok(_)))
                ==> self.flush_spec().0.signals_flushed(),
            (self.build_spec().1 matches BuildStepView::Ready(Ok(builder)) ==> {
                &&& self.build_spec().0.signals_flushed()
                &&& !(builder is BindSparse)
                &&& (builder is QueuePresent ==> self.may_present())
                &&& (builder matches SubmitAnyBuilderView::CommandBuffer(_, fence) ==> fence is None)
            }),
            self.signals_flushed() ==> self.flush_spec().0.signals_flushed()
                && self.build_spec().0.signals_flushed(),
            self.flush_spec().0.held() == self.held(),
            self.build_spec().0.held() == self.held(),
            self.flush_spec().0.may_present() == self.may_present(),
            self.build_spec().0.may_present() == self.may_present(),
            self.flush_spec().0.device_spec() == self.device_spec(),
            self.build_spec().0.device_spec() == self.device_spec(),
    ;

    /// What holds of every future once an outcome is reported to it. A
    /// future that waits for none is left as it is.
    proof fn lemma_submitted(&self, outcome: Result<(), VulkanError>)
        requires
            self.inv(),
        ensures
            !self.awaiting() ==> self.submitted_spec(outcome) == *self,
            self.submitted_spec(outcome).inv(),
            !self.submitted_spec(outcome).awaiting(),
            self.submitted_spec(outcome).held() == self.held(),
            self.submitted_spec(outcome).may_present() == self.may_present(),
            self.submitted_spec(outcome).device_spec() == self.device_spec(),
            self.signals_flushed() ==> self.submitted_spec(outcome).signals_flushed(),
    ;

    /// What holds of every future when locks are given back.
    proof fn lemma_release(&self, signaled: Set<u64>)
        requires
            self.inv(),
        ensures
            self.finished_spec().inv(),
            self.finished_spec().held() == Seq::<BufferUse>::empty(),
            self.finished_spec().awaiting() == self.awaiting(),
            self.finished_spec().signals_flushed() == self.signals_flushed(),
            self.finished_spec().may_present() == self.may_present(),
            self.finished_spec().device_spec() == self.device_spec(),
            self.cleanup_spec(signaled).device_spec() == self.device_spec(),
            self.cleanup_spec(signaled).inv(),
            self.cleanup_spec(signaled).awaiting() == self.awaiting(),
            self.signals_flushed() ==> self.cleanup_spec(signaled).signals_flushed(),
            self.cleanup_spec(signaled).may_present() == self.may_present(),
    ;

    /// If possible, checks whether the submission has finished. If so, gives up ownership of
    /// the resources used by these submissions.
    fn cleanup_finished(&mut self, tracker: &mut AccessTracker)
        requires
            old(self).inv(),
            uses_unlockable(
                old(tracker)@.buffers,
                old(self).cleanup_released(old(tracker)@.signaled),
            ),
        ensures
            *final(self) == old(self).cleanup_spec(old(tracker)@.signaled),
            final(tracker)@.buffers == uses_unlocked(
                old(tracker)@.buffers,
                old(self).cleanup_released(old(tracker)@.signaled),
            ),
            final(tracker)@.signaled == old(tracker)@.signaled,
    ;

    /// Builds a submission that, if submitted, makes sure that the event represented by this
    /// `GpuFuture` will happen, and possibly contains extra elements (eg. a semaphore wait or an
    /// event wait) that makes the dependency with subsequent operations work.
    fn build_submission(&mut self) -> (step: BuildStep)
        requires
            old(self).inv(),
            !old(self).awaiting(),
        ensures
            (*final(self), step@) == old(self).build_spec(),
    ;

    /// Flushes the future: says what is left to hand to the device for this future to occur.
    ///
    /// The future remembers how its flush ended. Once it has ended, every call gives the same
    /// result and asks for nothing more.
    fn flush(&mut self) -> (step: FlushStep)
        requires
            old(self).inv(),
            !old(self).awaiting(),
        ensures
            (*final(self), step@) == old(self).flush_spec(),
    ;

    /// Reports the outcome of what the last step asked to be handed to a queue. A future
    /// that waits for no outcome is left as it is.
    fn submitted(&mut self, outcome: Result<(), VulkanError>)
        requires
            old(self).inv(),
            outcome matches Err(err) ==> FlushError::convertible(err),
        ensures
            *final(self) == old(self).submitted_spec(outcome),
    ;

    /// Whether a step asked for something to be handed to a queue and the
    /// outcome was not reported yet.
    fn is_awaiting(&self) -> (r: bool)
        requires
            self.inv(),
        ensures
            r == self.awaiting(),
    ;

    /// Sets the future to its "complete" state, meaning that it can safely be destroyed.
    ///
    /// This must only be done if you called `build_submission()`, submitted the returned
    /// submission, and determined that it was finished.
    fn signal_finished(&mut self, tracker: &mut AccessTracker)
        requires
            old(self).inv(),
            old(self).signals_flushed(),
            uses_unlockable(old(tracker)@.buffers, old(self).held()),
        ensures
            *final(self) == old(self).finished_spec(),
            final(tracker)@.buffers == uses_unlocked(old(tracker)@.buffers, old(self).held()),
            final(tracker)@.signaled == old(tracker)@.signaled,
    ;

    /// The device that the future belongs to.
    fn device(&self) -> (device: u64)
        requires
            self.inv(),
        ensures
            device == self.device_spec(),
    ;

    /// Returns the queue that triggers the event. Returns `None` if unknown or irrelevant.
    fn queue(&self) -> (queue: Option<Queue>)
        requires
            self.inv(),
        ensures
            queue == self.queue_spec(),
    ;

    /// Returns `true` if elements submitted after this future can be submitted to a different
    /// queue than the other returned by `queue()`.
    fn queue_change_allowed(&self) -> (allowed: bool)
        requires
            self.inv(),
        ensures
            allowed == self.queue_change_allowed_spec(),
    ;

    /// Checks whether submitting something after this future grants access (exclusive or shared,
    /// depending on the parameter) to the given buffer on the given queue.
    ///
    /// If the access is granted, returns the pipeline stage and access flags of the latest usage
    /// of this resource, or `None` if irrelevant.
    fn check_buffer_access(
        &self,
        buffer: &UnsafeBuffer,
        range: Range<DeviceSize>,
        exclusive: bool,
        queue: &Queue,
    ) -> (grant: AccessGrant)
        requires
            self.inv(),
        ensures
            grant == self.buffer_access(
                buffer.key_spec(),
                range.start as int,
                range.end as int,
                exclusive,
                *queue,
            ),
    ;

    /// Checks whether submitting something after this future grants access (exclusive or shared,
    /// depending on the parameter) to the given image on the given queue.
    ///
    /// Implementations must ensure that the image is in the given layout. However if the `layout`
    /// is `Undefined` then the implementation should accept any actual layout.
    fn check_image_access(
        &self,
        image: &UnsafeImage,
        range: Range<DeviceSize>,
        exclusive: bool,
        expected_layout: ImageLayout,
        queue: &Queue,
    ) -> (grant: AccessGrant)
        requires
            self.inv(),
        ensures
            grant == self.image_access(
                image.key,
                range.start as int,
                range.end as int,
                exclusive,
                expected_layout,
                *queue,
            ),
    ;

    /// Checks whether accessing a swapchain image is permitted.
    ///
    /// Setting `before` to `true` skips checking the current future and always forwards the
    /// call to the future before.
    fn check_swapchain_image_acquired(&self, image: &UnsafeImage, before: bool) -> (result: Result<
        (),
        AccessCheckError,
    >)
        requires
            self.inv(),
        ensures
            result == self.swapchain_image_acquired(image.key, before),
    ;
}

/// Why the images of a presentation cannot be shown after a future, if they
/// cannot: the first of them that was not acquired before the future.
pub open spec fn present_refusal<F: GpuFuture>(
    future: F,
    infos: Seq<SwapchainPresentInfo>,
) -> Option<FlushError>
    decreases infos.len(),
{
    if infos.len() == 0 {
        None
    } else {
        match future.swapchain_image_acquired(infos[0].image.key, true) {
            Ok(_) => present_refusal(future, infos.drop_first()),
            Err(AccessCheckError::Unknown) => Some(
                FlushError::AccessError(AccessError::SwapchainImageNotAcquired),
            ),
            Err(AccessCheckError::Denied(error)) => Some(FlushError::AccessError(error)),
        }
    }
}

/// Checks that each image of a presentation was acquired before a future.
pub fn check_present<F: GpuFuture>(future: &F, present: &PresentInfo) -> (refusal: Option<
    FlushError,
>)
    requires
        future.inv(),
    ensures
        refusal == present_refusal(*future, present.swapchain_infos@),
{
    let ghost infos = present.swapchain_infos@;
    let mut i: usize = 0;
    assert(infos.skip(0) =~= infos);
    while i < present.swapchain_infos.len()
        invariant
            future.inv(),
            infos == present.swapchain_infos@,
            i <= infos.len(),
            present_refusal(*future, infos) == present_refusal(*future, infos.skip(i as int)),
        decreases infos.len() - i,
    {
        let image = present.swapchain_infos[i].image;
        proof {
            assert(infos.skip(i as int)[0] == infos[i as int]);
            assert(infos.skip(i as int).drop_first() =~= infos.skip(i + 1));
        }
        match future.check_swapchain_image_acquired(&image, true) {
            Ok(_) => {},
            Err(AccessCheckError::Unknown) => {
                return Some(FlushError::AccessError(AccessError::SwapchainImageNotAcquired));
            },
            Err(AccessCheckError::Denied(error)) => {
                return Some(FlushError::AccessError(error));
            },
        }
        i += 1;
    }
    None
}

/// The batch that signals a semaphore after what a future asks to be handed
/// over: the signal joins that future's batch, or follows its semaphores.
pub open spec fn batch_signaling(builder: SubmitAnyBuilderView, semaphore: Semaphore) -> (
    SubmitInfoView,
    Option<Fence>,
) {
    match builder {
        SubmitAnyBuilderView::SemaphoresWait(handles) => (
            SubmitInfoView {
                wait_semaphores: wait_infos_spec(handles),
                command_buffers: Seq::empty(),
                signal_semaphores: seq![semaphore],
            },
            None,
        ),
        SubmitAnyBuilderView::CommandBuffer(info, fence) => (
            SubmitInfoView {
                wait_semaphores: info.wait_semaphores,
                command_buffers: info.command_buffers,
                signal_semaphores: info.signal_semaphores.push(semaphore),
            },
            fence,
        ),
        _ => (
            SubmitInfoView {
                wait_semaphores: Seq::empty(),
                command_buffers: Seq::empty(),
                signal_semaphores: seq![semaphore],
            },
            None,
        ),
    }
}

/// Builds the batch that signals a semaphore after what a future asks to be
/// handed over.
pub fn signaling_batch(builder: SubmitAnyBuilder, semaphore: Semaphore) -> (batch: (
    SubmitInfo,
    Option<Fence>,
))
    ensures
        (batch.0@, batch.1) == batch_signaling(builder@, semaphore),
{
    match builder {
        SubmitAnyBuilder::SemaphoresWait(list) => {
            let mut signal_semaphores: Vec<Semaphore> = Vec::new();
            signal_semaphores.push(semaphore);
            assert(signal_semaphores@ =~= seq![semaphore]);
            (
                SubmitInfo {
                    wait_semaphores: wait_infos(&list),
                    command_buffers: Vec::new(),
                    signal_semaphores,
                },
                None,
            )
        },
        SubmitAnyBuilder::CommandBuffer(mut info, fence) => {
            info.signal_semaphores.push(semaphore);
            (info, fence)
        },
        _ => {
            let mut signal_semaphores: Vec<Semaphore> = Vec::new();
            signal_semaphores.push(semaphore);
            assert(signal_semaphores@ =~= seq![semaphore]);
            (
                SubmitInfo {
                    wait_semaphores: Vec::new(),
                    command_buffers: Vec::new(),
                    signal_semaphores,
                },
                None,
            )
        },
    }
}

/// A flush is carried out once. When a flush of a future has ended, each
/// later flush leaves the future as it is, asks for nothing to be handed to
/// a queue, and gives the result of the first.
pub proof fn lemma_flush_once<F: GpuFuture>(future: F)
    requires
        future.inv(),
        !future.awaiting(),
        future.flush_spec().1 is Done,
    ensures
        future.flush_spec().0.inv(),
        !future.flush_spec().0.awaiting(),
        future.flush_spec().0.flush_spec() == (
            future.flush_spec().0,
            FlushStepView::Done(future.flush_spec().1->Done_0),
        ),
{
    future.lemma_steps();
    future.flush_spec().0.lemma_steps();
}

/// Locks are given back once. The end of a future gives back what the
/// future held; after it the future holds nothing, so that a second end
/// leaves every lock as it is.
pub proof fn lemma_released_once<F: GpuFuture>(future: F, buffers: Seq<Seq<CurrentAccess>>)
    requires
        future.inv(),
    ensures
        future.finished_spec().inv(),
        future.finished_spec().held() == Seq::<BufferUse>::empty(),
        uses_unlockable(buffers, future.finished_spec().held()),
        uses_unlocked(uses_unlocked(buffers, future.held()), future.finished_spec().held())
            == uses_unlocked(buffers, future.held()),
{
    future.lemma_release(Set::empty());
}

/// The ways to build a future on another one.
pub trait GpuFutureExt: GpuFuture {
    /// Joins this future with another one, representing the moment when both events have
    /// happened.
    fn join<F: GpuFuture>(self, other: F) -> (future: join::JoinFuture<Self, F>)
        requires
            join::joinable(self, other),
        ensures
            future.inv(),
            !future.awaiting(),
            future.first_spec() == self,
            future.second_spec() == other,
            future.device_spec() == self.device_spec(),
            future.held() == self.held() + other.held(),
    {
        join::join(self, other)
    }

    /// Executes a command buffer after this future.
    fn then_execute(
        self,
        queue: Queue,
        command_buffer: CommandBuffer,
        tracker: &mut AccessTracker,
    ) -> (result: Result<CommandBufferExecFuture<Self>, CommandBufferExecError>)
        requires
            executable_after(command_buffer, self, queue),
            old(tracker).wf(),
            CommandBuffer::reuse_error(command_buffer.usage, command_buffer.in_use) is None
                ==> locks_possible(
                old(tracker)@.buffers,
                command_buffer.buffers@,
                grants_of(self, command_buffer.buffers@, queue),
                0,
            ),
        ensures
            final(tracker).wf(),
            final(tracker)@.signaled == old(tracker)@.signaled,
            match result {
                Ok(exec) => {
                    &&& CommandBuffer::reuse_error(command_buffer.usage, command_buffer.in_use)
                        is None
                    &&& first_refusal(
                        old(tracker)@.buffers,
                        command_buffer.buffers@,
                        grants_of(self, command_buffer.buffers@, queue),
                        0,
                    ) is None
                    &&& final(tracker)@.buffers == uses_locked(
                        old(tracker)@.buffers,
                        command_buffer.buffers@,
                    )
                    &&& exec.inv()
                    &&& !exec.awaiting()
                    &&& exec.previous_spec() == self
                    &&& exec.queue_spec() == Some(queue)
                    &&& exec.flush_result() is None
                    &&& exec.held() == command_buffer.buffers@.reverse() + self.held()
                    &&& uses_unlockable(final(tracker)@.buffers, command_buffer.buffers@.reverse())
                },
                Err(err) => {
                    &&& final(tracker)@.buffers == old(tracker)@.buffers
                    &&& match CommandBuffer::reuse_error(
                        command_buffer.usage,
                        command_buffer.in_use,
                    ) {
                        Some(reuse) => err == reuse,
                        None => first_refusal(
                            old(tracker)@.buffers,
                            command_buffer.buffers@,
                            grants_of(self, command_buffer.buffers@, queue),
                            0,
                        ) matches Some((at, error)) && err
                            == (CommandBufferExecError::AccessError {
                            error,
                            command_offset: at as usize,
                        }),
                    }
                },
            },
    {
        command_buffer.execute_after(self, queue, tracker)
    }

    /// Executes a command buffer after this future, on the same queue as the future.
    fn then_execute_same_queue(self, command_buffer: CommandBuffer, tracker: &mut AccessTracker) -> (result:
        Result<CommandBufferExecFuture<Self>, CommandBufferExecError>)
        requires
            self.queue_spec() is Some,
            executable_after(command_buffer, self, self.queue_spec()->0),
            old(tracker).wf(),
            CommandBuffer::reuse_error(command_buffer.usage, command_buffer.in_use) is None
                ==> locks_possible(
                old(tracker)@.buffers,
                command_buffer.buffers@,
                grants_of(self, command_buffer.buffers@, self.queue_spec()->0),
                0,
            ),
        ensures
            final(tracker).wf(),
            final(tracker)@.signaled == old(tracker)@.signaled,
            match result {
                Ok(exec) => {
                    &&& final(tracker)@.buffers == uses_locked(
                        old(tracker)@.buffers,
                        command_buffer.buffers@,
                    )
                    &&& exec.inv()
                    &&& !exec.awaiting()
                    &&& exec.previous_spec() == self
                    &&& exec.queue_spec() == self.queue_spec()
                    &&& exec.held() == command_buffer.buffers@.reverse() + self.held()
                },
                Err(err) => {
                    &&& final(tracker)@.buffers == old(tracker)@.buffers
                    &&& match CommandBuffer::reuse_error(
                        command_buffer.usage,
                        command_buffer.in_use,
                    ) {
                        Some(reuse) => err == reuse,
                        None => first_refusal(
                            old(tracker)@.buffers,
                            command_buffer.buffers@,
                            grants_of(self, command_buffer.buffers@, self.queue_spec()->0),
                            0,
                        ) matches Some((at, error)) && err
                            == (CommandBufferExecError::AccessError {
                            error,
                            command_offset: at as usize,
                        }),
                    }
                },
            },
    {
        let queue = self.queue().unwrap();
        command_buffer.execute_after(self, queue, tracker)
    }

    /// Signals a semaphore after this future. Returns another future that represents the signal.
    ///
    /// Call this function when you want to execute some operations on a queue and want to see
    /// the result on another queue.
    fn then_signal_semaphore(self, semaphore: Semaphore) -> (signal:
        semaphore_signal::SemaphoreSignalFuture<Self>)
        requires
            self.inv(),
            !self.awaiting(),
            self.queue_spec() is Some,
        ensures
            signal.inv(),
            !signal.awaiting(),
            signal.previous_spec() == self,
            signal.semaphore_spec() == semaphore,
            signal.flush_result() is None,
            signal.held() == self.held(),
            signal.device_spec() == self.device_spec(),
            signal == semaphore_signal::SemaphoreSignalFuture::initial(
                self,
                semaphore,
                self.queue_spec()->0,
            ),
    {
        let queue = self.queue().unwrap();
        semaphore_signal::then_signal_semaphore(self, semaphore, queue)
    }

    /// Signals a semaphore after this future and takes the first step of its flush. Returns
    /// the future that represents the moment when the semaphore is signalled, and the step.
    fn then_signal_semaphore_and_flush(self, semaphore: Semaphore) -> (result: (
        semaphore_signal::SemaphoreSignalFuture<Self>,
        FlushStep,
    ))
        requires
            self.inv(),
            !self.awaiting(),
            self.queue_spec() is Some,
        ensures
            (result.0, result.1@) == semaphore_signal::SemaphoreSignalFuture::initial(
                self,
                semaphore,
                self.queue_spec()->0,
            ).flush_spec(),
            result.0.inv(),
            result.1@ is Submit <==> result.0.awaiting(),
            result.1@ is Done ==> result.0.flush_result() == Some(result.1@->Done_0),
            result.0.held() == self.held(),
    {
        let mut signal = self.then_signal_semaphore(semaphore);
        proof {
            signal.lemma_steps();
        }
        let step = signal.flush();
        (signal, step)
    }

    /// Signals a fence after this future. Returns another future that represents the signal.
    fn then_signal_fence(self, fence: Fence) -> (signal: fence_signal::FenceSignalFuture<Self>)
        requires
            self.inv(),
            !self.awaiting(),
            self.queue_spec() is Some,
        ensures
            signal.inv(),
            !signal.awaiting(),
            signal.previous_spec() == Some(self),
            signal.fence_spec() == fence,
            signal.flush_result() is None,
            signal.held() == self.held(),
            signal.device_spec() == self.device_spec(),
            signal == fence_signal::FenceSignalFuture::initial(self, fence, self.queue_spec()->0),
    {
        let queue = self.queue().unwrap();
        fence_signal::then_signal_fence(self, fence, queue)
    }

    /// Signals a fence after this future and takes the first step of its flush. Returns the
    /// future that represents the signal, and the step.
    fn then_signal_fence_and_flush(self, fence: Fence) -> (result: (
        fence_signal::FenceSignalFuture<Self>,
        FlushStep,
    ))
        requires
            self.inv(),
            !self.awaiting(),
            self.queue_spec() is Some,
        ensures
            (result.0, result.1@) == fence_signal::FenceSignalFuture::initial(
                self,
                fence,
                self.queue_spec()->0,
            ).flush_spec(),
            result.0.inv(),
            result.1@ is Submit <==> result.0.awaiting(),
            result.1@ is Done ==> result.0.flush_result() == Some(result.1@->Done_0),
            result.0.held() == self.held(),
    {
        let mut signal = self.then_signal_fence(fence);
        proof {
            signal.lemma_steps();
        }
        let step = signal.flush();
        (signal, step)
    }

    /// Presents a swapchain image after this future.
    ///
    /// You should only ever do this indirectly after a `SwapchainAcquireFuture` of the same
    /// image, otherwise an error will occur when flushing.
    fn then_swapchain_present(self, queue: Queue, swapchain_info: SwapchainPresentInfo) -> (future:
        PresentFuture<Self>)
        requires
            self.inv(),
            !self.awaiting(),
        ensures
            future.inv(),
            !future.awaiting(),
            future.previous_spec() == self,
            future.swapchain_info_spec() == swapchain_info,
            future.flush_result() is None,
            future.held() == self.held(),
            future.queue_spec() == Some(queue),
    {
        present(self, queue, swapchain_info)
    }

    /// Turn the current future into a `Box` of it.
    fn boxed(self) -> (boxed: Box<Self>)
        ensures
            *boxed == self,
    {
        Box::new(self)
    }
}

impl<T: GpuFuture> GpuFutureExt for T {

}

} // verus!
