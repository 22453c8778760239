//! Showing images on a surface.

use crate::buffer::sys::UnsafeBuffer;
use crate::device::Queue;
use crate::image::sys::UnsafeImage;
use crate::image::ImageLayout;
use crate::sync::future::{
    check_present, present_refusal, AccessCheckError, AccessError, AccessGrant, BuildStep,
    BuildStepView, FlushError, FlushState, FlushStep, FlushStepView, GpuFuture, SemaphoreList,
    Submission, SubmissionView, SubmitAnyBuilder, SubmitAnyBuilderView,
};
use crate::sync::tracker::{AccessTracker, BufferUse};
use crate::sync::Semaphore;
use crate::{DeviceSize, VulkanError};
use std::ops::Range;
use vstd::prelude::*;

pub mod surface;

verus! {

/// One image of a swapchain to show.
#[derive(Clone, Copy, Debug, PartialEq, Eq)]
pub struct SwapchainPresentInfo {
    /// The swapchain, by the driver's handle.
    pub swapchain: u64,
    /// The index of the image within the swapchain.
    pub image_index: u32,
    /// The image.
    pub image: UnsafeImage,
}

/// What to show, and what to wait for before.
#[derive(Clone, Debug, PartialEq, Eq)]
pub struct PresentInfo {
    /// The semaphores to wait for before the images are shown.
    pub wait_semaphores: Vec<Semaphore>,
    /// The images to show.
    pub swapchain_infos: Vec<SwapchainPresentInfo>,
}

/// What a presentation holds.
pub struct PresentInfoView {
    pub wait_semaphores: Seq<Semaphore>,
    pub swapchain_infos: Seq<SwapchainPresentInfo>,
}

impl View for PresentInfo {
    type V = PresentInfoView;

    open spec fn view(&self) -> PresentInfoView {
        PresentInfoView {
            wait_semaphores: self.wait_semaphores@,
            swapchain_infos: self.swapchain_infos@,
        }
    }
}

/// Represents the moment when the GPU will have access to a swapchain image.
#[derive(Clone, Copy, Debug, PartialEq, Eq)]
pub struct SwapchainAcquireFuture {
    device: u64,
    swapchain: u64,
    image_index: u32,
    image: u64,
    layout_undefined: bool,
    semaphore: Option<Semaphore>,
    finished: bool,
}

impl SwapchainAcquireFuture {
    /// The future of the moment when an image that the driver has handed out
    /// can be used. `semaphore` is signaled at that moment, where one was
    /// given to the driver. `layout_undefined` says that the image was never
    /// used before.
    pub fn new(
        device: u64,
        swapchain: u64,
        image_index: u32,
        image: u64,
        layout_undefined: bool,
        semaphore: Option<Semaphore>,
    ) -> (future: SwapchainAcquireFuture)
        ensures
            future.inv(),
            !future.awaiting(),
            future.device_spec() == device,
            future.image_spec() == image,
            future.image_index_spec() == image_index,
            future.semaphore_spec() == semaphore,
            future.layout_undefined_spec() == layout_undefined,
    {
        SwapchainAcquireFuture {
            device,
            swapchain,
            image_index,
            image,
            layout_undefined,
            semaphore,
            finished: false,
        }
    }

    /// The key of the image.
    pub closed spec fn image_spec(&self) -> u64 {
        self.image
    }

    /// The index of the image within the swapchain.
    pub closed spec fn image_index_spec(&self) -> u32 {
        self.image_index
    }

    /// The semaphore that is signaled when the image can be used.
    pub closed spec fn semaphore_spec(&self) -> Option<Semaphore> {
        self.semaphore
    }

    /// Whether the image was never used before.
    pub closed spec fn layout_undefined_spec(&self) -> bool {
        self.layout_undefined
    }

    /// Returns the index of the image in the list of images returned when creating the
    /// swapchain.
    pub fn image_index(&self) -> (index: u32)
        ensures
            index == self.image_index_spec(),
    {
        self.image_index
    }

    /// What is to be waited for before the image is used.
    pub closed spec fn wait_spec(&self) -> SubmitAnyBuilderView {
        match self.semaphore {
            Some(semaphore) => SubmitAnyBuilderView::SemaphoresWait(seq![semaphore.handle]),
            None => SubmitAnyBuilderView::Empty,
        }
    }
}

impl GpuFuture for SwapchainAcquireFuture {
    open spec fn inv(&self) -> bool {
        true
    }

    closed spec fn device_spec(&self) -> u64 {
        self.device
    }

    open spec fn awaiting(&self) -> bool {
        false
    }

    open spec fn may_present(&self) -> bool {
        false
    }

    open spec fn signals_flushed(&self) -> bool {
        true
    }

    open spec fn flush_result(&self) -> Option<Result<(), FlushError>> {
        Some(Ok(()))
    }

    open spec fn build_spec(&self) -> (Self, BuildStepView) {
        (*self, BuildStepView::Ready(Ok(self.wait_spec())))
    }

    open spec fn flush_spec(&self) -> (Self, FlushStepView) {
        (*self, FlushStepView::Done(Ok(())))
    }

    open spec fn submitted_spec(&self, outcome: Result<(), VulkanError>) -> Self {
        *self
    }

    open spec fn held(&self) -> Seq<BufferUse> {
        Seq::empty()
    }

    closed spec fn finished_spec(&self) -> Self {
        SwapchainAcquireFuture {
            device: self.device,
            swapchain: self.swapchain,
            image_index: self.image_index,
            image: self.image,
            layout_undefined: self.layout_undefined,
            semaphore: self.semaphore,
            finished: true,
        }
    }

    open spec fn cleanup_released(&self, signaled: Set<u64>) -> Seq<BufferUse> {
        Seq::empty()
    }

    open spec fn cleanup_spec(&self, signaled: Set<u64>) -> Self {
        *self
    }

    open spec fn queue_spec(&self) -> Option<Queue> {
        None
    }

    open spec fn queue_change_allowed_spec(&self) -> bool {
        true
    }

    open spec fn buffer_access(
        &self,
        buffer: u64,
        start: int,
        end: int,
        exclusive: bool,
        queue: Queue,
    ) -> AccessGrant {
        Err(AccessCheckError::Unknown)
    }

    closed spec fn image_access(
        &self,
        image: u64,
        start: int,
        end: int,
        exclusive: bool,
        expected_layout: ImageLayout,
        queue: Queue,
    ) -> AccessGrant {
        if image != self.image {
            Err(AccessCheckError::Unknown)
        } else if self.layout_undefined && expected_layout != ImageLayout::Undefined {
            Err(
                AccessCheckError::Denied(
                    AccessError::ImageNotInitialized { requested: expected_layout },
                ),
            )
        } else if expected_layout != ImageLayout::Undefined && expected_layout
            != ImageLayout::PresentSrc {
            Err(
                AccessCheckError::Denied(
                    AccessError::UnexpectedImageLayout {
                        allowed: ImageLayout::PresentSrc,
                        requested: expected_layout,
                    },
                ),
            )
        } else {
            Ok(None)
        }
    }

    closed spec fn swapchain_image_acquired(&self, image: u64, before: bool) -> Result<
        (),
        AccessCheckError,
    > {
        if before || image == self.image {
            Ok(())
        } else {
            Err(AccessCheckError::Unknown)
        }
    }

    proof fn lemma_steps(&self) {
    }

    proof fn lemma_submitted(&self, outcome: Result<(), VulkanError>) {
    }

    proof fn lemma_release(&self, signaled: Set<u64>) {
    }

    fn cleanup_finished(&mut self, tracker: &mut AccessTracker) {
    }

    fn build_submission(&mut self) -> (step: BuildStep) {
        match self.semaphore {
            Some(semaphore) => BuildStep::Ready(
                Ok(SubmitAnyBuilder::SemaphoresWait(SemaphoreList::one(semaphore))),
            ),
            None => BuildStep::Ready(Ok(SubmitAnyBuilder::Empty)),
        }
    }

    fn flush(&mut self) -> (step: FlushStep) {
        FlushStep::Done(Ok(()))
    }

    fn submitted(&mut self, outcome: Result<(), VulkanError>) {
    }

    fn is_awaiting(&self) -> (r: bool) {
        false
    }

    fn signal_finished(&mut self, tracker: &mut AccessTracker) {
        self.finished = true;
    }

    fn device(&self) -> (device: u64) {
        self.device
    }

    fn queue(&self) -> (queue: Option<Queue>) {
        None
    }

    fn queue_change_allowed(&self) -> (allowed: bool) {
        true
    }

    fn check_buffer_access(
        &self,
        buffer: &UnsafeBuffer,
        range: Range<DeviceSize>,
        exclusive: bool,
        queue: &Queue,
    ) -> (grant: AccessGrant) {
        Err(AccessCheckError::Unknown)
    }

    fn check_image_access(
        &self,
        image: &UnsafeImage,
        range: Range<DeviceSize>,
        exclusive: bool,
        expected_layout: ImageLayout,
        queue: &Queue,
    ) -> (grant: AccessGrant) {
        if image.key != self.image {
            return Err(AccessCheckError::Unknown);
        }
        if self.layout_undefined && expected_layout != ImageLayout::Undefined {
            return Err(
                AccessCheckError::Denied(
                    AccessError::ImageNotInitialized { requested: expected_layout },
                ),
            );
        }
        if expected_layout != ImageLayout::Undefined && expected_layout
            != ImageLayout::PresentSrc {
            return Err(
                AccessCheckError::Denied(
                    AccessError::UnexpectedImageLayout {
                        allowed: ImageLayout::PresentSrc,
                        requested: expected_layout,
                    },
                ),
            );
        }
        Ok(None)
    }

    fn check_swapchain_image_acquired(&self, image: &UnsafeImage, before: bool) -> (result: Result<
        (),
        AccessCheckError,
    >) {
        if before || image.key == self.image {
            Ok(())
        } else {
            Err(AccessCheckError::Unknown)
        }
    }
}

/// What is shown once an image is shown after what a future asks to be
/// handed over: the image waits for that future's semaphores, or joins that
/// future's presentation.
pub open spec fn present_after(builder: SubmitAnyBuilderView, info: SwapchainPresentInfo) -> PresentInfoView {
    match builder {
        SubmitAnyBuilderView::SemaphoresWait(handles) => PresentInfoView {
            wait_semaphores: handles.map_values(|handle: u64| Semaphore { handle }),
            swapchain_infos: seq![info],
        },
        SubmitAnyBuilderView::QueuePresent(present) => PresentInfoView {
            wait_semaphores: present.wait_semaphores,
            swapchain_infos: present.swapchain_infos.push(info),
        },
        _ => PresentInfoView { wait_semaphores: Seq::empty(), swapchain_infos: seq![info] },
    }
}

/// Builds what is shown once an image is shown after what a future asks to
/// be handed over.
pub fn presenting_after(builder: SubmitAnyBuilder, info: SwapchainPresentInfo) -> (present:
    PresentInfo)
    ensures
        present@ == present_after(builder@, info),
{
    match builder {
        SubmitAnyBuilder::SemaphoresWait(list) => {
            let mut swapchain_infos: Vec<SwapchainPresentInfo> = Vec::new();
            swapchain_infos.push(info);
            assert(swapchain_infos@ =~= seq![info]);
            PresentInfo { wait_semaphores: list.to_vec(), swapchain_infos }
        },
        SubmitAnyBuilder::QueuePresent(mut present) => {
            present.swapchain_infos.push(info);
            present
        },
        _ => {
            let mut swapchain_infos: Vec<SwapchainPresentInfo> = Vec::new();
            swapchain_infos.push(info);
            assert(swapchain_infos@ =~= seq![info]);
            PresentInfo { wait_semaphores: Vec::new(), swapchain_infos }
        },
    }
}

/// Represents a swapchain image being presented on the screen.
#[derive(Debug)]
pub struct PresentFuture<P> {
    previous: P,
    queue: Queue,
    swapchain_info: SwapchainPresentInfo,
    state: FlushState,
    finished: bool,
}

/// Presents an image on the screen, on `queue`, once `before` has happened.
pub fn present<F: GpuFuture>(before: F, queue: Queue, swapchain_info: SwapchainPresentInfo) -> (future:
    PresentFuture<F>)
    requires
        before.inv(),
        !before.awaiting(),
    ensures
        future.inv(),
        !future.awaiting(),
        future.previous_spec() == before,
        future.swapchain_info_spec() == swapchain_info,
        future.flush_result() is None,
        future.held() == before.held(),
        future.device_spec() == before.device_spec(),
        future.queue_spec() == Some(queue),
{
    PresentFuture {
        previous: before,
        queue,
        swapchain_info,
        state: FlushState::Pending,
        finished: false,
    }
}

impl<P: GpuFuture> PresentFuture<P> {
    /// The future that the image is shown after.
    pub closed spec fn previous_spec(&self) -> P {
        self.previous
    }

    /// The image that is shown.
    pub closed spec fn swapchain_info_spec(&self) -> SwapchainPresentInfo {
        self.swapchain_info
    }

    /// How far the flush has come.
    pub closed spec fn state_spec(&self) -> FlushState {
        self.state
    }

    /// Returns the index of the image in the list of images returned when creating the
    /// swapchain.
    pub fn image_id(&self) -> (index: u32)
        ensures
            index == self.swapchain_info_spec().image_index,
    {
        self.swapchain_info.image_index
    }

    spec fn with(&self, previous: P, state: FlushState) -> Self {
        PresentFuture {
            previous,
            queue: self.queue,
            swapchain_info: self.swapchain_info,
            state,
            finished: self.finished,
        }
    }

    /// The presentation of the image, whether or not it was handed over
    /// already. A batch of command buffers of the future before is handed
    /// over first.
    pub closed spec fn build_impl_spec(&self) -> (Self, BuildStepView) {
        let (previous, step) = self.previous.build_spec();
        match step {
            BuildStepView::Ready(Ok(SubmitAnyBuilderView::CommandBuffer(_, _)))
            | BuildStepView::Ready(Ok(SubmitAnyBuilderView::BindSparse(_, _))) => {
                let (previous, step) = previous.flush_spec();
                (
                    self.with(previous, self.state),
                    match step {
                        FlushStepView::Submit(submission) => BuildStepView::Submit(submission),
                        FlushStepView::Done(Err(err)) => BuildStepView::Ready(Err(err)),
                        FlushStepView::Done(Ok(_)) => BuildStepView::Ready(
                            Ok(
                                SubmitAnyBuilderView::QueuePresent(
                                    present_after(SubmitAnyBuilderView::Empty, self.swapchain_info),
                                ),
                            ),
                        ),
                    },
                )
            },
            BuildStepView::Ready(Ok(builder)) => (
                self.with(previous, self.state),
                BuildStepView::Ready(
                    Ok(
                        SubmitAnyBuilderView::QueuePresent(
                            present_after(builder, self.swapchain_info),
                        ),
                    ),
                ),
            ),
            step => (self.with(previous, self.state), step),
        }
    }

    fn build_submission_impl(&mut self) -> (step: BuildStep)
        requires
            old(self).inv(),
            !old(self).awaiting(),
        ensures
            (*final(self), step@) == old(self).build_impl_spec(),
    {
        proof {
            self.previous.lemma_steps();
        }
        match self.previous.build_submission() {
            BuildStep::Ready(Ok(SubmitAnyBuilder::CommandBuffer(_, _)))
            | BuildStep::Ready(Ok(SubmitAnyBuilder::BindSparse(_, _))) => {
                match self.previous.flush() {
                    FlushStep::Submit(submission) => BuildStep::Submit(submission),
                    FlushStep::Done(Err(err)) => BuildStep::Ready(Err(err)),
                    FlushStep::Done(Ok(_)) => BuildStep::Ready(
                        Ok(
                            SubmitAnyBuilder::QueuePresent(
                                presenting_after(SubmitAnyBuilder::Empty, self.swapchain_info),
                            ),
                        ),
                    ),
                }
            },
            BuildStep::Ready(Ok(builder)) => BuildStep::Ready(
                Ok(SubmitAnyBuilder::QueuePresent(presenting_after(builder, self.swapchain_info))),
            ),
            step => step,
        }
    }
}

impl<P: GpuFuture> GpuFuture for PresentFuture<P> {
    closed spec fn inv(&self) -> bool {
        &&& self.previous.inv()
        &&& !(self.state.awaiting() && self.previous.awaiting())
        &&& !(self.state is Presenting) && !(self.state is Presented)
        &&& (self.state is Submitting || (self.state matches FlushState::Flushed(Ok(_)))
            ==> self.previous.signals_flushed())
    }

    closed spec fn device_spec(&self) -> u64 {
        self.previous.device_spec()
    }

    closed spec fn awaiting(&self) -> bool {
        self.state.awaiting() || self.previous.awaiting()
    }

    closed spec fn may_present(&self) -> bool {
        true
    }

    closed spec fn signals_flushed(&self) -> bool {
        self.previous.signals_flushed()
    }

    closed spec fn flush_result(&self) -> Option<Result<(), FlushError>> {
        self.state.result()
    }

    closed spec fn build_spec(&self) -> (Self, BuildStepView) {
        match self.state {
            FlushState::Flushed(Ok(_)) => (*self, BuildStepView::Ready(Ok(SubmitAnyBuilderView::Empty))),
            FlushState::Flushed(Err(err)) => (*self, BuildStepView::Ready(Err(err))),
            _ => self.build_impl_spec(),
        }
    }

    closed spec fn flush_spec(&self) -> (Self, FlushStepView) {
        match self.state {
            FlushState::Flushed(result) => (*self, FlushStepView::Done(result)),
            _ => {
                let (built, step) = self.build_impl_spec();
                match step {
                    BuildStepView::Submit(submission) => (built, FlushStepView::Submit(submission)),
                    BuildStepView::Ready(Err(err)) => (
                        built.with(built.previous, FlushState::Flushed(Err(err))),
                        FlushStepView::Done(Err(err)),
                    ),
                    BuildStepView::Ready(Ok(SubmitAnyBuilderView::QueuePresent(present))) => {
                        match present_refusal(built.previous, present.swapchain_infos) {
                            Some(err) => (
                                built.with(built.previous, FlushState::Flushed(Err(err))),
                                FlushStepView::Done(Err(err)),
                            ),
                            None => (
                                built.with(built.previous, FlushState::Submitting),
                                FlushStepView::Submit(
                                    SubmissionView::Present { queue: self.queue, present },
                                ),
                            ),
                        }
                    },
                    BuildStepView::Ready(Ok(_)) => (
                        built.with(built.previous, FlushState::Flushed(Ok(()))),
                        FlushStepView::Done(Ok(())),
                    ),
                }
            },
        }
    }

    closed spec fn submitted_spec(&self, outcome: Result<(), VulkanError>) -> Self {
        if self.state.awaiting() {
            self.with(self.previous, FlushState::Flushed(FlushError::outcome_spec(outcome)))
        } else {
            self.with(self.previous.submitted_spec(outcome), self.state)
        }
    }

    closed spec fn held(&self) -> Seq<BufferUse> {
        self.previous.held()
    }

    closed spec fn finished_spec(&self) -> Self {
        PresentFuture {
            previous: self.previous.finished_spec(),
            queue: self.queue,
            swapchain_info: self.swapchain_info,
            state: self.state,
            finished: true,
        }
    }

    closed spec fn cleanup_released(&self, signaled: Set<u64>) -> Seq<BufferUse> {
        self.previous.cleanup_released(signaled)
    }

    closed spec fn cleanup_spec(&self, signaled: Set<u64>) -> Self {
        self.with(self.previous.cleanup_spec(signaled), self.state)
    }

    closed spec fn queue_spec(&self) -> Option<Queue> {
        Some(self.queue)
    }

    closed spec fn queue_change_allowed_spec(&self) -> bool {
        false
    }

    closed spec fn buffer_access(
        &self,
        buffer: u64,
        start: int,
        end: int,
        exclusive: bool,
        queue: Queue,
    ) -> AccessGrant {
        self.previous.buffer_access(buffer, start, end, exclusive, queue)
    }

    closed spec fn image_access(
        &self,
        image: u64,
        start: int,
        end: int,
        exclusive: bool,
        expected_layout: ImageLayout,
        queue: Queue,
    ) -> AccessGrant {
        if image == self.swapchain_info.image.key {
            Err(AccessCheckError::Unknown)
        } else {
            self.previous.image_access(image, start, end, exclusive, expected_layout, queue)
        }
    }

    closed spec fn swapchain_image_acquired(&self, image: u64, before: bool) -> Result<
        (),
        AccessCheckError,
    > {
        if !before && image == self.swapchain_info.image.key {
            Err(AccessCheckError::Denied(AccessError::SwapchainImageNotAcquired))
        } else {
            self.previous.swapchain_image_acquired(image, false)
        }
    }

    proof fn lemma_steps(&self) {
        self.previous.lemma_steps();
        let (previous, step) = self.previous.build_spec();
        if step is Ready {
            previous.lemma_steps();
        }
    }

    proof fn lemma_submitted(&self, outcome: Result<(), VulkanError>) {
        self.previous.lemma_submitted(outcome);
    }

    proof fn lemma_release(&self, signaled: Set<u64>) {
        self.previous.lemma_release(signaled);
    }

    fn cleanup_finished(&mut self, tracker: &mut AccessTracker) {
        self.previous.cleanup_finished(tracker);
    }

    fn build_submission(&mut self) -> (step: BuildStep) {
        match self.state {
            FlushState::Flushed(Ok(_)) => BuildStep::Ready(Ok(SubmitAnyBuilder::Empty)),
            FlushState::Flushed(Err(err)) => BuildStep::Ready(Err(err)),
            _ => self.build_submission_impl(),
        }
    }

    fn flush(&mut self) -> (step: FlushStep) {
        match self.state {
            FlushState::Flushed(result) => FlushStep::Done(result),
            _ => {
                proof {
                    self.lemma_steps();
                }
                match self.build_submission_impl() {
                    BuildStep::Submit(submission) => FlushStep::Submit(submission),
                    BuildStep::Ready(Err(err)) => {
                        self.state = FlushState::Flushed(Err(err));
                        FlushStep::Done(Err(err))
                    },
                    BuildStep::Ready(Ok(SubmitAnyBuilder::QueuePresent(present))) => {
                        match check_present(&self.previous, &present) {
                            Some(err) => {
                                self.state = FlushState::Flushed(Err(err));
                                FlushStep::Done(Err(err))
                            },
                            None => {
                                self.state = FlushState::Submitting;
                                FlushStep::Submit(
                                    Submission::Present { queue: self.queue, present },
                                )
                            },
                        }
                    },
                    BuildStep::Ready(Ok(_)) => {
                        self.state = FlushState::Flushed(Ok(()));
                        FlushStep::Done(Ok(()))
                    },
                }
            },
        }
    }

    fn submitted(&mut self, outcome: Result<(), VulkanError>) {
        if self.state.is_awaiting() {
            self.state = FlushState::Flushed(
                match outcome {
                    Ok(_) => Ok(()),
                    Err(err) => Err(FlushError::from_vulkan_error(err)),
                },
            );
        } else {
            self.previous.submitted(outcome);
        }
    }

    fn is_awaiting(&self) -> (r: bool) {
        self.state.is_awaiting() || self.previous.is_awaiting()
    }

    fn signal_finished(&mut self, tracker: &mut AccessTracker) {
        self.finished = true;
        self.previous.signal_finished(tracker);
    }

    fn device(&self) -> (device: u64) {
        self.previous.device()
    }

    fn queue(&self) -> (queue: Option<Queue>) {
        Some(self.queue)
    }

    fn queue_change_allowed(&self) -> (allowed: bool) {
        false
    }

    fn check_buffer_access(
        &self,
        buffer: &UnsafeBuffer,
        range: Range<DeviceSize>,
        exclusive: bool,
        queue: &Queue,
    ) -> (grant: AccessGrant) {
        self.previous.check_buffer_access(buffer, range, exclusive, queue)
    }

    fn check_image_access(
        &self,
        image: &UnsafeImage,
        range: Range<DeviceSize>,
        exclusive: bool,
        expected_layout: ImageLayout,
        queue: &Queue,
    ) -> (grant: AccessGrant) {
        if image.key == self.swapchain_info.image.key {
            Err(AccessCheckError::Unknown)
        } else {
            self.previous.check_image_access(image, range, exclusive, expected_layout, queue)
        }
    }

    fn check_swapchain_image_acquired(&self, image: &UnsafeImage, before: bool) -> (result: Result<
        (),
        AccessCheckError,
    >) {
        if !before && image.key == self.swapchain_info.image.key {
            Err(AccessCheckError::Denied(AccessError::SwapchainImageNotAcquired))
        } else {
            self.previous.check_swapchain_image_acquired(image, false)
        }
    }
}

} // verus!
