//! The future of the moment when a semaphore is signaled.

use crate::buffer::sys::UnsafeBuffer;
use crate::command_buffer::SubmitInfoView;
use crate::device::Queue;
use crate::image::sys::UnsafeImage;
use crate::image::ImageLayout;
use crate::sync::future::{
    batch_signaling, check_present, present_refusal, signaling_batch, AccessCheckError,
    AccessGrant, BuildStep, BuildStepView, FlushError, FlushState, FlushStep, FlushStepView,
    GpuFuture, SemaphoreList, Submission, SubmissionView, SubmitAnyBuilder, SubmitAnyBuilderView,
};
use crate::sync::tracker::{AccessTracker, BufferUse};
use crate::sync::{Fence, Semaphore};
use crate::{DeviceSize, VulkanError};
use std::ops::Range;
use vstd::prelude::*;

verus! {

/// Represents a semaphore being signaled after a previous event.
#[derive(Debug)]
pub struct SemaphoreSignalFuture<F> {
    previous: F,
    semaphore: Semaphore,
    queue: Queue,
    state: FlushState,
    finished: bool,
}

/// Builds a new semaphore signal future: `semaphore` is signaled on `queue`
/// once `future` has happened.
pub fn then_signal_semaphore<F: GpuFuture>(future: F, semaphore: Semaphore, queue: Queue) -> (signal:
    SemaphoreSignalFuture<F>)
    requires
        future.inv(),
        !future.awaiting(),
        future.queue_spec() == Some(queue),
    ensures
        signal.inv(),
        !signal.awaiting(),
        signal.previous_spec() == future,
        signal.semaphore_spec() == semaphore,
        signal.flush_result() is None,
        signal.held() == future.held(),
        signal.device_spec() == future.device_spec(),
        signal == SemaphoreSignalFuture::initial(future, semaphore, queue),
{
    SemaphoreSignalFuture {
        previous: future,
        semaphore,
        queue,
        state: FlushState::Pending,
        finished: false,
    }
}

impl<F: GpuFuture> SemaphoreSignalFuture<F> {
    /// The future of the signal of `semaphore` on `queue` after `previous`,
    /// before anything was handed over.
    pub closed spec fn initial(previous: F, semaphore: Semaphore, queue: Queue) -> Self {
        SemaphoreSignalFuture {
            previous,
            semaphore,
            queue,
            state: FlushState::Pending,
            finished: false,
        }
    }

    /// The future that the semaphore is signaled after.
    pub closed spec fn previous_spec(&self) -> F {
        self.previous
    }

    /// The semaphore.
    pub closed spec fn semaphore_spec(&self) -> Semaphore {
        self.semaphore
    }

    /// How far the flush has come.
    pub closed spec fn state_spec(&self) -> FlushState {
        self.state
    }

    spec fn with(&self, previous: F, state: FlushState) -> Self {
        SemaphoreSignalFuture {
            previous,
            semaphore: self.semaphore,
            queue: self.queue,
            state,
            finished: self.finished,
        }
    }

    /// The batch that signals the semaphore alone.
    pub closed spec fn signal_alone(&self) -> SubmissionView {
        SubmissionView::Submit {
            queue: self.queue,
            info: SubmitInfoView {
                wait_semaphores: Seq::empty(),
                command_buffers: Seq::empty(),
                signal_semaphores: seq![self.semaphore],
            },
            fence: None,
        }
    }

    /// The semaphore to wait for.
    pub fn semaphore(&self) -> (semaphore: Semaphore)
        ensures
            semaphore == self.semaphore_spec(),
    {
        self.semaphore
    }
}

impl<F: GpuFuture> GpuFuture for SemaphoreSignalFuture<F> {
    closed spec fn inv(&self) -> bool {
        &&& self.previous.inv()
        &&& !(self.state.awaiting() && self.previous.awaiting())
        &&& (!(self.state is Pending) && !(self.state matches FlushState::Flushed(Err(_)))
            ==> self.previous.signals_flushed())
        &&& (self.state is Presenting || self.state is Presented ==> self.previous.may_present())
    }

    closed spec fn device_spec(&self) -> u64 {
        self.previous.device_spec()
    }

    closed spec fn awaiting(&self) -> bool {
        self.state.awaiting() || self.previous.awaiting()
    }

    closed spec fn may_present(&self) -> bool {
        false
    }

    closed spec fn signals_flushed(&self) -> bool {
        (self.state matches FlushState::Flushed(Ok(_))) && self.previous.signals_flushed()
    }

    closed spec fn flush_result(&self) -> Option<Result<(), FlushError>> {
        self.state.result()
    }

    closed spec fn build_spec(&self) -> (Self, BuildStepView) {
        let (flushed, step) = self.flush_spec();
        (
            flushed,
            match step {
                FlushStepView::Submit(submission) => BuildStepView::Submit(submission),
                FlushStepView::Done(Err(err)) => BuildStepView::Ready(Err(err)),
                FlushStepView::Done(Ok(_)) => BuildStepView::Ready(
                    Ok(SubmitAnyBuilderView::SemaphoresWait(seq![self.semaphore.handle])),
                ),
            },
        )
    }

    closed spec fn flush_spec(&self) -> (Self, FlushStepView) {
        match self.state {
            FlushState::Flushed(result) => (*self, FlushStepView::Done(result)),
            FlushState::Presented => (
                self.with(self.previous, FlushState::Submitting),
                FlushStepView::Submit(self.signal_alone()),
            ),
            _ => {
                let (previous, step) = self.previous.build_spec();
                match step {
                    BuildStepView::Submit(submission) => (
                        self.with(previous, self.state),
                        FlushStepView::Submit(submission),
                    ),
                    BuildStepView::Ready(Err(err)) => (
                        self.with(previous, FlushState::Flushed(Err(err))),
                        FlushStepView::Done(Err(err)),
                    ),
                    BuildStepView::Ready(Ok(SubmitAnyBuilderView::QueuePresent(present))) => {
                        match present_refusal(previous, present.swapchain_infos) {
                            Some(err) => (
                                self.with(previous, FlushState::Flushed(Err(err))),
                                FlushStepView::Done(Err(err)),
                            ),
                            None => (
                                self.with(previous, FlushState::Presenting),
                                FlushStepView::Submit(
                                    SubmissionView::Present { queue: self.queue, present },
                                ),
                            ),
                        }
                    },
                    BuildStepView::Ready(Ok(builder)) => {
                        let (info, fence) = batch_signaling(builder, self.semaphore);
                        (
                            self.with(previous, FlushState::Submitting),
                            FlushStepView::Submit(
                                SubmissionView::Submit { queue: self.queue, info, fence },
                            ),
                        )
                    },
                }
            },
        }
    }

    closed spec fn submitted_spec(&self, outcome: Result<(), VulkanError>) -> Self {
        match self.state {
            FlushState::Submitting => self.with(
                self.previous,
                FlushState::Flushed(FlushError::outcome_spec(outcome)),
            ),
            FlushState::Presenting => self.with(
                self.previous,
                match outcome {
                    Ok(_) => FlushState::Presented,
                    Err(err) => FlushState::Flushed(Err(FlushError::from_vulkan_error_spec(err))),
                },
            ),
            _ => self.with(self.previous.submitted_spec(outcome), self.state),
        }
    }

    closed spec fn held(&self) -> Seq<BufferUse> {
        self.previous.held()
    }

    closed spec fn finished_spec(&self) -> Self {
        SemaphoreSignalFuture {
            previous: self.previous.finished_spec(),
            semaphore: self.semaphore,
            queue: self.queue,
            state: self.state,
            finished: true,
        }
    }

    closed spec fn cleanup_released(&self, signaled: Set<u64>) -> Seq<BufferUse> {
        self.previous.cleanup_released(signaled)
    }

    closed spec fn cleanup_spec(&self, signaled: Set<u64>) -> Self {
        self.with(self.previous.cleanup_spec(signaled), self.state)
    }

    closed spec fn queue_spec(&self) -> Option<Queue> {
        self.previous.queue_spec()
    }

    closed spec fn queue_change_allowed_spec(&self) -> bool {
        true
    }

    closed spec fn buffer_access(
        &self,
        buffer: u64,
        start: int,
        end: int,
        exclusive: bool,
        queue: Queue,
    ) -> AccessGrant {
        match self.previous.buffer_access(buffer, start, end, exclusive, queue) {
            Ok(_) => Ok(None),
            Err(err) => Err(err),
        }
    }

    closed spec fn image_access(
        &self,
        image: u64,
        start: int,
        end: int,
        exclusive: bool,
        expected_layout: ImageLayout,
        queue: Queue,
    ) -> AccessGrant {
        match self.previous.image_access(image, start, end, exclusive, expected_layout, queue) {
            Ok(_) => Ok(None),
            Err(err) => Err(err),
        }
    }

    closed spec fn swapchain_image_acquired(&self, image: u64, before: bool) -> Result<
        (),
        AccessCheckError,
    > {
        self.previous.swapchain_image_acquired(image, false)
    }

    proof fn lemma_steps(&self) {
        self.previous.lemma_steps();
    }

    proof fn lemma_submitted(&self, outcome: Result<(), VulkanError>) {
        self.previous.lemma_submitted(outcome);
    }

    proof fn lemma_release(&self, signaled: Set<u64>) {
        self.previous.lemma_release(signaled);
    }

    fn cleanup_finished(&mut self, tracker: &mut AccessTracker) {
        self.previous.cleanup_finished(tracker);
    }

    fn build_submission(&mut self) -> (step: BuildStep) {
        let semaphore = self.semaphore;
        match self.flush() {
            FlushStep::Submit(submission) => BuildStep::Submit(submission),
            FlushStep::Done(Err(err)) => BuildStep::Ready(Err(err)),
            FlushStep::Done(Ok(_)) => BuildStep::Ready(
                Ok(SubmitAnyBuilder::SemaphoresWait(SemaphoreList::one(semaphore))),
            ),
        }
    }

    fn flush(&mut self) -> (step: FlushStep) {
        match self.state {
            FlushState::Flushed(result) => FlushStep::Done(result),
            FlushState::Presented => {
                self.state = FlushState::Submitting;
                let (info, fence) = signaling_batch(SubmitAnyBuilder::Empty, self.semaphore);
                FlushStep::Submit(Submission::Submit { queue: self.queue, info, fence })
            },
            _ => {
                proof {
                    self.previous.lemma_steps();
                }
                match self.previous.build_submission() {
                    BuildStep::Submit(submission) => FlushStep::Submit(submission),
                    BuildStep::Ready(Err(err)) => {
                        self.state = FlushState::Flushed(Err(err));
                        FlushStep::Done(Err(err))
                    },
                    BuildStep::Ready(Ok(SubmitAnyBuilder::QueuePresent(present))) => {
                        match check_present(&self.previous, &present) {
                            Some(err) => {
                                self.state = FlushState::Flushed(Err(err));
                                FlushStep::Done(Err(err))
                            },
                            None => {
                                self.state = FlushState::Presenting;
                                FlushStep::Submit(
                                    Submission::Present { queue: self.queue, present },
                                )
                            },
                        }
                    },
                    BuildStep::Ready(Ok(builder)) => {
                        self.state = FlushState::Submitting;
                        let (info, fence) = signaling_batch(builder, self.semaphore);
                        FlushStep::Submit(Submission::Submit { queue: self.queue, info, fence })
                    },
                }
            },
        }
    }

    fn submitted(&mut self, outcome: Result<(), VulkanError>) {
        match self.state {
            FlushState::Submitting => {
                self.state = FlushState::Flushed(
                    match outcome {
                        Ok(_) => Ok(()),
                        Err(err) => Err(FlushError::from_vulkan_error(err)),
                    },
                );
            },
            FlushState::Presenting => {
                self.state = match outcome {
                    Ok(_) => FlushState::Presented,
                    Err(err) => FlushState::Flushed(Err(FlushError::from_vulkan_error(err))),
                };
            },
            _ => {
                self.previous.submitted(outcome);
            },
        }
    }

    fn is_awaiting(&self) -> (r: bool) {
        self.state.is_awaiting() || self.previous.is_awaiting()
    }

    fn signal_finished(&mut self, tracker: &mut AccessTracker) {
        self.finished = true;
        self.previous.signal_finished(tracker);
    }

    fn device(&self) -> (device: u64) {
        self.previous.device()
    }

    fn queue(&self) -> (queue: Option<Queue>) {
        self.previous.queue()
    }

    fn queue_change_allowed(&self) -> (allowed: bool) {
        true
    }

    fn check_buffer_access(
        &self,
        buffer: &UnsafeBuffer,
        range: Range<DeviceSize>,
        exclusive: bool,
        queue: &Queue,
    ) -> (grant: AccessGrant) {
        match self.previous.check_buffer_access(buffer, range, exclusive, queue) {
            Ok(_) => Ok(None),
            Err(err) => Err(err),
        }
    }

    fn check_image_access(
        &self,
        image: &UnsafeImage,
        range: Range<DeviceSize>,
        exclusive: bool,
        expected_layout: ImageLayout,
        queue: &Queue,
    ) -> (grant: AccessGrant) {
        match self.previous.check_image_access(image, range, exclusive, expected_layout, queue) {
            Ok(_) => Ok(None),
            Err(err) => Err(err),
        }
    }

    fn check_swapchain_image_acquired(&self, image: &UnsafeImage, before: bool) -> (result: Result<
        (),
        AccessCheckError,
    >) {
        self.previous.check_swapchain_image_acquired(image, false)
    }
}

} // verus!
