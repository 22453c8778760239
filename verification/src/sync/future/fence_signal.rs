//! The future of the moment when a fence is signaled.

use crate::buffer::sys::UnsafeBuffer;
use crate::command_buffer::{SubmitInfo, SubmitInfoView};
use crate::device::Queue;
use crate::image::sys::UnsafeImage;
use crate::image::ImageLayout;
use crate::sync::future::{
    check_present, present_refusal, wait_infos, wait_infos_spec, AccessCheckError, AccessGrant,
    BuildStep, BuildStepView, FenceError, FlushError, FlushState, FlushStep, FlushStepView,
    GpuFuture, Submission, SubmissionView, SubmitAnyBuilder, SubmitAnyBuilderView,
};
use crate::sync::tracker::{uses_unlockable, uses_unlocked, AccessTracker, BufferUse};
use crate::sync::Fence;
use crate::{DeviceSize, VulkanError};
use std::ops::Range;
use vstd::prelude::*;

verus! {

/// Represents a fence being signaled after a previous event.
///
/// Contrary to most other future types, it is possible to block the current thread until the
/// event happens. Once the device is known to have signaled the fence, the future gives up
/// the future before it, with the locks that it held.
#[derive(Debug)]
pub struct FenceSignalFuture<F> {
    previous: Option<F>,
    fence: Fence,
    queue: Queue,
    state: FlushState,
    device: u64,
}

/// Builds a new fence signal future: `fence` is signaled on `queue` once
/// `future` has happened.
pub fn then_signal_fence<F: GpuFuture>(future: F, fence: Fence, queue: Queue) -> (signal:
    FenceSignalFuture<F>)
    requires
        future.inv(),
        !future.awaiting(),
        future.queue_spec() == Some(queue),
    ensures
        signal.inv(),
        !signal.awaiting(),
        signal.previous_spec() == Some(future),
        signal.fence_spec() == fence,
        signal.flush_result() is None,
        signal.held() == future.held(),
        signal.device_spec() == future.device_spec(),
        signal == FenceSignalFuture::initial(future, fence, queue),
{
    let device = future.device();
    FenceSignalFuture { previous: Some(future), fence, queue, state: FlushState::Pending, device }
}

/// The batch that signals a fence after what a future asks to be handed
/// over.
pub open spec fn batch_fenced(builder: SubmitAnyBuilderView) -> SubmitInfoView {
    match builder {
        SubmitAnyBuilderView::SemaphoresWait(handles) => SubmitInfoView {
            wait_semaphores: wait_infos_spec(handles),
            command_buffers: Seq::empty(),
            signal_semaphores: Seq::empty(),
        },
        SubmitAnyBuilderView::CommandBuffer(info, _) => info,
        _ => SubmitInfoView::empty(),
    }
}

impl<F: GpuFuture> FenceSignalFuture<F> {
    /// The future of the signal of `fence` on `queue` after `previous`,
    /// before anything was handed over.
    pub closed spec fn initial(previous: F, fence: Fence, queue: Queue) -> Self {
        FenceSignalFuture {
            previous: Some(previous),
            fence,
            queue,
            state: FlushState::Pending,
            device: previous.device_spec(),
        }
    }

    /// The future that the fence is signaled after, until the device is
    /// known to have signaled the fence.
    pub closed spec fn previous_spec(&self) -> Option<F> {
        self.previous
    }

    /// The fence.
    pub closed spec fn fence_spec(&self) -> Fence {
        self.fence
    }

    /// How far the flush has come.
    pub closed spec fn state_spec(&self) -> FlushState {
        self.state
    }

    spec fn with(&self, previous: Option<F>, state: FlushState) -> Self {
        FenceSignalFuture {
            previous,
            fence: self.fence,
            queue: self.queue,
            state,
            device: self.device,
        }
    }

    /// The batch that signals the fence alone.
    pub closed spec fn signal_alone(&self) -> SubmissionView {
        SubmissionView::Submit {
            queue: self.queue,
            info: SubmitInfoView::empty(),
            fence: Some(self.fence),
        }
    }

    /// Whether the flush has ended well and the device has signaled the
    /// fence.
    pub closed spec fn is_over(&self, signaled: Set<u64>) -> bool {
        (self.state matches FlushState::Flushed(Ok(_))) && signaled.contains(self.fence.handle)
    }

    /// Returns true if the fence is signaled by the GPU.
    pub fn is_signaled(&self, tracker: &AccessTracker) -> (r: bool)
        ensures
            r == (self.previous_spec() is None || tracker@.signaled.contains(
                self.fence_spec().handle,
            )),
    {
        match &self.previous {
            None => true,
            Some(_) => tracker.is_signaled(&self.fence),
        }
    }

    /// The fence to wait for.
    pub fn fence(&self) -> (fence: Fence)
        ensures
            fence == self.fence_spec(),
    {
        self.fence
    }

    /// Takes note of how a wait for the fence ended, once the flush has
    /// ended well. Where the wait ended well, the future before this one has
    /// happened: its locks are given back and the future is given up.
    pub fn waited(&mut self, outcome: Result<(), FenceError>, tracker: &mut AccessTracker) -> (result:
        Result<(), FlushError>)
        requires
            old(self).inv(),
            old(self).signals_flushed(),
            outcome is Ok ==> uses_unlockable(old(tracker)@.buffers, old(self).held()),
        ensures
            final(self).inv(),
            final(tracker)@.signaled == old(tracker)@.signaled,
            match outcome {
                Ok(_) => {
                    &&& result is Ok
                    &&& final(self).previous_spec() is None
                    &&& final(self).held() == Seq::<BufferUse>::empty()
                    &&& final(tracker)@.buffers == uses_unlocked(
                        old(tracker)@.buffers,
                        old(self).held(),
                    )
                },
                Err(err) => {
                    &&& result == Err::<(), FlushError>(FlushError::from_fence_error_spec(err))
                    &&& *final(self) == *old(self)
                    &&& final(tracker)@.buffers == old(tracker)@.buffers
                },
            },
    {
        match outcome {
            Err(err) => Err(FlushError::from(err)),
            Ok(_) => {
                match &mut self.previous {
                    Some(previous) => {
                        proof {
                            previous.lemma_release(tracker@.signaled);
                        }
                        previous.signal_finished(tracker);
                    },
                    None => {},
                }
                self.previous = None;
                self.state = FlushState::Flushed(Ok(()));
                Ok(())
            },
        }
    }
}

impl<F: GpuFuture> GpuFuture for FenceSignalFuture<F> {
    closed spec fn inv(&self) -> bool {
        match self.previous {
            None => self.state matches FlushState::Flushed(Ok(_)),
            Some(previous) => {
                &&& previous.inv()
                &&& !(self.state.awaiting() && previous.awaiting())
                &&& (self.state is Flushed ==> !previous.awaiting())
                &&& (!(self.state is Pending) && !(self.state matches FlushState::Flushed(Err(_)))
                    ==> previous.signals_flushed())
            },
        }
    }

    closed spec fn device_spec(&self) -> u64 {
        self.device
    }

    closed spec fn awaiting(&self) -> bool {
        self.state.awaiting() || (self.previous matches Some(previous) && previous.awaiting())
    }

    closed spec fn may_present(&self) -> bool {
        false
    }

    closed spec fn signals_flushed(&self) -> bool {
        match self.previous {
            None => true,
            Some(previous) => (self.state matches FlushState::Flushed(Ok(_)))
                && previous.signals_flushed(),
        }
    }

    closed spec fn flush_result(&self) -> Option<Result<(), FlushError>> {
        self.state.result()
    }

    closed spec fn build_spec(&self) -> (Self, BuildStepView) {
        let (flushed, step) = self.flush_spec();
        (
            flushed,
            match step {
                FlushStepView::Submit(submission) => BuildStepView::Submit(submission),
                FlushStepView::Done(Err(err)) => BuildStepView::Ready(Err(err)),
                FlushStepView::Done(Ok(_)) => BuildStepView::Ready(Ok(SubmitAnyBuilderView::Empty)),
            },
        )
    }

    closed spec fn flush_spec(&self) -> (Self, FlushStepView) {
        match (self.state, self.previous) {
            (FlushState::Flushed(result), _) => (*self, FlushStepView::Done(result)),
            (_, None) => (*self, FlushStepView::Done(Ok(()))),
            (FlushState::Presented, _) => (
                self.with(self.previous, FlushState::Submitting),
                FlushStepView::Submit(self.signal_alone()),
            ),
            (_, Some(previous)) => {
                let (previous, step) = previous.build_spec();
                match step {
                    BuildStepView::Submit(submission) => (
                        self.with(Some(previous), self.state),
                        FlushStepView::Submit(submission),
                    ),
                    BuildStepView::Ready(Err(err)) => (
                        self.with(Some(previous), FlushState::Flushed(Err(err))),
                        FlushStepView::Done(Err(err)),
                    ),
                    BuildStepView::Ready(Ok(SubmitAnyBuilderView::QueuePresent(present))) => {
                        match present_refusal(previous, present.swapchain_infos) {
                            Some(err) => (
                                self.with(Some(previous), FlushState::Flushed(Err(err))),
                                FlushStepView::Done(Err(err)),
                            ),
                            None => (
                                self.with(Some(previous), FlushState::Presenting),
                                FlushStepView::Submit(
                                    SubmissionView::Present { queue: self.queue, present },
                                ),
                            ),
                        }
                    },
                    BuildStepView::Ready(Ok(builder)) => (
                        self.with(Some(previous), FlushState::Submitting),
                        FlushStepView::Submit(
                            SubmissionView::Submit {
                                queue: self.queue,
                                info: batch_fenced(builder),
                                fence: Some(self.fence),
                            },
                        ),
                    ),
                }
            },
        }
    }

    closed spec fn submitted_spec(&self, outcome: Result<(), VulkanError>) -> Self {
        match self.state {
            FlushState::Submitting => self.with(
                self.previous,
                FlushState::Flushed(FlushError::outcome_spec(outcome)),
            ),
            FlushState::Presenting => self.with(
                self.previous,
                match outcome {
                    Ok(_) => FlushState::Presented,
                    Err(err) => FlushState::Flushed(Err(FlushError::from_vulkan_error_spec(err))),
                },
            ),
            _ => match self.previous {
                Some(previous) => self.with(Some(previous.submitted_spec(outcome)), self.state),
                None => *self,
            },
        }
    }

    closed spec fn held(&self) -> Seq<BufferUse> {
        match self.previous {
            Some(previous) => previous.held(),
            None => Seq::empty(),
        }
    }

    closed spec fn finished_spec(&self) -> Self {
        match self.previous {
            Some(previous) => self.with(Some(previous.finished_spec()), self.state),
            None => *self,
        }
    }

    closed spec fn cleanup_released(&self, signaled: Set<u64>) -> Seq<BufferUse> {
        match self.previous {
            Some(previous) => if self.is_over(signaled) {
                previous.held()
            } else {
                previous.cleanup_released(signaled)
            },
            None => Seq::empty(),
        }
    }

    closed spec fn cleanup_spec(&self, signaled: Set<u64>) -> Self {
        match self.previous {
            Some(previous) => if self.is_over(signaled) {
                self.with(None, self.state)
            } else {
                self.with(Some(previous.cleanup_spec(signaled)), self.state)
            },
            None => *self,
        }
    }

    closed spec fn queue_spec(&self) -> Option<Queue> {
        match self.previous {
            Some(previous) => previous.queue_spec(),
            None => None,
        }
    }

    closed spec fn queue_change_allowed_spec(&self) -> bool {
        self.previous is None
    }

    closed spec fn buffer_access(
        &self,
        buffer: u64,
        start: int,
        end: int,
        exclusive: bool,
        queue: Queue,
    ) -> AccessGrant {
        match self.previous {
            Some(previous) => previous.buffer_access(buffer, start, end, exclusive, queue),
            None => Err(AccessCheckError::Unknown),
        }
    }

    closed spec fn image_access(
        &self,
        image: u64,
        start: int,
        end: int,
        exclusive: bool,
        expected_layout: ImageLayout,
        queue: Queue,
    ) -> AccessGrant {
        match self.previous {
            Some(previous) => previous.image_access(
                image,
                start,
                end,
                exclusive,
                expected_layout,
                queue,
            ),
            None => Err(AccessCheckError::Unknown),
        }
    }

    closed spec fn swapchain_image_acquired(&self, image: u64, before: bool) -> Result<
        (),
        AccessCheckError,
    > {
        match self.previous {
            Some(previous) => previous.swapchain_image_acquired(image, false),
            None => Err(AccessCheckError::Unknown),
        }
    }

    proof fn lemma_steps(&self) {
        if self.previous is Some {
            self.previous->0.lemma_steps();
        }
    }

    proof fn lemma_submitted(&self, outcome: Result<(), VulkanError>) {
        if self.previous is Some {
            self.previous->0.lemma_submitted(outcome);
        }
    }

    proof fn lemma_release(&self, signaled: Set<u64>) {
        if self.previous is Some {
            self.previous->0.lemma_release(signaled);
        }
    }

    fn cleanup_finished(&mut self, tracker: &mut AccessTracker) {
        let over = match self.state {
            FlushState::Flushed(Ok(_)) => tracker.is_signaled(&self.fence),
            _ => false,
        };
        match &mut self.previous {
            Some(previous) => {
                if over {
                    previous.signal_finished(tracker);
                } else {
                    previous.cleanup_finished(tracker);
                }
            },
            None => {},
        }
        if over {
            self.previous = None;
        }
    }

    fn build_submission(&mut self) -> (step: BuildStep) {
        match self.flush() {
            FlushStep::Submit(submission) => BuildStep::Submit(submission),
            FlushStep::Done(Err(err)) => BuildStep::Ready(Err(err)),
            FlushStep::Done(Ok(_)) => BuildStep::Ready(Ok(SubmitAnyBuilder::Empty)),
        }
    }

    fn flush(&mut self) -> (step: FlushStep) {
        match self.state {
            FlushState::Flushed(result) => {
                return FlushStep::Done(result);
            },
            FlushState::Presented => {
                if self.previous.is_some() {
                    self.state = FlushState::Submitting;
                    return FlushStep::Submit(
                        Submission::Submit {
                            queue: self.queue,
                            info: SubmitInfo::new(),
                            fence: Some(self.fence),
                        },
                    );
                }
            },
            _ => {},
        }
        let queue = self.queue;
        let fence = self.fence;
        let (state, step) = match &mut self.previous {
            None => (None, FlushStep::Done(Ok(()))),
            Some(previous) => {
                proof {
                    previous.lemma_steps();
                }
                match previous.build_submission() {
                    BuildStep::Submit(submission) => (None, FlushStep::Submit(submission)),
                    BuildStep::Ready(Err(err)) => (
                        Some(FlushState::Flushed(Err(err))),
                        FlushStep::Done(Err(err)),
                    ),
                    BuildStep::Ready(Ok(SubmitAnyBuilder::QueuePresent(present))) => {
                        match check_present(previous, &present) {
                            Some(err) => (
                                Some(FlushState::Flushed(Err(err))),
                                FlushStep::Done(Err(err)),
                            ),
                            None => (
                                Some(FlushState::Presenting),
                                FlushStep::Submit(Submission::Present { queue, present }),
                            ),
                        }
                    },
                    BuildStep::Ready(Ok(builder)) => {
                        let info = match builder {
                            SubmitAnyBuilder::SemaphoresWait(list) => SubmitInfo {
                                wait_semaphores: wait_infos(&list),
                                command_buffers: Vec::new(),
                                signal_semaphores: Vec::new(),
                            },
                            SubmitAnyBuilder::CommandBuffer(info, _) => info,
                            _ => SubmitInfo::new(),
                        };
                        (
                            Some(FlushState::Submitting),
                            FlushStep::Submit(
                                Submission::Submit { queue, info, fence: Some(fence) },
                            ),
                        )
                    },
                }
            },
        };
        match state {
            Some(state) => {
                self.state = state;
            },
            None => {},
        }
        step
    }

    fn submitted(&mut self, outcome: Result<(), VulkanError>) {
        match self.state {
            FlushState::Submitting => {
                self.state = FlushState::Flushed(
                    match outcome {
                        Ok(_) => Ok(()),
                        Err(err) => Err(FlushError::from_vulkan_error(err)),
                    },
                );
            },
            FlushState::Presenting => {
                self.state = match outcome {
                    Ok(_) => FlushState::Presented,
                    Err(err) => FlushState::Flushed(Err(FlushError::from_vulkan_error(err))),
                };
            },
            _ => {
                match &mut self.previous {
                    Some(previous) => {
                        previous.submitted(outcome);
                    },
                    None => {},
                }
            },
        }
    }

    fn is_awaiting(&self) -> (r: bool) {
        self.state.is_awaiting() || match &self.previous {
            Some(previous) => previous.is_awaiting(),
            None => false,
        }
    }

    fn signal_finished(&mut self, tracker: &mut AccessTracker) {
        match &mut self.previous {
            Some(previous) => {
                previous.signal_finished(tracker);
            },
            None => {},
        }
    }

    fn device(&self) -> (device: u64) {
        self.device
    }

    fn queue(&self) -> (queue: Option<Queue>) {
        match &self.previous {
            Some(previous) => previous.queue(),
            None => None,
        }
    }

    fn queue_change_allowed(&self) -> (allowed: bool) {
        self.previous.is_none()
    }

    fn check_buffer_access(
        &self,
        buffer: &UnsafeBuffer,
        range: Range<DeviceSize>,
        exclusive: bool,
        queue: &Queue,
    ) -> (grant: AccessGrant) {
        match &self.previous {
            Some(previous) => previous.check_buffer_access(buffer, range, exclusive, queue),
            None => Err(AccessCheckError::Unknown),
        }
    }

    fn check_image_access(
        &self,
        image: &UnsafeImage,
        range: Range<DeviceSize>,
        exclusive: bool,
        expected_layout: ImageLayout,
        queue: &Queue,
    ) -> (grant: AccessGrant) {
        match &self.previous {
            Some(previous) => previous.check_image_access(
                image,
                range,
                exclusive,
                expected_layout,
                queue,
            ),
            None => Err(AccessCheckError::Unknown),
        }
    }

    fn check_swapchain_image_acquired(&self, image: &UnsafeImage, before: bool) -> (result: Result<
        (),
        AccessCheckError,
    >) {
        match &self.previous {
            Some(previous) => previous.check_swapchain_image_acquired(image, false),
            None => Err(AccessCheckError::Unknown),
        }
    }
}

} // verus!
