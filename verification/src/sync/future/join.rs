//! The future of the moment when two events have both happened.

use crate::buffer::sys::UnsafeBuffer;
use crate::device::Queue;
use crate::image::sys::UnsafeImage;
use crate::image::ImageLayout;
use crate::sync::future::{
    AccessCheckError, AccessGrant, BuildStep, BuildStepView, FlushError, FlushStep, FlushStepView,
    GpuFuture, SubmitAnyBuilder, SubmitAnyBuilderView,
};
use crate::sync::tracker::{lemma_uses_unlockable_concat, AccessTracker, BufferUse};
use crate::{DeviceSize, VulkanError};
use std::ops::Range;
use vstd::prelude::*;

verus! {

/// Two futures joined into one.
#[derive(Debug)]
pub struct JoinFuture<A, B> {
    first: A,
    second: B,
}

/// Whether two futures can be joined: they belong to one device, no step of
/// theirs is under way, and where neither lets the queue change they are on
/// the same queue.
pub open spec fn joinable<F: GpuFuture, S: GpuFuture>(first: F, second: S) -> bool {
    &&& first.inv()
    &&& second.inv()
    &&& !first.awaiting()
    &&& !second.awaiting()
    &&& first.device_spec() == second.device_spec()
    &&& (!first.queue_change_allowed_spec() && !second.queue_change_allowed_spec() ==> {
        &&& first.queue_spec() is Some
        &&& first.queue_spec() == second.queue_spec()
    })
}

/// Joins two futures together.
pub fn join<F: GpuFuture, S: GpuFuture>(first: F, second: S) -> (future: JoinFuture<F, S>)
    requires
        joinable(first, second),
    ensures
        future.inv(),
        !future.awaiting(),
        future.first_spec() == first,
        future.second_spec() == second,
        future.device_spec() == first.device_spec(),
        future.held() == first.held() + second.held(),
{
    JoinFuture { first, second }
}

/// What two futures grant together. An access is granted where both grant
/// it, or where one grants it and the other does not know the resource: the
/// latest uses that they name are then taken together. A denial of either
/// one stands, and where both deny, the first one's reason is given.
pub open spec fn merge_grants(first: AccessGrant, second: AccessGrant) -> AccessGrant {
    match (first, second) {
        (v, Err(AccessCheckError::Unknown)) => v,
        (Err(AccessCheckError::Unknown), v) => v,
        (Err(AccessCheckError::Denied(e)), _) => Err(AccessCheckError::Denied(e)),
        (_, Err(AccessCheckError::Denied(e))) => Err(AccessCheckError::Denied(e)),
        (Ok(None), Ok(v)) => Ok(v),
        (Ok(v), Ok(None)) => Ok(v),
        (Ok(Some((s1, a1))), Ok(Some((s2, a2)))) => Ok(
            Some((s1.union_spec(s2), a1.union_spec(a2))),
        ),
    }
}

/// Whether an image of a swapchain was acquired before two futures taken
/// together: it was where either one says so.
pub open spec fn merge_acquired(
    first: Result<(), AccessCheckError>,
    second: Result<(), AccessCheckError>,
) -> Result<(), AccessCheckError> {
    match (first, second) {
        (v, Err(AccessCheckError::Unknown)) => v,
        (Err(AccessCheckError::Unknown), v) => v,
        (Err(AccessCheckError::Denied(e)), Err(AccessCheckError::Denied(_))) => Err(
            AccessCheckError::Denied(e),
        ),
        _ => Ok(()),
    }
}

/// Computes what two futures grant together.
pub fn merged_grant(first: AccessGrant, second: AccessGrant) -> (grant: AccessGrant)
    ensures
        grant == merge_grants(first, second),
{
    match (first, second) {
        (v, Err(AccessCheckError::Unknown)) => v,
        (Err(AccessCheckError::Unknown), v) => v,
        (Err(AccessCheckError::Denied(e)), _) => Err(AccessCheckError::Denied(e)),
        (_, Err(AccessCheckError::Denied(e))) => Err(AccessCheckError::Denied(e)),
        (Ok(None), Ok(v)) => Ok(v),
        (Ok(v), Ok(None)) => Ok(v),
        (Ok(Some((s1, a1))), Ok(Some((s2, a2)))) => Ok(Some((s1.union(&s2), a1.union(&a2)))),
    }
}

/// Two futures taken together grant an access only if at least one of them
/// grants it and neither denies it; and they grant it then.
pub proof fn lemma_join_grants(first: AccessGrant, second: AccessGrant)
    ensures
        merge_grants(first, second) is Ok <==> (first is Ok || second is Ok) && !(first matches Err(
            AccessCheckError::Denied(_),
        )) && !(second matches Err(AccessCheckError::Denied(_))),
        merge_grants(first, second) matches Err(AccessCheckError::Unknown) <==> (
        first matches Err(AccessCheckError::Unknown)) && (second matches Err(
            AccessCheckError::Unknown,
        )),
{
}

/// A join of two futures grants an access to a buffer, exclusive or not,
/// only if at least one of the two grants it and the other grants it too or
/// does not know the buffer; and it grants it then. What it answers is what
/// the answers of the two give together.
pub proof fn lemma_join_buffer_access<A: GpuFuture, B: GpuFuture>(
    future: JoinFuture<A, B>,
    buffer: u64,
    start: int,
    end: int,
    exclusive: bool,
    queue: Queue,
)
    ensures
        ({
            let first = future.first_spec().buffer_access(buffer, start, end, exclusive, queue);
            let second = future.second_spec().buffer_access(buffer, start, end, exclusive, queue);
            let joined = future.buffer_access(buffer, start, end, exclusive, queue);
            &&& joined == merge_grants(first, second)
            &&& joined is Ok <==> (first is Ok || second is Ok) && (first is Ok || (
            first matches Err(AccessCheckError::Unknown))) && (second is Ok || (
            second matches Err(AccessCheckError::Unknown)))
        }),
{
    let first = future.first_spec().buffer_access(buffer, start, end, exclusive, queue);
    let second = future.second_spec().buffer_access(buffer, start, end, exclusive, queue);
    lemma_join_grants(first, second);
}

impl<A: GpuFuture, B: GpuFuture> JoinFuture<A, B> {
    /// The first of the two futures.
    pub closed spec fn first_spec(&self) -> A {
        self.first
    }

    /// The second of the two futures.
    pub closed spec fn second_spec(&self) -> B {
        self.second
    }

    /// What is handed on when the submissions of both futures are known.
    pub closed spec fn combine_spec(
        first: A,
        second: B,
        a: SubmitAnyBuilderView,
        b: SubmitAnyBuilderView,
    ) -> (Self, BuildStepView) {
        match (a, b) {
            (SubmitAnyBuilderView::Empty, b) => (
                JoinFuture { first, second },
                BuildStepView::Ready(Ok(b)),
            ),
            (a, SubmitAnyBuilderView::Empty) => (
                JoinFuture { first, second },
                BuildStepView::Ready(Ok(a)),
            ),
            (SubmitAnyBuilderView::SemaphoresWait(x), SubmitAnyBuilderView::SemaphoresWait(y)) => (
                JoinFuture { first, second },
                BuildStepView::Ready(Ok(SubmitAnyBuilderView::SemaphoresWait(x + y))),
            ),
            (SubmitAnyBuilderView::SemaphoresWait(x), _) => {
                let (second, step) = second.flush_spec();
                (
                    JoinFuture { first, second },
                    match step {
                        FlushStepView::Submit(submission) => BuildStepView::Submit(submission),
                        FlushStepView::Done(Err(err)) => BuildStepView::Ready(Err(err)),
                        FlushStepView::Done(Ok(_)) => BuildStepView::Ready(
                            Ok(SubmitAnyBuilderView::SemaphoresWait(x)),
                        ),
                    },
                )
            },
            (_, SubmitAnyBuilderView::SemaphoresWait(y)) => {
                let (first, step) = first.flush_spec();
                (
                    JoinFuture { first, second },
                    match step {
                        FlushStepView::Submit(submission) => BuildStepView::Submit(submission),
                        FlushStepView::Done(Err(err)) => BuildStepView::Ready(Err(err)),
                        FlushStepView::Done(Ok(_)) => BuildStepView::Ready(
                            Ok(SubmitAnyBuilderView::SemaphoresWait(y)),
                        ),
                    },
                )
            },
            _ => {
                let (first, step) = first.flush_spec();
                match step {
                    FlushStepView::Submit(submission) => (
                        JoinFuture { first, second },
                        BuildStepView::Submit(submission),
                    ),
                    FlushStepView::Done(Err(err)) => (
                        JoinFuture { first, second },
                        BuildStepView::Ready(Err(err)),
                    ),
                    FlushStepView::Done(Ok(_)) => {
                        let (second, step) = second.flush_spec();
                        (
                            JoinFuture { first, second },
                            match step {
                                FlushStepView::Submit(submission) => BuildStepView::Submit(
                                    submission,
                                ),
                                FlushStepView::Done(Err(err)) => BuildStepView::Ready(Err(err)),
                                FlushStepView::Done(Ok(_)) => BuildStepView::Ready(
                                    Ok(SubmitAnyBuilderView::Empty),
                                ),
                            },
                        )
                    },
                }
            },
        }
    }
}

impl<A: GpuFuture, B: GpuFuture> GpuFuture for JoinFuture<A, B> {
    closed spec fn inv(&self) -> bool {
        &&& self.first.inv()
        &&& self.second.inv()
        &&& !(self.first.awaiting() && self.second.awaiting())
        &&& self.first.device_spec() == self.second.device_spec()
    }

    closed spec fn device_spec(&self) -> u64 {
        self.first.device_spec()
    }

    closed spec fn awaiting(&self) -> bool {
        self.first.awaiting() || self.second.awaiting()
    }

    closed spec fn may_present(&self) -> bool {
        self.first.may_present() || self.second.may_present()
    }

    closed spec fn signals_flushed(&self) -> bool {
        self.first.signals_flushed() && self.second.signals_flushed()
    }

    closed spec fn flush_result(&self) -> Option<Result<(), FlushError>> {
        match self.first.flush_result() {
            Some(Err(err)) => Some(Err(err)),
            Some(Ok(())) => self.second.flush_result(),
            None => None,
        }
    }

    closed spec fn build_spec(&self) -> (Self, BuildStepView) {
        let (first, step) = self.first.build_spec();
        match step {
            BuildStepView::Submit(submission) => (
                JoinFuture { first, second: self.second },
                BuildStepView::Submit(submission),
            ),
            BuildStepView::Ready(Err(err)) => (
                JoinFuture { first, second: self.second },
                BuildStepView::Ready(Err(err)),
            ),
            BuildStepView::Ready(Ok(a)) => {
                let (second, step) = self.second.build_spec();
                match step {
                    BuildStepView::Submit(submission) => (
                        JoinFuture { first, second },
                        BuildStepView::Submit(submission),
                    ),
                    BuildStepView::Ready(Err(err)) => (
                        JoinFuture { first, second },
                        BuildStepView::Ready(Err(err)),
                    ),
                    BuildStepView::Ready(Ok(b)) => Self::combine_spec(first, second, a, b),
                }
            },
        }
    }

    closed spec fn flush_spec(&self) -> (Self, FlushStepView) {
        let (first, step) = self.first.flush_spec();
        match step {
            FlushStepView::Done(Ok(_)) => {
                let (second, step) = self.second.flush_spec();
                (JoinFuture { first, second }, step)
            },
            _ => (JoinFuture { first, second: self.second }, step),
        }
    }

    closed spec fn submitted_spec(&self, outcome: Result<(), VulkanError>) -> Self {
        if self.first.awaiting() {
            JoinFuture { first: self.first.submitted_spec(outcome), second: self.second }
        } else {
            JoinFuture { first: self.first, second: self.second.submitted_spec(outcome) }
        }
    }

    closed spec fn held(&self) -> Seq<BufferUse> {
        self.first.held() + self.second.held()
    }

    closed spec fn finished_spec(&self) -> Self {
        JoinFuture { first: self.first.finished_spec(), second: self.second.finished_spec() }
    }

    closed spec fn cleanup_released(&self, signaled: Set<u64>) -> Seq<BufferUse> {
        self.first.cleanup_released(signaled) + self.second.cleanup_released(signaled)
    }

    closed spec fn cleanup_spec(&self, signaled: Set<u64>) -> Self {
        JoinFuture {
            first: self.first.cleanup_spec(signaled),
            second: self.second.cleanup_spec(signaled),
        }
    }

    closed spec fn queue_spec(&self) -> Option<Queue> {
        match (self.first.queue_spec(), self.second.queue_spec()) {
            (Some(q1), Some(q2)) => if q1 == q2 {
                Some(q1)
            } else if self.first.queue_change_allowed_spec() {
                Some(q2)
            } else if self.second.queue_change_allowed_spec() {
                Some(q1)
            } else {
                None
            },
            (Some(q), None) => Some(q),
            (None, Some(q)) => Some(q),
            (None, None) => None,
        }
    }

    closed spec fn queue_change_allowed_spec(&self) -> bool {
        self.first.queue_change_allowed_spec() && self.second.queue_change_allowed_spec()
    }

    closed spec fn buffer_access(
        &self,
        buffer: u64,
        start: int,
        end: int,
        exclusive: bool,
        queue: Queue,
    ) -> AccessGrant {
        merge_grants(
            self.first.buffer_access(buffer, start, end, exclusive, queue),
            self.second.buffer_access(buffer, start, end, exclusive, queue),
        )
    }

    closed spec fn image_access(
        &self,
        image: u64,
        start: int,
        end: int,
        exclusive: bool,
        expected_layout: ImageLayout,
        queue: Queue,
    ) -> AccessGrant {
        merge_grants(
            self.first.image_access(image, start, end, exclusive, expected_layout, queue),
            self.second.image_access(image, start, end, exclusive, expected_layout, queue),
        )
    }

    closed spec fn swapchain_image_acquired(&self, image: u64, before: bool) -> Result<
        (),
        AccessCheckError,
    > {
        merge_acquired(
            self.first.swapchain_image_acquired(image, before),
            self.second.swapchain_image_acquired(image, before),
        )
    }

    proof fn lemma_steps(&self) {
        self.first.lemma_steps();
        self.second.lemma_steps();
        let (first, step) = self.first.flush_spec();
        if step matches FlushStepView::Done(Ok(_)) {
            let (second, step) = self.second.flush_spec();
            assert(self.flush_spec() == (JoinFuture { first, second }, step));
        }
        let (first, step) = self.first.build_spec();
        if step is Ready {
            first.lemma_steps();
            let (second, step) = self.second.build_spec();
            if step is Ready {
                second.lemma_steps();
            }
        }
    }

    proof fn lemma_submitted(&self, outcome: Result<(), VulkanError>) {
        self.first.lemma_submitted(outcome);
        self.second.lemma_submitted(outcome);
    }

    proof fn lemma_release(&self, signaled: Set<u64>) {
        self.first.lemma_release(signaled);
        self.second.lemma_release(signaled);
        assert(self.finished_spec().held() =~= Seq::<BufferUse>::empty());
    }

    fn cleanup_finished(&mut self, tracker: &mut AccessTracker) {
        proof {
            lemma_uses_unlockable_concat(
                tracker@.buffers,
                self.first.cleanup_released(tracker@.signaled),
                self.second.cleanup_released(tracker@.signaled),
            );
        }
        self.first.cleanup_finished(tracker);
        self.second.cleanup_finished(tracker);
    }

    fn build_submission(&mut self) -> (step: BuildStep) {
        proof {
            self.first.lemma_steps();
            self.second.lemma_steps();
        }
        let a = match self.first.build_submission() {
            BuildStep::Submit(submission) => {
                return BuildStep::Submit(submission);
            },
            BuildStep::Ready(Err(err)) => {
                return BuildStep::Ready(Err(err));
            },
            BuildStep::Ready(Ok(a)) => a,
        };
        let b = match self.second.build_submission() {
            BuildStep::Submit(submission) => {
                return BuildStep::Submit(submission);
            },
            BuildStep::Ready(Err(err)) => {
                return BuildStep::Ready(Err(err));
            },
            BuildStep::Ready(Ok(b)) => b,
        };
        proof {
            self.first.lemma_steps();
            self.second.lemma_steps();
        }
        match (a, b) {
            (SubmitAnyBuilder::Empty, b) => BuildStep::Ready(Ok(b)),
            (a, SubmitAnyBuilder::Empty) => BuildStep::Ready(Ok(a)),
            (SubmitAnyBuilder::SemaphoresWait(mut x), SubmitAnyBuilder::SemaphoresWait(y)) => {
                x.extend(&y);
                BuildStep::Ready(Ok(SubmitAnyBuilder::SemaphoresWait(x)))
            },
            (SubmitAnyBuilder::SemaphoresWait(x), _) => match self.second.flush() {
                FlushStep::Submit(submission) => BuildStep::Submit(submission),
                FlushStep::Done(Err(err)) => BuildStep::Ready(Err(err)),
                FlushStep::Done(Ok(())) => BuildStep::Ready(
                    Ok(SubmitAnyBuilder::SemaphoresWait(x)),
                ),
            },
            (_, SubmitAnyBuilder::SemaphoresWait(y)) => match self.first.flush() {
                FlushStep::Submit(submission) => BuildStep::Submit(submission),
                FlushStep::Done(Err(err)) => BuildStep::Ready(Err(err)),
                FlushStep::Done(Ok(())) => BuildStep::Ready(
                    Ok(SubmitAnyBuilder::SemaphoresWait(y)),
                ),
            },
            _ => match self.first.flush() {
                FlushStep::Submit(submission) => BuildStep::Submit(submission),
                FlushStep::Done(Err(err)) => BuildStep::Ready(Err(err)),
                FlushStep::Done(Ok(())) => match self.second.flush() {
                    FlushStep::Submit(submission) => BuildStep::Submit(submission),
                    FlushStep::Done(Err(err)) => BuildStep::Ready(Err(err)),
                    FlushStep::Done(Ok(())) => BuildStep::Ready(Ok(SubmitAnyBuilder::Empty)),
                },
            },
        }
    }

    fn flush(&mut self) -> (step: FlushStep) {
        match self.first.flush() {
            FlushStep::Done(Ok(())) => self.second.flush(),
            step => step,
        }
    }

    fn submitted(&mut self, outcome: Result<(), VulkanError>) {
        if self.first.is_awaiting() {
            self.first.submitted(outcome);
        } else {
            self.second.submitted(outcome);
        }
    }

    fn is_awaiting(&self) -> (r: bool) {
        self.first.is_awaiting() || self.second.is_awaiting()
    }

    fn signal_finished(&mut self, tracker: &mut AccessTracker) {
        proof {
            lemma_uses_unlockable_concat(tracker@.buffers, self.first.held(), self.second.held());
        }
        self.first.signal_finished(tracker);
        self.second.signal_finished(tracker);
    }

    fn device(&self) -> (device: u64) {
        self.first.device()
    }

    fn queue(&self) -> (queue: Option<Queue>) {
        match (self.first.queue(), self.second.queue()) {
            (Some(q1), Some(q2)) => {
                if q1 == q2 {
                    Some(q1)
                } else if self.first.queue_change_allowed() {
                    Some(q2)
                } else if self.second.queue_change_allowed() {
                    Some(q1)
                } else {
                    None
                }
            },
            (Some(q), None) => Some(q),
            (None, Some(q)) => Some(q),
            (None, None) => None,
        }
    }

    fn queue_change_allowed(&self) -> (allowed: bool) {
        self.first.queue_change_allowed() && self.second.queue_change_allowed()
    }

    fn check_buffer_access(
        &self,
        buffer: &UnsafeBuffer,
        range: Range<DeviceSize>,
        exclusive: bool,
        queue: &Queue,
    ) -> (grant: AccessGrant) {
        let first = self.first.check_buffer_access(
            buffer,
            range.start..range.end,
            exclusive,
            queue,
        );
        let second = self.second.check_buffer_access(buffer, range, exclusive, queue);
        merged_grant(first, second)
    }

    fn check_image_access(
        &self,
        image: &UnsafeImage,
        range: Range<DeviceSize>,
        exclusive: bool,
        expected_layout: ImageLayout,
        queue: &Queue,
    ) -> (grant: AccessGrant) {
        let first = self.first.check_image_access(
            image,
            range.start..range.end,
            exclusive,
            expected_layout,
            queue,
        );
        let second = self.second.check_image_access(
            image,
            range,
            exclusive,
            expected_layout,
            queue,
        );
        merged_grant(first, second)
    }

    fn check_swapchain_image_acquired(&self, image: &UnsafeImage, before: bool) -> (result: Result<
        (),
        AccessCheckError,
    >) {
        let first = self.first.check_swapchain_image_acquired(image, before);
        let second = self.second.check_swapchain_image_acquired(image, before);
        match (first, second) {
            (v, Err(AccessCheckError::Unknown)) => v,
            (Err(AccessCheckError::Unknown), v) => v,
            (Err(AccessCheckError::Denied(e)), Err(AccessCheckError::Denied(_))) => Err(
                AccessCheckError::Denied(e),
            ),
            _ => Ok(()),
        }
    }
}

} // verus!
