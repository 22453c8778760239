//! A future on the heap is a future.

use crate::buffer::sys::UnsafeBuffer;
use crate::device::Queue;
use crate::image::sys::UnsafeImage;
use crate::image::ImageLayout;
use crate::sync::future::{
    AccessCheckError, AccessGrant, BuildStep, BuildStepView, FlushError, FlushStep, FlushStepView,
    GpuFuture,
};
use crate::sync::tracker::{AccessTracker, BufferUse};
use crate::{DeviceSize, VulkanError};
use std::ops::Range;
use vstd::prelude::*;

verus! {

impl<F: GpuFuture> GpuFuture for Box<F> {
    open spec fn inv(&self) -> bool {
        (**self).inv()
    }

    open spec fn device_spec(&self) -> u64 {
        (**self).device_spec()
    }

    open spec fn awaiting(&self) -> bool {
        (**self).awaiting()
    }

    open spec fn may_present(&self) -> bool {
        (**self).may_present()
    }

    open spec fn signals_flushed(&self) -> bool {
        (**self).signals_flushed()
    }

    open spec fn flush_result(&self) -> Option<Result<(), FlushError>> {
        (**self).flush_result()
    }

    open spec fn build_spec(&self) -> (Self, BuildStepView) {
        (Box::new((**self).build_spec().0), (**self).build_spec().1)
    }

    open spec fn flush_spec(&self) -> (Self, FlushStepView) {
        (Box::new((**self).flush_spec().0), (**self).flush_spec().1)
    }

    open spec fn submitted_spec(&self, outcome: Result<(), VulkanError>) -> Self {
        Box::new((**self).submitted_spec(outcome))
    }

    open spec fn held(&self) -> Seq<BufferUse> {
        (**self).held()
    }

    open spec fn finished_spec(&self) -> Self {
        Box::new((**self).finished_spec())
    }

    open spec fn cleanup_released(&self, signaled: Set<u64>) -> Seq<BufferUse> {
        (**self).cleanup_released(signaled)
    }

    open spec fn cleanup_spec(&self, signaled: Set<u64>) -> Self {
        Box::new((**self).cleanup_spec(signaled))
    }

    open spec fn queue_spec(&self) -> Option<Queue> {
        (**self).queue_spec()
    }

    open spec fn queue_change_allowed_spec(&self) -> bool {
        (**self).queue_change_allowed_spec()
    }

    open spec fn buffer_access(
        &self,
        buffer: u64,
        start: int,
        end: int,
        exclusive: bool,
        queue: Queue,
    ) -> AccessGrant {
        (**self).buffer_access(buffer, start, end, exclusive, queue)
    }

    open spec fn image_access(
        &self,
        image: u64,
        start: int,
        end: int,
        exclusive: bool,
        expected_layout: ImageLayout,
        queue: Queue,
    ) -> AccessGrant {
        (**self).image_access(image, start, end, exclusive, expected_layout, queue)
    }

    open spec fn swapchain_image_acquired(&self, image: u64, before: bool) -> Result<
        (),
        AccessCheckError,
    > {
        (**self).swapchain_image_acquired(image, before)
    }

    proof fn lemma_steps(&self) {
        (**self).lemma_steps();
    }

    proof fn lemma_submitted(&self, outcome: Result<(), VulkanError>) {
        (**self).lemma_submitted(outcome);
    }

    proof fn lemma_release(&self, signaled: Set<u64>) {
        (**self).lemma_release(signaled);
    }

    fn cleanup_finished(&mut self, tracker: &mut AccessTracker) {
        (**self).cleanup_finished(tracker)
    }

    fn build_submission(&mut self) -> (step: BuildStep) {
        (**self).build_submission()
    }

    fn flush(&mut self) -> (step: FlushStep) {
        (**self).flush()
    }

    fn submitted(&mut self, outcome: Result<(), VulkanError>) {
        (**self).submitted(outcome)
    }

    fn is_awaiting(&self) -> (r: bool) {
        (**self).is_awaiting()
    }

    fn signal_finished(&mut self, tracker: &mut AccessTracker) {
        (**self).signal_finished(tracker)
    }

    fn device(&self) -> (device: u64) {
        (**self).device()
    }

    fn queue(&self) -> (queue: Option<Queue>) {
        (**self).queue()
    }

    fn queue_change_allowed(&self) -> (allowed: bool) {
        (**self).queue_change_allowed()
    }

    fn check_buffer_access(
        &self,
        buffer: &UnsafeBuffer,
        range: Range<DeviceSize>,
        exclusive: bool,
        queue: &Queue,
    ) -> (grant: AccessGrant) {
        (**self).check_buffer_access(buffer, range, exclusive, queue)
    }

    fn check_image_access(
        &self,
        image: &UnsafeImage,
        range: Range<DeviceSize>,
        exclusive: bool,
        expected_layout: ImageLayout,
        queue: &Queue,
    ) -> (grant: AccessGrant) {
        (**self).check_image_access(image, range, exclusive, expected_layout, queue)
    }

    fn check_swapchain_image_acquired(&self, image: &UnsafeImage, before: bool) -> (result: Result<
        (),
        AccessCheckError,
    >) {
        (**self).check_swapchain_image_acquired(image, before)
    }
}

} // verus!
