//! The future of the present moment.

use crate::buffer::sys::UnsafeBuffer;
use crate::device::Queue;
use crate::image::sys::UnsafeImage;
use crate::image::ImageLayout;
use crate::sync::future::{
    AccessCheckError, AccessGrant, BuildStep, BuildStepView, FlushError, FlushStep,
    FlushStepView, GpuFuture, SubmitAnyBuilder, SubmitAnyBuilderView,
};
use crate::sync::tracker::{AccessTracker, BufferUse};
use crate::{DeviceSize, VulkanError};
use std::ops::Range;
use vstd::prelude::*;

verus! {

/// A dummy future that represents "now".
#[derive(Clone, Copy, Debug, PartialEq, Eq)]
pub struct NowFuture {
    device: u64,
}

/// Builds a future that represents "now".
pub fn now(device: u64) -> (future: NowFuture)
    ensures
        future.inv(),
        future.device_spec() == device,
{
    NowFuture { device }
}

impl GpuFuture for NowFuture {
    open spec fn inv(&self) -> bool {
        true
    }

    closed spec fn device_spec(&self) -> u64 {
        self.device
    }

    open spec fn awaiting(&self) -> bool {
        false
    }

    open spec fn may_present(&self) -> bool {
        false
    }

    open spec fn signals_flushed(&self) -> bool {
        true
    }

    open spec fn flush_result(&self) -> Option<Result<(), FlushError>> {
        Some(Ok(()))
    }

    open spec fn build_spec(&self) -> (Self, BuildStepView) {
        (*self, BuildStepView::Ready(Ok(SubmitAnyBuilderView::Empty)))
    }

    open spec fn flush_spec(&self) -> (Self, FlushStepView) {
        (*self, FlushStepView::Done(Ok(())))
    }

    open spec fn submitted_spec(&self, outcome: Result<(), VulkanError>) -> Self {
        *self
    }

    open spec fn held(&self) -> Seq<BufferUse> {
        Seq::empty()
    }

    open spec fn finished_spec(&self) -> Self {
        *self
    }

    open spec fn cleanup_released(&self, signaled: Set<u64>) -> Seq<BufferUse> {
        Seq::empty()
    }

    open spec fn cleanup_spec(&self, signaled: Set<u64>) -> Self {
        *self
    }

    open spec fn queue_spec(&self) -> Option<Queue> {
        None
    }

    open spec fn queue_change_allowed_spec(&self) -> bool {
        true
    }

    open spec fn buffer_access(
        &self,
        buffer: u64,
        start: int,
        end: int,
        exclusive: bool,
        queue: Queue,
    ) -> AccessGrant {
        Err(AccessCheckError::Unknown)
    }

    open spec fn image_access(
        &self,
        image: u64,
        start: int,
        end: int,
        exclusive: bool,
        expected_layout: ImageLayout,
        queue: Queue,
    ) -> AccessGrant {
        Err(AccessCheckError::Unknown)
    }

    open spec fn swapchain_image_acquired(&self, image: u64, before: bool) -> Result<
        (),
        AccessCheckError,
    > {
        Err(AccessCheckError::Unknown)
    }

    proof fn lemma_steps(&self) {
    }

    proof fn lemma_submitted(&self, outcome: Result<(), VulkanError>) {
    }

    proof fn lemma_release(&self, signaled: Set<u64>) {
    }

    fn cleanup_finished(&mut self, tracker: &mut AccessTracker) {
    }

    fn build_submission(&mut self) -> (step: BuildStep) {
        BuildStep::Ready(Ok(SubmitAnyBuilder::Empty))
    }

    fn flush(&mut self) -> (step: FlushStep) {
        FlushStep::Done(Ok(()))
    }

    fn submitted(&mut self, outcome: Result<(), VulkanError>) {
    }

    fn is_awaiting(&self) -> (r: bool) {
        false
    }

    fn signal_finished(&mut self, tracker: &mut AccessTracker) {
    }

    fn device(&self) -> (device: u64) {
        self.device
    }

    fn queue(&self) -> (queue: Option<Queue>) {
        None
    }

    fn queue_change_allowed(&self) -> (allowed: bool) {
        true
    }

    fn check_buffer_access(
        &self,
        buffer: &UnsafeBuffer,
        range: Range<DeviceSize>,
        exclusive: bool,
        queue: &Queue,
    ) -> (grant: AccessGrant) {
        Err(AccessCheckError::Unknown)
    }

    fn check_image_access(
        &self,
        image: &UnsafeImage,
        range: Range<DeviceSize>,
        exclusive: bool,
        expected_layout: ImageLayout,
        queue: &Queue,
    ) -> (grant: AccessGrant) {
        Err(AccessCheckError::Unknown)
    }

    fn check_swapchain_image_acquired(&self, image: &UnsafeImage, before: bool) -> (result: Result<
        (),
        AccessCheckError,
    >) {
        Err(AccessCheckError::Unknown)
    }
}

} // verus!
