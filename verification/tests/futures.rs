use vulkano::buffer::sys::{UnsafeBuffer, UnsafeBufferCreateInfo};
use vulkano::buffer::BufferUsage;
use vulkano::command_buffer::{
    CommandBuffer, CommandBufferExecError, CommandBufferUsage, SemaphoreSubmitInfo,
};
use vulkano::device::{
    Device, DeviceExtensions, Features, PhysicalDevice, Properties, Queue,
};
use vulkano::sync::future::join::{join, merged_grant};
use vulkano::sync::future::now::now;
use vulkano::sync::future::{
    wait_infos, AccessCheckError, AccessError, AccessGrant, BuildStep, FenceError, FlushError,
    FlushStep, GpuFuture, GpuFutureExt, SemaphoreList, SubmitAnyBuilder, Submission,
};
use vulkano::sync::tracker::{AccessTracker, BufferUse};
use vulkano::sync::{AccessFlags, CurrentAccess, Fence, PipelineStages, Semaphore};
use vulkano::{OomError, Version, VulkanError};

fn device() -> Device {
    Device {
        handle: 1,
        api_version: Version::major_minor(1, 1),
        enabled_extensions: DeviceExtensions::empty(),
        enabled_features: Features::empty(),
        physical_device: PhysicalDevice {
            properties: Properties {
                max_buffer_size: None,
                min_texel_buffer_offset_alignment: 16,
                min_storage_buffer_offset_alignment: 16,
                min_uniform_buffer_offset_alignment: 64,
                max_texel_buffer_elements: 1 << 27,
                storage_texel_buffer_offset_alignment_bytes: None,
                storage_texel_buffer_offset_single_texel_alignment: None,
                uniform_texel_buffer_offset_alignment_bytes: None,
                uniform_texel_buffer_offset_single_texel_alignment: None,
                max_multiview_view_count: None,
                max_color_attachments: 8,
            },
            memory_types: vec![],
            queue_family_count: 1,
            supported_extensions: DeviceExtensions::empty(),
            format_support: vec![],
        },
    }
}

fn queue() -> Queue {
    Queue {
        device: 1,
        queue_family_index: 0,
        id_within_family: 0,
    }
}

fn buffer(tracker: &mut AccessTracker, handle: u64, size: u64) -> UnsafeBuffer {
    let key = tracker.add_buffer(size).unwrap();
    UnsafeBuffer::from_handle(
        &device(),
        handle,
        UnsafeBufferCreateInfo {
            size,
            usage: BufferUsage {
                transfer_dst: true,
                ..BufferUsage::empty()
            },
            ..Default::default()
        },
        key,
    )
}

fn transfer() -> PipelineStages {
    PipelineStages {
        transfer: true,
        ..PipelineStages::empty()
    }
}

fn transfer_write() -> AccessFlags {
    AccessFlags {
        transfer_write: true,
        ..AccessFlags::empty()
    }
}

fn shader_read() -> AccessFlags {
    AccessFlags {
        shader_read: true,
        ..AccessFlags::empty()
    }
}

fn writes(buffer: UnsafeBuffer, start: u64, end: u64) -> BufferUse {
    BufferUse {
        buffer,
        start,
        end,
        exclusive: true,
        stages: transfer(),
        access: transfer_write(),
    }
}

fn reads(buffer: UnsafeBuffer, start: u64, end: u64) -> BufferUse {
    BufferUse {
        buffer,
        start,
        end,
        exclusive: false,
        stages: PipelineStages {
            fragment_shader: true,
            ..PipelineStages::empty()
        },
        access: shader_read(),
    }
}

fn commands(key: u64, buffers: Vec<BufferUse>) -> CommandBuffer {
    CommandBuffer {
        key,
        device: 1,
        usage: CommandBufferUsage::MultipleSubmit,
        in_use: false,
        buffers,
        images: vec![],
    }
}

fn idle() -> Option<CurrentAccess> {
    Some(CurrentAccess::Shared {
        cpu_reads: 0,
        gpu_reads: 0,
    })
}

/// Carries a flush to its end, answering each submission with `Ok`. Gives
/// the result and the submissions that were asked for.
fn drive<F: GpuFuture>(future: &mut F) -> (Result<(), FlushError>, Vec<Submission>) {
    let mut submissions = Vec::new();
    loop {
        match future.flush() {
            FlushStep::Done(result) => return (result, submissions),
            FlushStep::Submit(submission) => {
                assert!(future.is_awaiting());
                submissions.push(submission);
                future.submitted(Ok(()));
                assert!(!future.is_awaiting());
            }
        }
    }
}

#[test]
fn now_has_happened() {
    let mut future = now(1);
    assert_eq!(future.device(), 1);
    assert_eq!(future.queue(), None);
    assert!(future.queue_change_allowed());
    assert!(matches!(future.flush(), FlushStep::Done(Ok(()))));
    assert!(matches!(
        future.build_submission(),
        BuildStep::Ready(Ok(SubmitAnyBuilder::Empty))
    ));
    let mut tracker = AccessTracker::new();
    let buffer = buffer(&mut tracker, 10, 64);
    assert_eq!(
        future.check_buffer_access(&buffer, 0..64, true, &queue()),
        Err(AccessCheckError::Unknown)
    );
}

#[test]
fn flush_hands_the_commands_over_once() {
    let mut tracker = AccessTracker::new();
    let target = buffer(&mut tracker, 10, 64);
    let mut future = now(1)
        .then_execute(queue(), commands(7, vec![writes(target, 0, 64)]), &mut tracker)
        .unwrap();

    let submission = match future.flush() {
        FlushStep::Submit(submission) => submission,
        FlushStep::Done(_) => panic!(),
    };
    match submission {
        Submission::Submit { queue: on, info, fence } => {
            assert_eq!(on, queue());
            assert_eq!(info.command_buffers, vec![7]);
            assert!(info.wait_semaphores.is_empty());
            assert!(info.signal_semaphores.is_empty());
            assert_eq!(fence, None);
        }
        Submission::Present { .. } => panic!(),
    }
    assert!(future.is_awaiting());
    future.submitted(Ok(()));
    for _ in 0..3 {
        assert!(matches!(future.flush(), FlushStep::Done(Ok(()))));
        assert!(!future.is_awaiting());
    }
    assert!(matches!(
        future.build_submission(),
        BuildStep::Ready(Ok(SubmitAnyBuilder::Empty))
    ));
}

#[test]
fn flush_gives_the_same_error_again() {
    let mut tracker = AccessTracker::new();
    let target = buffer(&mut tracker, 10, 64);
    let mut future = now(1)
        .then_execute(queue(), commands(7, vec![writes(target, 0, 64)]), &mut tracker)
        .unwrap();
    assert!(matches!(future.flush(), FlushStep::Submit(_)));
    future.submitted(Err(VulkanError::DeviceLost));
    for _ in 0..3 {
        assert!(matches!(
            future.flush(),
            FlushStep::Done(Err(FlushError::DeviceLost))
        ));
    }
}

#[test]
fn commands_lock_their_buffers_until_the_end() {
    let mut tracker = AccessTracker::new();
    let target = buffer(&mut tracker, 10, 64);
    let source = buffer(&mut tracker, 11, 32);
    let mut future = now(1)
        .then_execute(
            queue(),
            commands(7, vec![writes(target, 0, 32), reads(source, 0, 32)]),
            &mut tracker,
        )
        .unwrap();
    let state = tracker.buffer(target.key()).unwrap();
    assert_eq!(
        state.current_access(0),
        Some(CurrentAccess::GpuExclusive {
            gpu_reads: 0,
            gpu_writes: 1
        })
    );
    assert_eq!(state.current_access(32), idle());
    assert_eq!(
        tracker.buffer(source.key()).unwrap().current_access(31),
        Some(CurrentAccess::Shared {
            cpu_reads: 0,
            gpu_reads: 1
        })
    );

    assert_eq!(
        future.check_buffer_access(&target, 0..16, true, &queue()),
        Ok(Some((transfer(), transfer_write())))
    );
    assert_eq!(
        future.check_buffer_access(&target, 32..64, true, &queue()),
        Ok(Some((PipelineStages::empty(), AccessFlags::empty())))
    );
    let apart = buffer(&mut tracker, 12, 8);
    assert_eq!(
        future.check_buffer_access(&apart, 0..8, true, &queue()),
        Err(AccessCheckError::Unknown)
    );

    let (result, submissions) = drive(&mut future);
    assert_eq!(result, Ok(()));
    assert_eq!(submissions.len(), 1);
    future.signal_finished(&mut tracker);
    assert_eq!(tracker.buffer(target.key()).unwrap().current_access(0), idle());
    assert_eq!(tracker.buffer(source.key()).unwrap().current_access(0), idle());
}

#[test]
fn commands_on_a_locked_buffer_are_refused() {
    let mut tracker = AccessTracker::new();
    let free = buffer(&mut tracker, 10, 64);
    let busy = buffer(&mut tracker, 11, 64);
    tracker.cpu_lock(busy.key(), 0, 8, true);
    let result = now(1).then_execute(
        queue(),
        commands(7, vec![writes(free, 0, 64), reads(busy, 4, 12)]),
        &mut tracker,
    );
    match result {
        Err(CommandBufferExecError::AccessError {
            error,
            command_offset,
        }) => {
            assert_eq!(error, AccessError::AlreadyInUse);
            assert_eq!(command_offset, 1);
        }
        _ => panic!(),
    }
    assert_eq!(tracker.buffer(free.key()).unwrap().current_access(0), idle());
    assert_eq!(
        tracker.buffer(busy.key()).unwrap().current_access(0),
        Some(CurrentAccess::CpuExclusive)
    );
    assert_eq!(tracker.buffer(busy.key()).unwrap().current_access(8), idle());
}

#[test]
fn a_one_time_command_buffer_is_not_handed_over_twice() {
    let mut tracker = AccessTracker::new();
    let mut once = commands(7, vec![]);
    once.usage = CommandBufferUsage::OneTimeSubmit;
    once.in_use = true;
    assert!(matches!(
        now(1).then_execute(queue(), once, &mut tracker),
        Err(CommandBufferExecError::OneTimeSubmitAlreadySubmitted)
    ));
    let mut exclusive = commands(8, vec![]);
    exclusive.in_use = true;
    assert!(matches!(
        now(1).then_execute(queue(), exclusive, &mut tracker),
        Err(CommandBufferExecError::ExclusiveAlreadyInUse)
    ));
    let mut simultaneous = commands(9, vec![]);
    simultaneous.usage = CommandBufferUsage::SimultaneousUse;
    simultaneous.in_use = true;
    assert!(now(1).then_execute(queue(), simultaneous, &mut tracker).is_ok());
}

#[test]
fn join_releases_the_locks_of_both_once() {
    let mut tracker = AccessTracker::new();
    let target = buffer(&mut tracker, 10, 64);
    let mut other = now(1)
        .then_execute(queue(), commands(7, vec![writes(target, 0, 64)]), &mut tracker)
        .unwrap();
    let (result, _) = drive(&mut other);
    assert_eq!(result, Ok(()));
    other.signal_finished(&mut tracker);
    assert_eq!(tracker.buffer(target.key()).unwrap().current_access(0), idle());

    let mut joined = now(1).join(other);
    joined.cleanup_finished(&mut tracker);
    assert_eq!(tracker.buffer(target.key()).unwrap().current_access(0), idle());
    assert_eq!(tracker.buffer(target.key()).unwrap().current_access(63), idle());
    joined.signal_finished(&mut tracker);
    joined.cleanup_finished(&mut tracker);
    assert_eq!(tracker.buffer(target.key()).unwrap().current_access(0), idle());
}

#[test]
fn join_of_a_fenced_future_releases_its_locks_on_cleanup() {
    let mut tracker = AccessTracker::new();
    let target = buffer(&mut tracker, 10, 64);
    let fence = Fence { handle: 3 };
    let exec = now(1)
        .then_execute(queue(), commands(7, vec![reads(target, 0, 64)]), &mut tracker)
        .unwrap();
    let mut fenced = exec.then_signal_fence(fence);
    let (result, submissions) = drive(&mut fenced);
    assert_eq!(result, Ok(()));
    assert_eq!(submissions.len(), 1);
    match &submissions[0] {
        Submission::Submit { info, fence: signaled, .. } => {
            assert_eq!(info.command_buffers, vec![7]);
            assert_eq!(*signaled, Some(fence));
        }
        Submission::Present { .. } => panic!(),
    }

    let mut joined = now(1).join(fenced);
    joined.cleanup_finished(&mut tracker);
    assert_eq!(
        tracker.buffer(target.key()).unwrap().current_access(0),
        Some(CurrentAccess::Shared {
            cpu_reads: 0,
            gpu_reads: 1
        })
    );
    tracker.fence_signaled(&fence);
    joined.cleanup_finished(&mut tracker);
    assert_eq!(tracker.buffer(target.key()).unwrap().current_access(0), idle());
    joined.cleanup_finished(&mut tracker);
    assert_eq!(tracker.buffer(target.key()).unwrap().current_access(0), idle());
}

#[test]
fn join_grants_what_one_grants_and_the_other_does_not_know() {
    let mut tracker = AccessTracker::new();
    let target = buffer(&mut tracker, 10, 64);
    let unknown = buffer(&mut tracker, 11, 64);
    let exec = now(1)
        .then_execute(queue(), commands(7, vec![writes(target, 0, 64)]), &mut tracker)
        .unwrap();
    let joined = join(exec, now(1));
    assert_eq!(
        joined.check_buffer_access(&target, 0..64, true, &queue()),
        Ok(Some((transfer(), transfer_write())))
    );
    assert_eq!(
        joined.check_buffer_access(&unknown, 0..64, true, &queue()),
        Err(AccessCheckError::Unknown)
    );
}

#[test]
fn grants_are_merged() {
    let unknown: AccessGrant = Err(AccessCheckError::Unknown);
    let denied: AccessGrant = Err(AccessCheckError::Denied(AccessError::AlreadyInUse));
    let other_denied: AccessGrant = Err(AccessCheckError::Denied(AccessError::ExclusiveDenied));
    let nothing: AccessGrant = Ok(None);
    let write: AccessGrant = Ok(Some((transfer(), transfer_write())));
    let read: AccessGrant = Ok(Some((
        PipelineStages {
            fragment_shader: true,
            ..PipelineStages::empty()
        },
        shader_read(),
    )));

    assert_eq!(merged_grant(unknown, unknown), unknown);
    assert_eq!(merged_grant(write, unknown), write);
    assert_eq!(merged_grant(unknown, write), write);
    assert_eq!(merged_grant(nothing, unknown), nothing);
    assert_eq!(merged_grant(denied, unknown), denied);
    assert_eq!(merged_grant(unknown, denied), denied);
    assert_eq!(merged_grant(denied, other_denied), denied);
    assert_eq!(merged_grant(other_denied, denied), other_denied);
    assert_eq!(merged_grant(write, denied), denied);
    assert_eq!(merged_grant(denied, write), denied);
    assert_eq!(merged_grant(nothing, nothing), nothing);
    assert_eq!(merged_grant(nothing, write), write);
    assert_eq!(merged_grant(write, nothing), write);
    assert_eq!(
        merged_grant(write, read),
        Ok(Some((
            PipelineStages {
                transfer: true,
                fragment_shader: true,
                ..PipelineStages::empty()
            },
            AccessFlags {
                transfer_write: true,
                shader_read: true,
                ..AccessFlags::empty()
            }
        )))
    );
}

#[test]
fn semaphore_is_signaled_with_the_commands() {
    let mut tracker = AccessTracker::new();
    let target = buffer(&mut tracker, 10, 64);
    let semaphore = Semaphore { handle: 21 };
    let exec = now(1)
        .then_execute(queue(), commands(7, vec![writes(target, 0, 64)]), &mut tracker)
        .unwrap();
    let (mut signal, step) = exec.then_signal_semaphore_and_flush(semaphore);
    assert_eq!(signal.semaphore(), semaphore);
    match step {
        FlushStep::Submit(Submission::Submit { info, fence, .. }) => {
            assert_eq!(info.command_buffers, vec![7]);
            assert_eq!(info.signal_semaphores, vec![semaphore]);
            assert_eq!(fence, None);
        }
        _ => panic!(),
    }
    signal.submitted(Ok(()));
    assert!(matches!(signal.flush(), FlushStep::Done(Ok(()))));
    match signal.build_submission() {
        BuildStep::Ready(Ok(SubmitAnyBuilder::SemaphoresWait(list))) => {
            assert_eq!(list.to_vec(), vec![semaphore]);
        }
        _ => panic!(),
    }
    assert!(matches!(signal.flush(), FlushStep::Done(Ok(()))));
}

#[test]
fn fence_wait_ends_the_future_before() {
    let mut tracker = AccessTracker::new();
    let target = buffer(&mut tracker, 10, 64);
    let fence = Fence { handle: 3 };
    let exec = now(1)
        .then_execute(queue(), commands(7, vec![writes(target, 0, 64)]), &mut tracker)
        .unwrap();
    let (mut fenced, step) = exec.then_signal_fence_and_flush(fence);
    assert!(matches!(step, FlushStep::Submit(_)));
    assert_eq!(fenced.fence(), fence);
    assert!(!fenced.is_signaled(&tracker));
    fenced.submitted(Ok(()));
    assert!(matches!(fenced.flush(), FlushStep::Done(Ok(()))));

    assert_eq!(
        fenced.waited(Err(FenceError::Timeout), &mut tracker),
        Err(FlushError::Timeout)
    );
    assert_eq!(
        tracker.buffer(target.key()).unwrap().current_access(0),
        Some(CurrentAccess::GpuExclusive {
            gpu_reads: 0,
            gpu_writes: 1
        })
    );
    assert_eq!(fenced.waited(Ok(()), &mut tracker), Ok(()));
    assert_eq!(tracker.buffer(target.key()).unwrap().current_access(0), idle());
    assert!(fenced.is_signaled(&tracker));
    fenced.cleanup_finished(&mut tracker);
    assert_eq!(tracker.buffer(target.key()).unwrap().current_access(0), idle());
}

#[test]
fn semaphore_lists_keep_their_order() {
    let mut list = SemaphoreList::new();
    assert_eq!(list.len(), 0);
    assert_eq!(list.get(0), None);
    list.push(Semaphore { handle: 5 });
    list.push(Semaphore { handle: 2 });
    let mut other = SemaphoreList::one(Semaphore { handle: 9 });
    other.push(Semaphore { handle: 5 });
    list.extend(&other);
    assert_eq!(list.len(), 4);
    assert_eq!(list.get(1), Some(Semaphore { handle: 2 }));
    assert_eq!(list.get(4), None);
    assert_eq!(
        list.to_vec(),
        vec![
            Semaphore { handle: 5 },
            Semaphore { handle: 2 },
            Semaphore { handle: 9 },
            Semaphore { handle: 5 }
        ]
    );
    let infos = wait_infos(&other);
    let all_commands = PipelineStages {
        all_commands: true,
        ..PipelineStages::empty()
    };
    assert_eq!(
        infos,
        vec![
            SemaphoreSubmitInfo {
                semaphore: Semaphore { handle: 9 },
                stages: all_commands
            },
            SemaphoreSubmitInfo {
                semaphore: Semaphore { handle: 5 },
                stages: all_commands
            }
        ]
    );
}

#[test]
fn flush_errors_are_told_apart() {
    assert!(FlushError::OutOfDate.needs_new_swapchain());
    assert!(FlushError::FullScreenExclusiveModeLost.needs_new_swapchain());
    assert!(!FlushError::Timeout.needs_new_swapchain());
    assert!(FlushError::DeviceLost.is_fatal());
    assert!(FlushError::SurfaceLost.is_fatal());
    assert!(FlushError::OomError(OomError::OutOfHostMemory).is_fatal());
    assert!(!FlushError::Timeout.is_fatal());
    assert!(!FlushError::OutOfDate.is_fatal());
    assert!(!FlushError::PresentIdLessThanOrEqual.is_fatal());

    assert_eq!(
        FlushError::from_vulkan_error(VulkanError::OutOfHostMemory),
        FlushError::OomError(OomError::OutOfHostMemory)
    );
    assert_eq!(
        FlushError::from_vulkan_error(VulkanError::OutOfDeviceMemory),
        FlushError::OomError(OomError::OutOfDeviceMemory)
    );
    assert_eq!(
        FlushError::from_vulkan_error(VulkanError::DeviceLost),
        FlushError::DeviceLost
    );
    assert_eq!(
        FlushError::from_vulkan_error(VulkanError::SurfaceLost),
        FlushError::SurfaceLost
    );
    assert_eq!(
        FlushError::from_vulkan_error(VulkanError::OutOfDate),
        FlushError::OutOfDate
    );
    assert_eq!(
        FlushError::from_vulkan_error(VulkanError::FullScreenExclusiveModeLost),
        FlushError::FullScreenExclusiveModeLost
    );
    assert!(!FlushError::is_convertible(&VulkanError::TooManyObjects));
    assert_eq!(
        FlushError::from(FenceError::DeviceLost),
        FlushError::DeviceLost
    );
    assert_eq!(
        FlushError::from(FenceError::OomError(OomError::OutOfHostMemory)),
        FlushError::OomError(OomError::OutOfHostMemory)
    );
    assert_eq!(
        FlushError::from(AccessError::AlreadyInUse),
        FlushError::AccessError(AccessError::AlreadyInUse)
    );
    assert_eq!(
        AccessCheckError::from(AccessError::ExclusiveDenied),
        AccessCheckError::Denied(AccessError::ExclusiveDenied)
    );
}

#[test]
fn boxed_future_is_a_future() {
    let mut tracker = AccessTracker::new();
    let target = buffer(&mut tracker, 10, 64);
    let exec = now(1)
        .then_execute(queue(), commands(7, vec![writes(target, 0, 64)]), &mut tracker)
        .unwrap();
    let mut boxed = exec.boxed();
    assert_eq!(boxed.device(), 1);
    assert_eq!(boxed.queue(), Some(queue()));
    assert_eq!(
        boxed.check_buffer_access(&target, 0..64, true, &queue()),
        Ok(Some((transfer(), transfer_write())))
    );
    let (result, submissions) = drive(&mut boxed);
    assert_eq!(result, Ok(()));
    assert_eq!(submissions.len(), 1);
    let mut joined = now(1).boxed().join(boxed);
    assert!(matches!(joined.flush(), FlushStep::Done(Ok(()))));
    joined.signal_finished(&mut tracker);
    assert_eq!(tracker.buffer(target.key()).unwrap().current_access(0), idle());
}

#[test]
fn tracker_locks_and_unlocks_uses() {
    let mut tracker = AccessTracker::new();
    let first = buffer(&mut tracker, 10, 64);
    let second = buffer(&mut tracker, 11, 64);
    let uses = vec![writes(first, 0, 32), reads(second, 8, 16), reads(second, 8, 16)];
    for u in &uses {
        assert_eq!(tracker.check_use(u), Ok(()));
        assert!(tracker.can_lock_use(u));
        tracker.lock_use(u);
    }
    assert_eq!(
        tracker.check_use(&writes(first, 16, 48)),
        Err(AccessError::AlreadyInUse)
    );
    assert_eq!(
        tracker.check_use(&writes(second, 0, 64)),
        Err(AccessError::AlreadyInUse)
    );
    assert_eq!(tracker.check_use(&reads(second, 0, 64)), Ok(()));
    assert!(tracker.can_lock_use(&reads(second, 0, 64)));
    tracker.cpu_lock(second.key(), 32, 40, true);
    assert!(!tracker.can_lock_use(&reads(second, 0, 64)));
    assert!(!tracker.can_lock_use(&writes(second, 39, 41)));
    assert!(tracker.can_lock_use(&reads(second, 0, 32)));
    tracker.cpu_unlock(second.key(), 32, 40, true);
    let missing = UnsafeBuffer::from_handle(
        &device(),
        12,
        UnsafeBufferCreateInfo {
            size: 8,
            usage: BufferUsage {
                transfer_dst: true,
                ..BufferUsage::empty()
            },
            ..Default::default()
        },
        99,
    );
    assert!(!tracker.can_lock_use(&reads(missing, 0, 8)));
    assert_eq!(
        tracker.buffer(second.key()).unwrap().current_access(8),
        Some(CurrentAccess::Shared {
            cpu_reads: 0,
            gpu_reads: 2
        })
    );
    tracker.unlock_uses(&uses);
    assert_eq!(tracker.buffer(first.key()).unwrap().current_access(0), idle());
    assert_eq!(tracker.buffer(second.key()).unwrap().current_access(8), idle());
    tracker.lock_use(&uses[0]);
    tracker.unlock_use(&uses[0]);
    assert_eq!(tracker.buffer(first.key()).unwrap().current_access(0), idle());
}

#[test]
fn commands_follow_on_the_same_queue() {
    let mut tracker = AccessTracker::new();
    let target = buffer(&mut tracker, 10, 64);
    let first = now(1)
        .then_execute(queue(), commands(7, vec![reads(target, 0, 64)]), &mut tracker)
        .unwrap();
    let mut second = first
        .then_execute_same_queue(commands(8, vec![reads(target, 0, 64)]), &mut tracker)
        .unwrap();
    assert_eq!(second.queue(), Some(queue()));
    assert!(!second.queue_change_allowed());
    assert_eq!(
        tracker.buffer(target.key()).unwrap().current_access(0),
        Some(CurrentAccess::Shared {
            cpu_reads: 0,
            gpu_reads: 2
        })
    );
    let (result, submissions) = drive(&mut second);
    assert_eq!(result, Ok(()));
    assert_eq!(submissions.len(), 1);
    match &submissions[0] {
        Submission::Submit { info, .. } => assert_eq!(info.command_buffers, vec![7, 8]),
        Submission::Present { .. } => panic!(),
    }
    second.signal_finished(&mut tracker);
    assert_eq!(tracker.buffer(target.key()).unwrap().current_access(0), idle());
}
