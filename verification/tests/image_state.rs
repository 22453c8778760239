use vulkano::buffer::cpu_access::{ReadLockError, WriteLockError};
use vulkano::image::state::ImageState;
use vulkano::image::ImageLayout;
use vulkano::sync::future::AccessError;
use vulkano::sync::{CurrentAccess, LockKind};

fn idle() -> Option<CurrentAccess> {
    Some(CurrentAccess::Shared {
        cpu_reads: 0,
        gpu_reads: 0,
    })
}

#[test]
fn new_image_is_idle_in_its_first_layout() {
    let state = ImageState::new(100, ImageLayout::General);
    assert_eq!(state.size(), 100);
    assert_eq!(state.current_access(0), idle());
    assert_eq!(state.current_access(100), None);
    assert_eq!(state.layout(0), Some(ImageLayout::General));
    assert_eq!(state.layout(99), Some(ImageLayout::General));
    assert_eq!(state.layout(100), None);
    assert_eq!(state.check_cpu_read(0..100), Ok(()));
    assert_eq!(state.check_cpu_write(0..100), Ok(()));
    assert_eq!(state.check_gpu_read(0..100, ImageLayout::General), Ok(()));
    assert_eq!(state.check_gpu_write(0..100, ImageLayout::General), Ok(()));
}

#[test]
fn access_in_another_layout_is_refused() {
    let state = ImageState::new(100, ImageLayout::General);
    assert_eq!(
        state.check_gpu_read(10..20, ImageLayout::ShaderReadOnlyOptimal),
        Err(AccessError::UnexpectedImageLayout {
            allowed: ImageLayout::General,
            requested: ImageLayout::ShaderReadOnlyOptimal
        })
    );
    assert_eq!(
        state.check_gpu_write(0..100, ImageLayout::TransferDstOptimal),
        Err(AccessError::UnexpectedImageLayout {
            allowed: ImageLayout::General,
            requested: ImageLayout::TransferDstOptimal
        })
    );
    assert_eq!(
        state.check_gpu_read(20..20, ImageLayout::ShaderReadOnlyOptimal),
        Ok(())
    );
}

#[test]
fn undefined_layout_takes_any_layout() {
    let mut state = ImageState::new(100, ImageLayout::Preinitialized);
    state.gpu_write_lock(0..50, ImageLayout::TransferDstOptimal);
    state.gpu_write_unlock(0..50);
    assert_eq!(state.check_gpu_read(0..100, ImageLayout::Undefined), Ok(()));
    assert_eq!(state.check_gpu_write(0..100, ImageLayout::Undefined), Ok(()));
    state.cpu_write_lock(90..100);
    assert_eq!(
        state.check_gpu_read(0..100, ImageLayout::Undefined),
        Err(AccessError::AlreadyInUse)
    );
    assert_eq!(state.check_gpu_read(0..90, ImageLayout::Undefined), Ok(()));
}

#[test]
fn device_write_leaves_its_layout() {
    let mut state = ImageState::new(100, ImageLayout::Undefined);
    state.gpu_write_lock(20..60, ImageLayout::ColorAttachmentOptimal);
    assert_eq!(state.layout(19), Some(ImageLayout::Undefined));
    assert_eq!(state.layout(20), Some(ImageLayout::ColorAttachmentOptimal));
    assert_eq!(state.layout(59), Some(ImageLayout::ColorAttachmentOptimal));
    assert_eq!(state.layout(60), Some(ImageLayout::Undefined));
    assert_eq!(
        state.current_access(20),
        Some(CurrentAccess::GpuExclusive {
            gpu_reads: 0,
            gpu_writes: 1
        })
    );
    state.gpu_write_unlock(20..60);
    assert_eq!(state.current_access(20), idle());
    assert_eq!(state.layout(20), Some(ImageLayout::ColorAttachmentOptimal));
    assert_eq!(
        state.check_gpu_read(20..60, ImageLayout::ColorAttachmentOptimal),
        Ok(())
    );
    assert_eq!(
        state.check_gpu_read(10..60, ImageLayout::ColorAttachmentOptimal),
        Err(AccessError::UnexpectedImageLayout {
            allowed: ImageLayout::Undefined,
            requested: ImageLayout::ColorAttachmentOptimal
        })
    );
}

#[test]
fn first_byte_that_refuses_decides() {
    let mut state = ImageState::new(100, ImageLayout::General);
    state.gpu_write_lock(40..60, ImageLayout::TransferDstOptimal);
    // In use from 40 on, in the other layout from 40 on: in use comes first.
    assert_eq!(
        state.check_gpu_write(0..100, ImageLayout::General),
        Err(AccessError::AlreadyInUse)
    );
    state.gpu_write_unlock(40..60);
    state.cpu_write_lock(70..80);
    // The layout is refused at 40, the use at 70.
    assert_eq!(
        state.check_gpu_read(0..100, ImageLayout::General),
        Err(AccessError::UnexpectedImageLayout {
            allowed: ImageLayout::TransferDstOptimal,
            requested: ImageLayout::General
        })
    );
    // The use is refused at 70, the layout never.
    assert_eq!(
        state.check_gpu_read(60..100, ImageLayout::General),
        Err(AccessError::AlreadyInUse)
    );
    // The use comes first again.
    state.cpu_write_unlock(70..80);
    state.cpu_write_lock(10..20);
    assert_eq!(
        state.check_gpu_read(0..100, ImageLayout::General),
        Err(AccessError::AlreadyInUse)
    );
    assert_eq!(
        state.check_gpu_read(20..41, ImageLayout::General),
        Err(AccessError::UnexpectedImageLayout {
            allowed: ImageLayout::TransferDstOptimal,
            requested: ImageLayout::General
        })
    );
    assert_eq!(state.check_gpu_read(20..40, ImageLayout::General), Ok(()));
}

#[test]
fn host_locks_of_an_image_are_those_of_a_buffer() {
    let mut state = ImageState::new(64, ImageLayout::General);
    state.cpu_read_lock(0..32);
    assert_eq!(state.check_cpu_write(0..64), Err(WriteLockError::CpuLocked));
    assert_eq!(state.check_cpu_read(0..64), Ok(()));
    assert_eq!(
        state.check_gpu_write(16..17, ImageLayout::General),
        Err(AccessError::AlreadyInUse)
    );
    assert_eq!(state.check_gpu_read(0..64, ImageLayout::General), Ok(()));
    state.gpu_read_lock(0..64);
    assert_eq!(
        state.current_access(0),
        Some(CurrentAccess::Shared {
            cpu_reads: 1,
            gpu_reads: 1
        })
    );
    assert_eq!(state.check_cpu_write(32..64), Err(WriteLockError::GpuLocked));
    assert!(state.can_unlock(0..32, LockKind::CpuRead));
    assert!(!state.can_unlock(0..64, LockKind::CpuRead));
    state.cpu_read_unlock(0..32);
    state.gpu_read_unlock(0..64);
    assert_eq!(state.current_access(0), idle());
    assert!(state.can_lock(0..64, LockKind::CpuWrite));
    state.cpu_write_lock(8..16);
    assert_eq!(
        state.check_cpu_read(0..64),
        Err(ReadLockError::CpuWriteLocked)
    );
    assert_eq!(state.layout(8), Some(ImageLayout::General));
    state.cpu_write_unlock(8..16);
    assert_eq!(state.check_cpu_write(0..64), Ok(()));
}
