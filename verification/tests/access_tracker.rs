use vulkano::buffer::cpu_access::{ReadLockError, WriteLockError};
use vulkano::buffer::sys::BufferState;
use vulkano::sync::future::AccessError;
use vulkano::sync::{CurrentAccess, LockKind};

#[test]
fn new_state_is_idle() {
    let state = BufferState::new(100);
    assert_eq!(state.size(), 100);
    assert_eq!(
        state.current_access(0),
        Some(CurrentAccess::Shared {
            cpu_reads: 0,
            gpu_reads: 0
        })
    );
    assert_eq!(
        state.current_access(99),
        Some(CurrentAccess::Shared {
            cpu_reads: 0,
            gpu_reads: 0
        })
    );
    assert_eq!(state.current_access(100), None);
    assert_eq!(state.check_cpu_read(0..100), Ok(()));
    assert_eq!(state.check_cpu_write(0..100), Ok(()));
    assert_eq!(state.check_gpu_read(0..100), Ok(()));
    assert_eq!(state.check_gpu_write(0..100), Ok(()));
}

#[test]
fn cpu_write_lock_blocks_overlapping_read() {
    let mut state = BufferState::new(100);
    state.cpu_write_lock(0..50);
    assert_eq!(
        state.check_cpu_read(40..60),
        Err(ReadLockError::CpuWriteLocked)
    );
    assert_eq!(state.check_cpu_read(50..60), Ok(()));
    assert_eq!(state.current_access(49), Some(CurrentAccess::CpuExclusive));
    assert_eq!(
        state.current_access(50),
        Some(CurrentAccess::Shared {
            cpu_reads: 0,
            gpu_reads: 0
        })
    );
}

#[test]
fn cpu_write_unlock_readmits_writes() {
    let mut state = BufferState::new(100);
    state.cpu_write_lock(0..50);
    assert_eq!(
        state.check_cpu_write(0..100),
        Err(WriteLockError::CpuLocked)
    );
    state.cpu_write_unlock(0..50);
    assert_eq!(state.check_cpu_write(0..100), Ok(()));
}

#[test]
fn gpu_locks_report_already_in_use() {
    let mut state = BufferState::new(64);
    state.gpu_write_lock(16..32);
    assert_eq!(state.check_gpu_write(0..64), Err(AccessError::AlreadyInUse));
    assert_eq!(state.check_gpu_write(31..32), Err(AccessError::AlreadyInUse));
    assert_eq!(state.check_gpu_write(0..16), Ok(()));
    assert_eq!(
        state.check_cpu_read(0..64),
        Err(ReadLockError::GpuWriteLocked)
    );
    assert_eq!(
        state.check_cpu_write(0..64),
        Err(WriteLockError::GpuLocked)
    );
    state.gpu_write_unlock(16..32);
    assert_eq!(state.check_gpu_write(0..64), Ok(()));
}

fn snapshot(state: &BufferState) -> Vec<Option<CurrentAccess>> {
    (0..=state.size()).map(|offset| state.current_access(offset)).collect()
}

#[test]
fn cpu_write_lock_refuses_every_overlapping_write_until_unlocked() {
    let overlapping = [(0u64, 100u64), (10, 21), (20, 30), (29, 31), (25, 26), (0, 21)];
    for (start, end) in overlapping {
        let mut state = BufferState::new(100);
        state.cpu_write_lock(20..30);
        assert_eq!(
            state.check_cpu_write(start..end),
            Err(WriteLockError::CpuLocked)
        );
        assert!(!state.can_lock(start..end, LockKind::CpuWrite));
        state.cpu_write_unlock(20..30);
        assert_eq!(state.check_cpu_write(start..end), Ok(()));
    }
}

#[test]
fn cpu_read_lock_refuses_overlapping_writes() {
    let mut state = BufferState::new(100);
    state.cpu_read_lock(10..20);
    assert_eq!(state.check_cpu_write(0..11), Err(WriteLockError::CpuLocked));
    assert_eq!(state.check_cpu_read(0..100), Ok(()));
    assert_eq!(state.check_gpu_write(15..16), Err(AccessError::AlreadyInUse));
    assert_eq!(state.check_gpu_read(0..100), Ok(()));
    state.cpu_read_unlock(10..20);
    assert_eq!(state.check_cpu_write(0..11), Ok(()));
}

#[test]
fn gpu_read_lock_refuses_host_writes_with_gpu_locked() {
    let mut state = BufferState::new(100);
    state.gpu_read_lock(10..20);
    assert_eq!(state.check_cpu_write(0..11), Err(WriteLockError::GpuLocked));
    assert_eq!(state.check_cpu_read(0..100), Ok(()));
    assert_eq!(state.check_gpu_write(19..20), Err(AccessError::AlreadyInUse));
}

#[test]
fn locks_on_ranges_apart_do_not_touch_each_other() {
    let kinds = [
        LockKind::CpuRead,
        LockKind::CpuWrite,
        LockKind::GpuRead,
        LockKind::GpuWrite,
    ];
    for kind in kinds {
        let mut state = BufferState::new(100);
        let before = snapshot(&state);
        match kind {
            LockKind::CpuRead => state.cpu_read_lock(0..50),
            LockKind::CpuWrite => state.cpu_write_lock(0..50),
            LockKind::GpuRead => state.gpu_read_lock(0..50),
            LockKind::GpuWrite => state.gpu_write_lock(0..50),
        }
        assert_eq!(state.check_cpu_read(50..100), Ok(()));
        assert_eq!(state.check_cpu_write(50..100), Ok(()));
        assert_eq!(state.check_gpu_read(50..100), Ok(()));
        assert_eq!(state.check_gpu_write(50..100), Ok(()));
        assert_eq!(snapshot(&state)[50..], before[50..]);
        state.cpu_write_lock(50..100);
        assert_eq!(state.current_access(50), Some(CurrentAccess::CpuExclusive));
        assert_eq!(state.current_access(99), Some(CurrentAccess::CpuExclusive));
        assert!(state.can_unlock(0..50, kind));
    }
}

#[test]
fn lock_then_unlock_restores_the_state() {
    let mut state = BufferState::new(100);
    state.cpu_read_lock(5..60);
    state.gpu_read_lock(40..80);
    let before = snapshot(&state);

    state.cpu_read_lock(30..50);
    assert_ne!(snapshot(&state), before);
    state.cpu_read_unlock(30..50);
    assert_eq!(snapshot(&state), before);

    state.gpu_read_lock(0..100);
    assert_ne!(snapshot(&state), before);
    state.gpu_read_unlock(0..100);
    assert_eq!(snapshot(&state), before);

    state.cpu_write_lock(80..100);
    assert_ne!(snapshot(&state), before);
    state.cpu_write_unlock(80..100);
    assert_eq!(snapshot(&state), before);

    state.gpu_write_lock(80..90);
    assert_ne!(snapshot(&state), before);
    state.gpu_write_unlock(80..90);
    assert_eq!(snapshot(&state), before);
}

#[test]
fn gpu_write_lock_on_reads_keeps_the_count_of_reads() {
    let mut state = BufferState::new(10);
    state.gpu_read_lock(0..10);
    state.gpu_read_lock(0..10);
    state.gpu_write_lock(2..4);
    assert_eq!(
        state.current_access(2),
        Some(CurrentAccess::GpuExclusive {
            gpu_reads: 2,
            gpu_writes: 1
        })
    );
    assert_eq!(
        state.current_access(4),
        Some(CurrentAccess::Shared {
            cpu_reads: 0,
            gpu_reads: 2
        })
    );
    state.gpu_write_unlock(2..4);
    assert_eq!(
        state.current_access(2),
        Some(CurrentAccess::Shared {
            cpu_reads: 0,
            gpu_reads: 2
        })
    );
}

#[test]
fn gpu_read_locks_nest() {
    let mut state = BufferState::new(32);
    for n in 1..=5u32 {
        assert_eq!(state.check_gpu_read(8..24), Ok(()));
        state.gpu_read_lock(8..24);
        assert_eq!(
            state.current_access(8),
            Some(CurrentAccess::Shared {
                cpu_reads: 0,
                gpu_reads: n
            })
        );
    }
    for n in (0..5u32).rev() {
        assert!(state.can_unlock(8..24, LockKind::GpuRead));
        state.gpu_read_unlock(8..24);
        assert_eq!(
            state.current_access(23),
            Some(CurrentAccess::Shared {
                cpu_reads: 0,
                gpu_reads: n
            })
        );
    }
    assert!(!state.can_unlock(8..24, LockKind::GpuRead));
    assert_eq!(state.check_gpu_write(0..32), Ok(()));
}

#[test]
fn gpu_read_locks_nest_under_a_gpu_write() {
    let mut state = BufferState::new(32);
    state.gpu_write_lock(0..32);
    state.gpu_read_lock(0..16);
    state.gpu_read_lock(0..16);
    assert_eq!(
        state.current_access(0),
        Some(CurrentAccess::GpuExclusive {
            gpu_reads: 2,
            gpu_writes: 1
        })
    );
    state.gpu_read_unlock(0..16);
    state.gpu_read_unlock(0..16);
    assert_eq!(
        state.current_access(0),
        Some(CurrentAccess::GpuExclusive {
            gpu_reads: 0,
            gpu_writes: 1
        })
    );
    assert!(!state.can_unlock(0..16, LockKind::GpuRead));
}

#[test]
fn empty_range_is_never_in_conflict() {
    let mut state = BufferState::new(10);
    state.cpu_write_lock(0..10);
    assert_eq!(state.check_cpu_read(5..5), Ok(()));
    assert_eq!(state.check_cpu_write(7..3), Ok(()));
    assert_eq!(state.check_gpu_write(0..0), Ok(()));
}

#[test]
fn lock_errors_have_words() {
    assert_eq!(
        ReadLockError::CpuWriteLocked.to_string(),
        "the buffer is already locked for write mode by the CPU"
    );
    assert_eq!(
        ReadLockError::GpuWriteLocked.to_string(),
        "the buffer is already locked for write mode by the GPU"
    );
    assert_eq!(
        WriteLockError::CpuLocked.to_string(),
        "the buffer is already locked by the CPU"
    );
    assert_eq!(
        WriteLockError::GpuLocked.to_string(),
        "the buffer is already locked by the GPU"
    );
}

#[test]
fn device_reads_what_is_shared_or_written_by_the_device() {
    let mut state = BufferState::new(64);
    state.gpu_write_lock(16..32);
    state.cpu_read_lock(40..48);
    assert_eq!(state.check_gpu_read(0..64), Ok(()));
    assert_eq!(state.check_gpu_read(16..32), Ok(()));
    state.gpu_read_lock(0..64);
    assert_eq!(
        state.current_access(16),
        Some(CurrentAccess::GpuExclusive {
            gpu_reads: 1,
            gpu_writes: 1
        })
    );
    assert_eq!(
        state.current_access(40),
        Some(CurrentAccess::Shared {
            cpu_reads: 1,
            gpu_reads: 1
        })
    );
    state.gpu_read_unlock(0..64);
    state.cpu_read_unlock(40..48);

    state.cpu_write_lock(48..56);
    assert_eq!(state.check_gpu_read(0..64), Err(AccessError::AlreadyInUse));
    assert_eq!(state.check_gpu_read(55..56), Err(AccessError::AlreadyInUse));
    assert_eq!(state.check_gpu_read(0..48), Ok(()));
    assert_eq!(state.check_gpu_read(56..64), Ok(()));
    assert!(!state.can_lock(40..50, LockKind::GpuRead));
    assert!(state.can_lock(0..48, LockKind::GpuRead));
}
