//! The accesses that are under way on every resource, and the fences that
//! the device has signaled.
//!
//! A resource is named by a key: the place of its state here. The state of a
//! resource is asked and changed through the tracker, so that what uses a
//! resource needs to hold its key alone.

use crate::buffer::cpu_access::{ReadLockError, WriteLockError};
use crate::buffer::sys::{
    check_cpu_read_spec, check_cpu_write_spec, check_gpu_read_spec, check_gpu_write_spec,
    lemma_lock_unlock_round_trip, lemma_unlock_valid, BufferState, UnsafeBuffer,
};
use crate::sync::future::AccessError;
use crate::sync::{
    lockable_range, locked_range, unlockable_range, unlocked_range, valid_states, AccessFlags,
    CurrentAccess, Fence, LockKind, PipelineStages,
};
use crate::DeviceSize;
use vstd::prelude::*;

verus! {

/// One use that work of the device makes of a range of a buffer.
#[derive(Clone, Copy, Debug, PartialEq, Eq, Structural)]
pub struct BufferUse {
    /// The buffer.
    pub buffer: UnsafeBuffer,
    /// The first byte that is used.
    pub start: DeviceSize,
    /// The byte after the last one that is used.
    pub end: DeviceSize,
    /// Whether the bytes are written.
    pub exclusive: bool,
    /// The stages at which the bytes are used.
    pub stages: PipelineStages,
    /// The ways in which the bytes are used.
    pub access: AccessFlags,
}

impl BufferUse {
    /// The kind of lock that the use takes.
    pub open spec fn kind(self) -> LockKind {
        if self.exclusive {
            LockKind::GpuWrite
        } else {
            LockKind::GpuRead
        }
    }

    /// Whether the use shares a byte with `start..end` of the buffer `buffer`.
    pub open spec fn overlaps(self, buffer: u64, start: int, end: int) -> bool {
        self.buffer.key_spec() == buffer && self.start < end && start < self.end && self.start < self.end
            && start < end
    }
}

/// Whether the lock of one use can be taken in the given states.
pub open spec fn use_lockable(buffers: Seq<Seq<CurrentAccess>>, u: BufferUse) -> bool {
    u.buffer.key_spec() < buffers.len() && lockable_range(
        buffers[u.buffer.key_spec() as int],
        u.kind(),
        u.start as int,
        u.end as int,
    )
}

/// The states after the lock of one use was taken.
pub open spec fn use_locked(buffers: Seq<Seq<CurrentAccess>>, u: BufferUse) -> Seq<
    Seq<CurrentAccess>,
> {
    buffers.update(
        u.buffer.key_spec() as int,
        locked_range(buffers[u.buffer.key_spec() as int], u.kind(), u.start as int, u.end as int),
    )
}

/// Whether the states hold the lock of one use.
pub open spec fn use_unlockable(buffers: Seq<Seq<CurrentAccess>>, u: BufferUse) -> bool {
    u.buffer.key_spec() < buffers.len() && unlockable_range(
        buffers[u.buffer.key_spec() as int],
        u.kind(),
        u.start as int,
        u.end as int,
    )
}

/// The states after the lock of one use was given back.
pub open spec fn use_unlocked(buffers: Seq<Seq<CurrentAccess>>, u: BufferUse) -> Seq<
    Seq<CurrentAccess>,
> {
    buffers.update(
        u.buffer.key_spec() as int,
        unlocked_range(buffers[u.buffer.key_spec() as int], u.kind(), u.start as int, u.end as int),
    )
}

/// Whether the states hold the locks of all the uses: each can be given
/// back after those before it.
pub open spec fn uses_unlockable(buffers: Seq<Seq<CurrentAccess>>, uses: Seq<BufferUse>) -> bool
    decreases uses.len(),
{
    uses.len() == 0 || (use_unlockable(buffers, uses[0]) && uses_unlockable(
        use_unlocked(buffers, uses[0]),
        uses.drop_first(),
    ))
}

/// The states after the locks of all the uses were given back.
pub open spec fn uses_unlocked(buffers: Seq<Seq<CurrentAccess>>, uses: Seq<BufferUse>) -> Seq<
    Seq<CurrentAccess>,
>
    decreases uses.len(),
{
    if uses.len() == 0 {
        buffers
    } else {
        uses_unlocked(use_unlocked(buffers, uses[0]), uses.drop_first())
    }
}

/// The states after the locks of all the uses were taken, one after the
/// other.
pub open spec fn uses_locked(buffers: Seq<Seq<CurrentAccess>>, uses: Seq<BufferUse>) -> Seq<
    Seq<CurrentAccess>,
>
    decreases uses.len(),
{
    if uses.len() == 0 {
        buffers
    } else {
        uses_locked(use_locked(buffers, uses[0]), uses.drop_first())
    }
}

/// What the state of the buffer alone answers to a use by the device.
pub open spec fn check_use_spec(buffers: Seq<Seq<CurrentAccess>>, u: BufferUse) -> Result<
    (),
    AccessError,
> {
    if u.buffer.key_spec() >= buffers.len() {
        Ok(())
    } else if u.exclusive {
        check_gpu_write_spec(buffers[u.buffer.key_spec() as int], u.start as int, u.end as int)
    } else {
        check_gpu_read_spec(buffers[u.buffer.key_spec() as int], u.start as int, u.end as int)
    }
}

/// Whether the states of all buffers are ones that locks and unlocks lead to.
pub open spec fn valid_buffers(buffers: Seq<Seq<CurrentAccess>>) -> bool {
    forall|k: int| 0 <= k < buffers.len() ==> valid_states(#[trigger] buffers[k])
}

/// A lock that is taken leaves the states valid, and giving it back leaves
/// every byte as it was.
pub proof fn lemma_use_round_trip(buffers: Seq<Seq<CurrentAccess>>, u: BufferUse)
    requires
        valid_buffers(buffers),
        use_lockable(buffers, u),
    ensures
        valid_buffers(use_locked(buffers, u)),
        use_unlockable(use_locked(buffers, u), u),
        use_unlocked(use_locked(buffers, u), u) == buffers,
{
    lemma_lock_unlock_round_trip(buffers[u.buffer.key_spec() as int], u.kind(), u.start as int, u.end as int);
    assert(use_unlocked(use_locked(buffers, u), u) =~= buffers);
    assert forall|k: int| 0 <= k < buffers.len() implies valid_states(
        #[trigger] use_locked(buffers, u)[k],
    ) by {
        assert(valid_states(buffers[k]));
    }
}

/// A lock that is given back leaves the states valid.
pub proof fn lemma_use_unlocked_valid(buffers: Seq<Seq<CurrentAccess>>, u: BufferUse)
    requires
        valid_buffers(buffers),
        use_unlockable(buffers, u),
    ensures
        valid_buffers(use_unlocked(buffers, u)),
{
    lemma_unlock_valid(buffers[u.buffer.key_spec() as int], u.kind(), u.start as int, u.end as int);
    assert forall|k: int| 0 <= k < buffers.len() implies valid_states(
        #[trigger] use_unlocked(buffers, u)[k],
    ) by {
        assert(valid_states(buffers[k]));
    }
}

/// Locks that are given back leave the states valid.
pub proof fn lemma_uses_unlocked_valid(buffers: Seq<Seq<CurrentAccess>>, uses: Seq<BufferUse>)
    requires
        valid_buffers(buffers),
        uses_unlockable(buffers, uses),
    ensures
        valid_buffers(uses_unlocked(buffers, uses)),
    decreases uses.len(),
{
    if uses.len() > 0 {
        lemma_use_unlocked_valid(buffers, uses[0]);
        lemma_uses_unlocked_valid(use_unlocked(buffers, uses[0]), uses.drop_first());
    }
}

/// The locks of two lists of uses are held when those of the first are and,
/// once these are given back, those of the second.
pub proof fn lemma_uses_unlockable_concat(
    buffers: Seq<Seq<CurrentAccess>>,
    a: Seq<BufferUse>,
    b: Seq<BufferUse>,
)
    ensures
        uses_unlockable(buffers, a + b) == (uses_unlockable(buffers, a) && uses_unlockable(
            uses_unlocked(buffers, a),
            b,
        )),
        uses_unlocked(buffers, a + b) == uses_unlocked(uses_unlocked(buffers, a), b),
    decreases a.len(),
{
    if a.len() == 0 {
        assert(a + b =~= b);
    } else {
        assert((a + b)[0] == a[0]);
        assert((a + b).drop_first() =~= a.drop_first() + b);
        lemma_uses_unlockable_concat(use_unlocked(buffers, a[0]), a.drop_first(), b);
    }
}

/// Taking the locks of a list of uses and of one more use after them.
pub proof fn lemma_uses_locked_push(
    buffers: Seq<Seq<CurrentAccess>>,
    a: Seq<BufferUse>,
    u: BufferUse,
)
    ensures
        uses_locked(buffers, a.push(u)) == use_locked(uses_locked(buffers, a), u),
    decreases a.len(),
{
    if a.len() == 0 {
        assert(a.push(u).drop_first() =~= a);
        assert(a.push(u)[0] == u);
        assert(uses_locked(use_locked(buffers, u), a.push(u).drop_first()) == use_locked(
            buffers,
            u,
        ));
    } else {
        assert(a.push(u)[0] == a[0]);
        assert(a.push(u).drop_first() =~= a.drop_first().push(u));
        lemma_uses_locked_push(use_locked(buffers, a[0]), a.drop_first(), u);
    }
}

/// Locks that were taken one after the other are held, and giving them back,
/// the last one first, leaves every byte as it was before.
pub proof fn lemma_locks_held(buffers: Seq<Seq<CurrentAccess>>, uses: Seq<BufferUse>, n: int)
    requires
        0 <= n <= uses.len(),
        forall|k: int|
            0 <= k < n ==> valid_buffers(#[trigger] uses_locked(buffers, uses.take(k)))
                && use_lockable(uses_locked(buffers, uses.take(k)), uses[k]),
    ensures
        uses_unlockable(uses_locked(buffers, uses.take(n)), uses.take(n).reverse()),
        uses_unlocked(uses_locked(buffers, uses.take(n)), uses.take(n).reverse()) == buffers,
    decreases n,
{
    if n == 0 {
        assert(uses.take(0) =~= Seq::<BufferUse>::empty());
        assert(uses.take(0).reverse() =~= Seq::<BufferUse>::empty());
    } else {
        lemma_locks_held(buffers, uses, n - 1);
        let init = uses.take(n - 1);
        let last = uses[n - 1];
        assert(uses.take(n) =~= init.push(last));
        lemma_uses_locked_push(buffers, init, last);
        let y = uses_locked(buffers, init);
        lemma_use_round_trip(y, last);
        let order = uses.take(n).reverse();
        assert(order[0] == last);
        assert(order.drop_first() =~= init.reverse());
    }
}

/// The kind of lock that the host takes: for writing where `exclusive` is
/// set, else for reading.
pub open spec fn cpu_kind(exclusive: bool) -> LockKind {
    if exclusive {
        LockKind::CpuWrite
    } else {
        LockKind::CpuRead
    }
}

/// The states of all buffers and the fences known to be signaled.
pub struct TrackerView {
    /// The accesses under way on each byte of each buffer, by key.
    pub buffers: Seq<Seq<CurrentAccess>>,
    /// The handles of the fences that the device has signaled.
    pub signaled: Set<u64>,
}

/// The state of every resource, by key, and the fences that the device is
/// known to have signaled.
#[derive(Debug)]
pub struct AccessTracker {
    buffers: Vec<BufferState>,
    signaled: Vec<u64>,
}

impl View for AccessTracker {
    type V = TrackerView;

    closed spec fn view(&self) -> TrackerView {
        TrackerView {
            buffers: Seq::new(self.buffers@.len(), |i: int| self.buffers@[i]@),
            signaled: self.signaled@.to_set(),
        }
    }
}

impl AccessTracker {
    /// Whether the state of every buffer is one that locks and unlocks lead
    /// to.
    pub open spec fn wf(&self) -> bool {
        valid_buffers(self@.buffers)
    }

    /// A tracker without resources.
    pub fn new() -> (tracker: Self)
        ensures
            tracker.wf(),
            tracker@.buffers.len() == 0,
            tracker@.signaled == Set::<u64>::empty(),
    {
        let tracker = AccessTracker { buffers: Vec::new(), signaled: Vec::new() };
        assert(tracker@.signaled =~= Set::<u64>::empty());
        tracker
    }

    /// Adds a buffer of `size` bytes that nothing accesses, and gives its key:
    /// the number of the buffers that the tracker held before. `None`, and
    /// nothing added, where no key is left: the tracker holds as many buffers
    /// as there are keys.
    pub fn add_buffer(&mut self, size: DeviceSize) -> (key: Option<u64>)
        ensures
            old(self).wf() ==> final(self).wf(),
            key is Some <==> old(self)@.buffers.len() < u64::MAX,
            match key {
                Some(key) => {
                    &&& key == old(self)@.buffers.len()
                    &&& final(self)@.buffers == old(self)@.buffers.push(
                        Seq::new(size as nat, |p: int| CurrentAccess::idle()),
                    )
                },
                None => final(self)@.buffers == old(self)@.buffers,
            },
            final(self)@.signaled == old(self)@.signaled,
    {
        let n = self.buffers.len();
        if n as u64 == u64::MAX {
            return None;
        }
        self.buffers.push(BufferState::new(size));
        assert(self@.buffers =~= old(self)@.buffers.push(
            Seq::new(size as nat, |p: int| CurrentAccess::idle()),
        ));
        Some(n as u64)
    }

    /// The state of the buffer with the given key.
    pub fn buffer(&self, key: u64) -> (state: Option<&BufferState>)
        ensures
            match state {
                Some(state) => key < self@.buffers.len() && state@ == self@.buffers[key as int],
                None => key >= self@.buffers.len(),
            },
    {
        if key < self.buffers.len() as u64 {
            let index = key as usize;
            Some(&self.buffers[index])
        } else {
            None
        }
    }

    /// Whether the host may read the bytes `start..end` of a buffer. A buffer
    /// that the tracker does not hold conflicts with nothing.
    pub fn check_cpu_read(&self, key: u64, start: DeviceSize, end: DeviceSize) -> (result: Result<
        (),
        ReadLockError,
    >)
        ensures
            result == if key < self@.buffers.len() {
                check_cpu_read_spec(self@.buffers[key as int], start as int, end as int)
            } else {
                Ok::<(), ReadLockError>(())
            },
    {
        if key >= self.buffers.len() as u64 {
            return Ok(());
        }
        let index = key as usize;
        assert(self@.buffers[key as int] == self.buffers[key as int]@);
        self.buffers[index].check_cpu_read(start..end)
    }

    /// Whether the host may write the bytes `start..end` of a buffer. A
    /// buffer that the tracker does not hold conflicts with nothing.
    pub fn check_cpu_write(&self, key: u64, start: DeviceSize, end: DeviceSize) -> (result: Result<
        (),
        WriteLockError,
    >)
        ensures
            result == if key < self@.buffers.len() {
                check_cpu_write_spec(self@.buffers[key as int], start as int, end as int)
            } else {
                Ok::<(), WriteLockError>(())
            },
    {
        if key >= self.buffers.len() as u64 {
            return Ok(());
        }
        let index = key as usize;
        assert(self@.buffers[key as int] == self.buffers[key as int]@);
        self.buffers[index].check_cpu_write(start..end)
    }

    /// Whether a lock of the given kind may be taken on the bytes
    /// `start..end` of a buffer that the tracker holds.
    pub fn can_lock(&self, key: u64, start: DeviceSize, end: DeviceSize, kind: LockKind) -> (r: bool)
        ensures
            r == (key < self@.buffers.len() && lockable_range(
                self@.buffers[key as int],
                kind,
                start as int,
                end as int,
            )),
    {
        if key >= self.buffers.len() as u64 {
            return false;
        }
        let index = key as usize;
        assert(self@.buffers[key as int] == self.buffers[key as int]@);
        self.buffers[index].can_lock(start..end, kind)
    }

    /// Whether the bytes `start..end` of a buffer that the tracker holds
    /// hold a lock of the given kind.
    pub fn can_unlock(&self, key: u64, start: DeviceSize, end: DeviceSize, kind: LockKind) -> (r: bool)
        ensures
            r == (key < self@.buffers.len() && unlockable_range(
                self@.buffers[key as int],
                kind,
                start as int,
                end as int,
            )),
    {
        if key >= self.buffers.len() as u64 {
            return false;
        }
        let index = key as usize;
        assert(self@.buffers[key as int] == self.buffers[key as int]@);
        self.buffers[index].can_unlock(start..end, kind)
    }

    /// Takes a lock of the host on the bytes `start..end` of a buffer: for
    /// writing where `exclusive` is set, else for reading.
    pub fn cpu_lock(&mut self, key: u64, start: DeviceSize, end: DeviceSize, exclusive: bool)
        requires
            key < old(self)@.buffers.len(),
            lockable_range(
                old(self)@.buffers[key as int],
                cpu_kind(exclusive),
                start as int,
                end as int,
            ),
        ensures
            old(self).wf() ==> final(self).wf(),
            final(self)@.signaled == old(self)@.signaled,
            final(self)@.buffers == old(self)@.buffers.update(
                key as int,
                locked_range(
                    old(self)@.buffers[key as int],
                    cpu_kind(exclusive),
                    start as int,
                    end as int,
                ),
            ),
    {
        assert(old(self)@.buffers.len() == self.buffers.len());
        assert(old(self)@.buffers[key as int] == self.buffers[key as int]@);
        let index = key as usize;
        if exclusive {
            self.buffers[index].cpu_write_lock(start..end);
        } else {
            self.buffers[index].cpu_read_lock(start..end);
        }
        assert(self@.buffers =~= old(self)@.buffers.update(
            key as int,
            locked_range(
                old(self)@.buffers[key as int],
                cpu_kind(exclusive),
                start as int,
                end as int,
            ),
        ));
        proof {
            if old(self).wf() {
                assert(valid_states(old(self)@.buffers[key as int]));
                lemma_lock_unlock_round_trip(
                    old(self)@.buffers[key as int],
                    cpu_kind(exclusive),
                    start as int,
                    end as int,
                );
                assert forall|k: int| 0 <= k < self@.buffers.len() implies valid_states(
                    #[trigger] self@.buffers[k],
                ) by {
                    assert(valid_states(old(self)@.buffers[k]));
                }
            }
        }
    }

    /// Gives a lock of the host on the bytes `start..end` of a buffer back.
    pub fn cpu_unlock(&mut self, key: u64, start: DeviceSize, end: DeviceSize, exclusive: bool)
        requires
            key < old(self)@.buffers.len(),
            unlockable_range(
                old(self)@.buffers[key as int],
                cpu_kind(exclusive),
                start as int,
                end as int,
            ),
        ensures
            old(self).wf() ==> final(self).wf(),
            final(self)@.signaled == old(self)@.signaled,
            final(self)@.buffers == old(self)@.buffers.update(
                key as int,
                unlocked_range(
                    old(self)@.buffers[key as int],
                    cpu_kind(exclusive),
                    start as int,
                    end as int,
                ),
            ),
    {
        assert(old(self)@.buffers.len() == self.buffers.len());
        assert(old(self)@.buffers[key as int] == self.buffers[key as int]@);
        let index = key as usize;
        if exclusive {
            self.buffers[index].cpu_write_unlock(start..end);
        } else {
            self.buffers[index].cpu_read_unlock(start..end);
        }
        assert(self@.buffers =~= old(self)@.buffers.update(
            key as int,
            unlocked_range(
                old(self)@.buffers[key as int],
                cpu_kind(exclusive),
                start as int,
                end as int,
            ),
        ));
        proof {
            if old(self).wf() {
                assert(valid_states(old(self)@.buffers[key as int]));
                lemma_unlock_valid(
                    old(self)@.buffers[key as int],
                    cpu_kind(exclusive),
                    start as int,
                    end as int,
                );
                assert forall|k: int| 0 <= k < self@.buffers.len() implies valid_states(
                    #[trigger] self@.buffers[k],
                ) by {
                    assert(valid_states(old(self)@.buffers[k]));
                }
            }
        }
    }

    /// What the state of the buffer alone answers to a use by the device.
    /// A buffer that the tracker does not hold conflicts with nothing.
    pub fn check_use(&self, u: &BufferUse) -> (result: Result<(), AccessError>)
        ensures
            result == check_use_spec(self@.buffers, *u),
    {
        if u.buffer.key() >= self.buffers.len() as u64 {
            return Ok(());
        }
        let key = u.buffer.key() as usize;
        assert(self@.buffers[u.buffer.key_spec() as int] == self.buffers[u.buffer.key_spec() as int]@);
        if u.exclusive {
            self.buffers[key].check_gpu_write(u.start..u.end)
        } else {
            self.buffers[key].check_gpu_read(u.start..u.end)
        }
    }

    /// Takes the lock of a use.
    pub fn lock_use(&mut self, u: &BufferUse)
        requires
            use_lockable(old(self)@.buffers, *u),
        ensures
            old(self).wf() ==> final(self).wf(),
            final(self)@.buffers == use_locked(old(self)@.buffers, *u),
            final(self)@.signaled == old(self)@.signaled,
    {
        assert(old(self)@.buffers.len() == self.buffers.len());
        assert(old(self)@.buffers[u.buffer.key_spec() as int] == self.buffers[u.buffer.key_spec() as int]@);
        let key = u.buffer.key() as usize;
        if u.exclusive {
            self.buffers[key].gpu_write_lock(u.start..u.end);
        } else {
            self.buffers[key].gpu_read_lock(u.start..u.end);
        }
        assert(self@.buffers =~= use_locked(old(self)@.buffers, *u));
        proof {
            if old(self).wf() {
                lemma_use_round_trip(old(self)@.buffers, *u);
            }
        }
    }

    /// Gives the lock of a use back.
    pub fn unlock_use(&mut self, u: &BufferUse)
        requires
            use_unlockable(old(self)@.buffers, *u),
        ensures
            old(self).wf() ==> final(self).wf(),
            final(self)@.buffers == use_unlocked(old(self)@.buffers, *u),
            final(self)@.signaled == old(self)@.signaled,
    {
        assert(old(self)@.buffers.len() == self.buffers.len());
        assert(old(self)@.buffers[u.buffer.key_spec() as int] == self.buffers[u.buffer.key_spec() as int]@);
        let key = u.buffer.key() as usize;
        if u.exclusive {
            self.buffers[key].gpu_write_unlock(u.start..u.end);
        } else {
            self.buffers[key].gpu_read_unlock(u.start..u.end);
        }
        assert(self@.buffers =~= use_unlocked(old(self)@.buffers, *u));
        proof {
            if old(self).wf() {
                lemma_use_unlocked_valid(old(self)@.buffers, *u);
            }
        }
    }

    /// Gives the locks of all the uses back, the first one first.
    pub fn unlock_uses(&mut self, uses: &Vec<BufferUse>)
        requires
            uses_unlockable(old(self)@.buffers, uses@),
        ensures
            old(self).wf() ==> final(self).wf(),
            final(self)@.buffers == uses_unlocked(old(self)@.buffers, uses@),
            final(self)@.signaled == old(self)@.signaled,
    {
        let mut i: usize = 0;
        assert(uses@.skip(0) =~= uses@);
        while i < uses.len()
            invariant
                i <= uses.len(),
                self@.signaled == old(self)@.signaled,
                old(self).wf() ==> self.wf(),
                uses_unlockable(self@.buffers, uses@.skip(i as int)),
                uses_unlocked(self@.buffers, uses@.skip(i as int)) == uses_unlocked(
                    old(self)@.buffers,
                    uses@,
                ),
            decreases uses.len() - i,
        {
            proof {
                assert(uses@.skip(i as int)[0] == uses@[i as int]);
                assert(uses@.skip(i as int).drop_first() =~= uses@.skip(i + 1));
            }
            self.unlock_use(&uses[i]);
            i += 1;
        }
        assert(uses@.skip(uses.len() as int).len() == 0);
    }

    /// Whether the lock of a use can be taken.
    pub fn can_lock_use(&self, u: &BufferUse) -> (r: bool)
        ensures
            r == use_lockable(self@.buffers, *u),
    {
        if u.buffer.key() >= self.buffers.len() as u64 {
            return false;
        }
        let kind = if u.exclusive {
            LockKind::GpuWrite
        } else {
            LockKind::GpuRead
        };
        let key = u.buffer.key() as usize;
        assert(self@.buffers[u.buffer.key_spec() as int] == self.buffers[u.buffer.key_spec() as int]@);
        self.buffers[key].can_lock(u.start..u.end, kind)
    }

    /// Records that the device has signaled a fence.
    pub fn fence_signaled(&mut self, fence: &Fence)
        ensures
            old(self).wf() ==> final(self).wf(),
            final(self)@.buffers == old(self)@.buffers,
            final(self)@.signaled == old(self)@.signaled.insert(fence.handle),
    {
        self.signaled.push(fence.handle);
        proof {
            let before = old(self).signaled@;
            let after = self.signaled@;
            assert(after == before.push(fence.handle));
            assert forall|h: u64| after.to_set().contains(h) <==> before.to_set().insert(
                fence.handle,
            ).contains(h) by {
                if after.to_set().contains(h) {
                    let i = choose|i: int| 0 <= i < after.len() && after[i] == h;
                    if i < before.len() {
                        assert(before[i] == h);
                    }
                }
                if before.to_set().contains(h) {
                    let i = choose|i: int| 0 <= i < before.len() && before[i] == h;
                    assert(after[i] == h);
                }
                assert(after[before.len() as int] == fence.handle);
            }
            assert(after.to_set() =~= before.to_set().insert(fence.handle));
            assert(self@.buffers =~= old(self)@.buffers);
        }
    }

    /// Whether the device is known to have signaled a fence.
    pub fn is_signaled(&self, fence: &Fence) -> (r: bool)
        ensures
            r == self@.signaled.contains(fence.handle),
    {
        let mut i: usize = 0;
        while i < self.signaled.len()
            invariant
                i <= self.signaled.len(),
                forall|j: int| 0 <= j < i ==> self.signaled@[j] != fence.handle,
            decreases self.signaled.len() - i,
        {
            if self.signaled[i] == fence.handle {
                return true;
            }
            i += 1;
        }
        false
    }
}

} // verus!
