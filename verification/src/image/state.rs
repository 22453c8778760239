//! Which accesses to the bytes of an image are under way, and in which
//! layout the bytes are.
//!
//! The accesses are those of a buffer. Beside them each byte has a layout:
//! an access of the device names the layout that it expects, and a write of
//! the device leaves the bytes in the layout that it names. An access that
//! expects an undefined layout takes the bytes in any layout.

use crate::buffer::cpu_access::{ReadLockError, WriteLockError};
use crate::buffer::sys::{
    check_cpu_read_spec, check_cpu_write_spec, check_gpu_read_spec, check_gpu_write_spec,
    BufferState,
};
use crate::image::ImageLayout;
use crate::range_map::RangeMap;
use crate::sync::future::AccessError;
use crate::sync::{
    first_conflict, is_first_conflict, lemma_first_conflict_exists, lemma_first_conflict_is,
    lemma_first_conflict_none, lockable_range, locked_range, unlockable_range, unlocked_range,
    CurrentAccess, LockKind,
};
use crate::DeviceSize;
use std::ops::Range;
use vstd::prelude::*;

verus! {

/// The current state of an image.
#[derive(Debug)]
pub struct ImageState {
    accesses: BufferState,
    layouts: RangeMap<ImageLayout>,
}

/// What is known of each byte of an image.
pub struct ImageStateView {
    /// The accesses under way on each byte.
    pub accesses: Seq<CurrentAccess>,
    /// The layout of each byte.
    pub layouts: Seq<ImageLayout>,
}

impl View for ImageState {
    type V = ImageStateView;

    closed spec fn view(&self) -> ImageStateView {
        ImageStateView { accesses: self.accesses@, layouts: self.layouts@ }
    }
}

/// Whether an access that expects one layout cannot take a byte in another:
/// an access that expects an undefined layout takes any.
pub open spec fn layout_refused(layout: ImageLayout, expected: ImageLayout) -> bool {
    !(expected is Undefined) && layout != expected
}

/// Why the device may not access a byte of an image, if it may not: the
/// accesses under way come first, the layout after them.
pub open spec fn byte_refusal(
    access: CurrentAccess,
    layout: ImageLayout,
    expected: ImageLayout,
    exclusive: bool,
) -> Option<AccessError> {
    if exclusive && access.gpu_write_conflict() {
        Some(AccessError::AlreadyInUse)
    } else if !exclusive && access.gpu_read_conflict() {
        Some(AccessError::AlreadyInUse)
    } else if layout_refused(layout, expected) {
        Some(AccessError::UnexpectedImageLayout { allowed: layout, requested: expected })
    } else {
        None
    }
}

/// The accesses and the layout of each byte, side by side.
pub open spec fn bytes_of(v: ImageStateView) -> Seq<(CurrentAccess, ImageLayout)> {
    Seq::new(v.accesses.len(), |p: int| (v.accesses[p], v.layouts[p]))
}

/// What an access of the device to the bytes `start..end` of an image is
/// answered: the refusal of the first byte that has one.
pub open spec fn check_image_spec(
    v: ImageStateView,
    start: int,
    end: int,
    expected: ImageLayout,
    exclusive: bool,
) -> Result<(), AccessError> {
    match first_conflict(
        bytes_of(v),
        start,
        end,
        |b: (CurrentAccess, ImageLayout)| byte_refusal(b.0, b.1, expected, exclusive) is Some,
    ) {
        None => Ok(()),
        Some(p) => Err(byte_refusal(v.accesses[p], v.layouts[p], expected, exclusive)->0),
    }
}

/// The layouts after a write of the device has left `start..end` in the
/// layout `destination`.
pub open spec fn relaid(layouts: Seq<ImageLayout>, start: int, end: int, destination: ImageLayout) -> Seq<
    ImageLayout,
> {
    Seq::new(
        layouts.len(),
        |p: int|
            if start <= p < end {
                destination
            } else {
                layouts[p]
            },
    )
}

/// The answer about the bytes up to the first one whose layout is refused,
/// given the answer about the accesses alone.
proof fn lemma_check_with_layouts(
    v: ImageStateView,
    start: int,
    end: int,
    expected: ImageLayout,
    exclusive: bool,
    mismatch: Option<int>,
)
    requires
        0 <= start,
        v.accesses.len() == v.layouts.len(),
        match mismatch {
            None => forall|p: int|
                start <= p < end && p < v.layouts.len() ==> !layout_refused(
                    #[trigger] v.layouts[p],
                    expected,
                ),
            Some(at) => {
                &&& start <= at < end
                &&& at < v.layouts.len()
                &&& layout_refused(v.layouts[at], expected)
                &&& forall|p: int|
                    start <= p < at ==> !layout_refused(#[trigger] v.layouts[p], expected)
            },
        },
    ensures
        check_image_spec(v, start, end, expected, exclusive) == (match mismatch {
            None => if exclusive {
                check_gpu_write_spec(v.accesses, start, end)
            } else {
                check_gpu_read_spec(v.accesses, start, end)
            },
            Some(at) => if (if exclusive {
                check_gpu_write_spec(v.accesses, start, at + 1)
            } else {
                check_gpu_read_spec(v.accesses, start, at + 1)
            }) is Err {
                Err(AccessError::AlreadyInUse)
            } else {
                Err(
                    AccessError::UnexpectedImageLayout {
                        allowed: v.layouts[at],
                        requested: expected,
                    },
                )
            },
        }),
{
    let bytes = bytes_of(v);
    let refused = |b: (CurrentAccess, ImageLayout)|
        byte_refusal(b.0, b.1, expected, exclusive) is Some;
    let busy = |a: CurrentAccess|
        if exclusive {
            a.gpu_write_conflict()
        } else {
            a.gpu_read_conflict()
        };
    let write = |a: CurrentAccess| a.gpu_write_conflict();
    let read = |a: CurrentAccess| a.gpu_read_conflict();
    let upto = match mismatch {
        None => end,
        Some(at) => at + 1,
    };
    // The first byte in use up to the first refused layout, if there is one.
    let found = if exclusive {
        first_conflict(v.accesses, start, upto, write)
    } else {
        first_conflict(v.accesses, start, upto, read)
    };
    if found is Some {
        let q = found->0;
        if exclusive {
            assert(is_first_conflict(v.accesses, start, upto, write, q));
        } else {
            assert(is_first_conflict(v.accesses, start, upto, read, q));
        }
        assert(busy(v.accesses[q]));
        assert(refused(bytes[q]));
        assert forall|p: int| start <= p < q && 0 <= p implies !refused(#[trigger] bytes[p]) by {
            assert(!busy(v.accesses[p]));
            assert(!layout_refused(v.layouts[p], expected));
        }
        assert(is_first_conflict(bytes, start, end, refused, q));
        lemma_first_conflict_is(bytes, start, end, refused, q);
    } else {
        assert forall|p: int| start <= p < upto && 0 <= p < v.accesses.len() implies !busy(
            #[trigger] v.accesses[p],
        ) by {
            if busy(v.accesses[p]) {
                if exclusive {
                    lemma_first_conflict_exists(v.accesses, start, upto, write, p);
                } else {
                    lemma_first_conflict_exists(v.accesses, start, upto, read, p);
                }
            }
        }
        match mismatch {
            None => {
                assert forall|p: int| start <= p < end && 0 <= p < bytes.len() implies !refused(
                    #[trigger] bytes[p],
                ) by {
                    assert(!busy(v.accesses[p]));
                    assert(!layout_refused(v.layouts[p], expected));
                }
                lemma_first_conflict_none(bytes, start, end, refused);
            },
            Some(at) => {
                assert(!busy(v.accesses[at]));
                assert(refused(bytes[at]));
                assert forall|p: int| start <= p < at && 0 <= p implies !refused(
                    #[trigger] bytes[p],
                ) by {
                    assert(!busy(v.accesses[p]));
                    assert(!layout_refused(v.layouts[p], expected));
                }
                assert(is_first_conflict(bytes, start, end, refused, at));
                lemma_first_conflict_is(bytes, start, end, refused, at);
            },
        }
    }
}

/// An access that expects an undefined layout takes the bytes in any
/// layout: it is answered as an access to a buffer with the same accesses
/// under way.
pub proof fn lemma_undefined_takes_any_layout(v: ImageStateView, start: int, end: int, exclusive: bool)
    requires
        0 <= start,
        v.accesses.len() == v.layouts.len(),
    ensures
        check_image_spec(v, start, end, ImageLayout::Undefined, exclusive) == if exclusive {
            check_gpu_write_spec(v.accesses, start, end)
        } else {
            check_gpu_read_spec(v.accesses, start, end)
        },
{
    lemma_check_with_layouts(v, start, end, ImageLayout::Undefined, exclusive, None);
}

impl ImageState {
    /// Whether the state speaks of the accesses and of the layout of the
    /// same bytes.
    pub open spec fn wf(&self) -> bool {
        self@.accesses.len() == self@.layouts.len()
    }

    /// The state of an image of `size` bytes in the given layout that
    /// nothing accesses.
    pub fn new(size: DeviceSize, initial_layout: ImageLayout) -> (state: Self)
        ensures
            state.wf(),
            state@.accesses == Seq::new(size as nat, |p: int| CurrentAccess::idle()),
            state@.layouts == Seq::new(size as nat, |p: int| initial_layout),
    {
        ImageState { accesses: BufferState::new(size), layouts: RangeMap::new(size, initial_layout) }
    }

    /// The number of bytes of the image.
    pub fn size(&self) -> (size: DeviceSize)
        ensures
            size == self@.accesses.len(),
    {
        self.accesses.size()
    }

    /// The accesses under way on the byte at `offset`, if the image has it.
    pub fn current_access(&self, offset: DeviceSize) -> (access: Option<CurrentAccess>)
        ensures
            access == if offset < self@.accesses.len() {
                Some(self@.accesses[offset as int])
            } else {
                None
            },
    {
        self.accesses.current_access(offset)
    }

    /// The layout of the byte at `offset`, if the image has it.
    pub fn layout(&self, offset: DeviceSize) -> (layout: Option<ImageLayout>)
        ensures
            layout == if offset < self@.layouts.len() {
                Some(self@.layouts[offset as int])
            } else {
                None
            },
    {
        self.layouts.get(offset)
    }

    /// Whether the state of the image lets the host read the bytes of
    /// `range`.
    pub fn check_cpu_read(&self, range: Range<DeviceSize>) -> (result: Result<(), ReadLockError>)
        ensures
            result == check_cpu_read_spec(self@.accesses, range.start as int, range.end as int),
    {
        self.accesses.check_cpu_read(range)
    }

    /// Whether the state of the image lets the host write the bytes of
    /// `range`.
    pub fn check_cpu_write(&self, range: Range<DeviceSize>) -> (result: Result<(), WriteLockError>)
        ensures
            result == check_cpu_write_spec(self@.accesses, range.start as int, range.end as int),
    {
        self.accesses.check_cpu_write(range)
    }

    /// Whether a lock of the given kind may be taken on the bytes of
    /// `range`.
    pub fn can_lock(&self, range: Range<DeviceSize>, kind: LockKind) -> (r: bool)
        ensures
            r == lockable_range(self@.accesses, kind, range.start as int, range.end as int),
    {
        self.accesses.can_lock(range, kind)
    }

    /// Whether the bytes of `range` hold a lock of the given kind.
    pub fn can_unlock(&self, range: Range<DeviceSize>, kind: LockKind) -> (r: bool)
        ensures
            r == unlockable_range(self@.accesses, kind, range.start as int, range.end as int),
    {
        self.accesses.can_unlock(range, kind)
    }

    /// Whether the state of the image lets the device access the bytes of
    /// `range` in the expected layout, for writing where `exclusive` is set.
    fn check_gpu(&self, range: Range<DeviceSize>, expected_layout: ImageLayout, exclusive: bool) -> (result:
        Result<(), AccessError>)
        requires
            self.wf(),
        ensures
            result == check_image_spec(
                self@,
                range.start as int,
                range.end as int,
                expected_layout,
                exclusive,
            ),
    {
        let start = range.start;
        let end = range.end;
        let refuses = |layout: ImageLayout| -> (found: bool)
            ensures
                found == layout_refused(layout, expected_layout),
            {
                match expected_layout {
                    ImageLayout::Undefined => false,
                    _ => layout != expected_layout,
                }
            };
        match self.layouts.first_match(start, end, refuses) {
            None => {
                proof {
                    lemma_check_with_layouts(
                        self@,
                        start as int,
                        end as int,
                        expected_layout,
                        exclusive,
                        None,
                    );
                }
                if exclusive {
                    self.accesses.check_gpu_write(start..end)
                } else {
                    self.accesses.check_gpu_read(start..end)
                }
            },
            Some((at, allowed)) => {
                proof {
                    lemma_check_with_layouts(
                        self@,
                        start as int,
                        end as int,
                        expected_layout,
                        exclusive,
                        Some(at as int),
                    );
                }
                let before = if exclusive {
                    self.accesses.check_gpu_write(start..at + 1)
                } else {
                    self.accesses.check_gpu_read(start..at + 1)
                };
                match before {
                    Err(_) => Err(AccessError::AlreadyInUse),
                    Ok(_) => Err(
                        AccessError::UnexpectedImageLayout { allowed, requested: expected_layout },
                    ),
                }
            },
        }
    }

    /// Whether the state of the image lets the device read the bytes of
    /// `range` in the expected layout.
    pub fn check_gpu_read(&self, range: Range<DeviceSize>, expected_layout: ImageLayout) -> (result:
        Result<(), AccessError>)
        requires
            self.wf(),
        ensures
            result == check_image_spec(
                self@,
                range.start as int,
                range.end as int,
                expected_layout,
                false,
            ),
    {
        self.check_gpu(range, expected_layout, false)
    }

    /// Whether the state of the image lets the device write the bytes of
    /// `range`, which it expects in the given layout.
    pub fn check_gpu_write(&self, range: Range<DeviceSize>, expected_layout: ImageLayout) -> (result:
        Result<(), AccessError>)
        requires
            self.wf(),
        ensures
            result == check_image_spec(
                self@,
                range.start as int,
                range.end as int,
                expected_layout,
                true,
            ),
    {
        self.check_gpu(range, expected_layout, true)
    }

    /// Counts one more host read on each byte of `range`.
    pub fn cpu_read_lock(&mut self, range: Range<DeviceSize>)
        requires
            lockable_range(
                old(self)@.accesses,
                LockKind::CpuRead,
                range.start as int,
                range.end as int,
            ),
        ensures
            final(self)@.layouts == old(self)@.layouts,
            final(self)@.accesses == locked_range(
                old(self)@.accesses,
                LockKind::CpuRead,
                range.start as int,
                range.end as int,
            ),
    {
        self.accesses.cpu_read_lock(range)
    }

    /// Counts one host read less on each byte of `range`.
    pub fn cpu_read_unlock(&mut self, range: Range<DeviceSize>)
        requires
            unlockable_range(
                old(self)@.accesses,
                LockKind::CpuRead,
                range.start as int,
                range.end as int,
            ),
        ensures
            final(self)@.layouts == old(self)@.layouts,
            final(self)@.accesses == unlocked_range(
                old(self)@.accesses,
                LockKind::CpuRead,
                range.start as int,
                range.end as int,
            ),
    {
        self.accesses.cpu_read_unlock(range)
    }

    /// Gives the bytes of `range` to the host alone.
    pub fn cpu_write_lock(&mut self, range: Range<DeviceSize>)
        requires
            lockable_range(
                old(self)@.accesses,
                LockKind::CpuWrite,
                range.start as int,
                range.end as int,
            ),
        ensures
            final(self)@.layouts == old(self)@.layouts,
            final(self)@.accesses == locked_range(
                old(self)@.accesses,
                LockKind::CpuWrite,
                range.start as int,
                range.end as int,
            ),
    {
        self.accesses.cpu_write_lock(range)
    }

    /// Takes the bytes of `range` back from the host.
    pub fn cpu_write_unlock(&mut self, range: Range<DeviceSize>)
        requires
            unlockable_range(
                old(self)@.accesses,
                LockKind::CpuWrite,
                range.start as int,
                range.end as int,
            ),
        ensures
            final(self)@.layouts == old(self)@.layouts,
            final(self)@.accesses == unlocked_range(
                old(self)@.accesses,
                LockKind::CpuWrite,
                range.start as int,
                range.end as int,
            ),
    {
        self.accesses.cpu_write_unlock(range)
    }

    /// Counts one more device read on each byte of `range`.
    pub fn gpu_read_lock(&mut self, range: Range<DeviceSize>)
        requires
            lockable_range(
                old(self)@.accesses,
                LockKind::GpuRead,
                range.start as int,
                range.end as int,
            ),
        ensures
            final(self)@.layouts == old(self)@.layouts,
            final(self)@.accesses == locked_range(
                old(self)@.accesses,
                LockKind::GpuRead,
                range.start as int,
                range.end as int,
            ),
    {
        self.accesses.gpu_read_lock(range)
    }

    /// Counts one device read less on each byte of `range`.
    pub fn gpu_read_unlock(&mut self, range: Range<DeviceSize>)
        requires
            unlockable_range(
                old(self)@.accesses,
                LockKind::GpuRead,
                range.start as int,
                range.end as int,
            ),
        ensures
            final(self)@.layouts == old(self)@.layouts,
            final(self)@.accesses == unlocked_range(
                old(self)@.accesses,
                LockKind::GpuRead,
                range.start as int,
                range.end as int,
            ),
    {
        self.accesses.gpu_read_unlock(range)
    }

    /// Counts one more device write on each byte of `range`, and notes the
    /// layout in which the write leaves the bytes.
    pub fn gpu_write_lock(&mut self, range: Range<DeviceSize>, destination_layout: ImageLayout)
        requires
            old(self).wf(),
            lockable_range(
                old(self)@.accesses,
                LockKind::GpuWrite,
                range.start as int,
                range.end as int,
            ),
        ensures
            final(self).wf(),
            final(self)@.layouts == relaid(
                old(self)@.layouts,
                range.start as int,
                range.end as int,
                destination_layout,
            ),
            final(self)@.accesses == locked_range(
                old(self)@.accesses,
                LockKind::GpuWrite,
                range.start as int,
                range.end as int,
            ),
    {
        let start = range.start;
        let end = range.end;
        self.accesses.gpu_write_lock(range);
        let lay = |layout: ImageLayout| -> (out: ImageLayout)
            ensures
                out == destination_layout,
            { destination_layout };
        self.layouts.update_range(start, end, lay);
        assert(self@.layouts =~= relaid(
            old(self)@.layouts,
            start as int,
            end as int,
            destination_layout,
        ));
    }

    /// Counts one device write less on each byte of `range`. The bytes stay
    /// in the layout that the write has left them in.
    pub fn gpu_write_unlock(&mut self, range: Range<DeviceSize>)
        requires
            unlockable_range(
                old(self)@.accesses,
                LockKind::GpuWrite,
                range.start as int,
                range.end as int,
            ),
        ensures
            final(self)@.layouts == old(self)@.layouts,
            final(self)@.accesses == unlocked_range(
                old(self)@.accesses,
                LockKind::GpuWrite,
                range.start as int,
                range.end as int,
            ),
    {
        self.accesses.gpu_write_unlock(range)
    }
}

} // verus!
