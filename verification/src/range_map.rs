//! A map from every offset of a span `0..size` to a value, stored as a list of
//! consecutive ranges.
//!
//! The ranges partition the span: they are never empty, never overlap and leave
//! no gap. Splitting a range at an offset changes how the map is stored and
//! never what it holds, so the contracts speak of the value at each offset.

use vstd::prelude::*;

verus! {

/// One stored range `start..end` and the value of every offset inside it.
#[derive(Clone, Copy, Debug)]
pub struct RangeEntry<V> {
    pub start: u64,
    pub end: u64,
    pub value: V,
}

/// The ranges are non-empty, start at zero and each begins where the one
/// before it ends.
pub open spec fn entries_wf<V>(es: Seq<RangeEntry<V>>) -> bool {
    &&& forall|i: int| 0 <= i < es.len() ==> (#[trigger] es[i]).start < es[i].end
    &&& es.len() > 0 ==> es[0].start == 0
    &&& forall|i: int| 0 <= i < es.len() - 1 ==> (#[trigger] es[i]).end == es[i + 1].start
}

/// The length of the span that the ranges cover.
pub open spec fn entries_size<V>(es: Seq<RangeEntry<V>>) -> int {
    if es.len() == 0 {
        0
    } else {
        es.last().end as int
    }
}

/// The index of the range that holds the offset `p`.
pub open spec fn entries_index<V>(es: Seq<RangeEntry<V>>, p: int) -> int {
    choose|i: int| 0 <= i < es.len() && (#[trigger] es[i]).start <= p < es[i].end
}

/// The value at each offset of the span.
pub open spec fn entries_view<V>(es: Seq<RangeEntry<V>>) -> Seq<V> {
    Seq::new(entries_size(es) as nat, |p: int| es[entries_index(es, p)].value)
}

/// Whether a range begins at `key`, or `key` lies at or beyond either end of
/// the span.
pub open spec fn entries_boundary<V>(es: Seq<RangeEntry<V>>, key: int) -> bool {
    key <= 0 || key >= entries_size(es) || exists|i: int|
        0 <= i < es.len() && (#[trigger] es[i]).start == key
}

/// Whether two lists hold the same ranges, whatever their values.
pub open spec fn same_ranges<V>(a: Seq<RangeEntry<V>>, b: Seq<RangeEntry<V>>) -> bool {
    &&& a.len() == b.len()
    &&& forall|i: int|
        0 <= i < a.len() ==> (#[trigger] a[i]).start == b[i].start && a[i].end == b[i].end
}

/// Entries that are well formed stand in ascending order: each starts where
/// an earlier one ends or after.
pub proof fn lemma_entries_sorted<V>(es: Seq<RangeEntry<V>>, i: int, j: int)
    requires
        entries_wf(es),
        0 <= i <= j < es.len(),
    ensures
        es[i].start <= es[j].start,
        es[i].end <= es[j].end,
        i < j ==> es[i].end <= es[j].start,
    decreases j - i,
{
    if i < j {
        lemma_entries_sorted(es, i, j - 1);
        assert(es[j - 1].end == es[j - 1 + 1].start);
    }
}

/// Each entry of a well-formed list lies within the size of the list.
pub proof fn lemma_entries_within<V>(es: Seq<RangeEntry<V>>, i: int)
    requires
        entries_wf(es),
        0 <= i < es.len(),
    ensures
        0 <= es[i].start < es[i].end <= entries_size(es),
{
    lemma_entries_sorted(es, i, es.len() - 1);
    lemma_entries_sorted(es, 0, i);
}

/// The range that holds an offset is the only one that does.
pub proof fn lemma_entries_index<V>(es: Seq<RangeEntry<V>>, i: int, p: int)
    requires
        entries_wf(es),
        0 <= i < es.len(),
        es[i].start <= p < es[i].end,
    ensures
        entries_index(es, p) == i,
        0 <= p < entries_size(es),
        entries_view(es)[p] == es[i].value,
{
    lemma_entries_within(es, i);
    let k = entries_index(es, p);
    if k < i {
        lemma_entries_sorted(es, k, i);
    } else if i < k {
        lemma_entries_sorted(es, i, k);
    }
}

/// Every offset of the span lies in one of the ranges.
pub proof fn lemma_entries_cover<V>(es: Seq<RangeEntry<V>>, p: int) -> (i: int)
    requires
        entries_wf(es),
        0 <= p < entries_size(es),
    ensures
        0 <= i < es.len(),
        es[i].start <= p < es[i].end,
        entries_index(es, p) == i,
{
    let i = lemma_entries_cover_from(es, p, es.len() - 1);
    lemma_entries_index(es, i, p);
    i
}

proof fn lemma_entries_cover_from<V>(es: Seq<RangeEntry<V>>, p: int, j: int) -> (i: int)
    requires
        entries_wf(es),
        0 <= j < es.len(),
        0 <= p < es[j].end,
    ensures
        0 <= i <= j,
        es[i].start <= p < es[i].end,
    decreases j,
{
    if es[j].start <= p {
        j
    } else {
        assert(j > 0);
        assert(es[j - 1].end == es[j - 1 + 1].start);
        lemma_entries_cover_from(es, p, j - 1)
    }
}

/// Lists of the same ranges hold each offset at the same index.
pub proof fn lemma_same_ranges<V>(a: Seq<RangeEntry<V>>, b: Seq<RangeEntry<V>>)
    requires
        entries_wf(a),
        same_ranges(a, b),
    ensures
        entries_wf(b),
        entries_size(a) == entries_size(b),
        forall|p: int|
            0 <= p < entries_size(a) ==> #[trigger] entries_index(a, p) == entries_index(b, p),
        forall|key: int| entries_boundary(a, key) == entries_boundary(b, key),
{
    assert(entries_wf(b)) by {
        assert forall|i: int| 0 <= i < b.len() implies (#[trigger] b[i]).start < b[i].end by {
            assert(a[i].start < a[i].end);
        }
        assert forall|i: int| 0 <= i < b.len() - 1 implies (#[trigger] b[i]).end == b[i
            + 1].start by {
            assert(a[i].end == a[i + 1].start);
        }
    }
    assert forall|p: int| 0 <= p < entries_size(a) implies #[trigger] entries_index(a, p)
        == entries_index(b, p) by {
        let i = lemma_entries_cover(a, p);
        lemma_entries_index(b, i, p);
    }
    assert forall|key: int| entries_boundary(a, key) == entries_boundary(b, key) by {
        if entries_boundary(a, key) && 0 < key < entries_size(a) {
            let i = choose|i: int| 0 <= i < a.len() && (#[trigger] a[i]).start == key;
            assert(b[i].start == key);
        }
        if entries_boundary(b, key) && 0 < key < entries_size(b) {
            let i = choose|i: int| 0 <= i < b.len() && (#[trigger] b[i]).start == key;
            assert(a[i].start == key);
        }
    }
}

/// The index of the first range that ends after `key`, or the number of ranges
/// if there is none.
fn entries_find<V>(es: &Vec<RangeEntry<V>>, key: u64) -> (i: usize)
    requires
        entries_wf(es@),
    ensures
        i <= es.len(),
        forall|j: int| 0 <= j < i ==> (#[trigger] es[j]).end <= key,
        i < es.len() ==> key < es[i as int].end,
        i == es.len() <==> key >= entries_size(es@),
{
    let mut lo: usize = 0;
    let mut hi: usize = es.len();
    while lo < hi
        invariant
            entries_wf(es@),
            lo <= hi <= es.len(),
            forall|j: int| 0 <= j < lo ==> (#[trigger] es[j]).end <= key,
            hi < es.len() ==> key < es[hi as int].end,
        decreases hi - lo,
    {
        let mid = lo + (hi - lo) / 2;
        if es[mid].end <= key {
            proof {
                assert forall|j: int| 0 <= j < mid + 1 implies (#[trigger] es[j]).end <= key by {
                    lemma_entries_sorted(es@, j, mid as int);
                }
            }
            lo = mid + 1;
        } else {
            hi = mid;
        }
    }
    proof {
        if lo == es.len() && es.len() > 0 {
            assert(es[es.len() - 1].end <= key);
        }
        if lo < es.len() {
            lemma_entries_within(es@, lo as int);
        }
    }
    lo
}

/// Whether `after` is `before` with the range at index `i` cut in two at `key`.
pub open spec fn entries_cut<V>(
    before: Seq<RangeEntry<V>>,
    after: Seq<RangeEntry<V>>,
    i: int,
    key: u64,
) -> bool {
    &&& 0 <= i < before.len()
    &&& before[i].start < key < before[i].end
    &&& after.len() == before.len() + 1
    &&& forall|j: int| 0 <= j < i ==> #[trigger] after[j] == before[j]
    &&& after[i] == (RangeEntry { start: before[i].start, end: key, value: before[i].value })
    &&& after[i + 1] == (RangeEntry { start: key, end: before[i].end, value: before[i].value })
    &&& forall|j: int| i + 1 < j < after.len() ==> #[trigger] after[j] == before[j - 1]
}

proof fn lemma_cut_wf<V>(before: Seq<RangeEntry<V>>, after: Seq<RangeEntry<V>>, i: int, key: u64)
    requires
        entries_wf(before),
        entries_cut(before, after, i, key),
    ensures
        entries_wf(after),
        entries_size(after) == entries_size(before),
{
    assert forall|j: int| 0 <= j < after.len() implies (#[trigger] after[j]).start
        < after[j].end by {
        if j < i {
            assert(after[j] == before[j]);
        } else if j > i + 1 {
            assert(after[j] == before[j - 1]);
        }
    }
    assert forall|j: int| 0 <= j < after.len() - 1 implies (#[trigger] after[j]).end == after[j
        + 1].start by {
        if j < i {
            assert(after[j] == before[j]);
            assert(before[j].end == before[j + 1].start);
            if j + 1 < i {
                assert(after[j + 1] == before[j + 1]);
            }
        } else if j == i + 1 {
            assert(after[j + 1] == before[j]);
            assert(before[i].end == before[i + 1].start);
        } else if j > i + 1 {
            assert(after[j] == before[j - 1]);
            assert(after[j + 1] == before[j]);
            assert(before[j - 1].end == before[j - 1 + 1].start);
        }
    }
    if i > 0 {
        assert(after[0] == before[0]);
    }
    if i == before.len() - 1 {
        assert(after.last() == after[i + 1]);
    } else {
        assert(after.last() == before[after.len() - 1 - 1]);
    }
}

proof fn lemma_cut_view<V>(before: Seq<RangeEntry<V>>, after: Seq<RangeEntry<V>>, i: int, key: u64)
    requires
        entries_wf(before),
        entries_cut(before, after, i, key),
    ensures
        entries_view(after) == entries_view(before),
{
    lemma_cut_wf(before, after, i, key);
    assert forall|p: int| 0 <= p < entries_size(before) implies entries_view(after)[p]
        == entries_view(before)[p] by {
        let j = lemma_entries_cover(before, p);
        if j < i {
            assert(after[j] == before[j]);
            lemma_entries_index(after, j, p);
        } else if j > i {
            assert(after[j + 1] == before[j]);
            lemma_entries_index(after, j + 1, p);
        } else if p < key {
            lemma_entries_index(after, i, p);
        } else {
            lemma_entries_index(after, i + 1, p);
        }
    }
    assert(entries_view(after) =~= entries_view(before));
}

proof fn lemma_cut_boundary<V>(
    before: Seq<RangeEntry<V>>,
    after: Seq<RangeEntry<V>>,
    i: int,
    key: u64,
)
    requires
        entries_wf(before),
        entries_cut(before, after, i, key),
    ensures
        entries_boundary(after, key as int),
        forall|k: int| entries_boundary(before, k) ==> entries_boundary(after, k),
{
    lemma_cut_wf(before, after, i, key);
    assert(after[i + 1].start == key);
    assert forall|k: int| entries_boundary(before, k) implies entries_boundary(after, k) by {
        if 0 < k < entries_size(before) {
            let j = choose|j: int| 0 <= j < before.len() && (#[trigger] before[j]).start == k;
            if j < i {
                assert(after[j] == before[j]);
            } else if j == i {
                assert(after[i].start == k);
            } else {
                assert(after[j + 1] == before[j]);
                assert(after[j + 1].start == k);
            }
        }
    }
}

/// Whether `after` is what a split of `before` at `key` leaves: `before`
/// itself where a range begins at `key` already or `key` lies at or beyond
/// either end of the span, else `before` with the range that holds `key`
/// cut in two at `key`.
pub open spec fn split_of<V>(before: Seq<RangeEntry<V>>, after: Seq<RangeEntry<V>>, key: u64) -> bool {
    if entries_boundary(before, key as int) {
        after == before
    } else {
        exists|i: int| entries_cut(before, after, i, key)
    }
}

/// Cuts the range that holds `key` in two at `key`, unless a range begins
/// there already or `key` lies outside the span.
fn entries_split<V: Copy>(es: &mut Vec<RangeEntry<V>>, key: u64)
    requires
        entries_wf(old(es)@),
    ensures
        entries_wf(final(es)@),
        entries_view(final(es)@) == entries_view(old(es)@),
        entries_size(final(es)@) == entries_size(old(es)@),
        entries_boundary(final(es)@, key as int),
        forall|k: int| entries_boundary(old(es)@, k) ==> entries_boundary(final(es)@, k),
        split_of(old(es)@, final(es)@, key),
{
    let i = entries_find(es, key);
    if i < es.len() && es[i].start < key {
        let ghost before = es@;
        let whole = es[i];
        proof {
            lemma_entries_within(before, i as int);
            assert forall|j: int| 0 <= j < before.len() implies (#[trigger] before[j]).start
                != key by {
                if j <= i {
                    lemma_entries_sorted(before, j, i as int);
                } else {
                    lemma_entries_sorted(before, i as int, j);
                }
            }
            assert(!entries_boundary(before, key as int));
        }
        es.set(i, RangeEntry { start: whole.start, end: key, value: whole.value });
        es.insert(i + 1, RangeEntry { start: key, end: whole.end, value: whole.value });
        proof {
            assert(entries_cut(before, es@, i as int, key));
            lemma_cut_wf(before, es@, i as int, key);
            lemma_cut_view(before, es@, i as int, key);
            lemma_cut_boundary(before, es@, i as int, key);
        }
    } else {
        proof {
            if i < es.len() {
                lemma_entries_within(es@, i as int);
                if 0 < key {
                    assert(es[i as int].start == key) by {
                        if i > 0 {
                            assert(es[i - 1].end == es[i - 1 + 1].start);
                        }
                    }
                }
            }
        }
    }
}

/// A value for every offset of `0..size`.
#[derive(Debug)]
pub struct RangeMap<V> {
    entries: Vec<RangeEntry<V>>,
}

impl<V> View for RangeMap<V> {
    type V = Seq<V>;

    /// The value at each offset, in order.
    closed spec fn view(&self) -> Seq<V> {
        entries_view(self.entries@)
    }
}

impl<V> RangeMap<V> {
    #[verifier::type_invariant]
    spec fn well_formed(&self) -> bool {
        entries_wf(self.entries@)
    }
}

impl<V: Copy> RangeMap<V> {
    /// The stored ranges: a partition of the span into consecutive ranges.
    pub closed spec fn ranges(&self) -> Seq<RangeEntry<V>> {
        self.entries@
    }

    /// A map that holds `value` at each offset of `0..size`.
    pub fn new(size: u64, value: V) -> (map: Self)
        ensures
            map@ == Seq::new(size as nat, |p: int| value),
    {
        let mut entries: Vec<RangeEntry<V>> = Vec::new();
        if size > 0 {
            entries.push(RangeEntry { start: 0, end: size, value });
        }
        proof {
            assert forall|p: int| 0 <= p < size implies entries_view(entries@)[p] == value by {
                lemma_entries_index(entries@, 0, p);
            }
            assert(entries_view(entries@) =~= Seq::new(size as nat, |p: int| value));
        }
        RangeMap { entries }
    }

    /// The length of the span.
    pub fn size(&self) -> (size: u64)
        ensures
            size == self@.len(),
    {
        let n = self.entries.len();
        if n == 0 {
            0
        } else {
            self.entries[n - 1].end
        }
    }

    /// The value at `offset`, if the span holds it.
    pub fn get(&self, offset: u64) -> (value: Option<V>)
        ensures
            value == if offset < self@.len() {
                Some(self@[offset as int])
            } else {
                None
            },
    {
        proof {
            use_type_invariant(self);
        }
        let i = entries_find(&self.entries, offset);
        if i < self.entries.len() {
            proof {
                lemma_entries_cover(self.entries@, offset as int);
                if self.entries[i as int].start > offset {
                    assert(i > 0);
                    assert(self.entries[i - 1].end == self.entries[i - 1 + 1].start);
                }
                lemma_entries_index(self.entries@, i as int, offset as int);
            }
            Some(self.entries[i].value)
        } else {
            None
        }
    }

    /// Makes `key` the start of a stored range: where `key` lies inside a
    /// stored range, that range is cut in two at `key`, and the other ranges
    /// stay; where a range begins at `key` already, or `key` lies at or
    /// beyond either end of the span, the ranges stay as they are. What the
    /// map holds at each offset stays as it is.
    pub fn split_at(&mut self, key: u64)
        ensures
            final(self)@ == old(self)@,
            entries_wf(old(self).ranges()),
            entries_wf(final(self).ranges()),
            final(self)@ == entries_view(final(self).ranges()),
            split_of(old(self).ranges(), final(self).ranges(), key),
            entries_boundary(final(self).ranges(), key as int),
            forall|k: int|
                entries_boundary(old(self).ranges(), k) ==> entries_boundary(
                    final(self).ranges(),
                    k,
                ),
    {
        proof {
            use_type_invariant(&*self);
        }
        let mut entries: Vec<RangeEntry<V>> = Vec::new();
        core::mem::swap(&mut self.entries, &mut entries);
        entries_split(&mut entries, key);
        self.entries = entries;
    }

    /// The first offset in `start..end` whose value `found` accepts, with that
    /// value; `None` where it accepts none of them.
    pub fn first_match<F: Fn(V) -> bool>(&self, start: u64, end: u64, found: F) -> (hit: Option<
        (u64, V),
    >)
        requires
            forall|v: V| call_requires(found, (v,)),
        ensures
            match hit {
                None => forall|p: int|
                    start <= p < end && p < self@.len() ==> call_ensures(
                        found,
                        (#[trigger] self@[p],),
                        false,
                    ),
                Some((at, value)) => {
                    &&& start <= at < end
                    &&& at < self@.len()
                    &&& value == self@[at as int]
                    &&& call_ensures(found, (value,), true)
                    &&& forall|p: int|
                        start <= p < at ==> call_ensures(found, (#[trigger] self@[p],), false)
                },
            },
    {
        proof {
            use_type_invariant(self);
        }
        if start >= end {
            return None;
        }
        let n = self.entries.len();
        let mut i = entries_find(&self.entries, start);
        while i < n && self.entries[i].start < end
            invariant
                entries_wf(self.entries@),
                n == self.entries.len(),
                i <= n,
                forall|j: int| 0 <= j < i && j < n ==> (#[trigger] self.entries[j]).end <= start || call_ensures(found, (self.entries[j].value,), false),
                start < end,
                i < n ==> start < self.entries[i as int].end,
                forall|v: V| call_requires(found, (v,)),
            decreases n - i,
        {
            let entry = self.entries[i];
            if found(entry.value) {
                let at = if entry.start < start {
                    start
                } else {
                    entry.start
                };
                proof {
                    lemma_entries_index(self.entries@, i as int, at as int);
                    assert forall|p: int| start <= p < at implies call_ensures(
                        found,
                        (#[trigger] self@[p],),
                        false,
                    ) by {
                        lemma_entries_within(self.entries@, i as int);
                        let j = lemma_entries_cover(self.entries@, p);
                        if j >= i {
                            lemma_entries_sorted(self.entries@, i as int, j);
                        }
                        assert(self.entries[j].end > start);
                    }
                }
                return Some((at, entry.value));
            }
            proof {
                if i + 1 < n {
                    lemma_entries_sorted(self.entries@, i as int, i + 1);
                }
            }
            i += 1;
        }
        proof {
            assert forall|p: int| start <= p < end && p < self@.len() implies call_ensures(
                found,
                (#[trigger] self@[p],),
                false,
            ) by {
                let j = lemma_entries_cover(self.entries@, p);
                if j >= i {
                    lemma_entries_sorted(self.entries@, i as int, j);
                }
                assert(self.entries[j].end > start);
            }
        }
        None
    }

    /// Replaces the value at each offset of `start..end` by what `change`
    /// makes of it. Offsets outside `start..end` keep their values.
    pub fn update_range<F: Fn(V) -> V>(&mut self, start: u64, end: u64, change: F)
        requires
            forall|p: int|
                start <= p < end && p < old(self)@.len() ==> call_requires(
                    change,
                    (#[trigger] old(self)@[p],),
                ),
        ensures
            final(self)@.len() == old(self)@.len(),
            forall|p: int|
                start <= p < end && p < old(self)@.len() ==> call_ensures(
                    change,
                    (old(self)@[p],),
                    #[trigger] final(self)@[p],
                ),
            forall|p: int|
                0 <= p < old(self)@.len() && !(start <= p < end) ==> #[trigger] final(self)@[p]
                    == old(self)@[p],
    {
        proof {
            use_type_invariant(&*self);
        }
        if start >= end {
            return ;
        }
        let mut entries: Vec<RangeEntry<V>> = Vec::new();
        core::mem::swap(&mut self.entries, &mut entries);
        assert(entries_view(entries@) == old(self)@);
        entries_split(&mut entries, start);
        entries_split(&mut entries, end);
        assert(entries_view(entries@) == old(self)@);
        entries_update(&mut entries, start, end, change);
        self.entries = entries;
    }
}

/// Applies `change` to the value of each range inside `start..end`, where both
/// ends are starts of ranges.
fn entries_update<V: Copy, F: Fn(V) -> V>(
    es: &mut Vec<RangeEntry<V>>,
    start: u64,
    end: u64,
    change: F,
)
    requires
        entries_wf(old(es)@),
        start < end,
        entries_boundary(old(es)@, start as int),
        entries_boundary(old(es)@, end as int),
        forall|p: int|
            start <= p < end && p < entries_size(old(es)@) ==> call_requires(
                change,
                (#[trigger] entries_view(old(es)@)[p],),
            ),
    ensures
        entries_wf(final(es)@),
        entries_view(final(es)@).len() == entries_view(old(es)@).len(),
        forall|p: int|
            start <= p < end && p < entries_size(old(es)@) ==> call_ensures(
                change,
                (entries_view(old(es)@)[p],),
                #[trigger] entries_view(final(es)@)[p],
            ),
        forall|p: int|
            0 <= p < entries_size(old(es)@) && !(start <= p < end) ==> #[trigger] entries_view(
                final(es)@,
            )[p] == entries_view(old(es)@)[p],
{
    let ghost before = es@;
    let n = es.len();
    let first = entries_find(es, start);
    let mut i = first;
    proof {
        if first < n && before[first as int].start < start {
            lemma_entries_within(before, first as int);
            let j = choose|j: int| 0 <= j < before.len() && (#[trigger] before[j]).start == start;
            if j < first {
                lemma_entries_sorted(before, j, first as int);
            } else {
                lemma_entries_sorted(before, first as int, j);
            }
        }
    }
    while i < n && es[i].start < end
        invariant
            entries_wf(before),
            same_ranges(before, es@),
            n == es.len(),
            first <= i <= n,
            start < end,
            first < n ==> start <= before[first as int].start,
            forall|j: int| 0 <= j < first ==> (#[trigger] before[j]).end <= start,
            entries_boundary(before, end as int),
            forall|j: int| 0 <= j < n && !(first <= j < i) ==> (#[trigger] es[j]).value == before[j].value,
            forall|j: int|
                first <= j < i ==> call_ensures(change, (before[j].value,), (#[trigger] es[j]).value),
            forall|j: int| first <= j < i ==> (#[trigger] before[j]).end <= end,
            forall|p: int|
                start <= p < end && p < entries_size(before) ==> call_requires(
                    change,
                    (#[trigger] entries_view(before)[p],),
                ),
        decreases n - i,
    {
        let entry = es[i];
        proof {
            lemma_entries_sorted(before, first as int, i as int);
            lemma_entries_within(before, i as int);
            lemma_entries_index(before, i as int, entry.start as int);
            assert(call_requires(change, (entries_view(before)[entry.start as int],)));
            if end < entries_size(before) {
                let j = choose|j: int| 0 <= j < before.len() && (#[trigger] before[j]).start == end;
                if j <= i {
                    lemma_entries_sorted(before, j, i as int);
                } else {
                    lemma_entries_sorted(before, i as int, j);
                }
            }
        }
        let value = change(entry.value);
        es.set(i, RangeEntry { start: entry.start, end: entry.end, value });
        i += 1;
    }
    proof {
        let after = es@;
        lemma_same_ranges(before, after);
        assert forall|p: int| 0 <= p < entries_size(before) implies (if start <= p < end {
            call_ensures(change, (entries_view(before)[p],), #[trigger] entries_view(after)[p])
        } else {
            entries_view(after)[p] == entries_view(before)[p]
        }) by {
            let j = lemma_entries_cover(before, p);
            assert(entries_index(after, p) == j);
            if first <= j < i {
                assert(before[j].end <= end);
                lemma_entries_sorted(before, first as int, j);
            } else if j < first {
                assert(before[j].end <= start);
            } else {
                lemma_entries_sorted(before, i as int, j);
            }
        }
    }
}

} // verus!
