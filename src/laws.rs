use vstd::prelude::*;

use crate::counters::{average, Counters};

verus! {

/// One request that the decorator records.
pub ghost enum Event {
    Alloc(nat),
    Dealloc(nat),
    Realloc(nat, nat),
}

impl Counters {
    /// The counters after recording `e`.
    pub open spec fn apply(self, e: Event) -> Counters {
        match e {
            Event::Alloc(size) => self.after_alloc(size),
            Event::Dealloc(size) => self.after_dealloc(size),
            Event::Realloc(old_size, new_size) => self.after_realloc(old_size, new_size),
        }
    }

    /// `e` only releases bytes that are live.
    pub open spec fn can_apply(self, e: Event) -> bool {
        match e {
            Event::Alloc(_) => true,
            Event::Dealloc(size) => self.can_dealloc(size),
            Event::Realloc(old_size, new_size) => self.can_realloc(old_size, new_size),
        }
    }
}

/// The counters after recording `events` in order, starting from `c`.
pub open spec fn run(c: Counters, events: Seq<Event>) -> Counters
    decreases events.len(),
{
    if events.len() == 0 {
        c
    } else {
        run(c, events.drop_last()).apply(events.last())
    }
}

/// Every event of `events`, recorded in order from `c`, only releases live
/// bytes.
pub open spec fn valid_run(c: Counters, events: Seq<Event>) -> bool
    decreases events.len(),
{
    if events.len() == 0 {
        true
    } else {
        valid_run(c, events.drop_last()) && run(c, events.drop_last()).can_apply(events.last())
    }
}

/// The counters after the allocations `sizes`, in order, starting from `c`.
pub open spec fn after_allocs(c: Counters, sizes: Seq<nat>) -> Counters
    decreases sizes.len(),
{
    if sizes.len() == 0 {
        c
    } else {
        after_allocs(c, sizes.drop_last()).after_alloc(sizes.last())
    }
}

/// The sum of `sizes`.
pub open spec fn total(sizes: Seq<nat>) -> nat
    decreases sizes.len(),
{
    if sizes.len() == 0 {
        0
    } else {
        total(sizes.drop_last()) + sizes.last()
    }
}

/// Allocations add up: after allocations of sizes s1..sn, the allocation
/// count has grown by n and the allocation sum by s1 + ... + sn, and no
/// deallocation is counted. Counted from zero, the average allocation is the
/// sum divided by n.
pub proof fn additivity(c: Counters, sizes: Seq<nat>)
    ensures
        after_allocs(c, sizes).alloc_count == c.alloc_count + sizes.len(),
        after_allocs(c, sizes).alloc_sum == c.alloc_sum + total(sizes),
        after_allocs(c, sizes).dealloc_count == c.dealloc_count,
        after_allocs(c, sizes).dealloc_sum == c.dealloc_sum,
        c.alloc_count == 0 && c.alloc_sum == 0 && sizes.len() > 0 ==> average(
            after_allocs(c, sizes).alloc_sum,
            after_allocs(c, sizes).alloc_count,
        ) == Some(total(sizes) / sizes.len()),
    decreases sizes.len(),
{
    if sizes.len() > 0 {
        additivity(c, sizes.drop_last());
    }
}

/// From a state whose peak equals the live heap, as after a reset, an
/// allocation of `size` bytes raises both by `size`.
pub proof fn use_tracking(c: Counters, size: nat)
    requires
        c.use_max == c.use_curr,
    ensures
        c.after_alloc(size).use_curr == c.use_curr + size,
        c.after_alloc(size).use_max == c.use_curr + size,
{
}

/// One event that releases only live bytes keeps the peak at or above the
/// live heap, and does not lower the peak.
proof fn lemma_step_keeps_peak(c: Counters, e: Event)
    requires
        c.wf(),
        c.can_apply(e),
    ensures
        c.apply(e).wf(),
        c.apply(e).use_max >= c.use_max,
{
}

/// A prefix of a valid run is valid.
proof fn lemma_valid_prefix(c: Counters, events: Seq<Event>, i: int)
    requires
        valid_run(c, events),
        0 <= i <= events.len(),
    ensures
        valid_run(c, events.take(i)),
    decreases events.len(),
{
    if i == events.len() {
        assert(events.take(i) =~= events);
    } else {
        assert(events.drop_last().take(i) =~= events.take(i));
        lemma_valid_prefix(c, events.drop_last(), i);
    }
}

/// A valid run from a state whose peak covers the live heap ends in such a
/// state.
proof fn lemma_run_keeps_peak(c: Counters, events: Seq<Event>)
    requires
        c.wf(),
        valid_run(c, events),
    ensures
        run(c, events).wf(),
    decreases events.len(),
{
    if events.len() > 0 {
        lemma_run_keeps_peak(c, events.drop_last());
        lemma_step_keeps_peak(run(c, events.drop_last()), events.last());
    }
}

/// Through any sequence of allocations, deallocations and reallocations that
/// release only live bytes, the peak never decreases, and at every point it
/// is at least the live heap.
pub proof fn peak_monotonicity(c: Counters, events: Seq<Event>)
    requires
        c.wf(),
        valid_run(c, events),
    ensures
        forall|i: int|
            0 <= i <= events.len() ==> (#[trigger] run(c, events.take(i))).use_max >= run(
                c,
                events.take(i),
            ).use_curr,
        forall|i: int|
            0 <= i < events.len() ==> (#[trigger] run(c, events.take(i))).use_max <= run(
                c,
                events.take(i + 1),
            ).use_max,
{
    assert forall|i: int| 0 <= i <= events.len() implies (#[trigger] run(
        c,
        events.take(i),
    )).wf() by {
        lemma_valid_prefix(c, events, i);
        lemma_run_keeps_peak(c, events.take(i));
    }
    assert forall|i: int| 0 <= i < events.len() implies (#[trigger] run(
        c,
        events.take(i),
    )).use_max <= run(c, events.take(i + 1)).use_max by {
        let next = events.take(i + 1);
        assert(next.drop_last() =~= events.take(i));
        lemma_valid_prefix(c, events, i + 1);
        lemma_run_keeps_peak(c, events.take(i));
        lemma_step_keeps_peak(run(c, events.take(i)), events[i]);
    }
}

/// Allocating a block of `size` bytes and then releasing it brings the live
/// heap back to where it was, and leaves the peak where the allocation took
/// it.
pub proof fn dealloc_symmetry(c: Counters, size: nat)
    ensures
        c.after_alloc(size).after_dealloc(size).use_curr == c.use_curr,
        c.after_alloc(size).after_dealloc(size).use_max == c.after_alloc(size).use_max,
        c.after_alloc(size).use_max >= c.use_curr + size,
{
}

/// A reallocation from `a` to `b` bytes counts as growth by `b - a` when
/// `b > a`, and as shrinkage by `a - b` otherwise, equal sizes included; the
/// other direction's counters are left alone.
pub proof fn growth_shrink_classification(c: Counters, a: nat, b: nat)
    requires
        c.can_realloc(a, b),
    ensures
        b > a ==> {
            &&& c.after_realloc(a, b).realloc_growth_count == c.realloc_growth_count + 1
            &&& c.after_realloc(a, b).realloc_growth_sum == c.realloc_growth_sum + (b - a)
            &&& c.after_realloc(a, b).realloc_shrink_count == c.realloc_shrink_count
            &&& c.after_realloc(a, b).realloc_shrink_sum == c.realloc_shrink_sum
        },
        b <= a ==> {
            &&& c.after_realloc(a, b).realloc_shrink_count == c.realloc_shrink_count + 1
            &&& c.after_realloc(a, b).realloc_shrink_sum == c.realloc_shrink_sum + (a - b)
            &&& c.after_realloc(a, b).realloc_growth_count == c.realloc_growth_count
            &&& c.after_realloc(a, b).realloc_growth_sum == c.realloc_growth_sum
        },
{
}

/// A reallocation from `a` to `b` bytes leaves the live heap as if a block of
/// `a` bytes had been replaced by one of `b` bytes.
pub proof fn realloc_replaces_block(c: Counters, a: nat, b: nat)
    requires
        c.can_realloc(a, b),
    ensures
        c.after_realloc(a, b).use_curr + a == c.use_curr + b,
{
}

/// After a reset every flow count and sum is zero, every average is absent,
/// the live heap is unchanged, and the peak equals it.
pub proof fn reset_semantics(c: Counters)
    ensures
        c.after_reset().alloc_count == 0,
        c.after_reset().alloc_sum == 0,
        c.after_reset().dealloc_count == 0,
        c.after_reset().dealloc_sum == 0,
        c.after_reset().realloc_growth_count == 0,
        c.after_reset().realloc_growth_sum == 0,
        c.after_reset().realloc_shrink_count == 0,
        c.after_reset().realloc_shrink_sum == 0,
        average(c.after_reset().alloc_sum, c.after_reset().alloc_count) is None,
        average(c.after_reset().dealloc_sum, c.after_reset().dealloc_count) is None,
        average(c.after_reset().realloc_growth_sum, c.after_reset().realloc_growth_count) is None,
        average(c.after_reset().realloc_shrink_sum, c.after_reset().realloc_shrink_count) is None,
        c.after_reset().use_curr == c.use_curr,
        c.after_reset().use_max == c.use_curr,
{
}

} // verus!
