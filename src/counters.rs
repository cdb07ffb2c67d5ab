use vstd::prelude::*;

verus! {

/// The integer value of every counter, unbounded.
pub ghost struct Counters {
    pub alloc_count: nat,
    pub alloc_sum: nat,
    pub dealloc_count: nat,
    pub dealloc_sum: nat,
    pub realloc_growth_count: nat,
    pub realloc_growth_sum: nat,
    pub realloc_shrink_count: nat,
    pub realloc_shrink_sum: nat,
    pub use_curr: nat,
    pub use_max: nat,
}

/// The average of `count` values whose total is `sum`, in whole bytes,
/// absent when nothing was counted.
pub open spec fn average(sum: nat, count: nat) -> Option<nat> {
    if count == 0 {
        None
    } else {
        Some(sum / count)
    }
}

impl Counters {
    /// Every counter at zero: the state at process start.
    pub open spec fn zero() -> Counters {
        Counters {
            alloc_count: 0,
            alloc_sum: 0,
            dealloc_count: 0,
            dealloc_sum: 0,
            realloc_growth_count: 0,
            realloc_growth_sum: 0,
            realloc_shrink_count: 0,
            realloc_shrink_sum: 0,
            use_curr: 0,
            use_max: 0,
        }
    }

    /// The peak covers the live heap.
    pub open spec fn wf(self) -> bool {
        self.use_max >= self.use_curr
    }

    /// A successful allocation of `size` bytes.
    pub open spec fn after_alloc(self, size: nat) -> Counters {
        let curr = self.use_curr + size;
        Counters {
            alloc_count: self.alloc_count + 1,
            alloc_sum: self.alloc_sum + size,
            use_curr: curr,
            use_max: if curr > self.use_max { curr } else { self.use_max },
            ..self
        }
    }

    /// A block of `size` bytes may be released: it is part of the live heap.
    pub open spec fn can_dealloc(self, size: nat) -> bool {
        size <= self.use_curr
    }

    /// The release of a block of `size` bytes.
    pub open spec fn after_dealloc(self, size: nat) -> Counters
        recommends
            self.can_dealloc(size),
    {
        Counters {
            dealloc_count: self.dealloc_count + 1,
            dealloc_sum: self.dealloc_sum + size,
            use_curr: (self.use_curr - size) as nat,
            ..self
        }
    }

    /// A successful reallocation of a block from `old_size` to `new_size`
    /// bytes, done as an allocation of the new block, a copy, and the release
    /// of the old one. A larger block is growth by the difference; anything
    /// else, an equal size included, is shrinkage by the difference.
    pub open spec fn after_realloc(self, old_size: nat, new_size: nat) -> Counters
        recommends
            self.can_realloc(old_size, new_size),
    {
        let allocated = self.after_alloc(new_size);
        let classified = if new_size > old_size {
            Counters {
                realloc_growth_count: allocated.realloc_growth_count + 1,
                realloc_growth_sum: allocated.realloc_growth_sum + (new_size - old_size) as nat,
                ..allocated
            }
        } else {
            Counters {
                realloc_shrink_count: allocated.realloc_shrink_count + 1,
                realloc_shrink_sum: allocated.realloc_shrink_sum + (old_size - new_size) as nat,
                ..allocated
            }
        };
        classified.after_dealloc(old_size)
    }

    /// The old block of a reallocation may be released once the new one is
    /// counted.
    pub open spec fn can_realloc(self, old_size: nat, new_size: nat) -> bool {
        self.after_alloc(new_size).can_dealloc(old_size)
    }

    /// The start of a new measurement window: every flow counter at zero,
    /// the live heap kept, and the peak brought down to it.
    pub open spec fn after_reset(self) -> Counters {
        Counters {
            alloc_count: 0,
            alloc_sum: 0,
            dealloc_count: 0,
            dealloc_sum: 0,
            realloc_growth_count: 0,
            realloc_growth_sum: 0,
            realloc_shrink_count: 0,
            realloc_shrink_sum: 0,
            use_curr: self.use_curr,
            use_max: self.use_curr,
        }
    }
}

/// An optional machine integer read as an optional natural number.
pub open spec fn nat_option(o: Option<usize>) -> Option<nat> {
    match o {
        Some(v) => Some(v as nat),
        None => None,
    }
}

/// The counters of an allocator decorator.
///
/// Each recording method is called once the wrapped allocator has served the
/// request; the accessors read the counters back.
#[derive(Debug, Clone, Copy)]
pub struct SystemWithStats {
    alloc_count: usize,
    alloc_sum: usize,
    dealloc_count: usize,
    dealloc_sum: usize,
    realloc_growth_count: usize,
    realloc_growth_sum: usize,
    realloc_shrink_count: usize,
    realloc_shrink_sum: usize,
    use_curr: usize,
    use_max: usize,
}

impl View for SystemWithStats {
    type V = Counters;

    closed spec fn view(&self) -> Counters {
        Counters {
            alloc_count: self.alloc_count as nat,
            alloc_sum: self.alloc_sum as nat,
            dealloc_count: self.dealloc_count as nat,
            dealloc_sum: self.dealloc_sum as nat,
            realloc_growth_count: self.realloc_growth_count as nat,
            realloc_growth_sum: self.realloc_growth_sum as nat,
            realloc_shrink_count: self.realloc_shrink_count as nat,
            realloc_shrink_sum: self.realloc_shrink_sum as nat,
            use_curr: self.use_curr as nat,
            use_max: self.use_max as nat,
        }
    }
}

impl Default for SystemWithStats {
    fn default() -> (r: SystemWithStats)
        ensures
            r@ == Counters::zero(),
    {
        SystemWithStats::new()
    }
}

impl SystemWithStats {
    #[verifier::type_invariant]
    spec fn peak_covers_live(&self) -> bool {
        self.use_max >= self.use_curr
    }

    /// Counters at zero, as at process start.
    pub fn new() -> (r: SystemWithStats)
        ensures
            r@ == Counters::zero(),
    {
        SystemWithStats {
            alloc_count: 0,
            alloc_sum: 0,
            dealloc_count: 0,
            dealloc_sum: 0,
            realloc_growth_count: 0,
            realloc_growth_sum: 0,
            realloc_shrink_count: 0,
            realloc_shrink_sum: 0,
            use_curr: 0,
            use_max: 0,
        }
    }

    /// Whether an allocation of `size` bytes can be recorded without a
    /// counter passing `usize::MAX`.
    pub open spec fn spec_fits_alloc(&self, size: nat) -> bool {
        &&& self@.alloc_count + 1 <= usize::MAX
        &&& self@.alloc_sum + size <= usize::MAX
        &&& self@.use_curr + size <= usize::MAX
    }

    /// Records a successful allocation of `size` bytes.
    pub fn record_alloc(&mut self, size: usize)
        requires
            old(self).spec_fits_alloc(size as nat),
        ensures
            final(self)@ == old(self)@.after_alloc(size as nat),
    {
        proof { use_type_invariant(&*self); }
        self.alloc_count = self.alloc_count + 1;
        self.alloc_sum = self.alloc_sum + size;
        let curr = self.use_curr + size;
        if curr > self.use_max {
            self.use_max = curr;
        }
        self.use_curr = curr;
    }

    /// Whether the release of a block of `size` bytes can be recorded: the
    /// block is part of the live heap and no counter passes `usize::MAX`.
    pub open spec fn spec_fits_dealloc(&self, size: nat) -> bool {
        &&& self@.can_dealloc(size)
        &&& self@.dealloc_count + 1 <= usize::MAX
        &&& self@.dealloc_sum + size <= usize::MAX
    }

    /// Whether a reallocation from `old_size` to `new_size` bytes can be
    /// recorded: the old block is part of the live heap and no counter
    /// passes `usize::MAX`.
    pub open spec fn spec_fits_realloc(&self, old_size: nat, new_size: nat) -> bool {
        let allocated = self@.after_alloc(new_size);
        &&& self.spec_fits_alloc(new_size)
        &&& allocated.can_dealloc(old_size)
        &&& allocated.dealloc_count + 1 <= usize::MAX
        &&& allocated.dealloc_sum + old_size <= usize::MAX
        &&& new_size > old_size ==> {
            &&& self@.realloc_growth_count + 1 <= usize::MAX
            &&& self@.realloc_growth_sum + (new_size - old_size) <= usize::MAX
        }
        &&& new_size <= old_size ==> {
            &&& self@.realloc_shrink_count + 1 <= usize::MAX
            &&& self@.realloc_shrink_sum + (old_size - new_size) <= usize::MAX
        }
    }

    /// Tests the condition under which `record_alloc` may be called.
    pub fn fits_alloc(&self, size: usize) -> (r: bool)
        ensures
            r == self.spec_fits_alloc(size as nat),
    {
        self.alloc_count < usize::MAX && size <= usize::MAX - self.alloc_sum && size
            <= usize::MAX - self.use_curr
    }

    /// Tests the condition under which `record_dealloc` may be called.
    pub fn fits_dealloc(&self, size: usize) -> (r: bool)
        ensures
            r == self.spec_fits_dealloc(size as nat),
    {
        size <= self.use_curr && self.dealloc_count < usize::MAX && size <= usize::MAX
            - self.dealloc_sum
    }

    /// Tests the condition under which `record_realloc` may be called.
    pub fn fits_realloc(&self, old_size: usize, new_size: usize) -> (r: bool)
        ensures
            r == self.spec_fits_realloc(old_size as nat, new_size as nat),
    {
        if !self.fits_alloc(new_size) {
            return false;
        }
        let classified = if new_size > old_size {
            self.realloc_growth_count < usize::MAX && new_size - old_size <= usize::MAX
                - self.realloc_growth_sum
        } else {
            self.realloc_shrink_count < usize::MAX && old_size - new_size <= usize::MAX
                - self.realloc_shrink_sum
        };
        classified && old_size <= self.use_curr + new_size && self.dealloc_count < usize::MAX
            && old_size <= usize::MAX - self.dealloc_sum
    }

    /// Records the release of a block of `size` bytes.
    pub fn record_dealloc(&mut self, size: usize)
        requires
            old(self).spec_fits_dealloc(size as nat),
        ensures
            final(self)@ == old(self)@.after_dealloc(size as nat),
    {
        proof { use_type_invariant(&*self); }
        self.dealloc_count = self.dealloc_count + 1;
        self.dealloc_sum = self.dealloc_sum + size;
        self.use_curr = self.use_curr - size;
    }

    /// Records a successful reallocation of a block from `old_size` to
    /// `new_size` bytes: the allocation of the new block, the direction and
    /// size of the change, and the release of the old block.
    pub fn record_realloc(&mut self, old_size: usize, new_size: usize)
        requires
            old(self).spec_fits_realloc(old_size as nat, new_size as nat),
        ensures
            final(self)@ == old(self)@.after_realloc(old_size as nat, new_size as nat),
    {
        self.record_alloc(new_size);
        if new_size > old_size {
            self.realloc_growth_count = self.realloc_growth_count + 1;
            self.realloc_growth_sum = self.realloc_growth_sum + (new_size - old_size);
        } else {
            self.realloc_shrink_count = self.realloc_shrink_count + 1;
            self.realloc_shrink_sum = self.realloc_shrink_sum + (old_size - new_size);
        }
        self.record_dealloc(old_size);
    }

    /// Zeroes every flow counter and sets the peak to the current heap use,
    /// which is kept.
    pub fn reset(&mut self)
        ensures
            final(self)@ == old(self)@.after_reset(),
    {
        proof { use_type_invariant(&*self); }
        self.alloc_sum = 0;
        self.alloc_count = 0;
        self.dealloc_sum = 0;
        self.dealloc_count = 0;
        self.realloc_growth_count = 0;
        self.realloc_growth_sum = 0;
        self.realloc_shrink_count = 0;
        self.realloc_shrink_sum = 0;
        self.use_max = self.use_curr;
    }

    /// Returns the total number of allocations.
    pub fn alloc_count(&self) -> (r: usize)
        ensures
            r == self@.alloc_count,
    {
        self.alloc_count
    }

    /// Returns the sum of all allocations.
    pub fn alloc_sum(&self) -> (r: usize)
        ensures
            r == self@.alloc_sum,
    {
        self.alloc_sum
    }

    /// Returns the total number of deallocations.
    pub fn dealloc_count(&self) -> (r: usize)
        ensures
            r == self@.dealloc_count,
    {
        self.dealloc_count
    }

    /// Returns the sum of all deallocations.
    pub fn dealloc_sum(&self) -> (r: usize)
        ensures
            r == self@.dealloc_sum,
    {
        self.dealloc_sum
    }

    /// Returns the total number of reallocations caused by object growth.
    pub fn realloc_growth_count(&self) -> (r: usize)
        ensures
            r == self@.realloc_growth_count,
    {
        self.realloc_growth_count
    }

    /// Returns the sum of all reallocations caused by object growth.
    pub fn realloc_growth_sum(&self) -> (r: usize)
        ensures
            r == self@.realloc_growth_sum,
    {
        self.realloc_growth_sum
    }

    /// Returns the total number of reallocations caused by object shrinkage.
    pub fn realloc_shrink_count(&self) -> (r: usize)
        ensures
            r == self@.realloc_shrink_count,
    {
        self.realloc_shrink_count
    }

    /// Returns the sum of all reallocations caused by object shrinkage.
    pub fn realloc_shrink_sum(&self) -> (r: usize)
        ensures
            r == self@.realloc_shrink_sum,
    {
        self.realloc_shrink_sum
    }

    /// Returns the average size of allocations.
    pub fn alloc_avg(&self) -> (r: Option<usize>)
        ensures
            nat_option(r) == average(self@.alloc_sum, self@.alloc_count),
    {
        self.alloc_sum.checked_div(self.alloc_count)
    }

    /// Returns the average size of deallocations.
    pub fn dealloc_avg(&self) -> (r: Option<usize>)
        ensures
            nat_option(r) == average(self@.dealloc_sum, self@.dealloc_count),
    {
        self.dealloc_sum.checked_div(self.dealloc_count)
    }

    /// Returns the average size of reallocations caused by object growth.
    pub fn realloc_growth_avg(&self) -> (r: Option<usize>)
        ensures
            nat_option(r) == average(self@.realloc_growth_sum, self@.realloc_growth_count),
    {
        self.realloc_growth_sum.checked_div(self.realloc_growth_count)
    }

    /// Returns the average size of reallocations caused by object shrinkage.
    pub fn realloc_shrink_avg(&self) -> (r: Option<usize>)
        ensures
            nat_option(r) == average(self@.realloc_shrink_sum, self@.realloc_shrink_count),
    {
        self.realloc_shrink_sum.checked_div(self.realloc_shrink_count)
    }

    /// Returns current heap use.
    pub fn use_curr(&self) -> (r: usize)
        ensures
            r == self@.use_curr,
    {
        self.use_curr
    }

    /// Returns maximum recorded heap use, which is never below the current
    /// heap use.
    pub fn use_max(&self) -> (r: usize)
        ensures
            r == self@.use_max,
            self@.wf(),
    {
        proof { use_type_invariant(self); }
        self.use_max
    }
}

} // verus!
