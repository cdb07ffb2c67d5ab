use vstd::prelude::*;

use crate::counters::{average, nat_option, Counters, SystemWithStats};

verus! {

/// A summary of the allocator's stats.
#[derive(Debug, Default, Clone, Copy)]
pub struct SystemStats {
    /// The total number of allocations.
    pub alloc_count: usize,
    /// The average size of allocations.
    pub alloc_avg: Option<usize>,
    /// The total number of deallocations.
    pub dealloc_count: usize,
    /// The average size of deallocations.
    pub dealloc_avg: Option<usize>,
    /// The total number of reallocations caused by object growth.
    pub realloc_growth_count: usize,
    /// The average size of reallocations caused by object growth.
    pub realloc_growth_avg: Option<usize>,
    /// The total number of reallocations caused by object shrinkage.
    pub realloc_shrink_count: usize,
    /// The average size of reallocations caused by object shrinkage.
    pub realloc_shrink_avg: Option<usize>,
    /// Current heap use.
    pub use_curr: usize,
    /// Maximum recorded heap use.
    pub use_max: usize,
}

impl SystemStats {
    /// The summary gives the counts, averages and heap use of `c`.
    pub open spec fn summarizes(&self, c: Counters) -> bool {
        &&& self.alloc_count == c.alloc_count
        &&& nat_option(self.alloc_avg) == average(c.alloc_sum, c.alloc_count)
        &&& self.dealloc_count == c.dealloc_count
        &&& nat_option(self.dealloc_avg) == average(c.dealloc_sum, c.dealloc_count)
        &&& self.realloc_growth_count == c.realloc_growth_count
        &&& nat_option(self.realloc_growth_avg) == average(
            c.realloc_growth_sum,
            c.realloc_growth_count,
        )
        &&& self.realloc_shrink_count == c.realloc_shrink_count
        &&& nat_option(self.realloc_shrink_avg) == average(
            c.realloc_shrink_sum,
            c.realloc_shrink_count,
        )
        &&& self.use_curr == c.use_curr
        &&& self.use_max == c.use_max
    }
}

impl SystemWithStats {
    /// Returns a summary of the allocator's stats.
    pub fn stats(&self) -> (r: SystemStats)
        ensures
            r.summarizes(self@),
    {
        let alloc_count = self.alloc_count();
        let alloc_sum = self.alloc_sum();
        let alloc_avg = alloc_sum.checked_div(alloc_count);

        let dealloc_count = self.dealloc_count();
        let dealloc_sum = self.dealloc_sum();
        let dealloc_avg = dealloc_sum.checked_div(dealloc_count);

        let realloc_growth_count = self.realloc_growth_count();
        let realloc_growth_sum = self.realloc_growth_sum();
        let realloc_growth_avg = realloc_growth_sum.checked_div(realloc_growth_count);

        let realloc_shrink_count = self.realloc_shrink_count();
        let realloc_shrink_sum = self.realloc_shrink_sum();
        let realloc_shrink_avg = realloc_shrink_sum.checked_div(realloc_shrink_count);

        let use_curr = self.use_curr();
        let use_max = self.use_max();

        SystemStats {
            alloc_count,
            alloc_avg,
            dealloc_count,
            dealloc_avg,
            realloc_growth_count,
            realloc_growth_avg,
            realloc_shrink_count,
            realloc_shrink_avg,
            use_curr,
            use_max,
        }
    }
}

} // verus!
