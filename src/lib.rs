//! Memory-traffic statistics for a process-wide allocator.
//!
//! [`SystemWithStats`] holds the counters that an allocator decorator keeps:
//! counts and byte sums of allocations, deallocations and reallocations, the
//! live heap size and its high-water mark. Each recording operation is proved
//! against a mathematical model of the counters, [`Counters`].
mod counters;
mod laws;
mod report;
mod snapshot;

pub use counters::{average, nat_option, Counters, SystemWithStats};
pub use laws::{
    additivity, after_allocs, dealloc_symmetry, growth_shrink_classification, peak_monotonicity,
    realloc_replaces_block, reset_semantics, run, total, use_tracking, valid_run, Event,
};
pub use report::{average_line, binary_size, en_grouped, field_line};
pub use snapshot::SystemStats;
