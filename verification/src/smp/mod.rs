//! Multi-core coordination: locks, barriers, work counters and core roles.

pub mod scheduler;
pub mod sync;
