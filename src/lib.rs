//! Scheduling and thread-control core of a capability-based microkernel:
//! the thread control block, its capability-derived addressing, and a
//! fixed-priority scheduler with one FIFO run queue per priority level.
use vstd::prelude::*;

pub mod cap;
pub mod hal;
pub mod page_table;
pub mod schedule;
pub mod task;
pub mod task_state;

verus! {

/// Number of priority levels. Level 0 has the highest precedence; the value
/// itself is the idle thread's priority and is never placed in a run queue.
pub const MAX_THREAD_PIRO: usize = 64;

/// Time-slice quantum, in ticks, that a thread is granted on creation.
pub const TIME_SLICE: usize = 5;

/// Size in bytes of a page; kernel objects start at a multiple of it.
pub const PAGE_SIZE: usize = 4096;

} // verus!
