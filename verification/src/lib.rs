//! A microbenchmark harness for bounded concurrent queues.
//!
//! The harness measures the throughput of fixed-capacity ring buffers under
//! single-producer/single-consumer and multi-producer/multi-consumer
//! workloads. The queues under test are external collaborators reached only
//! through their public push/pop contract; the harness's own logic — the
//! workload generator, the operation-budget partitioning, and the
//! per-attempt termination protocol of each producer and consumer thread —
//! is verified here. A transparent in-process reference queue and a
//! deterministic single-threaded scheduler over it let the run structure
//! itself be proved: every generated value is pushed exactly once and
//! drained exactly once.

use vstd::prelude::*;

pub mod protocol;
pub mod queue;
pub mod ref_queue;
pub mod scenario;
pub mod sim;
pub mod workload;

verus! {

/// Capacity of every queue instance in the benchmark configuration.
pub const CAPACITY: usize = 1024;

/// Total number of push/pop pairs per scenario run.
pub const OPERATIONS: usize = 1_000_000;

} // verus!
