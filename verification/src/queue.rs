//! The bounded-queue contract the harness requires from a queue under
//! test, and its realization by the external ring buffers being measured.
//!
//! A queue under test is shared across threads, so nothing can be promised
//! about the outcome of a single `try_push` or `try_pop`: another thread
//! may fill or drain the queue between any two calls. The contract
//! therefore only fixes the shape of each operation — immediate success or
//! immediate failure, never blocking — and the harness's verified logic is
//! proved for every outcome.

use vstd::prelude::*;

verus! {

/// The capability interface of a queue under test: non-blocking bounded
/// push and pop on a handle shared across threads. No outcome is promised;
/// callers must be correct whatever comes back.
pub trait SharedQueue {
    /// Attempts to enqueue `value`; on failure the value comes back in the
    /// error, and the caller may retry.
    fn try_push(&self, value: i32) -> Result<(), i32>;

    /// Attempts to dequeue a value; returns nothing when the queue is
    /// observed empty.
    fn try_pop(&self) -> Option<i32>;
}

#[verifier::external_type_specification]
#[verifier::external_body]
#[verifier::reject_recursive_types(T)]
pub struct ExMutexRingBuffer<T, const N: usize>(
    lockless_datastructures::MutexRingBuffer<T, N>,
);

#[verifier::external_type_specification]
#[verifier::external_body]
#[verifier::reject_recursive_types(T)]
pub struct ExAtomicRingBufferSpsc<T, const N: usize>(
    lockless_datastructures::AtomicRingBufferSpsc<T, N>,
);

#[verifier::external_type_specification]
#[verifier::external_body]
#[verifier::reject_recursive_types(T)]
pub struct ExAtomicRingBufferMpmc<T, const N: usize>(
    lockless_datastructures::AtomicRingBufferMpmc<T, N>,
);

/// Relies on `MutexRingBuffer::push`: locks the buffer, returns
/// `Err(value)` at once when the buffer is full, `Ok(())` otherwise; never
/// blocks beyond the lock.
#[verifier::external_body]
fn mutex_push<const N: usize>(
    q: &lockless_datastructures::MutexRingBuffer<i32, N>,
    value: i32,
) -> Result<(), i32> {
    q.push(value)
}

/// Relies on `MutexRingBuffer::pop`: locks the buffer, returns `None` at
/// once when the buffer is empty, the oldest element otherwise.
#[verifier::external_body]
fn mutex_pop<const N: usize>(
    q: &lockless_datastructures::MutexRingBuffer<i32, N>,
) -> Option<i32> {
    q.pop()
}

/// Relies on `AtomicRingBufferSpsc::push`: lock-free; returns `Err(value)`
/// at once when the buffer is observed full, `Ok(())` otherwise.
#[verifier::external_body]
fn atomic_spsc_push<const N: usize>(
    q: &lockless_datastructures::AtomicRingBufferSpsc<i32, N>,
    value: i32,
) -> Result<(), i32> {
    q.push(value)
}

/// Relies on `AtomicRingBufferSpsc::pop`: lock-free; returns `None` at
/// once when the buffer is observed empty, the oldest element otherwise.
#[verifier::external_body]
fn atomic_spsc_pop<const N: usize>(
    q: &lockless_datastructures::AtomicRingBufferSpsc<i32, N>,
) -> Option<i32> {
    q.pop()
}

/// Relies on `AtomicRingBufferMpmc::push`: retries internally on
/// contention with bounded backoff, returns `Err(value)` when the buffer
/// is full, `Ok(())` on success.
#[verifier::external_body]
fn atomic_mpmc_push<const N: usize>(
    q: &lockless_datastructures::AtomicRingBufferMpmc<i32, N>,
    value: i32,
) -> Result<(), i32> {
    q.push(value)
}

/// Relies on `AtomicRingBufferMpmc::pop`: retries internally on
/// contention with bounded backoff, returns `None` when the buffer is
/// empty, an element otherwise.
#[verifier::external_body]
fn atomic_mpmc_pop<const N: usize>(
    q: &lockless_datastructures::AtomicRingBufferMpmc<i32, N>,
) -> Option<i32> {
    q.pop()
}

impl<const N: usize> SharedQueue for lockless_datastructures::MutexRingBuffer<i32, N> {
    fn try_push(&self, value: i32) -> Result<(), i32> {
        mutex_push(self, value)
    }

    fn try_pop(&self) -> Option<i32> {
        mutex_pop(self)
    }
}

impl<const N: usize> SharedQueue for lockless_datastructures::AtomicRingBufferSpsc<i32, N> {
    fn try_push(&self, value: i32) -> Result<(), i32> {
        atomic_spsc_push(self, value)
    }

    fn try_pop(&self) -> Option<i32> {
        atomic_spsc_pop(self)
    }
}

impl<const N: usize> SharedQueue for lockless_datastructures::AtomicRingBufferMpmc<i32, N> {
    fn try_push(&self, value: i32) -> Result<(), i32> {
        atomic_mpmc_push(self, value)
    }

    fn try_pop(&self) -> Option<i32> {
        atomic_mpmc_pop(self)
    }
}

} // verus!
