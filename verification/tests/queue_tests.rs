//! The bounded-queue contract: the reference queue's exact behavior, and
//! the real ring buffers exercised through the shared-queue interface.

use lockless_datastructures::{AtomicRingBufferMpmc, AtomicRingBufferSpsc, MutexRingBuffer};
use ring_bench::queue::SharedQueue;
use ring_bench::ref_queue::RefQueue;
use ring_bench::workload::workload;

#[test]
fn reference_queue_is_bounded_fifo() {
    let mut q = RefQueue::new(4);
    assert_eq!(q.len(), 0);
    assert_eq!(q.try_pop(), None);

    assert_eq!(q.try_push(1), Ok(()));
    assert_eq!(q.try_push(2), Ok(()));
    assert_eq!(q.try_push(3), Ok(()));
    assert_eq!(q.try_push(4), Ok(()));
    assert_eq!(q.try_push(5), Err(5));

    assert_eq!(q.try_pop(), Some(1));
    assert_eq!(q.try_pop(), Some(2));

    assert_eq!(q.try_push(5), Ok(()));
    assert_eq!(q.try_push(6), Ok(()));
    assert_eq!(q.try_push(7), Err(7));

    assert_eq!(q.try_pop(), Some(3));
    assert_eq!(q.try_pop(), Some(4));
    assert_eq!(q.try_pop(), Some(5));
    assert_eq!(q.try_pop(), Some(6));
    assert_eq!(q.try_pop(), None);
}

#[test]
fn mutex_ring_buffer_through_shared_queue() {
    let q: MutexRingBuffer<i32, 4> = MutexRingBuffer::new();
    assert_eq!(q.try_pop(), None);
    assert_eq!(q.try_push(10), Ok(()));
    assert_eq!(q.try_push(20), Ok(()));
    assert_eq!(q.try_push(30), Ok(()));
    assert_eq!(q.try_push(40), Ok(()));
    assert_eq!(q.try_push(50), Err(50));
    assert_eq!(q.try_pop(), Some(10));
    assert_eq!(q.try_push(50), Ok(()));
    assert_eq!(q.try_pop(), Some(20));
    assert_eq!(q.try_pop(), Some(30));
    assert_eq!(q.try_pop(), Some(40));
    assert_eq!(q.try_pop(), Some(50));
    assert_eq!(q.try_pop(), None);
}

#[test]
fn atomic_spsc_ring_buffer_through_shared_queue() {
    let q = AtomicRingBufferSpsc::<i32, 2>::new();
    assert_eq!(q.try_pop(), None);
    assert_eq!(q.try_push(7), Ok(()));
    assert_eq!(q.try_push(8), Ok(()));
    assert_eq!(q.try_push(9), Err(9));
    assert_eq!(q.try_pop(), Some(7));
    assert_eq!(q.try_pop(), Some(8));
    assert_eq!(q.try_pop(), None);
}

#[test]
fn atomic_mpmc_ring_buffer_through_shared_queue() {
    let q = AtomicRingBufferMpmc::<i32, 2>::new();
    assert_eq!(q.try_pop(), None);
    assert_eq!(q.try_push(7), Ok(()));
    assert_eq!(q.try_push(8), Ok(()));
    assert_eq!(q.try_push(9), Err(9));
    assert_eq!(q.try_pop(), Some(7));
    assert_eq!(q.try_pop(), Some(8));
    assert_eq!(q.try_pop(), None);
}

#[test]
fn cloned_handle_shares_storage() {
    let q: MutexRingBuffer<i32, 4> = MutexRingBuffer::new();
    let handle = q.clone();
    assert_eq!(q.try_push(42), Ok(()));
    assert_eq!(handle.try_pop(), Some(42));
    assert_eq!(q.try_pop(), None);
}

#[test]
fn workload_is_the_increasing_sequence() {
    assert_eq!(workload(0), Vec::<i32>::new());
    assert_eq!(workload(5), vec![0, 1, 2, 3, 4]);
}
