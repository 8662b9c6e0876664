//! The termination protocol driven single-threaded against both the
//! reference queue and the real ring buffers under test.

use std::sync::atomic::{AtomicUsize, Ordering};

use lockless_datastructures::{AtomicRingBufferMpmc, AtomicRingBufferSpsc, MutexRingBuffer};
use ring_bench::protocol::{
    mpmc_consumer_attempt, mpmc_consumer_attempt_ref, mpmc_should_stop, MpmcStep, ProducerState,
    SpscConsumerState,
};
use ring_bench::ref_queue::RefQueue;

#[test]
fn producer_retries_same_value_on_full() {
    let mut queue = RefQueue::new(2);
    let mut producer = ProducerState::new(4);

    let (ok, v) = producer.attempt_ref(&mut queue);
    assert!(ok);
    assert_eq!(v, 0);
    let (ok, v) = producer.attempt_ref(&mut queue);
    assert!(ok);
    assert_eq!(v, 1);

    // Queue full: the attempt fails and the producer stays on value 2.
    let (ok, v) = producer.attempt_ref(&mut queue);
    assert!(!ok);
    assert_eq!(v, 2);
    assert!(!producer.is_done());

    // Drain one slot; the retried attempt offers the same value again.
    assert_eq!(queue.try_pop(), Some(0));
    let (ok, v) = producer.attempt_ref(&mut queue);
    assert!(ok);
    assert_eq!(v, 2);
}

#[test]
fn spsc_consumer_counts_to_budget() {
    let mut queue = RefQueue::new(4);
    let mut producer = ProducerState::new(3);
    let mut consumer = SpscConsumerState::new(3);

    while !producer.is_done() {
        let (ok, _) = producer.attempt_ref(&mut queue);
        assert!(ok);
    }
    let mut seen: Vec<i32> = Vec::new();
    while !consumer.is_done() {
        match consumer.attempt_ref(&mut queue) {
            Some(v) => seen.push(v),
            None => panic!("queue drained early"),
        }
    }
    assert_eq!(seen, vec![0, 1, 2]);
    assert!(consumer.is_done());
}

#[test]
fn mpmc_stop_decision_is_exact() {
    assert!(!mpmc_should_stop(0, 1));
    assert!(!mpmc_should_stop(9, 10));
    assert!(mpmc_should_stop(10, 10));
    assert!(mpmc_should_stop(11, 10));
    assert!(mpmc_should_stop(0, 0));
}

#[test]
fn mpmc_reference_consumer_exits_at_budget() {
    let mut queue = RefQueue::new(4);
    let mut consumed: usize = 0;

    // Empty queue, counter short of budget: a spin step, nothing changes.
    match mpmc_consumer_attempt_ref(&mut queue, &mut consumed, 2) {
        MpmcStep::Empty => {}
        _ => panic!("expected an empty observation"),
    }
    assert_eq!(consumed, 0);

    assert_eq!(queue.try_push(7), Ok(()));
    assert_eq!(queue.try_push(8), Ok(()));
    match mpmc_consumer_attempt_ref(&mut queue, &mut consumed, 2) {
        MpmcStep::Consumed(v) => assert_eq!(v, 7),
        _ => panic!("expected a pop"),
    }
    match mpmc_consumer_attempt_ref(&mut queue, &mut consumed, 2) {
        MpmcStep::Consumed(v) => assert_eq!(v, 8),
        _ => panic!("expected a pop"),
    }
    assert_eq!(consumed, 2);

    // Counter reached the budget: the consumer exits, even with data queued.
    assert_eq!(queue.try_push(9), Ok(()));
    match mpmc_consumer_attempt_ref(&mut queue, &mut consumed, 2) {
        MpmcStep::Exit => {}
        _ => panic!("expected an exit"),
    }
    assert_eq!(consumed, 2);
}

#[test]
fn producer_against_mutex_ring_buffer() {
    let queue: MutexRingBuffer<i32, 4> = MutexRingBuffer::new();
    let mut producer = ProducerState::new(6);

    for expected in 0..4 {
        let (ok, v) = producer.attempt(&queue);
        assert!(ok);
        assert_eq!(v, expected);
    }
    // Capacity 4 exhausted: the fifth value is refused and retried.
    let (ok, v) = producer.attempt(&queue);
    assert!(!ok);
    assert_eq!(v, 4);

    let mut consumer = SpscConsumerState::new(6);
    let first = consumer.attempt(&queue);
    assert_eq!(first, Some(0));

    // One slot free again: the retried push succeeds with the same value.
    let (ok, v) = producer.attempt(&queue);
    assert!(ok);
    assert_eq!(v, 4);

    let mut seen: Vec<i32> = Vec::new();
    while !consumer.is_done() {
        if producer.is_done() {
            match consumer.attempt(&queue) {
                Some(v) => seen.push(v),
                None => panic!("queue drained early"),
            }
        } else {
            let _ = producer.attempt(&queue);
            if let Some(v) = consumer.attempt(&queue) {
                seen.push(v);
            }
        }
    }
    assert_eq!(seen, vec![1, 2, 3, 4, 5]);
}

#[test]
fn producer_against_atomic_spsc_ring_buffer() {
    let queue = AtomicRingBufferSpsc::<i32, 4>::new();
    let mut producer = ProducerState::new(4);
    let mut consumer = SpscConsumerState::new(4);

    while !producer.is_done() {
        let (ok, _) = producer.attempt(&*queue);
        assert!(ok);
    }
    let mut seen: Vec<i32> = Vec::new();
    while !consumer.is_done() {
        match consumer.attempt(&*queue) {
            Some(v) => seen.push(v),
            None => panic!("queue drained early"),
        }
    }
    assert_eq!(seen, vec![0, 1, 2, 3]);
}

#[test]
fn mpmc_consumer_against_atomic_mpmc_ring_buffer() {
    let queue = AtomicRingBufferMpmc::<i32, 4>::new();
    let counter = AtomicUsize::new(0);
    let budget: usize = 3;

    let mut producer = ProducerState::new(budget);
    while !producer.is_done() {
        let (ok, _) = producer.attempt(&*queue);
        assert!(ok);
    }

    let mut seen: Vec<i32> = Vec::new();
    loop {
        let (step, observed) = mpmc_consumer_attempt(&*queue, &counter, budget);
        match step {
            MpmcStep::Exit => {
                assert!(observed >= budget);
                break;
            }
            MpmcStep::Consumed(v) => {
                assert!(observed < budget);
                seen.push(v);
            }
            MpmcStep::Empty => panic!("queue drained early"),
        }
    }
    assert_eq!(seen, vec![0, 1, 2]);
    assert_eq!(counter.load(Ordering::Relaxed), 3);
}
