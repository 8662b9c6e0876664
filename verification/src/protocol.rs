//! The per-thread termination protocol: what a producer or consumer thread
//! does on each attempt, and when it decides its portion of work is done.
//!
//! Each attempt is one non-blocking step — one queue operation at most,
//! with a processor-yield hint instead of any blocking wait on transient
//! failure. The unbounded retry loop around the attempts runs in the
//! benchmark driver, since its termination rests on the liveness of the
//! other threads; each step itself is verified for every outcome the
//! shared queue and the shared counter can produce.

use vstd::prelude::*;

use crate::queue::SharedQueue;
use crate::ref_queue::RefQueue;
use crate::workload::payload;
use crate::workload::workload_value;

verus! {

/// Relies on `core::hint::black_box`: an identity function that the
/// compiler treats as maximally opaque, so queue operations on the payload
/// cannot be optimized away as dead work.
pub assume_specification<T>[ core::hint::black_box::<T> ](dummy: T) -> (r: T)
    ensures
        r == dummy,
;

/// Relies on `core::hint::spin_loop`: emits a low-cost spin hint to the
/// processor and returns; it never blocks.
pub assume_specification[ core::hint::spin_loop ]()
;

/// A producer thread's state: how far through its assigned workload it
/// has advanced. `next` is both the index of the next value to push and
/// the number of values pushed successfully so far.
pub struct ProducerState {
    pub next: usize,
    pub quota: usize,
}

impl ProducerState {
    /// Progress never exceeds the assigned quota, and every workload index
    /// fits the payload type.
    pub open spec fn wf(&self) -> bool {
        self.next <= self.quota && self.quota <= i32::MAX as usize
    }

    /// A producer is done exactly when its whole quota has been pushed.
    pub open spec fn done_spec(&self) -> bool {
        self.next == self.quota
    }

    /// A fresh producer assigned `quota` operations.
    pub fn new(quota: usize) -> (st: ProducerState)
        requires
            quota <= i32::MAX as usize,
        ensures
            st.wf(),
            st.next == 0,
            st.quota == quota,
    {
        ProducerState { next: 0, quota }
    }

    /// Whether this producer's portion of work is complete.
    pub fn is_done(&self) -> (done: bool)
        ensures
            done == self.done_spec(),
    {
        self.next == self.quota
    }

    /// One push attempt: offers the next workload value to the queue. On
    /// success the producer advances to the next value; on `Full` it emits
    /// a spin hint and stays on the same value, so each value is pushed
    /// exactly once, in generator order. Returns whether the push
    /// succeeded and the value that was offered.
    pub fn attempt<Q: SharedQueue>(&mut self, queue: &Q) -> (r: (bool, i32))
        requires
            old(self).wf(),
            !old(self).done_spec(),
        ensures
            final(self).wf(),
            final(self).quota == old(self).quota,
            r.1 == payload(old(self).next as int),
            r.0 ==> final(self).next == old(self).next + 1,
            !r.0 ==> final(self).next == old(self).next,
    {
        let value = core::hint::black_box(workload_value(self.next));
        match queue.try_push(value) {
            Ok(()) => {
                self.next = self.next + 1;
                (true, value)
            },
            Err(_) => {
                core::hint::spin_loop();
                (false, value)
            },
        }
    }

    /// The same push attempt against the transparent reference queue,
    /// where the outcome is fully determined: the push succeeds exactly
    /// when a capacity slot is free, and then appends exactly the next
    /// workload value.
    pub fn attempt_ref(&mut self, queue: &mut RefQueue) -> (r: (bool, i32))
        requires
            old(self).wf(),
            !old(self).done_spec(),
            old(queue).wf(),
        ensures
            final(self).wf(),
            final(self).quota == old(self).quota,
            final(queue).wf(),
            final(queue).cap() == old(queue).cap(),
            r.1 == payload(old(self).next as int),
            r.0 == (old(queue)@.len() < old(queue).cap()),
            r.0 ==> final(self).next == old(self).next + 1
                && final(queue)@ == old(queue)@.push(r.1),
            !r.0 ==> final(self).next == old(self).next && final(queue)@ == old(queue)@,
    {
        let value = core::hint::black_box(workload_value(self.next));
        match queue.try_push(value) {
            Ok(()) => {
                self.next = self.next + 1;
                (true, value)
            },
            Err(_) => {
                core::hint::spin_loop();
                (false, value)
            },
        }
    }
}

/// The single consumer of an SPSC scenario: a local count of successful
/// pops, checked against the full operation budget. No state is shared
/// with any other thread.
pub struct SpscConsumerState {
    pub count: usize,
    pub budget: usize,
}

impl SpscConsumerState {
    /// The local count never exceeds the budget it is checked against.
    pub open spec fn wf(&self) -> bool {
        self.count <= self.budget
    }

    /// The consumer is done exactly when its count reaches the budget.
    pub open spec fn done_spec(&self) -> bool {
        self.count == self.budget
    }

    /// A fresh consumer that will drain `budget` values.
    pub fn new(budget: usize) -> (st: SpscConsumerState)
        ensures
            st.wf(),
            st.count == 0,
            st.budget == budget,
    {
        SpscConsumerState { count: 0, budget }
    }

    /// Whether this consumer's portion of work is complete.
    pub fn is_done(&self) -> (done: bool)
        ensures
            done == self.done_spec(),
    {
        self.count == self.budget
    }

    /// One pop attempt: on success the local count advances by exactly
    /// one and the observed value is returned; on empty the consumer emits
    /// a spin hint and its state is unchanged.
    pub fn attempt<Q: SharedQueue>(&mut self, queue: &Q) -> (got: Option<i32>)
        requires
            old(self).wf(),
            !old(self).done_spec(),
        ensures
            final(self).wf(),
            final(self).budget == old(self).budget,
            got is Some ==> final(self).count == old(self).count + 1,
            got is None ==> final(self).count == old(self).count,
    {
        match queue.try_pop() {
            Some(v) => {
                let v = core::hint::black_box(v);
                self.count = self.count + 1;
                Some(v)
            },
            None => {
                core::hint::spin_loop();
                None
            },
        }
    }

    /// The same pop attempt against the transparent reference queue, where
    /// the outcome is fully determined: the pop succeeds exactly when the
    /// queue is nonempty, yields its oldest element, and advances the
    /// local count by one.
    pub fn attempt_ref(&mut self, queue: &mut RefQueue) -> (got: Option<i32>)
        requires
            old(self).wf(),
            !old(self).done_spec(),
            old(queue).wf(),
        ensures
            final(self).wf(),
            final(self).budget == old(self).budget,
            final(queue).wf(),
            final(queue).cap() == old(queue).cap(),
            got is Some <==> old(queue)@.len() > 0,
            got is Some ==> got == Some(old(queue)@.first())
                && final(queue)@ == old(queue)@.drop_first()
                && final(self).count == old(self).count + 1,
            got is None ==> final(self).count == old(self).count
                && final(queue)@ == old(queue)@,
    {
        match queue.try_pop() {
            Some(v) => {
                let v = core::hint::black_box(v);
                self.count = self.count + 1;
                Some(v)
            },
            None => {
                core::hint::spin_loop();
                None
            },
        }
    }
}

/// The decision an MPMC consumer takes before every pop attempt: exit
/// exactly when the shared consumed counter has reached the operation
/// budget.
pub fn mpmc_should_stop(consumed: usize, budget: usize) -> (stop: bool)
    ensures
        stop == (consumed >= budget),
{
    consumed >= budget
}

/// What one MPMC consumer attempt did.
pub enum MpmcStep {
    /// The shared counter had reached the budget; the thread exits.
    Exit,
    /// A value was popped and the shared counter incremented.
    Consumed(i32),
    /// The queue was observed empty; a spin hint was emitted.
    Empty,
}

/// One attempt of an MPMC consumer sharing the relaxed consumed counter:
/// first re-reads the counter and exits when it has reached the budget;
/// otherwise attempts a pop, incrementing the counter on success or
/// spinning on empty. Returns the step taken and the counter value that
/// was read: the thread exits exactly when that observation had reached
/// the budget, so every increment it makes corresponds to one real
/// successful pop.
pub fn mpmc_consumer_attempt<Q: SharedQueue>(
    queue: &Q,
    counter: &core::sync::atomic::AtomicUsize,
    budget: usize,
) -> (r: (MpmcStep, usize))
    ensures
        (r.0 is Exit) == (r.1 >= budget),
        (r.0 is Consumed || r.0 is Empty) ==> r.1 < budget,
{
    let seen = counter.load(core::sync::atomic::Ordering::Relaxed);
    if mpmc_should_stop(seen, budget) {
        (MpmcStep::Exit, seen)
    } else {
        match queue.try_pop() {
            Some(v) => {
                let v = core::hint::black_box(v);
                counter.fetch_add(1, core::sync::atomic::Ordering::Relaxed);
                (MpmcStep::Consumed(v), seen)
            },
            None => {
                core::hint::spin_loop();
                (MpmcStep::Empty, seen)
            },
        }
    }
}

/// The same MPMC consumer attempt against the transparent reference queue
/// and a plain consumed counter, where every outcome is fully determined:
/// the consumer exits exactly when the counter has reached the budget,
/// consumes exactly when it has not and the queue is nonempty, and then
/// increments the counter by exactly one.
pub fn mpmc_consumer_attempt_ref(
    queue: &mut RefQueue,
    consumed: &mut usize,
    budget: usize,
) -> (step: MpmcStep)
    requires
        old(queue).wf(),
    ensures
        final(queue).wf(),
        final(queue).cap() == old(queue).cap(),
        step is Exit <==> *old(consumed) >= budget,
        step is Consumed <==> (*old(consumed) < budget && old(queue)@.len() > 0),
        step is Empty <==> (*old(consumed) < budget && old(queue)@.len() == 0),
        step is Consumed ==> step == MpmcStep::Consumed(old(queue)@.first())
            && *final(consumed) == *old(consumed) + 1
            && final(queue)@ == old(queue)@.drop_first(),
        !(step is Consumed) ==> *final(consumed) == *old(consumed)
            && final(queue)@ == old(queue)@,
{
    if mpmc_should_stop(*consumed, budget) {
        MpmcStep::Exit
    } else {
        match queue.try_pop() {
            Some(v) => {
                let v = core::hint::black_box(v);
                *consumed = *consumed + 1;
                MpmcStep::Consumed(v)
            },
            None => {
                core::hint::spin_loop();
                MpmcStep::Empty
            },
        }
    }
}

} // verus!
