//! A transparent in-process bounded FIFO queue.
//!
//! This is the trivial reference implementation of the bounded-queue
//! contract the harness depends on: a fixed-capacity FIFO whose `push`
//! fails immediately when full and whose `pop` returns nothing immediately
//! when empty, never blocking. The deterministic scenario simulations are
//! run and proved against it.

use vstd::prelude::*;

verus! {

/// A bounded FIFO queue of payloads with a fixed capacity chosen at
/// construction. The front of the view is the oldest element, the one the
/// next `try_pop` yields.
pub struct RefQueue {
    items: Vec<i32>,
    capacity: usize,
}

impl View for RefQueue {
    type V = Seq<i32>;

    closed spec fn view(&self) -> Seq<i32> {
        self.items@
    }
}

impl RefQueue {
    /// The capacity the queue was constructed with.
    pub closed spec fn cap(&self) -> int {
        self.capacity as int
    }

    /// Well-formedness: the queue never holds more than its capacity, and
    /// the capacity is at least one.
    pub open spec fn wf(&self) -> bool {
        1 <= self.cap() && self@.len() <= self.cap()
    }

    /// Constructs an empty queue of the given capacity.
    pub fn new(capacity: usize) -> (q: RefQueue)
        requires
            capacity >= 1,
        ensures
            q.wf(),
            q.cap() == capacity,
            q@ == Seq::<i32>::empty(),
    {
        RefQueue { items: Vec::new(), capacity }
    }

    /// The number of elements currently queued.
    pub fn len(&self) -> (n: usize)
        ensures
            n == self@.len(),
    {
        self.items.len()
    }

    /// Appends `value` at the back, or hands it back unchanged when no
    /// capacity slot is free at the instant of the call.
    pub fn try_push(&mut self, value: i32) -> (r: Result<(), i32>)
        requires
            old(self).wf(),
        ensures
            final(self).wf(),
            final(self).cap() == old(self).cap(),
            r is Ok <==> old(self)@.len() < old(self).cap(),
            r is Ok ==> final(self)@ == old(self)@.push(value),
            r is Err ==> final(self)@ == old(self)@ && r == Result::<(), i32>::Err(value),
    {
        if self.items.len() < self.capacity {
            self.items.push(value);
            Ok(())
        } else {
            Err(value)
        }
    }

    /// Removes and returns the oldest element, or returns nothing when the
    /// queue is observed empty.
    pub fn try_pop(&mut self) -> (r: Option<i32>)
        requires
            old(self).wf(),
        ensures
            final(self).wf(),
            final(self).cap() == old(self).cap(),
            r is Some <==> old(self)@.len() > 0,
            r is Some ==> r == Some(old(self)@.first()) && final(self)@ == old(self)@.drop_first(),
            r is None ==> final(self)@ == old(self)@,
    {
        if self.items.len() > 0 {
            let v = self.items.remove(0);
            assert(self.items@ =~= old(self).items@.drop_first());
            Some(v)
        } else {
            None
        }
    }
}

} // verus!
