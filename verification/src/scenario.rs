//! Scenario descriptors and the partitioning of the operation budget
//! across producer threads.

use vstd::prelude::*;

verus! {

/// The thread shape of a scenario: one producer and one consumer, or two
/// producers and two consumers. Thread counts are fixed constants of the
/// design, not run-time configuration.
#[derive(Clone, Copy, PartialEq, Eq, Structural)]
pub enum Shape {
    Spsc,
    Mpmc,
}

/// Which queue implementation a scenario measures: a mutex-guarded ring
/// buffer or an atomics-based one.
#[derive(Clone, Copy, PartialEq, Eq, Structural)]
pub enum QueueKind {
    MutexBased,
    AtomicBased,
}

/// Identifies one measured run: a queue implementation and a thread shape.
/// The descriptor determines how the operation budget is split across the
/// scenario's producer threads.
#[derive(Clone, Copy, PartialEq, Eq, Structural)]
pub struct Scenario {
    pub kind: QueueKind,
    pub shape: Shape,
}

/// The number of producer threads of a shape.
pub open spec fn producer_count_spec(shape: Shape) -> int {
    match shape {
        Shape::Spsc => 1,
        Shape::Mpmc => 2,
    }
}

/// The number of consumer threads of a shape.
pub open spec fn consumer_count_spec(shape: Shape) -> int {
    match shape {
        Shape::Spsc => 1,
        Shape::Mpmc => 2,
    }
}

/// The share of the operation budget each producer is assigned: an even
/// integer division, the remainder silently dropped.
pub open spec fn producer_share_spec(budget: int, producers: int) -> int
    recommends
        producers >= 1,
{
    budget / producers
}

/// The number of values actually generated across all producers of a
/// scenario: each of the `producers` threads pushes exactly its share, so
/// the remainder of the division is never produced.
pub open spec fn total_generated_spec(budget: int, producers: int) -> int
    recommends
        producers >= 1,
{
    producers * producer_share_spec(budget, producers)
}

impl Scenario {
    /// The number of producer threads this scenario launches.
    pub fn producer_count(&self) -> (n: usize)
        ensures
            n == producer_count_spec(self.shape),
            1 <= n <= 2,
    {
        match self.shape {
            Shape::Spsc => 1,
            Shape::Mpmc => 2,
        }
    }

    /// The number of consumer threads this scenario launches.
    pub fn consumer_count(&self) -> (n: usize)
        ensures
            n == consumer_count_spec(self.shape),
            1 <= n <= 2,
    {
        match self.shape {
            Shape::Spsc => 1,
            Shape::Mpmc => 2,
        }
    }

    /// The number of operations assigned to each producer thread of this
    /// scenario: the budget integer-divided by the producer count.
    pub fn producer_share(&self, budget: usize) -> (share: usize)
        ensures
            share == producer_share_spec(budget as int, producer_count_spec(self.shape)),
            share <= budget,
    {
        match self.shape {
            Shape::Spsc => budget,
            Shape::Mpmc => budget / 2,
        }
    }
}

/// Partitioning conserves the budget exactly when the producer count
/// divides it: the shares of all producers then sum back to the budget.
/// When it does not divide, the remainder is dropped and strictly fewer
/// values than the budget are generated.
pub proof fn lemma_split_conserves_budget(budget: int, producers: int)
    requires
        budget >= 0,
        producers >= 1,
    ensures
        budget % producers == 0 ==> total_generated_spec(budget, producers) == budget,
        total_generated_spec(budget, producers) == budget - budget % producers,
        total_generated_spec(budget, producers) <= budget,
{
    assert(producers * (budget / producers) == budget - budget % producers) by (nonlinear_arith)
        requires
            producers >= 1,
    ;
    assert(budget % producers >= 0) by (nonlinear_arith)
        requires
            producers >= 1,
            budget >= 0,
    ;
}

} // verus!
