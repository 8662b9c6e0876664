//! Deterministic scenario runs against the transparent reference queue.
//!
//! Each run drives the very producer and consumer attempt logic of the
//! termination protocol under a fair deterministic schedule, against the
//! in-process reference queue. Because the queue is transparent, the whole
//! run structure is proved: every run pushes each generated value exactly
//! once, drains exactly the operation budget, and terminates — the
//! scheduling loops carry `decreases` measures, so these runs are total
//! even under injected transient full/empty responses.

use vstd::prelude::*;

use crate::protocol::mpmc_consumer_attempt_ref;
use crate::protocol::MpmcStep;
use crate::protocol::ProducerState;
use crate::protocol::SpscConsumerState;
use crate::ref_queue::RefQueue;
use crate::scenario::producer_count_spec;
use crate::scenario::producer_share_spec;
use crate::scenario::Shape;
use crate::workload::workload_seq;

verus! {

/// What one SPSC reference run did: how many operations succeeded on each
/// side, how many attempts were spent, and every value the consumer
/// observed, in the order it observed them.
pub struct RunStats {
    pub pushed: usize,
    pub popped: usize,
    pub push_attempts: usize,
    pub pop_attempts: usize,
    pub observed: Vec<i32>,
}

/// One complete SPSC scenario run against the reference queue: a single
/// producer pushing the workload `0, 1, ..., budget - 1` with retry on
/// full, and a single consumer draining until its local count reaches the
/// budget.
///
/// `faults` is a script of injected transient failures: one entry is
/// consulted per attempt while the script lasts, and a `true` makes that
/// attempt fail artificially, as if the queue had reported full or empty.
/// The run is proved to terminate for every finite script — the liveness
/// of the protocol under transient full/empty responses — and the consumer
/// observes exactly the generated workload, whatever the script.
pub fn run_spsc_reference(budget: usize, capacity: usize, faults: &Vec<bool>) -> (stats: RunStats)
    requires
        1 <= capacity,
        budget <= i32::MAX as usize,
        budget + faults@.len() <= usize::MAX,
    ensures
        stats.pushed == budget,
        stats.popped == budget,
        stats.observed@ == workload_seq(budget as int),
        stats.push_attempts + stats.pop_attempts <= 2 * budget + faults@.len(),
        faults@.len() == 0 ==> stats.push_attempts == budget && stats.pop_attempts == budget,
        budget == 0 ==> stats.push_attempts == 0 && stats.pop_attempts == 0,
{
    let mut queue = RefQueue::new(capacity);
    let mut producer = ProducerState::new(budget);
    let mut consumer = SpscConsumerState::new(budget);
    let mut observed: Vec<i32> = Vec::new();
    let mut cursor: usize = 0;
    let mut push_attempts: usize = 0;
    let mut pop_attempts: usize = 0;

    while !(producer.is_done() && consumer.is_done())
        invariant
            producer.wf(),
            consumer.wf(),
            producer.quota == budget,
            consumer.budget == budget,
            budget <= i32::MAX as usize,
            budget + faults@.len() <= usize::MAX,
            queue.wf(),
            queue.cap() == capacity,
            consumer.count <= producer.next,
            queue@ =~= workload_seq(budget as int).subrange(
                consumer.count as int,
                producer.next as int,
            ),
            observed@ =~= workload_seq(consumer.count as int),
            cursor <= faults@.len(),
            push_attempts <= producer.next + cursor,
            pop_attempts <= consumer.count + cursor,
            push_attempts + pop_attempts <= producer.next + consumer.count + cursor,
            faults@.len() == 0 ==> push_attempts == producer.next && pop_attempts
                == consumer.count,
            budget == 0 ==> push_attempts == 0 && pop_attempts == 0,
        decreases
                (budget - producer.next) + (budget - consumer.count) + (faults@.len() - cursor),
    {
        let inject = if cursor < faults.len() {
            let f = faults[cursor];
            cursor = cursor + 1;
            f
        } else {
            false
        };

        if !producer.is_done() && queue.len() < capacity {
            push_attempts = push_attempts + 1;
            if !inject {
                let r = producer.attempt_ref(&mut queue);
                proof {
                    assert(r.0);
                    assert(queue@ =~= workload_seq(budget as int).subrange(
                        consumer.count as int,
                        producer.next as int,
                    ));
                }
            }
        } else {
            // The producer is done or the queue is full; either way the
            // queue is nonempty and the consumer still has work.
            proof {
                assert(queue@.len() > 0);
                assert(consumer.count < budget);
            }
            pop_attempts = pop_attempts + 1;
            if !inject {
                let got = consumer.attempt_ref(&mut queue);
                if let Some(v) = got {
                    observed.push(v);
                    proof {
                        assert(queue@ =~= workload_seq(budget as int).subrange(
                            consumer.count as int,
                            producer.next as int,
                        ));
                        assert(observed@ =~= workload_seq(consumer.count as int));
                    }
                } else {
                    proof {
                        assert(false);
                    }
                }
            }
        }
    }

    proof {
        assert(observed@ =~= workload_seq(budget as int));
    }
    RunStats {
        pushed: producer.next,
        popped: consumer.count,
        push_attempts,
        pop_attempts,
        observed,
    }
}

/// How an MPMC reference run ended. `pushed` is the total number of
/// successful pushes across both producers, `consumed` the final value of
/// the shared consumed counter.
pub enum MpmcOutcome {
    /// Every thread exited: both producers exhausted their shares and the
    /// consumed counter reached the operation budget.
    Completed { consumed: usize, pushed: usize },
    /// No thread could make progress: both producers were exhausted and
    /// the queue drained, yet the counter stood short of the budget, so
    /// the consumers would poll forever.
    Stalled { consumed: usize, pushed: usize },
}

/// One complete MPMC scenario run against the reference queue: two
/// producers, each assigned the budget integer-divided by two, and two
/// consumers sharing one consumed counter, scheduled round-robin with one
/// attempt per thread per round.
///
/// The run exhibits the partitioning policy exactly: an even budget
/// completes with the counter at the full budget, while an odd budget
/// stalls — the division drops the remainder, so one fewer value is ever
/// generated than the consumers' termination check waits for.
pub fn run_mpmc_reference(budget: usize, capacity: usize) -> (out: MpmcOutcome)
    requires
        1 <= capacity,
        budget <= i32::MAX as usize,
    ensures
        budget % 2 == 0 ==> (out matches MpmcOutcome::Completed { consumed, pushed }
            && consumed == budget && pushed == budget),
        budget % 2 == 1 ==> (out matches MpmcOutcome::Stalled { consumed, pushed }
            && consumed == budget - 1 && pushed == budget - 1),
{
    let share = budget / 2;
    proof {
        assert(share == producer_share_spec(budget as int, producer_count_spec(Shape::Mpmc)));
    }
    let mut queue = RefQueue::new(capacity);
    let mut producer_a = ProducerState::new(share);
    let mut producer_b = ProducerState::new(share);
    let mut consumed: usize = 0;

    while !(producer_a.is_done() && producer_b.is_done() && consumed >= budget)
        invariant
            producer_a.wf(),
            producer_b.wf(),
            producer_a.quota == share,
            producer_b.quota == share,
            share == budget / 2,
            budget <= i32::MAX as usize,
            queue.wf(),
            queue.cap() == capacity,
            consumed + queue@.len() == producer_a.next + producer_b.next,
            consumed <= budget,
        decreases
                (share - producer_a.next) + (share - producer_b.next) + (budget - consumed),
    {
        let mut progress = false;

        if !producer_a.is_done() {
            let r = producer_a.attempt_ref(&mut queue);
            if r.0 {
                progress = true;
            }
        }
        if !producer_b.is_done() {
            let r = producer_b.attempt_ref(&mut queue);
            if r.0 {
                progress = true;
            }
        }
        let step_a = mpmc_consumer_attempt_ref(&mut queue, &mut consumed, budget);
        if matches!(step_a, MpmcStep::Consumed(_)) {
            progress = true;
        }
        let step_b = mpmc_consumer_attempt_ref(&mut queue, &mut consumed, budget);
        if matches!(step_b, MpmcStep::Consumed(_)) {
            progress = true;
        }

        if !progress {
            // Nothing moved in a whole round: the producers are exhausted,
            // the queue is drained, and the counter stands one short of an
            // odd budget that the even split could never generate.
            proof {
                assert(consumed < budget);
                assert(queue@.len() == 0);
                assert(producer_a.done_spec() && producer_b.done_spec());
                assert(consumed == 2 * share);
                assert(budget % 2 == 1);
            }
            return MpmcOutcome::Stalled { consumed, pushed: consumed };
        }
    }

    proof {
        assert(consumed == budget);
        assert(budget % 2 == 0);
    }
    MpmcOutcome::Completed { consumed, pushed: consumed }
}

/// The run structure is idempotent: two runs of the same scenario against
/// two fresh queue instances traverse the identical success path. Each
/// run's observation sequence equals the generated workload, so any two
/// runs with the same budget observe the same values in the same order and
/// succeed the same number of times on each side — only elapsed time can
/// differ.
pub proof fn lemma_run_structure_deterministic(budget: int, first: Seq<i32>, second: Seq<i32>)
    requires
        first == workload_seq(budget),
        second == workload_seq(budget),
    ensures
        first == second,
        first.len() == second.len(),
{
}

} // verus!
