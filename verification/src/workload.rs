//! The workload generator: the deterministic sequence of payloads a
//! producer pushes during a run.

use vstd::prelude::*;

verus! {

/// The payload a producer pushes as its `i`-th operation.
pub open spec fn payload(i: int) -> i32 {
    i as i32
}

/// The whole workload of a producer assigned `k` operations:
/// the monotonically increasing sequence `0, 1, ..., k - 1`.
pub open spec fn workload_seq(k: int) -> Seq<i32> {
    Seq::new(k as nat, |i: int| payload(i))
}

/// Distinct operations generate distinct payloads: the workload holds no
/// duplicates, so every successfully popped value corresponds to exactly
/// one generated value.
pub proof fn lemma_workload_no_duplicates(k: int)
    requires
        0 <= k <= i32::MAX,
    ensures
        forall|i: int, j: int| 0 <= i < j < k ==> workload_seq(k)[i] != workload_seq(k)[j],
{
}

/// Computes the `i`-th workload payload.
pub fn workload_value(i: usize) -> (v: i32)
    requires
        i <= i32::MAX as usize,
    ensures
        v == payload(i as int),
{
    i as i32
}

/// Materializes the first `k` workload payloads in generator order.
pub fn workload(k: usize) -> (vs: Vec<i32>)
    requires
        k <= i32::MAX as usize,
    ensures
        vs@ == workload_seq(k as int),
{
    let mut vs: Vec<i32> = Vec::new();
    let mut i: usize = 0;
    while i < k
        invariant
            i <= k,
            k <= i32::MAX as usize,
            vs@ =~= workload_seq(i as int),
        decreases k - i,
    {
        vs.push(workload_value(i));
        i = i + 1;
        assert(vs@ =~= workload_seq(i as int));
    }
    vs
}

} // verus!
