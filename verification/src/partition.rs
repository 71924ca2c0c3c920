//! How the counters are dealt out: worker `i` of `w` takes `i`, `i + w`,
//! `i + 2w` and so on, so that every counter belongs to exactly one worker.

use vstd::arithmetic::div_mod::{
    lemma_fundamental_div_mod,
    lemma_fundamental_div_mod_converse,
};
use vstd::arithmetic::mul::lemma_mul_is_commutative;
use vstd::prelude::*;

verus! {

/// The counter that the worker with index `index` tries in round `round`,
/// when the counters are dealt out over `stride` workers.
pub open spec fn lane_counter(index: nat, stride: nat, round: nat) -> nat {
    index + round * stride
}

/// Whether the counter `n` falls to the worker with index `index` of
/// `stride` workers.
pub open spec fn in_lane(index: nat, stride: nat, n: nat) -> bool {
    stride > 0 && n % stride == index
}

/// What one worker has to do: start at its own index and go on in steps of
/// the number of workers.
#[derive(Clone, Copy, Debug)]
pub struct WorkerTask {
    pub worker_index: usize,
    pub start_offset: u64,
    pub stride: u64,
}

impl WorkerTask {
    /// A task is well formed when its index is below the number of workers
    /// and it starts at its index.
    pub open spec fn wf(&self) -> bool {
        &&& self.stride >= 1
        &&& self.worker_index < self.stride
        &&& self.start_offset == self.worker_index
    }

    /// Whether the counter `n` is one of this worker's.
    pub open spec fn owns(&self, n: nat) -> bool {
        in_lane(self.start_offset as nat, self.stride as nat, n)
    }

    /// Tells whether the task is well formed.
    pub fn is_valid(&self) -> (valid: bool)
        ensures
            valid == self.wf(),
    {
        self.stride >= 1 && (self.worker_index as u64) < self.stride && self.start_offset
            == self.worker_index as u64
    }

    /// The task of worker `worker_index` out of `worker_count`; `None` when
    /// there is no such worker.
    pub fn new(worker_index: usize, worker_count: usize) -> (task: Option<WorkerTask>)
        ensures
            task is Some <==> worker_index < worker_count,
            task matches Some(t) ==> t.wf() && t.worker_index == worker_index && t.start_offset
                == worker_index && t.stride == worker_count,
    {
        if worker_index < worker_count {
            Some(
                WorkerTask {
                    worker_index,
                    start_offset: worker_index as u64,
                    stride: worker_count as u64,
                },
            )
        } else {
            None
        }
    }

    /// The counter after `counter` in this worker's lane; `None` when it
    /// would not fit in 64 bits.
    pub fn next_counter(&self, counter: u64) -> (next: Option<u64>)
        requires
            self.wf(),
        ensures
            next is Some <==> counter + self.stride <= u64::MAX,
            next matches Some(n) ==> n == counter + self.stride,
            self.owns(counter as nat) ==> self.owns((counter + self.stride) as nat),
    {
        proof {
            if self.owns(counter as nat) {
                lemma_lane_step(self.start_offset as nat, self.stride as nat, counter as nat);
            }
        }
        counter.checked_add(self.stride)
    }
}

/// One task for each of `worker_count` workers, in the order of their
/// indices.
pub fn plan_workers(worker_count: usize) -> (tasks: Vec<WorkerTask>)
    ensures
        tasks@.len() == worker_count,
        forall|i: int|
            0 <= i < worker_count ==> {
                &&& (#[trigger] tasks@[i]).wf()
                &&& tasks@[i].worker_index == i
                &&& tasks@[i].start_offset == i
                &&& tasks@[i].stride == worker_count
            },
{
    let mut tasks: Vec<WorkerTask> = Vec::new();
    let mut i: usize = 0;
    while i < worker_count
        invariant
            i <= worker_count,
            tasks@.len() == i,
            forall|j: int|
                0 <= j < i ==> {
                    &&& (#[trigger] tasks@[j]).wf()
                    &&& tasks@[j].worker_index == j
                    &&& tasks@[j].start_offset == j
                    &&& tasks@[j].stride == worker_count
                },
        decreases worker_count - i,
    {
        tasks.push(
            WorkerTask { worker_index: i, start_offset: i as u64, stride: worker_count as u64 },
        );
        i += 1;
    }
    tasks
}

/// A worker's index is the first of its counters: it is one of them, and
/// none of them is smaller.
pub proof fn lemma_lane_start(index: nat, stride: nat)
    requires
        index < stride,
    ensures
        in_lane(index, stride, index),
        forall|n: nat| #[trigger] in_lane(index, stride, n) ==> n >= index,
{
    lemma_fundamental_div_mod_converse(index as int, stride as int, 0, index as int);
    assert forall|n: nat| #[trigger] in_lane(index, stride, n) implies n >= index by {
        lemma_fundamental_div_mod(n as int, stride as int);
        assert(stride * (n as int / stride as int) >= 0) by (nonlinear_arith)
            requires
                stride > 0,
                n as int / stride as int >= 0,
        ;
    }
}

/// One stride after a counter of a lane comes another counter of that lane.
pub proof fn lemma_lane_step(index: nat, stride: nat, n: nat)
    requires
        index < stride,
        in_lane(index, stride, n),
    ensures
        in_lane(index, stride, n + stride),
{
    lemma_fundamental_div_mod(n as int, stride as int);
    lemma_mul_is_commutative(stride as int, n as int / stride as int);
    assert((n as int / stride as int + 1) * stride == (n as int / stride as int) * stride + stride)
        by (nonlinear_arith);
    lemma_fundamental_div_mod_converse(
        (n + stride) as int,
        stride as int,
        n as int / stride as int + 1,
        index as int,
    );
}

/// Between one counter of a lane and the next there is no other counter of
/// that lane.
pub proof fn lemma_lane_gap(index: nat, stride: nat, n: nat, m: nat)
    requires
        in_lane(index, stride, n),
        in_lane(index, stride, m),
        n <= m < n + stride,
    ensures
        m == n,
{
    lemma_fundamental_div_mod(n as int, stride as int);
    lemma_fundamental_div_mod(m as int, stride as int);
    let qn = n as int / stride as int;
    let qm = m as int / stride as int;
    assert(stride * qm - stride * qn == stride * (qm - qn)) by (nonlinear_arith);
    assert(0 <= stride * (qm - qn) < stride);
    assert(qm - qn == 0) by (nonlinear_arith)
        requires
            0 <= stride * (qm - qn) < stride,
            stride > 0,
    ;
}

/// Every counter falls to exactly one worker: to the one whose index is the
/// counter's remainder by the number of workers, in the round given by the
/// quotient.
pub proof fn lemma_partition_covers(worker_count: nat, n: nat)
    requires
        worker_count >= 1,
    ensures
        n % worker_count < worker_count,
        in_lane(n % worker_count, worker_count, n),
        lane_counter(n % worker_count, worker_count, n / worker_count) == n,
        forall|index: nat| #[trigger] in_lane(index, worker_count, n) <==> index == n % worker_count,
{
    lemma_fundamental_div_mod(n as int, worker_count as int);
    lemma_mul_is_commutative(worker_count as int, n as int / worker_count as int);
}

/// No counter falls to two workers, and none comes twice to the same one:
/// a counter determines the worker and the round.
pub proof fn lemma_partition_disjoint(
    worker_count: nat,
    index_a: nat,
    round_a: nat,
    index_b: nat,
    round_b: nat,
)
    requires
        index_a < worker_count,
        index_b < worker_count,
        lane_counter(index_a, worker_count, round_a) == lane_counter(
            index_b,
            worker_count,
            round_b,
        ),
    ensures
        index_a == index_b,
        round_a == round_b,
{
    let n = lane_counter(index_a, worker_count, round_a);
    lemma_fundamental_div_mod_converse(
        n as int,
        worker_count as int,
        round_a as int,
        index_a as int,
    );
    lemma_fundamental_div_mod_converse(
        n as int,
        worker_count as int,
        round_b as int,
        index_b as int,
    );
}

/// What a worker tries in any round is one of its own counters.
pub proof fn lemma_lane_counter_in_lane(index: nat, stride: nat, round: nat)
    requires
        index < stride,
    ensures
        in_lane(index, stride, lane_counter(index, stride, round)),
{
    lemma_fundamental_div_mod_converse(
        lane_counter(index, stride, round) as int,
        stride as int,
        round as int,
        index as int,
    );
}

/// After `rounds` rounds of each of `worker_count` workers, the counters
/// tried are exactly those below `rounds * worker_count`.
pub proof fn lemma_partition_rounds(worker_count: nat, rounds: nat, n: nat)
    requires
        worker_count >= 1,
    ensures
        n < rounds * worker_count <==> exists|index: nat, round: nat|
            index < worker_count && round < rounds && #[trigger] lane_counter(
                index,
                worker_count,
                round,
            ) == n,
{
    if n < rounds * worker_count {
        lemma_partition_covers(worker_count, n);
        let index = n % worker_count;
        let round = n / worker_count;
        assert(round < rounds) by (nonlinear_arith)
            requires
                n < rounds * worker_count,
                round * worker_count <= n,
                worker_count >= 1,
        ;
        assert(lane_counter(index, worker_count, round) == n);
    }
    if exists|index: nat, round: nat|
        index < worker_count && round < rounds && #[trigger] lane_counter(
            index,
            worker_count,
            round,
        ) == n {
        let (index, round) = choose|index: nat, round: nat|
            index < worker_count && round < rounds && #[trigger] lane_counter(
                index,
                worker_count,
                round,
            ) == n;
        assert(index + round * worker_count < rounds * worker_count) by (nonlinear_arith)
            requires
                index < worker_count,
                round < rounds,
        ;
    }
}

} // verus!
