//! The compilation worker pool's shared state, modelled as a transition
//! system over multisets: any number of workers repeatedly take one unit
//! from the pending queue and, once its artifact exists, move it to the
//! done set. The model covers every interleaving, so what is proved of it
//! holds for every worker count and every scheduling order.

use vstd::multiset::Multiset;
use vstd::prelude::*;

verus! {

/// The pool's shared state, by unit identity: units not yet taken, units a
/// worker currently holds, and units whose artifact has been produced.
pub struct PoolState {
    pub pending: Multiset<int>,
    pub in_flight: Multiset<int>,
    pub done: Multiset<int>,
}

/// The state before any worker has run: every unit pending.
pub open spec fn pool_init(units: Multiset<int>) -> PoolState {
    PoolState { pending: units, in_flight: Multiset::empty(), done: Multiset::empty() }
}

/// A worker removes unit `u` from the shared queue. No two workers can take
/// the same occurrence: the pop happens under the queue's guard.
pub open spec fn pop_step(pre: PoolState, post: PoolState, u: int) -> bool {
    &&& pre.pending.count(u) > 0
    &&& post.pending == pre.pending.remove(u)
    &&& post.in_flight == pre.in_flight.insert(u)
    &&& post.done == pre.done
}

/// The worker holding unit `u` appends its artifact to the collection.
pub open spec fn finish_step(pre: PoolState, post: PoolState, u: int) -> bool {
    &&& pre.in_flight.count(u) > 0
    &&& post.pending == pre.pending
    &&& post.in_flight == pre.in_flight.remove(u)
    &&& post.done == pre.done.insert(u)
}

/// One step of any worker, in any interleaving.
pub open spec fn pool_step(pre: PoolState, post: PoolState) -> bool {
    exists|u: int| pop_step(pre, post, u) || finish_step(pre, post, u)
}

/// The conservation invariant: every unit is in exactly one of the three
/// places, so the three multisets together always hold the original units.
pub open spec fn pool_inv(s: PoolState, units: Multiset<int>) -> bool {
    s.pending.add(s.in_flight).add(s.done) =~= units
}

/// The initial state satisfies the conservation invariant.
pub proof fn lemma_pool_init_inv(units: Multiset<int>)
    ensures
        pool_inv(pool_init(units), units),
{
    assert(units.add(Multiset::empty()).add(Multiset::empty()) =~= units);
}

/// Every step of every worker preserves the conservation invariant,
/// whatever unit it touches and however the steps interleave.
pub proof fn lemma_pool_step_preserves(pre: PoolState, post: PoolState, units: Multiset<int>)
    requires
        pool_inv(pre, units),
        pool_step(pre, post),
    ensures
        pool_inv(post, units),
{
    let u = choose|u: int| pop_step(pre, post, u) || finish_step(pre, post, u);
    if pop_step(pre, post, u) {
        assert(post.pending.add(post.in_flight).add(post.done) =~= pre.pending.add(
            pre.in_flight,
        ).add(pre.done));
    } else {
        assert(post.pending.add(post.in_flight).add(post.done) =~= pre.pending.add(
            pre.in_flight,
        ).add(pre.done));
    }
}

/// Parallel correctness: when the queue has drained and every worker has
/// finished, the done set holds exactly the original units - for K
/// independent units, exactly K artifacts, one per unit, regardless of the
/// worker count and of the order in which units were taken.
pub proof fn lemma_pool_complete(s: PoolState, units: Multiset<int>)
    requires
        pool_inv(s, units),
        s.pending =~= Multiset::<int>::empty(),
        s.in_flight =~= Multiset::<int>::empty(),
    ensures
        s.done =~= units,
        s.done.len() == units.len(),
{
    assert(s.pending.add(s.in_flight).add(s.done) =~= s.done);
}

/// Taking the back of the shared queue is one pop step of the pool model:
/// the pending contents lose exactly that occurrence, and the unit moves
/// into the taking worker's hands.
pub proof fn lemma_queue_pop_matches_model(q: Seq<int>, pre: PoolState, post: PoolState)
    requires
        q.len() > 0,
        pre.pending == q.to_multiset(),
        post.pending == q.drop_last().to_multiset(),
        post.in_flight == pre.in_flight.insert(q.last()),
        post.done == pre.done,
    ensures
        pop_step(pre, post, q.last()),
{
    broadcast use vstd::seq_lib::group_to_multiset_ensures;

    assert(q.contains(q.last()));
    assert(q.drop_last() =~= q.remove(q.len() - 1));
    assert(q.remove(q.len() - 1).to_multiset() =~= q.to_multiset().remove(q.last()));
}

/// Removes the next unit from the shared work queue (the back, as the
/// workers drain it), or reports the queue empty.
pub fn pop_next<T>(queue: &mut Vec<T>) -> (r: Option<T>)
    ensures
        match r {
            Some(t) => {
                &&& old(queue)@.len() > 0
                &&& t == old(queue)@.last()
                &&& final(queue)@ == old(queue)@.drop_last()
            },
            None => {
                &&& old(queue)@.len() == 0
                &&& final(queue)@ == old(queue)@
            },
        },
{
    queue.pop()
}

/// Relies on num_cpus::get: the number of available logical CPUs, which its
/// documentation promises is always at least 1.
#[verifier::external_body]
fn available_cpus() -> (r: usize)
    ensures
        r >= 1,
{
    num_cpus::get()
}

/// The number of workers to spawn: the configured count when one is given,
/// otherwise all but one of `cpus` (one core is left to orchestration),
/// clamped to at least one worker.
pub fn worker_count(threads: Option<usize>, cpus: usize) -> (r: usize)
    requires
        cpus >= 1,
        threads is Some ==> threads->0 >= 1,
    ensures
        r >= 1,
        match threads {
            Some(t) => r == t,
            None => r == if cpus >= 2 {
                (cpus - 1) as int
            } else {
                1int
            },
        },
{
    match threads {
        Some(count) => count,
        None => {
            if cpus >= 2 {
                cpus - 1
            } else {
                1
            }
        },
    }
}

/// The worker count for this machine: the configured count, or one less
/// than the number of available CPUs, at least one either way.
pub fn default_worker_count(threads: Option<usize>) -> (r: usize)
    requires
        threads is Some ==> threads->0 >= 1,
    ensures
        r >= 1,
        threads is Some ==> r == threads->0,
{
    let cpus = available_cpus();
    worker_count(threads, cpus)
}

} // verus!
