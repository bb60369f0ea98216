//! Spreading of the asynchronous tasks over a fixed set of workers: a
//! dispatcher hands each incoming task to the workers in turn, spilling over to
//! the next ones when a worker's queue is full, and each worker drops the tasks
//! that have finished.
use crate::common::channel::{try_send, Offer};
use crate::common::status_code::StatusCode;
use tokio::sync::mpsc::Sender;
use vstd::prelude::*;
use vstd::seq_lib::group_to_multiset_ensures;

pub mod handle;

verus! {

/// Size of the shared incoming task channel.
pub const ORCHESTRATOR_CHANNEL_SIZE: usize = 128;

/// Size of each individual worker's incoming task channel.
pub const WORKER_CHANNEL_SIZE: usize = 512;

/// Maximum number of tasks drained from a channel in a single batch.
pub const MAX_TASKS_PER_BATCH: usize = 32768;

/// Initial task-list capacity allocated for each worker.
pub const MIN_TASKS_SIZE: usize = 32;

/// The code used when the orchestrator cannot accept a new task.
pub fn orchestrator_error_code() -> (r: StatusCode)
    ensures
        r == StatusCode::ServiceUnavailable,
{
    StatusCode::ServiceUnavailable
}

/// A task run by the orchestrator: a connection, a send stream, or a receive stream.
pub enum QuicTask<C, S, R> {
    Connection(C),
    Send(S),
    Receive(R),
}

/// The worker tried at step `off` of handing out a task when the turn is at
/// `start` among `n` workers.
pub open spec fn probe_index(start: int, off: int, n: int) -> int {
    (start % n + off) % n
}

/// Hands tasks to the workers in turn.
#[verifier::reject_recursive_types(T)]
pub struct OrchestratorDispatcher<T> {
    worker_senders: Vec<Sender<T>>,
    next_worker: usize,
}

impl<T> OrchestratorDispatcher<T> {
    /// The number of workers.
    pub closed spec fn spec_worker_count(self) -> nat {
        self.worker_senders@.len()
    }

    /// The channels to the workers, in order.
    pub closed spec fn spec_worker_senders(self) -> Seq<Sender<T>> {
        self.worker_senders@
    }

    /// Whose turn it is, counted without bound and reduced modulo the number of workers.
    pub closed spec fn spec_next_worker(self) -> usize {
        self.next_worker
    }

    /// A dispatcher whose first turn goes to worker 0.
    pub fn new(worker_senders: Vec<Sender<T>>) -> (r: Self)
        ensures
            r.spec_worker_count() == worker_senders@.len(),
            r.spec_worker_senders() == worker_senders@,
            r.spec_next_worker() == 0,
    {
        OrchestratorDispatcher { worker_senders, next_worker: 0 }
    }

    /// The number of workers.
    pub fn worker_count(&self) -> (r: usize)
        ensures
            r == self.spec_worker_count(),
    {
        self.worker_senders.len()
    }

    /// Hands `task` to the worker whose turn it is, or, if that worker's queue
    /// is full or closed, to the following workers in order, each tried once.
    /// The outcome lists the workers that refused the task, in the order they
    /// were tried, and names the worker that took it: the one after the last
    /// refusal. The task comes back only when all workers refused it. The
    /// records of the offers come back in the order they were made: each
    /// refusal by the worker it names, and after them the acceptance by the
    /// worker that took the task. The turn always advances by one.
    pub fn dispatch(&mut self, task: T) -> (r: DispatchOutcome<T>)
        requires
            old(self).spec_worker_count() > 0,
        ensures
            final(self).spec_worker_count() == old(self).spec_worker_count(),
            final(self).spec_next_worker() == old(self).spec_next_worker().wrapping_add(1),
            r.refused@.len() <= old(self).spec_worker_count(),
            forall|k: int| 0 <= k < r.refused@.len() ==> #[trigger] r.refused@[k] == probe_index(
                old(self).spec_next_worker() as int,
                k,
                old(self).spec_worker_count() as int,
            ),
            r.result matches Ok(i) ==> r.refused@.len() < old(self).spec_worker_count() && i
                == probe_index(
                old(self).spec_next_worker() as int,
                r.refused@.len() as int,
                old(self).spec_worker_count() as int,
            ),
            r.result matches Err(t) ==> t == task && r.refused@.len() == old(self).spec_worker_count(),
            r.result is Err ==> forall|w: usize|
                w < old(self).spec_worker_count() ==> #[trigger] r.refused@.contains(w),
            final(self).spec_worker_senders() == old(self).spec_worker_senders(),
            r.offers@.len() == r.refused@.len() + (if r.result is Ok { 1int } else { 0int }),
            forall|k: int|
                0 <= k < r.refused@.len() ==> !(#[trigger] r.offers@[k]).spec_accepted()
                    && r.offers@[k].spec_value() == task && r.offers@[k].spec_channel()
                    == old(self).spec_worker_senders()[r.refused@[k] as int],
            r.result matches Ok(i) ==> r.offers@.last().spec_accepted() && r.offers@.last().spec_value()
                == task && r.offers@.last().spec_channel() == old(self).spec_worker_senders()[i as int],
    {
        let worker_count = self.worker_senders.len();
        let start = self.next_worker;
        self.next_worker = self.next_worker.wrapping_add(1);
        let mut pending = task;
        let mut refused: Vec<usize> = Vec::new();
        let mut offers: Vec<Offer<T>> = Vec::new();
        let mut off: usize = 0;
        while off < worker_count
            invariant
                worker_count == self.worker_senders@.len(),
                worker_count > 0,
                start == old(self).spec_next_worker(),
                off <= worker_count,
                refused@.len() == off,
                forall|k: int| 0 <= k < refused@.len() ==> #[trigger] refused@[k] == probe_index(
                    start as int,
                    k,
                    worker_count as int,
                ),
                pending == task,
                self.next_worker == old(self).spec_next_worker().wrapping_add(1),
                self.worker_senders@ == old(self).spec_worker_senders(),
                offers@.len() == off,
                forall|k: int|
                    0 <= k < off ==> !(#[trigger] offers@[k]).spec_accepted() && offers@[k].spec_value()
                        == task && offers@[k].spec_channel() == self.worker_senders@[refused@[k] as int],
            decreases worker_count - off,
        {
            let idx = match probe_worker(start, off, worker_count) {
                Some(i) => i,
                None => {
                    return DispatchOutcome { refused, offers, result: Err(pending) };
                },
            };
            let (answer, offer) = try_send(&self.worker_senders[idx], pending);
            offers.push(offer);
            match answer {
                Ok(()) => {
                    return DispatchOutcome { refused, offers, result: Ok(idx) };
                },
                Err(refusal) => {
                    pending = refusal.into_inner();
                    refused.push(idx);
                },
            }
            off = off + 1;
        }
        proof {
            assert forall|w: usize| w < worker_count implies #[trigger] refused@.contains(w) by {
                lemma_dispatch_tries_every_worker_once(start as int, worker_count as int);
                assert(tried_at_some_step(start as int, w as int, worker_count as int));
                let off = choose|off: int|
                    0 <= off < worker_count && #[trigger] probe_index(start as int, off, worker_count as int)
                        == w as int;
                assert(refused@[off] == w);
            }
        }
        DispatchOutcome { refused, offers, result: Err(pending) }
    }
}

/// What handing out one task did: the workers that refused it, in the order
/// they were tried, the records of the offers made to them, and the worker that
/// took it, or the task when every worker refused it.
#[verifier::reject_recursive_types(T)]
pub struct DispatchOutcome<T> {
    pub refused: Vec<usize>,
    pub offers: Vec<Offer<T>>,
    pub result: Result<usize, T>,
}

/// The worker to try after `off` refusals when the turn is at `start` among
/// `n` workers: the one `off` places after the turn, wrapping around; none once
/// every worker has been tried.
pub fn probe_worker(start: usize, off: usize, n: usize) -> (r: Option<usize>)
    requires
        n > 0,
    ensures
        off < n ==> r == Some(probe_index(start as int, off as int, n as int) as usize),
        off < n ==> probe_index(start as int, off as int, n as int) < n,
        off >= n ==> r is None,
{
    if off >= n {
        return None;
    }
    let s = start % n;
    proof {
        lemma_probe_index_value(start as int, off as int, n as int);
    }
    if off < n - s {
        Some(s + off)
    } else {
        Some(off - (n - s))
    }
}

/// The worker tried at step `off` is the one `off` places after the turn,
/// wrapping around at the end.
proof fn lemma_probe_index_value(start: int, off: int, n: int)
    requires
        0 <= start,
        0 <= off < n,
    ensures
        0 <= start % n < n,
        off < n - start % n ==> probe_index(start, off, n) == start % n + off,
        off >= n - start % n ==> probe_index(start, off, n) == off - (n - start % n),
{
    let s = start % n;
    vstd::arithmetic::div_mod::lemma_mod_bound(start, n);
    if off < n - s {
        vstd::arithmetic::div_mod::lemma_small_mod((s + off) as nat, n as nat);
    } else {
        vstd::arithmetic::div_mod::lemma_mod_sub_multiples_vanish(s + off, n);
        vstd::arithmetic::div_mod::lemma_small_mod((s + off - n) as nat, n as nat);
    }
}

/// Whether worker `w` is tried at one of the steps of handing out a task.
pub open spec fn tried_at_some_step(start: int, w: int, n: int) -> bool {
    exists|off: int| 0 <= off < n && #[trigger] probe_index(start, off, n) == w
}

/// Handing out a task tries every worker, each exactly once: the workers tried
/// at steps `0..n` are pairwise distinct and cover all `n` workers.
pub proof fn lemma_dispatch_tries_every_worker_once(start: int, n: int)
    requires
        0 <= start,
        0 < n,
    ensures
        forall|off1: int, off2: int|
            0 <= off1 < n && 0 <= off2 < n && off1 != off2 ==> #[trigger] probe_index(start, off1, n)
                != #[trigger] probe_index(start, off2, n),
        forall|w: int| 0 <= w < n ==> #[trigger] tried_at_some_step(start, w, n),
{
    assert forall|off1: int, off2: int|
        0 <= off1 < n && 0 <= off2 < n && off1 != off2 implies #[trigger] probe_index(start, off1, n)
            != #[trigger] probe_index(start, off2, n) by {
        lemma_probe_index_value(start, off1, n);
        lemma_probe_index_value(start, off2, n);
    }
    assert forall|w: int| 0 <= w < n implies #[trigger] tried_at_some_step(start, w, n) by {
        vstd::arithmetic::div_mod::lemma_mod_bound(start, n);
        let s = start % n;
        let off = if w >= s { w - s } else { w + n - s };
        lemma_probe_index_value(start, off, n);
        assert(probe_index(start, off, n) == w);
    }
}

/// Removes the finished tasks, given their indices in increasing order, and
/// returns them. Each is removed by swapping in the last task, highest index
/// first, so that the indices still to be removed stay valid. No task is lost or
/// duplicated: the tasks kept and the tasks returned together are the tasks
/// there were, and the tasks returned are those at the given indices.
pub fn remove_finished<T>(tasks: &mut Vec<T>, finished: Vec<usize>) -> (removed: Vec<T>)
    requires
        forall|i: int, j: int| 0 <= i < j < finished@.len() ==> finished@[i] < finished@[j],
        forall|i: int| 0 <= i < finished@.len() ==> finished@[i] < old(tasks)@.len(),
    ensures
        removed@.len() == finished@.len(),
        final(tasks)@.len() == old(tasks)@.len() - finished@.len(),
        forall|k: int| 0 <= k < removed@.len() ==> #[trigger] removed@[k] == old(tasks)@[
            finished@[finished@.len() - 1 - k] as int
        ],
        final(tasks)@.to_multiset().add(removed@.to_multiset()) == old(tasks)@.to_multiset(),
{
    let mut removed: Vec<T> = Vec::new();
    let m = finished.len();
    let mut k: usize = 0;
    proof {
        broadcast use group_to_multiset_ensures;
        assert(removed@.to_multiset() =~= vstd::multiset::Multiset::empty());
        assert(tasks@.to_multiset().add(removed@.to_multiset()) =~= old(tasks)@.to_multiset());
    }
    while k < m
        invariant
            m == finished@.len(),
            k <= m,
            forall|i: int, j: int| 0 <= i < j < finished@.len() ==> finished@[i] < finished@[j],
            forall|i: int| 0 <= i < finished@.len() ==> finished@[i] < old(tasks)@.len(),
            tasks@.len() == old(tasks)@.len() - k,
            removed@.len() == k,
            forall|i: int|
                0 <= i < (if k == 0 { old(tasks)@.len() as int } else { finished@[m - k] as int })
                    ==> #[trigger] tasks@[i] == old(tasks)@[i],
            forall|j: int| 0 <= j < k ==> #[trigger] removed@[j] == old(tasks)@[
                finished@[m - 1 - j] as int
            ],
            tasks@.to_multiset().add(removed@.to_multiset()) == old(tasks)@.to_multiset(),
        decreases m - k,
    {
        let idx = finished[m - 1 - k];
        proof {
            lemma_index_bound(finished@, old(tasks)@.len() as int, (m - 1 - k) as int);
        }
        let ghost before = tasks@;
        let task = tasks.swap_remove(idx);
        proof {
            lemma_swap_remove_multiset(before, idx as int);
        }
        removed.push(task);
        proof {
            broadcast use group_to_multiset_ensures;
            assert(removed@.to_multiset() =~= removed@.drop_last().to_multiset().insert(task)) by {
                assert(removed@ == removed@.drop_last().push(task));
            }
            assert(tasks@.to_multiset().add(removed@.to_multiset()) =~= old(tasks)@.to_multiset());
        }
        k = k + 1;
    }
    removed
}

/// In a strictly increasing sequence of indices below `len`, the entry at
/// position `p` is at most `len - (count - p)`.
proof fn lemma_index_bound(finished: Seq<usize>, len: int, p: int)
    requires
        0 <= p < finished.len(),
        forall|i: int, j: int| 0 <= i < j < finished.len() ==> finished[i] < finished[j],
        forall|i: int| 0 <= i < finished.len() ==> finished[i] < len,
    ensures
        finished[p] <= len - (finished.len() - p),
    decreases finished.len() - p,
{
    if p + 1 < finished.len() {
        lemma_index_bound(finished, len, p + 1);
    }
}

/// Removing by swapping in the last element removes exactly that element from
/// the multiset of elements.
proof fn lemma_swap_remove_multiset<T>(s: Seq<T>, i: int)
    requires
        0 <= i < s.len(),
    ensures
        s.update(i, s.last()).drop_last().to_multiset() == s.to_multiset().remove(s[i]),
{
    broadcast use group_to_multiset_ensures;
    broadcast use vstd::multiset::group_multiset_axioms;
    broadcast use vstd::seq_lib::to_multiset_update;
    let u = s.update(i, s.last());
    let d = u.drop_last();
    let last = s.last();
    assert(d.push(last) =~= u);
    vstd::seq_lib::to_multiset_build(d, last);
    vstd::seq_lib::to_multiset_update(s, i, last);
    let m = s.to_multiset();
    assert(d.to_multiset().insert(last) == m.insert(last).remove(s[i]));
    assert forall|x: T| d.to_multiset().count(x) == m.remove(s[i]).count(x) by {
        assert(d.to_multiset().insert(last).count(x) == m.insert(last).remove(s[i]).count(x));
        if x == last {
            assert(m.count(s[i]) > 0) by {
                vstd::seq_lib::to_multiset_contains(s, s[i]);
                assert(s.contains(s[i]));
            }
        }
    }
    assert(d.to_multiset() =~= m.remove(s[i]));
}

} // verus!
