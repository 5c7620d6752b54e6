//! A fixed-size worker pool with a shared FIFO dispatch queue, modelled as a
//! sequential state machine.
//!
//! The model keeps the decisions of the pool — what `build`, `submit`,
//! a worker's loop iteration and teardown do to the queue and to the set of
//! workers — while the surrounding program supplies what no verified code can:
//! operating-system threads, the blocking receive, and the job bodies
//! themselves. A job is represented by its identifier; its body is an opaque
//! callable that the embedding runs, and whether that body aborted is handed
//! back to the model as a plain flag.
//!
//! The state is public so that the guarantees — every accepted job is executed
//! exactly once, a failing job never takes a worker down, teardown drains the
//! queue before any worker exits — can be read off the contracts directly.

use vstd::prelude::*;

verus! {

use vstd::multiset::Multiset;
use vstd::seq_lib::group_to_multiset_ensures;

/// Why pool construction can fail.
#[derive(Debug, PartialEq, Eq, Structural)]
pub enum PoolCreationError {
    /// A pool of size zero was requested; size at least one is required.
    EmptyPool,
    /// The embedding could not start a worker thread. The sequential model
    /// itself never fails this way: it is reported by the surrounding
    /// program when the operating system refuses a thread, and aborts the
    /// construction of the whole pool.
    WorkerSpawnFailed,
}

/// One worker: a stable numeric identity, whether its thread is still
/// running, and the jobs it has completed, in the order it ran them.
pub struct Worker {
    pub id: usize,
    pub live: bool,
    pub completed: Vec<u128>,
}

/// The pool: a fixed set of workers, the send side of the dispatch queue
/// (open until teardown), the queued jobs in FIFO order, and the jobs that
/// have been executed, in dequeue order. `accepted` is the ghost history of
/// every job the pool ever took in.
pub struct ThreadPool {
    pub workers: Vec<Worker>,
    pub sender_open: bool,
    pub pending: Vec<u128>,
    pub executed: Vec<u128>,
    pub accepted: Ghost<Seq<u128>>,
}

/// The jobs completed by a set of workers, over all workers together.
pub open spec fn all_completed(ws: Seq<Worker>) -> Multiset<u128>
    decreases ws.len(),
{
    if ws.len() == 0 {
        Multiset::empty()
    } else {
        all_completed(ws.drop_last()).add(ws.last().completed@.to_multiset())
    }
}

proof fn lemma_all_completed_all_empty(ws: Seq<Worker>)
    requires
        forall|i: int| 0 <= i < ws.len() ==> (#[trigger] ws[i]).completed@.len() == 0,
    ensures
        all_completed(ws) =~= Multiset::empty(),
    decreases ws.len(),
{
    broadcast use group_to_multiset_ensures;

    if ws.len() > 0 {
        lemma_all_completed_all_empty(ws.drop_last());
        assert(ws.last().completed@.to_multiset().len() == 0);
    }
}

proof fn lemma_all_completed_congruent(ws1: Seq<Worker>, ws2: Seq<Worker>)
    requires
        ws1.len() == ws2.len(),
        forall|i: int|
            0 <= i < ws1.len() ==> (#[trigger] ws1[i]).completed@ == (#[trigger] ws2[i]).completed@,
    ensures
        all_completed(ws1) == all_completed(ws2),
    decreases ws1.len(),
{
    if ws1.len() > 0 {
        lemma_all_completed_congruent(ws1.drop_last(), ws2.drop_last());
        assert(ws1.last().completed@ == ws2.last().completed@);
    }
}

proof fn lemma_all_completed_push_one(ws1: Seq<Worker>, ws2: Seq<Worker>, w: int, id: u128)
    requires
        ws1.len() == ws2.len(),
        0 <= w < ws1.len(),
        ws2[w].completed@ == ws1[w].completed@.push(id),
        forall|i: int|
            0 <= i < ws1.len() && i != w ==> (#[trigger] ws1[i]).completed@ == (
            #[trigger] ws2[i]).completed@,
    ensures
        all_completed(ws2) =~= all_completed(ws1).insert(id),
    decreases ws1.len(),
{
    broadcast use group_to_multiset_ensures;

    if w == ws1.len() - 1 {
        lemma_all_completed_congruent(ws1.drop_last(), ws2.drop_last());
        assert(ws2.last().completed@.to_multiset() =~= ws1.last().completed@.to_multiset().insert(
            id,
        ));
    } else {
        lemma_all_completed_push_one(ws1.drop_last(), ws2.drop_last(), w, id);
        assert(ws2.last().completed@ == ws1.last().completed@);
    }
}

impl ThreadPool {
    /// Well-formedness of a pool state: workers are numbered by position,
    /// the accepted history splits into the executed jobs followed by the
    /// queued ones, no worker exits before the queue is closed and drained,
    /// the workers' completion records partition the executed jobs, and a
    /// pool of one worker completes jobs in exactly the dequeue order.
    pub open spec fn wf(self) -> bool {
        &&& self.workers@.len() >= 1
        &&& forall|w: int| 0 <= w < self.workers@.len() ==> (#[trigger] self.workers@[w]).id == w
        &&& self.accepted@ == self.executed@ + self.pending@
        &&& (self.sender_open || self.pending@.len() > 0) ==> forall|w: int|
            0 <= w < self.workers@.len() ==> (#[trigger] self.workers@[w]).live
        &&& all_completed(self.workers@) == self.executed@.to_multiset()
        &&& self.workers@.len() == 1 ==> self.workers@[0].completed@ == self.executed@
    }

    /// Create a pool of `size` workers behind one shared dispatch queue.
    ///
    /// Construction fails exactly on `size == 0`, with `EmptyPool`; for any
    /// positive size the model yields a pool of exactly `size` live workers,
    /// an open queue, and an empty history.
    pub fn build(size: usize) -> (r: Result<ThreadPool, PoolCreationError>)
        ensures
            match r {
                Ok(p) => {
                    &&& size >= 1
                    &&& p.wf()
                    &&& p.workers@.len() == size
                    &&& forall|w: int|
                        0 <= w < size ==> (#[trigger] p.workers@[w]).live && p.workers@[
                            w
                        ].completed@.len() == 0
                    &&& p.sender_open
                    &&& p.pending@.len() == 0
                    &&& p.executed@.len() == 0
                    &&& p.accepted@.len() == 0
                },
                Err(e) => size == 0 && e == PoolCreationError::EmptyPool,
            },
    {
        broadcast use group_to_multiset_ensures;

        if size == 0 {
            return Err(PoolCreationError::EmptyPool);
        }
        let mut workers: Vec<Worker> = Vec::new();
        let mut id: usize = 0;
        while id < size
            invariant
                id <= size,
                workers@.len() == id,
                forall|w: int|
                    0 <= w < id ==> (#[trigger] workers@[w]).id == w && workers@[w].live
                        && workers@[w].completed@.len() == 0,
            decreases size - id,
        {
            workers.push(Worker { id, live: true, completed: Vec::new() });
            id += 1;
        }
        let pool = ThreadPool {
            workers,
            sender_open: true,
            pending: Vec::new(),
            executed: Vec::new(),
            accepted: Ghost(Seq::empty()),
        };
        proof {
            assert(pool.accepted@ =~= pool.executed@ + pool.pending@);
            lemma_all_completed_all_empty(pool.workers@);
            assert(pool.executed@.to_multiset() =~= Multiset::empty());
            if pool.workers@.len() == 1 {
                assert(pool.workers@[0].completed@ =~= pool.executed@);
            }
        }
        Ok(pool)
    }

    /// Submit the job with identifier `id`.
    ///
    /// The job is enqueued if and only if the send side is still open; a
    /// pool that has been torn down accepts nothing and is left unchanged,
    /// so a job submitted after teardown is never executed.
    pub fn execute(&mut self, id: u128) -> (enqueued: bool)
        requires
            old(self).wf(),
        ensures
            final(self).wf(),
            enqueued == old(self).sender_open,
            enqueued ==> {
                &&& final(self).pending@ == old(self).pending@.push(id)
                &&& final(self).accepted@ == old(self).accepted@.push(id)
                &&& final(self).executed@ == old(self).executed@
                &&& final(self).workers@ == old(self).workers@
                &&& final(self).sender_open
            },
            !enqueued ==> *final(self) == *old(self),
    {
        if !self.sender_open {
            return false;
        }
        self.pending.push(id);
        self.accepted = Ghost(self.accepted@.push(id));
        proof {
            assert(self.accepted@ =~= self.executed@ + self.pending@);
        }
        true
    }

    /// One iteration of a worker's loop: worker `w` locks the shared
    /// receive side and takes the next job, or observes the closed, drained
    /// queue and exits.
    ///
    /// `job_panicked` reports whether the job body aborted abnormally. The
    /// contract does not depend on it: a failing job is consumed exactly
    /// like a successful one, the worker stays live, and the jobs behind it
    /// remain queued — failure is isolated at the job boundary.
    ///
    /// The worker would block on an open, empty queue, so that state is
    /// excluded rather than modelled.
    pub fn step_worker(&mut self, w: usize, job_panicked: bool) -> (ran: Option<u128>)
        requires
            old(self).wf(),
            w < old(self).workers@.len(),
            old(self).workers@[w as int].live,
            old(self).pending@.len() > 0 || !old(self).sender_open,
        ensures
            final(self).wf(),
            final(self).workers@.len() == old(self).workers@.len(),
            final(self).sender_open == old(self).sender_open,
            final(self).accepted@ == old(self).accepted@,
            forall|i: int|
                0 <= i < old(self).workers@.len() && i != w ==> final(self).workers@[i] == old(
                    self,
                ).workers@[i],
            old(self).pending@.len() > 0 ==> {
                &&& ran == Some(old(self).pending@[0])
                &&& final(self).pending@ == old(self).pending@.drop_first()
                &&& final(self).executed@ == old(self).executed@.push(old(self).pending@[0])
                &&& final(self).workers@[w as int].id == w
                &&& final(self).workers@[w as int].live
                &&& final(self).workers@[w as int].completed@ == old(self).workers@[
                    w as int
                ].completed@.push(old(self).pending@[0])
            },
            old(self).pending@.len() == 0 ==> {
                &&& ran == None::<u128>
                &&& final(self).pending@ == old(self).pending@
                &&& final(self).executed@ == old(self).executed@
                &&& final(self).workers@[w as int].id == w
                &&& !final(self).workers@[w as int].live
                &&& final(self).workers@[w as int].completed@ == old(self).workers@[
                    w as int
                ].completed@
            },
    {
        broadcast use group_to_multiset_ensures;

        if self.pending.len() > 0 {
            let ghost before = self.workers@;
            let id = self.pending.remove(0);
            self.executed.push(id);
            let wk = &mut self.workers[w];
            wk.completed.push(id);
            proof {
                assert(self.workers@ == before.update(w as int, self.workers@[w as int]));
                lemma_all_completed_push_one(before, self.workers@, w as int, id);
                assert(old(self).pending@ =~= seq![id] + old(self).pending@.drop_first());
                assert(self.accepted@ =~= self.executed@ + self.pending@);
                assert(old(self).pending@.remove(0) =~= old(self).pending@.drop_first());
            }
            Some(id)
        } else {
            let ghost before = self.workers@;
            let wk = &mut self.workers[w];
            wk.live = false;
            proof {
                lemma_all_completed_congruent(before, self.workers@);
            }
            None
        }
    }

    /// Close the send side of the dispatch queue: no further job can be
    /// enqueued; everything already queued stays.
    pub fn close(&mut self)
        requires
            old(self).wf(),
        ensures
            final(self).wf(),
            !final(self).sender_open,
            final(self).pending@ == old(self).pending@,
            final(self).executed@ == old(self).executed@,
            final(self).accepted@ == old(self).accepted@,
            final(self).workers@ == old(self).workers@,
    {
        self.sender_open = false;
    }

    /// Tear the pool down: close the send side, drain every queued job, and
    /// only then let each worker observe end-of-stream and exit, in worker
    /// order. The call returns only once every accepted job has been
    /// executed and every worker has terminated — in-flight and queued work
    /// is never abandoned.
    pub fn teardown(&mut self)
        requires
            old(self).wf(),
        ensures
            final(self).wf(),
            !final(self).sender_open,
            final(self).pending@.len() == 0,
            final(self).accepted@ == old(self).accepted@,
            final(self).executed@ == old(self).accepted@,
            final(self).workers@.len() == old(self).workers@.len(),
            forall|i: int|
                0 <= i < final(self).workers@.len() ==> !(#[trigger] final(self).workers@[i]).live,
    {
        self.close();
        let mut next: usize = 0;
        while self.pending.len() > 0
            invariant
                self.wf(),
                !self.sender_open,
                next < self.workers@.len(),
                self.accepted@ == old(self).accepted@,
                self.workers@.len() == old(self).workers@.len(),
            decreases self.pending@.len(),
        {
            self.step_worker(next, false);
            let worker_count = self.workers.len();
            next = next + 1;
            if next == worker_count {
                next = 0;
            }
        }
        let mut w: usize = 0;
        while w < self.workers.len()
            invariant
                self.wf(),
                !self.sender_open,
                w <= self.workers@.len(),
                self.pending@.len() == 0,
                self.accepted@ == old(self).accepted@,
                self.executed@ == old(self).accepted@,
                self.workers@.len() == old(self).workers@.len(),
                forall|i: int| 0 <= i < w ==> !(#[trigger] self.workers@[i]).live,
            decreases self.workers@.len() - w,
        {
            if self.workers[w].live {
                self.step_worker(w, false);
            }
            w = w + 1;
        }
    }
}

/// Every job the pool accepted is executed exactly once: once the queue is
/// drained, the executed jobs are exactly the accepted ones, in acceptance
/// order, so N accepted jobs mean N executions, and distinct jobs each run
/// exactly once.
pub proof fn lemma_drained_pool_ran_every_job(p: ThreadPool)
    requires
        p.wf(),
        p.pending@.len() == 0,
    ensures
        p.executed@ == p.accepted@,
        p.executed@.len() == p.accepted@.len(),
        forall|id: u128|
            p.executed@.to_multiset().count(id) == p.accepted@.to_multiset().count(id),
{
    assert(p.executed@ =~= p.executed@ + p.pending@);
}

/// A job the pool never accepted is neither executed nor queued; with
/// `execute`'s contract — a closed pool accepts nothing — a job submitted
/// after teardown never runs.
pub proof fn lemma_unaccepted_job_never_runs(p: ThreadPool, id: u128)
    requires
        p.wf(),
        !p.accepted@.contains(id),
    ensures
        !p.executed@.contains(id),
        !p.pending@.contains(id),
{
    assert forall|i: int| 0 <= i < p.executed@.len() implies p.executed@[i] != id by {
        assert(p.accepted@[i] == p.executed@[i]);
    }
    assert forall|i: int| 0 <= i < p.pending@.len() implies p.pending@[i] != id by {
        assert(p.accepted@[p.executed@.len() + i] == p.pending@[i]);
    }
}

/// A pool of a single worker preserves FIFO order: once drained, the one
/// worker's completion log is exactly the accepted history.
pub proof fn lemma_single_worker_fifo(p: ThreadPool)
    requires
        p.wf(),
        p.workers@.len() == 1,
        p.pending@.len() == 0,
    ensures
        p.workers@[0].completed@ == p.accepted@,
{
    lemma_drained_pool_ran_every_job(p);
}

} // verus!
