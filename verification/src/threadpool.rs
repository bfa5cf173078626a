use vstd::prelude::*;

use crate::worker::Message;
use crate::worker::Worker;
use crate::worker::WorkerState;

verus! {

/// The payloads of the `RunJob` messages of `msgs`, in queue order: the
/// jobs that remain to be handed out once the terminate signals are
/// disregarded.
pub open spec fn jobs_of<J>(msgs: Seq<Message<J>>) -> Seq<J>
    decreases msgs.len(),
{
    if msgs.len() == 0 {
        Seq::empty()
    } else {
        match msgs[0] {
            Message::RunJob(j) => seq![j] + jobs_of(msgs.drop_first()),
            Message::Terminate => jobs_of(msgs.drop_first()),
        }
    }
}

/// A sequence of `n` terminate signals, one per worker of a pool of size
/// `n`: exactly what teardown enqueues.
pub open spec fn terminate_signals<J>(n: nat) -> Seq<Message<J>> {
    Seq::new(n, |i: int| Message::Terminate)
}

/// How many of the workers of `ws` have reached their terminal state.
pub open spec fn num_stopped(ws: Seq<Worker>) -> nat
    decreases ws.len(),
{
    if ws.len() == 0 {
        0
    } else {
        num_stopped(ws.drop_last()) + (if ws.last().state is Stopped {
            1nat
        } else {
            0nat
        })
    }
}

/// Splitting a queue splits its jobs: the jobs of a concatenation are the
/// jobs of the two halves, in order. In particular, appending the
/// terminate signals of teardown behind the already-submitted jobs leaves
/// those jobs — all of them, in submission order — to be handed out.
pub proof fn lemma_jobs_of_concat<J>(a: Seq<Message<J>>, b: Seq<Message<J>>)
    ensures
        jobs_of(a + b) == jobs_of(a) + jobs_of(b),
    decreases a.len(),
{
    if a.len() == 0 {
        assert(a + b =~= b);
        assert(jobs_of(a) + jobs_of(b) =~= jobs_of(b));
    } else {
        assert((a + b).drop_first() =~= a.drop_first() + b);
        lemma_jobs_of_concat(a.drop_first(), b);
        assert(jobs_of(a + b) =~= jobs_of(a) + jobs_of(b));
    }
}

/// Law of submission: enqueueing a job adds exactly one occurrence of that
/// job, behind everything already submitted, to the jobs the queue will
/// hand out. Together with `shutdown`'s guarantee that the drained jobs
/// are exactly `jobs_of` the queue, it follows that a pool built fresh and
/// handed any number of jobs hands back each of them exactly once, in
/// submission order, at teardown.
pub proof fn lemma_jobs_of_push<J>(msgs: Seq<Message<J>>, j: J)
    ensures
        jobs_of(msgs.push(Message::RunJob(j))) == jobs_of(msgs).push(j),
{
    assert(msgs.push(Message::RunJob(j)) =~= msgs + seq![Message::RunJob(j)]);
    lemma_jobs_of_concat(msgs, seq![Message::RunJob(j)]);
    assert(seq![Message::RunJob(j)].drop_first() =~= Seq::<Message<J>>::empty());
    assert(seq![Message::RunJob(j)][0] == Message::RunJob(j));
    assert(jobs_of(seq![Message::RunJob(j)]) == seq![j] + jobs_of(
        Seq::<Message<J>>::empty(),
    ));
    assert(jobs_of(seq![Message::RunJob(j)]) =~= seq![j]);
    assert(jobs_of(msgs) + seq![j] =~= jobs_of(msgs).push(j));
}

/// Terminate signals carry no work: a queue of nothing but terminate
/// signals has no jobs left to hand out.
pub proof fn lemma_jobs_of_terminate_signals<J>(n: nat)
    ensures
        jobs_of(terminate_signals::<J>(n)) == Seq::<J>::empty(),
    decreases n,
{
    if n > 0 {
        assert(terminate_signals::<J>(n).drop_first() =~= terminate_signals::<J>(
            (n - 1) as nat,
        ));
        lemma_jobs_of_terminate_signals::<J>((n - 1) as nat);
    }
}

/// Once every worker of `ws` has stopped, the count of stopped workers is
/// the whole worker set.
pub proof fn lemma_num_stopped_all(ws: Seq<Worker>)
    requires
        forall|i: int| 0 <= i < ws.len() ==> ws[i].state is Stopped,
    ensures
        num_stopped(ws) == ws.len(),
    decreases ws.len(),
{
    if ws.len() > 0 {
        lemma_num_stopped_all(ws.drop_last());
    }
}

/// A fixed set of workers sharing one FIFO queue of messages. `workers`
/// holds the lifecycle state of each worker; `queue` holds, front first,
/// the messages enqueued but not yet taken by any worker. Submission pushes
/// at the back; workers race for the front, so which worker takes a given
/// message is the caller's choice here, but the combined order of messages
/// is FIFO across all producers.
pub struct ThreadPool<J> {
    workers: Vec<Worker>,
    queue: Vec<Message<J>>,
}

impl<J> ThreadPool<J> {
    /// The workers of the pool, indexed by worker id.
    pub closed spec fn spec_workers(&self) -> Seq<Worker> {
        self.workers@
    }

    /// The messages enqueued and not yet taken, front first.
    pub closed spec fn pending(&self) -> Seq<Message<J>> {
        self.queue@
    }

    /// The fixed number of workers the pool was built with.
    pub open spec fn size(&self) -> nat {
        self.spec_workers().len()
    }

    pub open spec fn running(&self, i: int) -> bool {
        self.spec_workers()[i].state is Running
    }

    /// Structural well-formedness: a pool always has at least one worker,
    /// and worker ids are their indices.
    pub open spec fn wf(&self) -> bool {
        &&& self.size() >= 1
        &&& forall|i: int| 0 <= i < self.size() ==> self.spec_workers()[i].id == i
    }

    /// Teardown has not begun: every worker is still running and nothing
    /// but jobs has been enqueued. Submission is supported only in this
    /// state; submitting to a pool whose teardown has begun is a
    /// programming-order violation, not a recoverable condition.
    pub open spec fn accepting(&self) -> bool {
        &&& forall|i: int| 0 <= i < self.size() ==> self.running(i)
        &&& forall|i: int| 0 <= i < self.pending().len() ==> self.pending()[i] is RunJob
    }

    /// Build a pool of `size` workers, all running, sharing an initially
    /// empty queue. Zero workers could never drain submitted work, so a
    /// zero size is ruled out from the start; `try_new` is the checked
    /// form of construction.
    pub fn new(size: usize) -> (pool: ThreadPool<J>)
        requires
            size >= 1,
        ensures
            pool.wf(),
            pool.accepting(),
            pool.size() == size,
            pool.pending() == Seq::<Message<J>>::empty(),
    {
        let mut workers: Vec<Worker> = Vec::new();
        for id in 0..size
            invariant
                workers@.len() == id,
                forall|i: int| 0 <= i < id ==> workers@[i].id == i,
                forall|i: int| 0 <= i < id ==> workers@[i].state is Running,
        {
            workers.push(Worker::new(id));
        }
        ThreadPool { workers, queue: Vec::new() }
    }

    /// Checked construction: a pool is produced exactly when the requested
    /// size is positive; a request for zero workers fails instead of
    /// silently producing a pool with no capacity.
    pub fn try_new(size: usize) -> (r: Option<ThreadPool<J>>)
        ensures
            match r {
                Some(pool) => {
                    &&& size >= 1
                    &&& pool.wf()
                    &&& pool.accepting()
                    &&& pool.size() == size
                    &&& pool.pending() == Seq::<Message<J>>::empty()
                },
                None => size == 0,
            },
    {
        if size == 0 {
            None
        } else {
            Some(ThreadPool::new(size))
        }
    }

    /// Submit a job. The job is wrapped as a message and enqueued at the
    /// back of the shared queue, fire-and-forget: the call returns once the
    /// job is enqueued, not once it has run, and never waits on execution.
    pub fn execute(&mut self, f: J)
        requires
            old(self).accepting(),
        ensures
            final(self).spec_workers() == old(self).spec_workers(),
            final(self).pending() == old(self).pending().push(Message::RunJob(f)),
            final(self).accepting(),
    {
        self.dispatch_job(f);
        proof {
            assert forall|i: int| 0 <= i < self.pending().len() implies self.pending()[i]
                is RunJob by {
                if i < self.pending().len() - 1 {
                    assert(self.pending()[i] == old(self).pending()[i]);
                }
            }
            assert forall|i: int| 0 <= i < self.size() implies self.running(i) by {
                assert(old(self).running(i));
            }
        }
    }

    fn dispatch_job(&mut self, f: J)
        ensures
            final(self).spec_workers() == old(self).spec_workers(),
            final(self).pending() == old(self).pending().push(Message::RunJob(f)),
    {
        let msg = Message::RunJob(f);
        self.queue.push(msg);
    }

    /// The first phase of teardown: enqueue exactly one terminate signal
    /// per worker, behind everything already enqueued. Since the queue is
    /// FIFO and each worker stops upon taking exactly one of these, every
    /// job submitted before teardown is still handed out, and every worker
    /// is reached by exactly one signal.
    pub fn send_terminates(&mut self)
        ensures
            final(self).spec_workers() == old(self).spec_workers(),
            final(self).pending() == old(self).pending() + terminate_signals::<J>(
                old(self).size(),
            ),
    {
        let n = self.workers.len();
        for k in 0..n
            invariant
                self.workers@ == old(self).workers@,
                n == old(self).size(),
                self.queue@ == old(self).queue@ + terminate_signals::<J>(k as nat),
        {
            assert(terminate_signals::<J>((k + 1) as nat) == terminate_signals::<J>(
                k as nat,
            ).push(Message::Terminate)) by {
                assert(terminate_signals::<J>((k + 1) as nat) =~= terminate_signals::<J>(
                    k as nat,
                ).push(Message::Terminate));
            }
            self.queue.push(Message::Terminate);
            assert(self.queue@ =~= old(self).queue@ + terminate_signals::<J>((k + 1) as nat));
        }
    }

    /// One dequeue: the running worker at index `widx` takes the message at
    /// the front of the queue. Which running worker takes the next message
    /// is deliberately the caller's choice — in a live pool idle workers
    /// race for it and the winner is unspecified. A job is handed back for
    /// that worker's execution context to run; a terminate signal stops the
    /// worker and hands nothing back. No other worker and no other message
    /// is touched.
    pub fn step(&mut self, widx: usize) -> (job: Option<J>)
        requires
            widx < old(self).size(),
            old(self).running(widx as int),
            old(self).pending().len() >= 1,
        ensures
            final(self).pending() == old(self).pending().drop_first(),
            final(self).size() == old(self).size(),
            final(self).spec_workers()[widx as int].id == old(self).spec_workers()[
                widx as int
            ].id,
            forall|i: int|
                0 <= i < old(self).size() && i != widx ==> final(self).spec_workers()[i] == old(
                    self,
                ).spec_workers()[i],
            match old(self).pending()[0] {
                Message::RunJob(j) => {
                    &&& job == Some(j)
                    &&& final(self).spec_workers() == old(self).spec_workers()
                },
                Message::Terminate => {
                    &&& job is None
                    &&& final(self).spec_workers()[widx as int].state is Stopped
                },
            },
    {
        let msg = self.queue.remove(0);
        proof {
            assert(self.queue@ =~= old(self).queue@.drop_first());
        }
        self.workers[widx].receive(msg)
    }

    /// Teardown. Exactly one terminate signal per worker is enqueued behind
    /// the pending jobs, and the whole queue is then drained: every job
    /// submitted before teardown is handed out exactly once, in submission
    /// order, and every worker takes exactly one terminate signal and
    /// stops. The call returns only once the queue is empty and all
    /// `size()` workers have stopped, so a partial teardown is never
    /// observable. The jobs handed out are returned for the workers'
    /// execution contexts to run.
    pub fn shutdown(&mut self) -> (ran: Vec<J>)
        requires
            old(self).wf(),
            old(self).accepting(),
        ensures
            final(self).wf(),
            final(self).size() == old(self).size(),
            ran@ == jobs_of(old(self).pending()),
            final(self).pending() == Seq::<Message<J>>::empty(),
            forall|i: int|
                0 <= i < final(self).size() ==> final(self).spec_workers()[i].state is Stopped,
            num_stopped(final(self).spec_workers()) == old(self).size(),
    {
        let ghost orig_jobs = jobs_of(old(self).pending());
        let n = self.workers.len();
        self.send_terminates();
        proof {
            lemma_jobs_of_concat(old(self).pending(), terminate_signals::<J>(n as nat));
            lemma_jobs_of_terminate_signals::<J>(n as nat);
            assert(jobs_of(self.pending()) =~= orig_jobs);
            assert forall|i: int| 0 <= i < n implies self.spec_workers()[i].state
                is Running by {
                assert(old(self).running(i));
            }
        }
        let mut ran: Vec<J> = Vec::new();
        let mut stopped: usize = 0;
        while self.queue.len() > 0
            invariant
                stopped <= n,
                n >= 1,
                n == self.size(),
                forall|i: int| 0 <= i < n ==> self.spec_workers()[i].id == i,
                forall|i: int| 0 <= i < stopped ==> self.spec_workers()[i].state is Stopped,
                forall|i: int| stopped <= i < n ==> self.spec_workers()[i].state is Running,
                n - stopped <= self.pending().len(),
                forall|i: int|
                    0 <= i < self.pending().len() - (n - stopped) ==> self.pending()[i]
                        is RunJob,
                forall|i: int|
                    self.pending().len() - (n - stopped) <= i < self.pending().len()
                        ==> self.pending()[i] is Terminate,
                stopped > 0 ==> self.pending().len() == n - stopped,
                ran@ + jobs_of(self.pending()) == orig_jobs,
            decreases self.queue@.len(),
        {
            let ghost before = self.pending();
            let ghost workers_before = self.spec_workers();
            let widx = stopped;
            proof {
                if stopped == n {
                    assert(self.pending().len() == 0);
                }
            }
            match self.step(widx) {
                Some(job) => {
                    proof {
                        assert(before[0] is RunJob);
                        assert(jobs_of(before) =~= seq![job] + jobs_of(before.drop_first()));
                        assert(ran@.push(job) + jobs_of(self.pending()) =~= ran@ + jobs_of(
                            before,
                        ));
                    }
                    ran.push(job);
                },
                None => {
                    proof {
                        assert forall|i: int| stopped + 1 <= i < n implies self.spec_workers()[
                            i
                        ].state is Running by {
                            assert(self.spec_workers()[i] == workers_before[i]);
                        }
                        assert(before[0] is Terminate);
                        assert(before.len() - (n - stopped) <= 0);
                        assert(before =~= terminate_signals::<J>((n - stopped) as nat));
                        lemma_jobs_of_terminate_signals::<J>((n - stopped) as nat);
                        assert(self.pending() =~= terminate_signals::<J>(
                            (n - stopped - 1) as nat,
                        ));
                        lemma_jobs_of_terminate_signals::<J>((n - stopped - 1) as nat);
                        assert(ran@ + jobs_of(self.pending()) =~= orig_jobs);
                    }
                    stopped = stopped + 1;
                },
            }
        }
        proof {
            assert(stopped == n);
            assert(ran@ =~= ran@ + jobs_of(self.pending()));
            assert(self.pending() =~= Seq::<Message<J>>::empty());
            lemma_num_stopped_all(self.spec_workers());
        }
        ran
    }

    /// The number of workers the pool was built with.
    pub fn worker_count(&self) -> (r: usize)
        ensures
            r == self.size(),
    {
        self.workers.len()
    }

    /// How many messages are enqueued and not yet taken by any worker.
    pub fn pending_count(&self) -> (r: usize)
        ensures
            r == self.pending().len(),
    {
        self.queue.len()
    }

    /// How many workers have made their terminal transition. At the return
    /// of `shutdown` on a pool of size `n` this is exactly `n`.
    pub fn stopped_count(&self) -> (r: usize)
        ensures
            r == num_stopped(self.spec_workers()),
    {
        let mut count: usize = 0;
        let n = self.workers.len();
        for k in 0..n
            invariant
                n == self.workers@.len(),
                count == num_stopped(self.workers@.take(k as int)),
                count <= k,
        {
            proof {
                assert(self.workers@.take(k + 1).drop_last() =~= self.workers@.take(k as int));
                assert(self.workers@.take(k + 1).last() == self.workers@[k as int]);
            }
            if matches!(self.workers[k].state, WorkerState::Stopped) {
                count = count + 1;
            }
        }
        proof {
            assert(self.workers@.take(n as int) =~= self.workers@);
        }
        count
    }
}

} // verus!
