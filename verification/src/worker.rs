use vstd::prelude::*;

pub use crate::job::Executor;

verus! {

/// The element type of the work queue: either a job to run or the one-shot
/// signal that tells the receiving worker to stop. Each message is consumed
/// exactly once, by exactly one worker.
pub enum Message<J> {
    RunJob(J),
    Terminate,
}

/// The two states of a worker's lifecycle. A worker is `Running` from its
/// creation until it receives `Terminate`; `Stopped` is terminal, and a
/// stopped worker never receives another message and never resumes.
pub enum WorkerState {
    Running,
    Stopped,
}

/// One long-lived consumer of the shared work queue. The execution context
/// that a worker stands for (in a live pool, its own thread) repeatedly
/// takes the next message and feeds it to `receive`; `state` records where
/// in its lifecycle the worker is.
pub struct Worker {
    pub id: usize,
    pub state: WorkerState,
}

impl Worker {
    pub fn new(id: usize) -> (w: Worker)
        ensures
            w.id == id,
            w.state is Running,
    {
        Worker { id, state: WorkerState::Running }
    }

    /// One iteration of the worker loop: act on the next message taken from
    /// the queue. A job is handed back to the caller to run on this worker's
    /// execution context, and the worker stays `Running`; `Terminate` moves
    /// the worker to `Stopped`, its terminal state, and hands nothing back.
    /// Only a running worker ever takes a message: a worker never receives
    /// more than one `Terminate` and never runs again after stopping.
    pub fn receive<J>(&mut self, message: Message<J>) -> (job: Option<J>)
        requires
            old(self).state is Running,
        ensures
            final(self).id == old(self).id,
            match message {
                Message::RunJob(j) => final(self).state is Running && job == Some(j),
                Message::Terminate => final(self).state is Stopped && job is None,
            },
    {
        match message {
            Message::RunJob(j) => Some(j),
            Message::Terminate => {
                self.state = WorkerState::Stopped;
                None
            },
        }
    }
}

} // verus!
