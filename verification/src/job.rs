use vstd::prelude::*;

verus! {

/// A type-erased, invoke-once unit of deferred work. A `Job` value owns its
/// captured state, moves from submitter to queue to exactly one worker, and
/// is consumed by the single invocation of `execute`.
pub trait Executor: Sized {
    /// When the job may be invoked.
    spec fn ready(&self) -> bool;

    /// What holds of the job's effect once it has been invoked.
    spec fn completed(&self) -> bool;

    /// Run the job to completion, consuming it. Ownership of `self` is what
    /// makes a second invocation impossible.
    fn execute(self)
        requires
            self.ready(),
        ensures
            self.completed(),
    ;
}

/// Any invoke-once callable is a job: its precondition is the callable's own
/// precondition, and completing it establishes the callable's postcondition.
impl<F: FnOnce()> Executor for F {
    open spec fn ready(&self) -> bool {
        call_requires(*self, ())
    }

    open spec fn completed(&self) -> bool {
        call_ensures(*self, (), ())
    }

    fn execute(self) {
        self()
    }
}

} // verus!
