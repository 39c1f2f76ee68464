use vstd::prelude::*;
use crate::context::ContextError;
use crate::linger::{Linger, Outcome, step_spec};

verus! {

/// A preemption controller behind a poll interface, with the time budget that
/// each poll grants it.
pub struct PreemptiveFuture<T> {
    pub fun: Option<Linger<T>>,
    pub us: u64,
}

/// What one poll tells the scheduler.
pub enum PollResult<T> {
    /// The computation finished, or an operating-system call failed.
    Ready(Result<T, ContextError>),
    /// Not ready; `wake` asks the scheduler to poll again at once.
    Pending { wake: bool },
}

/// The future and poll result that a poll of `f` reaches when the controller's
/// resumption reports `rep`.
pub open spec fn poll_spec<T>(f: PreemptiveFuture<T>, rep: Result<Outcome<T>, ContextError>) -> (
    PreemptiveFuture<T>,
    PollResult<T>,
) {
    match f.fun {
        None => (f, PollResult::Pending { wake: false }),
        Some(l) => match rep {
            Err(e) => (PreemptiveFuture { fun: None, us: f.us }, PollResult::Ready(Err(e))),
            Ok(o) => match step_spec(l, o) {
                Linger::Completion(v) => (
                    PreemptiveFuture { fun: None, us: f.us },
                    PollResult::Ready(Ok(v)),
                ),
                n => (
                    PreemptiveFuture { fun: Some(n), us: f.us },
                    PollResult::Pending { wake: !(n is Yielded) },
                ),
            },
        },
    }
}

/// Wraps a launched controller, or passes on the failure to launch it.
pub fn poll_fn<T>(launched: Result<Linger<T>, ContextError>, us: u64) -> (r: Result<
    PreemptiveFuture<T>,
    ContextError,
>)
    ensures
        match launched {
            Ok(l) => r == Ok::<PreemptiveFuture<T>, ContextError>(PreemptiveFuture { fun: Some(l), us }),
            Err(e) => r == Err::<PreemptiveFuture<T>, ContextError>(e),
        },
{
    match launched {
        Ok(l) => Ok(PreemptiveFuture { fun: Some(l), us }),
        Err(e) => Err(e),
    }
}

impl<T> PreemptiveFuture<T> {
    /// The budget to resume the controller with on this poll, or `None` when no
    /// controller is left and the poll reports pending without running anything.
    pub fn budget(&self) -> (r: Option<u64>)
        ensures
            r == (if self.fun is Some { Some(self.us) } else { None::<u64> }),
    {
        match &self.fun {
            Some(_) => Some(self.us),
            None => None,
        }
    }

    /// Finishes a poll with what resuming the controller reported: a failure or
    /// a return consumes the controller; a timeout keeps it and asks for another
    /// poll at once; a voluntary pause keeps it and waits for an outside wake.
    pub fn finish_poll(&mut self, rep: Result<Outcome<T>, ContextError>) -> (r: PollResult<T>)
        ensures
            (*final(self), r) == poll_spec(*old(self), rep),
    {
        match self.fun.take() {
            None => PollResult::Pending { wake: false },
            Some(l) => match rep {
                Err(e) => PollResult::Ready(Err(e)),
                Ok(o) => match l.record(o) {
                    Linger::Completion(v) => PollResult::Ready(Ok(v)),
                    n => {
                        let wake = !n.yielded();
                        self.fun = Some(n);
                        PollResult::Pending { wake }
                    },
                },
            },
        }
    }
}

/// After a poll whose resumption timed out, the scheduler is asked to poll
/// again at once, and that next poll resumes the same controller with the same
/// budget.
pub proof fn lemma_timeout_requests_poll<T>(f: PreemptiveFuture<T>)
    requires
        (f.fun is Some),
        !(f.fun->0 is Completion),
    ensures
        (poll_spec(f, Ok(Outcome::TimedOut)).1 == PollResult::<T>::Pending { wake: true }),
        (poll_spec(f, Ok(Outcome::TimedOut)).0.fun is Some),
        poll_spec(f, Ok(Outcome::TimedOut)).0.us == f.us,
{
}

/// A voluntary pause never asks for another poll by itself.
pub proof fn lemma_pause_waits<T>(f: PreemptiveFuture<T>)
    requires
        (f.fun is Some),
        !(f.fun->0 is Completion),
    ensures
        (poll_spec(f, Ok(Outcome::Paused)).1 == PollResult::<T>::Pending { wake: false }),
        (poll_spec(f, Ok(Outcome::Paused)).0.fun is Some),
{
}

} // verus!
