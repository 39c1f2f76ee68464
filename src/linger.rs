use vstd::prelude::*;

verus! {

/// The externally visible state of a preemption controller.
pub enum Linger<T> {
    /// The closure has not returned; it was launched or cut off by the timer.
    Running,
    /// The closure paused of its own accord, waiting on something else.
    Yielded,
    /// The closure returned this value.
    Completion(T),
}

/// What one slice of execution of the closure ended with.
pub enum Outcome<T> {
    /// The closure returned.
    Returned(T),
    /// The closure called the pause primitive.
    Paused,
    /// The timer fired before the closure returned or paused.
    TimedOut,
}

/// The state that a controller in state `s` reaches when a slice ends with `o`.
pub open spec fn step_spec<T>(s: Linger<T>, o: Outcome<T>) -> Linger<T> {
    match s {
        Linger::Completion(v) => Linger::Completion(v),
        _ => match o {
            Outcome::Returned(v) => Linger::Completion(v),
            Outcome::Paused => Linger::Yielded,
            Outcome::TimedOut => Linger::Running,
        },
    }
}

impl<T> Linger<T> {
    /// A freshly launched controller, whose closure has not returned yet.
    pub fn launched() -> (r: Linger<T>)
        ensures
            (r is Running),
    {
        Linger::Running
    }

    /// True exactly when the last slice ended in a voluntary pause; false after
    /// a timeout and after completion.
    pub fn yielded(&self) -> (r: bool)
        ensures
            r == (*self is Yielded),
    {
        match self {
            Linger::Yielded => true,
            _ => false,
        }
    }

    /// True once the closure has returned.
    pub fn is_completion(&self) -> (r: bool)
        ensures
            r == (*self is Completion),
    {
        match self {
            Linger::Completion(_) => true,
            _ => false,
        }
    }

    /// The time budget to arm the timer with before switching into the
    /// closure, or `None` when the controller has completed and resuming it
    /// does nothing.
    pub fn plan_resume(&self, budget_us: u64) -> (r: Option<u64>)
        ensures
            r == (if *self is Completion { None::<u64> } else { Some(budget_us) }),
    {
        match self {
            Linger::Completion(_) => None,
            _ => Some(budget_us),
        }
    }

    /// Records how a slice of execution ended. A completed controller stays
    /// as it is.
    pub fn record(self, o: Outcome<T>) -> (r: Linger<T>)
        ensures
            r == step_spec(self, o),
    {
        match self {
            Linger::Completion(v) => Linger::Completion(v),
            _ => match o {
                Outcome::Returned(v) => Linger::Completion(v),
                Outcome::Paused => Linger::Yielded,
                Outcome::TimedOut => Linger::Running,
            },
        }
    }

    /// Whether the auxiliary stack may be reclaimed: only once the closure has
    /// returned, never while it is suspended on that stack.
    pub fn may_reclaim_stack(&self) -> (r: bool)
        ensures
            r == (*self is Completion),
    {
        self.is_completion()
    }
}

/// A closure that returns completes the controller, and every later slice
/// leaves that completion as it is, whatever it reports.
pub proof fn lemma_completion_is_final<T>(s: Linger<T>, v: T, later: Outcome<T>)
    requires
        !(s is Completion),
    ensures
        step_spec(s, Outcome::Returned(v)) == Linger::Completion(v),
        step_spec(step_spec(s, Outcome::Returned(v)), later) == Linger::Completion(v),
{
}

/// A timeout leaves the controller running and not yielded; a voluntary pause
/// leaves it yielded; a slice that ends in a return never reads as a timeout.
pub proof fn lemma_timeout_differs_from_pause<T>(s: Linger<T>, v: T)
    requires
        !(s is Completion),
    ensures
        (step_spec(s, Outcome::TimedOut) is Running),
        (step_spec(s, Outcome::Paused) is Yielded),
        (step_spec(s, Outcome::Returned(v)) is Completion),
{
}

} // verus!
