use libinger::context::{check_stack, ContextError};
use libinger::future::{poll_fn, PollResult, PreemptiveFuture};
use libinger::linger::{Linger, Outcome};

#[test]
fn completion_stays_completion() {
    let l: Linger<u32> = Linger::launched();
    assert!(!l.is_completion());
    let l = l.record(Outcome::Returned(7));
    assert!(matches!(l, Linger::Completion(7)));
    let l = l.record(Outcome::TimedOut);
    assert!(matches!(l, Linger::Completion(7)));
    assert_eq!(l.plan_resume(0), None);
    assert!(l.may_reclaim_stack());
}

#[test]
fn timeout_and_pause_are_told_apart() {
    let l: Linger<u32> = Linger::launched();
    let l = l.record(Outcome::TimedOut);
    assert!(matches!(l, Linger::Running));
    assert!(!l.yielded());
    assert_eq!(l.plan_resume(50), Some(50));
    assert!(!l.may_reclaim_stack());
    let l = l.record(Outcome::Paused);
    assert!(l.yielded());
}

#[test]
fn counter_closure_completes_in_one_zero_budget_resume() {
    let mut counter = 0u32;
    let l: Linger<()> = Linger::launched();
    assert_eq!(l.plan_resume(0), Some(0));
    counter += 1;
    let l = l.record(Outcome::Returned(()));
    assert_eq!(counter, 1);
    assert!(matches!(l, Linger::Completion(())));
}

#[test]
fn poll_after_timeout_wakes_at_once() {
    let mut f: PreemptiveFuture<u8> = poll_fn(Ok(Linger::launched()), 100).unwrap();
    assert_eq!(f.budget(), Some(100));
    assert!(matches!(f.finish_poll(Ok(Outcome::TimedOut)), PollResult::Pending { wake: true }));
    assert_eq!(f.budget(), Some(100));
    assert!(matches!(f.finish_poll(Ok(Outcome::Paused)), PollResult::Pending { wake: false }));
    assert!(matches!(f.finish_poll(Ok(Outcome::Returned(3))), PollResult::Ready(Ok(3))));
    assert_eq!(f.budget(), None);
    assert!(matches!(f.finish_poll(Ok(Outcome::TimedOut)), PollResult::Pending { wake: false }));
}

#[test]
fn poll_failure_is_terminal() {
    let mut f: PreemptiveFuture<u8> = poll_fn(Ok(Linger::launched()), 5).unwrap();
    let r = f.finish_poll(Err(ContextError::Platform(4)));
    assert!(matches!(r, PollResult::Ready(Err(ContextError::Platform(4)))));
    assert!(f.fun.is_none());
    let g: Result<PreemptiveFuture<u8>, ContextError> = poll_fn(Err(ContextError::Platform(11)), 5);
    assert!(matches!(g, Err(ContextError::Platform(11))));
}

#[test]
fn short_stack_is_refused() {
    assert_eq!(check_stack(2047, 2048), Err(ContextError::StackTooSmall));
    assert_eq!(check_stack(2048, 2048), Ok(()));
}
