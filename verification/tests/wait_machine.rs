//! Tests driving the per-call wait state machine through the scenarios the
//! design calls for, with the blocking layer played by the test.

use wait_timeout::registry::Registry;
use wait_timeout::wait::{
    classify_reap, classify_select, Action, Event, ReapOutcome, SelectClass, WaitCall,
};
use wait_timeout::ExitStatus;

#[test]
fn classify_reap_outcomes() {
    assert_eq!(classify_reap(0, 0, 7), ReapOutcome::StillRunning);
    assert_eq!(classify_reap(-1, 0, 7), ReapOutcome::Failed);
    let reaped = classify_reap(7, 9, 7);
    assert_eq!(reaped, ReapOutcome::Exited(ExitStatus::from_raw(9)));
}

#[test]
fn classify_select_outcomes() {
    assert_eq!(classify_select(0), SelectClass::TimedOut);
    assert_eq!(classify_select(1), SelectClass::Ready);
    assert_eq!(classify_select(2), SelectClass::Ready);
    assert_eq!(classify_select(-1), SelectClass::Failed);
}

#[test]
fn already_exited_child_resolves_at_once_even_with_zero_timeout() {
    // The child exited before the call; the deadline is already past. The
    // initial probe still reports the status, with no blocking step at all.
    let st = ExitStatus::from_raw(0);
    let mut call = WaitCall::new(0);
    assert_eq!(call.action(), Action::Probe);
    call.step(Event::Probed(ReapOutcome::Exited(st)));
    assert_eq!(call.action(), Action::Return(Some(st)));
}

#[test]
fn already_exited_child_resolves_the_same_under_a_long_timeout() {
    // The result does not depend on the magnitude of the timeout.
    let st = ExitStatus::from_raw(2 << 8);
    for end_ns in [0u64, 1, 100_000_000, u64::MAX] {
        let mut call = WaitCall::new(end_ns);
        call.step(Event::Probed(ReapOutcome::Exited(st)));
        assert_eq!(call.action(), Action::Return(Some(st)));
    }
}

#[test]
fn zero_timeout_on_a_running_child_returns_none_without_blocking() {
    // Deadline equal to the start of the call: the machine probes, subscribes,
    // reads the clock once, and leaves the loop without ever asking to block.
    let mut reg = Registry::new();
    let mut call = WaitCall::new(100);

    assert_eq!(call.action(), Action::Probe);
    call.step(Event::Probed(ReapOutcome::StillRunning));

    assert_eq!(call.action(), Action::Subscribe);
    reg.subscribe(7, 42);
    call.step(Event::Subscribed);

    assert_eq!(call.action(), Action::ReadClock);
    call.step(Event::Clock(101));

    assert_eq!(call.action(), Action::Unsubscribe);
    let taken = reg.unsubscribe_and_take(7);
    call.step(Event::Took(taken));

    assert_eq!(call.action(), Action::Return(None));
}

#[test]
fn sleeping_child_times_out() {
    // A child that sleeps far past the deadline: the multiplexed read runs
    // the full remaining time, reports its own timeout, and the call returns
    // empty. The blocking budget equals exactly the time remaining.
    let mut reg = Registry::new();
    let deadline = 100_000_000u64; // 100ms after a clock start of 0
    let mut call = WaitCall::new(deadline);

    call.step(Event::Probed(ReapOutcome::StillRunning));
    reg.subscribe(7, 42);
    call.step(Event::Subscribed);

    call.step(Event::Clock(0));
    assert_eq!(call.action(), Action::Select { timeout_ns: 100_000_000 });
    call.step(Event::SelectOutcome(SelectClass::TimedOut));

    assert_eq!(call.action(), Action::Drain);
    call.step(Event::Drained { own_notified: false });

    assert_eq!(call.action(), Action::Unsubscribe);
    let taken = reg.unsubscribe_and_take(7);
    call.step(Event::Took(taken));
    assert_eq!(call.action(), Action::Return(None));
}

#[test]
fn spurious_wakeups_shrink_the_remaining_time() {
    // Wakeups for other children's traffic loop back; each new blocking
    // budget is recomputed from the fixed absolute deadline, so it shrinks.
    let mut call = WaitCall::new(100_000_000);
    call.step(Event::Probed(ReapOutcome::StillRunning));
    call.step(Event::Subscribed);

    call.step(Event::Clock(0));
    assert_eq!(call.action(), Action::Select { timeout_ns: 100_000_000 });
    call.step(Event::SelectOutcome(SelectClass::Ready));
    call.step(Event::Drained { own_notified: false });

    assert_eq!(call.action(), Action::ReadClock);
    call.step(Event::Clock(40_000_000));
    assert_eq!(call.action(), Action::Select { timeout_ns: 60_000_000 });

    // An interrupted read retries transparently through the loop top too.
    call.step(Event::Interrupted);
    assert_eq!(call.action(), Action::ReadClock);
    call.step(Event::Clock(70_000_000));
    assert_eq!(call.action(), Action::Select { timeout_ns: 30_000_000 });
}

#[test]
fn resolved_through_own_channel_returns_the_registry_status() {
    // Another thread's drain resolved this child and notified our channel.
    let mut reg = Registry::new();
    let mut call = WaitCall::new(1_000_000_000);
    call.step(Event::Probed(ReapOutcome::StillRunning));
    reg.subscribe(7, 42);
    call.step(Event::Subscribed);

    call.step(Event::Clock(0));
    // Some child exited: the global channel fires, the drain re-probes the
    // pending ids and resolves ours.
    call.step(Event::SelectOutcome(SelectClass::Ready));
    assert_eq!(call.action(), Action::Drain);
    let pending = reg.pending_ids();
    assert_eq!(pending, vec![7]);
    let st = ExitStatus::from_raw(0);
    let fd = reg.resolve(7, st);
    assert_eq!(fd, 42);
    call.step(Event::Drained { own_notified: true });

    assert_eq!(call.action(), Action::Unsubscribe);
    let taken = reg.unsubscribe_and_take(7);
    call.step(Event::Took(taken));
    assert_eq!(call.action(), Action::Return(Some(st)));
}

#[test]
fn waiting_again_after_a_timeout_eventually_sees_the_status() {
    // First call times out and leaves the child subscribable; a second call
    // on the same child is safe and returns the status once the child exits.
    let mut reg = Registry::new();

    let mut first = WaitCall::new(10);
    first.step(Event::Probed(ReapOutcome::StillRunning));
    reg.subscribe(7, 42);
    first.step(Event::Subscribed);
    first.step(Event::Clock(11));
    let taken = reg.unsubscribe_and_take(7);
    first.step(Event::Took(taken));
    assert_eq!(first.action(), Action::Return(None));
    assert!(!reg.contains(7));

    // By the second call the child has exited: the initial probe reaps it.
    let st = ExitStatus::from_raw(0);
    let mut second = WaitCall::new(1_000);
    second.step(Event::Probed(ReapOutcome::Exited(st)));
    assert_eq!(second.action(), Action::Return(Some(st)));
}

#[test]
fn failed_probe_reports_an_error() {
    // No such child, or it was already reaped elsewhere.
    let mut call = WaitCall::new(1_000);
    call.step(Event::Probed(ReapOutcome::Failed));
    assert_eq!(call.action(), Action::Fail);
}

#[test]
fn concurrent_waiters_do_not_observe_each_others_children() {
    // Two calls on distinct children share the registry. Child 200 exits;
    // the waiter for 100 wakes on the global traffic, loops, and times out
    // with its own result empty, while the waiter for 200 gets its status.
    let mut reg = Registry::new();

    let mut call_a = WaitCall::new(50);
    call_a.step(Event::Probed(ReapOutcome::StillRunning));
    reg.subscribe(100, 1);
    call_a.step(Event::Subscribed);

    let mut call_b = WaitCall::new(1_000_000);
    call_b.step(Event::Probed(ReapOutcome::StillRunning));
    reg.subscribe(200, 2);
    call_b.step(Event::Subscribed);

    // Child 200 exits; whichever waiter drains the global channel resolves it.
    call_a.step(Event::Clock(0));
    call_a.step(Event::SelectOutcome(SelectClass::Ready));
    let st_b = ExitStatus::from_raw(7 << 8);
    let fd = reg.resolve(200, st_b);
    assert_eq!(fd, 2);
    call_a.step(Event::Drained { own_notified: false });

    // Waiter A loops and then times out; its own entry never saw a status.
    call_a.step(Event::Clock(60));
    let taken_a = reg.unsubscribe_and_take(100);
    call_a.step(Event::Took(taken_a));
    assert_eq!(call_a.action(), Action::Return(None));

    // Waiter B was notified through its own channel and gets child 200's
    // status, untouched by waiter A's traffic.
    call_b.step(Event::Clock(0));
    call_b.step(Event::SelectOutcome(SelectClass::Ready));
    call_b.step(Event::Drained { own_notified: true });
    let taken_b = reg.unsubscribe_and_take(200);
    call_b.step(Event::Took(taken_b));
    assert_eq!(call_b.action(), Action::Return(Some(st_b)));
}
