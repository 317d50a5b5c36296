//! Tests for the waiter registry.

use wait_timeout::registry::Registry;
use wait_timeout::ExitStatus;

#[test]
fn subscribe_then_take_empty() {
    let mut reg = Registry::new();
    assert!(!reg.contains(7));
    reg.subscribe(7, 42);
    assert!(reg.contains(7));
    // Nothing was resolved: the take reports a timeout-shaped empty status.
    let taken = reg.unsubscribe_and_take(7);
    assert_eq!(taken, None);
    assert!(!reg.contains(7));
}

#[test]
fn resolve_records_status_and_returns_wake_descriptor() {
    let mut reg = Registry::new();
    reg.subscribe(7, 42);
    let st = ExitStatus::from_raw(0);
    let fd = reg.resolve(7, st);
    assert_eq!(fd, 42);
    let taken = reg.unsubscribe_and_take(7);
    assert_eq!(taken, Some(st));
}

#[test]
fn pending_ids_lists_exactly_the_unresolved_entries() {
    let mut reg = Registry::new();
    assert!(reg.pending_ids().is_empty());
    reg.subscribe(1, 10);
    reg.subscribe(2, 20);
    reg.subscribe(3, 30);
    let mut pending = reg.pending_ids();
    pending.sort();
    assert_eq!(pending, vec![1, 2, 3]);

    reg.resolve(2, ExitStatus::from_raw(0));
    let mut pending = reg.pending_ids();
    pending.sort();
    assert_eq!(pending, vec![1, 3]);

    reg.resolve(1, ExitStatus::from_raw(9));
    reg.resolve(3, ExitStatus::from_raw(1 << 8));
    assert!(reg.pending_ids().is_empty());
}

#[test]
fn waiters_on_distinct_children_stay_isolated() {
    // Two waiters; resolving one child never leaks into the other's entry.
    let mut reg = Registry::new();
    reg.subscribe(100, 1);
    reg.subscribe(200, 2);

    let st100 = ExitStatus::from_raw(2 << 8);
    let fd = reg.resolve(100, st100);
    assert_eq!(fd, 1);

    // The other waiter still sees no status for its own child.
    let taken200 = reg.unsubscribe_and_take(200);
    assert_eq!(taken200, None);

    // And the resolved waiter sees exactly the status recorded for its child.
    let taken100 = reg.unsubscribe_and_take(100);
    assert_eq!(taken100, Some(st100));
}

#[test]
fn unsubscribe_frees_the_id_for_a_later_wait() {
    // A wait that timed out removes its entry; waiting again on the same
    // child subscribes afresh and can then be resolved.
    let mut reg = Registry::new();
    reg.subscribe(7, 42);
    assert_eq!(reg.unsubscribe_and_take(7), None);
    assert!(!reg.contains(7));

    reg.subscribe(7, 43);
    assert!(reg.contains(7));
    let st = ExitStatus::from_raw(0);
    let fd = reg.resolve(7, st);
    assert_eq!(fd, 43);
    assert_eq!(reg.unsubscribe_and_take(7), Some(st));
}
