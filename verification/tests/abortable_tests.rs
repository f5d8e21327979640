//! The supervisor: one shutdown signal, one teardown, each cleanup once.

use ledger_node::abortable::{
    AbortReason, AbortableSpawner, CleanupState, TaskStatus, errors_logged_on,
};

#[test]
fn test_shutdown_fires_once() {
    let mut sp = AbortableSpawner::new();
    let a = sp.spawn_abortable();
    let b = sp.spawn_abortable();
    sp.with_cleanup(a);
    sp.with_cleanup(b);

    sp.fire(AbortReason::Interrupted);
    assert_eq!(sp.teardowns, 1);
    assert_eq!(sp.abort_reason(), Some(AbortReason::Interrupted));

    // firing again — whatever the reason — produces no second teardown
    sp.fire(AbortReason::ChildTerminated);
    sp.fire(AbortReason::Interrupted);
    assert_eq!(sp.teardowns, 1);
    assert_eq!(sp.abort_reason(), Some(AbortReason::Interrupted));
}

#[test]
fn test_cleanups_run_exactly_once() {
    let mut sp = AbortableSpawner::new();
    let a = sp.spawn_abortable();
    let b = sp.spawn_abortable();
    let c = sp.spawn_abortable();
    sp.with_cleanup(a);
    sp.with_cleanup(c);

    sp.fire(AbortReason::Interrupted);
    // exactly the installed cleanups are handed out, each once
    assert!(sp.take_cleanup(a));
    assert!(!sp.take_cleanup(b));
    assert!(sp.take_cleanup(c));
    assert!(!sp.take_cleanup(a));
    assert!(!sp.take_cleanup(c));
    assert_eq!(sp.tasks[a].cleanup, CleanupState::Run);
    assert_eq!(sp.tasks[b].cleanup, CleanupState::NotInstalled);
    assert_eq!(sp.tasks[c].cleanup, CleanupState::Run);
}

#[test]
fn test_all_tasks_joined_after_abort() {
    let mut sp = AbortableSpawner::new();
    let a = sp.spawn_abortable();
    let b = sp.spawn_abortable();
    // one task ends on its own: that is itself an abort condition
    sp.on_task_end(a);
    assert_eq!(sp.abort_reason(), Some(AbortReason::ChildTerminated));
    // the other is joined regardless of its outcome
    sp.join_task(b);
    assert_eq!(sp.tasks[a].status, TaskStatus::Completed);
    assert_eq!(sp.tasks[b].status, TaskStatus::Completed);
}

#[test]
fn test_error_logging_policy() {
    // errors are expected noise on an external interrupt, and logged only
    // when a child terminated unexpectedly
    assert!(errors_logged_on(AbortReason::ChildTerminated));
    assert!(!errors_logged_on(AbortReason::Interrupted));
    assert!(AbortReason::ChildTerminated.child_terminated());
    assert!(!AbortReason::Interrupted.child_terminated());
}
