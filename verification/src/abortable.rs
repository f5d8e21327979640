//! Structured-concurrency supervisor: a registry of long-running tasks wired
//! to one shared, single-fire shutdown signal, with an optional cleanup
//! action per task that runs exactly once after the signal fires.
//!
//! The runtime half — actually spawning futures, awaiting joins, performing
//! the cleanup actions — lives with the caller; this state machine decides,
//! and its decisions carry the proofs: firing the signal twice changes
//! nothing, and a cleanup is handed out for execution at most once.

use vstd::prelude::*;

verus! {

/// Why the supervisor began teardown: a managed task ended on its own, or an
/// external interrupt arrived. Error-logging policy differs between the two.
#[derive(Clone, Copy, PartialEq, Eq, Structural, Debug)]
pub enum AbortReason {
    ChildTerminated,
    Interrupted,
}

impl AbortReason {
    /// Whether a managed task ended on its own (as opposed to an external
    /// interrupt).
    pub fn child_terminated(&self) -> (r: bool)
        ensures
            r == (self is ChildTerminated),
    {
        match self {
            AbortReason::ChildTerminated => true,
            AbortReason::Interrupted => false,
        }
    }
}

#[derive(Clone, Copy, PartialEq, Eq, Structural, Debug)]
pub enum TaskStatus {
    Running,
    Completed,
}

#[derive(Clone, Copy, PartialEq, Eq, Structural, Debug)]
pub enum CleanupState {
    NotInstalled,
    Installed,
    Run,
}

/// One supervised task: whether it still runs, and where its cleanup stands.
#[derive(Clone, Copy, PartialEq, Eq, Structural, Debug)]
pub struct TaskEntry {
    pub status: TaskStatus,
    pub cleanup: CleanupState,
}

/// The supervisor's ghost-level state, over which its laws are stated.
pub ghost struct SpawnerModel {
    pub tasks: Seq<TaskEntry>,
    pub shutdown: Option<AbortReason>,
    pub teardowns: int,
}

/// Firing the shutdown signal: the first firing records its reason and
/// starts the one teardown sequence; any later firing changes nothing.
pub open spec fn fire_model(m: SpawnerModel, reason: AbortReason) -> SpawnerModel {
    if m.shutdown is Some {
        m
    } else {
        SpawnerModel { tasks: m.tasks, shutdown: Some(reason), teardowns: m.teardowns + 1 }
    }
}

/// Handing out one task's cleanup for execution: it is due exactly when it
/// is installed and has not run, and afterwards it is marked run.
pub open spec fn take_cleanup_model(m: SpawnerModel, t: int) -> (SpawnerModel, bool) {
    if 0 <= t < m.tasks.len() && m.tasks[t].cleanup is Installed {
        (
            SpawnerModel {
                tasks: m.tasks.update(
                    t,
                    TaskEntry { status: m.tasks[t].status, cleanup: CleanupState::Run },
                ),
                shutdown: m.shutdown,
                teardowns: m.teardowns,
            },
            true,
        )
    } else {
        (m, false)
    }
}

/// Shutdown idempotence: firing the signal a second time — whatever reason
/// the second firing carries — leaves the supervisor exactly as the first
/// firing left it, so there is only ever one teardown sequence.
pub proof fn lemma_fire_idempotent(m: SpawnerModel, r1: AbortReason, r2: AbortReason)
    ensures
        fire_model(fire_model(m, r1), r2) == fire_model(m, r1),
{
}

/// Each cleanup action runs exactly once: once a task's cleanup has been
/// handed out, asking for it again hands out nothing.
pub proof fn lemma_cleanup_exactly_once(m: SpawnerModel, t: int)
    ensures
        !take_cleanup_model(take_cleanup_model(m, t).0, t).1,
{
    if 0 <= t < m.tasks.len() && m.tasks[t].cleanup is Installed {
        assert(take_cleanup_model(m, t).0.tasks[t].cleanup is Run);
    }
}

/// Spawns tasks under one shared shutdown signal, runs per-task cleanup on
/// abort, and reports why teardown began.
pub struct AbortableSpawner {
    pub tasks: Vec<TaskEntry>,
    pub shutdown: Option<AbortReason>,
    /// How many teardown sequences have begun; never exceeds one.
    pub teardowns: u64,
}

impl AbortableSpawner {
    /// The ghost state this spawner is in.
    pub open spec fn model(self) -> SpawnerModel {
        SpawnerModel {
            tasks: self.tasks@,
            shutdown: self.shutdown,
            teardowns: self.teardowns as int,
        }
    }

    pub open spec fn wf(self) -> bool {
        self.teardowns == (if self.shutdown is Some {
            1int
        } else {
            0int
        })
    }

    pub fn new() -> (s: AbortableSpawner)
        ensures
            s.wf(),
            s.model() == (SpawnerModel {
                tasks: Seq::<TaskEntry>::empty(),
                shutdown: None::<AbortReason>,
                teardowns: 0int,
            }),
    {
        let s = AbortableSpawner { tasks: Vec::new(), shutdown: None, teardowns: 0 };
        proof {
            assert(s.tasks@ =~= Seq::<TaskEntry>::empty());
        }
        s
    }

    /// Registers a task as running under the shutdown signal and returns its
    /// slot.
    pub fn spawn_abortable(&mut self) -> (t: usize)
        ensures
            final(self).wf() == old(self).wf(),
            t == old(self).tasks@.len(),
            final(self).tasks@ == old(self).tasks@.push(
                TaskEntry { status: TaskStatus::Running, cleanup: CleanupState::NotInstalled },
            ),
            final(self).shutdown == old(self).shutdown,
            final(self).teardowns == old(self).teardowns,
    {
        let t = self.tasks.len();
        self.tasks.push(
            TaskEntry { status: TaskStatus::Running, cleanup: CleanupState::NotInstalled },
        );
        t
    }

    /// Attaches a cleanup continuation to a task that has none yet.
    pub fn with_cleanup(&mut self, t: usize)
        requires
            t < old(self).tasks@.len(),
            old(self).tasks@[t as int].cleanup is NotInstalled,
        ensures
            final(self).tasks@ == old(self).tasks@.update(
                t as int,
                TaskEntry {
                    status: old(self).tasks@[t as int].status,
                    cleanup: CleanupState::Installed,
                },
            ),
            final(self).shutdown == old(self).shutdown,
            final(self).teardowns == old(self).teardowns,
            final(self).wf() == old(self).wf(),
    {
        let status = self.tasks[t].status;
        self.tasks[t] = TaskEntry { status, cleanup: CleanupState::Installed };
    }

    /// Fires the shutdown signal; idempotent, as `lemma_fire_idempotent`
    /// states of the model transition.
    pub fn fire(&mut self, reason: AbortReason)
        requires
            old(self).wf(),
        ensures
            final(self).wf(),
            final(self).model() == fire_model(old(self).model(), reason),
    {
        if self.shutdown.is_none() {
            self.shutdown = Some(reason);
            self.teardowns = self.teardowns + 1;
        }
    }

    /// A managed task ended on its own: it is recorded as completed, and —
    /// child termination being an abort condition — the shutdown signal
    /// fires with `ChildTerminated`.
    pub fn on_task_end(&mut self, t: usize)
        requires
            old(self).wf(),
            t < old(self).tasks@.len(),
        ensures
            final(self).wf(),
            final(self).tasks@ == old(self).tasks@.update(
                t as int,
                TaskEntry {
                    status: TaskStatus::Completed,
                    cleanup: old(self).tasks@[t as int].cleanup,
                },
            ),
            final(self).model().shutdown == fire_model(
                old(self).model(),
                AbortReason::ChildTerminated,
            ).shutdown,
            final(self).model().teardowns == fire_model(
                old(self).model(),
                AbortReason::ChildTerminated,
            ).teardowns,
    {
        let cleanup = self.tasks[t].cleanup;
        self.tasks[t] = TaskEntry { status: TaskStatus::Completed, cleanup };
        self.fire(AbortReason::ChildTerminated);
    }

    /// Hands out one task's cleanup for execution, at most once, and only
    /// after the shutdown signal has fired.
    pub fn take_cleanup(&mut self, t: usize) -> (due: bool)
        requires
            old(self).wf(),
            old(self).shutdown is Some,
            t < old(self).tasks@.len(),
        ensures
            final(self).wf(),
            (final(self).model(), due) == take_cleanup_model(old(self).model(), t as int),
    {
        let entry = self.tasks[t];
        match entry.cleanup {
            CleanupState::Installed => {
                self.tasks[t] = TaskEntry { status: entry.status, cleanup: CleanupState::Run };
                true
            }
            _ => false,
        }
    }

    /// Joins one task after shutdown: whatever its outcome, it is recorded
    /// as completed; a failure in one task never prevents joining another.
    pub fn join_task(&mut self, t: usize)
        requires
            old(self).wf(),
            old(self).shutdown is Some,
            t < old(self).tasks@.len(),
        ensures
            final(self).wf(),
            final(self).tasks@ == old(self).tasks@.update(
                t as int,
                TaskEntry {
                    status: TaskStatus::Completed,
                    cleanup: old(self).tasks@[t as int].cleanup,
                },
            ),
            final(self).shutdown == old(self).shutdown,
            final(self).teardowns == old(self).teardowns,
    {
        let cleanup = self.tasks[t].cleanup;
        self.tasks[t] = TaskEntry { status: TaskStatus::Completed, cleanup };
    }

    /// The recorded abort reason, if the signal has fired.
    pub fn abort_reason(&self) -> (r: Option<AbortReason>)
        ensures
            r == self.shutdown,
    {
        self.shutdown
    }

    /// Whether every task has completed and no installed cleanup is still
    /// outstanding: the supervisor may then return control to its caller.
    pub open spec fn all_retired(self) -> bool {
        forall|t: int|
            0 <= t < self.tasks@.len() ==> (#[trigger] self.tasks@[t]).status is Completed && !(
            self.tasks@[t].cleanup is Installed)
    }
}

/// Error-logging policy at teardown: errors from still-running tasks are
/// logged only when a child terminated unexpectedly; on an external
/// interrupt they are suppressed as expected noise.
pub fn errors_logged_on(reason: AbortReason) -> (r: bool)
    ensures
        r == (reason is ChildTerminated),
{
    reason.child_terminated()
}

} // verus!
