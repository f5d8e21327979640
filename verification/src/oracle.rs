//! The external-chain event oracle bridge: one of four modes chosen at
//! startup and immutable thereafter, a bounded event channel that blocks and
//! never drops, a control channel for clean stops and retargeting, and the
//! oracle task's own small state machine.

use vstd::prelude::*;

verus! {

/// How many events the channel between the oracle and the shell can hold.
pub const ORACLE_CHANNEL_BUFFER_SIZE: usize = 1000;

/// The oracle's operating mode, selected once at startup.
#[derive(Clone, Copy, PartialEq, Eq, Structural, Debug)]
pub enum Mode {
    /// This node also manages the external-chain node process, and only
    /// ingests events once that process reports itself synchronized.
    Managed,
    /// An externally managed endpoint is consumed directly.
    Remote,
    /// A local listener accepts test-injected events.
    EventsEndpoint,
    /// No oracle: the task completes immediately and the dispatcher holds
    /// no live channel.
    Off,
}

/// The task the bridge sets up for a mode.
#[derive(Clone, Copy, PartialEq, Eq, Structural, Debug)]
pub enum OracleTask {
    NotEnabled,
    Oracle,
    EventsEndpoint,
}

/// Mode dispatch, decided once at construction: managed and remote modes
/// run the oracle proper, the synthetic endpoint runs the test listener,
/// and the disabled mode yields the immediately-complete placeholder task.
pub fn plan_oracle(mode: Mode) -> (t: OracleTask)
    ensures
        t == (match mode {
            Mode::Managed => OracleTask::Oracle,
            Mode::Remote => OracleTask::Oracle,
            Mode::EventsEndpoint => OracleTask::EventsEndpoint,
            Mode::Off => OracleTask::NotEnabled,
        }),
{
    match mode {
        Mode::Managed | Mode::Remote => OracleTask::Oracle,
        Mode::EventsEndpoint => OracleTask::EventsEndpoint,
        Mode::Off => OracleTask::NotEnabled,
    }
}

/// Whether the dispatcher holds a live event channel for the planned work.
pub fn task_has_live_channel(t: &OracleTask) -> (r: bool)
    ensures
        r == !(t is NotEnabled),
{
    match t {
        OracleTask::NotEnabled => false,
        _ => true,
    }
}

/// Whether the task completes immediately, delivering no event.
pub fn task_completes_immediately(t: &OracleTask) -> (r: bool)
    ensures
        r == (t is NotEnabled),
{
    match t {
        OracleTask::NotEnabled => true,
        _ => false,
    }
}

/// Whether this node also boots and monitors its own external-chain node
/// process: only a validator in managed mode does; every other node gets
/// the immediately-complete placeholder task instead.
pub fn should_run_managed_node(
    tendermint_mode: crate::broadcaster::TendermintMode,
    oracle_mode: Mode,
) -> (r: bool)
    ensures
        r == (tendermint_mode is Validator && oracle_mode is Managed),
{
    match (tendermint_mode, oracle_mode) {
        (crate::broadcaster::TendermintMode::Validator, Mode::Managed) => true,
        _ => false,
    }
}

/// Outcome of offering an event to the bounded channel.
#[derive(Clone, Copy, PartialEq, Eq, Structural, Debug)]
pub enum SendOutcome {
    Sent,
    /// The channel is full: the producer suspends and retries; the event is
    /// never dropped.
    Full,
}

/// The bounded event queue between oracle and dispatcher. Events leave in
/// arrival order; a full channel blocks the producer rather than dropping,
/// since event loss would corrupt cross-chain accounting.
pub struct EventChannel {
    pub capacity: usize,
    pub queue: Vec<Vec<u8>>,
}

impl EventChannel {
    pub open spec fn wf(self) -> bool {
        self.queue@.len() <= self.capacity && self.capacity > 0
    }

    pub fn new(capacity: usize) -> (c: EventChannel)
        requires
            capacity > 0,
        ensures
            c.wf(),
            c.capacity == capacity,
            c.queue@ == Seq::<Vec<u8>>::empty(),
    {
        let c = EventChannel { capacity, queue: Vec::new() };
        proof {
            assert(c.queue@ =~= Seq::<Vec<u8>>::empty());
        }
        c
    }

    /// Offers one event: appended when there is room, refused — and kept by
    /// the caller — when the channel is full.
    pub fn try_send(&mut self, event: Vec<u8>) -> (r: SendOutcome)
        requires
            old(self).wf(),
        ensures
            final(self).wf(),
            final(self).capacity == old(self).capacity,
            if old(self).queue@.len() < old(self).capacity {
                r == SendOutcome::Sent && final(self).queue@ == old(self).queue@.push(event)
            } else {
                r == SendOutcome::Full && final(self).queue@ == old(self).queue@
            },
    {
        if self.queue.len() < self.capacity {
            self.queue.push(event);
            SendOutcome::Sent
        } else {
            SendOutcome::Full
        }
    }

    /// Takes the oldest event, if any: strict arrival order.
    pub fn recv(&mut self) -> (r: Option<Vec<u8>>)
        requires
            old(self).wf(),
        ensures
            final(self).wf(),
            final(self).capacity == old(self).capacity,
            match r {
                Some(ev) => old(self).queue@.len() > 0 && ev == old(self).queue@[0] && final(self).queue@ == old(self).queue@.skip(1),
                None => old(self).queue@.len() == 0 && final(self).queue@ == old(self).queue@,
            },
    {
        if self.queue.len() == 0 {
            None
        } else {
            let ev = self.queue.remove(0);
            proof {
                assert(final(self).queue@ =~= old(self).queue@.skip(1));
            }
            Some(ev)
        }
    }

    pub fn len(&self) -> (n: usize)
        ensures
            n == self.queue@.len(),
    {
        self.queue.len()
    }
}

/// A command the dispatcher sends the oracle over the control channel.
pub enum ControlCommand {
    /// Point the oracle at another ingestion endpoint.
    Retarget(Vec<u8>),
    /// Ask for a clean stop: the oracle flushes and acknowledges before it
    /// exits, never abruptly.
    Stop,
}

/// The unbounded control channel, dispatcher to oracle, in order.
pub struct ControlChannel {
    pub queue: Vec<ControlCommand>,
}

impl ControlChannel {
    pub fn new() -> (c: ControlChannel)
        ensures
            c.queue@ == Seq::<ControlCommand>::empty(),
    {
        let c = ControlChannel { queue: Vec::new() };
        proof {
            assert(c.queue@ =~= Seq::<ControlCommand>::empty());
        }
        c
    }

    pub fn send(&mut self, cmd: ControlCommand)
        ensures
            final(self).queue@ == old(self).queue@.push(cmd),
    {
        self.queue.push(cmd);
    }

    pub fn recv(&mut self) -> (r: Option<ControlCommand>)
        ensures
            match r {
                Some(cmd) => old(self).queue@.len() > 0 && cmd == old(self).queue@[0] && final(self).queue@ == old(self).queue@.skip(1),
                None => old(self).queue@.len() == 0 && final(self).queue@ == old(self).queue@,
            },
    {
        if self.queue.len() == 0 {
            None
        } else {
            let cmd = self.queue.remove(0);
            proof {
                assert(final(self).queue@ =~= old(self).queue@.skip(1));
            }
            Some(cmd)
        }
    }
}

/// Where the oracle task stands.
#[derive(Clone, Copy, PartialEq, Eq, Structural, Debug)]
pub enum OracleState {
    /// Managed mode only: the child node has not reported synchronized yet,
    /// so no event is ingested.
    WaitingSync,
    Ingesting,
    /// Reached only through a clean stop, after flushing and acknowledging.
    Stopped,
}

/// The oracle's starting state for a mode that runs a task: managed mode
/// ingests only once its child process has synchronized.
pub fn initial_oracle_state(mode: Mode) -> (s: OracleState)
    requires
        !(mode is Off),
    ensures
        s == (if mode is Managed {
            OracleState::WaitingSync
        } else {
            OracleState::Ingesting
        }),
{
    match mode {
        Mode::Managed => OracleState::WaitingSync,
        _ => OracleState::Ingesting,
    }
}

/// The child node reports itself synchronized: ingestion may begin.
pub fn on_synced(s: OracleState) -> (r: OracleState)
    ensures
        r == (if s is WaitingSync {
            OracleState::Ingesting
        } else {
            s
        }),
{
    match s {
        OracleState::WaitingSync => OracleState::Ingesting,
        other => other,
    }
}

/// A stop command arrives: the oracle flushes, acknowledges, and only then
/// stops; any other command leaves it in its state.
pub fn on_control(s: OracleState, cmd: &ControlCommand) -> (r: OracleState)
    ensures
        r == (match cmd {
            ControlCommand::Stop => OracleState::Stopped,
            ControlCommand::Retarget(_) => s,
        }),
{
    match cmd {
        ControlCommand::Stop => OracleState::Stopped,
        ControlCommand::Retarget(_) => s,
    }
}

} // verus!
