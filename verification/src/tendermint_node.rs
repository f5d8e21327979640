//! The consensus-engine process manager's shutdown handshake: an
//! abort-request message followed by a single acknowledgment, so that the
//! child engine gets to flush its own state before it goes — as opposed to
//! a bare kill signal. A closed acknowledgment channel is not fatal: the
//! process may simply have exited already.

use vstd::prelude::*;

verus! {

/// Where the shutdown handshake with the child process stands.
#[derive(Clone, Copy, PartialEq, Eq, Structural, Debug)]
pub enum HandshakeState {
    /// The child runs; no shutdown was requested yet.
    Running,
    /// The abort-request message was sent; awaiting the acknowledgment.
    AbortRequested,
    /// The child acknowledged and had its chance to flush.
    AckReceived,
    /// The acknowledgment channel closed without an answer: the child may
    /// already have exited. Logged, not fatal.
    ChannelClosed,
}

/// Monitors one child process through launch, shutdown request and
/// acknowledgment.
pub struct ProcessMonitor {
    pub state: HandshakeState,
}

impl ProcessMonitor {
    pub fn new() -> (m: ProcessMonitor)
        ensures
            m.state == HandshakeState::Running,
    {
        ProcessMonitor { state: HandshakeState::Running }
    }

    /// Sends the abort-request message of the graceful-shutdown handshake.
    pub fn request_abort(&mut self)
        requires
            old(self).state == HandshakeState::Running,
        ensures
            final(self).state == HandshakeState::AbortRequested,
    {
        self.state = HandshakeState::AbortRequested;
    }

    /// The child acknowledged the abort request.
    pub fn on_ack(&mut self)
        requires
            old(self).state == HandshakeState::AbortRequested,
        ensures
            final(self).state == HandshakeState::AckReceived,
    {
        self.state = HandshakeState::AckReceived;
    }

    /// The acknowledgment channel closed without an answer.
    pub fn on_channel_closed(&mut self)
        requires
            old(self).state == HandshakeState::AbortRequested,
        ensures
            final(self).state == HandshakeState::ChannelClosed,
    {
        self.state = HandshakeState::ChannelClosed;
    }

    /// Whether the process manager is retired: the handshake concluded,
    /// with or without an acknowledgment.
    pub fn retired(&self) -> (r: bool)
        ensures
            r == (self.state is AckReceived || self.state is ChannelClosed),
    {
        match self.state {
            HandshakeState::AckReceived | HandshakeState::ChannelClosed => true,
            _ => false,
        }
    }
}

/// A missing acknowledgment is never treated as fatal, whichever way the
/// handshake ended: the process may have exited on its own.
pub fn ack_absence_is_fatal(state: HandshakeState) -> (r: bool)
    ensures
        !r,
{
    let _ = state;
    false
}

/// How loudly a shutdown-adjacent error is reported.
#[derive(Clone, Copy, PartialEq, Eq, Structural, Debug)]
pub enum Severity {
    /// Expected noise during an externally triggered shutdown.
    Reduced,
    /// Unexpected outside of one.
    Elevated,
}

/// Shutdown-adjacent errors — a dropped acknowledgment channel, a
/// handshake that never concluded — log at reduced severity during an
/// externally triggered shutdown and at elevated severity otherwise.
pub fn shutdown_error_severity(during_external_shutdown: bool) -> (r: Severity)
    ensures
        r == (if during_external_shutdown {
            Severity::Reduced
        } else {
            Severity::Elevated
        }),
{
    if during_external_shutdown {
        Severity::Reduced
    } else {
        Severity::Elevated
    }
}

} // verus!
