//! Supervision of the change-channel connection.
//!
//! The supervisor owns the lifecycle of the subscription: whenever the
//! connection is found closed it asks its driver to reconnect and
//! re-subscribe, backing off a fixed delay after each failed attempt, and it
//! never gives up. The driver performs the requested work and reports what
//! happened; the supervisor decides what comes next.

use vstd::prelude::*;

verus! {

/// Seconds slept after a failed reconnect attempt before the next one.
pub const RECONNECT_BACKOFF_SECS: u64 = 5;

#[derive(Clone, Copy, Debug, PartialEq, Eq, Structural)]
pub enum ConnectionState {
    Connected,
    Disconnected,
}

/// What the driver observed about the connection.
#[derive(Clone, Copy, Debug, PartialEq, Eq, Structural)]
pub enum ConnectionEvent {
    /// A connection was established and the topic subscription renewed.
    Established,
    /// An attempt to reconnect failed.
    AttemptFailed,
    /// The live connection was found closed.
    Closed,
}

/// What the supervisor asks the driver to do next.
#[derive(Clone, Copy, Debug, PartialEq, Eq, Structural)]
pub enum ConnectionAction {
    /// Resume receiving on the live connection.
    Receive,
    /// Attempt to reconnect and re-subscribe at once.
    Reconnect,
    /// Sleep the given backoff, then attempt to reconnect and re-subscribe.
    BackoffThenReconnect { secs: u64 },
}

pub open spec fn connection_next(s: ConnectionState, e: ConnectionEvent) -> ConnectionState {
    match e {
        ConnectionEvent::Established => ConnectionState::Connected,
        ConnectionEvent::AttemptFailed => ConnectionState::Disconnected,
        ConnectionEvent::Closed => ConnectionState::Disconnected,
    }
}

pub open spec fn connection_reaction(s: ConnectionState, e: ConnectionEvent) -> ConnectionAction {
    match e {
        ConnectionEvent::Established => ConnectionAction::Receive,
        ConnectionEvent::AttemptFailed => ConnectionAction::BackoffThenReconnect {
            secs: RECONNECT_BACKOFF_SECS,
        },
        ConnectionEvent::Closed => ConnectionAction::Reconnect,
    }
}

/// The connection state after a whole sequence of observations.
pub open spec fn connection_run(s: ConnectionState, events: Seq<ConnectionEvent>) -> ConnectionState
    decreases events.len(),
{
    if events.len() == 0 {
        s
    } else {
        connection_next(connection_run(s, events.drop_last()), events.last())
    }
}

pub struct ConnectionSupervisor {
    pub state: ConnectionState,
}

impl ConnectionSupervisor {
    /// A fresh supervisor: nothing is connected yet, so the first thing to do
    /// is establish the subscription.
    pub fn new() -> (s: ConnectionSupervisor)
        ensures
            s.state is Disconnected,
    {
        ConnectionSupervisor { state: ConnectionState::Disconnected }
    }

    /// Digests one observation and says what to do next: resume receiving on
    /// an established connection, reconnect at once on a closed one, or back
    /// off and reconnect after a failed attempt.
    pub fn observe(&mut self, e: ConnectionEvent) -> (a: ConnectionAction)
        ensures
            final(self).state == connection_next(old(self).state, e),
            a == connection_reaction(old(self).state, e),
    {
        match e {
            ConnectionEvent::Established => {
                self.state = ConnectionState::Connected;
                ConnectionAction::Receive
            },
            ConnectionEvent::AttemptFailed => {
                self.state = ConnectionState::Disconnected;
                ConnectionAction::BackoffThenReconnect { secs: RECONNECT_BACKOFF_SECS }
            },
            ConnectionEvent::Closed => {
                self.state = ConnectionState::Disconnected;
                ConnectionAction::Reconnect
            },
        }
    }
}

/// The supervisor permanently retries: whenever it is left disconnected it
/// has asked for another reconnect attempt, immediately or after the fixed
/// backoff, and a successful attempt always leaves it connected and
/// receiving. So a disconnect at any point is repaired by the first attempt
/// that succeeds, with no restart of the process.
pub proof fn lemma_supervisor_never_gives_up(s: ConnectionState, e: ConnectionEvent)
    ensures
        connection_next(s, e) is Disconnected ==> (connection_reaction(s, e) is Reconnect
            || connection_reaction(s, e) is BackoffThenReconnect),
        connection_next(s, ConnectionEvent::Established) is Connected,
        connection_reaction(s, ConnectionEvent::Established) is Receive,
{
}

/// However a connection history went, it ends connected as soon as the last
/// observation is a successful reconnect: recovery needs no process restart
/// and does not depend on what went before.
pub proof fn lemma_reconnect_reestablishes(s: ConnectionState, events: Seq<ConnectionEvent>)
    requires
        events.len() > 0,
        events.last() == ConnectionEvent::Established,
    ensures
        connection_run(s, events) is Connected,
{
}

} // verus!
