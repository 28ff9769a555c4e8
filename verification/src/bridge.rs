//! The notification bridge: drains decoded change events from the supervised
//! connection and pushes them into the bounded hand-off queue.
//!
//! The bridge holds at most one event in flight. A received event is held
//! until the queue accepts it; a full queue only delays delivery, it never
//! loses the event. Receives are non-blocking: when nothing is available the
//! bridge idles briefly instead of spinning.

use vstd::prelude::*;
use crate::event::ChangeEvent;
use crate::queue::HandoffQueue;
use crate::supervisor::ConnectionAction;
use crate::supervisor::ConnectionEvent;
use crate::supervisor::ConnectionState;
use crate::supervisor::ConnectionSupervisor;
use crate::supervisor::connection_next;
use crate::supervisor::connection_reaction;

verus! {

/// Seconds slept after the hand-off queue rejected an event, before the
/// delivery is retried.
pub const ENQUEUE_RETRY_SECS: u64 = 1;

/// Milliseconds idled when a non-blocking receive yielded nothing, to avoid
/// busy-spinning.
pub const IDLE_DELAY_MILLIS: u64 = 500;

/// What the bridge asks its driver to do next.
#[derive(Clone, Copy, Debug, PartialEq, Eq, Structural)]
pub enum BridgeAction {
    /// Check liveness, then attempt a non-blocking receive.
    Receive,
    /// Offer the held event to the hand-off queue.
    Deliver,
    /// Sleep the given delay, then offer the held event again.
    RetryDeliver { delay_secs: u64 },
    /// Sleep the given delay, then receive again.
    IdleThenReceive { millis: u64 },
    /// Attempt to reconnect and re-subscribe at once.
    Reconnect,
    /// Sleep the given backoff, then attempt to reconnect and re-subscribe.
    BackoffThenReconnect { secs: u64 },
}

pub struct NotificationBridge {
    pub supervisor: ConnectionSupervisor,
    pub pending: Option<ChangeEvent>,
}

impl NotificationBridge {
    /// The event currently held for delivery, if any.
    pub open spec fn held(&self) -> Option<ChangeEvent> {
        self.pending
    }

    pub fn new() -> (b: NotificationBridge)
        ensures
            b.held() is None,
            b.supervisor.state is Disconnected,
    {
        NotificationBridge { supervisor: ConnectionSupervisor::new(), pending: None }
    }

    /// Digests the outcome of a connection check or reconnect attempt. The
    /// held event, if any, is untouched: connection trouble never loses an
    /// event that was already received.
    pub fn on_connection(&mut self, e: ConnectionEvent) -> (a: BridgeAction)
        ensures
            final(self).supervisor.state == connection_next(old(self).supervisor.state, e),
            final(self).held() == old(self).held(),
            a == (match connection_reaction(old(self).supervisor.state, e) {
                ConnectionAction::Receive => if old(self).held() is Some {
                    BridgeAction::Deliver
                } else {
                    BridgeAction::Receive
                },
                ConnectionAction::Reconnect => BridgeAction::Reconnect,
                ConnectionAction::BackoffThenReconnect { secs } => BridgeAction::BackoffThenReconnect { secs },
            }),
    {
        match self.supervisor.observe(e) {
            ConnectionAction::Receive => {
                if self.pending.is_some() {
                    BridgeAction::Deliver
                } else {
                    BridgeAction::Receive
                }
            },
            ConnectionAction::Reconnect => BridgeAction::Reconnect,
            ConnectionAction::BackoffThenReconnect { secs } => BridgeAction::BackoffThenReconnect {
                secs,
            },
        }
    }

    /// Digests the outcome of a non-blocking receive: a decoded change event
    /// is taken in charge for delivery; any other transport message, or none,
    /// only causes a short idle.
    pub fn on_receive(&mut self, received: Option<ChangeEvent>) -> (a: BridgeAction)
        requires
            old(self).held() is None,
        ensures
            final(self).supervisor == old(self).supervisor,
            received matches Some(ev) ==> final(self).held() == Some(ev)
                && a == BridgeAction::Deliver,
            received is None ==> final(self).held() is None
                && a == (BridgeAction::IdleThenReceive { millis: IDLE_DELAY_MILLIS }),
    {
        match received {
            Some(ev) => {
                self.pending = Some(ev);
                BridgeAction::Deliver
            },
            None => BridgeAction::IdleThenReceive { millis: IDLE_DELAY_MILLIS },
        }
    }

    /// Offers the held event to the hand-off queue. When the queue is full
    /// the very same event stays held and delivery is retried after the fixed
    /// delay; it is released only once the queue has accepted it. When the
    /// queue has room the event is appended behind everything already queued,
    /// preserving arrival order.
    pub fn deliver(&mut self, queue: &mut HandoffQueue) -> (a: BridgeAction)
        requires
            old(self).held() is Some,
            old(queue).wf(),
        ensures
            final(queue).wf(),
            final(queue).cap() == old(queue).cap(),
            final(self).supervisor == old(self).supervisor,
            old(queue).is_full() ==> final(self).held() == old(self).held()
                && final(queue)@ == old(queue)@
                && a == (BridgeAction::RetryDeliver { delay_secs: ENQUEUE_RETRY_SECS }),
            !old(queue).is_full() ==> final(self).held() is None
                && final(queue)@ == old(queue)@.push(old(self).held()->0)
                && a == BridgeAction::Receive,
    {
        let held = self.pending.take();
        match held {
            Some(ev) => {
                match queue.enqueue(ev) {
                    Ok(()) => BridgeAction::Receive,
                    Err(back) => {
                        // The queue handed the very same event back: hold it
                        // and try again after the delay.
                        self.pending = Some(back);
                        BridgeAction::RetryDeliver { delay_secs: ENQUEUE_RETRY_SECS }
                    },
                }
            },
            None => {
                // Unreachable: a delivery is only requested while an event is
                // held.
                BridgeAction::Receive
            },
        }
    }
}

} // verus!
