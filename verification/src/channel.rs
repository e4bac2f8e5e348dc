//! The ordered, unbounded delivery path from the acquisition loop to its
//! consumer.

use crate::services::SystemInfoDynamicData;
use std::collections::VecDeque;
use vstd::prelude::*;

verus! {

/// What a consumer gets from one attempt to receive.
#[derive(Debug, Clone, Copy, PartialEq, Eq, Structural)]
pub enum Received {
    /// The oldest snapshot not yet received.
    Snapshot(SystemInfoDynamicData),
    /// Nothing is waiting, but the producer may still send: a blocking
    /// consumer waits and tries again.
    Empty,
    /// End of stream: the producer has terminated and nothing is waiting.
    Closed,
}

/// A send that found no consumer.
#[derive(Debug, Clone, Copy, PartialEq, Eq, Structural)]
pub struct Disconnected {}

/// The channel as contracts see it: the snapshots sent and not yet received,
/// oldest first, and which of its two ends are still held.
pub struct ChannelState {
    pub pending: Seq<SystemInfoDynamicData>,
    pub sender_alive: bool,
    pub receiver_alive: bool,
}

impl ChannelState {
    /// A new channel: nothing pending, both ends held.
    pub open spec fn fresh() -> ChannelState {
        ChannelState { pending: Seq::empty(), sender_alive: true, receiver_alive: true }
    }

    /// Whether a send is delivered: both ends must be held.
    pub open spec fn accepts(self) -> bool {
        self.sender_alive && self.receiver_alive
    }

    /// The channel after a send: the snapshot joins the queue at its end, or
    /// is lost where the send is not delivered.
    pub open spec fn send(self, snapshot: SystemInfoDynamicData) -> ChannelState {
        if self.accepts() {
            ChannelState { pending: self.pending.push(snapshot), ..self }
        } else {
            self
        }
    }

    /// What the next receive reports.
    pub open spec fn next(self) -> Received {
        if !self.receiver_alive {
            Received::Closed
        } else if self.pending.len() > 0 {
            Received::Snapshot(self.pending[0])
        } else if self.sender_alive {
            Received::Empty
        } else {
            Received::Closed
        }
    }

    /// The channel after a receive: the oldest pending snapshot, if any, has
    /// left the queue.
    pub open spec fn after_receive(self) -> ChannelState {
        if self.receiver_alive && self.pending.len() > 0 {
            ChannelState { pending: self.pending.subrange(1, self.pending.len() as int), ..self }
        } else {
            self
        }
    }

    /// The channel after the producer has let go of its end. What is pending
    /// stays receivable.
    pub open spec fn close_sender(self) -> ChannelState {
        ChannelState { sender_alive: false, ..self }
    }

    /// The channel after the consumer has let go of its end. What was pending
    /// is discarded.
    pub open spec fn drop_receiver(self) -> ChannelState {
        ChannelState { pending: Seq::empty(), receiver_alive: false, ..self }
    }
}

/// A first-in, first-out queue of snapshots between one producer and one
/// consumer. The producer is never held up: the queue has no capacity bound.
pub struct SnapshotChannel {
    queue: VecDeque<SystemInfoDynamicData>,
    sender_alive: bool,
    receiver_alive: bool,
}

impl View for SnapshotChannel {
    type V = ChannelState;

    closed spec fn view(&self) -> ChannelState {
        ChannelState {
            pending: self.queue@,
            sender_alive: self.sender_alive,
            receiver_alive: self.receiver_alive,
        }
    }
}

impl SnapshotChannel {
    /// An empty channel with both ends held.
    pub fn new() -> (channel: SnapshotChannel)
        ensures
            channel@ == ChannelState::fresh(),
    {
        SnapshotChannel { queue: VecDeque::new(), sender_alive: true, receiver_alive: true }
    }

    /// Sends a snapshot. It is delivered, behind everything sent before it,
    /// exactly when both ends are held; otherwise the channel is unchanged and
    /// the send reports that nobody is listening.
    pub fn send(&mut self, snapshot: SystemInfoDynamicData) -> (r: Result<(), Disconnected>)
        ensures
            final(self)@ == old(self)@.send(snapshot),
            r is Ok <==> old(self)@.accepts(),
    {
        if self.sender_alive && self.receiver_alive {
            self.queue.push_back(snapshot);
            Ok(())
        } else {
            Err(Disconnected {})
        }
    }

    /// Takes the oldest pending snapshot, or reports why there is none: the
    /// stream has ended, or the producer has not sent yet.
    pub fn receive(&mut self) -> (r: Received)
        ensures
            r == old(self)@.next(),
            final(self)@ == old(self)@.after_receive(),
    {
        if !self.receiver_alive {
            return Received::Closed;
        }
        match self.queue.pop_front() {
            Some(snapshot) => Received::Snapshot(snapshot),
            None => {
                if self.sender_alive {
                    Received::Empty
                } else {
                    Received::Closed
                }
            },
        }
    }

    /// Lets go of the producer end. Idempotent.
    pub fn close_sender(&mut self)
        ensures
            final(self)@ == old(self)@.close_sender(),
    {
        self.sender_alive = false;
    }

    /// Lets go of the consumer end and discards what was pending. Idempotent.
    pub fn drop_receiver(&mut self)
        ensures
            final(self)@ == old(self)@.drop_receiver(),
    {
        self.receiver_alive = false;
        self.queue.clear();
    }

    /// How many snapshots are waiting to be received.
    pub fn pending_count(&self) -> (n: usize)
        ensures
            n == self@.pending.len(),
    {
        self.queue.len()
    }

    /// Whether the producer end is still held.
    pub fn sender_alive(&self) -> (alive: bool)
        ensures
            alive == self@.sender_alive,
    {
        self.sender_alive
    }

    /// Whether the consumer end is still held.
    pub fn receiver_alive(&self) -> (alive: bool)
        ensures
            alive == self@.receiver_alive,
    {
        self.receiver_alive
    }
}

} // verus!
