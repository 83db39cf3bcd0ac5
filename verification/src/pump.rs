//! The decisions of the task that forwards a stream into an actor: announce
//! the connection, forward each item while the actor takes them, and on the
//! stream's end announce it and drop the listener's entry.
use vstd::prelude::*;

use crate::error::Delivery;

verus! {

/// Where a stream-forwarding task stands.
#[derive(Debug, Clone, Copy, PartialEq, Eq, Structural)]
pub enum PumpStage {
    /// The "connected" notice is to be delivered.
    Connecting,
    /// The next stream item is awaited.
    AwaitingItem,
    /// The item that arrived is to be delivered.
    Forwarding,
    /// The stream ended; the "disconnected" notice is to be delivered.
    Disconnecting,
    /// The listener's entry is to be dropped from the actor's table.
    Dropping,
    /// The task is done.
    Finished,
}

/// What the forwarding task observed after its last action.
#[derive(Debug, Clone, Copy, PartialEq, Eq, Structural)]
pub enum PumpEvent {
    /// A notice, an item or the drop request was offered to the actor,
    /// with this outcome.
    Delivered(Delivery),
    /// The stream produced an item.
    ItemArrived,
    /// The stream ended.
    StreamEnded,
}

/// What the forwarding task does next.
#[derive(Debug, Clone, Copy, PartialEq, Eq, Structural)]
pub enum PumpAction {
    /// Deliver the "connected" notice.
    SendConnected,
    /// Wait for the stream's next item.
    AwaitItem,
    /// Deliver the item that arrived.
    SendItem,
    /// Deliver the "disconnected" notice.
    SendDisconnected,
    /// Deliver the request to drop the listener filed under this key.
    SendDrop(usize),
    /// Stop: the task is done.
    Stop,
}

/// The state of one forwarding task: the key its listener is filed under,
/// and where it stands.
#[derive(Debug, Clone, Copy, PartialEq, Eq, Structural)]
pub struct ListenerPump {
    pub key: usize,
    pub stage: PumpStage,
}

/// The stage after `ev`. The connected notice only needs the actor to
/// exist; an item must be accepted for forwarding to go on; once the stream
/// ends, the disconnected notice and then the drop request are each offered
/// once, whatever becomes of them. An event that does not fit the stage
/// leaves it as it is.
pub open spec fn spec_pump_next(stage: PumpStage, ev: PumpEvent) -> PumpStage {
    match (stage, ev) {
        (PumpStage::Connecting, PumpEvent::Delivered(Delivery::TargetGone)) => PumpStage::Finished,
        (PumpStage::Connecting, PumpEvent::Delivered(_)) => PumpStage::AwaitingItem,
        (PumpStage::AwaitingItem, PumpEvent::ItemArrived) => PumpStage::Forwarding,
        (PumpStage::AwaitingItem, PumpEvent::StreamEnded) => PumpStage::Disconnecting,
        (PumpStage::Forwarding, PumpEvent::Delivered(Delivery::Sent)) => PumpStage::AwaitingItem,
        (PumpStage::Forwarding, PumpEvent::Delivered(_)) => PumpStage::Finished,
        (PumpStage::Disconnecting, PumpEvent::Delivered(_)) => PumpStage::Dropping,
        (PumpStage::Dropping, PumpEvent::Delivered(_)) => PumpStage::Finished,
        _ => stage,
    }
}

/// The action each stage calls for; the drop request names the listener's
/// key.
pub open spec fn spec_pump_action(stage: PumpStage, key: usize) -> PumpAction {
    match stage {
        PumpStage::Connecting => PumpAction::SendConnected,
        PumpStage::AwaitingItem => PumpAction::AwaitItem,
        PumpStage::Forwarding => PumpAction::SendItem,
        PumpStage::Disconnecting => PumpAction::SendDisconnected,
        PumpStage::Dropping => PumpAction::SendDrop(key),
        PumpStage::Finished => PumpAction::Stop,
    }
}

impl ListenerPump {
    /// A forwarding task for the listener filed under `key`, about to
    /// announce the connection.
    pub fn new(key: usize) -> (p: ListenerPump)
        ensures
            p.key == key,
            p.stage == PumpStage::Connecting,
    {
        ListenerPump { key, stage: PumpStage::Connecting }
    }

    /// The action the current stage calls for.
    pub fn action(&self) -> (a: PumpAction)
        ensures
            a == spec_pump_action(self.stage, self.key),
    {
        match self.stage {
            PumpStage::Connecting => PumpAction::SendConnected,
            PumpStage::AwaitingItem => PumpAction::AwaitItem,
            PumpStage::Forwarding => PumpAction::SendItem,
            PumpStage::Disconnecting => PumpAction::SendDisconnected,
            PumpStage::Dropping => PumpAction::SendDrop(self.key),
            PumpStage::Finished => PumpAction::Stop,
        }
    }

    /// Takes in what the last action led to and returns the next action.
    pub fn step(&mut self, ev: PumpEvent) -> (a: PumpAction)
        ensures
            final(self).key == old(self).key,
            final(self).stage == spec_pump_next(old(self).stage, ev),
            a == spec_pump_action(final(self).stage, final(self).key),
    {
        let next = match (self.stage, ev) {
            (PumpStage::Connecting, PumpEvent::Delivered(Delivery::TargetGone)) => PumpStage::Finished,
            (PumpStage::Connecting, PumpEvent::Delivered(_)) => PumpStage::AwaitingItem,
            (PumpStage::AwaitingItem, PumpEvent::ItemArrived) => PumpStage::Forwarding,
            (PumpStage::AwaitingItem, PumpEvent::StreamEnded) => PumpStage::Disconnecting,
            (PumpStage::Forwarding, PumpEvent::Delivered(Delivery::Sent)) => PumpStage::AwaitingItem,
            (PumpStage::Forwarding, PumpEvent::Delivered(_)) => PumpStage::Finished,
            (PumpStage::Disconnecting, PumpEvent::Delivered(_)) => PumpStage::Dropping,
            (PumpStage::Dropping, PumpEvent::Delivered(_)) => PumpStage::Finished,
            _ => self.stage,
        };
        self.stage = next;
        self.action()
    }
}

/// A finished forwarding task stays finished, whatever it observes, and
/// only asks to stop.
pub proof fn law_finished_is_final(key: usize, ev: PumpEvent)
    ensures
        spec_pump_next(PumpStage::Finished, ev) == PumpStage::Finished,
        spec_pump_action(spec_pump_next(PumpStage::Finished, ev), key) == PumpAction::Stop,
{
}

/// After an item is offered, only its acceptance lets the task wait for the
/// next one; any refusal ends the task.
pub proof fn law_forwarding_needs_acceptance(key: usize, ev: PumpEvent)
    requires
        ev is Delivered,
    ensures
        (spec_pump_action(spec_pump_next(PumpStage::Forwarding, ev), key) == PumpAction::AwaitItem)
            <==> ev == PumpEvent::Delivered(Delivery::Sent),
        ev != PumpEvent::Delivered(Delivery::Sent) ==> spec_pump_next(PumpStage::Forwarding, ev) == PumpStage::Finished,
{
}

/// When the stream ends, the task offers the disconnected notice, then the
/// request to drop exactly its own listener key, then stops, whatever
/// becomes of either offer.
pub proof fn law_stream_end_announces_then_drops(key: usize, d1: Delivery, d2: Delivery)
    ensures
        ({
            let s1 = spec_pump_next(PumpStage::AwaitingItem, PumpEvent::StreamEnded);
            let s2 = spec_pump_next(s1, PumpEvent::Delivered(d1));
            let s3 = spec_pump_next(s2, PumpEvent::Delivered(d2));
            &&& spec_pump_action(s1, key) == PumpAction::SendDisconnected
            &&& spec_pump_action(s2, key) == PumpAction::SendDrop(key)
            &&& spec_pump_action(s3, key) == PumpAction::Stop
        }),
{
}

} // verus!
