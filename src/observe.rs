use vstd::prelude::*;
use crossbeam::channel::{Receiver, Sender};
use crate::bridge::{next_action, next_phase, Bridge, BridgeAction, BridgeEvent, BridgePhase};
use crate::channel::{ends_of_one_channel, receiver_bound, same_receiver_channel, LogChannel};
use crate::event::LogItem;

verus! {

/// The live-tail service: each subscription gets its own consumer handle on
/// the shared collector and its own bridge.
#[derive(Debug)]
pub struct ObserveService {
    consumer: Receiver<LogItem>,
}

/// One observer's live tail: the consumer handle its worker blocks on, and
/// the bridge that decides what the worker does next.
#[derive(Debug)]
pub struct Subscription {
    pub consumer: Receiver<LogItem>,
    pub bridge: Bridge,
}

impl ObserveService {
    pub closed spec fn consumer_spec(&self) -> Receiver<LogItem> {
        self.consumer
    }

    /// A service that tails the collector behind `consumer`.
    pub fn new(consumer: Receiver<LogItem>) -> (r: ObserveService)
        ensures
            r.consumer_spec() == consumer,
    {
        ObserveService { consumer }
    }

    /// Starts a live tail: a new consumer handle on the same collector and a
    /// bridge waiting for its first event. Handles of concurrent subscriptions
    /// split the events between them.
    pub fn subscribe(&self) -> (r: Subscription)
        ensures
            receiver_bound(r.consumer) == receiver_bound(self.consumer_spec()),
            same_receiver_channel(r.consumer, self.consumer_spec()),
            forall|p: Sender<LogItem>| ends_of_one_channel(p, self.consumer_spec())
                ==> #[trigger] ends_of_one_channel(p, r.consumer),
            r.bridge.phase_spec() == BridgePhase::Receiving,
    {
        Subscription { consumer: LogChannel::get_consumer_of(&self.consumer), bridge: Bridge::new() }
    }
}

impl Subscription {
    /// Blocks on the collector and feeds the outcome to the bridge: an event
    /// to relay, or `Finish` once the collector is closed and drained.
    pub fn receive(&mut self) -> (r: BridgeAction)
        requires
            old(self).bridge.phase_spec() == BridgePhase::Receiving,
        ensures
            final(self).consumer == old(self).consumer,
            r is Relay ==> final(self).bridge.phase_spec() == BridgePhase::Relaying,
            r is Finish ==> final(self).bridge.phase_spec() == BridgePhase::Finished,
            r is Relay || r is Finish,
    {
        let received = LogChannel::consume_outcome(LogChannel::receive(&self.consumer));
        self.bridge.after_receive(received)
    }

    /// Feeds the outcome of a relay to the bridge.
    pub fn relayed(&mut self, delivered: bool) -> (r: BridgeAction)
        ensures
            final(self).consumer == old(self).consumer,
            delivered ==> final(self).bridge.phase_spec() == next_phase(old(self).bridge.phase_spec(), BridgeEvent::Delivered),
            delivered ==> r == next_action(old(self).bridge.phase_spec(), BridgeEvent::Delivered),
            !delivered ==> final(self).bridge.phase_spec() == BridgePhase::Finished,
            !delivered ==> r == BridgeAction::Finish,
    {
        self.bridge.after_relay(delivered)
    }
}

} // verus!
