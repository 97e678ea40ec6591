use vstd::prelude::*;
use crate::event::LogItem;

verus! {

/// Where a live-tail bridge stands.
#[derive(Clone, Copy, Debug, PartialEq, Eq, Structural)]
pub enum BridgePhase {
    /// Waiting for the collector to hand out an event.
    Receiving,
    /// Waiting for the observer's stream to take the event just received.
    Relaying,
    /// Done for good: the collector closed or the observer went away.
    Finished,
}

/// What the worker that runs a bridge reports back.
#[derive(Clone, Debug, PartialEq, Eq)]
pub enum BridgeEvent {
    /// The collector handed out this event.
    Received(LogItem),
    /// The collector is closed and drained.
    SourceClosed,
    /// The observer's stream took the last event.
    Delivered,
    /// The observer's stream is gone.
    ObserverGone,
}

/// What the worker must do next.
#[derive(Clone, Debug, PartialEq, Eq)]
pub enum BridgeAction {
    /// Block on the collector for the next event.
    Receive,
    /// Hand this event to the observer's stream.
    Relay(LogItem),
    /// Stop: end the stream and let the worker exit.
    Finish,
}

/// The phase after `event` arrives in `phase`. An event that does not fit
/// the phase ends the bridge.
pub open spec fn next_phase(phase: BridgePhase, event: BridgeEvent) -> BridgePhase {
    match (phase, event) {
        (BridgePhase::Receiving, BridgeEvent::Received(_)) => BridgePhase::Relaying,
        (BridgePhase::Relaying, BridgeEvent::Delivered) => BridgePhase::Receiving,
        _ => BridgePhase::Finished,
    }
}

/// The action after `event` arrives in `phase`.
pub open spec fn next_action(phase: BridgePhase, event: BridgeEvent) -> BridgeAction {
    match (phase, event) {
        (BridgePhase::Receiving, BridgeEvent::Received(item)) => BridgeAction::Relay(item),
        (BridgePhase::Relaying, BridgeEvent::Delivered) => BridgeAction::Receive,
        _ => BridgeAction::Finish,
    }
}

/// The phase reached after a run of events.
pub open spec fn run_phase(phase: BridgePhase, events: Seq<BridgeEvent>) -> BridgePhase
    decreases events.len(),
{
    if events.len() == 0 {
        phase
    } else {
        run_phase(next_phase(phase, events[0]), events.drop_first())
    }
}

/// The actions taken over a run of events, one per event.
pub open spec fn run_actions(phase: BridgePhase, events: Seq<BridgeEvent>) -> Seq<BridgeAction>
    decreases events.len(),
{
    if events.len() == 0 {
        Seq::empty()
    } else {
        seq![next_action(phase, events[0])] + run_actions(next_phase(phase, events[0]), events.drop_first())
    }
}

/// The events handed to the observer by a run of actions, in order.
pub open spec fn relayed(actions: Seq<BridgeAction>) -> Seq<LogItem>
    decreases actions.len(),
{
    if actions.len() == 0 {
        Seq::empty()
    } else {
        match actions[0] {
            BridgeAction::Relay(item) => seq![item] + relayed(actions.drop_first()),
            _ => relayed(actions.drop_first()),
        }
    }
}

/// The events that a worker reports while the collector hands out `items`
/// one by one and the observer takes each of them.
pub open spec fn smooth_run(items: Seq<LogItem>) -> Seq<BridgeEvent>
    decreases items.len(),
{
    if items.len() == 0 {
        Seq::empty()
    } else {
        seq![BridgeEvent::Received(items[0]), BridgeEvent::Delivered] + smooth_run(items.drop_first())
    }
}

/// The relay logic of one live-tail subscription, apart from the blocking
/// calls: the worker that runs it receives from the collector and sends to
/// the observer's stream as the actions say, and reports what happened.
#[derive(Debug)]
pub struct Bridge {
    phase: BridgePhase,
}

impl Bridge {
    pub closed spec fn phase_spec(&self) -> BridgePhase {
        self.phase
    }

    /// A bridge waiting for its first event.
    pub fn new() -> (r: Bridge)
        ensures
            r.phase_spec() == BridgePhase::Receiving,
    {
        Bridge { phase: BridgePhase::Receiving }
    }

    /// The current phase.
    pub fn phase(&self) -> (r: BridgePhase)
        ensures
            r == self.phase_spec(),
    {
        self.phase
    }

    /// The first thing a worker does: receive, unless the bridge is past that.
    pub fn first_action(&self) -> (r: BridgeAction)
        ensures
            r == (if self.phase_spec() == BridgePhase::Receiving {
                BridgeAction::Receive
            } else {
                BridgeAction::Finish
            }),
    {
        match self.phase {
            BridgePhase::Receiving => BridgeAction::Receive,
            _ => BridgeAction::Finish,
        }
    }

    /// Takes in what the worker reports and says what it must do next.
    pub fn step(&mut self, event: BridgeEvent) -> (r: BridgeAction)
        ensures
            final(self).phase_spec() == next_phase(old(self).phase_spec(), event),
            r == next_action(old(self).phase_spec(), event),
    {
        match (self.phase, event) {
            (BridgePhase::Receiving, BridgeEvent::Received(item)) => {
                self.phase = BridgePhase::Relaying;
                BridgeAction::Relay(item)
            },
            (BridgePhase::Relaying, BridgeEvent::Delivered) => {
                self.phase = BridgePhase::Receiving;
                BridgeAction::Receive
            },
            _ => {
                self.phase = BridgePhase::Finished;
                BridgeAction::Finish
            },
        }
    }

    /// Reports the outcome of a receive: an event to relay, or a closed
    /// collector.
    pub fn after_receive(&mut self, received: Option<LogItem>) -> (r: BridgeAction)
        ensures
            match received {
                Some(item) => {
                    &&& final(self).phase_spec() == next_phase(old(self).phase_spec(), BridgeEvent::Received(item))
                    &&& r == next_action(old(self).phase_spec(), BridgeEvent::Received(item))
                },
                None => {
                    &&& final(self).phase_spec() == next_phase(old(self).phase_spec(), BridgeEvent::SourceClosed)
                    &&& r == next_action(old(self).phase_spec(), BridgeEvent::SourceClosed)
                },
            },
    {
        match received {
            Some(item) => self.step(BridgeEvent::Received(item)),
            None => self.step(BridgeEvent::SourceClosed),
        }
    }

    /// Reports the outcome of a relay: taken by the stream, or the stream is
    /// gone.
    pub fn after_relay(&mut self, delivered: bool) -> (r: BridgeAction)
        ensures
            delivered ==> final(self).phase_spec() == next_phase(old(self).phase_spec(), BridgeEvent::Delivered),
            delivered ==> r == next_action(old(self).phase_spec(), BridgeEvent::Delivered),
            !delivered ==> final(self).phase_spec() == next_phase(old(self).phase_spec(), BridgeEvent::ObserverGone),
            !delivered ==> r == next_action(old(self).phase_spec(), BridgeEvent::ObserverGone),
    {
        if delivered {
            self.step(BridgeEvent::Delivered)
        } else {
            self.step(BridgeEvent::ObserverGone)
        }
    }
}

/// A bridge relays every event the collector hands out, in the order it
/// hands them out, and its stream stays open while the observer keeps up.
pub proof fn lemma_relays_in_order(items: Seq<LogItem>)
    ensures
        relayed(run_actions(BridgePhase::Receiving, smooth_run(items))) == items,
        run_phase(BridgePhase::Receiving, smooth_run(items)) == BridgePhase::Receiving,
    decreases items.len(),
{
    if items.len() > 0 {
        let rest = items.drop_first();
        lemma_relays_in_order(rest);
        let ev = smooth_run(items);
        let item = items[0];
        assert(ev[0] == BridgeEvent::Received(item));
        assert(ev.drop_first() =~= seq![BridgeEvent::Delivered] + smooth_run(rest));
        assert(ev.drop_first()[0] == BridgeEvent::Delivered);
        assert(ev.drop_first().drop_first() =~= smooth_run(rest));
        let tail = run_actions(BridgePhase::Receiving, smooth_run(rest));
        let acts = run_actions(BridgePhase::Receiving, ev);
        assert(run_actions(BridgePhase::Relaying, ev.drop_first())
            == seq![BridgeAction::Receive] + tail);
        assert(acts == seq![BridgeAction::Relay(item)] + (seq![BridgeAction::Receive] + tail));
        assert(acts.drop_first() =~= seq![BridgeAction::Receive] + tail);
        assert(acts.drop_first().drop_first() =~= tail);
        assert(relayed(acts.drop_first()) == relayed(tail));
        assert(relayed(acts) =~= items);
        assert(run_phase(BridgePhase::Relaying, ev.drop_first())
            == run_phase(BridgePhase::Receiving, smooth_run(rest)));
    }
}

/// A run takes one action per event.
pub proof fn lemma_one_action_per_event(phase: BridgePhase, events: Seq<BridgeEvent>)
    ensures
        run_actions(phase, events).len() == events.len(),
    decreases events.len(),
{
    if events.len() > 0 {
        lemma_one_action_per_event(next_phase(phase, events[0]), events.drop_first());
    }
}

/// Once finished, a bridge stays finished and asks for nothing more.
pub proof fn lemma_finished_is_final(events: Seq<BridgeEvent>)
    ensures
        run_phase(BridgePhase::Finished, events) == BridgePhase::Finished,
        forall|i: int| 0 <= i < events.len() ==>
            #[trigger] run_actions(BridgePhase::Finished, events)[i] == BridgeAction::Finish,
    decreases events.len(),
{
    if events.len() > 0 {
        lemma_finished_is_final(events.drop_first());
        lemma_one_action_per_event(BridgePhase::Finished, events.drop_first());
        let acts = run_actions(BridgePhase::Finished, events);
        assert forall|i: int| 0 <= i < events.len() implies #[trigger] acts[i] == BridgeAction::Finish by {
            if i > 0 {
                assert(acts[i] == run_actions(BridgePhase::Finished, events.drop_first())[i - 1]);
            }
        }
    }
}

/// When the observer goes away during a relay, or the collector closes
/// while the bridge waits on it, the bridge finishes at once and never
/// receives from the collector again, whatever is reported afterwards.
pub proof fn lemma_shutdown_is_final(phase: BridgePhase, event: BridgeEvent, later: Seq<BridgeEvent>)
    requires
        (phase == BridgePhase::Relaying && event == BridgeEvent::ObserverGone)
            || (phase == BridgePhase::Receiving && event == BridgeEvent::SourceClosed),
    ensures
        run_phase(phase, seq![event] + later) == BridgePhase::Finished,
        forall|i: int| 0 <= i < later.len() + 1 ==>
            #[trigger] run_actions(phase, seq![event] + later)[i] == BridgeAction::Finish,
{
    let ev = seq![event] + later;
    assert(ev[0] == event);
    assert(ev.drop_first() =~= later);
    lemma_finished_is_final(later);
    lemma_one_action_per_event(BridgePhase::Finished, later);
    let acts = run_actions(phase, ev);
    assert forall|i: int| 0 <= i < later.len() + 1 implies #[trigger] acts[i] == BridgeAction::Finish by {
        if i > 0 {
            assert(acts[i] == run_actions(BridgePhase::Finished, later)[i - 1]);
        }
    }
}

} // verus!
