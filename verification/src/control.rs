//! Control events from the service host and the stop signal they become.

use vstd::prelude::*;

verus! {

/// A control event delivered by the service host.
#[derive(Clone, Copy, Debug, PartialEq, Eq, Structural)]
pub enum ControlEvent {
    /// The host asks for the current status.
    Interrogate,
    /// The host asks the service to stop.
    Stop,
    /// Any other event.
    Other,
}

/// The answer given to the host for a control event.
#[derive(Clone, Copy, Debug, PartialEq, Eq, Structural)]
pub enum ControlReply {
    /// The event was taken.
    NoError,
    /// The event is not supported.
    NotImplemented,
}

/// What to do about one control event.
#[derive(Clone, Copy, Debug, PartialEq, Eq, Structural)]
pub struct Handled {
    /// The answer for the host.
    pub reply: ControlReply,
    /// Whether a stop signal is to be posted to the supervision loop.
    pub post_stop: bool,
}

/// The answer to `event` and the latch after it, for a handler whose
/// latch reads `stop_posted`.
pub open spec fn handled(stop_posted: bool, event: ControlEvent) -> (bool, Handled) {
    match event {
        ControlEvent::Interrogate => (
            stop_posted,
            Handled { reply: ControlReply::NoError, post_stop: false },
        ),
        ControlEvent::Stop => (
            true,
            Handled { reply: ControlReply::NoError, post_stop: !stop_posted },
        ),
        ControlEvent::Other => (
            stop_posted,
            Handled { reply: ControlReply::NotImplemented, post_stop: false },
        ),
    }
}

/// Answers control events and posts at most one stop signal, however
/// often the host asks for a stop.
#[derive(Debug)]
pub struct ControlHandler {
    stop_posted: bool,
}

impl ControlHandler {
    /// Whether a stop signal has been posted.
    pub closed spec fn stop_posted(&self) -> bool {
        self.stop_posted
    }

    /// A handler that has posted nothing.
    pub fn new() -> (handler: ControlHandler)
        ensures
            !handler.stop_posted(),
    {
        ControlHandler { stop_posted: false }
    }

    /// Whether a stop signal has been posted.
    pub fn has_posted_stop(&self) -> (posted: bool)
        ensures
            posted == self.stop_posted(),
    {
        self.stop_posted
    }

    /// Answers one control event. A request for status changes nothing.
    /// The first stop request posts the signal; a later one is
    /// acknowledged and posts nothing. Every other event is declined.
    pub fn handle(&mut self, event: ControlEvent) -> (outcome: Handled)
        ensures
            (final(self).stop_posted(), outcome) == handled(old(self).stop_posted(), event),
    {
        match event {
            ControlEvent::Interrogate => Handled { reply: ControlReply::NoError, post_stop: false },
            ControlEvent::Stop => {
                let first = !self.stop_posted;
                self.stop_posted = true;
                Handled { reply: ControlReply::NoError, post_stop: first }
            },
            ControlEvent::Other => Handled {
                reply: ControlReply::NotImplemented,
                post_stop: false,
            },
        }
    }
}

/// The latch after a handler whose latch reads `stop_posted` has answered
/// `events` in order.
pub open spec fn latch_after(stop_posted: bool, events: Seq<ControlEvent>) -> bool
    decreases events.len(),
{
    if events.len() == 0 {
        stop_posted
    } else {
        handled(latch_after(stop_posted, events.drop_last()), events.last()).0
    }
}

/// How many stop signals such a handler posts while answering `events`.
pub open spec fn stops_posted(stop_posted: bool, events: Seq<ControlEvent>) -> nat
    decreases events.len(),
{
    if events.len() == 0 {
        0
    } else {
        stops_posted(stop_posted, events.drop_last()) + if handled(
            latch_after(stop_posted, events.drop_last()),
            events.last(),
        ).1.post_stop {
            1nat
        } else {
            0nat
        }
    }
}

/// However often and in whatever order the host delivers its events, one
/// stop signal is posted if a stop is among them and the latch was open,
/// and none otherwise. A stop that is delivered again is acknowledged
/// like the first and has no further effect.
pub proof fn lemma_stop_is_posted_once(stop_posted: bool, events: Seq<ControlEvent>)
    ensures
        latch_after(stop_posted, events) == (stop_posted || events.contains(ControlEvent::Stop)),
        stops_posted(stop_posted, events) == if !stop_posted && events.contains(
            ControlEvent::Stop,
        ) {
            1nat
        } else {
            0nat
        },
        handled(true, ControlEvent::Stop) == (
            true,
            Handled { reply: ControlReply::NoError, post_stop: false },
        ),
    decreases events.len(),
{
    if events.len() > 0 {
        let before = events.drop_last();
        lemma_stop_is_posted_once(stop_posted, before);
        if events.contains(ControlEvent::Stop) && events.last() != ControlEvent::Stop {
            let i = choose|i: int| 0 <= i < events.len() && events[i] == ControlEvent::Stop;
            assert(before[i] == ControlEvent::Stop);
        }
    }
}

/// How a bounded wait on the control channel ended.
#[derive(Clone, Copy, Debug, PartialEq, Eq, Structural)]
pub enum WaitOutcome {
    /// A stop signal arrived.
    StopSignal,
    /// The time ran out with no signal.
    TimedOut,
    /// The sending side is gone for good.
    Closed,
}

impl WaitOutcome {
    /// A closed channel counts as a stop signal, so that a loop whose
    /// control path was torn down ends instead of waiting for ever.
    pub open spec fn asks_to_stop(self) -> bool {
        self != WaitOutcome::TimedOut
    }

    /// Whether this outcome ends supervision.
    pub fn requests_stop(&self) -> (stop: bool)
        ensures
            stop == self.asks_to_stop(),
    {
        match self {
            WaitOutcome::StopSignal => true,
            WaitOutcome::TimedOut => false,
            WaitOutcome::Closed => true,
        }
    }
}

} // verus!
