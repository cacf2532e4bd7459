//! The buffer of events that wait for the next dispatch.

use vstd::prelude::*;
use std::collections::VecDeque;
use crate::event::{Event, Never, WindowId};
use crate::geometry::Scalar;

verus! {

/// A size in logical pixels.
#[derive(Clone, Copy, Debug, PartialEq, Eq, Structural, Hash)]
pub struct LogicalSize {
    pub width: Scalar,
    pub height: Scalar,
}

/// An event that is resolved by the loop itself before anything reaches the
/// application.
#[non_exhaustive]
#[derive(Clone, Copy, Debug, PartialEq, Eq, Structural, Hash)]
pub enum EventProxy {
    DpiChangedProxy { window_id: WindowId, suggested_size: LogicalSize, scale_factor: Scalar },
}

/// What the queue holds: an event that is ready for the application, or one
/// that the loop has to resolve first.
#[non_exhaustive]
#[derive(Clone, Debug, PartialEq, Eq)]
pub enum EventWrapper {
    StaticEvent(Event<Never>),
    EventProxy(EventProxy),
}

/// Pending events, oldest first.
pub struct EventQueue {
    events: VecDeque<EventWrapper>,
}

impl View for EventQueue {
    type V = Seq<EventWrapper>;

    closed spec fn view(&self) -> Seq<EventWrapper> {
        self.events@
    }
}

impl EventQueue {
    /// A queue with nothing pending.
    pub fn new() -> (queue: EventQueue)
        ensures
            queue@ == Seq::<EventWrapper>::empty(),
    {
        EventQueue { events: VecDeque::new() }
    }

    /// The number of pending events.
    pub fn len(&self) -> (len: usize)
        ensures
            len == self@.len(),
    {
        self.events.len()
    }

    /// Whether nothing is pending.
    pub fn is_empty(&self) -> (empty: bool)
        ensures
            empty == (self@.len() == 0),
    {
        self.events.len() == 0
    }

    /// Appends `event` behind everything that is pending.
    pub fn queue_event(&mut self, event: EventWrapper)
        ensures
            final(self)@ == old(self)@.push(event),
    {
        self.events.push_back(event);
    }

    /// Appends the events of `batch` in their order and leaves `batch` empty.
    pub fn queue_events(&mut self, batch: &mut VecDeque<EventWrapper>)
        ensures
            final(self)@ == old(self)@ + old(batch)@,
            final(batch)@ == Seq::<EventWrapper>::empty(),
    {
        self.events.append(batch);
    }

    /// Takes the oldest pending event, if there is one.
    pub fn pop(&mut self) -> (event: Option<EventWrapper>)
        ensures
            old(self)@.len() == 0 ==> event is None && final(self)@ == old(self)@,
            old(self)@.len() > 0 ==> event == Some(old(self)@[0]) && final(self)@ == old(self)@.drop_first(),
    {
        let event = self.events.pop_front();
        proof {
            if old(self)@.len() > 0 {
                assert(old(self)@.subrange(1, old(self)@.len() as int) =~= old(self)@.drop_first());
            }
        }
        event
    }

    /// Takes everything that is pending, oldest first, and leaves the queue empty.
    pub fn drain(&mut self) -> (events: VecDeque<EventWrapper>)
        ensures
            events@ == old(self)@,
            final(self)@ == Seq::<EventWrapper>::empty(),
    {
        let mut events: VecDeque<EventWrapper> = VecDeque::new();
        events.append(&mut self.events);
        proof {
            assert(events@ =~= old(self)@);
        }
        events
    }
}

} // verus!
