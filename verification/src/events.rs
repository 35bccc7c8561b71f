use vstd::prelude::*;

use crate::input::InputId;
use crate::input::InputSource;
use crate::input::SelectEvent;
use crate::input::SelectKind;

verus! {

/// How visible a session is to the user.
#[derive(Clone, Copy, Debug, PartialEq, Eq, Structural)]
pub enum Visibility {
    /// Session fully displayed to user
    Visible,
    /// Session still visible, but is not the primary focus
    VisibleBlurred,
    /// Session not visible
    Hidden,
}

/// An event that a device reports to the page. `F` is the frame that a
/// select event carries.
#[derive(Clone, Debug)]
pub enum Event<F> {
    /// Input source connected
    AddInput(InputSource),
    /// Input source disconnected
    RemoveInput(InputId),
    /// Input source changed
    UpdateInput(InputId, InputSource),
    /// Session ended by device
    SessionEnd,
    /// Session focused/blurred/etc
    VisibilityChange(Visibility),
    /// Selection started / ended
    Select(InputId, SelectKind, SelectEvent, F),
}

/// Buffers events while no destination has been set, and forwards them
/// once one has. `S` is the destination that events are sent to.
pub enum EventBuffer<E, S> {
    Buffered(Vec<E>),
    Sink(S),
}

impl<E, S> EventBuffer<E, S> {
    /// The events that wait for a destination (none once there is one).
    pub open spec fn pending(&self) -> Seq<E> {
        match self {
            EventBuffer::Buffered(events) => events@,
            EventBuffer::Sink(_) => Seq::empty(),
        }
    }

    /// A buffer that holds no event and has no destination yet.
    pub fn new() -> (b: Self)
        ensures
            b is Buffered,
            b.pending() == Seq::<E>::empty(),
    {
        EventBuffer::Buffered(Vec::new())
    }

    /// Whether a destination has been set.
    pub fn has_sink(&self) -> (r: bool)
        ensures
            r == (self is Sink),
    {
        match self {
            EventBuffer::Buffered(_) => false,
            EventBuffer::Sink(_) => true,
        }
    }

    /// The destination, once there is one.
    pub fn sink(&self) -> (r: Option<&S>)
        ensures
            match self {
                EventBuffer::Buffered(_) => r is None,
                EventBuffer::Sink(s) => r == Some(s),
            },
    {
        match self {
            EventBuffer::Buffered(_) => None,
            EventBuffer::Sink(s) => Some(s),
        }
    }

    /// Reports an event. Without a destination the event is kept, after the
    /// ones kept before it; with one, the event is handed back to be sent there.
    pub fn callback(&mut self, event: E) -> (to_send: Option<E>)
        ensures
            *old(self) is Buffered ==> {
                &&& *final(self) is Buffered
                &&& final(self).pending() == old(self).pending().push(event)
                &&& to_send is None
            },
            *old(self) is Sink ==> {
                &&& *final(self) == *old(self)
                &&& to_send == Some(event)
            },
    {
        match self {
            EventBuffer::Buffered(events) => {
                events.push(event);
                None
            },
            EventBuffer::Sink(_) => Some(event),
        }
    }

    /// Sets the destination. The events kept so far are handed back, in the
    /// order in which they were reported, to be sent to it.
    pub fn upgrade(&mut self, dest: S) -> (pending: Vec<E>)
        ensures
            *final(self) == EventBuffer::<E, S>::Sink(dest),
            pending@ == old(self).pending(),
    {
        let mut other = EventBuffer::Sink(dest);
        std::mem::swap(self, &mut other);
        match other {
            EventBuffer::Buffered(events) => events,
            EventBuffer::Sink(_) => Vec::new(),
        }
    }
}

impl<E, S> Default for EventBuffer<E, S> {
    fn default() -> (b: Self)
        ensures
            b is Buffered,
            b.pending() == Seq::<E>::empty(),
    {
        EventBuffer::Buffered(Vec::new())
    }
}

/// Events reported before a destination is set are handed over, when it is
/// set, in the order in which they were reported; events reported after it
/// go straight to it.
pub proof fn lemma_buffered_events_handed_over<E, S>(
    b0: EventBuffer<E, S>,
    b1: EventBuffer<E, S>,
    b2: EventBuffer<E, S>,
    e1: E,
    e2: E,
    dest: S,
    pending: Seq<E>,
)
    requires
        b0 is Buffered,
        b1 is Buffered,
        b1.pending() == b0.pending().push(e1),
        b2 == EventBuffer::<E, S>::Sink(dest),
        pending == b1.pending(),
    ensures
        pending == b0.pending() + seq![e1],
        b2.pending() == Seq::<E>::empty(),
        b2.sink_of() == Some(dest),
{
    assert(pending =~= b0.pending() + seq![e1]);
}

impl<E, S> EventBuffer<E, S> {
    /// The destination, once there is one.
    pub open spec fn sink_of(&self) -> Option<S> {
        match self {
            EventBuffer::Buffered(_) => None,
            EventBuffer::Sink(s) => Some(*s),
        }
    }
}

} // verus!
