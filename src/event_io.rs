//! Ordered event queues: a read-only one that a process call hands in, and an
//! append-only one that it fills.
use vstd::prelude::*;
use crate::events::UnknownEvent;

verus! {

/// Whether the events' times never decrease along the sequence.
pub open spec fn is_time_ordered<'a>(events: Seq<UnknownEvent<'a>>) -> bool {
    forall|i: int, j: int| 0 <= i <= j < events.len() ==> events[i].header().time <= events[j].header().time
}

/// A read-only, random-access queue of events, borrowed from the caller.
pub struct InputEvents<'a> {
    events: &'a [UnknownEvent<'a>],
}

impl<'a> View for InputEvents<'a> {
    type V = Seq<UnknownEvent<'a>>;

    closed spec fn view(&self) -> Seq<UnknownEvent<'a>> {
        self.events@
    }
}

impl<'a> InputEvents<'a> {
    /// A queue over `events`, in their order.
    pub fn from_buffer(events: &'a [UnknownEvent<'a>]) -> (r: InputEvents<'a>)
        ensures
            r@ == events@,
    {
        InputEvents { events }
    }

    /// A queue with no events.
    pub fn empty() -> (r: InputEvents<'a>)
        ensures
            r@.len() == 0,
    {
        InputEvents { events: &[] }
    }

    pub fn len(&self) -> (r: usize)
        ensures
            r == self@.len(),
    {
        self.events.len()
    }

    pub fn is_empty(&self) -> (r: bool)
        ensures
            r == (self@.len() == 0),
    {
        self.events.len() == 0
    }

    /// The event at `index`, or `None` past the end.
    pub fn get(&self, index: usize) -> (r: Option<&'a UnknownEvent<'a>>)
        ensures
            index < self@.len() ==> r == Some(&self@[index as int]),
            index >= self@.len() ==> r is None,
    {
        if index < self.events.len() {
            Some(&self.events[index])
        } else {
            None
        }
    }
}

/// The error of a push into a full output queue.
#[derive(Clone, Copy, Debug, PartialEq, Eq, Structural)]
pub struct TryPushError;

/// An append-only queue of events, optionally bounded. Events already in it
/// never change.
pub struct OutputEvents<'a> {
    events: Vec<UnknownEvent<'a>>,
    capacity: Option<usize>,
}

impl<'a> View for OutputEvents<'a> {
    type V = Seq<UnknownEvent<'a>>;

    closed spec fn view(&self) -> Seq<UnknownEvent<'a>> {
        self.events@
    }
}

impl<'a> OutputEvents<'a> {
    /// The bound on the number of events, if any.
    pub closed spec fn spec_capacity(&self) -> Option<usize> {
        self.capacity
    }

    /// Whether one more event fits.
    pub open spec fn has_room(&self) -> bool {
        match self.spec_capacity() {
            Some(c) => self@.len() < c,
            None => true,
        }
    }

    /// An empty, unbounded queue.
    pub fn new() -> (r: OutputEvents<'a>)
        ensures
            r@.len() == 0,
            r.spec_capacity() is None,
    {
        OutputEvents { events: Vec::new(), capacity: None }
    }

    /// An empty queue that takes at most `capacity` events.
    pub fn with_capacity_limit(capacity: usize) -> (r: OutputEvents<'a>)
        ensures
            r@.len() == 0,
            r.spec_capacity() == Some(capacity),
    {
        OutputEvents { events: Vec::new(), capacity: Some(capacity) }
    }

    pub fn len(&self) -> (r: usize)
        ensures
            r == self@.len(),
    {
        self.events.len()
    }

    pub fn is_empty(&self) -> (r: bool)
        ensures
            r == (self@.len() == 0),
    {
        self.events.len() == 0
    }

    /// Appends `event` after the events already pushed, unless the queue is full.
    pub fn try_push(&mut self, event: UnknownEvent<'a>) -> (r: Result<(), TryPushError>)
        ensures
            final(self).spec_capacity() == old(self).spec_capacity(),
            r is Ok <==> old(self).has_room(),
            r is Ok ==> final(self)@ == old(self)@.push(event),
            r is Err ==> final(self)@ == old(self)@,
    {
        let full = match self.capacity {
            Some(c) => self.events.len() >= c,
            None => false,
        };
        if full {
            Err(TryPushError)
        } else {
            self.events.push(event);
            Ok(())
        }
    }

    /// The events pushed so far, in push order.
    pub fn as_slice(&self) -> (r: &[UnknownEvent<'a>])
        ensures
            r@ == self@,
    {
        self.events.as_slice()
    }

    /// The event at `index` in push order, or `None` past the end.
    pub fn get(&self, index: usize) -> (r: Option<&UnknownEvent<'a>>)
        ensures
            index < self@.len() ==> r == Some(&self@[index as int]),
            index >= self@.len() ==> r is None,
    {
        if index < self.events.len() {
            Some(&self.events[index])
        } else {
            None
        }
    }
}

/// Pushing an event no earlier than the last one keeps a time-ordered queue
/// time-ordered, and leaves the events before it in place: a queue filled in
/// non-decreasing time is read back in push order, still time-ordered.
pub proof fn lemma_push_keeps_time_order<'a>(queue: Seq<UnknownEvent<'a>>, event: UnknownEvent<'a>)
    requires
        is_time_ordered(queue),
        queue.len() > 0 ==> queue.last().header().time <= event.header().time,
    ensures
        is_time_ordered(queue.push(event)),
        queue.push(event).subrange(0, queue.len() as int) == queue,
        queue.push(event).last() == event,
{
    let q = queue.push(event);
    assert(q.subrange(0, queue.len() as int) =~= queue);
    assert forall|i: int, j: int| 0 <= i <= j < q.len() implies q[i].header().time <= q[j].header().time by {
        if j == queue.len() && i < j {
            assert(queue[i].header().time <= queue.last().header().time);
        }
    }
}

/// Events appended one after another, each no earlier than the one before,
/// are time-ordered as a whole: every later event in the queue is no earlier
/// than every earlier one.
pub proof fn lemma_appended_in_time_order<'a>(events: Seq<UnknownEvent<'a>>)
    requires
        forall|i: int| 0 <= i < events.len() - 1 ==> #[trigger] events[i].header().time <= events[i + 1].header().time,
    ensures
        is_time_ordered(events),
    decreases events.len(),
{
    if events.len() > 0 {
        let front = events.drop_last();
        assert forall|i: int| 0 <= i < front.len() - 1 implies #[trigger] front[i].header().time <= front[i
            + 1].header().time by {
            assert(events[i].header().time <= events[i + 1].header().time);
        }
        lemma_appended_in_time_order(front);
        assert(events =~= front.push(events.last()));
        if front.len() > 0 {
            assert(front.last().header().time <= events.last().header().time) by {
                assert(events[front.len() - 1].header().time <= events[front.len() as int].header().time);
            }
        }
        lemma_push_keeps_time_order(front, events.last());
    }
}

} // verus!
