use vstd::prelude::*;
use std::sync::mpsc::Sender;
use crate::channel::send;
use crate::channel::was_sent;
use crate::frame::Event;

verus! {

/// What an event buffer has done with the events it was given.
pub struct EventBufferView {
    /// The events that wait for a destination, oldest first.
    pub buffered: Seq<Event>,
    /// The events that were sent on, oldest first, each with the destination
    /// it was sent to.
    pub forwarded: Seq<(Sender<Event>, Event)>,
    /// Where events are sent, once that is known.
    pub destination: Option<Sender<Event>>,
}

/// Keeps the events of a device until there is somewhere to send them, and
/// sends them straight on from then. No event is lost, sent twice or
/// overtaken by a later one.
pub struct EventBuffer {
    buffered: Vec<Event>,
    sink: Option<Sender<Event>>,
    forwarded: Ghost<Seq<(Sender<Event>, Event)>>,
}

impl View for EventBuffer {
    type V = EventBufferView;

    closed spec fn view(&self) -> EventBufferView {
        EventBufferView {
            buffered: self.buffered@,
            forwarded: self.forwarded@,
            destination: self.sink,
        }
    }
}

/// With a destination nothing waits.
pub open spec fn settled_buffer(v: EventBufferView) -> bool {
    v.destination is Some ==> v.buffered.len() == 0
}

/// `events`, each sent to `dest`.
pub open spec fn sent_to(dest: Sender<Event>, events: Seq<Event>) -> Seq<(Sender<Event>, Event)> {
    Seq::new(events.len(), |i: int| (dest, events[i]))
}

/// The events of `forwarded`, without their destinations.
pub open spec fn events_of(forwarded: Seq<(Sender<Event>, Event)>) -> Seq<Event> {
    Seq::new(forwarded.len(), |i: int| forwarded[i].1)
}

/// `v` after it took `event`: the event is sent to the destination if there
/// is one, and kept otherwise.
pub open spec fn after_callback(v: EventBufferView, event: Event) -> EventBufferView {
    match v.destination {
        Some(dest) => EventBufferView { forwarded: v.forwarded.push((dest, event)), ..v },
        None => EventBufferView { buffered: v.buffered.push(event), ..v },
    }
}

/// `v` after `dest` became its destination: what waited is sent to `dest`,
/// oldest first, and an earlier destination gets nothing more.
pub open spec fn after_upgrade(v: EventBufferView, dest: Sender<Event>) -> EventBufferView {
    EventBufferView {
        buffered: Seq::empty(),
        forwarded: v.forwarded + sent_to(dest, v.buffered),
        destination: Some(dest),
    }
}

impl EventBuffer {
    /// A buffer without a destination, which holds nothing.
    pub fn new() -> (buffer: EventBuffer)
        ensures
            buffer@ == (EventBufferView {
                buffered: Seq::empty(),
                forwarded: Seq::empty(),
                destination: None,
            }),
    {
        EventBuffer { buffered: Vec::new(), sink: None, forwarded: Ghost(Seq::empty()) }
    }

    /// Takes an event: it is sent to the destination if there is one, and
    /// kept otherwise.
    pub fn callback(&mut self, event: Event)
        ensures
            final(self)@ == after_callback(old(self)@, event),
            old(self)@.destination is Some ==> was_sent(old(self)@.destination->Some_0, event),
    {
        match &self.sink {
            Some(dest) => {
                let _ = send(dest, event);
                self.forwarded = Ghost(self.forwarded@.push((*dest, event)));
            },
            None => {
                self.buffered.push(event);
            },
        }
    }

    /// Sets the destination. The events that waited are sent to it, oldest
    /// first; an earlier destination gets nothing from now on.
    pub fn upgrade(&mut self, dest: Sender<Event>)
        ensures
            final(self)@ == after_upgrade(old(self)@, dest),
            forall|i: int|
                0 <= i < old(self)@.buffered.len() ==> was_sent(
                    dest,
                    #[trigger] old(self)@.buffered[i],
                ),
    {
        let n = self.buffered.len();
        let mut i: usize = 0;
        while i < n
            invariant
                i <= n,
                n == self.buffered@.len(),
                self.buffered@ == old(self).buffered@,
                self.sink == old(self).sink,
                self.forwarded@ == old(self).forwarded@ + sent_to(
                    dest,
                    old(self).buffered@.take(i as int),
                ),
                forall|j: int| 0 <= j < i ==> was_sent(dest, #[trigger] old(self).buffered@[j]),
            decreases n - i,
        {
            let event = self.buffered[i];
            let _ = send(&dest, event);
            proof {
                assert(old(self).buffered@.take(i + 1) =~= old(self).buffered@.take(i as int).push(
                    event,
                ));
                assert(self.forwarded@.push((dest, event)) =~= old(self).forwarded@ + sent_to(
                    dest,
                    old(self).buffered@.take(i + 1),
                ));
            }
            self.forwarded = Ghost(self.forwarded@.push((dest, event)));
            i += 1;
        }
        proof {
            assert(old(self).buffered@.take(n as int) =~= old(self).buffered@);
        }
        self.buffered = Vec::new();
        self.sink = Some(dest);
    }
}

/// Every event that a buffer was given is either waiting or was sent on, in
/// the order in which the events came: taking an event and setting a
/// destination never lose, repeat or reorder one. With a destination
/// nothing is left waiting, and an event that is taken then goes to the
/// destination that was set last and to no other.
pub proof fn law_events_keep_their_order(v: EventBufferView, event: Event, dest: Sender<Event>)
    requires
        settled_buffer(v),
    ensures
        settled_buffer(after_callback(v, event)),
        settled_buffer(after_upgrade(v, dest)),
        events_of(after_callback(v, event).forwarded) + after_callback(v, event).buffered == (
        events_of(v.forwarded) + v.buffered).push(event),
        events_of(after_upgrade(v, dest).forwarded) + after_upgrade(v, dest).buffered == events_of(
            v.forwarded,
        ) + v.buffered,
        after_callback(after_upgrade(v, dest), event).forwarded == after_upgrade(
            v,
            dest,
        ).forwarded.push((dest, event)),
{
    let taken = after_callback(v, event);
    let upgraded = after_upgrade(v, dest);
    assert(events_of(taken.forwarded) + taken.buffered =~= (events_of(v.forwarded)
        + v.buffered).push(event));
    assert(events_of(upgraded.forwarded) + upgraded.buffered =~= events_of(v.forwarded)
        + v.buffered);
}

} // verus!
