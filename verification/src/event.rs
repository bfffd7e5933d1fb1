//! Events, the bounded buffer a poller fills, and the multiplexer that lets
//! one route answer either with a single terminal event or with a long-lived
//! generated stream.

use vstd::prelude::*;

verus! {

/// One event of a streaming session, with its payload already rendered.
///
/// Within a session events are delivered in emission order; across sessions
/// no order is promised.
pub enum Event {
    /// A progress report carrying the current position in decimal.
    Position(String),
    /// A normalized metadata record rendered as JSON.
    Metadata(String),
    /// A playback status string.
    Status(String),
    /// A timer-driven frame that keeps idle connections alive; no payload.
    Keepalive,
    /// A terminal failure carrying its message; the session closes after it.
    Error(String),
    /// The position reached the track length; the session closes after it.
    EndOfStream,
}

impl Event {
    /// The name the event carries on the wire. The end-of-stream marker
    /// travels as a `position` frame.
    pub fn wire_name(&self) -> (r: &'static str)
        ensures
            self is Position ==> r@ == "position"@,
            self is Metadata ==> r@ == "metadata"@,
            self is Status ==> r@ == "status"@,
            self is Keepalive ==> r@ == "keepalive"@,
            self is Error ==> r@ == "error"@,
            self is EndOfStream ==> r@ == "position"@,
    {
        match self {
            Event::Position(_) => "position",
            Event::Metadata(_) => "metadata",
            Event::Status(_) => "status",
            Event::Keepalive => "keepalive",
            Event::Error(_) => "error",
            Event::EndOfStream => "position",
        }
    }

    /// The payload the event carries on the wire: its string for the payload
    /// variants, the end-of-stream marker `EOS`, nothing for a keepalive.
    pub fn wire_payload(&self) -> (r: &str)
        ensures
            self matches Event::Position(s) ==> r@ == s@,
            self matches Event::Metadata(s) ==> r@ == s@,
            self matches Event::Status(s) ==> r@ == s@,
            self is Keepalive ==> r@ == ""@,
            self matches Event::Error(s) ==> r@ == s@,
            self is EndOfStream ==> r@ == "EOS"@,
    {
        match self {
            Event::Position(s) => s.as_str(),
            Event::Metadata(s) => s.as_str(),
            Event::Status(s) => s.as_str(),
            Event::Keepalive => "",
            Event::Error(s) => s.as_str(),
            Event::EndOfStream => "EOS",
        }
    }
}

/// The lifecycle of a poller session. `Streaming` is the only state that
/// polls; the other three are terminal — the session's proxy and timers are
/// released and no further event is emitted.
pub enum SessionState {
    /// Polling and emitting.
    Streaming,
    /// The position reached the track length and the end-of-stream marker
    /// went out.
    Ended,
    /// The consumer stopped reading; a send failed and the session left.
    Disconnected,
    /// A remote read failed; the error event went out and the session left.
    Failed,
}

/// How many events may wait unread between a poller and its consumer before
/// the poller blocks.
pub const EVENT_CHANNEL_CAPACITY: usize = 30;

/// What one offered event does to a buffer's contents: appended while the
/// buffer is below capacity, refused otherwise.
pub open spec fn send_step(buf: Seq<Event>, e: Event) -> Seq<Event> {
    if buf.len() < EVENT_CHANNEL_CAPACITY {
        buf.push(e)
    } else {
        buf
    }
}

/// Whether a buffer with these contents accepts one more event.
pub open spec fn send_accepted(buf: Seq<Event>) -> bool {
    buf.len() < EVENT_CHANNEL_CAPACITY
}

/// The bounded first-in-first-out buffer between a poller and the consumer
/// draining its stream. A full buffer refuses new events — the producing
/// session suspends instead of dropping or reordering what it already
/// queued.
pub struct EventBuffer {
    items: Vec<Event>,
}

impl View for EventBuffer {
    type V = Seq<Event>;

    closed spec fn view(&self) -> Seq<Event> {
        self.items@
    }
}

impl EventBuffer {
    /// An empty buffer.
    pub fn new() -> (b: EventBuffer)
        ensures
            b@ == Seq::<Event>::empty(),
    {
        EventBuffer { items: Vec::new() }
    }

    /// How many events wait unread.
    pub fn len(&self) -> (n: usize)
        ensures
            n == self@.len(),
    {
        self.items.len()
    }

    /// Offer one event. Below capacity it is appended behind every earlier
    /// event; at capacity nothing changes and the send is refused, which is
    /// where a live producer suspends.
    pub fn try_send(&mut self, e: Event) -> (accepted: bool)
        ensures
            accepted == send_accepted(old(self)@),
            final(self)@ == send_step(old(self)@, e),
    {
        if self.items.len() < EVENT_CHANNEL_CAPACITY {
            self.items.push(e);
            true
        } else {
            false
        }
    }

    /// Take the oldest event, if one waits.
    pub fn recv(&mut self) -> (r: Option<Event>)
        ensures
            old(self)@.len() == 0 ==> (r is None && final(self)@ == old(self)@),
            old(self)@.len() > 0 ==> (r == Some(old(self)@[0]) && final(self)@ == old(
                self,
            )@.drop_first()),
    {
        if self.items.len() == 0 {
            None
        } else {
            let e = self.items.remove(0);
            proof {
                assert(self.items@ =~= old(self)@.drop_first());
            }
            Some(e)
        }
    }
}

/// A buffer's contents after every event of `incoming` was offered in order
/// with nothing consumed in between.
pub open spec fn send_all(buf: Seq<Event>, incoming: Seq<Event>) -> Seq<Event>
    decreases incoming.len(),
{
    if incoming.len() == 0 {
        buf
    } else {
        send_all(send_step(buf, incoming[0]), incoming.drop_first())
    }
}

proof fn lemma_send_all_from(buf: Seq<Event>, incoming: Seq<Event>)
    requires
        buf.len() <= EVENT_CHANNEL_CAPACITY,
    ensures
        send_all(buf, incoming) == buf + incoming.take(
            if EVENT_CHANNEL_CAPACITY - buf.len() <= incoming.len() {
                EVENT_CHANNEL_CAPACITY - buf.len()
            } else {
                incoming.len() as int
            },
        ),
    decreases incoming.len(),
{
    if incoming.len() == 0 {
        assert(send_all(buf, incoming) =~= buf + incoming.take(0));
    } else if buf.len() < EVENT_CHANNEL_CAPACITY {
        lemma_send_all_from(buf.push(incoming[0]), incoming.drop_first());
        assert(send_all(buf, incoming) =~= buf + incoming.take(
            if EVENT_CHANNEL_CAPACITY - buf.len() <= incoming.len() {
                EVENT_CHANNEL_CAPACITY - buf.len()
            } else {
                incoming.len() as int
            },
        ));
    } else {
        lemma_send_all_from(buf, incoming.drop_first());
        assert(send_all(buf, incoming) =~= buf + incoming.take(0));
    }
}

/// Law: with a consumer that never reads, a session that keeps offering
/// events fills the buffer with exactly its first `EVENT_CHANNEL_CAPACITY`
/// events, in emission order — later sends are refused rather than dropping
/// or reordering anything already queued.
pub proof fn lemma_backpressure_keeps_order(incoming: Seq<Event>)
    ensures
        send_all(Seq::<Event>::empty(), incoming) == incoming.take(
            if incoming.len() <= EVENT_CHANNEL_CAPACITY {
                incoming.len() as int
            } else {
                EVENT_CHANNEL_CAPACITY as int
            },
        ),
{
    lemma_send_all_from(Seq::<Event>::empty(), incoming);
    assert(send_all(Seq::<Event>::empty(), incoming) =~= incoming.take(
        if incoming.len() <= EVENT_CHANNEL_CAPACITY {
            incoming.len() as int
        } else {
            EVENT_CHANNEL_CAPACITY as int
        },
    ));
}

/// One route-level return value with two producing modes: a single terminal
/// event, or a generated stream drained from a session's buffer. Both modes
/// present the same observable contract — an ordered, possibly empty
/// sequence of events handed out from the front, never restarted.
pub enum EventStream {
    /// At most one event, then the stream is over.
    Single(Option<Event>),
    /// The events a poller session queued, oldest first.
    Multi(EventBuffer),
}

impl EventStream {
    /// The events still pending, oldest first.
    pub open spec fn pending(&self) -> Seq<Event> {
        match self {
            EventStream::Single(slot) => match slot {
                Some(e) => seq![*e],
                None => Seq::<Event>::empty(),
            },
            EventStream::Multi(buf) => buf@,
        }
    }

    /// Yield the next pending event; `None` once the stream is drained.
    pub fn next(&mut self) -> (r: Option<Event>)
        ensures
            old(self).pending().len() == 0 ==> (r is None && final(self).pending() == old(
                self).pending()),
            old(self).pending().len() > 0 ==> (r == Some(old(self).pending()[0]) && final(
                self).pending() == old(self).pending().drop_first()),
    {
        match self {
            EventStream::Single(slot) => {
                let r = slot.take();
                proof {
                    if old(self).pending().len() > 0 {
                        assert(self.pending() =~= old(self).pending().drop_first());
                    }
                }
                r
            },
            EventStream::Multi(buf) => buf.recv(),
        }
    }
}

} // verus!
