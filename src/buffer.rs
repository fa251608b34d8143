use vstd::prelude::*;
use crate::events::InputMethodEvent;
use crate::message::{decode_message, event_of, keeps_receiving, InboundMessage};

verus! {

/// The events that one decoded message adds to the buffer: none or one.
pub open spec fn added_by(m: InboundMessage) -> Seq<InputMethodEvent> {
    match event_of(m.member_view(), m.args@) {
        Some(e) => seq![e],
        None => Seq::empty(),
    }
}

/// The events that a sequence of messages decodes to, in arrival order.
pub open spec fn events_of(ms: Seq<InboundMessage>) -> Seq<InputMethodEvent>
    decreases ms.len(),
{
    if ms.len() == 0 {
        Seq::empty()
    } else {
        events_of(ms.drop_last()) + added_by(ms.last())
    }
}

/// The pending contents of a buffer holding `pending` after each message
/// of `ms` was handled in turn.
pub open spec fn after_handling(pending: Seq<InputMethodEvent>, ms: Seq<InboundMessage>) -> Seq<
    InputMethodEvent,
>
    decreases ms.len(),
{
    if ms.len() == 0 {
        pending
    } else {
        after_handling(pending, ms.drop_last()) + added_by(ms.last())
    }
}

/// The decoded events that wait to be drained, in arrival order.
pub struct EventBuffer {
    pending: Vec<InputMethodEvent>,
}

impl View for EventBuffer {
    type V = Seq<InputMethodEvent>;

    closed spec fn view(&self) -> Seq<InputMethodEvent> {
        self.pending@
    }
}

impl EventBuffer {
    pub fn new() -> (r: EventBuffer)
        ensures
            r@ == Seq::<InputMethodEvent>::empty(),
    {
        EventBuffer { pending: Vec::new() }
    }

    pub fn len(&self) -> (r: usize)
        ensures
            r == self@.len(),
    {
        self.pending.len()
    }

    /// Decodes `msg`, appends the event it yields, if any, and returns
    /// whether the subscription should go on receiving.
    pub fn handle_message(&mut self, msg: &InboundMessage) -> (r: bool)
        ensures
            final(self)@ == old(self)@ + added_by(*msg),
            r == keeps_receiving(msg.member_view(), msg.args@),
    {
        let d = decode_message(msg);
        match d.event {
            Some(e) => {
                self.pending.push(e);
            },
            None => {},
        }
        proof {
            assert(final(self)@ =~= old(self)@ + added_by(*msg));
        }
        d.keep_receiving
    }

    /// Hands out every pending event, in arrival order, and leaves the
    /// buffer empty.
    pub fn get_new_events(&mut self) -> (r: Vec<InputMethodEvent>)
        ensures
            r@ == old(self)@,
            final(self)@ == Seq::<InputMethodEvent>::empty(),
    {
        let mut taken: Vec<InputMethodEvent> = Vec::new();
        std::mem::swap(&mut taken, &mut self.pending);
        taken
    }
}

/// Handling messages one after another appends the events they decode to,
/// in arrival order, after what was pending before.
pub proof fn lemma_handling_appends(pending: Seq<InputMethodEvent>, ms: Seq<InboundMessage>)
    ensures
        after_handling(pending, ms) == pending + events_of(ms),
    decreases ms.len(),
{
    if ms.len() > 0 {
        lemma_handling_appends(pending, ms.drop_last());
        assert(after_handling(pending, ms) =~= pending + events_of(ms));
    } else {
        assert(pending + events_of(ms) =~= pending);
    }
}

/// Drain law: a drain leaves the buffer empty, so the next drain returns
/// exactly the events that the messages handled in between decode to, in
/// arrival order; with no message in between it returns nothing.
pub proof fn lemma_drain_law(ms: Seq<InboundMessage>)
    ensures
        after_handling(Seq::empty(), ms) == events_of(ms),
        ms.len() == 0 ==> after_handling(Seq::empty(), ms) == Seq::<InputMethodEvent>::empty(),
{
    lemma_handling_appends(Seq::empty(), ms);
    assert(Seq::<InputMethodEvent>::empty() + events_of(ms) =~= events_of(ms));
}

} // verus!
