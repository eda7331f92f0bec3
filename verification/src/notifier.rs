//! Notifier bridge: which callback each listener receives for an event, and
//! the law that the shared dispatch loop delivers every event to every
//! listener, in receipt order.
//!
//! The background loop itself is owned by the external messaging runtime;
//! this module fixes its dispatch decision and the shape of the resulting
//! invocation log.

use vstd::prelude::*;

use crate::message::PyCanMessage;

verus! {

/// One thing the dispatch loop pulled from the transport: a frame, or a
/// transport-level error description.
pub enum BusEvent {
    Frame(PyCanMessage),
    TransportError(String),
}

/// The single callback a listener receives for one event, named after the
/// two operations of a listener.
pub enum ListenerCall<'a> {
    OnMessageReceived(&'a PyCanMessage),
    OnError(&'a String),
}

/// Chooses the callback a listener receives for an event: a frame goes to
/// the rx callback, a transport error to the error callback — one of the
/// two, never both.
pub fn route_event<'a>(event: &'a BusEvent) -> (call: ListenerCall<'a>)
    ensures
        event matches BusEvent::Frame(m) ==> (call matches ListenerCall::OnMessageReceived(f) && f
            == m),
        event matches BusEvent::TransportError(c) ==> (call matches ListenerCall::OnError(e) && e
            == c),
{
    match event {
        BusEvent::Frame(m) => ListenerCall::OnMessageReceived(m),
        BusEvent::TransportError(c) => ListenerCall::OnError(c),
    }
}

/// The invocations the loop makes for one event: every one of the `n`
/// registered listeners, in registration order, receives the event.
pub open spec fn spec_event_round(n: nat, event: BusEvent) -> Seq<(nat, BusEvent)>
    decreases n,
{
    if n == 0 {
        Seq::empty()
    } else {
        spec_event_round((n - 1) as nat, event).push((((n - 1) as nat), event))
    }
}

/// The full invocation log of a run: events in receipt order, and within
/// each event the listeners in registration order.
pub open spec fn spec_dispatch_log(n: nat, events: Seq<BusEvent>) -> Seq<(nat, BusEvent)>
    decreases events.len(),
{
    if events.len() == 0 {
        Seq::empty()
    } else {
        spec_event_round(n, events.first()) + spec_dispatch_log(n, events.drop_first())
    }
}

/// The events listener `i` receives, in invocation order.
pub open spec fn spec_calls_to(i: nat, log: Seq<(nat, BusEvent)>) -> Seq<BusEvent>
    decreases log.len(),
{
    if log.len() == 0 {
        Seq::empty()
    } else if log.last().0 == i {
        spec_calls_to(i, log.drop_last()).push(log.last().1)
    } else {
        spec_calls_to(i, log.drop_last())
    }
}

/// Within one event's round, listener `i` is invoked exactly once when it is
/// registered, and not at all otherwise.
proof fn lemma_event_round_calls(n: nat, event: BusEvent, i: nat)
    ensures
        i < n ==> spec_calls_to(i, spec_event_round(n, event)) == seq![event],
        i >= n ==> spec_calls_to(i, spec_event_round(n, event)) == Seq::<BusEvent>::empty(),
    decreases n,
{
    if n > 0 {
        lemma_event_round_calls((n - 1) as nat, event, i);
        assert(spec_event_round(n, event).drop_last() =~= spec_event_round((n - 1) as nat, event));
        if i < n {
            assert(spec_calls_to(i, spec_event_round(n, event)) =~= seq![event]);
        }
    }
}

/// A listener's view of a concatenated log is its view of the two halves,
/// in order.
proof fn lemma_calls_to_add(i: nat, a: Seq<(nat, BusEvent)>, b: Seq<(nat, BusEvent)>)
    ensures
        spec_calls_to(i, a + b) == spec_calls_to(i, a) + spec_calls_to(i, b),
    decreases b.len(),
{
    if b.len() == 0 {
        assert(a + b =~= a);
        assert(spec_calls_to(i, a) + spec_calls_to(i, b) =~= spec_calls_to(i, a));
    } else {
        lemma_calls_to_add(i, a, b.drop_last());
        assert((a + b).drop_last() =~= a + b.drop_last());
        assert((a + b).last() == b.last());
        assert(spec_calls_to(i, a + b) =~= spec_calls_to(i, a) + spec_calls_to(i, b));
    }
}

/// Law: under the shared dispatch loop, every registered listener receives
/// every event, in receipt order.  In particular any two registered
/// listeners receive exactly the same events — no frame reaches one of them
/// but not another.
pub proof fn lemma_every_listener_hears_every_event(n: nat, events: Seq<BusEvent>, i: nat)
    requires
        i < n,
    ensures
        spec_calls_to(i, spec_dispatch_log(n, events)) == events,
    decreases events.len(),
{
    if events.len() == 0 {
        assert(spec_calls_to(i, spec_dispatch_log(n, events)) =~= events);
    } else {
        lemma_every_listener_hears_every_event(n, events.drop_first(), i);
        lemma_event_round_calls(n, events.first(), i);
        lemma_calls_to_add(
            i,
            spec_event_round(n, events.first()),
            spec_dispatch_log(n, events.drop_first()),
        );
        assert(spec_calls_to(i, spec_dispatch_log(n, events)) =~= events);
    }
}

} // verus!
