//! Whole sessions: what holds of every sequence of events that a session may
//! be fed with.

use crate::lifecycle::{conclusion, SessionErrorView};
use crate::pages::Page;
use crate::route::route_of;
use crate::session::{
    effects_of, failure_report, is_terminal, next_phase, EffectView, EventView, Phase, Topic,
};
use crate::signal::OutcomeView;
use vstd::prelude::*;

verus! {

/// The phase of a session that began in `phase` and took `events` in order.
pub open spec fn phase_after(phase: Phase, events: Seq<EventView>) -> Phase
    decreases events.len(),
{
    if events.len() == 0 {
        phase
    } else {
        next_phase(phase_after(phase, events.drop_last()), events.last())
    }
}

/// Everything that a session that began in `phase` asked for while it took
/// `events` in order.
pub open spec fn effects_during(phase: Phase, events: Seq<EventView>) -> Seq<EffectView>
    decreases events.len(),
{
    if events.len() == 0 {
        Seq::empty()
    } else {
        effects_during(phase, events.drop_last()) + effects_of(
            phase_after(phase, events.drop_last()),
            events.last(),
        )
    }
}

/// One if the condition holds, zero if not.
pub open spec fn one_if(condition: bool) -> nat {
    if condition {
        1
    } else {
        0
    }
}

/// How many of `effects` are of the `wanted` kind.
pub open spec fn tally(effects: Seq<EffectView>, wanted: spec_fn(EffectView) -> bool) -> nat
    decreases effects.len(),
{
    if effects.len() == 0 {
        0
    } else {
        tally(effects.drop_last(), wanted) + one_if(wanted(effects.last()))
    }
}

/// The responses of any page.
pub open spec fn pages() -> spec_fn(EffectView) -> bool {
    |effect: EffectView| effect is Respond
}

/// The responses with the success page.
pub open spec fn success_pages() -> spec_fn(EffectView) -> bool {
    |effect: EffectView| effect == EffectView::Respond(Page::Success)
}

/// The deliveries on the completion signal.
pub open spec fn signals() -> spec_fn(EffectView) -> bool {
    |effect: EffectView| effect is Signal
}

/// The broadcasts of a captured URL.
pub open spec fn captures() -> spec_fn(EffectView) -> bool {
    |effect: EffectView| effect matches EffectView::Broadcast(Topic::CallbackReceived, _)
}

/// A request whose URL begins with the token prefix.
pub open spec fn is_token_request(event: EventView) -> bool {
    event matches EventView::Request(url) && route_of(url) is Token
}

/// A request whose URL begins with the callback prefix.
pub open spec fn is_callback_request(event: EventView) -> bool {
    event matches EventView::Request(url) && route_of(url) is Callback
}

/// The event at `index` is the one that ends a fresh session in capture: the
/// session serves before it and is over after it.
pub open spec fn terminates_at(events: Seq<EventView>, index: int) -> bool {
    &&& 0 <= index < events.len()
    &&& phase_after(Phase::Binding, events.take(index)) is Serving
    &&& phase_after(Phase::Binding, events.take(index + 1)) is Captured
}

/// Counting over a list with one more effect.
pub proof fn lemma_tally_push(
    effects: Seq<EffectView>,
    effect: EffectView,
    wanted: spec_fn(EffectView) -> bool,
)
    ensures
        tally(effects.push(effect), wanted) == tally(effects, wanted) + one_if(wanted(effect)),
{
    assert(effects.push(effect).drop_last() =~= effects);
}

/// Counting over two lists in a row.
pub proof fn lemma_tally_add(
    first: Seq<EffectView>,
    second: Seq<EffectView>,
    wanted: spec_fn(EffectView) -> bool,
)
    ensures
        tally(first + second, wanted) == tally(first, wanted) + tally(second, wanted),
    decreases second.len(),
{
    if second.len() > 0 {
        lemma_tally_add(first, second.drop_last(), wanted);
        assert((first + second).drop_last() =~= first + second.drop_last());
    }
}

/// A session that takes `first` and then `second` is in the phase, and has
/// asked for the effects, of a session that took `first` followed by one that
/// went on from there with `second`.
pub proof fn lemma_events_in_a_row(phase: Phase, first: Seq<EventView>, second: Seq<EventView>)
    ensures
        phase_after(phase, first + second) == phase_after(phase_after(phase, first), second),
        effects_during(phase, first + second) == effects_during(phase, first) + effects_during(
            phase_after(phase, first),
            second,
        ),
    decreases second.len(),
{
    if second.len() > 0 {
        lemma_events_in_a_row(phase, first, second.drop_last());
        assert((first + second).drop_last() =~= first + second.drop_last());
    }
}

/// One if the effect at `index` is there and of the `wanted` kind, zero if
/// not.
spec fn hit(effects: Seq<EffectView>, index: int, wanted: spec_fn(EffectView) -> bool) -> nat {
    one_if(index < effects.len() && wanted(effects[index]))
}

/// Counting over what one event brings about, which is three effects at
/// most.
proof fn lemma_tally_of_step(phase: Phase, event: EventView, wanted: spec_fn(EffectView) -> bool)
    ensures
        effects_of(phase, event).len() <= 3,
        tally(effects_of(phase, event), wanted) == hit(effects_of(phase, event), 0, wanted) + hit(
            effects_of(phase, event),
            1,
            wanted,
        ) + hit(effects_of(phase, event), 2, wanted),
{
    let effects = effects_of(phase, event);
    let none = Seq::<EffectView>::empty();
    if effects.len() >= 1 {
        let one = none.push(effects[0]);
        lemma_tally_push(none, effects[0], wanted);
        if effects.len() >= 2 {
            let two = one.push(effects[1]);
            lemma_tally_push(one, effects[1], wanted);
            if effects.len() == 3 {
                lemma_tally_push(two, effects[2], wanted);
                assert(effects =~= two.push(effects[2]));
            } else {
                assert(effects =~= two);
            }
        } else {
            assert(effects =~= one);
        }
    }
}

/// Counting over a session that took one more event.
proof fn lemma_tally_of_last_step(
    phase: Phase,
    events: Seq<EventView>,
    wanted: spec_fn(EffectView) -> bool,
)
    requires
        events.len() > 0,
    ensures
        ({
            let before = phase_after(phase, events.drop_last());
            let step = effects_of(before, events.last());
            tally(effects_during(phase, events), wanted) == tally(
                effects_during(phase, events.drop_last()),
                wanted,
            ) + hit(step, 0, wanted) + hit(step, 1, wanted) + hit(step, 2, wanted)
        }),
{
    let before = phase_after(phase, events.drop_last());
    lemma_tally_of_step(before, events.last(), wanted);
    lemma_tally_add(
        effects_during(phase, events.drop_last()),
        effects_of(before, events.last()),
        wanted,
    );
}

/// A session that is over stays as it is and asks for nothing more, whatever
/// reaches it: a session ends at most once.
pub proof fn lemma_terminal_phase_is_final(phase: Phase, events: Seq<EventView>)
    requires
        is_terminal(phase),
    ensures
        phase_after(phase, events) == phase,
        effects_during(phase, events) == Seq::<EffectView>::empty(),
    decreases events.len(),
{
    if events.len() > 0 {
        lemma_terminal_phase_is_final(phase, events.drop_last());
    }
}

/// Every session sends the success page exactly once if it ends in capture,
/// and never otherwise.
pub proof fn lemma_one_success_page(events: Seq<EventView>)
    ensures
        tally(effects_during(Phase::Binding, events), success_pages()) == one_if(
            phase_after(Phase::Binding, events) is Captured,
        ),
    decreases events.len(),
{
    if events.len() > 0 {
        lemma_one_success_page(events.drop_last());
        lemma_tally_of_last_step(Phase::Binding, events, success_pages());
    }
}

/// Every session delivers on the completion signal exactly once if it is
/// over, and not before.
pub proof fn lemma_one_signal(events: Seq<EventView>)
    ensures
        tally(effects_during(Phase::Binding, events), signals()) == one_if(
            is_terminal(phase_after(Phase::Binding, events)),
        ),
    decreases events.len(),
{
    if events.len() > 0 {
        lemma_one_signal(events.drop_last());
        lemma_tally_of_last_step(Phase::Binding, events, signals());
    }
}

/// Until the listener is bound no page is sent, and the session is still
/// binding or has failed.
pub proof fn lemma_no_page_before_bound(events: Seq<EventView>)
    requires
        forall|i: int| 0 <= i < events.len() ==> !(#[trigger] events[i] is Bound),
    ensures
        tally(effects_during(Phase::Binding, events), pages()) == 0,
        phase_after(Phase::Binding, events) is Binding || phase_after(Phase::Binding, events)
            is Failed,
    decreases events.len(),
{
    if events.len() > 0 {
        lemma_no_page_before_bound(events.drop_last());
        lemma_tally_of_last_step(Phase::Binding, events, pages());
    }
}

/// A serving session answers every request for the callback path with the
/// intermediate page, as often as such requests come, and goes on serving.
pub proof fn lemma_callback_is_served_every_time(events: Seq<EventView>)
    requires
        forall|i: int| 0 <= i < events.len() ==> is_callback_request(#[trigger] events[i]),
    ensures
        phase_after(Phase::Serving, events) is Serving,
        effects_during(Phase::Serving, events) == Seq::new(
            events.len(),
            |i: int| EffectView::Respond(Page::Callback),
        ),
    decreases events.len(),
{
    if events.len() > 0 {
        lemma_callback_is_served_every_time(events.drop_last());
    }
}

/// A serving session is over after a sequence of events if and only if one of
/// them is a request whose URL begins with the token prefix; and then it
/// ended in capture.
pub proof fn lemma_terminates_iff_token_request(events: Seq<EventView>)
    ensures
        is_terminal(phase_after(Phase::Serving, events)) <==> exists|i: int|
            0 <= i < events.len() && is_token_request(#[trigger] events[i]),
        phase_after(Phase::Serving, events) is Serving || phase_after(Phase::Serving, events)
            is Captured,
    decreases events.len(),
{
    if events.len() > 0 {
        let before = events.drop_last();
        lemma_terminates_iff_token_request(before);
        if !is_terminal(phase_after(Phase::Serving, events)) {
            assert forall|i: int| 0 <= i < events.len() implies !is_token_request(
                #[trigger] events[i],
            ) by {
                if i < before.len() {
                    assert(before[i] == events[i]);
                }
            }
        }
    }
}

/// A fresh session whose listener binds is over after the events that follow
/// if and only if one of them is a request whose URL begins with the token
/// prefix.
pub proof fn lemma_bound_session_terminates_iff_token_request(later: Seq<EventView>)
    ensures
        is_terminal(phase_after(Phase::Binding, seq![EventView::Bound] + later)) <==> exists|i: int|
            0 <= i < later.len() && is_token_request(#[trigger] later[i]),
{
    let first = seq![EventView::Bound];
    assert(phase_after(Phase::Binding, first.drop_last()) == Phase::Binding);
    lemma_events_in_a_row(Phase::Binding, first, later);
    lemma_terminates_iff_token_request(later);
}

/// At most one event ends a session in capture.
pub proof fn lemma_terminating_request_is_unique(events: Seq<EventView>, first: int, second: int)
    requires
        terminates_at(events, first),
        terminates_at(events, second),
    ensures
        first == second,
{
    if first < second {
        let early = events.take(first + 1);
        let late = events.take(second).skip(first + 1);
        assert(events.take(second) =~= early + late);
        lemma_events_in_a_row(Phase::Binding, early, late);
        lemma_terminal_phase_is_final(Phase::Captured, late);
    } else if second < first {
        let early = events.take(second + 1);
        let late = events.take(first).skip(second + 1);
        assert(events.take(first) =~= early + late);
        lemma_events_in_a_row(Phase::Binding, early, late);
        lemma_terminal_phase_is_final(Phase::Captured, late);
    }
}

/// The payload of a capture broadcast is exactly the URL of the request that
/// ended the session.
pub proof fn lemma_broadcast_carries_terminating_url(
    events: Seq<EventView>,
    at: int,
    payload: Seq<char>,
)
    requires
        0 <= at < effects_during(Phase::Binding, events).len(),
        effects_during(Phase::Binding, events)[at] == EffectView::Broadcast(
            Topic::CallbackReceived,
            payload,
        ),
    ensures
        exists|i: int| #[trigger]
            terminates_at(events, i) && events[i] == EventView::Request(payload),
    decreases events.len(),
{
    if events.len() > 0 {
        let before = events.drop_last();
        let last = events.len() - 1;
        let earlier = effects_during(Phase::Binding, before);
        if at < earlier.len() {
            lemma_broadcast_carries_terminating_url(before, at, payload);
            let i = choose|i: int| #[trigger]
                terminates_at(before, i) && before[i] == EventView::Request(payload);
            assert(events.take(i) =~= before.take(i));
            assert(events.take(i + 1) =~= before.take(i + 1));
            assert(terminates_at(events, i));
        } else {
            assert(events.take(last + 1) =~= events);
            assert(terminates_at(events, last));
        }
    }
}

/// A session that ends in capture broadcasts the captured URL exactly once,
/// and no other session broadcasts one.
pub proof fn lemma_one_capture_broadcast(events: Seq<EventView>)
    ensures
        tally(effects_during(Phase::Binding, events), captures()) == one_if(
            phase_after(Phase::Binding, events) is Captured,
        ),
    decreases events.len(),
{
    if events.len() > 0 {
        lemma_one_capture_broadcast(events.drop_last());
        lemma_tally_of_last_step(Phase::Binding, events, captures());
    }
}

/// Whatever one event brings about, a page response comes before the
/// delivery on the completion signal: the browser has its answer before the
/// waiting caller is woken.
pub proof fn lemma_response_precedes_signal(phase: Phase, event: EventView, page: int, signal: int)
    requires
        0 <= page < effects_of(phase, event).len(),
        0 <= signal < effects_of(phase, event).len(),
        effects_of(phase, event)[page] is Respond,
        effects_of(phase, event)[signal] is Signal,
    ensures
        page < signal,
{
}

/// A session whose bind attempt fails reports the failure once on the error
/// topic, signals it once, and does nothing else, whatever reaches it
/// afterwards; the waiting caller gets the report as its error.
pub proof fn lemma_bind_failure_is_reported(cause: Seq<char>, later: Seq<EventView>)
    ensures
        phase_after(Phase::Binding, seq![EventView::BindFailed(cause)] + later) is Failed,
        effects_during(Phase::Binding, seq![EventView::BindFailed(cause)] + later) == seq![
            EffectView::Broadcast(Topic::StartFailed, failure_report(cause)),
            EffectView::Signal(OutcomeView::Failed(failure_report(cause))),
        ],
        conclusion(Some(OutcomeView::Failed(failure_report(cause)))) == Err::<
            (),
            SessionErrorView,
        >(SessionErrorView::StartFailed(failure_report(cause))),
{
    let first = seq![EventView::BindFailed(cause)];
    assert(effects_during(Phase::Binding, first.drop_last()) =~= Seq::<EffectView>::empty());
    lemma_events_in_a_row(Phase::Binding, first, later);
    lemma_terminal_phase_is_final(Phase::Failed, later);
}

} // verus!
