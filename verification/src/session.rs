//! One capture session: the listener's life from its bind attempt to the
//! single hand-over of the captured URL.
//!
//! The session is a transition function. The caller tells it what happened
//! (the listener was bound, binding failed, a request came in) and gets back,
//! in order, what has to be done about it.

use crate::pages::Page;
use crate::route::{classify, route_of, Route};
use crate::signal::{Outcome, OutcomeView};
use vstd::prelude::*;
use vstd::string::*;

verus! {

/// The name of the broadcast that carries the captured URL.
pub const CALLBACK_EVENT: &'static str = "oauth-callback";

/// The name of the broadcast that reports that the listener did not start.
pub const ERROR_EVENT: &'static str = "oauth-error";

/// How every start failure report begins; the cause follows.
pub const START_FAILURE_PREFIX: &'static str = "Failed to start server: ";

/// Where a session stands.
#[derive(Clone, Copy, Debug, PartialEq, Eq, Structural)]
pub enum Phase {
    /// The listener is being bound; nothing may be served yet.
    Binding,
    /// The listener is bound and answers requests.
    Serving,
    /// The token request was answered: the session is over.
    Captured,
    /// Binding failed: the session is over.
    Failed,
}

/// The two broadcasts to the embedding application.
#[derive(Clone, Copy, Debug, PartialEq, Eq, Structural)]
pub enum Topic {
    /// The token request arrived; the payload is its URL.
    CallbackReceived,
    /// The listener did not start; the payload describes the failure.
    StartFailed,
}

/// What the caller observed.
#[derive(Clone, Debug, PartialEq, Eq)]
pub enum ListenerEvent {
    /// The listener is bound to its address.
    Bound,
    /// Binding failed; the text is the cause as the system reports it.
    BindFailed(String),
    /// A request came in; the text is its URL, path and query string.
    Request(String),
}

/// A [`ListenerEvent`] as a plain value.
pub enum EventView {
    Bound,
    BindFailed(Seq<char>),
    Request(Seq<char>),
}

impl View for ListenerEvent {
    type V = EventView;

    open spec fn view(&self) -> EventView {
        match self {
            ListenerEvent::Bound => EventView::Bound,
            ListenerEvent::BindFailed(cause) => EventView::BindFailed(cause@),
            ListenerEvent::Request(url) => EventView::Request(url@),
        }
    }
}

/// What the caller has to do.
#[derive(Clone, Debug, PartialEq, Eq)]
pub enum Effect {
    /// Answer the request at hand with this page.
    Respond(Page),
    /// Emit this payload to the embedding application under this topic.
    Broadcast(Topic, String),
    /// Deliver this outcome on the completion signal.
    Signal(Outcome),
}

/// An [`Effect`] as a plain value.
pub enum EffectView {
    Respond(Page),
    Broadcast(Topic, Seq<char>),
    Signal(OutcomeView),
}

impl View for Effect {
    type V = EffectView;

    open spec fn view(&self) -> EffectView {
        match self {
            Effect::Respond(page) => EffectView::Respond(*page),
            Effect::Broadcast(topic, payload) => EffectView::Broadcast(*topic, payload@),
            Effect::Signal(outcome) => EffectView::Signal(outcome@),
        }
    }
}

/// A list of effects as plain values, in the same order.
pub open spec fn effect_views(effects: Seq<Effect>) -> Seq<EffectView> {
    effects.map_values(|effect: Effect| effect@)
}

/// Whether a session in this phase is over.
pub open spec fn is_terminal(phase: Phase) -> bool {
    phase is Captured || phase is Failed
}

/// The report of a start failure with the given cause.
pub open spec fn failure_report(cause: Seq<char>) -> Seq<char> {
    START_FAILURE_PREFIX@ + cause
}

/// The phase that follows `phase` on `event`.
///
/// A session that binds starts to serve; one that cannot bind fails. A
/// serving session ends on a token request and is left as it is by every
/// other request. An event that the phase does not expect changes nothing; in
/// particular nothing moves a session that is over.
pub open spec fn next_phase(phase: Phase, event: EventView) -> Phase {
    match (phase, event) {
        (Phase::Binding, EventView::Bound) => Phase::Serving,
        (Phase::Binding, EventView::BindFailed(_)) => Phase::Failed,
        (Phase::Serving, EventView::Request(url)) => if route_of(url) is Token {
            Phase::Captured
        } else {
            Phase::Serving
        },
        _ => phase,
    }
}

/// What has to be done, in this order, when `event` reaches a session in
/// `phase`.
///
/// A token request is answered with the success page, then its URL is
/// broadcast, then the completion signal fires. A callback request is
/// answered with the intermediate page. A request for anything else gets no
/// response. A bind failure is broadcast and then signalled. Nothing is done
/// for an event that the phase does not expect.
pub open spec fn effects_of(phase: Phase, event: EventView) -> Seq<EffectView> {
    match (phase, event) {
        (Phase::Binding, EventView::BindFailed(cause)) => seq![
            EffectView::Broadcast(Topic::StartFailed, failure_report(cause)),
            EffectView::Signal(OutcomeView::Failed(failure_report(cause))),
        ],
        (Phase::Serving, EventView::Request(url)) => match route_of(url) {
            Route::Token => seq![
                EffectView::Respond(Page::Success),
                EffectView::Broadcast(Topic::CallbackReceived, url),
                EffectView::Signal(OutcomeView::Captured),
            ],
            Route::Callback => seq![EffectView::Respond(Page::Callback)],
            Route::Unmatched => Seq::empty(),
        },
        _ => Seq::empty(),
    }
}

impl Phase {
    /// Whether the session is over: no further event has any effect.
    pub fn is_terminal(self) -> (over: bool)
        ensures
            over == is_terminal(self),
    {
        match self {
            Phase::Captured | Phase::Failed => true,
            _ => false,
        }
    }
}

impl Topic {
    /// The name under which the embedding application hears of this topic.
    pub fn name(self) -> (name: &'static str)
        ensures
            name@ == (match self {
                Topic::CallbackReceived => CALLBACK_EVENT@,
                Topic::StartFailed => ERROR_EVENT@,
            }),
    {
        match self {
            Topic::CallbackReceived => CALLBACK_EVENT,
            Topic::StartFailed => ERROR_EVENT,
        }
    }
}

/// A session as a plain value.
pub struct SessionView {
    pub port: u16,
    pub phase: Phase,
}

/// One listener lifecycle on one port. Sessions are handed out by the
/// lifecycle controller, one for each capture: a session is never used again
/// once it is over.
#[derive(Debug)]
pub struct CaptureSession {
    port: u16,
    phase: Phase,
}

impl View for CaptureSession {
    type V = SessionView;

    closed spec fn view(&self) -> SessionView {
        SessionView { port: self.port, phase: self.phase }
    }
}

impl CaptureSession {
    /// A fresh session for a listener on `port`, about to bind.
    pub(crate) fn new(port: u16) -> (session: Self)
        ensures
            session@ == (SessionView { port, phase: Phase::Binding }),
    {
        CaptureSession { port, phase: Phase::Binding }
    }

    /// The port that the listener binds.
    pub fn port(&self) -> (port: u16)
        ensures
            port == self@.port,
    {
        self.port
    }

    /// Where the session stands.
    pub fn phase(&self) -> (phase: Phase)
        ensures
            phase == self@.phase,
    {
        self.phase
    }

    /// Whether the session is over, so that the listener has to stop.
    pub fn is_terminal(&self) -> (over: bool)
        ensures
            over == is_terminal(self@.phase),
    {
        self.phase.is_terminal()
    }

    /// Takes one event and returns what has to be done about it, in order.
    pub fn step(&mut self, event: ListenerEvent) -> (effects: Vec<Effect>)
        ensures
            final(self)@.port == old(self)@.port,
            final(self)@.phase == next_phase(old(self)@.phase, event@),
            effect_views(effects@) == effects_of(old(self)@.phase, event@),
    {
        let mut effects: Vec<Effect> = Vec::new();
        match self.phase {
            Phase::Binding => match event {
                ListenerEvent::Bound => {
                    self.phase = Phase::Serving;
                },
                ListenerEvent::BindFailed(cause) => {
                    let report = String::from_str(START_FAILURE_PREFIX).concat(cause.as_str());
                    let copy = report.clone();
                    effects.push(Effect::Broadcast(Topic::StartFailed, report));
                    effects.push(Effect::Signal(Outcome::Failed(copy)));
                    self.phase = Phase::Failed;
                },
                ListenerEvent::Request(_) => {},
            },
            Phase::Serving => match event {
                ListenerEvent::Request(url) => match classify(url.as_str()) {
                    Route::Token => {
                        effects.push(Effect::Respond(Page::Success));
                        effects.push(Effect::Broadcast(Topic::CallbackReceived, url));
                        effects.push(Effect::Signal(Outcome::Captured));
                        self.phase = Phase::Captured;
                    },
                    Route::Callback => {
                        effects.push(Effect::Respond(Page::Callback));
                    },
                    Route::Unmatched => {},
                },
                _ => {},
            },
            _ => {},
        }
        effects
    }
}

} // verus!
