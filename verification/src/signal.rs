//! The one-shot hand-over between the listener and the caller that waits for
//! it.

use vstd::prelude::*;

verus! {

/// How a capture session ended.
#[derive(Clone, Debug, PartialEq, Eq)]
pub enum Outcome {
    /// The token request arrived and was answered.
    Captured,
    /// The listener could not be started; the text says why.
    Failed(String),
}

/// An [`Outcome`] as a plain value.
pub enum OutcomeView {
    Captured,
    Failed(Seq<char>),
}

impl View for Outcome {
    type V = OutcomeView;

    open spec fn view(&self) -> OutcomeView {
        match self {
            Outcome::Captured => OutcomeView::Captured,
            Outcome::Failed(reason) => OutcomeView::Failed(reason@),
        }
    }
}

/// What a [`CompletionSignal`] holds.
pub enum SignalState {
    /// Nothing was delivered yet and the producer may still deliver.
    Open,
    /// An outcome was delivered and waits for the consumer.
    Delivered(OutcomeView),
    /// The outcome was consumed, or the producer left without one.
    Closed,
}

#[derive(Debug)]
enum Slot {
    Open,
    Delivered(Outcome),
    Closed,
}

/// A single slot that carries one outcome from one producer to one consumer.
///
/// The first `notify` on an open signal fills the slot; every later one
/// changes nothing. `take` empties a filled slot and closes the signal for
/// good. How the consumer sleeps until the slot is no longer open is left to
/// the caller.
#[derive(Debug)]
pub struct CompletionSignal {
    slot: Slot,
}

impl View for CompletionSignal {
    type V = SignalState;

    closed spec fn view(&self) -> SignalState {
        match self.slot {
            Slot::Open => SignalState::Open,
            Slot::Delivered(outcome) => SignalState::Delivered(outcome@),
            Slot::Closed => SignalState::Closed,
        }
    }
}

impl CompletionSignal {
    /// A fresh, open signal.
    pub fn new() -> (signal: Self)
        ensures
            signal@ == SignalState::Open,
    {
        CompletionSignal { slot: Slot::Open }
    }

    /// Whether nothing was delivered yet, so that a consumer has to go on
    /// waiting.
    pub fn is_open(&self) -> (open: bool)
        ensures
            open == (self@ is Open),
    {
        match self.slot {
            Slot::Open => true,
            _ => false,
        }
    }

    /// Delivers `outcome` if the signal is still open, and says whether it
    /// was accepted. On a signal that is filled or closed this is a no-op.
    pub fn notify(&mut self, outcome: Outcome) -> (accepted: bool)
        ensures
            accepted == (old(self)@ is Open),
            accepted ==> final(self)@ == SignalState::Delivered(outcome@),
            !accepted ==> final(self)@ == old(self)@,
    {
        if self.is_open() {
            self.slot = Slot::Delivered(outcome);
            true
        } else {
            false
        }
    }

    /// The producer leaves. An open signal becomes closed, so that a waiting
    /// consumer can give up; a delivered outcome stays where it is.
    pub fn close(&mut self)
        ensures
            old(self)@ is Open ==> final(self)@ == SignalState::Closed,
            !(old(self)@ is Open) ==> final(self)@ == old(self)@,
    {
        if self.is_open() {
            self.slot = Slot::Closed;
        }
    }

    /// Consumes the delivered outcome, if there is one, and closes the
    /// signal. On an open or closed signal this returns `None` and changes
    /// nothing.
    pub fn take(&mut self) -> (taken: Option<Outcome>)
        ensures
            (match old(self)@ {
                SignalState::Delivered(outcome) => {
                    &&& taken matches Some(got)
                    &&& got@ == outcome
                    &&& final(self)@ == SignalState::Closed
                },
                _ => taken is None && final(self)@ == old(self)@,
            }),
    {
        let mut held = Slot::Closed;
        match self.slot {
            Slot::Delivered(_) => {
                std::mem::swap(&mut self.slot, &mut held);
            },
            _ => {},
        }
        match held {
            Slot::Delivered(outcome) => Some(outcome),
            _ => None,
        }
    }
}

} // verus!
