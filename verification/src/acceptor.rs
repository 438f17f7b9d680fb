//! The acceptor: what the listener does with each attempt to accept a
//! connection.

use vstd::prelude::*;

verus! {

/// Pause after a failed attempt to accept, in milliseconds.
pub const ACCEPT_BACKOFF_MILLIS: u64 = 100;

/// What the listener met when it tried to accept, or was told.
#[derive(Clone, Copy, Debug, PartialEq, Eq, Structural)]
pub enum AcceptEvent {
    /// A connection was accepted.
    Connected,
    /// The attempt failed.
    Failed,
    /// The listener was told to stop accepting.
    Shutdown,
}

/// What the listener does next.
#[derive(Clone, Copy, Debug, PartialEq, Eq, Structural)]
pub enum AcceptorAction {
    /// Hand the connection to a bridge of its own, then accept again.
    Spawn,
    /// Pause for `millis` milliseconds, then accept again.
    Backoff { millis: u64 },
    /// Accept no more. Connections that are bridging go on.
    Stop,
}

impl AcceptorAction {
    /// The time that the action keeps the listener from accepting, in
    /// milliseconds.
    pub open spec fn pause(self) -> nat {
        match self {
            AcceptorAction::Backoff { millis } => millis as nat,
            _ => 0,
        }
    }
}

/// An [`Acceptor`] as a mathematical value.
pub ghost struct AcceptorState {
    /// Whether the listener still accepts.
    pub accepting: bool,
}

impl AcceptorState {
    /// The acceptor after `event`, and what the listener does.
    pub open spec fn step(self, event: AcceptEvent) -> (AcceptorState, AcceptorAction) {
        if !self.accepting {
            (self, AcceptorAction::Stop)
        } else {
            match event {
                AcceptEvent::Connected => (self, AcceptorAction::Spawn),
                AcceptEvent::Failed => (
                    self,
                    AcceptorAction::Backoff { millis: ACCEPT_BACKOFF_MILLIS },
                ),
                AcceptEvent::Shutdown => (
                    AcceptorState { accepting: false },
                    AcceptorAction::Stop,
                ),
            }
        }
    }

    /// The acceptor after a run of events.
    pub open spec fn run(self, events: Seq<AcceptEvent>) -> AcceptorState
        decreases events.len(),
    {
        if events.len() == 0 {
            self
        } else {
            self.run(events.drop_last()).step(events.last()).0
        }
    }

    /// The time that the listener pauses in all over a run of events, in
    /// milliseconds.
    pub open spec fn paused(self, events: Seq<AcceptEvent>) -> nat
        decreases events.len(),
    {
        if events.len() == 0 {
            0
        } else {
            self.paused(events.drop_last()) + self.run(events.drop_last()).step(
                events.last(),
            ).1.pause()
        }
    }

    /// Number of connections handed to a bridge over a run of events.
    pub open spec fn spawned(self, events: Seq<AcceptEvent>) -> nat
        decreases events.len(),
    {
        if events.len() == 0 {
            0
        } else {
            self.spawned(events.drop_last()) + if self.run(events.drop_last()).step(
                events.last(),
            ).1 == AcceptorAction::Spawn {
                1nat
            } else {
                0nat
            }
        }
    }
}

/// Number of times that `event` occurs in `events`.
pub open spec fn occurrences(events: Seq<AcceptEvent>, event: AcceptEvent) -> nat
    decreases events.len(),
{
    if events.len() == 0 {
        0
    } else {
        occurrences(events.drop_last(), event) + if events.last() == event {
            1nat
        } else {
            0nat
        }
    }
}

/// The owner of the listener's decisions.
pub struct Acceptor {
    accepting: bool,
}

impl View for Acceptor {
    type V = AcceptorState;

    closed spec fn view(&self) -> AcceptorState {
        AcceptorState { accepting: self.accepting }
    }
}

impl Acceptor {
    /// An acceptor that accepts.
    pub fn new() -> (acceptor: Self)
        ensures
            acceptor@ == (AcceptorState { accepting: true }),
    {
        Acceptor { accepting: true }
    }

    /// Whether the listener still accepts.
    pub fn is_accepting(&self) -> (accepting: bool)
        ensures
            accepting == self@.accepting,
    {
        self.accepting
    }

    /// Decides what the listener does after `event`.
    ///
    /// An accepted connection gets a bridge of its own. A failed attempt is
    /// never fatal: the listener pauses for a fixed time and goes on. After a
    /// shutdown nothing is accepted any more.
    pub fn step(&mut self, event: AcceptEvent) -> (action: AcceptorAction)
        ensures
            final(self)@ == old(self)@.step(event).0,
            action == old(self)@.step(event).1,
    {
        if !self.accepting {
            return AcceptorAction::Stop;
        }
        match event {
            AcceptEvent::Connected => AcceptorAction::Spawn,
            AcceptEvent::Failed => AcceptorAction::Backoff { millis: ACCEPT_BACKOFF_MILLIS },
            AcceptEvent::Shutdown => {
                self.accepting = false;
                AcceptorAction::Stop
            },
        }
    }
}

/// Failures to accept never stop the listener: as long as no shutdown was
/// asked for, it accepts.
pub proof fn lemma_failures_are_not_fatal(state: AcceptorState, events: Seq<AcceptEvent>)
    requires
        state.accepting,
        occurrences(events, AcceptEvent::Shutdown) == 0,
    ensures
        state.run(events).accepting,
    decreases events.len(),
{
    if events.len() > 0 {
        lemma_failures_are_not_fatal(state, events.drop_last());
    }
}

/// Backoff limits the rate of attempts: without a shutdown, the listener
/// pauses for the fixed time once for every failed attempt, so `n` failures
/// take at least `n` times that long, and every accepted connection gets its
/// bridge.
pub proof fn lemma_backoff_per_failure(state: AcceptorState, events: Seq<AcceptEvent>)
    requires
        state.accepting,
        occurrences(events, AcceptEvent::Shutdown) == 0,
    ensures
        state.paused(events) == ACCEPT_BACKOFF_MILLIS * occurrences(events, AcceptEvent::Failed),
        state.spawned(events) == occurrences(events, AcceptEvent::Connected),
    decreases events.len(),
{
    if events.len() > 0 {
        lemma_backoff_per_failure(state, events.drop_last());
        lemma_failures_are_not_fatal(state, events.drop_last());
    }
}

/// Once a shutdown was asked for, nothing is accepted and nothing changes.
pub proof fn lemma_shutdown_is_final(state: AcceptorState, event: AcceptEvent)
    requires
        !state.accepting,
    ensures
        state.step(event) == (state, AcceptorAction::Stop),
{
}

/// A shutdown stops an accepting listener at once.
pub proof fn lemma_shutdown_stops(state: AcceptorState)
    requires
        state.accepting,
    ensures
        state.step(AcceptEvent::Shutdown) == (
            AcceptorState { accepting: false },
            AcceptorAction::Stop,
        ),
{
}

} // verus!
