use vstd::prelude::*;
use crate::endpoint::Endpoint;

verus! {

/// What waiters on the startup signal observe.
#[derive(Clone, Copy, Debug, PartialEq, Eq, Structural)]
pub enum Readiness {
    /// Nothing announced yet: a waiter suspends.
    Pending,
    /// The listener is accepting connections on this address.
    Ready(Endpoint),
    /// Binding failed: waiters receive the bind error.
    Failed,
}

/// How a terminated supervisor ended.
#[derive(Clone, Copy, Debug, PartialEq, Eq, Structural)]
pub enum Termination {
    /// Stopped on request.
    Interrupted,
    /// Stopped by a bind or accept error.
    Fatal,
}

/// The supervisor's lifecycle: it binds, announces, loops over accept
/// attempts, and ends; it never returns to an earlier phase.
#[derive(Clone, Copy, Debug, PartialEq, Eq, Structural)]
pub enum Phase {
    Starting,
    Listening,
    Looping,
    Terminated(Termination),
}

/// Something that happened to the supervisor; `E` is the transport's error.
pub enum Event<E> {
    /// The bind succeeded and the listener reports this local address.
    Bound(Endpoint),
    /// The bind failed.
    BindFailed(E),
    /// The bound address has been handed to the startup signal.
    Announced,
    /// The race ended with an accepted connection.
    Accepted,
    /// The race ended with an accept error.
    AcceptFailed(E),
    /// The race ended because cancellation was requested.
    Canceled,
}

/// The terminal result of the supervisor task.
pub enum Outcome<E> {
    /// The distinguished "stopped on request" result.
    Interrupted,
    /// A fatal transport error.
    Failed(E),
}

/// What the caller must do next.
pub enum Action<E> {
    /// Complete the startup signal with this address.
    Announce(Endpoint),
    /// Complete the startup signal with this bind error, then end the task
    /// with the same error.
    AbortStartup(E),
    /// Start a fresh accept attempt on the listener and race it against
    /// cancellation.
    StartAccept,
    /// End the task with this result.
    Finish(Outcome<E>),
    /// Nothing: the event has no effect in the current phase.
    Idle,
}

/// The supervisor's state: its lifecycle phase and what it has announced.
#[derive(Clone, Copy, Debug, PartialEq, Eq, Structural)]
pub struct Supervisor {
    pub phase: Phase,
    pub readiness: Readiness,
}

/// The lifecycle and the startup signal agree: the signal is set exactly
/// when the supervisor has left `Starting`, and it holds an address while
/// the listener is up.
pub open spec fn well_formed(s: Supervisor) -> bool {
    match s.phase {
        Phase::Starting => s.readiness == Readiness::Pending,
        Phase::Listening | Phase::Looping => s.readiness is Ready,
        Phase::Terminated(t) => s.readiness != Readiness::Pending
            && (s.readiness == Readiness::Failed ==> t == Termination::Fatal),
    }
}

/// The state after `ev`.
pub open spec fn next_state<E>(s: Supervisor, ev: Event<E>) -> Supervisor {
    match (s.phase, ev) {
        (Phase::Starting, Event::Bound(a)) => Supervisor {
            phase: Phase::Listening,
            readiness: Readiness::Ready(a),
        },
        (Phase::Starting, Event::BindFailed(_)) => Supervisor {
            phase: Phase::Terminated(Termination::Fatal),
            readiness: Readiness::Failed,
        },
        (Phase::Listening, Event::Announced) => Supervisor { phase: Phase::Looping, ..s },
        (Phase::Looping, Event::AcceptFailed(_)) => Supervisor {
            phase: Phase::Terminated(Termination::Fatal),
            ..s
        },
        (Phase::Looping, Event::Canceled) => Supervisor {
            phase: Phase::Terminated(Termination::Interrupted),
            ..s
        },
        _ => s,
    }
}

/// The action that `ev` calls for.
pub open spec fn next_action<E>(s: Supervisor, ev: Event<E>) -> Action<E> {
    match (s.phase, ev) {
        (Phase::Starting, Event::Bound(a)) => Action::Announce(a),
        (Phase::Starting, Event::BindFailed(e)) => Action::AbortStartup(e),
        (Phase::Listening, Event::Announced) => Action::StartAccept,
        (Phase::Looping, Event::Accepted) => Action::StartAccept,
        (Phase::Looping, Event::AcceptFailed(e)) => Action::Finish(Outcome::Failed(e)),
        (Phase::Looping, Event::Canceled) => Action::Finish(Outcome::Interrupted),
        _ => Action::Idle,
    }
}

/// The state after each event of `evs` in turn.
pub open spec fn run<E>(s: Supervisor, evs: Seq<Event<E>>) -> Supervisor
    decreases evs.len(),
{
    if evs.len() == 0 {
        s
    } else {
        run(next_state(s, evs[0]), evs.drop_first())
    }
}

/// The actions called for by each event of `evs` in turn.
pub open spec fn trace<E>(s: Supervisor, evs: Seq<Event<E>>) -> Seq<Action<E>>
    decreases evs.len(),
{
    if evs.len() == 0 {
        Seq::empty()
    } else {
        seq![next_action(s, evs[0])] + trace(next_state(s, evs[0]), evs.drop_first())
    }
}

/// The action completes the startup signal.
pub open spec fn is_announcement<E>(a: Action<E>) -> bool {
    a is Announce || a is AbortStartup
}

/// How many actions of `acts` complete the startup signal.
pub open spec fn announcements<E>(acts: Seq<Action<E>>) -> nat
    decreases acts.len(),
{
    if acts.len() == 0 {
        0
    } else {
        (if is_announcement(acts[0]) { 1nat } else { 0nat }) + announcements(acts.drop_first())
    }
}

impl Supervisor {
    /// A supervisor that has not bound yet and has announced nothing.
    pub fn new() -> (r: Supervisor)
        ensures
            r.phase == Phase::Starting,
            r.readiness == Readiness::Pending,
            well_formed(r),
    {
        Supervisor { phase: Phase::Starting, readiness: Readiness::Pending }
    }

    /// Applies `ev` and returns what must be done next.
    pub fn step<E>(&mut self, ev: Event<E>) -> (r: Action<E>)
        ensures
            *final(self) == next_state(*old(self), ev),
            r == next_action(*old(self), ev),
            well_formed(*old(self)) ==> well_formed(*final(self)),
    {
        match (self.phase, ev) {
            (Phase::Starting, Event::Bound(a)) => {
                self.phase = Phase::Listening;
                self.readiness = Readiness::Ready(a);
                Action::Announce(a)
            },
            (Phase::Starting, Event::BindFailed(e)) => {
                self.phase = Phase::Terminated(Termination::Fatal);
                self.readiness = Readiness::Failed;
                Action::AbortStartup(e)
            },
            (Phase::Listening, Event::Announced) => {
                self.phase = Phase::Looping;
                Action::StartAccept
            },
            (Phase::Looping, Event::Accepted) => Action::StartAccept,
            (Phase::Looping, Event::AcceptFailed(e)) => {
                self.phase = Phase::Terminated(Termination::Fatal);
                Action::Finish(Outcome::Failed(e))
            },
            (Phase::Looping, Event::Canceled) => {
                self.phase = Phase::Terminated(Termination::Interrupted);
                Action::Finish(Outcome::Interrupted)
            },
            _ => Action::Idle,
        }
    }
}

} // verus!
