use vstd::prelude::*;
use crate::endpoint::Endpoint;
use crate::supervisor::{
    announcements, is_announcement, next_action, next_state, run, trace, well_formed, Action, Event,
    Outcome, Phase, Readiness, Supervisor, Termination,
};

verus! {

proof fn announcements_of_prepend<E>(a: Action<E>, rest: Seq<Action<E>>)
    ensures
        announcements(seq![a] + rest) == (if is_announcement(a) { 1nat } else { 0nat })
            + announcements(rest),
{
    let whole = seq![a] + rest;
    assert(whole.drop_first() =~= rest);
    assert(whole[0] == a);
}

/// Stepping a well-formed state gives a well-formed state.
pub proof fn step_keeps_well_formed<E>(s: Supervisor, ev: Event<E>)
    requires
        well_formed(s),
    ensures
        well_formed(next_state(s, ev)),
{
}

/// The position of a phase in the lifecycle.
pub open spec fn rank(p: Phase) -> nat {
    match p {
        Phase::Starting => 0,
        Phase::Listening => 1,
        Phase::Looping => 2,
        Phase::Terminated(_) => 3,
    }
}

/// No event moves the supervisor back to an earlier phase, and a phase
/// that changes moves forward.
pub proof fn phase_never_goes_back<E>(s: Supervisor, ev: Event<E>)
    ensures
        rank(next_state(s, ev).phase) >= rank(s.phase),
        next_state(s, ev).phase != s.phase ==> rank(next_state(s, ev).phase) > rank(s.phase),
{
}

/// Every state reached from a well-formed state is well-formed; in
/// particular a terminated supervisor has always asked for its startup
/// signal to be completed, so its record of the signal is never pending.
pub proof fn run_keeps_well_formed<E>(s: Supervisor, evs: Seq<Event<E>>)
    requires
        well_formed(s),
    ensures
        well_formed(run(s, evs)),
        run(s, evs).phase is Terminated ==> run(s, evs).readiness != Readiness::Pending,
    decreases evs.len(),
{
    if evs.len() > 0 {
        run_keeps_well_formed(next_state(s, evs[0]), evs.drop_first());
    }
}

/// Once the supervisor has recorded its startup signal as set, that record
/// keeps its value whatever happens next, and the supervisor never asks for
/// the signal to be set again.
pub proof fn readiness_is_stable<E>(s: Supervisor, evs: Seq<Event<E>>)
    requires
        well_formed(s),
        s.readiness != Readiness::Pending,
    ensures
        run(s, evs).readiness == s.readiness,
        announcements(trace(s, evs)) == 0,
    decreases evs.len(),
{
    if evs.len() > 0 {
        let n = next_state(s, evs[0]);
        readiness_is_stable(n, evs.drop_first());
        announcements_of_prepend(next_action(s, evs[0]), trace(n, evs.drop_first()));
    }
}

/// The startup signal is completed at most once over any run, and it is
/// completed exactly when the run leaves the pending state.
pub proof fn single_announcement<E>(s: Supervisor, evs: Seq<Event<E>>)
    requires
        well_formed(s),
    ensures
        announcements(trace(s, evs)) <= 1,
        announcements(trace(s, evs)) == 1 <==> (s.readiness == Readiness::Pending
            && run(s, evs).readiness != Readiness::Pending),
    decreases evs.len(),
{
    if evs.len() > 0 {
        let n = next_state(s, evs[0]);
        let a = next_action(s, evs[0]);
        announcements_of_prepend(a, trace(n, evs.drop_first()));
        if s.readiness == Readiness::Pending {
            if n.readiness == Readiness::Pending {
                single_announcement(n, evs.drop_first());
            } else {
                readiness_is_stable(n, evs.drop_first());
            }
        } else {
            readiness_is_stable(s, evs);
        }
    }
}

/// A terminated supervisor ignores every later event.
pub proof fn termination_is_final<E>(s: Supervisor, evs: Seq<Event<E>>)
    requires
        s.phase is Terminated,
    ensures
        run(s, evs) == s,
        trace(s, evs) =~= Seq::new(evs.len(), |i: int| Action::<E>::Idle),
    decreases evs.len(),
{
    if evs.len() > 0 {
        termination_is_final(s, evs.drop_first());
        let rest = trace(s, evs.drop_first());
        assert(trace(s, evs) =~= seq![Action::<E>::Idle] + rest);
    }
}

/// `k` race outcomes that all report cancellation.
pub open spec fn cancellations<E>(k: nat) -> Seq<Event<E>> {
    Seq::new(k, |i: int| Event::<E>::Canceled)
}

/// `k` actions that ask for nothing.
pub open spec fn idles<E>(k: nat) -> Seq<Action<E>> {
    Seq::new(k, |i: int| Action::<E>::Idle)
}

/// `k` cancellations in a row, for any `k >= 1`, have the effect of one:
/// the same state, and nothing more to do after the first.
pub proof fn cancel_is_idempotent<E>(s: Supervisor, k: nat)
    requires
        k >= 1,
    ensures
        run(s, cancellations::<E>(k)) == run(s, cancellations::<E>(1)),
        trace(s, cancellations::<E>(k)) =~= seq![next_action(s, Event::<E>::Canceled)] + idles::<E>(
            (k - 1) as nat,
        ),
    decreases k,
{
    let c = Event::<E>::Canceled;
    let evs = cancellations::<E>(k);
    let n = next_state(s, c);
    assert(evs[0] == c);
    assert(evs.drop_first() =~= cancellations::<E>((k - 1) as nat));
    let one = cancellations::<E>(1);
    assert(one[0] == c);
    assert(one.drop_first() =~= Seq::<Event<E>>::empty());
    assert(run(s, one) == n);
    if k == 1 {
        assert(idles::<E>(0) =~= Seq::<Action<E>>::empty());
        assert(trace(n, Seq::<Event<E>>::empty()) =~= Seq::<Action<E>>::empty());
    } else {
        cancel_is_idempotent::<E>(n, (k - 1) as nat);
        assert(next_state(n, c) == n);
        assert(next_action(n, c) == Action::<E>::Idle);
        assert(run(next_state(n, c), Seq::<Event<E>>::empty()) == n);
        assert(run(n, one) == n);
        assert(seq![Action::<E>::Idle] + idles::<E>((k - 2) as nat) =~= idles::<E>((k - 1) as nat));
    }
}

/// While accepting, a cancellation ends the loop at once with the
/// distinguished interrupted result, whether or not a connection is pending.
pub proof fn cancel_ends_loop<E>(s: Supervisor)
    requires
        s.phase == Phase::Looping,
    ensures
        next_state(s, Event::<E>::Canceled).phase == Phase::Terminated(Termination::Interrupted),
        next_state(s, Event::<E>::Canceled).readiness == s.readiness,
        next_action(s, Event::<E>::Canceled) == Action::<E>::Finish(Outcome::Interrupted),
{
}

proof fn run_concat<E>(s: Supervisor, a: Seq<Event<E>>, b: Seq<Event<E>>)
    ensures
        run(s, a + b) == run(run(s, a), b),
    decreases a.len(),
{
    if a.len() > 0 {
        assert((a + b).drop_first() =~= a.drop_first() + b);
        assert((a + b)[0] == a[0]);
        run_concat(next_state(s, a[0]), a.drop_first(), b);
    } else {
        assert(a + b =~= b);
    }
}

/// `n` race outcomes that all report an accepted connection.
pub open spec fn acceptances<E>(n: nat) -> Seq<Event<E>> {
    Seq::new(n, |i: int| Event::<E>::Accepted)
}

proof fn acceptances_keep_looping<E>(s: Supervisor, n: nat)
    requires
        s.phase == Phase::Looping,
    ensures
        run(s, acceptances::<E>(n)) == s,
    decreases n,
{
    if n > 0 {
        assert(acceptances::<E>(n).drop_first() =~= acceptances::<E>((n - 1) as nat));
        assert(acceptances::<E>(n)[0] == Event::<E>::Accepted);
        acceptances_keep_looping::<E>(s, (n - 1) as nat);
    }
}

/// Started, announced, and then any number of accepted connections: a
/// cancellation still ends the supervisor with the interrupted result, and
/// the announced address stays the one that was bound.
pub proof fn accepts_do_not_prevent_stop<E>(a: Endpoint, n: nat)
    ensures
        ({
            let start = Supervisor { phase: Phase::Starting, readiness: Readiness::Pending };
            let evs = seq![Event::<E>::Bound(a), Event::<E>::Announced] + acceptances::<E>(n)
                + seq![Event::<E>::Canceled];
            let looping = run(start, seq![Event::<E>::Bound(a), Event::<E>::Announced]
                + acceptances::<E>(n));
            &&& run(start, evs) == Supervisor {
                phase: Phase::Terminated(Termination::Interrupted),
                readiness: Readiness::Ready(a),
            }
            &&& next_action(looping, Event::<E>::Canceled) == Action::<E>::Finish(
                Outcome::Interrupted,
            )
        }),
{
    let start = Supervisor { phase: Phase::Starting, readiness: Readiness::Pending };
    let head = seq![Event::<E>::Bound(a), Event::<E>::Announced];
    let tail = seq![Event::<E>::Canceled];
    let looping = Supervisor { phase: Phase::Looping, readiness: Readiness::Ready(a) };
    let listening = Supervisor { phase: Phase::Listening, readiness: Readiness::Ready(a) };
    let second = seq![Event::<E>::Announced];
    assert(head[0] == Event::<E>::Bound(a));
    assert(head.drop_first() =~= second);
    assert(second[0] == Event::<E>::Announced);
    assert(second.drop_first() =~= Seq::<Event<E>>::empty());
    assert(next_state(start, Event::<E>::Bound(a)) == listening);
    assert(next_state(listening, Event::<E>::Announced) == looping);
    assert(run(looping, Seq::<Event<E>>::empty()) == looping);
    assert(run(listening, second) == looping);
    assert(run(start, head) == looping);
    acceptances_keep_looping::<E>(looping, n);
    run_concat(start, head, acceptances::<E>(n));
    run_concat(start, head + acceptances::<E>(n), tail);
    assert(tail[0] == Event::<E>::Canceled);
    assert(tail.drop_first() =~= Seq::<Event<E>>::empty());
    let stopped = next_state(looping, Event::<E>::Canceled);
    assert(run(stopped, Seq::<Event<E>>::empty()) == stopped);
    assert(run(looping, tail) == stopped);
}

/// From a fresh supervisor, either outcome of the bind completes the
/// startup signal in that one step: a reported address (with the port the
/// platform assigned, nonzero whenever the platform's is) is announced as
/// is, and a bind error is handed to the waiters before the task ends with
/// it. Either way no waiter is left pending.
pub proof fn bind_outcome_resolves_signal<E>(a: Endpoint, e: E)
    ensures
        ({
            let start = Supervisor { phase: Phase::Starting, readiness: Readiness::Pending };
            &&& next_action(start, Event::<E>::Bound(a)) == Action::<E>::Announce(a)
            &&& next_state(start, Event::<E>::Bound(a)).readiness == Readiness::Ready(a)
            &&& a.port != 0 ==> next_state(start, Event::<E>::Bound(a)).readiness->0.port != 0
            &&& next_action(start, Event::<E>::BindFailed(e)) == Action::<E>::AbortStartup(e)
            &&& next_state(start, Event::<E>::BindFailed(e)) == Supervisor {
                phase: Phase::Terminated(Termination::Fatal),
                readiness: Readiness::Failed,
            }
        }),
{
}

} // verus!
