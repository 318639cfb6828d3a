use cancelable_server::endpoint::Endpoint;
use cancelable_server::supervisor::{
    Action, Event, Outcome, Phase, Readiness, Supervisor, Termination,
};

fn loopback(port: u16) -> Endpoint {
    Endpoint::new(0x7f00_0001, port)
}

fn started(addr: Endpoint) -> Supervisor {
    let mut s = Supervisor::new();
    let a: Action<&str> = s.step(Event::Bound(addr));
    assert!(matches!(a, Action::Announce(x) if x == addr));
    let a: Action<&str> = s.step(Event::Announced);
    assert!(matches!(a, Action::StartAccept));
    s
}

#[test]
fn new_supervisor_is_starting_and_pending() {
    let s = Supervisor::new();
    assert_eq!(s.phase, Phase::Starting);
    assert_eq!(s.readiness, Readiness::Pending);
}

#[test]
fn unspecified_endpoint_is_wildcard_any_port() {
    let e = Endpoint::unspecified();
    assert_eq!(e.ip, 0);
    assert_eq!(e.port, 0);
}

#[test]
fn bind_announces_reported_address() {
    let addr = loopback(41234);
    let mut s = Supervisor::new();
    let a: Action<&str> = s.step(Event::Bound(addr));
    assert!(matches!(a, Action::Announce(x) if x.ip == 0x7f00_0001 && x.port == 41234));
    assert_eq!(s.phase, Phase::Listening);
    assert_eq!(s.readiness, Readiness::Ready(addr));
}

#[test]
fn scenario_start_then_stop_without_connections() {
    let addr = loopback(5000);
    let mut s = started(addr);
    assert_eq!(s.phase, Phase::Looping);
    let a: Action<&str> = s.step(Event::Canceled);
    assert!(matches!(a, Action::Finish(Outcome::Interrupted)));
    assert_eq!(s.phase, Phase::Terminated(Termination::Interrupted));
    assert_eq!(s.readiness, Readiness::Ready(addr));
}

#[test]
fn scenario_one_connection_then_stop() {
    let addr = loopback(5001);
    let mut s = started(addr);
    let a: Action<&str> = s.step(Event::Accepted);
    assert!(matches!(a, Action::StartAccept));
    assert_eq!(s.phase, Phase::Looping);
    let a: Action<&str> = s.step(Event::Canceled);
    assert!(matches!(a, Action::Finish(Outcome::Interrupted)));
    assert_eq!(s.phase, Phase::Terminated(Termination::Interrupted));
}

#[test]
fn many_connections_then_stop() {
    let mut s = started(loopback(5002));
    for _ in 0..100 {
        let a: Action<&str> = s.step(Event::Accepted);
        assert!(matches!(a, Action::StartAccept));
    }
    let a: Action<&str> = s.step(Event::Canceled);
    assert!(matches!(a, Action::Finish(Outcome::Interrupted)));
}

#[test]
fn scenario_bind_failure_resolves_waiter_with_error() {
    let mut s = Supervisor::new();
    let a = s.step(Event::BindFailed("address in use"));
    assert!(matches!(a, Action::AbortStartup("address in use")));
    assert_eq!(s.readiness, Readiness::Failed);
    assert_eq!(s.phase, Phase::Terminated(Termination::Fatal));
}

#[test]
fn scenario_stop_before_startup_resolves() {
    // The stop request is only observed by the first race, after the
    // address has been announced.
    let addr = loopback(5003);
    let mut s = Supervisor::new();
    let a: Action<&str> = s.step(Event::Canceled);
    assert!(matches!(a, Action::Idle));
    assert_eq!(s.readiness, Readiness::Pending);
    let a: Action<&str> = s.step(Event::Bound(addr));
    assert!(matches!(a, Action::Announce(_)));
    let a: Action<&str> = s.step(Event::Announced);
    assert!(matches!(a, Action::StartAccept));
    let a: Action<&str> = s.step(Event::Canceled);
    assert!(matches!(a, Action::Finish(Outcome::Interrupted)));
    assert_eq!(s.readiness, Readiness::Ready(addr));
}

#[test]
fn accept_failure_is_fatal() {
    let mut s = started(loopback(5004));
    let a = s.step(Event::AcceptFailed("reset"));
    assert!(matches!(a, Action::Finish(Outcome::Failed("reset"))));
    assert_eq!(s.phase, Phase::Terminated(Termination::Fatal));
}

#[test]
fn second_bind_report_does_not_reannounce() {
    let addr = loopback(5005);
    let mut s = Supervisor::new();
    let _a: Action<&str> = s.step(Event::Bound(addr));
    let a: Action<&str> = s.step(Event::Bound(loopback(6000)));
    assert!(matches!(a, Action::Idle));
    let a = s.step(Event::BindFailed("late"));
    assert!(matches!(a, Action::Idle));
    assert_eq!(s.readiness, Readiness::Ready(addr));
}

#[test]
fn readiness_unchanged_after_announcement() {
    let addr = loopback(5006);
    let mut s = started(addr);
    let _a: Action<&str> = s.step(Event::Accepted);
    let _a: Action<&str> = s.step(Event::Canceled);
    let _a: Action<&str> = s.step(Event::Bound(loopback(1)));
    assert_eq!(s.readiness, Readiness::Ready(addr));
}

#[test]
fn cancel_many_times_same_as_once() {
    for k in 1..6 {
        let mut once = started(loopback(5007));
        let first: Action<&str> = once.step(Event::Canceled);
        assert!(matches!(first, Action::Finish(Outcome::Interrupted)));
        let mut many = started(loopback(5007));
        for i in 0..k {
            let a: Action<&str> = many.step(Event::Canceled);
            if i == 0 {
                assert!(matches!(a, Action::Finish(Outcome::Interrupted)));
            } else {
                assert!(matches!(a, Action::Idle));
            }
        }
        assert_eq!(many, once);
    }
}

#[test]
fn terminated_ignores_everything() {
    let mut s = started(loopback(5008));
    let _a: Action<&str> = s.step(Event::Canceled);
    let before = s;
    let a: Action<&str> = s.step(Event::Accepted);
    assert!(matches!(a, Action::Idle));
    let a = s.step(Event::AcceptFailed("late"));
    assert!(matches!(a, Action::Idle));
    let a: Action<&str> = s.step(Event::Announced);
    assert!(matches!(a, Action::Idle));
    assert_eq!(s, before);
}

#[test]
fn events_out_of_phase_are_ignored() {
    let mut s = Supervisor::new();
    let a: Action<&str> = s.step(Event::Accepted);
    assert!(matches!(a, Action::Idle));
    let a: Action<&str> = s.step(Event::Announced);
    assert!(matches!(a, Action::Idle));
    assert_eq!(s, Supervisor::new());
    let _a: Action<&str> = s.step(Event::Bound(loopback(7)));
    let a: Action<&str> = s.step(Event::Canceled);
    assert!(matches!(a, Action::Idle));
    assert_eq!(s.phase, Phase::Listening);
}
