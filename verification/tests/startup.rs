use openai_trtllm::error::AppError;
use openai_trtllm::startup::{
    listen_address, require_upstream_address, Action, Event, Lifecycle, Phase,
};

fn serving(in_flight: u64) -> Lifecycle {
    Lifecycle {
        phase: Phase::Serving,
        in_flight,
        clean: false,
    }
}

fn draining(in_flight: u64) -> Lifecycle {
    Lifecycle {
        phase: Phase::Draining,
        in_flight,
        clean: false,
    }
}

#[test]
fn server_begins_in_starting() {
    assert_eq!(
        Lifecycle::new(),
        Lifecycle {
            phase: Phase::Starting,
            in_flight: 0,
            clean: false
        }
    );
}

#[test]
fn orderly_life_ends_clean() {
    let mut state = Lifecycle::new();
    assert_eq!(state.step(Event::Connected), Action::Serve);
    assert_eq!(state.phase, Phase::Serving);
    assert_eq!(state.step(Event::RequestArrived), Action::Admit);
    assert_eq!(state.step(Event::RequestArrived), Action::Admit);
    assert_eq!(state.in_flight, 2);
    assert_eq!(state.step(Event::RequestFinished), Action::Continue);
    assert_eq!(state.step(Event::TerminationSignal), Action::Drain);
    assert_eq!(state, draining(1));
    assert_eq!(state.step(Event::RequestFinished), Action::Continue);
    assert_eq!(state, draining(0));
    assert_eq!(
        state.step(Event::ServerReturned { ok: true }),
        Action::Exit { clean: true }
    );
    assert_eq!(
        state,
        Lifecycle {
            phase: Phase::Stopped,
            in_flight: 0,
            clean: true
        }
    );
    assert_eq!(state.exit_code(), 0);
}

#[test]
fn startup_failure_is_fatal() {
    let mut state = Lifecycle::new();
    assert_eq!(
        state.step(Event::StartupFailed),
        Action::Exit { clean: false }
    );
    assert_eq!(state.phase, Phase::Stopped);
    assert_eq!(state.exit_code(), 1);
    assert_eq!(state.step(Event::Connected), Action::Continue);
    assert_eq!(state.phase, Phase::Stopped);
}

#[test]
fn no_request_is_admitted_before_serving() {
    let mut state = Lifecycle::new();
    assert_eq!(state.step(Event::RequestArrived), Action::Refuse);
    assert_eq!(state, Lifecycle::new());
}

#[test]
fn no_request_is_admitted_once_drain_begins() {
    let mut state = draining(3);
    assert_eq!(state.step(Event::RequestArrived), Action::Refuse);
    assert_eq!(state, draining(3));
}

#[test]
fn requests_in_flight_finish_during_drain() {
    let mut state = draining(2);
    assert_eq!(state.step(Event::RequestFinished), Action::Continue);
    assert_eq!(state, draining(1));
    assert_eq!(state.step(Event::TerminationSignal), Action::Continue);
    assert_eq!(state, draining(1));
}

#[test]
fn listener_returning_with_requests_in_flight_is_not_clean() {
    let mut state = draining(1);
    assert_eq!(
        state.step(Event::ServerReturned { ok: true }),
        Action::Exit { clean: false }
    );
    assert_eq!(state.exit_code(), 1);
}

#[test]
fn listener_failing_during_drain_is_not_clean() {
    let mut state = draining(0);
    assert_eq!(
        state.step(Event::ServerReturned { ok: false }),
        Action::Exit { clean: false }
    );
    assert_eq!(state.phase, Phase::Stopped);
    assert_eq!(state.exit_code(), 1);
}

#[test]
fn listener_returning_without_a_signal_is_not_clean() {
    let mut state = serving(0);
    assert_eq!(
        state.step(Event::ServerReturned { ok: true }),
        Action::Exit { clean: false }
    );
    assert_eq!(state.phase, Phase::Stopped);
}

#[test]
fn stopped_server_stays_stopped() {
    let stopped = Lifecycle {
        phase: Phase::Stopped,
        in_flight: 0,
        clean: true,
    };
    let events = [
        Event::Connected,
        Event::StartupFailed,
        Event::RequestFinished,
        Event::TerminationSignal,
        Event::ServerReturned { ok: false },
    ];
    for event in events {
        let mut state = stopped;
        assert_eq!(state.step(event), Action::Continue);
        assert_eq!(state, stopped);
    }
    let mut state = stopped;
    assert_eq!(state.step(Event::RequestArrived), Action::Refuse);
    assert_eq!(state, stopped);
}

#[test]
fn full_server_refuses() {
    let mut state = serving(u64::MAX);
    assert_eq!(state.step(Event::RequestArrived), Action::Refuse);
    assert_eq!(state, serving(u64::MAX));
}

#[test]
fn finish_with_nothing_in_flight_changes_nothing() {
    let mut state = serving(0);
    assert_eq!(state.step(Event::RequestFinished), Action::Continue);
    assert_eq!(state, serving(0));
}

#[test]
fn running_server_has_no_clean_exit_code() {
    assert_eq!(Lifecycle::new().exit_code(), 1);
    assert_eq!(serving(0).exit_code(), 1);
    assert_eq!(draining(0).exit_code(), 1);
}

#[test]
fn listen_address_joins_host_and_port() {
    assert_eq!(listen_address("0.0.0.0", 3000), "0.0.0.0:3000");
    assert_eq!(listen_address("localhost", 80), "localhost:80");
    assert_eq!(listen_address("::1", 65535), "::1:65535");
    assert_eq!(listen_address("127.0.0.1", 0), "127.0.0.1:0");
    assert_eq!(listen_address("", 7), ":7");
    assert_eq!(listen_address("h", 10), "h:10");
    assert_eq!(listen_address("h", 9999), "h:9999");
    assert_eq!(listen_address("h", 10203), "h:10203");
}

#[test]
fn listen_address_agrees_with_the_formatter() {
    for port in [1u16, 9, 10, 99, 100, 101, 999, 1000, 8080, 40000, 65534] {
        assert_eq!(listen_address("host", port), format!("host:{}", port));
    }
}

#[test]
fn upstream_address_must_be_configured() {
    assert_eq!(require_upstream_address("http://localhost:8001"), Ok(()));
    assert_eq!(
        require_upstream_address(""),
        Err(AppError::ConfigurationFatal {
            cause: "missing upstream address".to_string()
        })
    );
}
