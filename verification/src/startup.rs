//! The life of the server, from start to exit.
//!
//! The server starts, serves, drains and stops, in that order and never back.
//! [`Lifecycle::step`] is the whole rule: it takes what has just happened
//! and says what to do next. The program around it connects, listens and
//! waits; it reports each event here and carries out the action it gets.

use crate::error::AppError;
use vstd::prelude::*;

verus! {

/// Where the server stands.
#[derive(Clone, Copy, Debug, PartialEq, Eq, Structural)]
pub enum Phase {
    /// Connecting to upstream. No request is accepted yet.
    Starting,
    /// Accepting and handling requests.
    Serving,
    /// Told to stop: requests in flight run to their end, new ones are
    /// turned away.
    Draining,
    /// Done. Nothing changes any more.
    Stopped,
}

/// What the program reports to the lifecycle.
#[derive(Clone, Copy, Debug, PartialEq, Eq, Structural)]
pub enum Event {
    /// Both upstream channels are established.
    Connected,
    /// Startup failed: a channel could not be established, or the
    /// configuration cannot be served.
    StartupFailed,
    /// A request has arrived and asks to be handled.
    RequestArrived,
    /// A request that was admitted has left its handler, answered or dropped.
    RequestFinished,
    /// The process was told to terminate.
    TerminationSignal,
    /// The listener has returned; `ok` tells whether it did so without error.
    ServerReturned { ok: bool },
}

/// What the lifecycle asks the program to do.
#[derive(Clone, Copy, Debug, PartialEq, Eq, Structural)]
pub enum Action {
    /// Nothing to do.
    Continue,
    /// Bind the listener and begin to serve.
    Serve,
    /// Hand the request to its handler.
    Admit,
    /// Turn the request away.
    Refuse,
    /// Stop accepting connections, let the handlers finish, and shut the
    /// tracing exporter down.
    Drain,
    /// Leave the process; `clean` tells whether the shutdown was orderly.
    Exit { clean: bool },
}

/// The state of the server: its phase, the number of requests that were
/// admitted and have not finished, and whether it stopped in good order.
#[derive(Clone, Copy, Debug, PartialEq, Eq, Structural)]
pub struct Lifecycle {
    pub phase: Phase,
    pub in_flight: u64,
    pub clean: bool,
}

impl Phase {
    /// The place of a phase in the order in which a server passes through
    /// them.
    pub open spec fn rank(self) -> int {
        match self {
            Phase::Starting => 0,
            Phase::Serving => 1,
            Phase::Draining => 2,
            Phase::Stopped => 3,
        }
    }
}

impl Lifecycle {
    /// What holds of every state that a server can be in: nothing is in
    /// flight before it serves, and only a stopped server with nothing in
    /// flight counts as stopped cleanly.
    pub open spec fn wf(self) -> bool {
        &&& self.phase == Phase::Starting ==> self.in_flight == 0
        &&& self.clean ==> self.phase == Phase::Stopped && self.in_flight == 0
    }

    /// The state that follows `self` on `event`, and the action to take.
    ///
    /// Starting ends with `Connected`, which opens the server, or with
    /// `StartupFailed`, which stops it for good. While serving, each arriving
    /// request is admitted and counted, each finished one is taken off the
    /// count, and `TerminationSignal` begins the drain. While draining,
    /// arriving requests are refused and finished ones still counted off.
    /// `ServerReturned` stops the server; the stop is clean only if it comes
    /// during a drain, without error and with nothing left in flight. An
    /// event that has no meaning in the present phase changes nothing.
    pub open spec fn next(self, event: Event) -> (Lifecycle, Action) {
        match (self.phase, event) {
            (Phase::Starting, Event::Connected) => (
                Lifecycle { phase: Phase::Serving, ..self },
                Action::Serve,
            ),
            (Phase::Starting, Event::StartupFailed) => (
                Lifecycle { phase: Phase::Stopped, clean: false, ..self },
                Action::Exit { clean: false },
            ),
            (Phase::Serving, Event::RequestArrived) => {
                if self.in_flight < u64::MAX {
                    (Lifecycle { in_flight: (self.in_flight + 1) as u64, ..self }, Action::Admit)
                } else {
                    (self, Action::Refuse)
                }
            },
            (Phase::Serving, Event::RequestFinished)
            | (Phase::Draining, Event::RequestFinished) => {
                if self.in_flight > 0 {
                    (Lifecycle { in_flight: (self.in_flight - 1) as u64, ..self }, Action::Continue)
                } else {
                    (self, Action::Continue)
                }
            },
            (Phase::Serving, Event::TerminationSignal) => (
                Lifecycle { phase: Phase::Draining, ..self },
                Action::Drain,
            ),
            (Phase::Serving, Event::ServerReturned { ok }) => (
                Lifecycle { phase: Phase::Stopped, clean: false, ..self },
                Action::Exit { clean: false },
            ),
            (Phase::Draining, Event::ServerReturned { ok }) => {
                let clean = ok && self.in_flight == 0;
                (Lifecycle { phase: Phase::Stopped, clean, ..self }, Action::Exit { clean })
            },
            (_, Event::RequestArrived) => (self, Action::Refuse),
            _ => (self, Action::Continue),
        }
    }

    /// A server that has not begun.
    pub fn new() -> (state: Lifecycle)
        ensures
            state == (Lifecycle { phase: Phase::Starting, in_flight: 0, clean: false }),
            state.wf(),
    {
        Lifecycle { phase: Phase::Starting, in_flight: 0, clean: false }
    }

    /// Takes one event: moves to the state that follows and returns the
    /// action to carry out.
    pub fn step(&mut self, event: Event) -> (action: Action)
        ensures
            (*final(self), action) == old(self).next(event),
    {
        match (self.phase, event) {
            (Phase::Starting, Event::Connected) => {
                self.phase = Phase::Serving;
                Action::Serve
            },
            (Phase::Starting, Event::StartupFailed) => {
                self.phase = Phase::Stopped;
                self.clean = false;
                Action::Exit { clean: false }
            },
            (Phase::Serving, Event::RequestArrived) => {
                if self.in_flight < u64::MAX {
                    self.in_flight = self.in_flight + 1;
                    Action::Admit
                } else {
                    Action::Refuse
                }
            },
            (Phase::Serving, Event::RequestFinished)
            | (Phase::Draining, Event::RequestFinished) => {
                if self.in_flight > 0 {
                    self.in_flight = self.in_flight - 1;
                }
                Action::Continue
            },
            (Phase::Serving, Event::TerminationSignal) => {
                self.phase = Phase::Draining;
                Action::Drain
            },
            (Phase::Serving, Event::ServerReturned { ok: _ }) => {
                self.phase = Phase::Stopped;
                self.clean = false;
                Action::Exit { clean: false }
            },
            (Phase::Draining, Event::ServerReturned { ok }) => {
                let clean = ok && self.in_flight == 0;
                self.phase = Phase::Stopped;
                self.clean = clean;
                Action::Exit { clean }
            },
            (_, Event::RequestArrived) => Action::Refuse,
            _ => Action::Continue,
        }
    }

    /// The exit code of the process: zero after a clean stop, one otherwise.
    pub fn exit_code(&self) -> (code: u8)
        ensures
            code == (if self.phase == Phase::Stopped && self.clean { 0u8 } else { 1u8 }),
    {
        match self.phase {
            Phase::Stopped => if self.clean { 0 } else { 1 },
            _ => 1,
        }
    }
}

/// Every step leads from a well-formed state to a well-formed state.
pub proof fn lemma_step_keeps_wf(state: Lifecycle, event: Event)
    requires
        state.wf(),
    ensures
        state.next(event).0.wf(),
{
}

/// The server reports a clean exit only after a drain that left nothing in
/// flight.
pub proof fn lemma_clean_exit_follows_drain(state: Lifecycle, event: Event)
    requires
        state.next(event).1 == (Action::Exit { clean: true }),
    ensures
        state.phase == Phase::Draining,
        state.in_flight == 0,
        event == (Event::ServerReturned { ok: true }),
        state.next(event).0.phase == Phase::Stopped,
        state.next(event).0.clean,
{
}

/// Once draining has begun no request is admitted, whatever happens: an
/// arriving request is refused and counts for nothing.
pub proof fn lemma_no_admission_after_drain(state: Lifecycle)
    requires
        state.phase == Phase::Draining || state.phase == Phase::Stopped,
    ensures
        state.next(Event::RequestArrived) == (state, Action::Refuse),
        forall|event: Event| (#[trigger] state.next(event)).1 != Action::Admit,
        forall|event: Event| (#[trigger] state.next(event)).0.in_flight <= state.in_flight,
{
}

/// A request is admitted only while serving, and then it is counted.
pub proof fn lemma_admitted_only_while_serving(state: Lifecycle, event: Event)
    requires
        state.next(event).1 == Action::Admit,
    ensures
        state.phase == Phase::Serving,
        event == Event::RequestArrived,
        state.next(event).0.in_flight == state.in_flight + 1,
{
}

/// While draining, a request in flight runs to its end: when it finishes the
/// count goes down by one, and nothing but the return of the listener ends
/// the drain.
pub proof fn lemma_drain_lets_requests_finish(state: Lifecycle, event: Event)
    requires
        state.phase == Phase::Draining,
    ensures
        event == Event::RequestFinished && state.in_flight > 0 ==> state.next(event).0
            == (Lifecycle { in_flight: (state.in_flight - 1) as u64, ..state }),
        !(event is ServerReturned) ==> state.next(event).0.phase == Phase::Draining,
        state.next(event).1 == (Action::Exit { clean: true }) ==> state.in_flight == 0,
{
}

/// The phases come in order: no event takes the server back, and a stopped
/// server stays as it is.
pub proof fn lemma_phases_only_advance(state: Lifecycle, event: Event)
    ensures
        state.phase.rank() <= state.next(event).0.phase.rank(),
        state.phase == Phase::Stopped ==> state.next(event).0 == state,
{
}

/// A failure to start is fatal: the server stops without ever serving, and
/// the exit is not clean.
pub proof fn lemma_startup_failure_is_fatal(state: Lifecycle)
    requires
        state.phase == Phase::Starting,
    ensures
        state.next(Event::StartupFailed).0.phase == Phase::Stopped,
        !state.next(Event::StartupFailed).0.clean,
        state.next(Event::StartupFailed).1 == (Action::Exit { clean: false }),
{
}

/// The text of one decimal digit.
pub open spec fn digit_text(digit: int) -> Seq<char> {
    if digit == 0 {
        "0"@
    } else if digit == 1 {
        "1"@
    } else if digit == 2 {
        "2"@
    } else if digit == 3 {
        "3"@
    } else if digit == 4 {
        "4"@
    } else if digit == 5 {
        "5"@
    } else if digit == 6 {
        "6"@
    } else if digit == 7 {
        "7"@
    } else if digit == 8 {
        "8"@
    } else {
        "9"@
    }
}

/// A number written in decimal, without sign or leading zeros.
pub open spec fn decimal_text(number: nat) -> Seq<char>
    decreases number,
{
    if number < 10 {
        digit_text(number as int)
    } else {
        decimal_text(number / 10) + digit_text((number % 10) as int)
    }
}

/// The address that the server listens on: host, a colon, and the port in
/// decimal.
pub open spec fn listen_address_text(host: Seq<char>, port: nat) -> Seq<char> {
    host + ":"@ + decimal_text(port)
}

fn digit_str(digit: u16) -> (text: &'static str)
    requires
        digit < 10,
    ensures
        text@ == digit_text(digit as int),
{
    match digit {
        0 => "0",
        1 => "1",
        2 => "2",
        3 => "3",
        4 => "4",
        5 => "5",
        6 => "6",
        7 => "7",
        8 => "8",
        _ => "9",
    }
}

fn push_decimal(text: &mut String, number: u16)
    ensures
        final(text)@ == old(text)@ + decimal_text(number as nat),
    decreases number,
{
    if number < 10 {
        text.append(digit_str(number));
    } else {
        push_decimal(text, number / 10);
        text.append(digit_str(number % 10));
    }
}

/// Builds the address to listen on from the configured host and port.
pub fn listen_address(host: &str, port: u16) -> (address: String)
    ensures
        address@ == listen_address_text(host@, port as nat),
{
    let mut address = String::from_str(host);
    address.append(":");
    push_decimal(&mut address, port);
    address
}

/// The first check of startup: an upstream address must be configured.
/// Without one nothing is started.
pub fn require_upstream_address(address: &str) -> (checked: Result<(), AppError>)
    ensures
        address@.len() > 0 ==> checked is Ok,
        address@.len() == 0 ==> (checked matches Err(AppError::ConfigurationFatal { cause })
            && cause@ == "missing upstream address"@),
{
    if address.is_empty() {
        Err(AppError::ConfigurationFatal { cause: String::from_str("missing upstream address") })
    } else {
        Ok(())
    }
}

} // verus!
