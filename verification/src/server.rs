//! The life cycle of the server, as a state machine.
//!
//! The program around this crate binds the listener and serves; this module
//! decides what follows each outcome. The program tells [`advance`] what
//! happened, logs the record it gives back, and does what the action says.
//!
//! ```text
//! Idle --Launch--> Binding --Bound--------> Serving --ServeFailed--> Halted
//!                          \--BindFailed--> Halted
//! ```

use vstd::prelude::*;
use crate::record::{Context, ContextView, Level, Record, RecordView};

verus! {

/// The port that the server listens on.
pub const PORT: u16 = 3000;

/// The exit status of a process that could not bind its listener.
pub const EXIT_BIND_FAILED: i32 = 1;

/// An IPv4 address, by its four octets.
#[derive(Clone, Copy, Debug, PartialEq, Eq, Structural)]
pub struct Ipv4(pub u8, pub u8, pub u8, pub u8);

/// Where the listener is bound: an address and a port.
#[derive(Clone, Copy, Debug, PartialEq, Eq, Structural)]
pub struct Endpoint {
    pub host: Ipv4,
    pub port: u16,
}

/// The endpoint of the server: the unspecified address `0.0.0.0`, which
/// stands for every interface, and port 3000.
pub open spec fn spec_endpoint() -> Endpoint {
    Endpoint { host: Ipv4(0, 0, 0, 0), port: 3000 }
}

/// The endpoint of the server: the unspecified address `0.0.0.0`, which
/// stands for every interface, and port 3000.
#[verifier::when_used_as_spec(spec_endpoint)]
pub fn endpoint() -> (at: Endpoint)
    ensures
        at == spec_endpoint(),
{
    Endpoint { host: Ipv4(0, 0, 0, 0), port: PORT }
}

/// Where the server stands in its life.
#[derive(Clone, Copy, Debug, PartialEq, Eq, Structural)]
pub enum Phase {
    /// Nothing has happened yet.
    Idle,
    /// The listener is being bound.
    Binding,
    /// The listener is bound and requests are served.
    Serving,
    /// The server has stopped for good.
    Halted,
}

/// What the program reports to the state machine.
#[derive(Clone, Debug, PartialEq, Eq)]
pub enum Event {
    /// The process has started and its log sink is ready.
    Launch,
    /// The listener is bound, to this address.
    Bound(String),
    /// The listener could not be bound, for this cause.
    BindFailed(String),
    /// Serving ended with an error, for this cause.
    ServeFailed(String),
}

/// The mathematical value of an [`Event`].
pub enum EventView {
    Launch,
    Bound(Seq<char>),
    BindFailed(Seq<char>),
    ServeFailed(Seq<char>),
}

impl View for Event {
    type V = EventView;

    open spec fn view(&self) -> EventView {
        match self {
            Event::Launch => EventView::Launch,
            Event::Bound(address) => EventView::Bound(address@),
            Event::BindFailed(cause) => EventView::BindFailed(cause@),
            Event::ServeFailed(cause) => EventView::ServeFailed(cause@),
        }
    }
}

/// What the program does next.
#[derive(Clone, Copy, Debug, PartialEq, Eq, Structural)]
pub enum Action {
    /// Bind a listener to this endpoint, then report `Bound` or `BindFailed`.
    Bind(Endpoint),
    /// Serve requests on the listener until serving fails, then report
    /// `ServeFailed`.
    Serve,
    /// End the process with this exit status.
    Exit(i32),
    /// Leave the serving routine. Nothing is restarted and nothing is served
    /// any more; the process ends as it does when its main routine returns.
    Return,
}

/// One step of the machine: the new phase, the record to log and the action
/// to take.
#[derive(Clone, Debug, PartialEq, Eq)]
pub struct Step {
    pub phase: Phase,
    pub record: Record,
    pub action: Action,
}

/// The mathematical value of a [`Step`].
pub struct StepView {
    pub phase: Phase,
    pub record: RecordView,
    pub action: Action,
}

impl View for Step {
    type V = StepView;

    open spec fn view(&self) -> StepView {
        StepView { phase: self.phase, record: self.record@, action: self.action }
    }
}

/// The step that `event` causes in `phase`, or `None` where the event cannot
/// occur in that phase.
pub open spec fn next(phase: Phase, event: EventView) -> Option<StepView> {
    match (phase, event) {
        (Phase::Idle, EventView::Launch) => Some(
            StepView {
                phase: Phase::Binding,
                record: RecordView {
                    level: Level::Info,
                    message: "Rust HTTP server starting..."@,
                    context: ContextView::Empty,
                },
                action: Action::Bind(spec_endpoint()),
            },
        ),
        (Phase::Binding, EventView::Bound(address)) => Some(
            StepView {
                phase: Phase::Serving,
                record: RecordView {
                    level: Level::Info,
                    message: "server listening"@,
                    context: ContextView::Address(address),
                },
                action: Action::Serve,
            },
        ),
        (Phase::Binding, EventView::BindFailed(cause)) => Some(
            StepView {
                phase: Phase::Halted,
                record: RecordView {
                    level: Level::Error,
                    message: "Failed to bind to address"@,
                    context: ContextView::Error(cause),
                },
                action: Action::Exit(1),
            },
        ),
        (Phase::Serving, EventView::ServeFailed(cause)) => Some(
            StepView {
                phase: Phase::Halted,
                record: RecordView {
                    level: Level::Error,
                    message: "Server error"@,
                    context: ContextView::Error(cause),
                },
                action: Action::Return,
            },
        ),
        _ => None,
    }
}

/// Takes one step. A failure to bind is fatal: it is logged at error level
/// with its cause, and the process exits with a status that is not zero.
pub fn advance(phase: Phase, event: Event) -> (step: Option<Step>)
    ensures
        match next(phase, event@) {
            Some(expected) => step matches Some(taken) && taken@ == expected,
            None => step is None,
        },
        phase == Phase::Binding && event@ is BindFailed ==> (step matches Some(taken) && {
            &&& taken@.phase == Phase::Halted
            &&& taken@.record.level == Level::Error
            &&& taken@.record.context == ContextView::Error(event@->BindFailed_0)
            &&& (taken@.action matches Action::Exit(status) && status != 0)
        }),
{
    match (phase, event) {
        (Phase::Idle, Event::Launch) => Some(
            Step {
                phase: Phase::Binding,
                record: Record {
                    level: Level::Info,
                    message: "Rust HTTP server starting...",
                    context: Context::Empty,
                },
                action: Action::Bind(endpoint()),
            },
        ),
        (Phase::Binding, Event::Bound(address)) => Some(
            Step {
                phase: Phase::Serving,
                record: Record {
                    level: Level::Info,
                    message: "server listening",
                    context: Context::Address(address),
                },
                action: Action::Serve,
            },
        ),
        (Phase::Binding, Event::BindFailed(cause)) => Some(
            Step {
                phase: Phase::Halted,
                record: Record {
                    level: Level::Error,
                    message: "Failed to bind to address",
                    context: Context::Error(cause),
                },
                action: Action::Exit(EXIT_BIND_FAILED),
            },
        ),
        (Phase::Serving, Event::ServeFailed(cause)) => Some(
            Step {
                phase: Phase::Halted,
                record: Record {
                    level: Level::Error,
                    message: "Server error",
                    context: Context::Error(cause),
                },
                action: Action::Return,
            },
        ),
        _ => None,
    }
}

} // verus!
