//! Start-up of the service, as a state machine.
//!
//! A start-up goes from [`Phase::Unconfigured`] over
//! [`Phase::PortResolved`] to [`Phase::Serving`]. The machine decides; a
//! driver acts. In each phase the driver asks for the pending
//! [`Action`], performs it, and reports what came of it as an [`Event`],
//! which takes the machine to its next phase.
//!
//! A start-up fails for good. A port value that names no port is not
//! replaced by the default, and a port that cannot be bound is not
//! exchanged for another: either takes the machine to [`Phase::Failed`].
//! No error is handed back to be recovered from: the one action left is
//! [`Action::Abort`], to end the process at once with a fixed diagnostic.

use vstd::prelude::*;
use vstd::string::StringExecFns;
use crate::decimal::{append_decimal, ascii_text, decimal_digits};
use crate::port::{resolve_port, resolved_port, PortError};

verus! {

/// The diagnostic of a start-up that fails on the value of the port
/// variable.
pub const PORT_DIAGNOSTIC: &'static str =
    "Unable to parse `PORT` environment variable value, expecting a value that parses to a 16-bit integer (0..65535)";

/// The diagnostic of a start-up that fails to bind its port.
pub const BIND_DIAGNOSTIC: &'static str = "server";

/// Why a start-up failed.
#[derive(Clone, Copy, Debug, PartialEq, Eq, Structural)]
pub enum StartupError {
    /// The environment holds a port value that names no port.
    Port(PortError),
    /// The listener could not be bound to the resolved port.
    Bind,
}

/// Where a start-up stands.
#[derive(Clone, Copy, Debug, PartialEq, Eq, Structural)]
pub enum Phase {
    /// Nothing is known yet.
    Unconfigured,
    /// The port is chosen; nothing listens on it yet.
    PortResolved { port: u16 },
    /// The service listens on `port`. The phase has no exit.
    Serving { port: u16 },
    /// The start-up failed. The phase has no exit.
    Failed { error: StartupError },
}

/// What a driver reports to the machine.
#[derive(Debug, PartialEq, Eq)]
pub enum Event {
    /// The environment was read: `value` holds the bytes found under the
    /// port variable, or `None` where the variable is not set.
    PortRead { value: Option<Vec<u8>> },
    /// The listener is bound and the handler is registered.
    Bound,
    /// The listener could not be bound.
    BindFailed,
}

/// What the machine asks of a driver.
#[derive(Clone, Copy, Debug, PartialEq, Eq, Structural)]
pub enum Action {
    /// Read the port variable from the environment.
    ReadPort,
    /// Register the handler and bind a plaintext listener on `port`.
    Bind { port: u16 },
    /// Print the start-up line of `port`, then keep the process alive until
    /// it is ended from outside.
    Serve { port: u16 },
    /// End the process with the diagnostic of `error`.
    Abort { error: StartupError },
}

impl Event {
    /// The port value that a [`Event::PortRead`] carries, as plain bytes.
    pub open spec fn port_value(self) -> Option<Seq<u8>>
        recommends
            self is PortRead,
    {
        match self {
            Event::PortRead { value: Some(text) } => Some(text@),
            _ => None,
        }
    }
}

impl Phase {
    /// The action that is pending in this phase.
    pub open spec fn pending(self) -> Action {
        match self {
            Phase::Unconfigured => Action::ReadPort,
            Phase::PortResolved { port } => Action::Bind { port },
            Phase::Serving { port } => Action::Serve { port },
            Phase::Failed { error } => Action::Abort { error },
        }
    }

    /// The phase that follows this one on `event`.
    ///
    /// An event that does not answer the pending action changes nothing.
    pub open spec fn after(self, event: Event) -> Phase {
        match (self, event) {
            (Phase::Unconfigured, Event::PortRead { .. }) => match resolved_port(
                event.port_value(),
            ) {
                Ok(port) => Phase::PortResolved { port },
                Err(error) => Phase::Failed { error: StartupError::Port(error) },
            },
            (Phase::PortResolved { port }, Event::Bound) => Phase::Serving { port },
            (Phase::PortResolved { .. }, Event::BindFailed) => Phase::Failed {
                error: StartupError::Bind,
            },
            _ => self,
        }
    }

    /// The phase that is reached from this one by a run of events, taken
    /// in their order.
    pub open spec fn run(self, events: Seq<Event>) -> Phase
        decreases events.len(),
    {
        if events.len() == 0 {
            self
        } else {
            self.run(events.drop_last()).after(events.last())
        }
    }

    /// The port on which a listener is asked for or is up in this phase.
    pub open spec fn bound_port(self) -> Option<u16> {
        match self {
            Phase::PortResolved { port } => Some(port),
            Phase::Serving { port } => Some(port),
            _ => None,
        }
    }

    /// Returns the action that is pending in this phase.
    pub fn action(&self) -> (action: Action)
        ensures
            action == self.pending(),
    {
        match self {
            Phase::Unconfigured => Action::ReadPort,
            Phase::PortResolved { port } => Action::Bind { port: *port },
            Phase::Serving { port } => Action::Serve { port: *port },
            Phase::Failed { error } => Action::Abort { error: *error },
        }
    }

    /// Takes the machine to its next phase on `event`.
    pub fn step(self, event: &Event) -> (next: Phase)
        ensures
            next == self.after(*event),
    {
        match self {
            Phase::Unconfigured => match event {
                Event::PortRead { value } => {
                    let resolved = match value {
                        Some(text) => resolve_port(Some(text.as_slice())),
                        None => resolve_port(None),
                    };
                    match resolved {
                        Ok(port) => Phase::PortResolved { port },
                        Err(error) => Phase::Failed { error: StartupError::Port(error) },
                    }
                },
                _ => self,
            },
            Phase::PortResolved { port } => match event {
                Event::Bound => Phase::Serving { port },
                Event::BindFailed => Phase::Failed { error: StartupError::Bind },
                _ => self,
            },
            _ => self,
        }
    }
}

impl StartupError {
    /// The diagnostic with which a process ends on this error.
    pub open spec fn diagnostic_text(self) -> Seq<char> {
        match self {
            StartupError::Port(_) => PORT_DIAGNOSTIC@,
            StartupError::Bind => BIND_DIAGNOSTIC@,
        }
    }

    /// Returns the diagnostic with which a process ends on this error.
    pub fn diagnostic(&self) -> (text: &'static str)
        ensures
            text@ == self.diagnostic_text(),
    {
        match self {
            StartupError::Port(_) => PORT_DIAGNOSTIC,
            StartupError::Bind => BIND_DIAGNOSTIC,
        }
    }
}

/// The line that a service prints once it listens on `port`.
pub open spec fn startup_line_text(port: u16) -> Seq<char> {
    "Starting: gRPC Listener ["@ + ascii_text(decimal_digits(port as nat)) + "]"@
}

/// Returns the line that a service prints once it listens on `port`.
pub fn startup_line(port: u16) -> (line: String)
    ensures
        line@ == startup_line_text(port),
{
    let mut line = String::from_str("Starting: gRPC Listener [");
    append_decimal(&mut line, port);
    line.append("]");
    line
}

/// Whether `first` is the place of the first [`Event::PortRead`] among
/// `events`.
pub open spec fn is_first_reading(events: Seq<Event>, first: int) -> bool {
    &&& 0 <= first < events.len()
    &&& events[first] is PortRead
    &&& forall|j: int| 0 <= j < first ==> !(#[trigger] events[j] is PortRead)
}

/// A failed start-up stays failed, whatever is reported to it.
pub proof fn lemma_failed_is_final(error: StartupError, events: Seq<Event>)
    ensures
        (Phase::Failed { error }).run(events) == (Phase::Failed { error }),
    decreases events.len(),
{
    if events.len() > 0 {
        lemma_failed_is_final(error, events.drop_last());
    }
}

/// A serving service keeps serving its port, whatever is reported to it.
pub proof fn lemma_serving_is_final(port: u16, events: Seq<Event>)
    ensures
        (Phase::Serving { port }).run(events) == (Phase::Serving { port }),
    decreases events.len(),
{
    if events.len() > 0 {
        lemma_serving_is_final(port, events.drop_last());
    }
}

/// Until the port variable has been read, a start-up stays unconfigured.
pub proof fn lemma_idle_until_port_read(events: Seq<Event>)
    requires
        forall|j: int| 0 <= j < events.len() ==> !(#[trigger] events[j] is PortRead),
    ensures
        Phase::Unconfigured.run(events) == Phase::Unconfigured,
    decreases events.len(),
{
    if events.len() > 0 {
        lemma_idle_until_port_read(events.drop_last());
    }
}

/// The first reading of the port variable decides a start-up.
///
/// Take a run of events whose first reading stands at `first`, and look at
/// the phase after the first `reported` of them. Up to the reading the
/// start-up is unconfigured. After it, where the value that was read names
/// no port, the start-up has failed on that value; where it names a port,
/// the start-up waits to bind that port, serves on it, or has failed to
/// bind.
pub proof fn lemma_first_reading_decides(events: Seq<Event>, first: int, reported: int)
    requires
        is_first_reading(events, first),
        0 <= reported <= events.len(),
    ensures
        reported <= first ==> Phase::Unconfigured.run(events.take(reported))
            == Phase::Unconfigured,
        reported > first ==> match resolved_port(events[first].port_value()) {
            Ok(port) => {
                let phase = Phase::Unconfigured.run(events.take(reported));
                ||| phase == (Phase::PortResolved { port })
                ||| phase == (Phase::Serving { port })
                ||| phase == (Phase::Failed { error: StartupError::Bind })
            },
            Err(error) => Phase::Unconfigured.run(events.take(reported)) == (Phase::Failed {
                error: StartupError::Port(error),
            }),
        },
    decreases reported,
{
    if reported > 0 {
        lemma_first_reading_decides(events, first, reported - 1);
        assert(events.take(reported).drop_last() =~= events.take(reported - 1));
    }
}

/// A start-up whose port value names no port never binds: at no point of
/// the run is a listener asked for or up.
pub proof fn lemma_bad_port_never_binds(events: Seq<Event>, first: int, reported: int)
    requires
        is_first_reading(events, first),
        resolved_port(events[first].port_value()) is Err,
        0 <= reported <= events.len(),
    ensures
        Phase::Unconfigured.run(events.take(reported)).bound_port() is None,
{
    lemma_first_reading_decides(events, first, reported);
}

/// A start-up binds no other port than the one that its port value names:
/// a listener is asked for, and is up, on that port only.
pub proof fn lemma_bound_port_is_resolved(
    events: Seq<Event>,
    first: int,
    reported: int,
    port: u16,
)
    requires
        is_first_reading(events, first),
        0 <= reported <= events.len(),
        Phase::Unconfigured.run(events.take(reported)).bound_port() == Some(port),
    ensures
        resolved_port(events[first].port_value()) == Ok::<u16, PortError>(port),
        first < reported,
{
    lemma_first_reading_decides(events, first, reported);
}

} // verus!
