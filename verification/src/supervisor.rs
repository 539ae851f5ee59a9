//! The forwarding rules of the process supervisor.
//!
//! The supervisor's task waits for the next event of the backend process and
//! asks `forwarding_step` what to do with it. Lines of standard output are
//! logged as information, lines of standard error as errors, every other
//! event is passed over, and the task ends when the event stream has closed.

use vstd::prelude::*;

verus! {

/// The output channel of the backend process on which a line arrived.
#[derive(Clone, Copy, Debug, PartialEq, Eq, Structural)]
pub enum Channel {
    Stdout,
    Stderr,
}

/// The severity at which a line is handed to the logging sink.
#[derive(Clone, Copy, Debug, PartialEq, Eq, Structural)]
pub enum Severity {
    Info,
    Error,
}

/// One line of backend output, tagged with the channel it came from.
#[derive(Clone, Debug, PartialEq, Eq)]
pub struct OutputLine {
    pub channel: Channel,
    pub text: String,
}

/// An event of the backend process as the forwarding task sees it.
#[derive(Clone, Debug, PartialEq, Eq)]
pub enum BackendEvent {
    /// A line was written to one of the two output channels.
    Line(OutputLine),
    /// Anything else that the process reports.
    Other,
}

/// A line on its way to the logging sink.
#[derive(Clone, Debug, PartialEq, Eq)]
pub struct LogRecord {
    pub severity: Severity,
    pub text: String,
}

/// What the forwarding task does next.
#[derive(Clone, Debug, PartialEq, Eq)]
pub enum ForwardStep {
    /// Hand the record to the logging sink, then wait for the next event.
    Log(LogRecord),
    /// Do nothing, then wait for the next event.
    Skip,
    /// End the task: no further event will come.
    Stop,
}

impl Channel {
    /// Standard output is informational, standard error is an error.
    pub open spec fn spec_severity(self) -> Severity {
        match self {
            Channel::Stdout => Severity::Info,
            Channel::Stderr => Severity::Error,
        }
    }

    /// The severity at which lines of this channel are logged.
    #[verifier::when_used_as_spec(spec_severity)]
    pub fn severity(self) -> (severity: Severity)
        ensures
            severity == self.spec_severity(),
    {
        match self {
            Channel::Stdout => Severity::Info,
            Channel::Stderr => Severity::Error,
        }
    }
}

/// The step that answers `received`, where `None` stands for a closed event
/// stream. A line is logged with its text unchanged, at the severity of its
/// channel.
pub open spec fn step_for(received: Option<BackendEvent>) -> ForwardStep {
    match received {
        Some(BackendEvent::Line(line)) => ForwardStep::Log(
            LogRecord { severity: line.channel.spec_severity(), text: line.text },
        ),
        Some(BackendEvent::Other) => ForwardStep::Skip,
        None => ForwardStep::Stop,
    }
}

/// Decides what the forwarding task does with what it `received` from the
/// backend's event stream; `None` says that the stream has closed.
pub fn forwarding_step(received: Option<BackendEvent>) -> (step: ForwardStep)
    ensures
        step == step_for(received),
{
    match received {
        Some(BackendEvent::Line(line)) => {
            let severity: Severity = line.channel.severity();
            ForwardStep::Log(LogRecord { severity, text: line.text })
        },
        Some(BackendEvent::Other) => ForwardStep::Skip,
        None => ForwardStep::Stop,
    }
}

/// The task ends on a closed stream and on nothing else.
pub proof fn lemma_stops_only_on_closed_stream(received: Option<BackendEvent>)
    ensures
        step_for(received) is Stop <==> received is None,
{
}

} // verus!
