//! What can go wrong when a server is started, written to or stopped.

use vstd::prelude::*;
use vstd::string::StringExecFns;

verus! {

/// One of the three streams of a server.
#[derive(Debug, Clone, Copy, PartialEq, Eq, Structural)]
pub enum StreamKind {
    Stdin,
    Stdout,
    Stderr,
}

/// The step of an operation on a running server that failed.
#[derive(Debug, Clone, Copy, PartialEq, Eq, Structural)]
pub enum IoStep {
    Write,
    Flush,
    Kill,
}

/// Failure of an operation on the registry or on one of its servers.
#[derive(Debug)]
pub enum McpError {
    /// The process could not be launched; holds the system's reason.
    Spawn(String),
    /// The process was launched without one of its streams.
    MissingStream(StreamKind),
    /// No server is registered under the name.
    NotFound(String),
    /// Writing to, flushing or killing a server failed; holds the system's
    /// reason.
    Io(IoStep, String),
    /// The registry's lock could not be taken; holds the reason.
    Lock(String),
}

/// An error with its texts taken by their views.
pub enum McpErrorView {
    Spawn(Seq<char>),
    MissingStream(StreamKind),
    NotFound(Seq<char>),
    Io(IoStep, Seq<char>),
    Lock(Seq<char>),
}

impl View for McpError {
    type V = McpErrorView;

    open spec fn view(&self) -> McpErrorView {
        match self {
            McpError::Spawn(reason) => McpErrorView::Spawn(reason@),
            McpError::MissingStream(kind) => McpErrorView::MissingStream(*kind),
            McpError::NotFound(name) => McpErrorView::NotFound(name@),
            McpError::Io(step, reason) => McpErrorView::Io(*step, reason@),
            McpError::Lock(reason) => McpErrorView::Lock(reason@),
        }
    }
}

/// Name of a stream as messages spell it.
pub open spec fn stream_name(kind: StreamKind) -> Seq<char> {
    match kind {
        StreamKind::Stdin => "stdin"@,
        StreamKind::Stdout => "stdout"@,
        StreamKind::Stderr => "stderr"@,
    }
}

/// How the message for a failed step begins.
pub open spec fn io_prefix(step: IoStep) -> Seq<char> {
    match step {
        IoStep::Write => "Failed to write to stdin: "@,
        IoStep::Flush => "Failed to flush stdin: "@,
        IoStep::Kill => "Failed to kill process: "@,
    }
}

/// The text shown to the caller for an error.
pub open spec fn message_text(error: McpErrorView) -> Seq<char> {
    match error {
        McpErrorView::Spawn(reason) => "Failed to spawn process: "@ + reason,
        McpErrorView::MissingStream(kind) => "Failed to get "@ + stream_name(kind),
        McpErrorView::NotFound(name) => "MCP server "@ + name + " not found"@,
        McpErrorView::Io(step, reason) => io_prefix(step) + reason,
        McpErrorView::Lock(reason) => reason,
    }
}

/// What the caller is told when a step on a running server ended with
/// `result`: a failure is reported under the step's name, with its reason.
pub open spec fn io_outcome_of(step: IoStep, result: Result<(), Seq<char>>) -> Result<
    (),
    McpErrorView,
> {
    match result {
        Ok(_) => Ok(()),
        Err(reason) => Err(McpErrorView::Io(step, reason)),
    }
}

/// What the caller is told after asking to kill a server. `attempt` is
/// `None` when no server was registered under the name, which is a
/// success: killing is idempotent.
pub open spec fn kill_outcome_of(attempt: Option<Result<(), Seq<char>>>) -> Result<
    (),
    McpErrorView,
> {
    match attempt {
        None => Ok(()),
        Some(result) => io_outcome_of(IoStep::Kill, result),
    }
}

/// An outcome with its error taken by its view.
pub open spec fn outcome_view(r: Result<(), McpError>) -> Result<(), McpErrorView> {
    match r {
        Ok(_) => Ok(()),
        Err(e) => Err(e@),
    }
}

/// A result of the system with its reason taken by its view.
pub open spec fn result_view(r: Result<(), String>) -> Result<(), Seq<char>> {
    match r {
        Ok(_) => Ok(()),
        Err(reason) => Err(reason@),
    }
}

/// Reports how the step `step` on a running server ended.
pub fn io_outcome(step: IoStep, result: Result<(), String>) -> (r: Result<(), McpError>)
    ensures
        outcome_view(r) == io_outcome_of(step, result_view(result)),
{
    match result {
        Ok(_) => Ok(()),
        Err(reason) => Err(McpError::Io(step, reason)),
    }
}

/// Reports how killing a server ended. `attempt` is what the system
/// answered for the server taken out of the registry, or `None` when there
/// was no such server.
pub fn kill_outcome(attempt: Option<Result<(), String>>) -> (r: Result<(), McpError>)
    ensures
        outcome_view(r) == kill_outcome_of(
            match attempt {
                None => None,
                Some(result) => Some(result_view(result)),
            },
        ),
{
    match attempt {
        None => Ok(()),
        Some(result) => io_outcome(IoStep::Kill, result),
    }
}

impl StreamKind {
    /// Name of the stream as messages spell it.
    pub fn name(&self) -> (r: &'static str)
        ensures
            r@ == stream_name(*self),
    {
        match self {
            StreamKind::Stdin => "stdin",
            StreamKind::Stdout => "stdout",
            StreamKind::Stderr => "stderr",
        }
    }
}

impl IoStep {
    /// How the message for this step begins.
    pub fn prefix(&self) -> (r: &'static str)
        ensures
            r@ == io_prefix(*self),
    {
        match self {
            IoStep::Write => "Failed to write to stdin: ",
            IoStep::Flush => "Failed to flush stdin: ",
            IoStep::Kill => "Failed to kill process: ",
        }
    }
}

impl McpError {
    /// The text shown to the caller.
    pub fn message(&self) -> (r: String)
        ensures
            r@ == message_text(self@),
    {
        match self {
            McpError::Spawn(reason) => {
                let mut out = String::from_str("Failed to spawn process: ");
                out.append(reason.as_str());
                out
            },
            McpError::MissingStream(kind) => {
                let mut out = String::from_str("Failed to get ");
                out.append(kind.name());
                out
            },
            McpError::NotFound(name) => {
                let mut out = String::from_str("MCP server ");
                out.append(name.as_str());
                out.append(" not found");
                out
            },
            McpError::Io(step, reason) => {
                let mut out = String::from_str(step.prefix());
                out.append(reason.as_str());
                out
            },
            McpError::Lock(reason) => reason.clone(),
        }
    }
}

} // verus!
