//! What the supervisor publishes about a server.

use vstd::prelude::*;

verus! {

/// Channel on which lines of standard output are published.
pub const STDOUT_EVENT: &'static str = "mcp-stdout";

/// Channel on which lines of standard error are published.
pub const STDERR_EVENT: &'static str = "mcp-stderr";

/// One line that a server wrote to its standard output, without the line
/// ending.
#[derive(Debug, Clone)]
pub struct McpStdoutEvent {
    pub server_id: String,
    pub data: String,
}

/// One line that a server wrote to its standard error, without the line
/// ending.
#[derive(Debug, Clone)]
pub struct McpStderrEvent {
    pub server_id: String,
    pub data: String,
}

/// The end of a server, with its exit status where the system gave one.
#[derive(Debug, Clone)]
pub struct McpExitEvent {
    pub server_id: String,
    pub code: Option<i32>,
}

/// A line event with its texts taken by their views.
pub struct LineEventView {
    pub server_id: Seq<char>,
    pub data: Seq<char>,
}

/// An exit event with its text taken by its view.
pub struct ExitEventView {
    pub server_id: Seq<char>,
    pub code: Option<i32>,
}

impl View for McpStdoutEvent {
    type V = LineEventView;

    open spec fn view(&self) -> LineEventView {
        LineEventView { server_id: self.server_id@, data: self.data@ }
    }
}

impl View for McpStderrEvent {
    type V = LineEventView;

    open spec fn view(&self) -> LineEventView {
        LineEventView { server_id: self.server_id@, data: self.data@ }
    }
}

impl View for McpExitEvent {
    type V = ExitEventView;

    open spec fn view(&self) -> ExitEventView {
        ExitEventView { server_id: self.server_id@, code: self.code }
    }
}

} // verus!
