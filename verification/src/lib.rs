//! Core of a desktop shell: a registry of managed server processes with the
//! pumps that forward their output, and the checks made on preferences and
//! emergency data before they are written.

pub mod json;
pub mod mcp;
pub mod menu;
pub mod pattern;
pub mod preferences;
pub mod recovery;
pub mod text;
pub mod validate;

pub use mcp::command::LaunchPlan;
pub use mcp::config::{EnvVars, McpServerConfig};
pub use mcp::error::{io_outcome, kill_outcome, IoStep, McpError, StreamKind};
pub use mcp::events::{McpExitEvent, McpStderrEvent, McpStdoutEvent, STDERR_EVENT, STDOUT_EVENT};
pub use mcp::pump::{LinePump, LineRead};
pub use mcp::registry::McpProcesses;
pub use menu::menu_event_name;
pub use preferences::AppPreferences;
pub use recovery::{
    check_emergency_data, parse_emergency_data, recovery_file_name, render_emergency_data,
    RecoverySweep, SweepAction, SweepEvent, SweepPhase,
};
pub use validate::{greet, validate_filename, validate_string_input, validate_theme};
