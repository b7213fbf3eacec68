//! The command line: its commands, which of them run without opening the
//! database, the output format of `context`, and the `status` report.

use vstd::prelude::*;
use crate::mcp::{ControlError, ControlResponse};
use crate::text::{chars_eq, chars_of};
use crate::uia_common::opt_view;

verus! {

broadcast use vstd::string::group_string_axioms;

/// Diagnostics subcommands.
#[derive(Debug, Clone, Copy, PartialEq, Eq, Structural)]
pub enum DoctorCommands {
    /// Verify the MCP binary, PATH drift and `tools/list` health.
    Mcp,
}

/// The commands of `dayrecord`.
#[derive(Debug, Clone)]
pub enum Commands {
    /// Output assembled user context (JSON or Markdown).
    Context { scope: String, format: String },
    /// Export memory files for Hermes / OpenClaw / nanobot / generic.
    Export { target: String, out: Option<String> },
    /// Start the MCP server on stdio, or print its version.
    Mcp { version: bool },
    /// Background capture without GUI.
    Daemon,
    /// Show recording / consent status.
    Status,
    /// Set data-collection consent.
    Consent { accept: bool },
    /// Print the data directory path.
    DataDir,
    /// Diagnostics for agent integrations.
    Doctor { command: DoctorCommands },
}

/// A parsed command line.
#[derive(Debug, Clone)]
pub struct Cli {
    pub command: Commands,
}

/// How a command line is served.
#[derive(Debug, Clone, Copy, PartialEq, Eq, Structural)]
pub enum CliAction {
    /// Print the MCP server version and stop.
    PrintVersion,
    /// Run the doctor diagnostics (no database needed).
    Doctor,
    /// Open the database and run the command.
    WithRuntime,
}

/// `mcp --version` prints the version and `doctor` runs diagnostics, both
/// without opening the database; every other command needs it.
pub fn cli_action(cli: &Cli) -> (r: CliAction)
    ensures
        match cli.command {
            Commands::Mcp { version } => r == if version {
                CliAction::PrintVersion
            } else {
                CliAction::WithRuntime
            },
            Commands::Doctor { .. } => r == CliAction::Doctor,
            _ => r == CliAction::WithRuntime,
        },
{
    match &cli.command {
        Commands::Mcp { version } => if *version {
            CliAction::PrintVersion
        } else {
            CliAction::WithRuntime
        },
        Commands::Doctor { .. } => CliAction::Doctor,
        _ => CliAction::WithRuntime,
    }
}

/// Output format of `context`.
#[derive(Debug, Clone, Copy, PartialEq, Eq, Structural)]
pub enum OutputFormat {
    Markdown,
    Json,
}

/// `md` and `markdown` select Markdown; anything else is JSON.
pub fn output_format(format: &str) -> (r: OutputFormat)
    ensures
        r == if format@ == "md"@ || format@ == "markdown"@ {
            OutputFormat::Markdown
        } else {
            OutputFormat::Json
        },
{
    let f = chars_of(format);
    let md = chars_of("md");
    let markdown = chars_of("markdown");
    if chars_eq(&f, &md) || chars_eq(&f, &markdown) {
        OutputFormat::Markdown
    } else {
        OutputFormat::Json
    }
}

/// The `status` report.
#[derive(Debug, Clone, Copy, PartialEq, Eq, Structural)]
pub struct StatusReport {
    pub consent: bool,
    pub recording_state_db: bool,
    pub control_ipc_online: bool,
    pub recording_live: Option<bool>,
}

/// The report from the `consent` and `recording` settings and the capture
/// service's answer to a status request: the service is online only when
/// it answered `ok`, and only then is its live recording flag reported.
pub fn status_report(
    consent: &Option<String>,
    recording: &Option<String>,
    ipc: Result<ControlResponse, ControlError>,
) -> (r: StatusReport)
    ensures
        r.consent == (opt_view(*consent) == Some("true"@)),
        r.recording_state_db == (opt_view(*recording) != Some("false"@)),
        r.control_ipc_online == (ipc matches Ok(resp) && resp.ok),
        r.recording_live == (match ipc {
            Ok(resp) => if resp.ok {
                match resp.data {
                    Some(d) => d.recording,
                    None => None,
                }
            } else {
                None
            },
            Err(_) => None,
        }),
{
    let (online, live) = match ipc {
        Ok(resp) => if resp.ok {
            (
                true,
                match resp.data {
                    Some(d) => d.recording,
                    None => None,
                },
            )
        } else {
            (false, None)
        },
        Err(_) => (false, None),
    };
    StatusReport {
        consent: crate::settings::consent_granted(consent),
        recording_state_db: crate::settings::recording_enabled(recording),
        control_ipc_online: online,
        recording_live: live,
    }
}

} // verus!
