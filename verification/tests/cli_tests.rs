use dayrecord::cli::{
    cli_action, output_format, status_report, Cli, CliAction, Commands, DoctorCommands,
    OutputFormat, StatusReport,
};
use dayrecord::mcp::{ControlData, ControlError, ControlResponse};

#[test]
fn cli_actions() {
    let a = |command| cli_action(&Cli { command });
    assert_eq!(a(Commands::Mcp { version: true }), CliAction::PrintVersion);
    assert_eq!(a(Commands::Mcp { version: false }), CliAction::WithRuntime);
    assert_eq!(a(Commands::Doctor { command: DoctorCommands::Mcp }), CliAction::Doctor);
    assert_eq!(a(Commands::Status), CliAction::WithRuntime);
    assert_eq!(a(Commands::Consent { accept: true }), CliAction::WithRuntime);
}

#[test]
fn output_formats() {
    assert_eq!(output_format("md"), OutputFormat::Markdown);
    assert_eq!(output_format("markdown"), OutputFormat::Markdown);
    assert_eq!(output_format("json"), OutputFormat::Json);
    assert_eq!(output_format("yaml"), OutputFormat::Json);
}

#[test]
fn status_reports() {
    let offline = status_report(&Some("true".into()), &None, Err(ControlError::ServiceNotRunning));
    assert_eq!(
        offline,
        StatusReport { consent: true, recording_state_db: true, control_ipc_online: false, recording_live: None }
    );
    let live = Ok(ControlResponse {
        ok: true,
        error: None,
        data: Some(ControlData {
            recording: Some(false),
            day: Some("2026-06-13".into()),
            stats: None,
            summary_markdown: None,
            fact_count: None,
        }),
    });
    let online = status_report(&None, &Some("false".into()), live);
    assert_eq!(
        online,
        StatusReport { consent: false, recording_state_db: false, control_ipc_online: true, recording_live: Some(false) }
    );
    let refused = Ok(ControlResponse { ok: false, error: Some("x".into()), data: None });
    assert!(!status_report(&None, &None, refused).control_ipc_online);
}
