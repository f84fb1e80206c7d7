use handsfreectl::cli::{CliOutputMode, Commands};
use handsfreectl::exchange::{ReplyError, StreamError};
use handsfreectl::codec::DecodeError;
use handsfreectl::protocol::{DaemonCommand, DaemonResponse, DaemonStatus};
use handsfreectl::report::{
    connect_failure_report, daemon_command, reply_report, watch_report, ConnectFailure,
};

fn status(state: &str, last_error: Option<&str>) -> DaemonStatus {
    DaemonStatus { state: state.to_string(), last_error: last_error.map(|e| e.to_string()) }
}

#[test]
fn status_of_absent_service_is_inactive() {
    for f in [ConnectFailure::NotFound, ConnectFailure::ConnectionRefused] {
        let r = connect_failure_report(&Commands::Status, f, "/tmp/x.sock", "No such file");
        assert_eq!(r.lines, vec!["Inactive".to_string()]);
        assert_eq!(r.diagnostic, None);
    }
}

#[test]
fn other_connect_failures_are_errors() {
    let r = connect_failure_report(&Commands::Stop, ConnectFailure::NotFound, "/tmp/x.sock", "No such file");
    assert!(r.lines.is_empty());
    assert_eq!(
        r.diagnostic.unwrap(),
        "Connection Error: Failed to connect to daemon socket at /tmp/x.sock. Is the daemon running? (No such file)"
    );
    let r = connect_failure_report(&Commands::Status, ConnectFailure::Other, "/s", "Permission denied");
    assert!(r.lines.is_empty());
    assert!(r.diagnostic.unwrap().contains("Permission denied"));
}

#[test]
fn commands_map_to_wire_commands() {
    assert_eq!(
        daemon_command(&Commands::Start { output: CliOutputMode::Clipboard }),
        DaemonCommand::Start { output_mode: CliOutputMode::Clipboard }
    );
    assert_eq!(daemon_command(&Commands::Stop), DaemonCommand::Stop);
    assert_eq!(
        daemon_command(&Commands::Toggle { output: None }),
        DaemonCommand::Toggle { output_mode: None }
    );
    assert_eq!(daemon_command(&Commands::Status), DaemonCommand::Status);
    assert_eq!(daemon_command(&Commands::Watch), DaemonCommand::Subscribe);
    assert_eq!(daemon_command(&Commands::Shutdown), DaemonCommand::Shutdown);
}

#[test]
fn status_reply_prints_state_and_error() {
    let r = reply_report(
        &DaemonCommand::Status,
        &Ok(DaemonResponse::Status { status: status("error", Some("Model failed")) }),
    );
    assert_eq!(r.lines, vec!["error".to_string(), "Model failed".to_string()]);
    assert_eq!(r.diagnostic, None);
    let r = reply_report(&DaemonCommand::Status, &Ok(DaemonResponse::Status { status: status("idle", None) }));
    assert_eq!(r.lines, vec!["idle".to_string()]);
}

#[test]
fn other_replies_print_ok_or_fail() {
    let r = reply_report(&DaemonCommand::Stop, &Ok(DaemonResponse::Ack));
    assert_eq!(r.lines, vec!["OK".to_string()]);
    let r = reply_report(&DaemonCommand::Shutdown, &Ok(DaemonResponse::Status { status: status("idle", None) }));
    assert_eq!(r.lines, vec!["OK".to_string()]);
    let r = reply_report(&DaemonCommand::Stop, &Ok(DaemonResponse::Error { message: "busy".to_string() }));
    assert!(r.lines.is_empty());
    assert_eq!(r.diagnostic.unwrap(), "Daemon Error: busy");
    let r = reply_report(&DaemonCommand::Status, &Ok(DaemonResponse::Ack));
    assert!(r.lines.is_empty());
    assert_eq!(r.diagnostic, None);
    let r = reply_report(&DaemonCommand::Stop, &Err(ReplyError::NoResponse { timeout_secs: 5 }));
    assert_eq!(
        r.diagnostic.unwrap(),
        "Communication Error: Connection closed by daemon or timeout after 5 seconds while waiting for response."
    );
}

#[test]
fn watch_items_print_changes_and_report_failures() {
    let r = watch_report(&Ok(DaemonResponse::StateChange { status: status("listening", None) }));
    assert_eq!(r.lines, vec!["State changed: listening".to_string()]);
    let r = watch_report(&Ok(DaemonResponse::Status { status: status("error", Some("no mic")) }));
    assert_eq!(
        r.lines,
        vec!["State changed: error".to_string(), "Error: no mic".to_string()]
    );
    let r = watch_report(&Ok(DaemonResponse::Error { message: "bad".to_string() }));
    assert_eq!(r.diagnostic.unwrap(), "Daemon Error: bad");
    let r = watch_report(&Err(StreamError::Malformed(DecodeError {
        line: "garbage".to_string(),
        detail: "expected value".to_string(),
    })));
    assert!(r.lines.is_empty());
    assert_eq!(r.diagnostic.unwrap(), "Failed to deserialize: expected value (Line: garbage)");
    let r = watch_report(&Ok(DaemonResponse::Ack));
    assert!(r.lines.is_empty() && r.diagnostic.is_none());
}
