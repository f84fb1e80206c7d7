use handsfreectl::cli::CliOutputMode;
use handsfreectl::codec::decode_response;
use handsfreectl::protocol::{DaemonCommand, DaemonResponse, DaemonStatus};

#[test]
fn test_daemon_command_serialization() {
    let start_cmd = DaemonCommand::Start {
        output_mode: CliOutputMode::Clipboard,
    };
    let json = start_cmd.to_json();
    assert_eq!(json, r#"{"command":"start","output_mode":"clipboard"}"#);

    let stop_cmd = DaemonCommand::Stop;
    let json = stop_cmd.to_json();
    assert_eq!(json, r#"{"command":"stop"}"#);

    let status_cmd = DaemonCommand::Status;
    let json = status_cmd.to_json();
    assert_eq!(json, r#"{"command":"status"}"#);

    let shutdown_cmd = DaemonCommand::Shutdown;
    let json = shutdown_cmd.to_json();
    assert_eq!(json, r#"{"command":"shutdown"}"#);
}

fn all_commands() -> Vec<DaemonCommand> {
    vec![
        DaemonCommand::Start { output_mode: CliOutputMode::Clipboard },
        DaemonCommand::Start { output_mode: CliOutputMode::Keyboard },
        DaemonCommand::Stop,
        DaemonCommand::Status,
        DaemonCommand::Shutdown,
        DaemonCommand::Toggle { output_mode: None },
        DaemonCommand::Toggle { output_mode: Some(CliOutputMode::Keyboard) },
        DaemonCommand::Subscribe,
    ]
}

#[test]
fn frames_match_the_wire_examples() {
    let expected = [
        "{\"command\":\"start\",\"output_mode\":\"clipboard\"}\n",
        "{\"command\":\"start\",\"output_mode\":\"keyboard\"}\n",
        "{\"command\":\"stop\"}\n",
        "{\"command\":\"status\"}\n",
        "{\"command\":\"shutdown\"}\n",
        "{\"command\":\"toggle\"}\n",
        "{\"command\":\"toggle\",\"output_mode\":\"keyboard\"}\n",
        "{\"command\":\"subscribe\"}\n",
    ];
    for (cmd, want) in all_commands().iter().zip(expected.iter()) {
        assert_eq!(cmd.to_frame(), *want);
    }
}

#[test]
fn frames_decode_back_to_their_tag_and_fields() {
    for cmd in all_commands() {
        let frame = cmd.to_frame();
        assert!(frame.ends_with('\n'));
        assert_eq!(frame.matches('\n').count(), 1);
        let value: serde_json::Value = serde_json::from_str(frame.trim_end()).unwrap();
        let obj = value.as_object().unwrap();
        let tag = obj.get("command").and_then(|v| v.as_str()).unwrap();
        let mode = obj.get("output_mode").map(|v| v.as_str().unwrap().to_string());
        let (want_tag, want_mode) = match cmd {
            DaemonCommand::Start { output_mode } => ("start", Some(output_mode)),
            DaemonCommand::Stop => ("stop", None),
            DaemonCommand::Status => ("status", None),
            DaemonCommand::Shutdown => ("shutdown", None),
            DaemonCommand::Toggle { output_mode } => ("toggle", output_mode),
            DaemonCommand::Subscribe => ("subscribe", None),
        };
        assert_eq!(tag, want_tag);
        assert_eq!(mode, want_mode.map(|m| m.as_str().to_string()));
        assert_eq!(obj.len(), 1 + want_mode.iter().count());
    }
}

#[test]
fn distinct_commands_have_distinct_frames() {
    let cmds = all_commands();
    for (i, a) in cmds.iter().enumerate() {
        for (j, b) in cmds.iter().enumerate() {
            assert_eq!(i == j, a.to_frame() == b.to_frame());
        }
    }
}

#[test]
fn test_daemon_response_deserialization() {
    // Test Ack
    let json_ack = r#"{"response_type":"ack"}"#;
    let resp_ack = decode_response(json_ack).unwrap();
    assert_eq!(resp_ack, DaemonResponse::Ack);

    // Test Status (with error)
    let json_status =
        r#"{"response_type":"status","status":{"state":"error","last_error":"Model failed"}}"#;
    let resp_status = decode_response(json_status).unwrap();
    assert_eq!(
        resp_status,
        DaemonResponse::Status {
            status: DaemonStatus {
                state: "error".to_string(),
                last_error: Some("Model failed".to_string())
            }
        }
    );

    // Test Status (no error)
    let json_status_ok = r#"{"response_type":"status","status":{"state":"idle","last_error":null}}"#;
    let resp_status_ok = decode_response(json_status_ok).unwrap();
    assert_eq!(
        resp_status_ok,
        DaemonResponse::Status {
            status: DaemonStatus {
                state: "idle".to_string(),
                last_error: None
            }
        }
    );

    // Test Error
    let json_error = r#"{"response_type":"error","message":"Bad command"}"#;
    let resp_error = decode_response(json_error).unwrap();
    assert_eq!(
        resp_error,
        DaemonResponse::Error {
            message: "Bad command".to_string()
        }
    );
}

#[test]
fn decode_ack() {
    let r = decode_response(r#"{"response_type":"ack"}"#).unwrap();
    assert_eq!(r, DaemonResponse::Ack);
}

#[test]
fn decode_status_without_error() {
    let r = decode_response(r#"{"response_type":"status","status":{"state":"idle","last_error":null}}"#)
        .unwrap();
    assert_eq!(
        r,
        DaemonResponse::Status {
            status: DaemonStatus { state: "idle".to_string(), last_error: None }
        }
    );
}

#[test]
fn decode_status_with_error() {
    let r = decode_response(
        r#"{"response_type":"status","status":{"state":"error","last_error":"Model failed"}}"#,
    )
    .unwrap();
    assert_eq!(
        r,
        DaemonResponse::Status {
            status: DaemonStatus {
                state: "error".to_string(),
                last_error: Some("Model failed".to_string())
            }
        }
    );
}

#[test]
fn decode_status_with_last_error_left_out() {
    let r = decode_response(r#"{"response_type":"status","status":{"state":"listening"}}"#).unwrap();
    assert_eq!(
        r,
        DaemonResponse::Status {
            status: DaemonStatus { state: "listening".to_string(), last_error: None }
        }
    );
}

#[test]
fn decode_state_change() {
    let r = decode_response(
        r#"{ "status": {"last_error": null, "state": "listening"}, "response_type": "state_change" }"#,
    )
    .unwrap();
    assert_eq!(
        r,
        DaemonResponse::StateChange {
            status: DaemonStatus { state: "listening".to_string(), last_error: None }
        }
    );
}

#[test]
fn decode_error_response_with_escapes() {
    let r = decode_response(r#"{"response_type":"error","message":"Bad \"cmd\" é"}"#).unwrap();
    assert_eq!(r, DaemonResponse::Error { message: "Bad \"cmd\" \u{e9}".to_string() });
}

#[test]
fn decode_refuses_what_is_not_a_response() {
    for line in [
        "{invalid_json}",
        "[1,2]",
        "\"ack\"",
        r#"{"response_type":"ping"}"#,
        r#"{"response_type":7}"#,
        r#"{"message":"no tag"}"#,
        r#"{"response_type":"error"}"#,
        r#"{"response_type":"error","message":null}"#,
        r#"{"response_type":"status"}"#,
        r#"{"response_type":"status","state":"idle","last_error":null}"#,
        r#"{"response_type":"status","status":{"state":null}}"#,
        r#"{"response_type":"status","status":{"state":"idle","last_error":3}}"#,
    ] {
        let e = decode_response(line).unwrap_err();
        assert_eq!(e.line, line);
        match serde_json::from_str::<serde_json::Map<String, serde_json::Value>>(line) {
            Err(parser) => assert_eq!(e.detail, parser.to_string()),
            Ok(_) => assert_eq!(e.detail, "not a response: unknown `response_type` or a missing field"),
        }
    }
}

#[test]
fn decode_ack_ignores_other_fields() {
    let r = decode_response(r#"{"response_type":"ack","status":"whatever"}"#).unwrap();
    assert_eq!(r, DaemonResponse::Ack);
}

#[test]
fn from_tag_builds_each_response() {
    let s = DaemonStatus { state: "idle".to_string(), last_error: None };
    assert_eq!(DaemonResponse::from_tag("ack", None, None), Some(DaemonResponse::Ack));
    assert_eq!(
        DaemonResponse::from_tag("status", Some(s.clone()), None),
        Some(DaemonResponse::Status { status: s.clone() })
    );
    assert_eq!(
        DaemonResponse::from_tag("state_change", Some(s.clone()), None),
        Some(DaemonResponse::StateChange { status: s.clone() })
    );
    assert_eq!(
        DaemonResponse::from_tag("error", None, Some("boom".to_string())),
        Some(DaemonResponse::Error { message: "boom".to_string() })
    );
    assert_eq!(DaemonResponse::from_tag("status", None, Some("x".to_string())), None);
    assert_eq!(DaemonResponse::from_tag("error", Some(s), None), None);
    assert_eq!(DaemonResponse::from_tag("Ack", None, None), None);
}

#[test]
fn status_from_members_reads_state_and_last_error() {
    let ms = vec![
        ("last_error".to_string(), "\"mic busy\"".to_string()),
        ("state".to_string(), "\"error\"".to_string()),
    ];
    assert_eq!(
        DaemonStatus::from_members(&ms),
        Some(DaemonStatus { state: "error".to_string(), last_error: Some("mic busy".to_string()) })
    );
    let missing = vec![("last_error".to_string(), "null".to_string())];
    assert_eq!(DaemonStatus::from_members(&missing), None);
}
