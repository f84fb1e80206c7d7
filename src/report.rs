use vstd::prelude::*;

use crate::cli::Commands;
use crate::exchange::{reply_error_text, stream_error_text, ReplyError, StreamError};
use crate::protocol::{DaemonCommand, DaemonResponse, DaemonStatus, StatusModel};

verus! {

/// The command sent to the service for what the user asked: watching is a
/// subscription, the rest keep their names and output modes.
pub open spec fn command_for(c: Commands) -> DaemonCommand {
    match c {
        Commands::Start { output } => DaemonCommand::Start { output_mode: output },
        Commands::Stop => DaemonCommand::Stop,
        Commands::Toggle { output } => DaemonCommand::Toggle { output_mode: output },
        Commands::Status => DaemonCommand::Status,
        Commands::Watch => DaemonCommand::Subscribe,
        Commands::Shutdown => DaemonCommand::Shutdown,
    }
}

/// The command to send to the service for `c`.
pub fn daemon_command(c: &Commands) -> (r: DaemonCommand)
    ensures
        r == command_for(*c),
{
    match c {
        Commands::Start { output } => DaemonCommand::Start { output_mode: *output },
        Commands::Stop => DaemonCommand::Stop,
        Commands::Toggle { output } => DaemonCommand::Toggle { output_mode: *output },
        Commands::Status => DaemonCommand::Status,
        Commands::Watch => DaemonCommand::Subscribe,
        Commands::Shutdown => DaemonCommand::Shutdown,
    }
}

/// Why a connection to the socket failed, as far as the caller cares.
#[derive(Clone, Copy, Debug, PartialEq, Eq, Structural)]
pub enum ConnectFailure {
    /// No socket file: the service is not running.
    NotFound,
    /// The socket file exists but nothing accepts: the service is not running.
    ConnectionRefused,
    /// Anything else, such as a permission error.
    Other,
}

/// Whether a failure means that the service is simply not running.
pub open spec fn service_absent(f: ConnectFailure) -> bool {
    f is NotFound || f is ConnectionRefused
}

/// What an invocation prints, and the diagnostic it gives, if any. For a
/// request the diagnostic means that the invocation failed; during a
/// subscription it is reported and the stream goes on.
#[derive(Clone, Debug)]
pub struct Report {
    pub lines: Vec<String>,
    pub diagnostic: Option<String>,
}

/// The lines and the diagnostic of a report, as text.
pub ghost struct ReportModel {
    pub lines: Seq<Seq<char>>,
    pub diagnostic: Option<Seq<char>>,
}

impl View for Report {
    type V = ReportModel;

    open spec fn view(&self) -> ReportModel {
        ReportModel {
            lines: self.lines@.map_values(|s: String| s@),
            diagnostic: match self.diagnostic {
                Some(d) => Some(d@),
                None => None,
            },
        }
    }
}

/// A report that prints `lines` and gives no diagnostic.
pub open spec fn printed(lines: Seq<Seq<char>>) -> ReportModel {
    ReportModel { lines, diagnostic: None }
}

/// A report that prints nothing and gives the diagnostic `d`.
pub open spec fn failed(d: Seq<char>) -> ReportModel {
    ReportModel { lines: seq![], diagnostic: Some(d) }
}

/// The report of a failed connection: asking for the status of a service
/// that is not running prints `Inactive` and succeeds; any other failure,
/// or any other command, fails.
pub open spec fn connect_failure_spec(
    command: Commands,
    failure: ConnectFailure,
    path: Seq<char>,
    detail: Seq<char>,
) -> ReportModel {
    if command is Status && service_absent(failure) {
        printed(seq!["Inactive"@])
    } else {
        failed(
            "Connection Error: Failed to connect to daemon socket at "@ + path
                + ". Is the daemon running? ("@ + detail + ")"@,
        )
    }
}

/// A service that is not running is an answer only to a status request:
/// asking for the status prints exactly `Inactive` and succeeds, while every
/// other command fails on the same connection failure.
pub proof fn lemma_absent_service_is_inactive(
    command: Commands,
    failure: ConnectFailure,
    path: Seq<char>,
    detail: Seq<char>,
)
    requires
        service_absent(failure),
    ensures
        command is Status ==> connect_failure_spec(command, failure, path, detail) == printed(
            seq!["Inactive"@],
        ),
        !(command is Status) ==> connect_failure_spec(command, failure, path, detail).diagnostic is Some,
{
}

/// The lines that print a status with the given prefixes.
pub open spec fn status_lines(s: StatusModel, state_prefix: Seq<char>, error_prefix: Seq<char>) -> Seq<Seq<char>> {
    match s.last_error {
        Some(e) => seq![state_prefix + s.state, error_prefix + e],
        None => seq![state_prefix + s.state],
    }
}

/// The report of a request's outcome. A status request prints the state and
/// any last error; other requests print `OK` on an acknowledgement. An
/// error from the service, or a failed exchange, fails the invocation.
pub open spec fn reply_spec(sent: DaemonCommand, reply: Result<DaemonResponse, ReplyError>) -> ReportModel {
    match reply {
        Err(e) => failed("Communication Error: "@ + reply_error_text(e)),
        Ok(DaemonResponse::Error { message }) => failed("Daemon Error: "@ + message@),
        Ok(DaemonResponse::Status { status }) => if sent is Status {
            printed(status_lines(status@, seq![], seq![]))
        } else {
            printed(seq!["OK"@])
        },
        Ok(DaemonResponse::Ack) => if sent is Status {
            printed(seq![])
        } else {
            printed(seq!["OK"@])
        },
        Ok(DaemonResponse::StateChange { .. }) => printed(seq![]),
    }
}

/// The report of one item of a subscription: a state change (or a status)
/// is printed, an error from the service or a failed item gives a
/// diagnostic.
pub open spec fn watch_spec(item: Result<DaemonResponse, StreamError>) -> ReportModel {
    match item {
        Err(e) => failed(stream_error_text(e)),
        Ok(DaemonResponse::Error { message }) => failed("Daemon Error: "@ + message@),
        Ok(DaemonResponse::Status { status }) => printed(
            status_lines(status@, "State changed: "@, "Error: "@),
        ),
        Ok(DaemonResponse::StateChange { status }) => printed(
            status_lines(status@, "State changed: "@, "Error: "@),
        ),
        Ok(DaemonResponse::Ack) => printed(seq![]),
    }
}

/// `a` followed by `b`.
fn concat(a: &str, b: &str) -> (r: String)
    ensures
        r@ == a@ + b@,
{
    let mut s = String::from_str(a);
    s.append(b);
    s
}

fn print_lines(lines: Vec<String>) -> (r: Report)
    ensures
        r@ == printed(lines@.map_values(|s: String| s@)),
{
    Report { lines, diagnostic: None }
}

fn fail_with(d: String) -> (r: Report)
    ensures
        r@ == failed(d@),
{
    let r = Report { lines: Vec::new(), diagnostic: Some(d) };
    assert(r@.lines =~= seq![]);
    r
}

/// The lines that print a status with the given prefixes.
fn print_status(s: &DaemonStatus, state_prefix: &str, error_prefix: &str) -> (r: Report)
    ensures
        r@ == printed(status_lines(s@, state_prefix@, error_prefix@)),
{
    let mut lines: Vec<String> = Vec::new();
    lines.push(concat(state_prefix, s.state.as_str()));
    match &s.last_error {
        Some(e) => lines.push(concat(error_prefix, e.as_str())),
        None => {},
    }
    let r = print_lines(lines);
    assert(r@.lines =~= status_lines(s@, state_prefix@, error_prefix@));
    r
}

fn print_one(line: &str) -> (r: Report)
    ensures
        r@ == printed(seq![line@]),
{
    let mut lines: Vec<String> = Vec::new();
    lines.push(String::from_str(line));
    let r = print_lines(lines);
    assert(r@.lines =~= seq![line@]);
    r
}

fn print_nothing() -> (r: Report)
    ensures
        r@ == printed(seq![]),
{
    let r = print_lines(Vec::new());
    assert(r@.lines =~= seq![]);
    r
}

/// What to report when connecting to the socket at `path` failed; `detail`
/// is the failure's own text.
pub fn connect_failure_report(command: &Commands, failure: ConnectFailure, path: &str, detail: &str) -> (r: Report)
    ensures
        r@ == connect_failure_spec(*command, failure, path@, detail@),
{
    let absent = match failure {
        ConnectFailure::NotFound => true,
        ConnectFailure::ConnectionRefused => true,
        ConnectFailure::Other => false,
    };
    match command {
        Commands::Status if absent => print_one("Inactive"),
        _ => {
            let mut d = String::from_str("Connection Error: Failed to connect to daemon socket at ");
            d.append(path);
            d.append(". Is the daemon running? (");
            d.append(detail);
            d.append(")");
            fail_with(d)
        },
    }
}

/// What to report once the request `sent` got `reply`.
pub fn reply_report(sent: &DaemonCommand, reply: &Result<DaemonResponse, ReplyError>) -> (r: Report)
    ensures
        r@ == reply_spec(*sent, *reply),
{
    let asked_status = match sent {
        DaemonCommand::Status => true,
        _ => false,
    };
    match reply {
        Err(e) => {
            let m = e.message();
            fail_with(concat("Communication Error: ", m.as_str()))
        },
        Ok(DaemonResponse::Error { message }) => fail_with(concat("Daemon Error: ", message.as_str())),
        Ok(DaemonResponse::Status { status }) => if asked_status {
            let r = print_status(status, "", "");
            proof {
                reveal_strlit("");
                assert(status_lines(status@, ""@, ""@) =~= status_lines(status@, seq![], seq![]));
            }
            r
        } else {
            print_one("OK")
        },
        Ok(DaemonResponse::Ack) => if asked_status {
            print_nothing()
        } else {
            print_one("OK")
        },
        Ok(DaemonResponse::StateChange { .. }) => print_nothing(),
    }
}

/// What to report for one item of a subscription.
pub fn watch_report(item: &Result<DaemonResponse, StreamError>) -> (r: Report)
    ensures
        r@ == watch_spec(*item),
{
    match item {
        Err(e) => fail_with(e.message()),
        Ok(DaemonResponse::Error { message }) => fail_with(concat("Daemon Error: ", message.as_str())),
        Ok(DaemonResponse::Status { status }) => print_status(status, "State changed: ", "Error: "),
        Ok(DaemonResponse::StateChange { status }) => print_status(status, "State changed: ", "Error: "),
        Ok(DaemonResponse::Ack) => print_nothing(),
    }
}

} // verus!
