use vstd::prelude::*;

use crate::cli::{output_mode_name, CliOutputMode};

verus! {

/// A request sent from the client to the service.
#[derive(Clone, Copy, Debug, PartialEq, Eq, Structural)]
pub enum DaemonCommand {
    /// Start transcription with the given output mode.
    Start { output_mode: CliOutputMode },
    /// Stop transcription.
    Stop,
    /// Ask for the current status.
    Status,
    /// Ask the service to shut down gracefully.
    Shutdown,
    /// Start when idle, stop when running; the output mode is optional.
    Toggle { output_mode: Option<CliOutputMode> },
    /// Turn the connection into a stream of state changes.
    Subscribe,
}

/// The JSON object that encodes a command: its tag under `command`, and its
/// output mode, when it has one, under `output_mode`.
pub open spec fn command_json(cmd: DaemonCommand) -> Seq<char> {
    match cmd {
        DaemonCommand::Start { output_mode } =>
            "{\"command\":\"start\",\"output_mode\":\""@ + output_mode_name(output_mode) + "\"}"@,
        DaemonCommand::Stop => "{\"command\":\"stop\"}"@,
        DaemonCommand::Status => "{\"command\":\"status\"}"@,
        DaemonCommand::Shutdown => "{\"command\":\"shutdown\"}"@,
        DaemonCommand::Toggle { output_mode: None } => "{\"command\":\"toggle\"}"@,
        DaemonCommand::Toggle { output_mode: Some(m) } =>
            "{\"command\":\"toggle\",\"output_mode\":\""@ + output_mode_name(m) + "\"}"@,
        DaemonCommand::Subscribe => "{\"command\":\"subscribe\"}"@,
    }
}

/// One frame on the wire: the JSON object followed by a single newline.
pub open spec fn command_frame(cmd: DaemonCommand) -> Seq<char> {
    command_json(cmd).push('\n')
}

impl DaemonCommand {
    /// The single-line JSON object for this command.
    pub fn to_json(&self) -> (r: String)
        ensures
            r@ == command_json(*self),
    {
        match self {
            DaemonCommand::Start { output_mode } => {
                let mut s = String::from_str("{\"command\":\"start\",\"output_mode\":\"");
                s.append(output_mode.as_str());
                s.append("\"}");
                s
            },
            DaemonCommand::Stop => String::from_str("{\"command\":\"stop\"}"),
            DaemonCommand::Status => String::from_str("{\"command\":\"status\"}"),
            DaemonCommand::Shutdown => String::from_str("{\"command\":\"shutdown\"}"),
            DaemonCommand::Toggle { output_mode: None } => String::from_str("{\"command\":\"toggle\"}"),
            DaemonCommand::Toggle { output_mode: Some(m) } => {
                let mut s = String::from_str("{\"command\":\"toggle\",\"output_mode\":\"");
                s.append(m.as_str());
                s.append("\"}");
                s
            },
            DaemonCommand::Subscribe => String::from_str("{\"command\":\"subscribe\"}"),
        }
    }

    /// The frame to write for this command: its JSON object and one newline.
    pub fn to_frame(&self) -> (r: String)
        ensures
            r@ == command_frame(*self),
    {
        let mut s = self.to_json();
        s.append("\n");
        proof {
            reveal_strlit("\n");
        }
        s
    }
}

/// Encoding loses nothing: two commands with the same frame are the same
/// command, tag and output mode alike, so a reader of the frame recovers the
/// command that was sent.
pub proof fn lemma_command_frame_injective(a: DaemonCommand, b: DaemonCommand)
    requires
        command_frame(a) == command_frame(b),
    ensures
        a == b,
{
    reveal_strlit("{\"command\":\"start\",\"output_mode\":\"");
    reveal_strlit("{\"command\":\"toggle\",\"output_mode\":\"");
    reveal_strlit("\"}");
    reveal_strlit("{\"command\":\"stop\"}");
    reveal_strlit("{\"command\":\"status\"}");
    reveal_strlit("{\"command\":\"shutdown\"}");
    reveal_strlit("{\"command\":\"toggle\"}");
    reveal_strlit("{\"command\":\"subscribe\"}");
    reveal_strlit("keyboard");
    reveal_strlit("clipboard");
    let sa = command_json(a);
    let sb = command_json(b);
    assert(sa == command_frame(a).drop_last());
    assert(sb == command_frame(b).drop_last());
    assert(sa[13] == sb[13]);
    assert(sa[12] == sb[12]);
    assert(sa.len() == sb.len());
    if sa.len() > 40 {
        assert(sa[sa.len() - 3] == sb[sb.len() - 3]);
    }
}

/// The view of an optional string.
pub open spec fn opt_view(o: Option<String>) -> Option<Seq<char>> {
    match o {
        Some(s) => Some(s@),
        None => None,
    }
}

/// Equality of two optional strings.
pub fn opt_string_eq(a: &Option<String>, b: &Option<String>) -> (r: bool)
    ensures
        r == (opt_view(*a) == opt_view(*b)),
{
    match a {
        Some(x) => match b {
            Some(y) => x.eq(y),
            None => false,
        },
        None => b.is_none(),
    }
}

/// The service's state as it reports it.
#[derive(Clone, Debug)]
pub struct DaemonStatus {
    /// A free-form label such as `idle`, `listening` or `error`.
    pub state: String,
    /// A prior failure that the service wants to surface, if any.
    pub last_error: Option<String>,
}

/// What a status holds, as text.
pub ghost struct StatusModel {
    pub state: Seq<char>,
    pub last_error: Option<Seq<char>>,
}

impl View for DaemonStatus {
    type V = StatusModel;

    open spec fn view(&self) -> StatusModel {
        StatusModel { state: self.state@, last_error: opt_view(self.last_error) }
    }
}

impl PartialEq for DaemonStatus {
    fn eq(&self, other: &DaemonStatus) -> (r: bool) {
        self.state == other.state && opt_string_eq(&self.last_error, &other.last_error)
    }
}

impl vstd::std_specs::cmp::PartialEqSpecImpl for DaemonStatus {
    open spec fn obeys_eq_spec() -> bool {
        true
    }

    open spec fn eq_spec(&self, other: &DaemonStatus) -> bool {
        self@ == other@
    }
}

/// A message sent from the service to the client.
#[derive(Clone, Debug)]
pub enum DaemonResponse {
    /// Bare success.
    Ack,
    /// The answer to a status request.
    Status { status: DaemonStatus },
    /// A state transition, pushed during a subscription.
    StateChange { status: DaemonStatus },
    /// A failure reported by the service, in its own words.
    Error { message: String },
}

/// What a response holds, as text.
pub ghost enum ResponseModel {
    Ack,
    Status(StatusModel),
    StateChange(StatusModel),
    Error(Seq<char>),
}

impl View for DaemonResponse {
    type V = ResponseModel;

    open spec fn view(&self) -> ResponseModel {
        match self {
            DaemonResponse::Ack => ResponseModel::Ack,
            DaemonResponse::Status { status } => ResponseModel::Status(status@),
            DaemonResponse::StateChange { status } => ResponseModel::StateChange(status@),
            DaemonResponse::Error { message } => ResponseModel::Error(message@),
        }
    }
}

impl PartialEq for DaemonResponse {
    fn eq(&self, other: &DaemonResponse) -> (r: bool) {
        match self {
            DaemonResponse::Ack => match other {
                DaemonResponse::Ack => true,
                _ => false,
            },
            DaemonResponse::Status { status: a } => match other {
                DaemonResponse::Status { status: b } => a.eq(b),
                _ => false,
            },
            DaemonResponse::StateChange { status: a } => match other {
                DaemonResponse::StateChange { status: b } => a.eq(b),
                _ => false,
            },
            DaemonResponse::Error { message: a } => match other {
                DaemonResponse::Error { message: b } => a.eq(b),
                _ => false,
            },
        }
    }
}

impl vstd::std_specs::cmp::PartialEqSpecImpl for DaemonResponse {
    open spec fn obeys_eq_spec() -> bool {
        true
    }

    open spec fn eq_spec(&self, other: &DaemonResponse) -> bool {
        self@ == other@
    }
}

} // verus!
