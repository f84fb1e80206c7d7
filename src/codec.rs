use vstd::prelude::*;

use crate::protocol::{
    opt_view, DaemonResponse, DaemonStatus, ResponseModel, StatusModel,
};
use crate::text::{eq_str, is_blank};

verus! {

/// The members of a JSON object, each key with the JSON text of its value,
/// or `None` where `text` is not one JSON object.
pub uninterp spec fn json_object_members(text: Seq<char>) -> Option<Seq<(Seq<char>, Seq<char>)>>;

/// The parser's message for `text` where it is not one JSON object.
pub uninterp spec fn json_object_error(text: Seq<char>) -> Seq<char>;

/// What the JSON text `text` holds when read as a string or `null`:
/// `Some(Some(s))` for a string, `Some(None)` for `null`, `None` otherwise.
pub uninterp spec fn json_string_or_null(text: Seq<char>) -> Option<Option<Seq<char>>>;

/// The view of a list of members.
pub open spec fn members_view(ms: Seq<(String, String)>) -> Seq<(Seq<char>, Seq<char>)> {
    ms.map_values(|p: (String, String)| (p.0@, p.1@))
}

/// Relies on `serde_json::from_str` read into a `serde_json::Map<String, Value>`
/// to parse one JSON object, and on `Display` of `serde_json::Value` for the
/// text of each member's value. On failure, the parser's message. A text of
/// whitespace alone holds no value, so it is never an object.
#[verifier::external_body]
fn parse_object(text: &str) -> (r: Result<Vec<(String, String)>, String>)
    ensures
        match r {
            Ok(ms) => json_object_members(text@) == Some(members_view(ms@)),
            Err(e) => json_object_members(text@) is None && e@ == json_object_error(text@),
        },
        is_blank(text@) ==> r is Err,
{
    match serde_json::from_str::<serde_json::Map<String, serde_json::Value>>(text) {
        Ok(m) => Ok(m.into_iter().map(|(k, v)| (k, v.to_string())).collect()),
        Err(e) => Err(e.to_string()),
    }
}

/// Relies on `serde_json::from_str` read into an `Option<String>`: a JSON
/// string gives its contents, `null` gives `None`, anything else fails.
#[verifier::external_body]
fn parse_string_or_null(text: &str) -> (r: Option<Option<String>>)
    ensures
        match r {
            Some(o) => json_string_or_null(text@) == Some(opt_view(o)),
            None => json_string_or_null(text@) is None,
        },
{
    serde_json::from_str::<Option<String>>(text).ok()
}

/// The text of the first member named `key`.
pub open spec fn member(ms: Seq<(Seq<char>, Seq<char>)>, key: Seq<char>) -> Option<Seq<char>>
    decreases ms.len(),
{
    if ms.len() == 0 {
        None
    } else if ms[0].0 == key {
        Some(ms[0].1)
    } else {
        member(ms.drop_first(), key)
    }
}

/// The member named `key` when it holds a JSON string.
pub open spec fn string_member(ms: Seq<(Seq<char>, Seq<char>)>, key: Seq<char>) -> Option<Seq<char>> {
    match member(ms, key) {
        Some(t) => match json_string_or_null(t) {
            Some(Some(s)) => Some(s),
            _ => None,
        },
        None => None,
    }
}

/// A status read from the members of its object: `state` must be a string;
/// `last_error`, a string or `null`, may be left out.
pub open spec fn status_of_members(ms: Seq<(Seq<char>, Seq<char>)>) -> Option<StatusModel> {
    match string_member(ms, "state"@) {
        None => None,
        Some(state) => match member(ms, "last_error"@) {
            None => Some(StatusModel { state, last_error: None }),
            Some(t) => match json_string_or_null(t) {
                Some(last_error) => Some(StatusModel { state, last_error }),
                None => None,
            },
        },
    }
}

/// The status nested under the `status` member.
pub open spec fn nested_status(ms: Seq<(Seq<char>, Seq<char>)>) -> Option<StatusModel> {
    match member(ms, "status"@) {
        Some(t) => match json_object_members(t) {
            Some(inner) => status_of_members(inner),
            None => None,
        },
        None => None,
    }
}

/// The response named by `tag`, made of the status and the message found
/// beside it; `None` where the tag is unknown or what it needs is missing.
pub open spec fn response_for_tag(
    tag: Seq<char>,
    status: Option<StatusModel>,
    message: Option<Seq<char>>,
) -> Option<ResponseModel> {
    if tag == "ack"@ {
        Some(ResponseModel::Ack)
    } else if tag == "status"@ {
        match status {
            Some(s) => Some(ResponseModel::Status(s)),
            None => None,
        }
    } else if tag == "state_change"@ {
        match status {
            Some(s) => Some(ResponseModel::StateChange(s)),
            None => None,
        }
    } else if tag == "error"@ {
        match message {
            Some(m) => Some(ResponseModel::Error(m)),
            None => None,
        }
    } else {
        None
    }
}

/// The response that the members of a frame's object describe.
pub open spec fn response_of_members(ms: Seq<(Seq<char>, Seq<char>)>) -> Option<ResponseModel> {
    match string_member(ms, "response_type"@) {
        Some(tag) => response_for_tag(tag, nested_status(ms), string_member(ms, "message"@)),
        None => None,
    }
}

/// The response that one line of JSON text decodes to.
pub open spec fn decoded_response(line: Seq<char>) -> Option<ResponseModel> {
    match json_object_members(line) {
        Some(ms) => response_of_members(ms),
        None => None,
    }
}

/// What a decode error says of `line`: the parser's message where the line
/// is not one JSON object, else that the object is not a response.
pub open spec fn decode_error_detail(line: Seq<char>) -> Seq<char> {
    match json_object_members(line) {
        None => json_object_error(line),
        Some(_) => "not a response: unknown `response_type` or a missing field"@,
    }
}

/// The view of an optional status.
pub open spec fn opt_status_view(o: Option<DaemonStatus>) -> Option<StatusModel> {
    match o {
        Some(s) => Some(s@),
        None => None,
    }
}

/// The view of an optional response.
pub open spec fn opt_response_view(o: Option<DaemonResponse>) -> Option<ResponseModel> {
    match o {
        Some(r) => Some(r@),
        None => None,
    }
}

/// A line that could not be decoded as a response.
#[derive(Clone, Debug)]
pub struct DecodeError {
    /// The offending line, as received.
    pub line: String,
    /// Why it was refused.
    pub detail: String,
}

/// The index of the first member named `key`.
fn find_member(ms: &Vec<(String, String)>, key: &str) -> (r: Option<usize>)
    ensures
        match r {
            Some(i) => i < ms@.len() && member(members_view(ms@), key@) == Some(ms@[i as int].1@),
            None => member(members_view(ms@), key@) is None,
        },
{
    let ghost all = members_view(ms@);
    let mut i: usize = 0;
    assert(all.subrange(0, all.len() as int) =~= all);
    while i < ms.len()
        invariant
            i <= ms@.len(),
            all == members_view(ms@),
            member(all, key@) == member(all.subrange(i as int, all.len() as int), key@),
        decreases ms.len() - i,
    {
        let ghost rest = all.subrange(i as int, all.len() as int);
        assert(rest[0] == all[i as int]);
        if eq_str(ms[i].0.as_str(), key) {
            return Some(i);
        }
        assert(rest.drop_first() =~= all.subrange(i + 1, all.len() as int));
        i = i + 1;
    }
    None
}

/// The member named `key` when it holds a JSON string.
fn get_string_member(ms: &Vec<(String, String)>, key: &str) -> (r: Option<String>)
    ensures
        opt_view(r) == string_member(members_view(ms@), key@),
{
    match find_member(ms, key) {
        Some(i) => match parse_string_or_null(ms[i].1.as_str()) {
            Some(Some(s)) => Some(s),
            _ => None,
        },
        None => None,
    }
}

impl DaemonStatus {
    /// Reads a status from the members of its JSON object.
    pub fn from_members(ms: &Vec<(String, String)>) -> (r: Option<DaemonStatus>)
        ensures
            opt_status_view(r) == status_of_members(members_view(ms@)),
    {
        let state = match get_string_member(ms, "state") {
            Some(s) => s,
            None => return None,
        };
        match find_member(ms, "last_error") {
            None => Some(DaemonStatus { state, last_error: None }),
            Some(i) => match parse_string_or_null(ms[i].1.as_str()) {
                Some(last_error) => Some(DaemonStatus { state, last_error }),
                None => None,
            },
        }
    }
}

impl DaemonResponse {
    /// The response named by `tag`, built from the status and the message
    /// that came with it: `ack` needs neither, `status` and `state_change`
    /// need the status, `error` needs the message; any other tag names no
    /// response.
    pub fn from_tag(tag: &str, status: Option<DaemonStatus>, message: Option<String>) -> (r: Option<DaemonResponse>)
        ensures
            opt_response_view(r) == response_for_tag(tag@, opt_status_view(status), opt_view(message)),
    {
        if eq_str(tag, "ack") {
            Some(DaemonResponse::Ack)
        } else if eq_str(tag, "status") {
            match status {
                Some(status) => Some(DaemonResponse::Status { status }),
                None => None,
            }
        } else if eq_str(tag, "state_change") {
            match status {
                Some(status) => Some(DaemonResponse::StateChange { status }),
                None => None,
            }
        } else if eq_str(tag, "error") {
            match message {
                Some(message) => Some(DaemonResponse::Error { message }),
                None => None,
            }
        } else {
            None
        }
    }

    /// Reads a response from the members of a frame's JSON object.
    pub fn from_members(ms: &Vec<(String, String)>) -> (r: Option<DaemonResponse>)
        ensures
            opt_response_view(r) == response_of_members(members_view(ms@)),
    {
        let tag = match get_string_member(ms, "response_type") {
            Some(t) => t,
            None => return None,
        };
        let status = match find_member(ms, "status") {
            Some(i) => match parse_object(ms[i].1.as_str()) {
                Ok(inner) => DaemonStatus::from_members(&inner),
                Err(_) => None,
            },
            None => None,
        };
        let message = get_string_member(ms, "message");
        DaemonResponse::from_tag(tag.as_str(), status, message)
    }
}

/// Decodes one line, without its newline, as a response.
pub fn decode_response(line: &str) -> (r: Result<DaemonResponse, DecodeError>)
    ensures
        r is Ok <==> decoded_response(line@) is Some,
        r matches Ok(v) ==> decoded_response(line@) == Some(v@),
        r matches Err(e) ==> e.line@ == line@ && e.detail@ == decode_error_detail(line@),
        is_blank(line@) ==> r is Err,
{
    let ms = match parse_object(line) {
        Ok(ms) => ms,
        Err(detail) => return Err(DecodeError { line: line.to_string(), detail }),
    };
    match DaemonResponse::from_members(&ms) {
        Some(v) => Ok(v),
        None => Err(
            DecodeError {
                line: line.to_string(),
                detail: String::from_str("not a response: unknown `response_type` or a missing field"),
            },
        ),
    }
}

} // verus!
