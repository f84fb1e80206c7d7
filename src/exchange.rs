use vstd::prelude::*;

use crate::codec::{decode_error_detail, decode_response, decoded_response, DecodeError};
use crate::protocol::DaemonResponse;
use crate::text::{blank, decimal, is_blank, push_decimal, strip_newlines, trim_newlines};

verus! {

/// How long a request waits for its response, in seconds.
pub const READ_TIMEOUT_SECS: u64 = 5;

/// What one read of a line from the connection gave.
#[derive(Clone, Debug)]
pub enum LineRead {
    /// A line of text, with its newline when one arrived before the end.
    Line(String),
    /// The peer closed the connection before sending any byte.
    Closed,
    /// The read failed; the error's text.
    Failed(String),
}

/// Why a request got no usable response.
#[derive(Clone, Debug)]
pub enum ReplyError {
    /// No byte arrived: the peer closed the connection, or the wait ran out.
    NoResponse { timeout_secs: u64 },
    /// Part of a line arrived, but not its end, before the wait ran out.
    Incomplete { timeout_secs: u64 },
    /// A line arrived that is not a response.
    Malformed(DecodeError),
    /// Reading failed; the error's text.
    Read(String),
}

/// What to do after one read while waiting for a response.
#[derive(Debug)]
pub enum ReplyStep {
    /// The exchange is over, with this result.
    Done(Result<DaemonResponse, ReplyError>),
    /// The line was empty: read the next one, within the same wait.
    ReadNext,
}

/// One step of a subscription.
#[derive(Debug)]
pub enum StreamStep {
    /// Hand this item to the consumer, then read on.
    Item(Result<DaemonResponse, StreamError>),
    /// The line held nothing but whitespace: read on.
    Skip,
    /// The peer closed the connection: the stream is over.
    End,
}

/// A failed item of a subscription; the stream goes on after it.
#[derive(Clone, Debug)]
pub enum StreamError {
    /// A line arrived that is not a response.
    Malformed(DecodeError),
    /// Reading failed; the error's text.
    Read(String),
}

/// The text of a line read, without its newlines.
pub open spec fn frame_text(line: String) -> Seq<char> {
    strip_newlines(line@)
}

/// Whether a read gives a line that is empty once its newlines are removed.
pub open spec fn is_empty_read(read: LineRead) -> bool {
    match read {
        LineRead::Line(l) => frame_text(l).len() == 0,
        _ => false,
    }
}

/// Whether a read gives a line that holds nothing but whitespace.
pub open spec fn is_blank_read(read: LineRead) -> bool {
    match read {
        LineRead::Line(l) => is_blank(frame_text(l)),
        _ => false,
    }
}

/// Whether `t` occurs in `s` as a contiguous part.
pub open spec fn contains(s: Seq<char>, t: Seq<char>) -> bool {
    exists|k: int| 0 <= k && k + t.len() <= s.len() && #[trigger] s.subrange(k, k + t.len()) == t
}

/// The message of a reply error.
pub open spec fn reply_error_text(e: ReplyError) -> Seq<char> {
    match e {
        ReplyError::NoResponse { timeout_secs } =>
            "Connection closed by daemon or timeout after "@ + decimal(timeout_secs as nat)
                + " seconds while waiting for response."@,
        ReplyError::Incomplete { timeout_secs } =>
            "Timeout after "@ + decimal(timeout_secs as nat) + " seconds reading response line."@,
        ReplyError::Malformed(d) =>
            "Failed to deserialize daemon response '"@ + d.line@ + "': "@ + d.detail@,
        ReplyError::Read(m) => "Failed to read response from daemon: "@ + m@,
    }
}

/// The message of a failed stream item.
pub open spec fn stream_error_text(e: StreamError) -> Seq<char> {
    match e {
        StreamError::Malformed(d) =>
            "Failed to deserialize: "@ + d.detail@ + " (Line: "@ + d.line@ + ")"@,
        StreamError::Read(m) => "IO Error: "@ + m@,
    }
}

impl ReplyError {
    /// A one-line description, naming the wait where one ran out and the
    /// offending line where one came.
    pub fn message(&self) -> (r: String)
        ensures
            r@ == reply_error_text(*self),
    {
        match self {
            ReplyError::NoResponse { timeout_secs } => {
                let mut s = String::from_str("Connection closed by daemon or timeout after ");
                push_decimal(&mut s, *timeout_secs);
                s.append(" seconds while waiting for response.");
                s
            },
            ReplyError::Incomplete { timeout_secs } => {
                let mut s = String::from_str("Timeout after ");
                push_decimal(&mut s, *timeout_secs);
                s.append(" seconds reading response line.");
                s
            },
            ReplyError::Malformed(d) => {
                let mut s = String::from_str("Failed to deserialize daemon response '");
                s.append(d.line.as_str());
                s.append("': ");
                s.append(d.detail.as_str());
                s
            },
            ReplyError::Read(m) => {
                let mut s = String::from_str("Failed to read response from daemon: ");
                s.append(m.as_str());
                s
            },
        }
    }
}

impl StreamError {
    /// A one-line description, quoting the offending line where one came.
    pub fn message(&self) -> (r: String)
        ensures
            r@ == stream_error_text(*self),
    {
        match self {
            StreamError::Malformed(d) => {
                let mut s = String::from_str("Failed to deserialize: ");
                s.append(d.detail.as_str());
                s.append(" (Line: ");
                s.append(d.line.as_str());
                s.append(")");
                s
            },
            StreamError::Read(m) => {
                let mut s = String::from_str("IO Error: ");
                s.append(m.as_str());
                s
            },
        }
    }
}

/// The outcome of a request whose wait ran out with `partial` read so far.
pub fn reply_timed_out(partial: &str) -> (r: ReplyError)
    ensures
        partial@.len() == 0 ==> r == (ReplyError::NoResponse { timeout_secs: READ_TIMEOUT_SECS }),
        partial@.len() > 0 ==> r == (ReplyError::Incomplete { timeout_secs: READ_TIMEOUT_SECS }),
{
    if partial.unicode_len() == 0 {
        ReplyError::NoResponse { timeout_secs: READ_TIMEOUT_SECS }
    } else {
        ReplyError::Incomplete { timeout_secs: READ_TIMEOUT_SECS }
    }
}

/// What a read made within the wait for a response leads to: an empty
/// line is passed over, any other line is decoded, a close before any byte
/// means that no response came, and a failed read ends the exchange with
/// its error.
pub fn reply_step(read: LineRead) -> (r: ReplyStep)
    ensures
        (r is ReadNext) == is_empty_read(read),
        read is Closed ==> r == ReplyStep::Done(
            Err(ReplyError::NoResponse { timeout_secs: READ_TIMEOUT_SECS }),
        ),
        read matches LineRead::Failed(m) ==> r == ReplyStep::Done(Err(ReplyError::Read(m))),
        read matches LineRead::Line(l) ==> frame_text(l).len() > 0 ==> {
            &&& (r matches ReplyStep::Done(Ok(_))) == (decoded_response(frame_text(l)) is Some)
            &&& r matches ReplyStep::Done(Ok(v)) ==> decoded_response(frame_text(l)) == Some(v@)
            &&& r matches ReplyStep::Done(Err(e)) ==> (e matches ReplyError::Malformed(d) && d.line@
                == frame_text(l) && d.detail@ == decode_error_detail(frame_text(l)))
            &&& is_blank(frame_text(l)) ==> r matches ReplyStep::Done(Err(ReplyError::Malformed(_)))
        },
{
    match read {
        LineRead::Line(l) => {
            let text = trim_newlines(l.as_str());
            if text.unicode_len() == 0 {
                ReplyStep::ReadNext
            } else {
                match decode_response(text) {
                    Ok(v) => ReplyStep::Done(Ok(v)),
                    Err(d) => ReplyStep::Done(Err(ReplyError::Malformed(d))),
                }
            }
        },
        LineRead::Closed => ReplyStep::Done(
            Err(ReplyError::NoResponse { timeout_secs: READ_TIMEOUT_SECS }),
        ),
        LineRead::Failed(m) => ReplyStep::Done(Err(ReplyError::Read(m))),
    }
}

/// What a read made during a subscription leads to: a close ends the
/// stream, a line of whitespace is passed over, and every other read gives
/// one item, a failed one included, after which the stream goes on.
pub fn stream_step(read: LineRead) -> (r: StreamStep)
    ensures
        (r is End) == (read is Closed),
        (r is Skip) == is_blank_read(read),
        read matches LineRead::Failed(m) ==> r == StreamStep::Item(Err(StreamError::Read(m))),
        read matches LineRead::Line(l) ==> {
            &&& (r matches StreamStep::Item(Ok(_))) == (decoded_response(frame_text(l)) is Some)
            &&& r matches StreamStep::Item(Ok(v)) ==> decoded_response(frame_text(l)) == Some(v@)
            &&& r matches StreamStep::Item(Err(e)) ==> (e matches StreamError::Malformed(d) && d.line@
                == frame_text(l) && d.detail@ == decode_error_detail(frame_text(l)))
        },
{
    match read {
        LineRead::Line(l) => {
            let text = trim_newlines(l.as_str());
            match decode_response(text) {
                Ok(v) => StreamStep::Item(Ok(v)),
                Err(d) => if blank(text) {
                    StreamStep::Skip
                } else {
                    StreamStep::Item(Err(StreamError::Malformed(d)))
                },
            }
        },
        LineRead::Closed => StreamStep::End,
        LineRead::Failed(m) => StreamStep::Item(Err(StreamError::Read(m))),
    }
}

/// The items that a subscription yields from the reads `reads`, taken in
/// order up to the first close: a decoded response, or `None` for a failed
/// item; lines of whitespace yield nothing.
pub open spec fn stream_items(reads: Seq<LineRead>) -> Seq<Option<crate::protocol::ResponseModel>>
    decreases reads.len(),
{
    if reads.len() == 0 {
        seq![]
    } else {
        match reads[0] {
            LineRead::Closed => seq![],
            LineRead::Failed(_) => seq![None] + stream_items(reads.drop_first()),
            LineRead::Line(l) => match decoded_response(frame_text(l)) {
                Some(m) => seq![Some(m)] + stream_items(reads.drop_first()),
                None => if is_blank(frame_text(l)) {
                    stream_items(reads.drop_first())
                } else {
                    seq![None] + stream_items(reads.drop_first())
                },
            },
        }
    }
}

/// A malformed frame is never dropped silently: the message of the error
/// that it gives, in a request and in a subscription alike, holds the
/// offending line.
pub proof fn lemma_malformed_message_holds_line(d: DecodeError)
    ensures
        contains(reply_error_text(ReplyError::Malformed(d)), d.line@),
        contains(stream_error_text(StreamError::Malformed(d)), d.line@),
{
    let line = d.line@;
    let p = "Failed to deserialize daemon response '"@;
    let s = reply_error_text(ReplyError::Malformed(d));
    assert(s.subrange(p.len() as int, (p.len() + line.len()) as int) =~= line);
    let q = "Failed to deserialize: "@ + d.detail@ + " (Line: "@;
    let t = stream_error_text(StreamError::Malformed(d));
    assert(t.subrange(q.len() as int, (q.len() + line.len()) as int) =~= line);
}

/// No item ends a subscription: a line that yields an item, a malformed
/// one included, yields it in its place (its decoded response, or `None`),
/// and the lines after it yield what they would have yielded without it.
pub proof fn lemma_item_keeps_stream(before: Seq<LineRead>, line: String, after: Seq<LineRead>)
    requires
        forall|i: int| 0 <= i < before.len() ==> !(#[trigger] before[i] is Closed),
        decoded_response(frame_text(line)) is Some || !is_blank(frame_text(line)),
    ensures
        stream_items(before + seq![LineRead::Line(line)] + after) == stream_items(before).push(
            decoded_response(frame_text(line)),
        ) + stream_items(after),
    decreases before.len(),
{
    let all = before + seq![LineRead::Line(line)] + after;
    let item = decoded_response(frame_text(line));
    if before.len() == 0 {
        assert(all.drop_first() =~= after);
        assert(all[0] == LineRead::Line(line));
        assert(stream_items(before) =~= seq![]);
        assert(seq![item].add(stream_items(after)) =~= seq![].push(item) + stream_items(after));
    } else {
        let tail = before.drop_first();
        assert forall|i: int| 0 <= i < tail.len() implies !(#[trigger] tail[i] is Closed) by {
            assert(tail[i] == before[i + 1]);
        }
        lemma_item_keeps_stream(tail, line, after);
        assert(all.drop_first() =~= tail + seq![LineRead::Line(line)] + after);
        assert(all[0] == before[0]);
        assert(!(before[0] is Closed));
        let rest = stream_items(tail).push(item) + stream_items(after);
        assert forall|x: Option<crate::protocol::ResponseModel>| seq![x] + rest =~= (seq![x]
            + stream_items(tail)).push(item) + stream_items(after) by {}
    }
}

} // verus!
