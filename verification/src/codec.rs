//! The JSON-RPC 2.0 envelope, how a frame off the wire is told apart, and
//! the newline-delimited framing.

use vstd::prelude::*;
use crate::error::Error;
use crate::id::RequestId;
use crate::json::{json_string_object, string_object};
use crate::text::same_text;

verus! {

/// Which way a line crossed the wire.
#[derive(Debug, Clone, Copy, PartialEq, Eq, Structural)]
pub enum Direction {
    Incoming,
    Outgoing,
}

/// The literal `"2.0"`, checked on the way in and emitted on the way out.
#[derive(Debug, Clone, Copy, PartialEq, Eq, Structural)]
pub struct Version;

impl Version {
    /// The text this version is written as.
    pub fn text() -> (t: &'static str)
        ensures
            t@ == "2.0"@,
    {
        "2.0"
    }

    /// Read the `jsonrpc` member: only `"2.0"` is accepted.
    pub fn parse(raw: &str) -> (v: Option<Version>)
        ensures
            v is Some <==> raw@ == "2.0"@,
    {
        if same_text(raw, "2.0") {
            Some(Version)
        } else {
            None
        }
    }
}

/// One frame off the wire.
///
/// Requests, notifications and responses are distinguished by which fields
/// are present, not by a tag.
#[derive(Debug, Clone)]
pub struct Message {
    pub jsonrpc: Version,
    pub id: Option<RequestId>,
    pub method: Option<String>,
    pub params: Option<serde_json::Value>,
    pub result: Option<serde_json::Value>,
    pub error: Option<Error>,
}

impl Message {
    pub fn request(id: RequestId, method: String, params: serde_json::Value) -> (m: Message)
        ensures
            m.id == Some(id),
            m.method == Some(method),
            m.params == Some(params),
            m.result is None,
            m.error is None,
    {
        Message {
            jsonrpc: Version,
            id: Some(id),
            method: Some(method),
            params: Some(params),
            result: None,
            error: None,
        }
    }

    pub fn notification(method: String, params: serde_json::Value) -> (m: Message)
        ensures
            m.id is None,
            m.method == Some(method),
            m.params == Some(params),
            m.result is None,
            m.error is None,
    {
        Message { jsonrpc: Version, id: None, method: Some(method), params: Some(params), result: None, error: None }
    }

    pub fn response(id: RequestId, result: serde_json::Value) -> (m: Message)
        ensures
            m.id == Some(id),
            m.method is None,
            m.params is None,
            m.result == Some(result),
            m.error is None,
    {
        Message { jsonrpc: Version, id: Some(id), method: None, params: None, result: Some(result), error: None }
    }

    pub fn error(id: Option<RequestId>, error: Error) -> (m: Message)
        ensures
            m.id == id,
            m.method is None,
            m.params is None,
            m.result is None,
            m.error == Some(error),
    {
        Message { jsonrpc: Version, id, method: None, params: None, result: None, error: Some(error) }
    }
}

/// What a frame is, by which of its fields are present.
#[derive(Debug)]
pub enum Frame {
    /// Has an id and a method: the other side wants an answer.
    Request { id: RequestId, method: String, params: Option<serde_json::Value> },
    /// Has a method and no id.
    Notification { method: String, params: Option<serde_json::Value> },
    /// Has an id and no method: the answer to one of our calls.
    Response { id: RequestId, outcome: Result<serde_json::Value, Error> },
    /// Has neither.
    Invalid,
}

/// The empty JSON object `{}`.
pub open spec fn empty_object() -> serde_json::Value {
    json_string_object(Seq::empty())
}

/// What a frame is. An error in a response wins over its result; a success
/// that omits `result` carries `{}`, which every empty ACP response reads
/// from.
pub open spec fn frame_of(m: Message) -> Frame {
    match (m.id, m.method) {
        (Some(id), Some(method)) => Frame::Request { id, method, params: m.params },
        (None, Some(method)) => Frame::Notification { method, params: m.params },
        (Some(id), None) => Frame::Response {
            id,
            outcome: match m.error {
                Some(e) => Err(e),
                None => match m.result {
                    Some(r) => Ok(r),
                    None => Ok(empty_object()),
                },
            },
        },
        (None, None) => Frame::Invalid,
    }
}

/// The JSON object `{}` (built as an object with no members).
pub fn empty_object_value() -> (v: serde_json::Value)
    ensures
        v == empty_object(),
{
    let entries: Vec<(String, String)> = Vec::new();
    let v = string_object(entries);
    proof {
        assert(entries@.map_values(|e: (String, String)| (e.0@, e.1@)) =~= Seq::empty());
    }
    v
}

/// Tell one frame apart.
pub fn classify(message: Message) -> (f: Frame)
    ensures
        f == frame_of(message),
{
    let Message { id, method, params, result, error, .. } = message;
    match (id, method) {
        (Some(id), Some(method)) => Frame::Request { id, method, params },
        (None, Some(method)) => Frame::Notification { method, params },
        (Some(id), None) => {
            let outcome = match error {
                Some(e) => Err(e),
                None => match result {
                    Some(r) => Ok(r),
                    None => Ok(empty_object_value()),
                },
            };
            Frame::Response { id, outcome }
        },
        (None, None) => Frame::Invalid,
    }
}

/// A JSON-RPC line is written with a newline after it.
pub fn frame_line(mut line: String) -> (framed: String)
    ensures
        framed@ == line@.push('\n'),
{
    crate::text::push_char(&mut line, '\n');
    line
}

/// The characters `char::is_whitespace` accepts: Unicode `White_Space`.
pub open spec fn is_space(c: char) -> bool {
    let u = c as u32;
    ||| 0x09 <= u <= 0x0d
    ||| u == 0x20
    ||| u == 0x85
    ||| u == 0xa0
    ||| u == 0x1680
    ||| 0x2000 <= u <= 0x200a
    ||| u == 0x2028
    ||| u == 0x2029
    ||| u == 0x202f
    ||| u == 0x205f
    ||| u == 0x3000
}

/// A line that is nothing but whitespace. Agents launched through a shell
/// wrapper sometimes emit blank lines; they are skipped, not parsed.
pub open spec fn is_blank(line: Seq<char>) -> bool {
    forall|i: int| 0 <= i < line.len() ==> is_space(#[trigger] line[i])
}

fn space(c: char) -> (b: bool)
    ensures
        b == is_space(c),
{
    let u = c as u32;
    (0x09 <= u && u <= 0x0d) || u == 0x20 || u == 0x85 || u == 0xa0 || u == 0x1680
        || (0x2000 <= u && u <= 0x200a) || u == 0x2028 || u == 0x2029 || u == 0x202f
        || u == 0x205f || u == 0x3000
}

/// Whether a line read off the wire carries nothing (`line.trim().is_empty()`).
pub fn blank_line(line: &str) -> (b: bool)
    ensures
        b == is_blank(line@),
{
    let n = line.unicode_len();
    let mut i: usize = 0;
    while i < n
        invariant
            n == line@.len(),
            i <= n,
            forall|j: int| 0 <= j < i ==> is_space(#[trigger] line@[j]),
        decreases n - i,
    {
        if !space(line.get_char(i)) {
            return false;
        }
        i += 1;
    }
    true
}

/// A request arrives as the request it was sent as: its id, its method, its
/// params.
pub proof fn lemma_requests_arrive_as_sent(
    m: Message,
    id: RequestId,
    method: String,
    params: serde_json::Value,
)
    requires
        m.id == Some(id),
        m.method == Some(method),
        m.params == Some(params),
    ensures
        frame_of(m) == (Frame::Request { id, method, params: Some(params) }),
{
}

/// A notification arrives as the notification it was sent as.
pub proof fn lemma_notifications_arrive_as_sent(m: Message, method: String, params: serde_json::Value)
    requires
        m.id is None,
        m.method == Some(method),
        m.params == Some(params),
    ensures
        frame_of(m) == (Frame::Notification { method, params: Some(params) }),
{
}

/// A response resolves the call it names with its result; an error response
/// resolves it with its error, whatever else it carries.
pub proof fn lemma_answers_resolve_their_call(m: Message, id: RequestId)
    requires
        m.id == Some(id),
        m.method is None,
    ensures
        m.error matches Some(e) ==> frame_of(m) == (Frame::Response { id, outcome: Err(e) }),
        (m.error is None && m.result is Some) ==> frame_of(m) == (Frame::Response {
            id,
            outcome: Ok(m.result->0),
        }),
{
}

/// An error reported without an id (a malformed frame) is never taken for
/// the answer to a call.
pub proof fn lemma_reports_without_id_answer_nothing(m: Message)
    requires
        m.id is None,
        m.method is None,
    ensures
        frame_of(m) == Frame::Invalid,
{
}

} // verus!
