//! The JSON-RPC error type and the codes ACP defines over it.

use vstd::prelude::*;
use crate::json::{
    json_string, json_string_object, json_text, json_text_of, json_error_message, json_error_text,
    json_error_wraps_io, wraps_io,
    io_error_text,
    string_value, string_object,
};
use crate::text::{decimal, write_decimal, push_text, owned};

verus! {

/// Malformed JSON.
pub const PARSE_ERROR: i32 = -32700;
/// Not a valid request object.
pub const INVALID_REQUEST: i32 = -32600;
/// The method is not implemented by this side.
pub const METHOD_NOT_FOUND: i32 = -32601;
/// Params did not match the method's schema.
pub const INVALID_PARAMS: i32 = -32602;
/// The handler failed.
pub const INTERNAL_ERROR: i32 = -32603;
/// The request was cancelled before it completed.
pub const REQUEST_CANCELLED: i32 = -32800;
/// The agent needs `authenticate` before it can serve this.
pub const AUTH_REQUIRED: i32 = -32000;
/// The requested resource does not exist.
pub const RESOURCE_NOT_FOUND: i32 = -32002;

/// A JSON-RPC error, as it appears on the wire.
#[derive(Debug, Clone, PartialEq)]
pub struct Error {
    pub code: i32,
    pub message: String,
    pub data: Option<serde_json::Value>,
}

/// `e` has the given code and message, and no data.
pub open spec fn bare(e: Error, code: i32, message: Seq<char>) -> bool {
    &&& e.code == code
    &&& e.message@ == message
    &&& e.data is None
}

/// `e` has the given code and message, and carries `data`.
pub open spec fn with_data(e: Error, code: i32, message: Seq<char>, data: serde_json::Value) -> bool {
    &&& e.code == code
    &&& e.message@ == message
    &&& e.data == Some(data)
}

/// How an error reads to a person: `message (code)`, then `: data` when it
/// carries any.
pub open spec fn error_text(e: Error) -> Seq<char> {
    let head = e.message@ + " ("@ + decimal(e.code as int) + ")"@;
    match e.data {
        Some(d) => head + ": "@ + json_text_of(d),
        None => head,
    }
}

impl Error {
    pub fn new(code: i32, message: String) -> (e: Error)
        ensures
            bare(e, code, message@),
    {
        Error { code, message, data: None }
    }

    /// Attach diagnostic detail to an error.
    pub fn data(self, data: serde_json::Value) -> (e: Error)
        ensures
            with_data(e, self.code, self.message@, data),
    {
        Error { code: self.code, message: self.message, data: Some(data) }
    }

    pub fn parse_error() -> (e: Error)
        ensures
            bare(e, PARSE_ERROR, "Parse error"@),
    {
        Error::new(PARSE_ERROR, owned("Parse error"))
    }

    pub fn invalid_request() -> (e: Error)
        ensures
            bare(e, INVALID_REQUEST, "Invalid request"@),
    {
        Error::new(INVALID_REQUEST, owned("Invalid request"))
    }

    pub fn method_not_found() -> (e: Error)
        ensures
            bare(e, METHOD_NOT_FOUND, "Method not found"@),
    {
        Error::new(METHOD_NOT_FOUND, owned("Method not found"))
    }

    pub fn invalid_params() -> (e: Error)
        ensures
            bare(e, INVALID_PARAMS, "Invalid params"@),
    {
        Error::new(INVALID_PARAMS, owned("Invalid params"))
    }

    pub fn internal_error() -> (e: Error)
        ensures
            bare(e, INTERNAL_ERROR, "Internal error"@),
    {
        Error::new(INTERNAL_ERROR, owned("Internal error"))
    }

    pub fn request_cancelled() -> (e: Error)
        ensures
            bare(e, REQUEST_CANCELLED, "Request cancelled"@),
    {
        Error::new(REQUEST_CANCELLED, owned("Request cancelled"))
    }

    pub fn auth_required() -> (e: Error)
        ensures
            bare(e, AUTH_REQUIRED, "Authentication required"@),
    {
        Error::new(AUTH_REQUIRED, owned("Authentication required"))
    }

    /// Carries `{"uri": uri}` as its data.
    pub fn resource_not_found(uri: String) -> (e: Error)
        ensures
            with_data(
                e,
                RESOURCE_NOT_FOUND,
                "Resource not found"@,
                json_string_object(seq![("uri"@, uri@)]),
            ),
    {
        let mut entries: Vec<(String, String)> = Vec::new();
        entries.push((owned("uri"), uri));
        let data = string_object(entries);
        proof {
            assert(entries@.map_values(|e: (String, String)| (e.0@, e.1@)) =~= seq![("uri"@, uri@)]);
        }
        Error::new(RESOURCE_NOT_FOUND, owned("Resource not found")).data(data)
    }

    /// An error that carries a piece of text as its data.
    pub fn with_text(self, text: String) -> (e: Error)
        ensures
            with_data(e, self.code, self.message@, json_string(text@)),
    {
        let v = string_value(text);
        self.data(v)
    }

    pub fn is_auth_required(&self) -> (b: bool)
        ensures
            b == (self.code == AUTH_REQUIRED),
    {
        self.code == AUTH_REQUIRED
    }

    /// How the error reads to a person (what `Display` prints).
    pub fn describe(&self) -> (s: String)
        ensures
            s@ == error_text(*self),
    {
        let mut s = self.message.clone();
        push_text(&mut s, " (");
        write_decimal(self.code as i64, &mut s);
        push_text(&mut s, ")");
        match &self.data {
            Some(d) => {
                push_text(&mut s, ": ");
                let t = json_text(d);
                push_text(&mut s, t.as_str());
            },
            None => {},
        }
        s
    }

    /// Whether a JSON failure came from the I/O beneath the JSON rather than
    /// from the JSON itself. Only then is the text the error carries not
    /// fixed by the failure alone.
    pub fn json_failure_is_io(e: &serde_json::Error) -> (b: bool)
        ensures
            b == json_error_wraps_io(*e),
    {
        wraps_io(e)
    }

    /// A JSON document that did not parse: a parse error carrying the
    /// parser's message.
    pub fn from_json_error(e: &serde_json::Error) -> (r: Error)
        ensures
            r.code == PARSE_ERROR,
            r.message@ == "Parse error"@,
            !json_error_wraps_io(*e) ==> r.data == Some(json_string(json_error_message(*e))),
            exists|t: Seq<char>| r.data == Some(json_string(t)),
    {
        let t = json_error_text(e);
        Error::parse_error().with_text(t)
    }

    /// Params that do not fit the shape of the method they came with: the
    /// caller's error, carrying the decoder's message.
    pub fn from_bad_params(e: &serde_json::Error) -> (r: Error)
        ensures
            r.code == INVALID_PARAMS,
            r.message@ == "Invalid params"@,
            !json_error_wraps_io(*e) ==> r.data == Some(json_string(json_error_message(*e))),
            exists|t: Seq<char>| r.data == Some(json_string(t)),
    {
        let t = json_error_text(e);
        Error::invalid_params().with_text(t)
    }

    /// A handler's result that could not be encoded: this side's own bug, an
    /// internal error carrying the encoder's message.
    pub fn from_unencodable(e: &serde_json::Error) -> (r: Error)
        ensures
            r.code == INTERNAL_ERROR,
            r.message@ == "Internal error"@,
            !json_error_wraps_io(*e) ==> r.data == Some(json_string(json_error_message(*e))),
            exists|t: Seq<char>| r.data == Some(json_string(t)),
    {
        let t = json_error_text(e);
        Error::internal_error().with_text(t)
    }

    /// An I/O failure: an internal error carrying the system's message.
    pub fn from_io_error(e: &std::io::Error) -> (r: Error)
        ensures
            r.code == INTERNAL_ERROR,
            r.message@ == "Internal error"@,
            exists|t: Seq<char>| r.data == Some(json_string(t)),
    {
        let t = io_error_text(e);
        Error::internal_error().with_text(t)
    }
}

} // verus!
