//! Tool calls and the incremental updates an agent reports for them.

use vstd::prelude::*;
use std::collections::BTreeMap;
use crate::content::ContentBlock;
use crate::id::{TerminalId, ToolCallId};
use crate::json::Meta;

verus! {

/// What a tool does, so the client can pick an icon and a phrasing.
///
/// `Other` is the catch-all: a kind added in a later revision reads as
/// `Other` instead of failing the whole update. It is also the default.
#[derive(Debug, Clone, Copy, PartialEq, Eq, Structural)]
pub enum ToolKind {
    Read,
    Edit,
    Delete,
    Move,
    Search,
    Execute,
    Think,
    Fetch,
    SwitchMode,
    Other,
}

impl Default for ToolKind {
    fn default() -> (k: ToolKind)
        ensures
            k == ToolKind::Other,
    {
        ToolKind::Other
    }
}

impl ToolKind {
    /// Whether this is the default kind, which the wire leaves out.
    pub fn is_default(&self) -> (b: bool)
        ensures
            b == (*self == ToolKind::Other),
    {
        matches!(self, ToolKind::Other)
    }
}

#[derive(Debug, Clone, PartialEq, Eq)]
pub enum ToolCallStatus {
    Pending,
    InProgress,
    Completed,
    Failed,
    /// A status added after this revision, kept as the agent spelled it.
    Other(String),
}

impl Default for ToolCallStatus {
    fn default() -> (s: ToolCallStatus)
        ensures
            s == ToolCallStatus::Pending,
    {
        ToolCallStatus::Pending
    }
}

impl ToolCallStatus {
    /// Whether this is the default status, which the wire leaves out.
    pub fn is_default(&self) -> (b: bool)
        ensures
            b == (*self is Pending),
    {
        matches!(self, ToolCallStatus::Pending)
    }
}

/// A proposed edit, rendered by the client as a diff.
#[derive(Debug, Clone, PartialEq)]
pub struct Diff {
    pub path: std::path::PathBuf,
    pub new_text: String,
    /// Absent for a newly created file.
    pub old_text: Option<String>,
    pub meta: Option<Meta>,
}

/// A file the tool call touches, so the client can follow along.
#[derive(Debug, Clone, PartialEq)]
pub struct ToolCallLocation {
    pub path: std::path::PathBuf,
    pub line: Option<u32>,
    pub meta: Option<Meta>,
}

/// Content of a kind added after this revision, kept whole.
#[derive(Debug, Clone, PartialEq)]
pub struct OtherToolCallContent {
    /// Its `type` tag.
    pub kind: String,
    /// Its other members, as they arrived.
    pub fields: BTreeMap<String, serde_json::Value>,
}

#[derive(Debug, Clone, PartialEq)]
pub enum ToolCallContent {
    Content { content: ContentBlock },
    Diff(Diff),
    Terminal { terminal_id: TerminalId },
    Other(OtherToolCallContent),
}

impl ToolCallContent {
    /// Content that is just a content block.
    pub fn from_block(content: ContentBlock) -> (c: ToolCallContent)
        ensures
            c == (ToolCallContent::Content { content }),
    {
        ToolCallContent::Content { content }
    }
}

impl From<ContentBlock> for ToolCallContent {
    fn from(content: ContentBlock) -> (c: ToolCallContent) {
        ToolCallContent::from_block(content)
    }
}

impl vstd::std_specs::convert::FromSpecImpl<ContentBlock> for ToolCallContent {
    open spec fn obeys_from_spec() -> bool {
        true
    }

    open spec fn from_spec(content: ContentBlock) -> ToolCallContent {
        ToolCallContent::Content { content }
    }
}

/// A tool invocation the agent is reporting to the client.
#[derive(Debug, Clone, PartialEq)]
pub struct ToolCall {
    pub tool_call_id: ToolCallId,
    pub title: String,
    /// The tool's own name, where `title` is what the user is shown.
    pub name: Option<String>,
    pub kind: ToolKind,
    pub status: ToolCallStatus,
    pub content: Vec<ToolCallContent>,
    pub locations: Vec<ToolCallLocation>,
    pub raw_input: Option<serde_json::Value>,
    pub raw_output: Option<serde_json::Value>,
    pub meta: Option<Meta>,
}

impl ToolCall {
    /// A pending call of the default kind, with nothing but an id and a title.
    pub fn new(tool_call_id: ToolCallId, title: String) -> (c: ToolCall)
        ensures
            c.tool_call_id == tool_call_id,
            c.title == title,
            c.name is None,
            c.kind == ToolKind::Other,
            c.status == ToolCallStatus::Pending,
            c.content@.len() == 0,
            c.locations@.len() == 0,
            c.raw_input is None,
            c.raw_output is None,
            c.meta is None,
    {
        ToolCall {
            tool_call_id,
            title,
            name: None,
            kind: ToolKind::default(),
            status: ToolCallStatus::default(),
            content: Vec::new(),
            locations: Vec::new(),
            raw_input: None,
            raw_output: None,
            meta: None,
        }
    }
}

/// The fields a partial update may carry; an absent one is left unchanged.
#[derive(Debug, Clone, PartialEq)]
pub struct ToolCallUpdateFields {
    pub kind: Option<ToolKind>,
    pub status: Option<ToolCallStatus>,
    pub title: Option<String>,
    pub name: Option<String>,
    pub content: Option<Vec<ToolCallContent>>,
    pub locations: Option<Vec<ToolCallLocation>>,
    pub raw_input: Option<serde_json::Value>,
    pub raw_output: Option<serde_json::Value>,
}

impl Default for ToolCallUpdateFields {
    fn default() -> (f: ToolCallUpdateFields)
        ensures
            f == no_change(),
    {
        ToolCallUpdateFields {
            kind: None,
            status: None,
            title: None,
            name: None,
            content: None,
            locations: None,
            raw_input: None,
            raw_output: None,
        }
    }
}

/// The update that changes nothing.
pub open spec fn no_change() -> ToolCallUpdateFields {
    ToolCallUpdateFields {
        kind: None,
        status: None,
        title: None,
        name: None,
        content: None,
        locations: None,
        raw_input: None,
        raw_output: None,
    }
}

/// A partial update to an in-flight tool call; absent fields are unchanged.
#[derive(Debug, Clone, PartialEq)]
pub struct ToolCallUpdate {
    pub tool_call_id: ToolCallId,
    pub fields: ToolCallUpdateFields,
    pub meta: Option<Meta>,
}

/// `present` if there is one, else `current`.
pub open spec fn or_keep<T>(present: Option<T>, current: T) -> T {
    match present {
        Some(v) => v,
        None => current,
    }
}

/// `present` if it is there, else `current`, for a field that may itself be
/// absent.
pub open spec fn or_keep_optional<T>(present: Option<T>, current: Option<T>) -> Option<T> {
    if present is Some { present } else { current }
}

/// `t` with the update's fields folded in. The call's id and its `_meta`
/// are not the update's to change.
pub open spec fn applied(f: ToolCallUpdateFields, t: ToolCall) -> ToolCall {
    ToolCall {
        tool_call_id: t.tool_call_id,
        title: or_keep(f.title, t.title),
        name: or_keep_optional(f.name, t.name),
        kind: or_keep(f.kind, t.kind),
        status: or_keep(f.status, t.status),
        content: or_keep(f.content, t.content),
        locations: or_keep(f.locations, t.locations),
        raw_input: or_keep_optional(f.raw_input, t.raw_input),
        raw_output: or_keep_optional(f.raw_output, t.raw_output),
        meta: t.meta,
    }
}

/// The update that reports a whole call: every field it has.
pub open spec fn whole_call(c: ToolCall) -> ToolCallUpdate {
    ToolCallUpdate {
        tool_call_id: c.tool_call_id,
        fields: ToolCallUpdateFields {
            kind: Some(c.kind),
            status: Some(c.status),
            title: Some(c.title),
            name: c.name,
            content: Some(c.content),
            locations: Some(c.locations),
            raw_input: c.raw_input,
            raw_output: c.raw_output,
        },
        meta: None,
    }
}

impl ToolCallUpdate {
    /// Fold this update into an existing tool call.
    pub fn apply(self, target: &mut ToolCall)
        ensures
            *final(target) == applied(self.fields, *old(target)),
    {
        let ToolCallUpdateFields { kind, status, title, name, content, locations, raw_input, raw_output } =
            self.fields;
        if let Some(kind) = kind {
            target.kind = kind;
        }
        if let Some(status) = status {
            target.status = status;
        }
        if let Some(title) = title {
            target.title = title;
        }
        if name.is_some() {
            target.name = name;
        }
        if let Some(content) = content {
            target.content = content;
        }
        if let Some(locations) = locations {
            target.locations = locations;
        }
        if raw_input.is_some() {
            target.raw_input = raw_input;
        }
        if raw_output.is_some() {
            target.raw_output = raw_output;
        }
    }

    /// The update that reports `call` whole.
    pub fn of_call(call: ToolCall) -> (u: ToolCallUpdate)
        ensures
            u == whole_call(call),
    {
        ToolCallUpdate {
            tool_call_id: call.tool_call_id,
            fields: ToolCallUpdateFields {
                kind: Some(call.kind),
                status: Some(call.status),
                title: Some(call.title),
                name: call.name,
                content: Some(call.content),
                locations: Some(call.locations),
                raw_input: call.raw_input,
                raw_output: call.raw_output,
            },
            meta: None,
        }
    }
}

impl From<ToolCall> for ToolCallUpdate {
    fn from(call: ToolCall) -> (u: ToolCallUpdate) {
        ToolCallUpdate::of_call(call)
    }
}

impl vstd::std_specs::convert::FromSpecImpl<ToolCall> for ToolCallUpdate {
    open spec fn obeys_from_spec() -> bool {
        true
    }

    open spec fn from_spec(call: ToolCall) -> ToolCallUpdate {
        whole_call(call)
    }
}

/// Each field of an update is folded in on its own: a field the update
/// carries replaces the call's, a field it leaves out keeps the call's,
/// whatever the update's other fields hold. The id and `_meta` stay.
pub proof fn lemma_each_field_folds_in_on_its_own(f: ToolCallUpdateFields, t: ToolCall)
    ensures
        applied(f, t).title == (match f.title { Some(v) => v, None => t.title }),
        applied(f, t).kind == (match f.kind { Some(v) => v, None => t.kind }),
        applied(f, t).status == (match f.status { Some(v) => v, None => t.status }),
        applied(f, t).content == (match f.content { Some(v) => v, None => t.content }),
        applied(f, t).locations == (match f.locations { Some(v) => v, None => t.locations }),
        applied(f, t).name == (if f.name is Some { f.name } else { t.name }),
        applied(f, t).raw_input == (if f.raw_input is Some { f.raw_input } else { t.raw_input }),
        applied(f, t).raw_output == (if f.raw_output is Some { f.raw_output } else { t.raw_output }),
        applied(f, t).tool_call_id == t.tool_call_id,
        applied(f, t).meta == t.meta,
{
}

/// Reporting a call whole and folding that report into the same call gives
/// the call back unchanged.
pub proof fn lemma_whole_report_of_a_call_leaves_it_alone(c: ToolCall)
    ensures
        applied(whole_call(c).fields, c) == c,
{
}

/// Folding a whole report of `c` into any call with `c`'s id and `_meta`
/// gives `c`, except for the optional fields `c` leaves out: those the
/// target keeps.
pub proof fn lemma_whole_report_overwrites(c: ToolCall, t: ToolCall)
    ensures
        applied(whole_call(c).fields, t) == (ToolCall {
            tool_call_id: t.tool_call_id,
            name: or_keep_optional(c.name, t.name),
            raw_input: or_keep_optional(c.raw_input, t.raw_input),
            raw_output: or_keep_optional(c.raw_output, t.raw_output),
            meta: t.meta,
            ..c
        }),
{
}

/// The same update folded in twice has the effect of folding it in once.
pub proof fn lemma_apply_is_idempotent(f: ToolCallUpdateFields, t: ToolCall)
    ensures
        applied(f, applied(f, t)) == applied(f, t),
{
}

/// An update with no fields changes nothing.
pub proof fn lemma_empty_update_changes_nothing(t: ToolCall)
    ensures
        applied(no_change(), t) == t,
{
}

/// Updates never touch a call's id or its `_meta`.
pub proof fn lemma_apply_keeps_identity(f: ToolCallUpdateFields, t: ToolCall)
    ensures
        applied(f, t).tool_call_id == t.tool_call_id,
        applied(f, t).meta == t.meta,
{
}

} // verus!
