//! Next edit suggestions: the agent predicts the user's next edit as they
//! type. NES sessions are their own thing — they do not share ids or history
//! with the chat sessions in [`session`](crate::session).

use vstd::prelude::*;
use crate::id::{NesSuggestionId, SessionId};
use crate::initialize::Capability;
use crate::json::Meta;

verus! {

/// How the client counts columns in a [`Position`].
#[derive(Debug, Clone, Copy, PartialEq, Eq)]
pub enum PositionEncodingKind {
    Utf16,
    Utf32,
    Utf8,
}

/// Zero-based, with `character` counted in the negotiated
/// [`PositionEncodingKind`].
#[derive(Debug, Clone, Copy, PartialEq, Eq)]
pub struct Position {
    pub line: u32,
    pub character: u32,
}

#[derive(Debug, Clone, Copy, PartialEq, Eq)]
pub struct Range {
    pub start: Position,
    pub end: Position,
}

/// What the agent wants: which document events to receive, and which kinds of
/// context to be given with each request.
#[derive(Debug, Clone, Copy, Default, PartialEq, Eq)]
pub struct NesCapabilities {
    pub events: Option<NesEventCapabilities>,
    pub context: Option<NesContextCapabilities>,
}

#[derive(Debug, Clone, Copy, Default, PartialEq, Eq)]
pub struct NesEventCapabilities {
    pub document: Option<NesDocumentEventCapabilities>,
}

#[derive(Debug, Clone, Copy, Default, PartialEq, Eq)]
pub struct NesDocumentEventCapabilities {
    pub did_open: Option<Capability>,
    pub did_change: Option<NesDidChangeCapabilities>,
    pub did_close: Option<Capability>,
    pub did_save: Option<Capability>,
    pub did_focus: Option<Capability>,
}

#[derive(Debug, Clone, Copy, PartialEq, Eq)]
pub struct NesDidChangeCapabilities {
    pub sync_kind: TextDocumentSyncKind,
}

/// Whether [`DidChangeDocumentNotification`] carries the whole document or
/// just the ranges that changed.
#[derive(Debug, Clone, Copy, PartialEq, Eq)]
pub enum TextDocumentSyncKind {
    Full,
    Incremental,
}

#[derive(Debug, Clone, Copy, Default, PartialEq, Eq)]
pub struct NesContextCapabilities {
    pub recent_files: Option<NesCountCapability>,
    pub related_snippets: Option<Capability>,
    pub edit_history: Option<NesCountCapability>,
    pub user_actions: Option<NesCountCapability>,
    pub open_files: Option<Capability>,
    pub diagnostics: Option<Capability>,
}

/// A context kind the agent wants, capped at however many entries it can use.
#[derive(Debug, Clone, Copy, Default, PartialEq, Eq)]
pub struct NesCountCapability {
    pub max_count: Option<u32>,
}

/// Which suggestion kinds the client can actually apply. An agent must not
/// send a kind the client did not advertise.
#[derive(Debug, Clone, Copy, Default, PartialEq, Eq)]
pub struct ClientNesCapabilities {
    pub jump: Option<Capability>,
    pub rename: Option<Capability>,
    pub search_and_replace: Option<Capability>,
}

#[derive(Debug, Clone, Default, PartialEq, Eq)]
pub struct StartNesRequest {
    pub workspace_uri: Option<String>,
    pub workspace_folders: Option<Vec<WorkspaceFolder>>,
    pub repository: Option<NesRepository>,
}

#[derive(Debug, Clone, PartialEq, Eq)]
pub struct WorkspaceFolder {
    pub uri: String,
    pub name: String,
}

#[derive(Debug, Clone, PartialEq, Eq)]
pub struct NesRepository {
    pub name: String,
    pub owner: String,
    pub remote_url: String,
}

#[derive(Debug, Clone, PartialEq, Eq)]
pub struct StartNesResponse {
    pub session_id: SessionId,
}

#[derive(Debug, Clone, PartialEq, Eq)]
pub struct CloseNesRequest {
    pub session_id: SessionId,
}

#[derive(Debug, Clone, Copy, Default, PartialEq, Eq)]
pub struct CloseNesResponse {}

#[derive(Debug, Clone, PartialEq, Eq)]
pub struct DidOpenDocumentNotification {
    pub session_id: SessionId,
    pub uri: String,
    pub language_id: String,
    pub version: i64,
    pub text: String,
}

#[derive(Debug, Clone, PartialEq, Eq)]
pub struct DidChangeDocumentNotification {
    pub session_id: SessionId,
    pub uri: String,
    pub version: i64,
    pub content_changes: Vec<TextDocumentContentChangeEvent>,
}

/// A `range` of `None` means `text` replaces the whole document — that is the
/// [`TextDocumentSyncKind::Full`] shape.
#[derive(Debug, Clone, PartialEq, Eq)]
pub struct TextDocumentContentChangeEvent {
    pub range: Option<Range>,
    pub text: String,
}

#[derive(Debug, Clone, PartialEq, Eq)]
pub struct DidCloseDocumentNotification {
    pub session_id: SessionId,
    pub uri: String,
}

#[derive(Debug, Clone, PartialEq, Eq)]
pub struct DidSaveDocumentNotification {
    pub session_id: SessionId,
    pub uri: String,
}

#[derive(Debug, Clone, PartialEq, Eq)]
pub struct DidFocusDocumentNotification {
    pub session_id: SessionId,
    pub uri: String,
    pub version: i64,
    pub position: Position,
    pub visible_range: Range,
}

/// Why the client is asking now.
#[derive(Debug, Clone, Copy, PartialEq, Eq)]
pub enum NesTriggerKind {
    Automatic,
    Diagnostic,
    Manual,
}

#[derive(Debug, Clone, PartialEq, Eq)]
pub struct SuggestNesRequest {
    pub session_id: SessionId,
    pub uri: String,
    pub version: i64,
    pub position: Position,
    pub selection: Option<Range>,
    pub trigger_kind: NesTriggerKind,
    pub context: Option<NesSuggestContext>,
}

/// Only the kinds the agent asked for in [`NesContextCapabilities`].
#[derive(Debug, Clone, Default, PartialEq, Eq)]
pub struct NesSuggestContext {
    pub recent_files: Option<Vec<NesRecentFile>>,
    pub related_snippets: Option<Vec<NesRelatedSnippet>>,
    pub edit_history: Option<Vec<NesEditHistoryEntry>>,
    pub user_actions: Option<Vec<NesUserAction>>,
    pub open_files: Option<Vec<NesOpenFile>>,
    pub diagnostics: Option<Vec<NesDiagnostic>>,
}

#[derive(Debug, Clone, PartialEq, Eq)]
pub struct NesRecentFile {
    pub uri: String,
    pub language_id: String,
    pub text: String,
}

#[derive(Debug, Clone, PartialEq, Eq)]
pub struct NesRelatedSnippet {
    pub uri: String,
    pub excerpts: Vec<NesExcerpt>,
}

#[derive(Debug, Clone, PartialEq, Eq)]
pub struct NesExcerpt {
    pub start_line: u32,
    pub end_line: u32,
    pub text: String,
}

#[derive(Debug, Clone, PartialEq, Eq)]
pub struct NesEditHistoryEntry {
    pub uri: String,
    pub diff: String,
}

#[derive(Debug, Clone, PartialEq, Eq)]
pub struct NesUserAction {
    pub action: String,
    pub uri: String,
    pub position: Position,
    pub timestamp_ms: u64,
}

#[derive(Debug, Clone, PartialEq, Eq)]
pub struct NesOpenFile {
    pub uri: String,
    pub language_id: String,
    pub visible_range: Option<Range>,
    pub last_focused_ms: Option<u64>,
}

#[derive(Debug, Clone, PartialEq, Eq)]
pub struct NesDiagnostic {
    pub uri: String,
    pub range: Range,
    pub severity: NesDiagnosticSeverity,
    pub message: String,
}

#[derive(Debug, Clone, Copy, PartialEq, Eq)]
pub enum NesDiagnosticSeverity {
    Error,
    Warning,
    Information,
    Hint,
}

#[derive(Debug, Clone, Default, PartialEq, Eq)]
pub struct SuggestNesResponse {
    pub suggestions: Vec<NesSuggestion>,
}

/// What the agent thinks should happen next. The client applies at most one,
/// then says which with [`AcceptNesNotification`].
#[derive(Debug, Clone, PartialEq, Eq)]
pub enum NesSuggestion {
    Edit(NesEditSuggestion),
    Jump(NesJumpSuggestion),
    Rename(NesRenameSuggestion),
    SearchAndReplace(NesSearchAndReplaceSuggestion),
}

#[derive(Debug, Clone, PartialEq, Eq)]
pub struct NesEditSuggestion {
    pub id: NesSuggestionId,
    pub uri: String,
    pub edits: Vec<NesTextEdit>,
    pub cursor_position: Option<Position>,
    pub meta: Option<Meta>,
}

#[derive(Debug, Clone, PartialEq, Eq)]
pub struct NesTextEdit {
    pub range: Range,
    pub new_text: String,
}

/// Move the cursor somewhere else — the next edit belongs in another place,
/// not in different text here.
#[derive(Debug, Clone, PartialEq, Eq)]
pub struct NesJumpSuggestion {
    pub id: NesSuggestionId,
    pub uri: String,
    pub position: Position,
    pub meta: Option<Meta>,
}

#[derive(Debug, Clone, PartialEq, Eq)]
pub struct NesRenameSuggestion {
    pub id: NesSuggestionId,
    pub uri: String,
    pub position: Position,
    pub new_name: String,
    pub meta: Option<Meta>,
}

#[derive(Debug, Clone, PartialEq, Eq)]
pub struct NesSearchAndReplaceSuggestion {
    pub id: NesSuggestionId,
    pub uri: String,
    pub search: String,
    pub replace: String,
    pub is_regex: Option<bool>,
    pub meta: Option<Meta>,
}

#[derive(Debug, Clone, PartialEq, Eq)]
pub struct AcceptNesNotification {
    pub session_id: SessionId,
    pub id: NesSuggestionId,
}

#[derive(Debug, Clone, PartialEq, Eq)]
pub struct RejectNesNotification {
    pub session_id: SessionId,
    pub id: NesSuggestionId,
    pub reason: Option<NesRejectReason>,
}

/// `Ignored` means the user simply kept typing; `Replaced` means a newer
/// suggestion superseded this one.
#[derive(Debug, Clone, Copy, PartialEq, Eq)]
pub enum NesRejectReason {
    Rejected,
    Ignored,
    Replaced,
    Cancelled,
}

} // verus!
