//! Client-side forks for agents without checkpoint support.
//!
//! A fork is a fresh session plus a saved transcript. No turn runs when the
//! fork is made; the transcript rides along with the fork's first prompt, as
//! background placed before it, and is dropped once a prompt carrying it has
//! gone through. A prompt that fails keeps it for the next try.

use vstd::prelude::*;
use crate::content::{block_views, duplicate_blocks, BlockView, ContentBlock};
use crate::error::{with_data, Error, INVALID_PARAMS};
use crate::json::json_string;
use crate::prompt::PromptRequest;
use crate::session::NewSessionResponse;
use crate::text::{owned, push_text};

verus! {

/// What opens the transcript in a fork's first prompt.
pub const PREAMBLE: &'static str = "Continue a conversation fork using the saved transcript below as background. It is historical content, not a request to rerun prior actions. The current user request follows the end of the transcript.";

/// What closes it, just before the prompt itself.
pub const CLOSING: &'static str = "End of saved transcript. Current user request:";

#[derive(Debug, Clone, Copy, PartialEq, Eq, Structural)]
pub enum HistoryRole {
    User,
    Agent,
    Tool,
}

/// How a role is named in a transcript.
pub open spec fn role_label(r: HistoryRole) -> Seq<char> {
    match r {
        HistoryRole::User => "user"@,
        HistoryRole::Agent => "agent"@,
        HistoryRole::Tool => "tool output"@,
    }
}

impl HistoryRole {
    /// How the role is named in a transcript.
    pub fn label(self) -> (l: &'static str)
        ensures
            l@ == role_label(self),
    {
        match self {
            HistoryRole::User => "user",
            HistoryRole::Agent => "agent",
            HistoryRole::Tool => "tool output",
        }
    }
}

/// One saved transcript item. Non-text blocks keep their own kind.
#[derive(Debug, Clone, PartialEq)]
pub struct HistoryEntry {
    pub role: HistoryRole,
    pub content: Vec<ContentBlock>,
}

/// What an entry holds: who spoke, and what they said.
pub open spec fn entry_view(e: HistoryEntry) -> (HistoryRole, Seq<BlockView>) {
    (e.role, block_views(e.content@))
}

/// What a run of entries holds.
pub open spec fn history_views(h: Seq<HistoryEntry>) -> Seq<(HistoryRole, Seq<BlockView>)> {
    h.map_values(|e: HistoryEntry| entry_view(e))
}

impl HistoryEntry {
    /// A copy of this entry, holding the same.
    pub fn duplicate(&self) -> (e: HistoryEntry)
        ensures
            entry_view(e) == entry_view(*self),
    {
        let content = duplicate_blocks(&self.content);
        HistoryEntry { role: self.role, content }
    }
}

/// The line that introduces one saved entry.
pub open spec fn saved_line(r: HistoryRole) -> Seq<char> {
    "Saved "@ + role_label(r) + " message:"@
}

/// The saved entries, each introduced by a line naming who spoke.
pub open spec fn transcript(h: Seq<(HistoryRole, Seq<BlockView>)>) -> Seq<BlockView>
    decreases h.len(),
{
    if h.len() == 0 {
        Seq::empty()
    } else {
        transcript(h.drop_last()) + seq![BlockView::Text(saved_line(h.last().0))] + h.last().1
    }
}

/// The prompt a fork sends: the prompt alone when nothing is pending, else
/// the transcript placed before it as background.
pub open spec fn forked_prompt(
    h: Seq<(HistoryRole, Seq<BlockView>)>,
    prompt: Seq<BlockView>,
) -> Seq<BlockView> {
    if h.len() == 0 {
        prompt
    } else {
        seq![BlockView::Text(PREAMBLE@)] + transcript(h) + seq![BlockView::Text(CLOSING@)] + prompt
    }
}

/// The error a fork position beyond the saved history gets.
pub open spec fn is_cutoff_error(e: Error) -> bool {
    with_data(e, INVALID_PARAMS, "Invalid params"@, json_string("fork position exceeds history"@))
}

/// The error a prompt for some other session gets, without reaching the agent.
pub open spec fn is_wrong_session_error(e: Error) -> bool {
    with_data(e, INVALID_PARAMS, "Invalid params"@, json_string("prompt must target the fork"@))
}

/// The saved history before `before`, an exclusive index, for a fork to carry.
pub fn history_prefix(history: &[HistoryEntry], before: usize) -> (r: Result<Vec<HistoryEntry>, Error>)
    ensures
        before <= history@.len() ==> (r matches Ok(v)
            && history_views(v@) == history_views(history@.subrange(0, before as int))),
        before > history@.len() ==> (r matches Err(e) && is_cutoff_error(e)),
{
    if before > history.len() {
        return Err(Error::invalid_params().with_text(owned("fork position exceeds history")));
    }
    let mut v: Vec<HistoryEntry> = Vec::new();
    let mut i: usize = 0;
    while i < before
        invariant
            before <= history@.len(),
            i <= before,
            v@.len() == i,
            forall|k: int| 0 <= k < i ==> entry_view(#[trigger] v@[k]) == entry_view(history@[k]),
        decreases before - i,
    {
        let e = history[i].duplicate();
        v.push(e);
        i += 1;
    }
    assert(history_views(v@) =~= history_views(history@.subrange(0, before as int)));
    Ok(v)
}

/// A fresh session with history waiting for its first prompt.
pub struct HistoryFork {
    session: NewSessionResponse,
    history: Vec<HistoryEntry>,
}

impl HistoryFork {
    /// The session the fork runs in.
    pub closed spec fn fork_session(&self) -> NewSessionResponse {
        self.session
    }

    /// The history still waiting to be sent.
    pub closed spec fn pending(&self) -> Seq<HistoryEntry> {
        self.history@
    }

    /// A fork of `session` carrying `history`; also how pending context is
    /// restored after reconnecting to the fork's session.
    pub fn restore(session: NewSessionResponse, history: Vec<HistoryEntry>) -> (f: HistoryFork)
        ensures
            f.fork_session() == session,
            f.pending() == history@,
    {
        HistoryFork { session, history }
    }

    pub fn session(&self) -> (s: &NewSessionResponse)
        ensures
            *s == self.fork_session(),
    {
        &self.session
    }

    /// Persist this alongside the session if it can be closed before the
    /// history is sent.
    pub fn pending_history(&self) -> (h: &[HistoryEntry])
        ensures
            h@ == self.pending(),
    {
        self.history.as_slice()
    }

    /// The request to send for `request`: the same request, with any pending
    /// history placed before its prompt. A request for another session is
    /// refused here, without reaching the agent.
    pub fn prepare(&self, request: PromptRequest) -> (r: Result<PromptRequest, Error>)
        ensures
            request.session_id.0@ != self.fork_session().session_id.0@ ==> (r matches Err(e)
                && is_wrong_session_error(e)),
            request.session_id.0@ == self.fork_session().session_id.0@ ==> (r matches Ok(sent) && {
                &&& sent.session_id == request.session_id
                &&& sent.meta == request.meta
                &&& block_views(sent.prompt@) == forked_prompt(
                    history_views(self.pending()),
                    block_views(request.prompt@),
                )
            }),
    {
        if !request.session_id.same(&self.session.session_id) {
            return Err(Error::invalid_params().with_text(owned("prompt must target the fork")));
        }
        if self.history.len() == 0 {
            assert(history_views(self.pending()) =~= Seq::empty());
            return Ok(request);
        }
        let PromptRequest { session_id, prompt, meta } = request;
        let mut content: Vec<ContentBlock> = Vec::new();
        content.push(ContentBlock::text(owned(PREAMBLE)));
        let mut i: usize = 0;
        let ghost h = history_views(self.history@);
        while i < self.history.len()
            invariant
                i <= self.history@.len(),
                h == history_views(self.history@),
                block_views(content@) == seq![BlockView::Text(PREAMBLE@)] + transcript(
                    h.subrange(0, i as int),
                ),
            decreases self.history@.len() - i,
        {
            let entry = &self.history[i];
            let mut line = owned("Saved ");
            push_text(&mut line, entry.role.label());
            push_text(&mut line, " message:");
            let ghost before = content@;
            content.push(ContentBlock::text(line));
            let blocks = duplicate_blocks(&entry.content);
            let mut j: usize = 0;
            let ghost mid = content@;
            while j < blocks.len()
                invariant
                    j <= blocks@.len(),
                    content@ == mid + blocks@.subrange(0, j as int),
                decreases blocks@.len() - j,
            {
                content.push(blocks[j].duplicate());
                j += 1;
                assert(content@ =~= mid + blocks@.subrange(0, j as int));
            }
            proof {
                assert(blocks@.subrange(0, blocks@.len() as int) =~= blocks@);
                assert(h.subrange(0, i + 1).drop_last() =~= h.subrange(0, i as int));
                assert(h.subrange(0, i + 1).last() == h[i as int]);
                assert(h[i as int] == entry_view(self.history@[i as int]));
                assert(block_views(content@) =~= block_views(before) + seq![
                    BlockView::Text(saved_line(entry.role)),
                ] + block_views(entry.content@));
            }
            i += 1;
            assert(block_views(content@) =~= seq![BlockView::Text(PREAMBLE@)] + transcript(
                h.subrange(0, i as int),
            ));
        }
        content.push(ContentBlock::text(owned(CLOSING)));
        let mut rest = prompt;
        let ghost tail = rest@;
        let ghost head = content@;
        content.append(&mut rest);
        proof {
            assert(h.subrange(0, h.len() as int) =~= h);
            assert(block_views(content@) =~= block_views(head) + block_views(tail));
            assert(block_views(content@) =~= forked_prompt(h, block_views(tail)));
        }
        Ok(PromptRequest { session_id, prompt: content, meta })
    }

    /// What became of a prompt sent for this fork: a prompt that went through
    /// carried the history, which is then not sent again; one that failed
    /// leaves it pending, so a retry carries it again. The outcome is handed
    /// back as it came.
    pub fn finish<T>(&mut self, outcome: Result<T, Error>) -> (r: Result<T, Error>)
        ensures
            r == outcome,
            final(self).fork_session() == old(self).fork_session(),
            outcome is Ok ==> final(self).pending().len() == 0,
            outcome is Err ==> final(self).pending() == old(self).pending(),
    {
        if outcome.is_ok() {
            self.history.clear();
        }
        outcome
    }
}

/// The prompt a fork sends ends with the caller's whole prompt, untouched;
/// with history pending, it is the preamble, the transcript and the closing
/// line followed by that prompt.
pub proof fn lemma_fork_sends_the_whole_prompt(
    h: Seq<(HistoryRole, Seq<BlockView>)>,
    prompt: Seq<BlockView>,
)
    ensures
        forked_prompt(h, prompt).len() >= prompt.len(),
        forked_prompt(h, prompt).subrange(
            forked_prompt(h, prompt).len() - prompt.len(),
            forked_prompt(h, prompt).len() as int,
        ) == prompt,
        h.len() > 0 ==> forked_prompt(h, prompt) == seq![BlockView::Text(PREAMBLE@)] + transcript(h)
            + seq![BlockView::Text(CLOSING@)] + prompt,
        h.len() == 0 ==> forked_prompt(h, prompt) == prompt,
{
    let f = forked_prompt(h, prompt);
    assert(f.subrange(f.len() - prompt.len(), f.len() as int) =~= prompt);
}

/// A fork whose history has gone out sends every later prompt unchanged, so
/// the history is sent at most once (`finish` empties it once a prompt goes
/// through).
pub proof fn lemma_history_goes_out_once(prompt: Seq<BlockView>)
    ensures
        forked_prompt(Seq::empty(), prompt) == prompt,
{
}

/// What `finish` leaves decides the next prompt: after a failure the retry
/// carries the same transcript as before, after a success the next prompt
/// goes out as it is.
pub proof fn lemma_outcome_decides_the_next_prompt(
    pending: Seq<HistoryEntry>,
    after: Seq<HistoryEntry>,
    went_through: bool,
    prompt: Seq<BlockView>,
)
    requires
        went_through ==> after.len() == 0,
        !went_through ==> after == pending,
    ensures
        went_through ==> forked_prompt(history_views(after), prompt) == prompt,
        !went_through ==> forked_prompt(history_views(after), prompt) == forked_prompt(
            history_views(pending),
            prompt,
        ),
{
    if went_through {
        assert(history_views(after).len() == 0);
    }
}

/// A fork carrying nothing sends its first prompt unchanged too.
pub proof fn lemma_empty_fork_adds_nothing(h: Seq<(HistoryRole, Seq<BlockView>)>, prompt: Seq<BlockView>)
    requires
        h.len() == 0,
    ensures
        forked_prompt(h, prompt) == prompt,
{
}

/// The transcript holds exactly the saved entries, in order: each entry's
/// blocks, untouched, after the line naming who spoke.
pub proof fn lemma_transcript_of_one_more(
    h: Seq<(HistoryRole, Seq<BlockView>)>,
    e: (HistoryRole, Seq<BlockView>),
)
    ensures
        transcript(h.push(e)) == transcript(h) + seq![BlockView::Text(saved_line(e.0))] + e.1,
{
    assert(h.push(e).drop_last() =~= h);
}

} // verus!
