//! Content blocks: what prompts, transcripts and tool calls carry.
//!
//! Text is the one kind the library builds itself. Every other kind — images,
//! audio, resources, and kinds added after this revision — is kept whole as
//! its `type` tag and the rest of its members, so it round-trips untouched.

use vstd::prelude::*;
use crate::json::Meta;

verus! {

/// A block of text.
#[derive(Debug, Clone, PartialEq)]
pub struct TextContent {
    pub text: String,
}

/// A block of any other kind, kept whole.
#[derive(Debug, Clone, PartialEq)]
pub struct OtherContentBlock {
    /// The block's `type` tag.
    pub kind: String,
    /// The block's other members, as they arrived.
    pub fields: Meta,
}

#[derive(Debug, Clone, PartialEq)]
pub enum ContentBlock {
    Text(TextContent),
    Other(OtherContentBlock),
}


/// What a block holds, as far as the library's contracts go.
pub enum BlockView {
    Text(Seq<char>),
    Other(Seq<char>, Meta),
}

impl View for ContentBlock {
    type V = BlockView;

    open spec fn view(&self) -> BlockView {
        match self {
            ContentBlock::Text(t) => BlockView::Text(t.text@),
            ContentBlock::Other(o) => BlockView::Other(o.kind@, o.fields),
        }
    }
}

/// The views of a run of blocks.
pub open spec fn block_views(s: Seq<ContentBlock>) -> Seq<BlockView> {
    s.map_values(|b: ContentBlock| b@)
}

impl ContentBlock {
    /// A text block holding `text`.
    pub fn text(text: String) -> (b: ContentBlock)
        ensures
            b@ == BlockView::Text(text@),
    {
        ContentBlock::Text(TextContent { text })
    }

    /// A copy of this block, equal to it.
    pub fn duplicate(&self) -> (b: ContentBlock)
        ensures
            b == *self,
    {
        match self {
            ContentBlock::Text(t) => ContentBlock::Text(TextContent { text: t.text.clone() }),
            ContentBlock::Other(o) => ContentBlock::Other(
                OtherContentBlock { kind: o.kind.clone(), fields: o.fields.clone() },
            ),
        }
    }
}

impl From<String> for ContentBlock {
    fn from(text: String) -> (b: ContentBlock) {
        ContentBlock::Text(TextContent { text })
    }
}

impl vstd::std_specs::convert::FromSpecImpl<String> for ContentBlock {
    open spec fn obeys_from_spec() -> bool {
        true
    }

    open spec fn from_spec(text: String) -> ContentBlock {
        ContentBlock::Text(TextContent { text })
    }
}

/// A copy of a run of blocks, equal to it.
pub fn duplicate_blocks(blocks: &Vec<ContentBlock>) -> (c: Vec<ContentBlock>)
    ensures
        c@ == blocks@,
{
    let mut c: Vec<ContentBlock> = Vec::new();
    let mut i: usize = 0;
    while i < blocks.len()
        invariant
            i <= blocks@.len(),
            c@ == blocks@.subrange(0, i as int),
        decreases blocks@.len() - i,
    {
        c.push(blocks[i].duplicate());
        i += 1;
        assert(c@ =~= blocks@.subrange(0, i as int));
    }
    assert(blocks@.subrange(0, blocks@.len() as int) =~= blocks@);
    c
}

} // verus!
