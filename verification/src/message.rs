//! The messages exchanged with the model, and their mathematical views.

use crate::text::same_text;
use vstd::prelude::*;

verus! {

/// Who wrote a message.
#[derive(Clone, Copy, Debug, PartialEq, Eq, Structural)]
pub enum Role {
    User,
    Assistant,
}

/// Why the model stopped generating.
#[derive(Clone, Copy, Debug, PartialEq, Eq, Structural)]
pub enum StopReason {
    EndTurn,
    ToolUse,
    ContentFiltered,
    MaxTokens,
    GuardrailIntervened,
    StopSequence,
    Unknown,
}

/// A kind of content that the loop does not act on.
#[derive(Clone, Copy, Debug, PartialEq, Eq, Structural)]
pub enum ContentKind {
    Image,
    Video,
    Document,
    GuardContent,
    Unrecognized,
}

/// The value of one argument of a tool request.
#[derive(Debug, PartialEq, Eq)]
pub enum ArgValue {
    /// A string.
    Text(String),
    /// Anything that is not a string.
    Other,
}

/// View of an [`ArgValue`].
pub enum ArgValueView {
    Text(Seq<char>),
    Other,
}

impl View for ArgValue {
    type V = ArgValueView;

    open spec fn view(&self) -> ArgValueView {
        match *self {
            ArgValue::Text(s) => ArgValueView::Text(s@),
            ArgValue::Other => ArgValueView::Other,
        }
    }
}

impl Clone for ArgValue {
    fn clone(&self) -> (res: Self)
        ensures
            res@ == self@,
    {
        match self {
            ArgValue::Text(s) => ArgValue::Text(s.clone()),
            ArgValue::Other => ArgValue::Other,
        }
    }
}

/// One named argument of a tool request.
#[derive(Debug, PartialEq, Eq)]
pub struct ToolArgument {
    pub name: String,
    pub value: ArgValue,
}

impl View for ToolArgument {
    type V = (Seq<char>, ArgValueView);

    open spec fn view(&self) -> (Seq<char>, ArgValueView) {
        (self.name@, self.value@)
    }
}

impl Clone for ToolArgument {
    fn clone(&self) -> (res: Self)
        ensures
            res@ == self@,
    {
        ToolArgument { name: self.name.clone(), value: self.value.clone() }
    }
}

/// The mapping that a list of named values stands for: a later entry
/// replaces an earlier one of the same name.
pub open spec fn entries_map(entries: Seq<(Seq<char>, ArgValueView)>) -> Map<
    Seq<char>,
    ArgValueView,
>
    decreases entries.len(),
{
    if entries.len() == 0 {
        Map::empty()
    } else {
        entries_map(entries.drop_last()).insert(entries.last().0, entries.last().1)
    }
}

/// A name that no entry from `from` on carries is bound as the entries before
/// `from` bind it.
pub proof fn lemma_entries_map_skip(
    entries: Seq<(Seq<char>, ArgValueView)>,
    from: int,
    name: Seq<char>,
)
    requires
        0 <= from <= entries.len(),
        forall|j: int| from <= j < entries.len() ==> (#[trigger] entries[j]).0 != name,
    ensures
        entries_map(entries).contains_key(name) == entries_map(
            entries.subrange(0, from),
        ).contains_key(name),
        entries_map(entries).contains_key(name) ==> entries_map(entries)[name] == entries_map(
            entries.subrange(0, from),
        )[name],
    decreases entries.len() - from,
{
    if from == entries.len() {
        assert(entries.subrange(0, from) =~= entries);
    } else {
        let shorter = entries.drop_last();
        assert(shorter.subrange(0, from) =~= entries.subrange(0, from));
        lemma_entries_map_skip(shorter, from, name);
    }
}

/// The arguments of a tool request: a mapping from names to values.
#[derive(Debug, PartialEq, Eq)]
pub struct ToolInput {
    entries: Vec<ToolArgument>,
}

impl View for ToolInput {
    type V = Map<Seq<char>, ArgValueView>;

    closed spec fn view(&self) -> Map<Seq<char>, ArgValueView> {
        entries_map(self.entries@.map_values(|e: ToolArgument| e@))
    }
}

impl ToolInput {
    /// A mapping without entries.
    pub fn new() -> (input: Self)
        ensures
            input@ == Map::<Seq<char>, ArgValueView>::empty(),
    {
        ToolInput { entries: Vec::new() }
    }

    /// Binds `name` to `value`, replacing what `name` was bound to.
    pub fn insert(&mut self, name: String, value: ArgValue)
        ensures
            final(self)@ == old(self)@.insert(name@, value@),
    {
        let ghost before = self.entries@.map_values(|e: ToolArgument| e@);
        self.entries.push(ToolArgument { name, value });
        proof {
            let after = self.entries@.map_values(|e: ToolArgument| e@);
            assert(after.drop_last() =~= before);
        }
    }

    /// The value bound to `name`, if there is one.
    pub fn get(&self, name: &str) -> (found: Option<&ArgValue>)
        ensures
            found is Some <==> self@.contains_key(name@),
            found matches Some(v) ==> v@ == self@[name@],
    {
        let ghost all = self.entries@.map_values(|e: ToolArgument| e@);
        let mut i: usize = self.entries.len();
        while i > 0
            invariant
                i <= self.entries.len(),
                all == self.entries@.map_values(|e: ToolArgument| e@),
                forall|j: int| i <= j < all.len() ==> (#[trigger] all[j]).0 != name@,
            decreases i,
        {
            i = i - 1;
            if same_text(self.entries[i].name.as_str(), name) {
                proof {
                    lemma_entries_map_skip(all, i + 1, name@);
                    let upto = all.subrange(0, i + 1);
                    assert(upto.last() == all[i as int]);
                }
                return Some(&self.entries[i].value);
            }
        }
        proof {
            lemma_entries_map_skip(all, 0, name@);
            assert(all.subrange(0, 0) =~= Seq::<(Seq<char>, ArgValueView)>::empty());
        }
        None
    }

}

impl Clone for ToolInput {
    fn clone(&self) -> (res: Self)
        ensures
            res@ == self@,
    {
        let entries = self.entries.clone();
        proof {
            assert(entries@.map_values(|e: ToolArgument| e@) =~= self.entries@.map_values(
                |e: ToolArgument| e@,
            ));
        }
        ToolInput { entries }
    }
}

/// A request by the model to run a tool.
#[derive(Debug, PartialEq, Eq)]
pub struct ToolUseBlock {
    pub tool_use_id: String,
    pub name: String,
    pub input: ToolInput,
}

/// View of a [`ToolUseBlock`].
pub struct ToolUseView {
    pub tool_use_id: Seq<char>,
    pub name: Seq<char>,
    pub input: Map<Seq<char>, ArgValueView>,
}

impl View for ToolUseBlock {
    type V = ToolUseView;

    open spec fn view(&self) -> ToolUseView {
        ToolUseView { tool_use_id: self.tool_use_id@, name: self.name@, input: self.input@ }
    }
}

impl Clone for ToolUseBlock {
    fn clone(&self) -> (res: Self)
        ensures
            res@ == self@,
    {
        ToolUseBlock {
            tool_use_id: self.tool_use_id.clone(),
            name: self.name.clone(),
            input: self.input.clone(),
        }
    }
}

/// The answer to a tool request, tagged with the request's id.
#[derive(Debug, PartialEq, Eq)]
pub struct ToolResultBlock {
    pub tool_use_id: String,
    pub content: String,
}

/// View of a [`ToolResultBlock`].
pub struct ToolResultView {
    pub tool_use_id: Seq<char>,
    pub content: Seq<char>,
}

impl View for ToolResultBlock {
    type V = ToolResultView;

    open spec fn view(&self) -> ToolResultView {
        ToolResultView { tool_use_id: self.tool_use_id@, content: self.content@ }
    }
}

impl Clone for ToolResultBlock {
    fn clone(&self) -> (res: Self)
        ensures
            res@ == self@,
    {
        ToolResultBlock { tool_use_id: self.tool_use_id.clone(), content: self.content.clone() }
    }
}

/// One piece of a message.
#[derive(Debug, PartialEq, Eq)]
pub enum ContentBlock {
    Text(String),
    ToolUse(ToolUseBlock),
    ToolResult(ToolResultBlock),
    /// Content of a kind that the loop only reports.
    Other(ContentKind),
}

/// View of a [`ContentBlock`].
pub enum ContentView {
    Text(Seq<char>),
    ToolUse(ToolUseView),
    ToolResult(ToolResultView),
    Other(ContentKind),
}

impl View for ContentBlock {
    type V = ContentView;

    open spec fn view(&self) -> ContentView {
        match *self {
            ContentBlock::Text(s) => ContentView::Text(s@),
            ContentBlock::ToolUse(t) => ContentView::ToolUse(t@),
            ContentBlock::ToolResult(r) => ContentView::ToolResult(r@),
            ContentBlock::Other(k) => ContentView::Other(k),
        }
    }
}

impl Clone for ContentBlock {
    fn clone(&self) -> (res: Self)
        ensures
            res@ == self@,
    {
        match self {
            ContentBlock::Text(s) => ContentBlock::Text(s.clone()),
            ContentBlock::ToolUse(t) => ContentBlock::ToolUse(t.clone()),
            ContentBlock::ToolResult(r) => ContentBlock::ToolResult(r.clone()),
            ContentBlock::Other(k) => ContentBlock::Other(*k),
        }
    }
}

/// The views of a list of content blocks, in order.
pub open spec fn content_views(blocks: Seq<ContentBlock>) -> Seq<ContentView> {
    blocks.map_values(|b: ContentBlock| b@)
}

/// One turn of one side of the conversation.
#[derive(Debug, PartialEq, Eq)]
pub struct Message {
    pub role: Role,
    pub content: Vec<ContentBlock>,
}

/// View of a [`Message`].
pub struct MessageView {
    pub role: Role,
    pub content: Seq<ContentView>,
}

impl View for Message {
    type V = MessageView;

    open spec fn view(&self) -> MessageView {
        MessageView { role: self.role, content: content_views(self.content@) }
    }
}

impl Clone for Message {
    fn clone(&self) -> (res: Self)
        ensures
            res@ == self@,
    {
        let content = self.content.clone();
        proof {
            assert(content_views(content@) =~= content_views(self.content@));
        }
        Message { role: self.role, content }
    }
}

impl Message {
    /// A message of `role` that holds the one block `block`.
    pub fn single(role: Role, block: ContentBlock) -> (message: Self)
        ensures
            message@ == (MessageView { role, content: seq![block@] }),
    {
        let mut content: Vec<ContentBlock> = Vec::new();
        content.push(block);
        proof {
            assert(content_views(content@) =~= seq![block@]);
        }
        Message { role, content }
    }
}

/// The views of a list of messages, in order.
pub open spec fn message_views(messages: Seq<Message>) -> Seq<MessageView> {
    messages.map_values(|m: Message| m@)
}

} // verus!
