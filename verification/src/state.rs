//! The state of one conversation.

use crate::history::ConversationHistory;
use crate::message::MessageView;
use crate::tool::{ToolSpec, ToolSpecView};
use vstd::prelude::*;

verus! {

/// The views of a list of strings, in order.
pub open spec fn string_views(strings: Seq<String>) -> Seq<Seq<char>> {
    strings.map_values(|s: String| s@)
}

/// The view of an optional list of strings.
pub open spec fn optional_string_views(strings: Option<Vec<String>>) -> Option<Seq<Seq<char>>> {
    match strings {
        Some(list) => Some(string_views(list@)),
        None => None,
    }
}

/// The view of an optional tool declaration.
pub open spec fn optional_tool_view(tools: Option<ToolSpec>) -> Option<ToolSpecView> {
    match tools {
        Some(tool) => Some(tool@),
        None => None,
    }
}

/// Copies a list of strings.
pub fn copy_strings(strings: &Option<Vec<String>>) -> (copy: Option<Vec<String>>)
    ensures
        optional_string_views(copy) == optional_string_views(*strings),
{
    match strings {
        Some(list) => {
            let copy = list.clone();
            proof {
                assert(string_views(copy@) =~= string_views(list@));
            }
            Some(copy)
        },
        None => None,
    }
}

/// Copies a tool declaration.
pub fn copy_tool(tools: &Option<ToolSpec>) -> (copy: Option<ToolSpec>)
    ensures
        optional_tool_view(copy) == optional_tool_view(*tools),
{
    match tools {
        Some(tool) => Some(tool.clone()),
        None => None,
    }
}

/// Everything one conversation carries from turn to turn. There is one such
/// value per session; the functions of this crate change it only by
/// appending to `messages`.
#[derive(Debug, PartialEq, Eq)]
pub struct ConversationState {
    /// The model, or inference profile, that answers.
    pub model: String,
    /// The directory under which artefacts are written.
    pub output: String,
    /// Whether the caller asked for verbose diagnostics.
    pub verbose: bool,
    /// The system prompt, one entry per text block.
    pub system_prompt: Option<Vec<String>>,
    /// The history of the conversation.
    pub messages: ConversationHistory,
    /// The tool offered to the model.
    pub tools: Option<ToolSpec>,
}

/// View of a [`ConversationState`].
pub struct ConversationView {
    pub model: Seq<char>,
    pub output: Seq<char>,
    pub verbose: bool,
    pub system_prompt: Option<Seq<Seq<char>>>,
    pub history: Seq<MessageView>,
    pub tools: Option<ToolSpecView>,
}

impl ConversationView {
    /// This conversation with `message` appended to its history.
    pub open spec fn with_message(self, message: MessageView) -> ConversationView {
        ConversationView { history: self.history.push(message), ..self }
    }

    /// Whether `later` is this conversation after some messages were
    /// appended: the configuration is the same and the history only grew.
    pub open spec fn extended_by(self, later: ConversationView) -> bool {
        &&& later.model == self.model
        &&& later.output == self.output
        &&& later.verbose == self.verbose
        &&& later.system_prompt == self.system_prompt
        &&& later.tools == self.tools
        &&& self.history.is_prefix_of(later.history)
    }
}

impl View for ConversationState {
    type V = ConversationView;

    open spec fn view(&self) -> ConversationView {
        ConversationView {
            model: self.model@,
            output: self.output@,
            verbose: self.verbose,
            system_prompt: optional_string_views(self.system_prompt),
            history: self.messages@,
            tools: optional_tool_view(self.tools),
        }
    }
}

impl ConversationState {
    /// The state of a conversation that has not begun: the configuration as
    /// given, and an empty history.
    pub fn new(
        model: String,
        output: String,
        verbose: bool,
        system_prompt: Option<Vec<String>>,
        tools: Option<ToolSpec>,
    ) -> (state: Self)
        ensures
            state@ == (ConversationView {
                model: model@,
                output: output@,
                verbose,
                system_prompt: optional_string_views(system_prompt),
                history: Seq::<MessageView>::empty(),
                tools: optional_tool_view(tools),
            }),
    {
        ConversationState {
            model,
            output,
            verbose,
            system_prompt,
            messages: ConversationHistory::new(),
            tools,
        }
    }
}

/// Being an extension is reflexive and transitive: a conversation extends
/// itself, and an extension of an extension is an extension.
pub proof fn lemma_extended_by_chains(a: ConversationView, b: ConversationView, c: ConversationView)
    requires
        a.extended_by(b),
        b.extended_by(c),
    ensures
        a.extended_by(a),
        a.extended_by(c),
{
}

} // verus!
