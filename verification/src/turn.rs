//! One turn with the model: the user's side is appended and sent, the
//! model's side is checked and appended.
//!
//! The request travels outside this crate. [`begin_turn`] prepares it and
//! [`accept_reply`] takes what came back; [`conversation_turn`] is the two
//! in a row, for a caller that has the answer at hand.

use crate::message::{
    message_views, ContentBlock, ContentView, Message, MessageView, Role, StopReason,
    ToolResultBlock, ToolResultView,
};
use crate::state::{
    copy_strings, copy_tool, optional_string_views, optional_tool_view, ConversationState,
    ConversationView,
};
use crate::tool::{ToolSpec, ToolSpecView};
use vstd::prelude::*;
use vstd::string::StringExecFns;

verus! {

/// What the user's side brings to a turn.
#[derive(Debug, PartialEq, Eq)]
pub enum ConversationTurnInput {
    /// Something the user said.
    Prompt(String),
    /// The answer to a tool request of the model.
    ToolResponse(ToolResultBlock),
}

/// View of a [`ConversationTurnInput`].
pub enum TurnInputView {
    Prompt(Seq<char>),
    ToolResponse(ToolResultView),
}

impl View for ConversationTurnInput {
    type V = TurnInputView;

    open spec fn view(&self) -> TurnInputView {
        match *self {
            ConversationTurnInput::Prompt(text) => TurnInputView::Prompt(text@),
            ConversationTurnInput::ToolResponse(result) => TurnInputView::ToolResponse(result@),
        }
    }
}

/// The content block that carries `turn`: a prompt becomes text, a tool
/// response becomes a tool result with the id it answers.
pub open spec fn turn_content(turn: TurnInputView) -> ContentView {
    match turn {
        TurnInputView::Prompt(text) => ContentView::Text(text),
        TurnInputView::ToolResponse(result) => ContentView::ToolResult(result),
    }
}

/// The user message that carries `turn`.
pub open spec fn user_message(turn: TurnInputView) -> MessageView {
    MessageView { role: Role::User, content: seq![turn_content(turn)] }
}

impl ConversationTurnInput {
    /// The content block that carries this input.
    pub fn to_content(&self) -> (block: ContentBlock)
        ensures
            block@ == turn_content(self@),
    {
        match self {
            ConversationTurnInput::Prompt(text) => ContentBlock::Text(text.clone()),
            ConversationTurnInput::ToolResponse(result) => ContentBlock::ToolResult(result.clone()),
        }
    }
}

/// What is sent to the model for one turn: the whole history with the
/// conversation's fixed configuration.
#[derive(Debug, PartialEq, Eq)]
pub struct TurnRequest {
    pub model_id: String,
    pub system_prompt: Option<Vec<String>>,
    pub messages: Vec<Message>,
    pub tools: Option<ToolSpec>,
}

/// View of a [`TurnRequest`].
pub struct TurnRequestView {
    pub model_id: Seq<char>,
    pub system_prompt: Option<Seq<Seq<char>>>,
    pub messages: Seq<MessageView>,
    pub tools: Option<ToolSpecView>,
}

impl View for TurnRequest {
    type V = TurnRequestView;

    open spec fn view(&self) -> TurnRequestView {
        TurnRequestView {
            model_id: self.model_id@,
            system_prompt: optional_string_views(self.system_prompt),
            messages: message_views(self.messages@),
            tools: optional_tool_view(self.tools),
        }
    }
}

/// The request that `state` calls for: every message so far, under the
/// state's model, system prompt and tool.
pub open spec fn request_for(state: ConversationView) -> TurnRequestView {
    TurnRequestView {
        model_id: state.model,
        system_prompt: state.system_prompt,
        messages: state.history,
        tools: state.tools,
    }
}

/// What came back from the model service.
#[derive(Debug, PartialEq, Eq)]
pub enum ServiceReply {
    /// The service answered. `output` is the message it produced, if it
    /// produced one.
    Answered { stop_reason: StopReason, output: Option<Message> },
    /// The request failed on the way or was turned down; the reason given.
    Failed(String),
}

/// View of a [`ServiceReply`].
pub enum ServiceReplyView {
    Answered { stop_reason: StopReason, output: Option<MessageView> },
    Failed(Seq<char>),
}

impl View for ServiceReply {
    type V = ServiceReplyView;

    open spec fn view(&self) -> ServiceReplyView {
        match *self {
            ServiceReply::Answered { stop_reason, output } => ServiceReplyView::Answered {
                stop_reason,
                output: match output {
                    Some(message) => Some(message@),
                    None => None,
                },
            },
            ServiceReply::Failed(reason) => ServiceReplyView::Failed(reason@),
        }
    }
}

/// What a failed service call is reported with, before the reason.
pub const SERVICE_FAILURE_PREFIX: &'static str = "the model service failed: ";

/// What an answer without a message is reported with.
pub const NO_OUTPUT_TEXT: &'static str = "the model service returned no message";

/// What an answer in the wrong role is reported with.
pub const WRONG_ROLE_TEXT: &'static str =
    "the model service returned a message that is not the assistant's";

/// Why a turn did not complete.
#[derive(Debug, PartialEq, Eq)]
pub enum TurnError {
    /// The service failed or refused; the reason it gave.
    Service(String),
    /// The service answered without a message.
    NoOutput,
    /// The service answered with a message that is not the assistant's.
    NotAssistant,
}

/// View of a [`TurnError`].
pub enum TurnErrorView {
    Service(Seq<char>),
    NoOutput,
    NotAssistant,
}

impl View for TurnError {
    type V = TurnErrorView;

    open spec fn view(&self) -> TurnErrorView {
        match *self {
            TurnError::Service(reason) => TurnErrorView::Service(reason@),
            TurnError::NoOutput => TurnErrorView::NoOutput,
            TurnError::NotAssistant => TurnErrorView::NotAssistant,
        }
    }
}

/// A turn error in words.
pub open spec fn turn_error_text(error: TurnErrorView) -> Seq<char> {
    match error {
        TurnErrorView::Service(reason) => SERVICE_FAILURE_PREFIX@ + reason,
        TurnErrorView::NoOutput => NO_OUTPUT_TEXT@,
        TurnErrorView::NotAssistant => WRONG_ROLE_TEXT@,
    }
}

impl TurnError {
    /// The error in words.
    pub fn message(&self) -> (text: String)
        ensures
            text@ == turn_error_text(self@),
    {
        match self {
            TurnError::Service(reason) => {
                let mut text = SERVICE_FAILURE_PREFIX.to_owned();
                text.append(reason.as_str());
                text
            },
            TurnError::NoOutput => NO_OUTPUT_TEXT.to_owned(),
            TurnError::NotAssistant => WRONG_ROLE_TEXT.to_owned(),
        }
    }
}

/// What a reply amounts to: the stop reason and the assistant's message, or
/// the reason why there is none.
pub open spec fn reply_outcome(reply: ServiceReplyView) -> Result<
    (StopReason, MessageView),
    TurnErrorView,
> {
    match reply {
        ServiceReplyView::Failed(reason) => Err(TurnErrorView::Service(reason)),
        ServiceReplyView::Answered { stop_reason, output: None } => Err(TurnErrorView::NoOutput),
        ServiceReplyView::Answered { stop_reason, output: Some(message) } => {
            if message.role == Role::Assistant {
                Ok((stop_reason, message))
            } else {
                Err(TurnErrorView::NotAssistant)
            }
        },
    }
}

/// The conversation after `reply` was taken in: the assistant's message is
/// appended where there is one, and nothing changes where there is none.
pub open spec fn after_reply(state: ConversationView, reply: ServiceReplyView) -> ConversationView {
    match reply_outcome(reply) {
        Ok((_, message)) => state.with_message(message),
        Err(_) => state,
    }
}

/// Whether `outcome` is what `expected` says, view for view.
pub open spec fn turn_outcome_is(
    outcome: Result<(StopReason, Message), TurnError>,
    expected: Result<(StopReason, MessageView), TurnErrorView>,
) -> bool {
    match outcome {
        Ok((stop_reason, message)) => expected == Ok::<(StopReason, MessageView), TurnErrorView>(
            (stop_reason, message@),
        ),
        Err(error) => expected == Err::<(StopReason, MessageView), TurnErrorView>(error@),
    }
}

/// Appends the user message that carries `turn`.
fn append_user_message(state: &mut ConversationState, turn: ConversationTurnInput)
    ensures
        final(state)@ == old(state)@.with_message(user_message(turn@)),
{
    let message = Message::single(Role::User, turn.to_content());
    state.messages.append(message);
}

/// Opens a turn: the user message for `turn` is appended, and the request
/// to send holds the history with that message as its last.
pub fn begin_turn(state: &mut ConversationState, turn: ConversationTurnInput) -> (request:
    TurnRequest)
    ensures
        final(state)@ == old(state)@.with_message(user_message(turn@)),
        request@ == request_for(final(state)@),
{
    append_user_message(state, turn);
    TurnRequest {
        model_id: state.model.clone(),
        system_prompt: copy_strings(&state.system_prompt),
        messages: state.messages.snapshot(),
        tools: copy_tool(&state.tools),
    }
}

/// Closes a turn with what the service returned. An assistant's message is
/// appended to the history and handed back with the stop reason. A failed
/// call, an answer without a message and a message in another role are
/// errors, and leave the conversation as it was.
pub fn accept_reply(state: &mut ConversationState, reply: ServiceReply) -> (outcome: Result<
    (StopReason, Message),
    TurnError,
>)
    ensures
        turn_outcome_is(outcome, reply_outcome(reply@)),
        final(state)@ == after_reply(old(state)@, reply@),
{
    match reply {
        ServiceReply::Failed(reason) => Err(TurnError::Service(reason)),
        ServiceReply::Answered { stop_reason, output: None } => Err(TurnError::NoOutput),
        ServiceReply::Answered { stop_reason, output: Some(message) } => {
            match message.role {
                Role::Assistant => {
                    state.messages.append(message.clone());
                    Ok((stop_reason, message))
                },
                Role::User => Err(TurnError::NotAssistant),
            }
        },
    }
}

/// One whole turn, given the service's answer to it: the user message for
/// `turn` is appended, then `reply` is taken in as by [`accept_reply`]. On
/// success the history has grown by the user message and the assistant's
/// message; on failure by the user message alone.
pub fn conversation_turn(
    state: &mut ConversationState,
    turn: ConversationTurnInput,
    reply: ServiceReply,
) -> (outcome: Result<(StopReason, Message), TurnError>)
    ensures
        turn_outcome_is(outcome, reply_outcome(reply@)),
        final(state)@ == after_reply(old(state)@.with_message(user_message(turn@)), reply@),
        outcome is Ok ==> final(state)@.history.len() == old(state)@.history.len() + 2,
        outcome is Err ==> final(state)@.history.len() == old(state)@.history.len() + 1,
        old(state)@.extended_by(final(state)@),
{
    append_user_message(state, turn);
    accept_reply(state, reply)
}

} // verus!
