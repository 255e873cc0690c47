//! The tool-use loop: what to do with each reply of the model, and when to
//! hand control back to the user.
//!
//! The loop is driven from outside. [`handle_prompt`] opens it with the
//! user's prompt and [`handle_reply`] takes each answer of the model
//! service. Either returns what the caller has to do next: effects to carry
//! out in order, and then a request to send, or nothing more.

use crate::artifact::{RecipeTransmission, RecipeTransmissionView};
use crate::dispatch::{handle_tool_use, tool_error_text, tool_outcome, ToolError, ToolErrorView};
use crate::message::{ContentBlock, ContentKind, ContentView, Message, MessageView};
use crate::state::{ConversationState, ConversationView};
use crate::turn::{
    accept_reply, begin_turn, reply_outcome, request_for, turn_error_text, user_message,
    ConversationTurnInput, ServiceReply, ServiceReplyView, TurnError, TurnErrorView, TurnInputView,
    TurnRequest, TurnRequestView,
};
use vstd::prelude::*;

verus! {

/// Something in a reply that the loop passes over.
#[derive(Clone, Copy, Debug, PartialEq, Eq, Structural)]
pub enum Warning {
    /// The model sent a tool result, which only the user's side sends.
    UnexpectedToolResult,
    /// The model sent content of a kind that the loop does not act on.
    UnexpectedContent(ContentKind),
}

/// Something for the caller to do.
#[derive(Debug, PartialEq, Eq)]
pub enum Effect {
    /// Show this text to the user.
    Say(String),
    /// Log this warning.
    Warn(Warning),
    /// Generate the images and write the files of this transmission.
    Transmit(RecipeTransmission),
}

/// View of an [`Effect`].
pub enum EffectView {
    Say(Seq<char>),
    Warn(Warning),
    Transmit(RecipeTransmissionView),
}

impl View for Effect {
    type V = EffectView;

    open spec fn view(&self) -> EffectView {
        match *self {
            Effect::Say(text) => EffectView::Say(text@),
            Effect::Warn(warning) => EffectView::Warn(warning),
            Effect::Transmit(plan) => EffectView::Transmit(plan@),
        }
    }
}

/// The views of a list of effects, in order.
pub open spec fn effect_views(effects: Seq<Effect>) -> Seq<EffectView> {
    effects.map_values(|e: Effect| e@)
}

/// A reply under inspection: the blocks before `next` have been dealt with.
#[derive(Debug, PartialEq, Eq)]
pub struct Pass {
    reply: Message,
    next: usize,
}

/// View of a [`Pass`].
pub struct PassView {
    pub reply: MessageView,
    pub next: int,
}

impl View for Pass {
    type V = PassView;

    closed spec fn view(&self) -> PassView {
        PassView { reply: self.reply@, next: self.next as int }
    }
}

/// A turn that is under way: the request to send, and the pass that the
/// turn interrupts, if it answers a tool request.
#[derive(Debug, PartialEq, Eq)]
pub struct PendingTurn {
    request: TurnRequest,
    pass: Option<Pass>,
}

/// View of a [`PendingTurn`].
pub struct PendingView {
    pub request: TurnRequestView,
    pub pass: Option<PassView>,
}

impl View for PendingTurn {
    type V = PendingView;

    closed spec fn view(&self) -> PendingView {
        PendingView {
            request: self.request@,
            pass: match self.pass {
                Some(pass) => Some(pass@),
                None => None,
            },
        }
    }
}

impl PendingTurn {
    /// The request that the model service is to answer.
    pub fn request(&self) -> (request: &TurnRequest)
        ensures
            request@ == self@.request,
    {
        &self.request
    }
}

/// Why the loop gave up on a prompt.
#[derive(Debug, PartialEq, Eq)]
pub enum LoopError {
    /// A turn with the model did not complete.
    Turn(TurnError),
    /// A tool request could not be carried out.
    Tool(ToolError),
}

/// View of a [`LoopError`].
pub enum LoopErrorView {
    Turn(TurnErrorView),
    Tool(ToolErrorView),
}

impl View for LoopError {
    type V = LoopErrorView;

    open spec fn view(&self) -> LoopErrorView {
        match *self {
            LoopError::Turn(error) => LoopErrorView::Turn(error@),
            LoopError::Tool(error) => LoopErrorView::Tool(error@),
        }
    }
}

/// A loop error in words: the words of the error that ended the loop.
pub open spec fn loop_error_text(error: LoopErrorView) -> Seq<char> {
    match error {
        LoopErrorView::Turn(error) => turn_error_text(error),
        LoopErrorView::Tool(error) => tool_error_text(error),
    }
}

impl LoopError {
    /// The error in words.
    pub fn message(&self) -> (text: String)
        ensures
            text@ == loop_error_text(self@),
    {
        match self {
            LoopError::Turn(error) => error.message(),
            LoopError::Tool(error) => error.message(),
        }
    }
}

/// Where the loop stands after a step.
#[derive(Debug, PartialEq, Eq)]
pub enum LoopStatus {
    /// A request is to be sent; its answer goes to [`handle_reply`].
    Waiting(PendingTurn),
    /// The prompt is dealt with: control returns to the user.
    Done,
    /// The prompt is given up; control returns to the user.
    Failed(LoopError),
}

/// View of a [`LoopStatus`].
pub enum LoopStatusView {
    Waiting(PendingView),
    Done,
    Failed(LoopErrorView),
}

impl View for LoopStatus {
    type V = LoopStatusView;

    open spec fn view(&self) -> LoopStatusView {
        match *self {
            LoopStatus::Waiting(pending) => LoopStatusView::Waiting(pending@),
            LoopStatus::Done => LoopStatusView::Done,
            LoopStatus::Failed(error) => LoopStatusView::Failed(error@),
        }
    }
}

/// One step of the loop: the effects to carry out, in order, and where the
/// loop stands once they are.
#[derive(Debug, PartialEq, Eq)]
pub struct LoopStep {
    pub effects: Vec<Effect>,
    pub status: LoopStatus,
}

/// View of a [`LoopStep`].
pub struct LoopStepView {
    pub effects: Seq<EffectView>,
    pub status: LoopStatusView,
}

impl View for LoopStep {
    type V = LoopStepView;

    open spec fn view(&self) -> LoopStepView {
        LoopStepView { effects: effect_views(self.effects@), status: self.status@ }
    }
}

/// The position of the first tool request among the blocks from `from` on,
/// or the number of blocks where there is none.
pub open spec fn first_tool_use(content: Seq<ContentView>, from: int) -> int
    decreases content.len() - from,
{
    if from < 0 || from >= content.len() {
        content.len() as int
    } else if content[from] is ToolUse {
        from
    } else {
        first_tool_use(content, from + 1)
    }
}

/// What the blocks from `from` up to the first tool request call for: text
/// is shown to the user, anything else is passed over with a warning.
pub open spec fn notices(content: Seq<ContentView>, from: int) -> Seq<EffectView>
    decreases content.len() - from,
{
    if from < 0 || from >= content.len() {
        Seq::empty()
    } else {
        match content[from] {
            ContentView::Text(text) => seq![EffectView::Say(text)] + notices(content, from + 1),
            ContentView::ToolUse(_) => Seq::empty(),
            ContentView::ToolResult(_) => seq![EffectView::Warn(Warning::UnexpectedToolResult)]
                + notices(content, from + 1),
            ContentView::Other(kind) => seq![EffectView::Warn(Warning::UnexpectedContent(kind))]
                + notices(content, from + 1),
        }
    }
}

/// The step taken at the tool request at position `at` of `reply`, after
/// `effects`. A request that is turned down ends the loop with its error. An
/// accepted one adds its transmission to the effects and opens the turn
/// that carries the tool's answer; the pass goes on behind the request once
/// that turn is answered.
pub open spec fn dispatch_step(
    state: ConversationView,
    reply: MessageView,
    at: int,
    effects: Seq<EffectView>,
) -> (ConversationView, LoopStepView) {
    match tool_outcome(state.output, reply.content[at]->ToolUse_0) {
        Err(error) => (
            state,
            LoopStepView { effects, status: LoopStatusView::Failed(LoopErrorView::Tool(error)) },
        ),
        Ok(dispatch) => {
            let answer = user_message(TurnInputView::ToolResponse(dispatch.result));
            let next = state.with_message(answer);
            (
                next,
                LoopStepView {
                    effects: effects.push(EffectView::Transmit(dispatch.transmission)),
                    status: LoopStatusView::Waiting(
                        PendingView {
                            request: request_for(next),
                            pass: Some(PassView { reply, next: at + 1 }),
                        },
                    ),
                },
            )
        },
    }
}

/// The step taken by inspecting `reply` from block `from` on, after
/// `effects`: the blocks up to the first tool request are noticed, and then
/// either that request is dispatched or, where there is none, the pass is
/// over.
pub open spec fn inspect_step(
    state: ConversationView,
    reply: MessageView,
    from: int,
    effects: Seq<EffectView>,
) -> (ConversationView, LoopStepView) {
    let stop = first_tool_use(reply.content, from);
    let noticed = effects + notices(reply.content, from);
    if stop < reply.content.len() {
        dispatch_step(state, reply, stop, noticed)
    } else {
        (state, LoopStepView { effects: noticed, status: LoopStatusView::Done })
    }
}

/// The step taken when the prompt `prompt` arrives: the user's message is
/// appended and a first turn is opened.
pub open spec fn prompt_step(state: ConversationView, prompt: Seq<char>) -> (
    ConversationView,
    PendingView,
) {
    let next = state.with_message(user_message(TurnInputView::Prompt(prompt)));
    (next, PendingView { request: request_for(next), pass: None })
}

/// The step taken when `reply` answers the turn `pending`.
///
/// A reply that is no assistant's message ends the loop with an error. An
/// assistant's message is appended to the history. If the turn interrupted a
/// pass, that pass is finished first; where it meets another tool request,
/// the new message is never inspected. Once the interrupted pass is over,
/// or if there was none, the new message is inspected from its first block.
pub open spec fn reply_step(
    state: ConversationView,
    pending: PendingView,
    reply: ServiceReplyView,
) -> (ConversationView, LoopStepView) {
    match reply_outcome(reply) {
        Err(error) => (
            state,
            LoopStepView {
                effects: Seq::empty(),
                status: LoopStatusView::Failed(LoopErrorView::Turn(error)),
            },
        ),
        Ok((_, message)) => {
            let taken = state.with_message(message);
            match pending.pass {
                None => inspect_step(taken, message, 0, Seq::empty()),
                Some(pass) => {
                    let (resumed, step) = inspect_step(taken, pass.reply, pass.next, Seq::empty());
                    if step.status is Done {
                        inspect_step(resumed, message, 0, step.effects)
                    } else {
                        (resumed, step)
                    }
                },
            }
        },
    }
}

/// Inspects `reply` from block `from` on, after the effects `earlier`.
fn inspect(
    state: &mut ConversationState,
    reply: Message,
    from: usize,
    earlier: Vec<Effect>,
) -> (step: LoopStep)
    ensures
        (final(state)@, step@) == inspect_step(
            old(state)@,
            reply@,
            from as int,
            effect_views(earlier@),
        ),
{
    let ghost content = reply@.content;
    let ghost before = effect_views(earlier@);
    let mut effects = earlier;
    let mut index = from;
    while index < reply.content.len()
        invariant
            content == reply@.content,
            before == effect_views(earlier@),
            from <= index,
            *state == *old(state),
            first_tool_use(content, index as int) == first_tool_use(content, from as int),
            effect_views(effects@) + notices(content, index as int) == before + notices(
                content,
                from as int,
            ),
        decreases reply.content.len() - index,
    {
        let ghost noticed = effect_views(effects@);
        let effect = match &reply.content[index] {
            ContentBlock::ToolUse(tool_use) => {
                proof {
                    assert(noticed + notices(content, index as int) =~= noticed);
                }
                return match handle_tool_use(state, tool_use) {
                    Err(error) => LoopStep {
                        effects,
                        status: LoopStatus::Failed(LoopError::Tool(error)),
                    },
                    Ok(dispatch) => {
                        effects.push(Effect::Transmit(dispatch.transmission));
                        let request = begin_turn(
                            state,
                            ConversationTurnInput::ToolResponse(dispatch.result),
                        );
                        let pass = Pass { reply, next: index + 1 };
                        proof {
                            assert(effect_views(effects@) =~= noticed.push(effects@.last()@));
                        }
                        LoopStep {
                            effects,
                            status: LoopStatus::Waiting(PendingTurn { request, pass: Some(pass) }),
                        }
                    },
                };
            },
            ContentBlock::Text(text) => Effect::Say(text.clone()),
            ContentBlock::ToolResult(_) => Effect::Warn(Warning::UnexpectedToolResult),
            ContentBlock::Other(kind) => Effect::Warn(Warning::UnexpectedContent(*kind)),
        };
        effects.push(effect);
        index = index + 1;
        proof {
            assert(effect_views(effects@) + notices(content, index as int) =~= noticed + notices(
                content,
                index - 1,
            ));
        }
    }
    proof {
        assert(effect_views(effects@) + notices(content, index as int) =~= effect_views(effects@));
    }
    LoopStep { effects, status: LoopStatus::Done }
}

/// Opens the loop for a prompt of the user.
pub fn handle_prompt(state: &mut ConversationState, prompt: String) -> (pending: PendingTurn)
    ensures
        (final(state)@, pending@) == prompt_step(old(state)@, prompt@),
        old(state)@.extended_by(final(state)@),
{
    let request = begin_turn(state, ConversationTurnInput::Prompt(prompt));
    PendingTurn { request, pass: None }
}

/// Takes the model's answer to the turn `pending` and inspects it.
pub fn handle_reply(
    state: &mut ConversationState,
    pending: PendingTurn,
    reply: ServiceReply,
) -> (step: LoopStep)
    ensures
        (final(state)@, step@) == reply_step(old(state)@, pending@, reply@),
        old(state)@.extended_by(final(state)@),
{
    let message = match accept_reply(state, reply) {
        Err(error) => {
            let effects: Vec<Effect> = Vec::new();
            proof {
                assert(effect_views(effects@) =~= Seq::<EffectView>::empty());
            }
            return LoopStep { effects, status: LoopStatus::Failed(LoopError::Turn(error)) };
        },
        Ok((_, message)) => message,
    };
    match pending.pass {
        None => inspect(state, message, 0, Vec::new()),
        Some(pass) => {
            let step = inspect(state, pass.reply, pass.next, Vec::new());
            match step.status {
                LoopStatus::Done => inspect(state, message, 0, step.effects),
                _ => step,
            }
        },
    }
}

} // verus!
