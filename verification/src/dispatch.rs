//! Checking a tool request and preparing its answer.

use crate::artifact::{
    transmission, transmit_recipe, RecipeTransmission, RecipeTransmissionView,
};
use crate::message::{
    ArgValue, ArgValueView, ToolInput, ToolResultBlock, ToolResultView, ToolUseBlock, ToolUseView,
};
use crate::state::ConversationState;
use crate::text::same_text;
use crate::tool::{FILE_STEM, IMAGE_PROMPT, RECIPE_DETAILS, TOOL_NAME};
use vstd::prelude::*;
use vstd::string::StringExecFns;

verus! {

/// What stands in for an argument that is missing or is not a string.
pub const DEFAULT_ARGUMENT: &'static str = "default";

/// What the answer to the model says before the output directory.
pub const RESULT_PREFIX: &'static str = "written output to ";

/// What a mismatch is reported with, before the name that was asked for.
pub const MISMATCH_PREFIX: &'static str = "model asked for unexpected tool: ";

/// Why a tool request was not carried out.
#[derive(Debug, PartialEq, Eq)]
pub enum ToolError {
    /// The model asked for a tool that was never offered; the name it used.
    UnexpectedTool(String),
}

/// View of a [`ToolError`].
pub enum ToolErrorView {
    UnexpectedTool(Seq<char>),
}

impl View for ToolError {
    type V = ToolErrorView;

    open spec fn view(&self) -> ToolErrorView {
        match *self {
            ToolError::UnexpectedTool(name) => ToolErrorView::UnexpectedTool(name@),
        }
    }
}

/// A tool error in words.
pub open spec fn tool_error_text(error: ToolErrorView) -> Seq<char> {
    match error {
        ToolErrorView::UnexpectedTool(name) => MISMATCH_PREFIX@ + name,
    }
}

impl ToolError {
    /// The error in words.
    pub fn message(&self) -> (text: String)
        ensures
            text@ == tool_error_text(self@),
    {
        match self {
            ToolError::UnexpectedTool(name) => {
                let mut text = MISMATCH_PREFIX.to_owned();
                text.append(name.as_str());
                text
            },
        }
    }
}

/// The text of the argument `name`: its value where that is a string, and
/// the default where the argument is missing or holds anything else.
pub open spec fn argument_text(input: Map<Seq<char>, ArgValueView>, name: Seq<char>) -> Seq<char> {
    if input.contains_key(name) {
        match input[name] {
            ArgValueView::Text(text) => text,
            ArgValueView::Other => DEFAULT_ARGUMENT@,
        }
    } else {
        DEFAULT_ARGUMENT@
    }
}

/// Reads the argument `name` as text, falling back on the default. A
/// malformed request is never turned down on this account.
pub fn read_argument(input: &ToolInput, name: &str) -> (text: String)
    ensures
        text@ == argument_text(input@, name@),
{
    match input.get(name) {
        Some(ArgValue::Text(value)) => value.clone(),
        _ => DEFAULT_ARGUMENT.to_owned(),
    }
}

/// A tool request that was accepted: what to transmit, and what to answer
/// the model once that is done.
#[derive(Debug, PartialEq, Eq)]
pub struct ToolDispatch {
    pub transmission: RecipeTransmission,
    pub result: ToolResultBlock,
}

/// View of a [`ToolDispatch`].
pub struct ToolDispatchView {
    pub transmission: RecipeTransmissionView,
    pub result: ToolResultView,
}

impl View for ToolDispatch {
    type V = ToolDispatchView;

    open spec fn view(&self) -> ToolDispatchView {
        ToolDispatchView { transmission: self.transmission@, result: self.result@ }
    }
}

/// The answer to an accepted request: it carries the request's id, so that
/// the model service can match the two, and says where the output went.
pub open spec fn tool_result(tool_use_id: Seq<char>, directory: Seq<char>) -> ToolResultView {
    ToolResultView { tool_use_id, content: RESULT_PREFIX@ + directory }
}

/// What becomes of a tool request when artefacts go under `root`: a request
/// for any tool but the declared one is a mismatch; otherwise the three
/// arguments are read, each with its default, and the transmission is
/// planned.
pub open spec fn tool_outcome(root: Seq<char>, request: ToolUseView) -> Result<
    ToolDispatchView,
    ToolErrorView,
> {
    if request.name == TOOL_NAME@ {
        let plan = transmission(
            root,
            argument_text(request.input, FILE_STEM@),
            argument_text(request.input, IMAGE_PROMPT@),
            argument_text(request.input, RECIPE_DETAILS@),
        );
        Ok(
            ToolDispatchView {
                transmission: plan,
                result: tool_result(request.tool_use_id, plan.output_directory),
            },
        )
    } else {
        Err(ToolErrorView::UnexpectedTool(request.name))
    }
}

/// Checks a tool request and prepares its execution. Nothing is written
/// here, and for a request that is turned down there is nothing to write.
pub fn handle_tool_use(state: &ConversationState, tool_use: &ToolUseBlock) -> (outcome: Result<
    ToolDispatch,
    ToolError,
>)
    ensures
        outcome is Ok <==> tool_use@.name == TOOL_NAME@,
        match outcome {
            Ok(dispatch) => tool_outcome(state@.output, tool_use@) == Ok::<
                ToolDispatchView,
                ToolErrorView,
            >(dispatch@),
            Err(error) => tool_outcome(state@.output, tool_use@) == Err::<
                ToolDispatchView,
                ToolErrorView,
            >(error@),
        },
{
    if !same_text(tool_use.name.as_str(), TOOL_NAME) {
        return Err(ToolError::UnexpectedTool(tool_use.name.clone()));
    }
    let file_stem = read_argument(&tool_use.input, FILE_STEM);
    let image_prompt = read_argument(&tool_use.input, IMAGE_PROMPT);
    let recipe_details = read_argument(&tool_use.input, RECIPE_DETAILS);
    let plan = transmit_recipe(state, file_stem, image_prompt, recipe_details);
    let mut content = RESULT_PREFIX.to_owned();
    content.append(plan.output_directory.as_str());
    let result = ToolResultBlock { tool_use_id: tool_use.tool_use_id.clone(), content };
    Ok(ToolDispatch { transmission: plan, result })
}

} // verus!
