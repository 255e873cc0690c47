use recipes::message::{ContentBlock, Message, Role, StopReason, ToolResultBlock};
use recipes::state::ConversationState;
use recipes::tool::mk_recipe_tramission_tool;
use recipes::turn::{
    accept_reply, begin_turn, conversation_turn, ConversationTurnInput, ServiceReply, TurnError,
};

fn turn_state() -> ConversationState {
    ConversationState::new(
        "model-x".to_string(),
        "out".to_string(),
        false,
        Some(vec!["You recommend recipes.".to_string()]),
        Some(mk_recipe_tramission_tool()),
    )
}

fn said(role: Role, text: &str) -> Message {
    Message::single(role, ContentBlock::Text(text.to_string()))
}

fn answer(text: &str) -> ServiceReply {
    ServiceReply::Answered {
        stop_reason: StopReason::EndTurn,
        output: Some(said(Role::Assistant, text)),
    }
}

#[test]
fn to_content_of_prompt_is_text() {
    let turn = ConversationTurnInput::Prompt("what's for dinner?".to_string());
    assert_eq!(turn.to_content(), ContentBlock::Text("what's for dinner?".to_string()));
}

#[test]
fn to_content_of_tool_response_is_tool_result() {
    let result = ToolResultBlock {
        tool_use_id: "tooluse_7".to_string(),
        content: "written output to out/soup".to_string(),
    };
    let turn = ConversationTurnInput::ToolResponse(result.clone());
    assert_eq!(turn.to_content(), ContentBlock::ToolResult(result));
}

#[test]
fn begin_turn_appends_user_message_and_sends_history() {
    let mut state = turn_state();
    let request = begin_turn(&mut state, ConversationTurnInput::Prompt("hello".to_string()));
    assert_eq!(state.messages.len(), 1);
    assert_eq!(state.messages.last(), Some(&said(Role::User, "hello")));
    assert_eq!(request.model_id, "model-x");
    assert_eq!(request.system_prompt, Some(vec!["You recommend recipes.".to_string()]));
    assert_eq!(request.tools, Some(mk_recipe_tramission_tool()));
    assert_eq!(request.messages, vec![said(Role::User, "hello")]);
}

#[test]
fn begin_turn_sends_the_whole_history() {
    let mut state = turn_state();
    let first = conversation_turn(
        &mut state,
        ConversationTurnInput::Prompt("hello".to_string()),
        answer("hi, what do you like?"),
    );
    assert!(first.is_ok());
    let request = begin_turn(&mut state, ConversationTurnInput::Prompt("pasta".to_string()));
    assert_eq!(
        request.messages,
        vec![
            said(Role::User, "hello"),
            said(Role::Assistant, "hi, what do you like?"),
            said(Role::User, "pasta"),
        ]
    );
    assert_eq!(request.messages, state.messages.snapshot());
}

#[test]
fn begin_turn_with_tool_response() {
    let mut state = turn_state();
    let result =
        ToolResultBlock { tool_use_id: "tooluse_7".to_string(), content: "done".to_string() };
    let request = begin_turn(&mut state, ConversationTurnInput::ToolResponse(result.clone()));
    let expected = Message::single(Role::User, ContentBlock::ToolResult(result));
    assert_eq!(request.messages, vec![expected.clone()]);
    assert_eq!(state.messages.last(), Some(&expected));
}

#[test]
fn accept_reply_appends_assistant_message() {
    let mut state = turn_state();
    let _ = begin_turn(&mut state, ConversationTurnInput::Prompt("hello".to_string()));
    let outcome = accept_reply(
        &mut state,
        ServiceReply::Answered {
            stop_reason: StopReason::MaxTokens,
            output: Some(said(Role::Assistant, "hi")),
        },
    );
    assert_eq!(outcome, Ok((StopReason::MaxTokens, said(Role::Assistant, "hi"))));
    assert_eq!(state.messages.len(), 2);
    assert_eq!(state.messages.last(), Some(&said(Role::Assistant, "hi")));
}

#[test]
fn accept_reply_service_failure_leaves_history() {
    let mut state = turn_state();
    let _ = begin_turn(&mut state, ConversationTurnInput::Prompt("hello".to_string()));
    let outcome = accept_reply(
        &mut state,
        ServiceReply::Failed("ThrottlingException: Too many requests".to_string()),
    );
    assert_eq!(
        outcome,
        Err(TurnError::Service("ThrottlingException: Too many requests".to_string()))
    );
    assert_eq!(state.messages.len(), 1);
}

#[test]
fn accept_reply_without_output_is_an_error() {
    let mut state = turn_state();
    let outcome = accept_reply(
        &mut state,
        ServiceReply::Answered { stop_reason: StopReason::EndTurn, output: None },
    );
    assert_eq!(outcome, Err(TurnError::NoOutput));
    assert!(state.messages.is_empty());
}

#[test]
fn accept_reply_in_user_role_is_an_error() {
    let mut state = turn_state();
    let outcome = accept_reply(
        &mut state,
        ServiceReply::Answered {
            stop_reason: StopReason::EndTurn,
            output: Some(said(Role::User, "I am not the assistant")),
        },
    );
    assert_eq!(outcome, Err(TurnError::NotAssistant));
    assert!(state.messages.is_empty());
}

#[test]
fn conversation_turn_grows_history_by_two() {
    let mut state = turn_state();
    let outcome = conversation_turn(
        &mut state,
        ConversationTurnInput::Prompt("hello".to_string()),
        answer("hi there"),
    );
    assert_eq!(outcome, Ok((StopReason::EndTurn, said(Role::Assistant, "hi there"))));
    assert_eq!(
        state.messages.snapshot(),
        vec![said(Role::User, "hello"), said(Role::Assistant, "hi there")]
    );
}

#[test]
fn conversation_turn_keeps_roles_alternating() {
    let mut state = turn_state();
    for round in 0..3 {
        let outcome = conversation_turn(
            &mut state,
            ConversationTurnInput::Prompt(format!("question {}", round)),
            answer("an answer"),
        );
        assert!(outcome.is_ok());
    }
    let history = state.messages.snapshot();
    assert_eq!(history.len(), 6);
    for (index, message) in history.iter().enumerate() {
        let expected = if index % 2 == 0 { Role::User } else { Role::Assistant };
        assert_eq!(message.role, expected);
    }
}

#[test]
fn conversation_turn_failure_keeps_user_message() {
    let mut state = turn_state();
    let outcome = conversation_turn(
        &mut state,
        ConversationTurnInput::Prompt("hello".to_string()),
        ServiceReply::Failed("timeout".to_string()),
    );
    assert_eq!(outcome, Err(TurnError::Service("timeout".to_string())));
    assert_eq!(state.messages.snapshot(), vec![said(Role::User, "hello")]);
}

#[test]
fn conversation_turn_returns_each_stop_reason() {
    let reasons = [
        StopReason::EndTurn,
        StopReason::ToolUse,
        StopReason::ContentFiltered,
        StopReason::MaxTokens,
        StopReason::GuardrailIntervened,
        StopReason::StopSequence,
        StopReason::Unknown,
    ];
    for reason in reasons {
        let mut state = turn_state();
        let outcome = conversation_turn(
            &mut state,
            ConversationTurnInput::Prompt("hello".to_string()),
            ServiceReply::Answered {
                stop_reason: reason,
                output: Some(said(Role::Assistant, "ok")),
            },
        );
        assert_eq!(outcome, Ok((reason, said(Role::Assistant, "ok"))));
    }
}

#[test]
fn conversation_turn_leaves_configuration_alone() {
    let mut state = turn_state();
    let _ = conversation_turn(
        &mut state,
        ConversationTurnInput::Prompt("hello".to_string()),
        answer("hi"),
    );
    let fresh = turn_state();
    assert_eq!(state.model, fresh.model);
    assert_eq!(state.output, fresh.output);
    assert_eq!(state.verbose, fresh.verbose);
    assert_eq!(state.system_prompt, fresh.system_prompt);
    assert_eq!(state.tools, fresh.tools);
}

#[test]
fn turn_error_messages() {
    assert_eq!(
        TurnError::Service("timeout".to_string()).message(),
        "the model service failed: timeout"
    );
    assert_eq!(TurnError::NoOutput.message(), "the model service returned no message");
    assert_eq!(
        TurnError::NotAssistant.message(),
        "the model service returned a message that is not the assistant's"
    );
}
