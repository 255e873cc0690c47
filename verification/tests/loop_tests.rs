use recipes::dispatch::ToolError;
use recipes::message::{
    ArgValue, ContentBlock, ContentKind, Message, Role, StopReason, ToolInput, ToolResultBlock,
    ToolUseBlock,
};
use recipes::script::{run_scripted, RunEnd};
use recipes::state::ConversationState;
use recipes::tool::mk_recipe_tramission_tool;
use recipes::tool_loop::{
    handle_prompt, handle_reply, Effect, LoopError, LoopStatus, LoopStep, PendingTurn, Warning,
};
use recipes::turn::{ServiceReply, TurnError};

fn loop_state() -> ConversationState {
    ConversationState::new(
        "model-x".to_string(),
        "out".to_string(),
        false,
        Some(vec!["You recommend recipes.".to_string()]),
        Some(mk_recipe_tramission_tool()),
    )
}

fn text(value: &str) -> ContentBlock {
    ContentBlock::Text(value.to_string())
}

fn tool_use(id: &str, name: &str, stem: &str) -> ContentBlock {
    let mut input = ToolInput::new();
    input.insert("recipe_details".to_string(), ArgValue::Text(format!("how to cook {}", stem)));
    input.insert("image_prompt".to_string(), ArgValue::Text(format!("a photo of {}", stem)));
    input.insert("file_stem".to_string(), ArgValue::Text(stem.to_string()));
    ContentBlock::ToolUse(ToolUseBlock {
        tool_use_id: id.to_string(),
        name: name.to_string(),
        input,
    })
}

fn assistant(content: Vec<ContentBlock>) -> Message {
    Message { role: Role::Assistant, content }
}

fn answered(stop_reason: StopReason, content: Vec<ContentBlock>) -> ServiceReply {
    ServiceReply::Answered { stop_reason, output: Some(assistant(content)) }
}

fn tool_result_message(id: &str, directory: &str) -> Message {
    Message::single(
        Role::User,
        ContentBlock::ToolResult(ToolResultBlock {
            tool_use_id: id.to_string(),
            content: format!("written output to {}", directory),
        }),
    )
}

fn waiting(step: LoopStep) -> (Vec<Effect>, PendingTurn) {
    match step.status {
        LoopStatus::Waiting(pending) => (step.effects, pending),
        other => panic!("the loop does not wait: {:?}", other),
    }
}

fn transmitted(effects: &[Effect]) -> Vec<String> {
    let mut directories = Vec::new();
    for effect in effects {
        if let Effect::Transmit(plan) = effect {
            directories.push(plan.output_directory.clone());
        }
    }
    directories
}

#[test]
fn prompt_opens_a_turn() {
    let mut state = loop_state();
    let pending = handle_prompt(&mut state, "hello".to_string());
    assert_eq!(state.messages.len(), 1);
    assert_eq!(state.messages.last(), Some(&Message::single(Role::User, text("hello"))));
    assert_eq!(pending.request().messages, state.messages.snapshot());
    assert_eq!(pending.request().model_id, "model-x");
    assert_eq!(pending.request().tools, Some(mk_recipe_tramission_tool()));
}

#[test]
fn plain_reply_ends_the_loop_after_two_messages() {
    let mut state = loop_state();
    let pending = handle_prompt(&mut state, "hello".to_string());
    let step = handle_reply(
        &mut state,
        pending,
        answered(StopReason::EndTurn, vec![text("Hi!"), text("What do you like?")]),
    );
    assert_eq!(step.status, LoopStatus::Done);
    assert_eq!(
        step.effects,
        vec![Effect::Say("Hi!".to_string()), Effect::Say("What do you like?".to_string())]
    );
    assert_eq!(state.messages.len(), 2);
    assert_eq!(
        state.messages.snapshot(),
        vec![
            Message::single(Role::User, text("hello")),
            assistant(vec![text("Hi!"), text("What do you like?")]),
        ]
    );
}

#[test]
fn empty_reply_ends_the_loop() {
    let mut state = loop_state();
    let pending = handle_prompt(&mut state, "hello".to_string());
    let step = handle_reply(&mut state, pending, answered(StopReason::EndTurn, vec![]));
    assert_eq!(step, LoopStep { effects: vec![], status: LoopStatus::Done });
    assert_eq!(state.messages.len(), 2);
}

#[test]
fn one_tool_round_grows_history_by_four() {
    let mut state = loop_state();
    let pending = handle_prompt(&mut state, "banana bread please".to_string());
    let request = vec![text("Sending it."), tool_use("tooluse_1", "transmit_recipe", "Banana Bread")];
    let step = handle_reply(&mut state, pending, answered(StopReason::ToolUse, request.clone()));
    let (effects, pending) = waiting(step);
    assert_eq!(effects.len(), 2);
    assert_eq!(effects[0], Effect::Say("Sending it.".to_string()));
    assert_eq!(transmitted(&effects), vec!["out/banana_bread".to_string()]);
    assert_eq!(state.messages.len(), 3);
    assert_eq!(state.messages.last(), Some(&tool_result_message("tooluse_1", "out/banana_bread")));
    assert_eq!(pending.request().messages, state.messages.snapshot());

    let step = handle_reply(
        &mut state,
        pending,
        answered(StopReason::EndTurn, vec![text("Saved under out/banana_bread.")]),
    );
    assert_eq!(step.status, LoopStatus::Done);
    assert_eq!(step.effects, vec![Effect::Say("Saved under out/banana_bread.".to_string())]);
    assert_eq!(
        state.messages.snapshot(),
        vec![
            Message::single(Role::User, text("banana bread please")),
            assistant(request),
            tool_result_message("tooluse_1", "out/banana_bread"),
            assistant(vec![text("Saved under out/banana_bread.")]),
        ]
    );
}

#[test]
fn transmission_carries_the_arguments() {
    let mut state = loop_state();
    let pending = handle_prompt(&mut state, "soup".to_string());
    let step = handle_reply(
        &mut state,
        pending,
        answered(StopReason::ToolUse, vec![tool_use("tooluse_9", "transmit_recipe", "soup_0001")]),
    );
    let (effects, _) = waiting(step);
    match &effects[0] {
        Effect::Transmit(plan) => {
            assert_eq!(plan.output_directory, "out/soup_0001");
            assert_eq!(plan.image_prompt, "a photo of soup_0001");
            assert_eq!(plan.recipe_text, "how to cook soup_0001");
        },
        other => panic!("not a transmission: {:?}", other),
    }
}

#[test]
fn blocks_behind_a_tool_request_are_inspected_after_its_answer() {
    let mut state = loop_state();
    let pending = handle_prompt(&mut state, "soup".to_string());
    let step = handle_reply(
        &mut state,
        pending,
        answered(
            StopReason::ToolUse,
            vec![text("before"), tool_use("tooluse_1", "transmit_recipe", "soup"), text("after")],
        ),
    );
    let (effects, pending) = waiting(step);
    assert_eq!(effects.len(), 2);
    assert_eq!(effects[0], Effect::Say("before".to_string()));

    let step = handle_reply(&mut state, pending, answered(StopReason::EndTurn, vec![text("done")]));
    assert_eq!(step.status, LoopStatus::Done);
    assert_eq!(
        step.effects,
        vec![Effect::Say("after".to_string()), Effect::Say("done".to_string())]
    );
    assert_eq!(state.messages.len(), 4);
}

#[test]
fn two_tool_requests_in_one_reply_take_two_turns() {
    let mut state = loop_state();
    let pending = handle_prompt(&mut state, "two recipes".to_string());
    let step = handle_reply(
        &mut state,
        pending,
        answered(
            StopReason::ToolUse,
            vec![
                tool_use("tooluse_1", "transmit_recipe", "soup"),
                tool_use("tooluse_2", "transmit_recipe", "salad"),
            ],
        ),
    );
    let (effects, pending) = waiting(step);
    assert_eq!(transmitted(&effects), vec!["out/soup".to_string()]);

    let step =
        handle_reply(&mut state, pending, answered(StopReason::EndTurn, vec![text("skipped")]));
    let (effects, pending) = waiting(step);
    assert_eq!(transmitted(&effects), vec!["out/salad".to_string()]);
    assert_eq!(effects.len(), 1);
    assert_eq!(state.messages.last(), Some(&tool_result_message("tooluse_2", "out/salad")));

    let step =
        handle_reply(&mut state, pending, answered(StopReason::EndTurn, vec![text("both saved")]));
    assert_eq!(step.status, LoopStatus::Done);
    assert_eq!(step.effects, vec![Effect::Say("both saved".to_string())]);
    assert_eq!(state.messages.len(), 6);
}

#[test]
fn tool_request_in_the_follow_up_reply_keeps_the_loop_going() {
    let mut state = loop_state();
    let pending = handle_prompt(&mut state, "two recipes".to_string());
    let step = handle_reply(
        &mut state,
        pending,
        answered(StopReason::ToolUse, vec![tool_use("tooluse_1", "transmit_recipe", "soup")]),
    );
    let (_, pending) = waiting(step);
    let step = handle_reply(
        &mut state,
        pending,
        answered(
            StopReason::ToolUse,
            vec![text("one more"), tool_use("tooluse_2", "transmit_recipe", "salad")],
        ),
    );
    let (effects, pending) = waiting(step);
    assert_eq!(effects[0], Effect::Say("one more".to_string()));
    assert_eq!(transmitted(&effects), vec!["out/salad".to_string()]);
    let step = handle_reply(&mut state, pending, answered(StopReason::EndTurn, vec![text("ok")]));
    assert_eq!(step.status, LoopStatus::Done);
    assert_eq!(state.messages.len(), 6);
}

#[test]
fn unknown_content_is_warned_about_and_skipped() {
    let mut state = loop_state();
    let pending = handle_prompt(&mut state, "hello".to_string());
    let step = handle_reply(
        &mut state,
        pending,
        answered(
            StopReason::EndTurn,
            vec![
                ContentBlock::Other(ContentKind::Image),
                text("look"),
                ContentBlock::Other(ContentKind::Video),
                ContentBlock::Other(ContentKind::Document),
                ContentBlock::Other(ContentKind::GuardContent),
                ContentBlock::Other(ContentKind::Unrecognized),
                ContentBlock::ToolResult(ToolResultBlock {
                    tool_use_id: "x".to_string(),
                    content: "y".to_string(),
                }),
            ],
        ),
    );
    assert_eq!(step.status, LoopStatus::Done);
    assert_eq!(
        step.effects,
        vec![
            Effect::Warn(Warning::UnexpectedContent(ContentKind::Image)),
            Effect::Say("look".to_string()),
            Effect::Warn(Warning::UnexpectedContent(ContentKind::Video)),
            Effect::Warn(Warning::UnexpectedContent(ContentKind::Document)),
            Effect::Warn(Warning::UnexpectedContent(ContentKind::GuardContent)),
            Effect::Warn(Warning::UnexpectedContent(ContentKind::Unrecognized)),
            Effect::Warn(Warning::UnexpectedToolResult),
        ]
    );
}

#[test]
fn undeclared_tool_fails_without_transmission() {
    let mut state = loop_state();
    let pending = handle_prompt(&mut state, "hello".to_string());
    let step = handle_reply(
        &mut state,
        pending,
        answered(
            StopReason::ToolUse,
            vec![text("let me try"), tool_use("tooluse_1", "delete_files", "soup"), text("unseen")],
        ),
    );
    assert_eq!(
        step.status,
        LoopStatus::Failed(LoopError::Tool(ToolError::UnexpectedTool("delete_files".to_string())))
    );
    assert_eq!(step.effects, vec![Effect::Say("let me try".to_string())]);
    assert!(transmitted(&step.effects).is_empty());
    assert_eq!(state.messages.len(), 2);
}

#[test]
fn service_failure_fails_the_loop() {
    let mut state = loop_state();
    let pending = handle_prompt(&mut state, "hello".to_string());
    let step = handle_reply(&mut state, pending, ServiceReply::Failed("throttled".to_string()));
    assert_eq!(
        step,
        LoopStep {
            effects: vec![],
            status: LoopStatus::Failed(LoopError::Turn(TurnError::Service(
                "throttled".to_string()
            ))),
        }
    );
    assert_eq!(state.messages.len(), 1);
}

#[test]
fn missing_output_fails_the_loop() {
    let mut state = loop_state();
    let pending = handle_prompt(&mut state, "hello".to_string());
    let step = handle_reply(
        &mut state,
        pending,
        ServiceReply::Answered { stop_reason: StopReason::EndTurn, output: None },
    );
    assert_eq!(step.status, LoopStatus::Failed(LoopError::Turn(TurnError::NoOutput)));
    assert_eq!(state.messages.len(), 1);
}

#[test]
fn reply_in_user_role_fails_the_loop() {
    let mut state = loop_state();
    let pending = handle_prompt(&mut state, "hello".to_string());
    let step = handle_reply(
        &mut state,
        pending,
        ServiceReply::Answered {
            stop_reason: StopReason::EndTurn,
            output: Some(Message::single(Role::User, text("hm"))),
        },
    );
    assert_eq!(step.status, LoopStatus::Failed(LoopError::Turn(TurnError::NotAssistant)));
    assert_eq!(state.messages.len(), 1);
}

#[test]
fn stop_reason_does_not_change_the_step() {
    let reasons = [
        StopReason::EndTurn,
        StopReason::ToolUse,
        StopReason::ContentFiltered,
        StopReason::MaxTokens,
        StopReason::GuardrailIntervened,
        StopReason::StopSequence,
        StopReason::Unknown,
    ];
    for reason in reasons {
        let mut state = loop_state();
        let pending = handle_prompt(&mut state, "hello".to_string());
        let step = handle_reply(&mut state, pending, answered(reason, vec![text("hi")]));
        assert_eq!(
            step,
            LoopStep { effects: vec![Effect::Say("hi".to_string())], status: LoopStatus::Done }
        );
    }
}

#[test]
fn loop_error_messages() {
    assert_eq!(
        LoopError::Tool(ToolError::UnexpectedTool("x".to_string())).message(),
        "model asked for unexpected tool: x"
    );
    assert_eq!(
        LoopError::Turn(TurnError::NoOutput).message(),
        "the model service returned no message"
    );
}

#[test]
fn scripted_plain_answer() {
    let mut state = loop_state();
    let transcript = run_scripted(
        &mut state,
        "hello".to_string(),
        vec![
            answered(StopReason::EndTurn, vec![text("hi")]),
            answered(StopReason::EndTurn, vec![text("never sent")]),
        ],
    );
    assert_eq!(transcript.end, RunEnd::Done);
    assert_eq!(transcript.replies_used, 1);
    assert_eq!(transcript.effects, vec![Effect::Say("hi".to_string())]);
    assert_eq!(state.messages.len(), 2);
}

#[test]
fn scripted_single_tool_round() {
    let mut state = loop_state();
    let transcript = run_scripted(
        &mut state,
        "banana bread".to_string(),
        vec![
            answered(
                StopReason::ToolUse,
                vec![tool_use("tooluse_1", "transmit_recipe", "banana_bread_1234")],
            ),
            answered(StopReason::EndTurn, vec![text("saved")]),
        ],
    );
    assert_eq!(transcript.end, RunEnd::Done);
    assert_eq!(transcript.replies_used, 2);
    assert_eq!(transmitted(&transcript.effects), vec!["out/banana_bread_1234".to_string()]);
    assert_eq!(transcript.effects.len(), 2);
    assert_eq!(transcript.effects[1], Effect::Say("saved".to_string()));
    assert_eq!(state.messages.len(), 4);
}

#[test]
fn scripted_run_over_several_prompts() {
    let mut state = loop_state();
    let first =
        run_scripted(&mut state, "hello".to_string(), vec![answered(StopReason::EndTurn, vec![])]);
    assert_eq!(first.end, RunEnd::Done);
    let second = run_scripted(
        &mut state,
        "soup".to_string(),
        vec![
            answered(StopReason::ToolUse, vec![tool_use("t1", "transmit_recipe", "soup")]),
            answered(StopReason::ToolUse, vec![tool_use("t2", "transmit_recipe", "stew")]),
            answered(StopReason::EndTurn, vec![text("both saved")]),
        ],
    );
    assert_eq!(second.end, RunEnd::Done);
    assert_eq!(second.replies_used, 3);
    assert_eq!(
        transmitted(&second.effects),
        vec!["out/soup".to_string(), "out/stew".to_string()]
    );
    let history = state.messages.snapshot();
    assert_eq!(history.len(), 8);
    for (index, message) in history.iter().enumerate() {
        let expected = if index % 2 == 0 { Role::User } else { Role::Assistant };
        assert_eq!(message.role, expected);
    }
}

#[test]
fn scripted_run_out_of_replies() {
    let mut state = loop_state();
    let transcript = run_scripted(&mut state, "hello".to_string(), vec![]);
    assert_eq!(transcript.replies_used, 0);
    assert!(transcript.effects.is_empty());
    match transcript.end {
        RunEnd::OutOfReplies(pending) => {
            assert_eq!(pending.request().messages, state.messages.snapshot());
        },
        other => panic!("the run did not starve: {:?}", other),
    }
    assert_eq!(state.messages.len(), 1);
}

#[test]
fn scripted_run_starves_while_tool_answer_is_pending() {
    let mut state = loop_state();
    let transcript = run_scripted(
        &mut state,
        "soup".to_string(),
        vec![answered(StopReason::ToolUse, vec![tool_use("t1", "transmit_recipe", "soup")])],
    );
    assert_eq!(transcript.replies_used, 1);
    assert_eq!(transmitted(&transcript.effects), vec!["out/soup".to_string()]);
    assert!(matches!(transcript.end, RunEnd::OutOfReplies(_)));
    assert_eq!(state.messages.len(), 3);
}

#[test]
fn scripted_run_stops_at_failure() {
    let mut state = loop_state();
    let transcript = run_scripted(
        &mut state,
        "soup".to_string(),
        vec![
            answered(StopReason::ToolUse, vec![tool_use("t1", "transmit_recipe", "soup")]),
            ServiceReply::Failed("throttled".to_string()),
            answered(StopReason::EndTurn, vec![text("never seen")]),
        ],
    );
    assert_eq!(
        transcript.end,
        RunEnd::Failed(LoopError::Turn(TurnError::Service("throttled".to_string())))
    );
    assert_eq!(transcript.replies_used, 2);
    assert_eq!(transmitted(&transcript.effects), vec!["out/soup".to_string()]);
    assert_eq!(state.messages.len(), 3);
}

#[test]
fn scripted_tool_mismatch_writes_nothing() {
    let mut state = loop_state();
    let transcript = run_scripted(
        &mut state,
        "soup".to_string(),
        vec![
            answered(StopReason::ToolUse, vec![tool_use("t1", "format_disk", "soup")]),
            answered(StopReason::EndTurn, vec![text("never seen")]),
        ],
    );
    assert_eq!(
        transcript.end,
        RunEnd::Failed(LoopError::Tool(ToolError::UnexpectedTool("format_disk".to_string())))
    );
    assert_eq!(transcript.replies_used, 1);
    assert!(transcript.effects.is_empty());
    assert_eq!(state.messages.len(), 2);
}
