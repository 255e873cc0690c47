//! What holds of the loop whatever the model answers.

use crate::dispatch::{tool_outcome, tool_result, ToolErrorView};
use crate::history::{alternates, role_at, settled};
use crate::message::{ContentView, MessageView, Role, StopReason};
use crate::script::{run, run_from, RunEndView};
use crate::state::ConversationView;
use crate::tool::TOOL_NAME;
use crate::tool_loop::{
    dispatch_step, first_tool_use, inspect_step, notices, prompt_step, reply_step, EffectView,
    LoopErrorView, LoopStatusView, LoopStepView, PendingView,
};
use crate::turn::{reply_outcome, user_message, ServiceReplyView, TurnInputView};
use vstd::prelude::*;

verus! {

/// Whether no block of `content` from `from` on is a tool request.
pub open spec fn no_tool_use(content: Seq<ContentView>, from: int) -> bool {
    forall|i: int| from <= i < content.len() ==> !(#[trigger] content[i] is ToolUse)
}

/// Whether `content` holds exactly one tool request, and that one names the
/// declared tool.
pub open spec fn single_tool_use(content: Seq<ContentView>) -> bool {
    exists|at: int|
        {
            &&& 0 <= at < content.len()
            &&& #[trigger] content[at] is ToolUse
            &&& content[at]->ToolUse_0.name == TOOL_NAME@
            &&& forall|i: int|
                0 <= i < content.len() && i != at ==> !(#[trigger] content[i] is ToolUse)
        }
}

/// The number of transmissions among `effects`.
pub open spec fn transmissions(effects: Seq<EffectView>) -> nat
    decreases effects.len(),
{
    if effects.len() == 0 {
        0
    } else if effects.last() is Transmit {
        transmissions(effects.drop_last()) + 1
    } else {
        transmissions(effects.drop_last())
    }
}

/// The first tool request is found where it is: every block before it is
/// something else, and it lies within the content or right behind it.
pub proof fn lemma_first_tool_use(content: Seq<ContentView>, from: int)
    requires
        0 <= from <= content.len(),
    ensures
        from <= first_tool_use(content, from) <= content.len(),
        forall|i: int|
            from <= i < first_tool_use(content, from) ==> !(#[trigger] content[i] is ToolUse),
        first_tool_use(content, from) < content.len() ==> content[first_tool_use(
            content,
            from,
        )] is ToolUse,
        no_tool_use(content, from) <==> first_tool_use(content, from) == content.len(),
    decreases content.len() - from,
{
    if from < content.len() && !(content[from] is ToolUse) {
        lemma_first_tool_use(content, from + 1);
    }
}

/// Noticing blocks transmits nothing, and notices one effect for each block
/// up to the first tool request.
pub proof fn lemma_notices(content: Seq<ContentView>, from: int)
    requires
        0 <= from <= content.len(),
    ensures
        notices(content, from).len() == first_tool_use(content, from) - from,
        forall|i: int|
            0 <= i < notices(content, from).len() ==> !(#[trigger] notices(content, from)[i]
                is Transmit),
        transmissions(notices(content, from)) == 0,
    decreases content.len() - from,
{
    if from < content.len() && !(content[from] is ToolUse) {
        lemma_notices(content, from + 1);
    }
    lemma_no_transmit_counts_zero(notices(content, from));
}

/// Effects without a transmission count no transmission.
pub proof fn lemma_no_transmit_counts_zero(effects: Seq<EffectView>)
    requires
        forall|i: int| 0 <= i < effects.len() ==> !(#[trigger] effects[i] is Transmit),
    ensures
        transmissions(effects) == 0,
    decreases effects.len(),
{
    if effects.len() > 0 {
        lemma_no_transmit_counts_zero(effects.drop_last());
    }
}

/// Transmissions add up over effects that follow one another.
pub proof fn lemma_transmissions_add(first: Seq<EffectView>, second: Seq<EffectView>)
    ensures
        transmissions(first + second) == transmissions(first) + transmissions(second),
    decreases second.len(),
{
    if second.len() == 0 {
        assert(first + second =~= first);
    } else {
        assert((first + second).drop_last() =~= first + second.drop_last());
        lemma_transmissions_add(first, second.drop_last());
    }
}

/// A pass over a reply without tool requests ends the loop: the
/// conversation is left as it was and nothing is transmitted.
pub proof fn lemma_pass_without_tool_use_is_done(
    state: ConversationView,
    reply: MessageView,
    from: int,
    effects: Seq<EffectView>,
)
    requires
        0 <= from <= reply.content.len(),
        no_tool_use(reply.content, from),
    ensures
        inspect_step(state, reply, from, effects).0 == state,
        inspect_step(state, reply, from, effects).1.status == LoopStatusView::Done,
        inspect_step(state, reply, from, effects).1.effects == effects + notices(
            reply.content,
            from,
        ),
        transmissions(inspect_step(state, reply, from, effects).1.effects) == transmissions(
            effects,
        ),
{
    lemma_first_tool_use(reply.content, from);
    lemma_notices(reply.content, from);
    lemma_transmissions_add(effects, notices(reply.content, from));
}

/// A pass ends the loop only where it found no tool request: the loop goes
/// on exactly as long as the reply under inspection asks for a tool.
pub proof fn lemma_done_means_no_tool_use(
    state: ConversationView,
    reply: MessageView,
    from: int,
    effects: Seq<EffectView>,
)
    requires
        0 <= from <= reply.content.len(),
    ensures
        inspect_step(state, reply, from, effects).1.status is Done <==> no_tool_use(
            reply.content,
            from,
        ),
{
    lemma_first_tool_use(reply.content, from);
}

/// One prompt answered without a tool request: the loop returns at once,
/// and the history has grown by exactly the user's message and the
/// assistant's.
pub proof fn lemma_plain_answer(state: ConversationView, prompt: Seq<char>, reply: ServiceReplyView)
    requires
        reply_outcome(reply) is Ok,
        no_tool_use(reply_outcome(reply)->Ok_0.1.content, 0),
    ensures
        ({
            let (asked, pending) = prompt_step(state, prompt);
            let (answered, step) = reply_step(asked, pending, reply);
            let message = reply_outcome(reply)->Ok_0.1;
            &&& step.status == LoopStatusView::Done
            &&& transmissions(step.effects) == 0
            &&& answered.history == state.history.push(
                user_message(TurnInputView::Prompt(prompt)),
            ).push(message)
            &&& answered.history.len() == state.history.len() + 2
            &&& state.extended_by(answered)
        }),
{
    let (asked, pending) = prompt_step(state, prompt);
    let message = reply_outcome(reply)->Ok_0.1;
    lemma_pass_without_tool_use_is_done(
        asked.with_message(message),
        message,
        0,
        Seq::<EffectView>::empty(),
    );
    assert(transmissions(Seq::<EffectView>::empty()) == 0);
}

/// One prompt answered with a single request for the declared tool, and
/// then, once the tool's answer was sent, without any: the first reply
/// leaves the loop waiting with exactly one transmission to carry out, the
/// second ends it with none, and the history has grown by exactly four
/// messages: the prompt, the request, the tool's answer and the final reply.
pub proof fn lemma_single_tool_round(
    state: ConversationView,
    prompt: Seq<char>,
    first: ServiceReplyView,
    second: ServiceReplyView,
)
    requires
        reply_outcome(first) is Ok,
        reply_outcome(second) is Ok,
        single_tool_use(reply_outcome(first)->Ok_0.1.content),
        no_tool_use(reply_outcome(second)->Ok_0.1.content, 0),
    ensures
        ({
            let (asked, pending) = prompt_step(state, prompt);
            let (requested, first_step) = reply_step(asked, pending, first);
            let request = reply_outcome(first)->Ok_0.1;
            let at = first_tool_use(request.content, 0);
            let dispatch = tool_outcome(state.output, request.content[at]->ToolUse_0)->Ok_0;
            &&& first_step.status is Waiting
            &&& transmissions(first_step.effects) == 1
            &&& first_step.effects.last() == EffectView::Transmit(dispatch.transmission)
            &&& {
                let (finished, second_step) = reply_step(
                    requested,
                    first_step.status->Waiting_0,
                    second,
                );
                &&& second_step.status == LoopStatusView::Done
                &&& transmissions(second_step.effects) == 0
                &&& finished.history == state.history.push(
                    user_message(TurnInputView::Prompt(prompt)),
                ).push(request).push(
                    user_message(TurnInputView::ToolResponse(dispatch.result)),
                ).push(reply_outcome(second)->Ok_0.1)
                &&& finished.history.len() == state.history.len() + 4
                &&& state.extended_by(finished)
            }
        }),
{
    let (asked, pending) = prompt_step(state, prompt);
    let request = reply_outcome(first)->Ok_0.1;
    let last = reply_outcome(second)->Ok_0.1;
    let taken = asked.with_message(request);
    let at = first_tool_use(request.content, 0);
    lemma_first_tool_use(request.content, 0);
    lemma_notices(request.content, 0);
    let only = choose|only: int|
        {
            &&& 0 <= only < request.content.len()
            &&& #[trigger] request.content[only] is ToolUse
            &&& request.content[only]->ToolUse_0.name == TOOL_NAME@
            &&& forall|i: int|
                0 <= i < request.content.len() && i != only ==> !(#[trigger] request.content[i]
                    is ToolUse)
        };
    assert(at == only);
    let noticed = Seq::<EffectView>::empty() + notices(request.content, 0);
    assert(noticed =~= notices(request.content, 0));
    let (requested, first_step) = dispatch_step(taken, request, at, noticed);
    assert(reply_step(asked, pending, first) == (requested, first_step));
    assert(first_step.effects.drop_last() =~= noticed);
    let waiting = first_step.status->Waiting_0;
    let resumed = requested.with_message(last);
    lemma_pass_without_tool_use_is_done(resumed, request, at + 1, Seq::<EffectView>::empty());
    let between = inspect_step(resumed, request, at + 1, Seq::<EffectView>::empty()).1.effects;
    lemma_pass_without_tool_use_is_done(resumed, last, 0, between);
    assert(transmissions(Seq::<EffectView>::empty()) == 0);
}

/// The loop does not look at the stop reason: two answers that differ in
/// nothing else lead to the same step.
pub proof fn lemma_stop_reason_ignored(
    state: ConversationView,
    pending: PendingView,
    output: Option<MessageView>,
    one: StopReason,
    other: StopReason,
)
    ensures
        reply_step(state, pending, ServiceReplyView::Answered { stop_reason: one, output })
            == reply_step(
            state,
            pending,
            ServiceReplyView::Answered { stop_reason: other, output },
        ),
{
}

/// A prompt put to a settled conversation leaves a history that alternates
/// and ends with the user's message.
pub proof fn lemma_prompt_keeps_alternation(state: ConversationView, prompt: Seq<char>)
    requires
        settled(state.history),
    ensures
        alternates(prompt_step(state, prompt).0.history),
        prompt_step(state, prompt).0.history.len() % 2 == 1,
{
    let grown = prompt_step(state, prompt).0.history;
    assert forall|i: int| 0 <= i < grown.len() implies (#[trigger] grown[i]).role == role_at(i) by {
        if i < state.history.len() {
            assert(grown[i] == state.history[i]);
        }
    }
}

/// A reply taken while the history alternates and ends with a user's
/// message leaves a history that still alternates. It ends with a user's
/// message while the loop waits or gave up on the turn, and is settled once
/// the loop is done.
pub proof fn lemma_reply_keeps_alternation(
    state: ConversationView,
    pending: PendingView,
    reply: ServiceReplyView,
)
    requires
        alternates(state.history),
        state.history.len() % 2 == 1,
    ensures
        ({
            let (next, step) = reply_step(state, pending, reply);
            &&& alternates(next.history)
            &&& step.status is Waiting ==> next.history.len() % 2 == 1
            &&& step.status is Done ==> settled(next.history)
            &&& state.extended_by(next)
        }),
{
    let (next, step) = reply_step(state, pending, reply);
    if reply_outcome(reply) is Ok {
        let message = reply_outcome(reply)->Ok_0.1;
        let taken = state.with_message(message);
        assert(alternates(taken.history)) by {
            assert forall|i: int| 0 <= i < taken.history.len() implies (
            #[trigger] taken.history[i]).role == role_at(i) by {
                if i < state.history.len() {
                    assert(taken.history[i] == state.history[i]);
                }
            }
        }
        assert(alternates(next.history)) by {
            assert forall|i: int| 0 <= i < next.history.len() implies (
            #[trigger] next.history[i]).role == role_at(i) by {
                if i < taken.history.len() {
                    assert(next.history[i] == taken.history[i]);
                }
            }
        }
    }
}

/// While the loop waits for the answer to a tool's result, the last
/// message of the history is that result, and it carries the id of the
/// request that the interrupted pass stopped at.
pub proof fn lemma_tool_result_answers_request(
    state: ConversationView,
    reply: MessageView,
    from: int,
    effects: Seq<EffectView>,
)
    requires
        inspect_step(state, reply, from, effects).1.status is Waiting,
    ensures
        ({
            let (next, step) = inspect_step(state, reply, from, effects);
            let pass = step.status->Waiting_0.pass->Some_0;
            let request = reply.content[pass.next - 1]->ToolUse_0;
            &&& step.status->Waiting_0.pass is Some
            &&& pass.reply == reply
            &&& from < pass.next <= reply.content.len()
            &&& reply.content[pass.next - 1] is ToolUse
            &&& request.name == TOOL_NAME@
            &&& next.history == state.history.push(next.history.last())
            &&& next.history.last().role == Role::User
            &&& next.history.last().content.len() == 1
            &&& next.history.last().content[0] is ToolResult
            &&& next.history.last().content[0]->ToolResult_0.tool_use_id == request.tool_use_id
            &&& step.effects.last() is Transmit
            &&& next.history.last().content[0]->ToolResult_0 == tool_result(
                request.tool_use_id,
                step.effects.last()->Transmit_0.output_directory,
            )
        }),
{
    if 0 <= from <= reply.content.len() {
        lemma_first_tool_use(reply.content, from);
    }
}

/// A scripted service whose first reply holds no tool request: the run
/// takes that one reply and is done, nothing is transmitted, and the history
/// has grown by exactly two messages.
pub proof fn lemma_run_plain_answer(
    state: ConversationView,
    prompt: Seq<char>,
    replies: Seq<ServiceReplyView>,
)
    requires
        replies.len() >= 1,
        reply_outcome(replies[0]) is Ok,
        no_tool_use(reply_outcome(replies[0])->Ok_0.1.content, 0),
    ensures
        ({
            let (finished, transcript) = run(state, prompt, replies);
            &&& transcript.end == RunEndView::Done
            &&& transcript.replies_used == 1
            &&& transmissions(transcript.effects) == 0
            &&& finished.history.len() == state.history.len() + 2
            &&& finished.history == state.history.push(
                user_message(TurnInputView::Prompt(prompt)),
            ).push(reply_outcome(replies[0])->Ok_0.1)
        }),
{
    lemma_plain_answer(state, prompt, replies[0]);
    let (asked, pending) = prompt_step(state, prompt);
    let step = reply_step(asked, pending, replies[0]).1;
    lemma_transmissions_add(Seq::<EffectView>::empty(), step.effects);
    assert(transmissions(Seq::<EffectView>::empty()) == 0);
}

/// A scripted service whose first reply asks once for the declared tool and
/// whose second reply asks for nothing: the run takes both replies and is
/// done, exactly one transmission is called for, and the history has grown
/// by exactly four messages.
pub proof fn lemma_run_single_tool_round(
    state: ConversationView,
    prompt: Seq<char>,
    replies: Seq<ServiceReplyView>,
)
    requires
        replies.len() >= 2,
        reply_outcome(replies[0]) is Ok,
        reply_outcome(replies[1]) is Ok,
        single_tool_use(reply_outcome(replies[0])->Ok_0.1.content),
        no_tool_use(reply_outcome(replies[1])->Ok_0.1.content, 0),
    ensures
        ({
            let (finished, transcript) = run(state, prompt, replies);
            &&& transcript.end == RunEndView::Done
            &&& transcript.replies_used == 2
            &&& transmissions(transcript.effects) == 1
            &&& finished.history.len() == state.history.len() + 4
            &&& state.extended_by(finished)
        }),
{
    lemma_single_tool_round(state, prompt, replies[0], replies[1]);
    let (asked, pending) = prompt_step(state, prompt);
    let (requested, first_step) = reply_step(asked, pending, replies[0]);
    let waiting = first_step.status->Waiting_0;
    let (finished, second_step) = reply_step(requested, waiting, replies[1]);
    let gathered = Seq::<EffectView>::empty() + first_step.effects;
    lemma_transmissions_add(Seq::<EffectView>::empty(), first_step.effects);
    lemma_transmissions_add(gathered, second_step.effects);
    assert(transmissions(Seq::<EffectView>::empty()) == 0);
    assert(run_from(asked, pending, replies, 0, Seq::empty()) == run_from(
        requested,
        waiting,
        replies,
        1,
        gathered,
    ));
}

/// A run never takes more replies than the script holds, and it only ever
/// appends to the history.
pub proof fn lemma_run_from_extends(
    state: ConversationView,
    pending: PendingView,
    replies: Seq<ServiceReplyView>,
    at: int,
    effects: Seq<EffectView>,
)
    requires
        0 <= at <= replies.len(),
    ensures
        at <= run_from(state, pending, replies, at, effects).1.replies_used <= replies.len(),
        state.extended_by(run_from(state, pending, replies, at, effects).0),
        effects.is_prefix_of(run_from(state, pending, replies, at, effects).1.effects),
    decreases replies.len() - at,
{
    if at < replies.len() {
        let (next, step) = reply_step(state, pending, replies[at]);
        lemma_reply_step_extends(state, pending, replies[at]);
        if step.status is Waiting {
            lemma_run_from_extends(
                next,
                step.status->Waiting_0,
                replies,
                at + 1,
                effects + step.effects,
            );
        }
    }
}

/// A step of the loop only ever appends to the history.
pub proof fn lemma_reply_step_extends(
    state: ConversationView,
    pending: PendingView,
    reply: ServiceReplyView,
)
    ensures
        state.extended_by(reply_step(state, pending, reply).0),
{
}

/// A request for a tool that was never offered ends the loop with the
/// mismatch: the conversation is left as it was, and no transmission is
/// called for on its account.
pub proof fn lemma_mismatch_ends_loop(
    state: ConversationView,
    reply: MessageView,
    at: int,
    effects: Seq<EffectView>,
)
    requires
        0 <= at < reply.content.len(),
        reply.content[at] is ToolUse,
        reply.content[at]->ToolUse_0.name != TOOL_NAME@,
    ensures
        dispatch_step(state, reply, at, effects) == (
            state,
            LoopStepView {
                effects,
                status: LoopStatusView::Failed(
                    LoopErrorView::Tool(
                        ToolErrorView::UnexpectedTool(reply.content[at]->ToolUse_0.name),
                    ),
                ),
            },
        ),
{
}

/// When the first reply to a prompt asks for the tool, the tool's answer
/// follows that reply at once: the history ends with the reply and, behind
/// it, the user's message that answers one of its requests.
pub proof fn lemma_tool_result_follows_reply(
    state: ConversationView,
    pending: PendingView,
    reply: ServiceReplyView,
)
    requires
        pending.pass is None,
        reply_step(state, pending, reply).1.status is Waiting,
    ensures
        ({
            let (next, step) = reply_step(state, pending, reply);
            let message = reply_outcome(reply)->Ok_0.1;
            let pass = step.status->Waiting_0.pass->Some_0;
            &&& reply_outcome(reply) is Ok
            &&& next.history.len() == state.history.len() + 2
            &&& next.history[state.history.len() as int] == message
            &&& pass.reply == message
            &&& 0 < pass.next <= message.content.len()
            &&& message.content[pass.next - 1] is ToolUse
            &&& next.history.last() == user_message(
                TurnInputView::ToolResponse(
                    tool_result(
                        message.content[pass.next - 1]->ToolUse_0.tool_use_id,
                        step.effects.last()->Transmit_0.output_directory,
                    ),
                ),
            )
        }),
{
    let message = reply_outcome(reply)->Ok_0.1;
    lemma_tool_result_answers_request(
        state.with_message(message),
        message,
        0,
        Seq::<EffectView>::empty(),
    );
}

} // verus!
