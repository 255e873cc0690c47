//! Running the loop against answers that are already at hand.
//!
//! A scripted model service answers each request with the next reply of a
//! fixed list. Driving the loop this way shows what a caller with a live
//! service has to do: for each step, carry out the effects, send the
//! request, and bring the answer back.

use crate::state::{ConversationState, ConversationView};
use crate::tool_loop::{
    effect_views, handle_prompt, handle_reply, prompt_step, reply_step, Effect, EffectView,
    LoopError, LoopErrorView, LoopStatus, LoopStatusView, PendingTurn, PendingView,
};
use crate::turn::{ServiceReply, ServiceReplyView};
use vstd::prelude::*;

verus! {

/// How a scripted run ended.
#[derive(Debug, PartialEq, Eq)]
pub enum RunEnd {
    /// A reply without a tool request closed the loop.
    Done,
    /// The loop gave up.
    Failed(LoopError),
    /// The script ran out while the loop was waiting for an answer.
    OutOfReplies(PendingTurn),
}

/// View of a [`RunEnd`].
pub enum RunEndView {
    Done,
    Failed(LoopErrorView),
    OutOfReplies(PendingView),
}

impl View for RunEnd {
    type V = RunEndView;

    open spec fn view(&self) -> RunEndView {
        match *self {
            RunEnd::Done => RunEndView::Done,
            RunEnd::Failed(error) => RunEndView::Failed(error@),
            RunEnd::OutOfReplies(pending) => RunEndView::OutOfReplies(pending@),
        }
    }
}

/// What a scripted run did: every effect in the order it was called for, how
/// the run ended, and how many replies it took from the script.
#[derive(Debug, PartialEq, Eq)]
pub struct Transcript {
    pub effects: Vec<Effect>,
    pub end: RunEnd,
    pub replies_used: usize,
}

/// View of a [`Transcript`].
pub struct TranscriptView {
    pub effects: Seq<EffectView>,
    pub end: RunEndView,
    pub replies_used: int,
}

impl View for Transcript {
    type V = TranscriptView;

    open spec fn view(&self) -> TranscriptView {
        TranscriptView {
            effects: effect_views(self.effects@),
            end: self.end@,
            replies_used: self.replies_used as int,
        }
    }
}

/// The views of a list of replies, in order.
pub open spec fn reply_views(replies: Seq<ServiceReply>) -> Seq<ServiceReplyView> {
    replies.map_values(|r: ServiceReply| r@)
}

/// The run from the turn `pending` on, with the replies from position `at`
/// on still to come and `effects` called for so far. Each waiting turn takes
/// the next reply; the run ends with the first step that does not wait, or
/// when no reply is left.
pub open spec fn run_from(
    state: ConversationView,
    pending: PendingView,
    replies: Seq<ServiceReplyView>,
    at: int,
    effects: Seq<EffectView>,
) -> (ConversationView, TranscriptView)
    decreases replies.len() - at,
{
    if at < 0 || at >= replies.len() {
        (
            state,
            TranscriptView {
                effects,
                end: RunEndView::OutOfReplies(pending),
                replies_used: replies.len() as int,
            },
        )
    } else {
        let (next, step) = reply_step(state, pending, replies[at]);
        let all = effects + step.effects;
        match step.status {
            LoopStatusView::Waiting(turn) => run_from(next, turn, replies, at + 1, all),
            LoopStatusView::Done => (
                next,
                TranscriptView { effects: all, end: RunEndView::Done, replies_used: at + 1 },
            ),
            LoopStatusView::Failed(error) => (
                next,
                TranscriptView {
                    effects: all,
                    end: RunEndView::Failed(error),
                    replies_used: at + 1,
                },
            ),
        }
    }
}

/// The run of the loop for `prompt` against the scripted `replies`.
pub open spec fn run(
    state: ConversationView,
    prompt: Seq<char>,
    replies: Seq<ServiceReplyView>,
) -> (ConversationView, TranscriptView) {
    let (asked, pending) = prompt_step(state, prompt);
    run_from(asked, pending, replies, 0, Seq::empty())
}

/// Runs the loop for one prompt, answering each request with the next of
/// `replies`. The run is over as soon as a step does not wait for an answer;
/// replies behind that point are not looked at.
pub fn run_scripted(state: &mut ConversationState, prompt: String, replies: Vec<ServiceReply>) -> (
    transcript: Transcript)
    ensures
        (final(state)@, transcript@) == run(old(state)@, prompt@, reply_views(replies@)),
        old(state)@.extended_by(final(state)@),
        transcript@.replies_used <= replies@.len(),
{
    let ghost script = reply_views(replies@);
    let total = replies.len();
    let mut pending = handle_prompt(state, prompt);
    let ghost asked = state@;
    let ghost opening = pending@;
    let mut effects: Vec<Effect> = Vec::new();
    let mut used: usize = 0;
    proof {
        assert(effect_views(effects@) =~= Seq::<EffectView>::empty());
    }
    for reply in iter: replies
        invariant
            iter.seq() == replies@,
            script == reply_views(replies@),
            total == replies@.len(),
            used == iter.index(),
            used <= total,
            (asked, opening) == prompt_step(old(state)@, prompt@),
            old(state)@.extended_by(asked),
            asked.extended_by(state@),
            run_from(asked, opening, script, 0, Seq::empty()) == run_from(
                state@,
                pending@,
                script,
                used as int,
                effect_views(effects@),
            ),
    {
        let ghost before = effect_views(effects@);
        proof {
            assert(used < total);
        }
        let step = handle_reply(state, pending, reply);
        let mut fresh = step.effects;
        let ghost added = effect_views(fresh@);
        effects.append(&mut fresh);
        used = used + 1;
        proof {
            assert(effect_views(effects@) =~= before + added);
            assert(script[used - 1] == reply@);
        }
        match step.status {
            LoopStatus::Waiting(turn) => {
                pending = turn;
            },
            LoopStatus::Done => {
                return Transcript { effects, end: RunEnd::Done, replies_used: used };
            },
            LoopStatus::Failed(error) => {
                return Transcript { effects, end: RunEnd::Failed(error), replies_used: used };
            },
        }
    }
    Transcript { effects, end: RunEnd::OutOfReplies(pending), replies_used: used }
}

} // verus!
