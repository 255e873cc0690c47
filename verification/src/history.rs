//! The conversation history: an ordered log of messages that only grows.

use crate::message::{message_views, Message, MessageView, Role};
use vstd::prelude::*;

verus! {

/// The role that position `index` of an alternating history holds: users
/// speak at even positions, the assistant at odd ones.
pub open spec fn role_at(index: int) -> Role {
    if index % 2 == 0 {
        Role::User
    } else {
        Role::Assistant
    }
}

/// Whether `history` alternates between user and assistant, starting with
/// the user.
pub open spec fn alternates(history: Seq<MessageView>) -> bool {
    forall|i: int| 0 <= i < history.len() ==> (#[trigger] history[i]).role == role_at(i)
}

/// Whether `history` is a sequence of completed turns: it alternates and the
/// assistant had the last word.
pub open spec fn settled(history: Seq<MessageView>) -> bool {
    alternates(history) && history.len() % 2 == 0
}

/// The messages exchanged so far, oldest first.
///
/// The only way to change a history is [`ConversationHistory::append`]:
/// nothing is ever rewritten or removed.
#[derive(Debug, PartialEq, Eq)]
pub struct ConversationHistory {
    messages: Vec<Message>,
}

impl View for ConversationHistory {
    type V = Seq<MessageView>;

    closed spec fn view(&self) -> Seq<MessageView> {
        message_views(self.messages@)
    }
}

impl ConversationHistory {
    /// A history without messages.
    pub fn new() -> (history: Self)
        ensures
            history@ == Seq::<MessageView>::empty(),
    {
        let history = ConversationHistory { messages: Vec::new() };
        proof {
            assert(history@ =~= Seq::<MessageView>::empty());
        }
        history
    }

    /// Adds `message` at the end. The roles are not checked: keeping them
    /// in turn is the caller's business.
    pub fn append(&mut self, message: Message)
        ensures
            final(self)@ == old(self)@.push(message@),
    {
        self.messages.push(message);
        proof {
            assert(message_views(self.messages@) =~= message_views(old(self).messages@).push(
                message@,
            ));
        }
    }

    /// A copy of all messages, in order, to be sent to the model.
    pub fn snapshot(&self) -> (messages: Vec<Message>)
        ensures
            message_views(messages@) == self@,
    {
        let messages = self.messages.clone();
        proof {
            assert(message_views(messages@) =~= message_views(self.messages@));
        }
        messages
    }

    /// The number of messages.
    pub fn len(&self) -> (n: usize)
        ensures
            n == self@.len(),
    {
        self.messages.len()
    }

    /// Whether the history holds no message.
    pub fn is_empty(&self) -> (empty: bool)
        ensures
            empty == (self@.len() == 0),
    {
        self.messages.len() == 0
    }

    /// The message at position `index`, counted from the oldest.
    pub fn get(&self, index: usize) -> (message: Option<&Message>)
        ensures
            index < self@.len() ==> (message matches Some(m) && m@ == self@[index as int]),
            index >= self@.len() ==> message is None,
    {
        if index < self.messages.len() {
            Some(&self.messages[index])
        } else {
            None
        }
    }

    /// The most recent message.
    pub fn last(&self) -> (message: Option<&Message>)
        ensures
            self@.len() > 0 ==> (message matches Some(m) && m@ == self@.last()),
            self@.len() == 0 ==> message is None,
    {
        let n = self.messages.len();
        if n > 0 {
            Some(&self.messages[n - 1])
        } else {
            None
        }
    }
}

impl Clone for ConversationHistory {
    fn clone(&self) -> (res: Self)
        ensures
            res@ == self@,
    {
        ConversationHistory { messages: self.snapshot() }
    }
}

/// Appending keeps every earlier message where it was.
pub proof fn lemma_append_keeps_prefix(history: Seq<MessageView>, message: MessageView)
    ensures
        history.is_prefix_of(history.push(message)),
        history.push(message).len() == history.len() + 1,
        history.push(message).last() == message,
{
}

/// A settled history stays settled when a user message and then an assistant
/// message are appended.
pub proof fn lemma_turn_keeps_settled(
    history: Seq<MessageView>,
    question: MessageView,
    answer: MessageView,
)
    requires
        settled(history),
        question.role == Role::User,
        answer.role == Role::Assistant,
    ensures
        settled(history.push(question).push(answer)),
{
    let grown = history.push(question).push(answer);
    assert forall|i: int| 0 <= i < grown.len() implies (#[trigger] grown[i]).role == role_at(i) by {
        if i < history.len() {
            assert(grown[i] == history[i]);
        }
    }
}

} // verus!
