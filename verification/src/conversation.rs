//! The conversation manager: the history of chat turns of a topic, which
//! grows by appending and is cut back to its most recent messages.

use crate::types::{
    message_views, ConversationHistory, ConversationHistoryView, Timestamp,
    TimestampedChatMessage, TimestampedChatMessageView,
};
use vstd::prelude::*;

verus! {

/// The greatest number of messages that a stored history holds.
pub const MAX_MESSAGES: usize = 50;

/// The role of a message that the user sent.
pub const USER_ROLE: &'static str = "user";

/// The role of a message that the provider sent.
pub const ASSISTANT_ROLE: &'static str = "assistant";

/// The message that records what the user said at `at`.
pub open spec fn user_message(content: Seq<char>, at: Timestamp) -> TimestampedChatMessageView {
    TimestampedChatMessageView { role: USER_ROLE@, content, timestamp: at }
}

/// The message that records what the provider answered at `at`.
pub open spec fn assistant_message(content: Seq<char>, at: Timestamp) -> TimestampedChatMessageView {
    TimestampedChatMessageView { role: ASSISTANT_ROLE@, content, timestamp: at }
}

/// The last `MAX_MESSAGES` messages of `messages`, or all of them where
/// there are no more than that.
pub open spec fn most_recent(messages: Seq<TimestampedChatMessageView>) -> Seq<
    TimestampedChatMessageView,
> {
    if messages.len() > MAX_MESSAGES {
        messages.subrange(messages.len() - MAX_MESSAGES, messages.len() as int)
    } else {
        messages
    }
}

impl ConversationHistoryView {
    /// The history of a topic on which nothing was said yet.
    pub open spec fn empty(topic_id: Seq<char>) -> ConversationHistoryView {
        ConversationHistoryView { topic_id, messages: Seq::empty() }
    }

    /// The history with `message` appended.
    pub open spec fn with_message(
        self,
        message: TimestampedChatMessageView,
    ) -> ConversationHistoryView {
        ConversationHistoryView { topic_id: self.topic_id, messages: self.messages.push(message) }
    }

    /// The history cut back to its most recent messages.
    pub open spec fn keep_recent(self) -> ConversationHistoryView {
        ConversationHistoryView { topic_id: self.topic_id, messages: most_recent(self.messages) }
    }

    /// The history as it is stored after one chat turn: the user's message
    /// and the provider's reply appended, then cut back.
    pub open spec fn after_turn(
        self,
        said: Seq<char>,
        said_at: Timestamp,
        reply: Seq<char>,
        replied_at: Timestamp,
    ) -> ConversationHistoryView {
        self.with_message(user_message(said, said_at)).with_message(
            assistant_message(reply, replied_at),
        ).keep_recent()
    }
}

/// Cutting back leaves at most `MAX_MESSAGES` messages, and what it leaves
/// is the end of what there was, in the same order.
pub proof fn lemma_most_recent_is_a_suffix(messages: Seq<TimestampedChatMessageView>)
    ensures
        most_recent(messages).len() <= MAX_MESSAGES,
        most_recent(messages).len() <= messages.len(),
        forall|i: int|
            0 <= i < most_recent(messages).len() ==> most_recent(messages)[i] == messages[messages.len()
                - most_recent(messages).len() + i],
{
}

/// One chat turn on a history of fifty messages stores fifty messages: the
/// two oldest are gone, the rest keep their order, and the user's message
/// and the reply come last.
pub proof fn lemma_turn_on_a_full_history(
    history: ConversationHistoryView,
    said: Seq<char>,
    said_at: Timestamp,
    reply: Seq<char>,
    replied_at: Timestamp,
)
    requires
        history.messages.len() == MAX_MESSAGES,
    ensures
        history.after_turn(said, said_at, reply, replied_at).messages.len() == MAX_MESSAGES,
        history.after_turn(said, said_at, reply, replied_at).messages == history.messages.subrange(
            2,
            MAX_MESSAGES as int,
        ).push(user_message(said, said_at)).push(assistant_message(reply, replied_at)),
{
    assert(history.after_turn(said, said_at, reply, replied_at).messages
        =~= history.messages.subrange(2, MAX_MESSAGES as int).push(
        user_message(said, said_at),
    ).push(assistant_message(reply, replied_at)));
}

/// One chat turn on a history with room for two more messages stores all
/// of it, with the user's message and the reply appended.
pub proof fn lemma_turn_on_a_short_history(
    history: ConversationHistoryView,
    said: Seq<char>,
    said_at: Timestamp,
    reply: Seq<char>,
    replied_at: Timestamp,
)
    requires
        history.messages.len() + 2 <= MAX_MESSAGES,
    ensures
        history.after_turn(said, said_at, reply, replied_at).messages == history.messages.push(
            user_message(said, said_at),
        ).push(assistant_message(reply, replied_at)),
{
}

impl ConversationHistory {
    /// The history of a topic on which nothing was said yet.
    pub fn new(topic_id: &str) -> (history: ConversationHistory)
        ensures
            history@ == ConversationHistoryView::empty(topic_id@),
    {
        let history = ConversationHistory { topic_id: topic_id.to_owned(), messages: Vec::new() };
        assert(history@.messages =~= Seq::empty());
        history
    }

    /// Appends a message with the given role.
    fn push_message(&mut self, role: &str, content: &str, at: Timestamp)
        ensures
            final(self)@ == old(self)@.with_message(
                TimestampedChatMessageView { role: role@, content: content@, timestamp: at },
            ),
    {
        let message = TimestampedChatMessage {
            role: role.to_owned(),
            content: content.to_owned(),
            timestamp: at,
        };
        self.messages.push(message);
        assert(message_views(self.messages@) =~= message_views(old(self).messages@).push(message@));
    }

    /// Appends what the user said at `at`.
    pub fn push_user_message(&mut self, content: &str, at: Timestamp)
        ensures
            final(self)@ == old(self)@.with_message(user_message(content@, at)),
    {
        self.push_message(USER_ROLE, content, at);
    }

    /// Appends what the provider answered at `at`.
    pub fn push_assistant_message(&mut self, content: &str, at: Timestamp)
        ensures
            final(self)@ == old(self)@.with_message(assistant_message(content@, at)),
    {
        self.push_message(ASSISTANT_ROLE, content, at);
    }

    /// Cuts the history back to its most recent `MAX_MESSAGES` messages: the
    /// oldest are dropped, the rest keep their order.
    pub fn keep_recent(&mut self)
        ensures
            final(self)@ == old(self)@.keep_recent(),
    {
        let len = self.messages.len();
        if len > MAX_MESSAGES {
            let recent = self.messages.split_off(len - MAX_MESSAGES);
            self.messages = recent;
            assert(message_views(self.messages@) =~= most_recent(message_views(old(self).messages@)));
        }
    }
}

} // verus!
