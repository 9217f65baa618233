//! What serving a request comes to, with the outside world written down: a
//! store that keeps what it is given, a request body, a provider and a
//! clock. The statements below hold of every such world.

use crate::claude::{reply_of, ProviderError};
use crate::conversation::{assistant_message, user_message, MAX_MESSAGES};
use crate::errors::{ApiError, BadInput};
use crate::handlers::{
    begin_get_conversation, begin_get_progress, begin_get_topic, begin_post_chat,
    begin_post_progress, begin_reset_progress, known_topic, progress_reset, progress_updated,
    transition, ActionView, EventView, StageView,
};
use crate::progress::strictly_increasing;
use crate::store::{conversation_key_of, lemma_keys_of_a_topic_differ, progress_key_of};
use crate::text::is_blank;
use crate::types::{ChatResponseView, ConversationHistoryView, ProgressView, Timestamp};
use crate::utils::PayloadView;
use vstd::prelude::*;

verus! {

/// What the store holds under one key.
pub enum Record {
    Progress(ProgressView),
    Conversation(ConversationHistoryView),
}

/// The outside world while one request is served.
pub struct World {
    /// What is stored, by key.
    pub store: Map<Seq<char>, Record>,
    /// The step that the body of the request reports, where the body is a
    /// progress update.
    pub progress_update: Option<usize>,
    /// The message that the body of the request holds, where the body is a
    /// chat message.
    pub chat_message: Option<Seq<char>>,
    /// The name of the provider's model, as the deployment gives it.
    pub model: Seq<char>,
    /// The status that the provider answers with, where the network call
    /// completes.
    pub provider_status: Option<u16>,
    /// The text of each content block of the provider's answer, where its
    /// body can be decoded.
    pub provider_blocks: Option<Seq<Seq<char>>>,
    /// What the clock shows when the user's message is appended.
    pub said_at: Timestamp,
    /// What the clock shows when the provider's reply is appended.
    pub replied_at: Timestamp,
}

/// How serving a request ended.
pub struct Served {
    /// The outcome that the request was answered with, or nothing where the
    /// store could not give what was asked of it.
    pub outcome: Option<Result<PayloadView, ApiError>>,
    /// What is stored afterwards.
    pub store: Map<Seq<char>, Record>,
    /// How often the store was written to or deleted from.
    pub writes: nat,
}

impl World {
    /// The same world with another store.
    pub open spec fn with_store(self, store: Map<Seq<char>, Record>) -> World {
        World { store, ..self }
    }

    /// What the clock shows at `stage`.
    pub open spec fn time_at(self, stage: StageView) -> Timestamp {
        if stage is ChatLookup {
            self.said_at
        } else {
            self.replied_at
        }
    }

    /// Whether nothing, or a progress record, is stored under `key`.
    pub open spec fn holds_progress_or_nothing(self, key: Seq<char>) -> bool {
        self.store.dom().contains(key) ==> self.store[key] is Progress
    }

    /// Whether nothing, or a conversation, is stored under `key`.
    pub open spec fn holds_conversation_or_nothing(self, key: Seq<char>) -> bool {
        self.store.dom().contains(key) ==> self.store[key] is Conversation
    }

    /// The progress of a topic as stored, or the empty record where
    /// nothing is stored.
    pub open spec fn progress_of(self, topic_id: Seq<char>) -> ProgressView {
        let key = progress_key_of(topic_id);
        if self.store.dom().contains(key) && self.store[key] is Progress {
            self.store[key]->Progress_0
        } else {
            ProgressView::zero(topic_id)
        }
    }

    /// The conversation of a topic as stored, or the empty history where
    /// nothing is stored.
    pub open spec fn conversation_of(self, topic_id: Seq<char>) -> ConversationHistoryView {
        let key = conversation_key_of(topic_id);
        if self.store.dom().contains(key) && self.store[key] is Conversation {
            self.store[key]->Conversation_0
        } else {
            ConversationHistoryView::empty(topic_id)
        }
    }

    /// What doing `action` gives, and what is stored after it. Nothing
    /// comes back where the request is answered, and where the record
    /// under the key is not of the kind that is read.
    pub open spec fn answer(self, action: ActionView) -> Option<(EventView, Map<Seq<char>, Record>)> {
        match action {
            ActionView::ReadProgressUpdate => Some(
                (EventView::ProgressUpdateRead(self.progress_update), self.store),
            ),
            ActionView::ReadChatMessage => Some(
                (EventView::ChatMessageRead(self.chat_message), self.store),
            ),
            ActionView::LoadProgress { key } => if !self.store.dom().contains(key) {
                Some((EventView::ProgressLoaded(None), self.store))
            } else {
                match self.store[key] {
                    Record::Progress(progress) => Some(
                        (EventView::ProgressLoaded(Some(progress)), self.store),
                    ),
                    Record::Conversation(_) => None,
                }
            },
            ActionView::LoadConversation { key } => if !self.store.dom().contains(key) {
                Some((EventView::ConversationLoaded(None), self.store))
            } else {
                match self.store[key] {
                    Record::Conversation(history) => Some(
                        (EventView::ConversationLoaded(Some(history)), self.store),
                    ),
                    Record::Progress(_) => None,
                }
            },
            ActionView::SaveProgress { key, progress } => Some(
                (EventView::Saved, self.store.insert(key, Record::Progress(progress))),
            ),
            ActionView::SaveConversation { key, history } => Some(
                (EventView::Saved, self.store.insert(key, Record::Conversation(history))),
            ),
            ActionView::Delete { key } => Some((EventView::Deleted, self.store.remove(key))),
            ActionView::ReadModel => Some((EventView::ModelRead(self.model), self.store)),
            ActionView::CallProvider { request } => Some(
                (EventView::ProviderStatus(self.provider_status), self.store),
            ),
            ActionView::ReadProviderReply => Some(
                (EventView::ProviderReply(self.provider_blocks), self.store),
            ),
            ActionView::Finish { outcome } => None,
        }
    }

    /// Serves a request that stands at `stage` and needs `action` next: the
    /// action is done, the decision that follows is made, and so on until
    /// the request is answered, for `rounds` rounds at most.
    pub open spec fn run(self, stage: StageView, action: ActionView, rounds: nat) -> Served
        decreases rounds,
    {
        if let ActionView::Finish { outcome } = action {
            Served { outcome: Some(outcome), store: self.store, writes: 0 }
        } else if rounds == 0 {
            Served { outcome: None, store: self.store, writes: 0 }
        } else {
            match self.answer(action) {
                None => Served { outcome: None, store: self.store, writes: 0 },
                Some((event, store)) => {
                    let next = transition(stage, event, self.time_at(stage));
                    let rest = self.with_store(store).run(next.0, next.1, (rounds - 1) as nat);
                    Served {
                        outcome: rest.outcome,
                        store: rest.store,
                        writes: rest.writes + if action.changes_store() {
                            1nat
                        } else {
                            0nat
                        },
                    }
                },
            }
        }
    }

    /// Serves a request from its first decision on. No endpoint needs more
    /// than six pieces of outside work.
    pub open spec fn serve(self, begin: (StageView, ActionView)) -> Served {
        self.run(begin.0, begin.1, 6)
    }
}

/// Topics keep their records apart. The progress of a known topic is
/// never stored under the key of a conversation, and two topics share
/// neither the key of their progress nor that of their conversation.
pub proof fn lemma_topics_keep_their_records_apart(a: Seq<char>, b: Seq<char>)
    requires
        known_topic(a),
    ensures
        progress_key_of(a) != conversation_key_of(b),
        a != b ==> progress_key_of(a) != progress_key_of(b),
        a != b ==> conversation_key_of(a) != conversation_key_of(b),
{
    reveal_strlit("conversation_");
    reveal_strlit("github-setup");
    assert(conversation_key_of(b)[0] == 'c');
    assert(conversation_key_of(a).subrange(13, 13 + a.len() as int) =~= a);
    assert(conversation_key_of(b).subrange(13, 13 + b.len() as int) =~= b);
}

/// A request that names no topic of the catalog is refused as such,
/// whatever the endpoint, and nothing is stored or deleted for it. It is
/// answered with status 404.
pub proof fn lemma_unknown_topic_is_refused(world: World, topic_id: Seq<char>)
    requires
        !known_topic(topic_id),
    ensures
        ({
            let refused = Served {
                outcome: Some(Err(ApiError::InvalidTopic)),
                store: world.store,
                writes: 0,
            };
            &&& world.serve(begin_get_topic(topic_id)) == refused
            &&& world.serve(begin_get_progress(topic_id)) == refused
            &&& world.serve(begin_post_progress(topic_id)) == refused
            &&& world.serve(begin_get_conversation(topic_id)) == refused
            &&& world.serve(begin_post_chat(topic_id)) == refused
            &&& world.serve(begin_reset_progress(topic_id)) == refused
        }),
        ApiError::InvalidTopic.status_code() == 404,
{
}

/// A query leaves the store as it is: the empty record that answers for a
/// topic without stored data is not stored.
pub proof fn lemma_queries_do_not_write(world: World, topic_id: Seq<char>)
    ensures
        world.serve(begin_get_topic(topic_id)).store == world.store,
        world.serve(begin_get_topic(topic_id)).writes == 0,
        world.serve(begin_get_progress(topic_id)).store == world.store,
        world.serve(begin_get_progress(topic_id)).writes == 0,
        world.serve(begin_get_conversation(topic_id)).store == world.store,
        world.serve(begin_get_conversation(topic_id)).writes == 0,
        known_topic(topic_id) && world.holds_progress_or_nothing(progress_key_of(topic_id))
            ==> world.serve(begin_get_progress(topic_id)).outcome == Some(
            Ok::<PayloadView, ApiError>(PayloadView::Progress(world.progress_of(topic_id))),
        ),
        known_topic(topic_id) && world.holds_conversation_or_nothing(conversation_key_of(topic_id))
            ==> world.serve(begin_get_conversation(topic_id)).outcome == Some(
            Ok::<PayloadView, ApiError>(PayloadView::Conversation(world.conversation_of(topic_id))),
        ),
{
    reveal_with_fuel(World::run, 3);
}

/// A progress update. A step that is completed already is confirmed and
/// nothing is written. A step that is not completed and has no successor
/// on this machine is refused as bad input, and nothing is written. Any
/// other step is confirmed, and the record with the step is stored in one
/// write.
pub proof fn lemma_update_records_the_step(world: World, topic_id: Seq<char>, step: usize)
    requires
        known_topic(topic_id),
        world.progress_update == Some(step),
        world.holds_progress_or_nothing(progress_key_of(topic_id)),
    ensures
        world.with_store(world.serve(begin_post_progress(topic_id)).store).progress_of(topic_id)
            == world.progress_of(topic_id).report(step),
        ({
            let served = world.serve(begin_post_progress(topic_id));
            let before = world.progress_of(topic_id);
            if before.completed_steps.contains(step) {
                served == (Served {
                    outcome: Some(Ok(progress_updated(topic_id))),
                    store: world.store,
                    writes: 0,
                })
            } else if step == usize::MAX {
                served == (Served {
                    outcome: Some(Err(ApiError::BadInput(BadInput::MalformedJson))),
                    store: world.store,
                    writes: 0,
                })
            } else {
                served == (Served {
                    outcome: Some(Ok(progress_updated(topic_id))),
                    store: world.store.insert(
                        progress_key_of(topic_id),
                        Record::Progress(before.record(step)),
                    ),
                    writes: 1,
                })
            }
        }),
{
    reveal_with_fuel(World::run, 4);
}

/// Reporting the same step twice comes to the same as reporting it once,
/// whatever the step and whatever is stored: the second update is answered
/// like the first, leaves the store as the first left it, and writes
/// nothing. The two together write at most once.
pub proof fn lemma_repeated_update_changes_nothing(world: World, topic_id: Seq<char>, step: usize)
    requires
        known_topic(topic_id),
        world.progress_update == Some(step),
        world.holds_progress_or_nothing(progress_key_of(topic_id)),
    ensures
        ({
            let first = world.serve(begin_post_progress(topic_id));
            let second = world.with_store(first.store).serve(begin_post_progress(topic_id));
            &&& first.writes <= 1
            &&& second.writes == 0
            &&& second.store == first.store
            &&& second.outcome == first.outcome
        }),
{
    lemma_update_records_the_step(world, topic_id, step);
    let first = world.serve(begin_post_progress(topic_id));
    let after = world.with_store(first.store);
    crate::progress::lemma_record_is_idempotent(world.progress_of(topic_id), step);
    lemma_update_records_the_step(after, topic_id, step);
}

/// A progress update with a step that is not completed, on stored steps
/// that are sorted and free of duplicates, leaves them so: the step is
/// added, no step is lost, and there is one step more.
pub proof fn lemma_update_keeps_the_steps_sorted(world: World, topic_id: Seq<char>, step: usize)
    requires
        known_topic(topic_id),
        world.progress_update == Some(step),
        world.holds_progress_or_nothing(progress_key_of(topic_id)),
        strictly_increasing(world.progress_of(topic_id).completed_steps),
        !world.progress_of(topic_id).completed_steps.contains(step),
        step < usize::MAX,
    ensures
        ({
            let before = world.progress_of(topic_id);
            let after = world.with_store(
                world.serve(begin_post_progress(topic_id)).store,
            ).progress_of(topic_id);
            &&& strictly_increasing(after.completed_steps)
            &&& after.completed_steps.len() == before.completed_steps.len() + 1
            &&& after.completed_steps.to_set() == before.completed_steps.to_set().insert(step)
            &&& after.current_step == step + 1
            &&& after.topic_id == before.topic_id
        }),
{
    lemma_update_records_the_step(world, topic_id, step);
    let before = world.progress_of(topic_id);
    crate::progress::lemma_record_keeps_sorted(before, step);
    crate::progress::lemma_record_adds_the_step(before, step);
    crate::progress::lemma_record_adds_one(before, step);
}

/// A reset stores the empty progress and deletes the conversation,
/// whatever was stored before. A progress query that follows is answered
/// with the empty record, a conversation query with the empty history.
pub proof fn lemma_reset_empties_the_topic(world: World, later: World, topic_id: Seq<char>)
    requires
        known_topic(topic_id),
        later.store == world.serve(begin_reset_progress(topic_id)).store,
    ensures
        world.serve(begin_reset_progress(topic_id)).outcome == Some(
            Ok::<PayloadView, ApiError>(progress_reset(topic_id)),
        ),
        later.store == world.store.insert(
            progress_key_of(topic_id),
            Record::Progress(ProgressView::zero(topic_id)),
        ).remove(conversation_key_of(topic_id)),
        later.serve(begin_get_progress(topic_id)).outcome == Some(
            Ok::<PayloadView, ApiError>(PayloadView::Progress(ProgressView::zero(topic_id))),
        ),
        later.serve(begin_get_conversation(topic_id)).outcome == Some(
            Ok::<PayloadView, ApiError>(
                PayloadView::Conversation(ConversationHistoryView::empty(topic_id)),
            ),
        ),
{
    reveal_with_fuel(World::run, 4);
    lemma_keys_of_a_topic_differ(topic_id);
}

/// A chat message that is blank is refused as bad input, with status 400,
/// and the store stays as it is.
pub proof fn lemma_blank_message_is_refused(world: World, topic_id: Seq<char>, message: Seq<char>)
    requires
        known_topic(topic_id),
        world.chat_message == Some(message),
        is_blank(message),
    ensures
        world.serve(begin_post_chat(topic_id)) == (Served {
            outcome: Some(Err(ApiError::BadInput(BadInput::EmptyMessage))),
            store: world.store,
            writes: 0,
        }),
        ApiError::BadInput(BadInput::EmptyMessage).status_code() == 400,
{
    reveal_with_fuel(World::run, 3);
}

/// One chat turn. Where the provider gives a reply, the reply answers the
/// request, and the conversation with the user's message and the reply
/// appended, cut back to its most recent messages, is stored in one write.
/// Where the provider gives none, the request fails with the provider's
/// error and the store stays as it is: the user's message is not kept.
pub proof fn lemma_chat_turn(world: World, topic_id: Seq<char>, message: Seq<char>)
    requires
        known_topic(topic_id),
        world.chat_message == Some(message),
        !is_blank(message),
        world.holds_conversation_or_nothing(conversation_key_of(topic_id)),
    ensures
        world.serve(begin_post_chat(topic_id)) == (match reply_of(
            world.provider_status,
            world.provider_blocks,
        ) {
            Ok(reply) => Served {
                outcome: Some(Ok(PayloadView::Chat(ChatResponseView { response: reply }))),
                store: world.store.insert(
                    conversation_key_of(topic_id),
                    Record::Conversation(
                        world.conversation_of(topic_id).after_turn(
                            message,
                            world.said_at,
                            reply,
                            world.replied_at,
                        ),
                    ),
                ),
                writes: 1,
            },
            Err(e) => Served {
                outcome: Some(Err(ApiError::Provider(e))),
                store: world.store,
                writes: 0,
            },
        }),
{
    reveal_with_fuel(World::run, 7);
}

/// A chat turn on a stored history of fifty messages leaves fifty messages
/// stored: the two oldest are dropped, the others keep their order, and
/// the user's message and the reply come last.
pub proof fn lemma_chat_turn_on_a_full_history(
    world: World,
    topic_id: Seq<char>,
    message: Seq<char>,
    reply: Seq<char>,
)
    requires
        known_topic(topic_id),
        world.chat_message == Some(message),
        !is_blank(message),
        world.holds_conversation_or_nothing(conversation_key_of(topic_id)),
        world.conversation_of(topic_id).messages.len() == MAX_MESSAGES,
        reply_of(world.provider_status, world.provider_blocks) == Ok::<Seq<char>, ProviderError>(
            reply,
        ),
    ensures
        ({
            let before = world.conversation_of(topic_id).messages;
            let after = world.with_store(
                world.serve(begin_post_chat(topic_id)).store,
            ).conversation_of(topic_id).messages;
            &&& after.len() == MAX_MESSAGES
            &&& after == before.subrange(2, MAX_MESSAGES as int).push(
                user_message(message, world.said_at),
            ).push(assistant_message(reply, world.replied_at))
        }),
{
    lemma_chat_turn(world, topic_id, message);
    crate::conversation::lemma_turn_on_a_full_history(
        world.conversation_of(topic_id),
        message,
        world.said_at,
        reply,
        world.replied_at,
    );
}

} // verus!
