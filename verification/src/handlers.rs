//! The endpoints. Serving a request alternates between decisions, which are
//! made here, and outside work (reading the body, the store, the provider),
//! which the caller does. Each `handle_` function makes the first decision
//! of its endpoint and names the outside work that comes next; `advance`
//! takes what that work gave, and the instant where a message is appended,
//! and makes the next decision, until the request is answered.

use crate::claude::{
    call_claude_api_with_history, check_status, first_reply, is_success, request_for,
    ProviderError,
};
use crate::conversation::{assistant_message, user_message};
use crate::errors::{ApiError, BadInput};
use crate::store::{conversation_key, conversation_key_of, progress_key, progress_key_of};
use crate::text::{is_blank, is_blank_text, same_text};
use crate::topics::{
    all_topics, find_topic, get_all_topics, get_topic, GITHUB_SETUP_ID,
};
use crate::types::{
    ChatMessage, ChatResponse, ChatResponseView, ClaudeRequest, ClaudeRequestView,
    ClaudeResponse, ConversationHistory, ConversationHistoryView, GenericResponse,
    GenericResponseView, Progress, ProgressUpdate, ProgressView, Timestamp,
};
use crate::utils::{outcome_view, Payload, PayloadView};
use vstd::prelude::*;
use vstd::string::StringExecFns;

verus! {

/// What the confirmation of a progress update opens with.
pub const PROGRESS_UPDATED: &'static str = "Progress updated for topic ";

/// What the confirmation of a reset opens with.
pub const PROGRESS_RESET: &'static str = "Progress and conversation reset for topic ";

/// What closes a confirmation, behind the id of the topic.
pub const FULL_STOP: &'static str = ".";

/// Where a request stands while outside work is done for it.
#[derive(Debug)]
pub enum Stage {
    /// The request is answered.
    Done,
    /// A progress update waits for its body.
    ProgressUpdateBody { topic_id: String },
    /// A progress update waits for the stored progress.
    ProgressUpdateLookup { topic_id: String, step: usize },
    /// A progress update waits for the new progress to be stored.
    ProgressUpdateSaved { topic_id: String },
    /// A progress query waits for the stored progress.
    ProgressLookup { topic_id: String },
    /// A chat message waits for its body.
    ChatBody { topic_id: String },
    /// A chat message waits for the stored conversation.
    ChatLookup { topic_id: String, message: String },
    /// A chat message waits for the name of the provider's model.
    ChatModel { topic_id: String, conversation: ConversationHistory },
    /// A chat message waits for the status of the provider's answer.
    ChatStatus { topic_id: String, conversation: ConversationHistory },
    /// A chat message waits for the body of the provider's answer.
    ChatReply { topic_id: String, conversation: ConversationHistory },
    /// A chat message waits for the new conversation to be stored.
    ChatSaved { response: String },
    /// A conversation query waits for the stored conversation.
    ConversationLookup { topic_id: String },
    /// A reset waits for the empty progress to be stored.
    ResetProgressSaved { topic_id: String },
    /// A reset waits for the stored conversation to be deleted.
    ResetConversationDeleted { topic_id: String },
}

/// A stage as plain values.
pub enum StageView {
    Done,
    ProgressUpdateBody { topic_id: Seq<char> },
    ProgressUpdateLookup { topic_id: Seq<char>, step: usize },
    ProgressUpdateSaved { topic_id: Seq<char> },
    ProgressLookup { topic_id: Seq<char> },
    ChatBody { topic_id: Seq<char> },
    ChatLookup { topic_id: Seq<char>, message: Seq<char> },
    ChatModel { topic_id: Seq<char>, conversation: ConversationHistoryView },
    ChatStatus { topic_id: Seq<char>, conversation: ConversationHistoryView },
    ChatReply { topic_id: Seq<char>, conversation: ConversationHistoryView },
    ChatSaved { response: Seq<char> },
    ConversationLookup { topic_id: Seq<char> },
    ResetProgressSaved { topic_id: Seq<char> },
    ResetConversationDeleted { topic_id: Seq<char> },
}

impl View for Stage {
    type V = StageView;

    open spec fn view(&self) -> StageView {
        match self {
            Stage::Done => StageView::Done,
            Stage::ProgressUpdateBody { topic_id } => StageView::ProgressUpdateBody {
                topic_id: topic_id@,
            },
            Stage::ProgressUpdateLookup { topic_id, step } => StageView::ProgressUpdateLookup {
                topic_id: topic_id@,
                step: *step,
            },
            Stage::ProgressUpdateSaved { topic_id } => StageView::ProgressUpdateSaved {
                topic_id: topic_id@,
            },
            Stage::ProgressLookup { topic_id } => StageView::ProgressLookup { topic_id: topic_id@ },
            Stage::ChatBody { topic_id } => StageView::ChatBody { topic_id: topic_id@ },
            Stage::ChatLookup { topic_id, message } => StageView::ChatLookup {
                topic_id: topic_id@,
                message: message@,
            },
            Stage::ChatModel { topic_id, conversation } => StageView::ChatModel {
                topic_id: topic_id@,
                conversation: conversation@,
            },
            Stage::ChatStatus { topic_id, conversation } => StageView::ChatStatus {
                topic_id: topic_id@,
                conversation: conversation@,
            },
            Stage::ChatReply { topic_id, conversation } => StageView::ChatReply {
                topic_id: topic_id@,
                conversation: conversation@,
            },
            Stage::ChatSaved { response } => StageView::ChatSaved { response: response@ },
            Stage::ConversationLookup { topic_id } => StageView::ConversationLookup {
                topic_id: topic_id@,
            },
            Stage::ResetProgressSaved { topic_id } => StageView::ResetProgressSaved {
                topic_id: topic_id@,
            },
            Stage::ResetConversationDeleted { topic_id } => StageView::ResetConversationDeleted {
                topic_id: topic_id@,
            },
        }
    }
}

/// The outside work that a request needs next, or its outcome.
#[derive(Debug)]
pub enum Action {
    /// Read the body of the request as a progress update.
    ReadProgressUpdate,
    /// Read the body of the request as a chat message.
    ReadChatMessage,
    /// Read the progress stored under `key`.
    LoadProgress { key: String },
    /// Read the conversation stored under `key`.
    LoadConversation { key: String },
    /// Store `progress` under `key`, in place of what is there.
    SaveProgress { key: String, progress: Progress },
    /// Store `history` under `key`, in place of what is there.
    SaveConversation { key: String, history: ConversationHistory },
    /// Remove `key` from the store.
    Delete { key: String },
    /// Read which model of the provider the deployment names.
    ReadModel,
    /// Send `request` to the provider.
    CallProvider { request: ClaudeRequest },
    /// Read and decode the body of the provider's answer.
    ReadProviderReply,
    /// Answer the request: nothing is left to do.
    Finish { outcome: Result<Payload, ApiError> },
}

/// An action as plain values.
pub enum ActionView {
    ReadProgressUpdate,
    ReadChatMessage,
    LoadProgress { key: Seq<char> },
    LoadConversation { key: Seq<char> },
    SaveProgress { key: Seq<char>, progress: ProgressView },
    SaveConversation { key: Seq<char>, history: ConversationHistoryView },
    Delete { key: Seq<char> },
    ReadModel,
    CallProvider { request: ClaudeRequestView },
    ReadProviderReply,
    Finish { outcome: Result<PayloadView, ApiError> },
}

impl View for Action {
    type V = ActionView;

    open spec fn view(&self) -> ActionView {
        match self {
            Action::ReadProgressUpdate => ActionView::ReadProgressUpdate,
            Action::ReadChatMessage => ActionView::ReadChatMessage,
            Action::LoadProgress { key } => ActionView::LoadProgress { key: key@ },
            Action::LoadConversation { key } => ActionView::LoadConversation { key: key@ },
            Action::SaveProgress { key, progress } => ActionView::SaveProgress {
                key: key@,
                progress: progress@,
            },
            Action::SaveConversation { key, history } => ActionView::SaveConversation {
                key: key@,
                history: history@,
            },
            Action::Delete { key } => ActionView::Delete { key: key@ },
            Action::ReadModel => ActionView::ReadModel,
            Action::CallProvider { request } => ActionView::CallProvider { request: request@ },
            Action::ReadProviderReply => ActionView::ReadProviderReply,
            Action::Finish { outcome } => ActionView::Finish { outcome: outcome_view(*outcome) },
        }
    }
}

impl StageView {
    /// Whether the decision at this stage appends a message to the
    /// conversation, and so needs the instant at which it is made.
    pub open spec fn appends_a_message(self) -> bool {
        self is ChatLookup || self is ChatReply
    }
}

impl Stage {
    /// Whether the decision at this stage appends a message to the
    /// conversation.
    pub fn appends_a_message(&self) -> (appends: bool)
        ensures
            appends == self@.appends_a_message(),
    {
        match self {
            Stage::ChatLookup { .. } => true,
            Stage::ChatReply { .. } => true,
            _ => false,
        }
    }
}

impl ActionView {
    /// Whether the action changes what is stored.
    pub open spec fn changes_store(self) -> bool {
        self is SaveProgress || self is SaveConversation || self is Delete
    }
}

/// What a piece of outside work gave.
#[derive(Debug)]
pub enum Event {
    /// The body of the request as a progress update, or nothing where it is
    /// no such JSON.
    ProgressUpdateRead(Option<ProgressUpdate>),
    /// The body of the request as a chat message, or nothing where it is no
    /// such JSON.
    ChatMessageRead(Option<ChatMessage>),
    /// The progress found in the store, if any.
    ProgressLoaded(Option<Progress>),
    /// The conversation found in the store, if any.
    ConversationLoaded(Option<ConversationHistory>),
    /// The record was stored.
    Saved,
    /// The key was removed.
    Deleted,
    /// The name of the provider's model, as the deployment gives it.
    ModelRead(String),
    /// The status of the provider's answer, or nothing where the network
    /// call did not complete.
    ProviderStatus(Option<u16>),
    /// The decoded body of the provider's answer, or nothing where it does
    /// not have the expected shape.
    ProviderReply(Option<ClaudeResponse>),
}

/// An event as plain values: what the decisions read of it.
pub enum EventView {
    /// The step that the body reports as completed.
    ProgressUpdateRead(Option<usize>),
    /// The message that the body holds.
    ChatMessageRead(Option<Seq<char>>),
    ProgressLoaded(Option<ProgressView>),
    ConversationLoaded(Option<ConversationHistoryView>),
    Saved,
    Deleted,
    ModelRead(Seq<char>),
    ProviderStatus(Option<u16>),
    /// The text of each content block of the answer.
    ProviderReply(Option<Seq<Seq<char>>>),
}

impl View for Event {
    type V = EventView;

    open spec fn view(&self) -> EventView {
        match self {
            Event::ProgressUpdateRead(body) => EventView::ProgressUpdateRead(
                match body {
                    Some(update) => Some(update.completed_step),
                    None => None,
                },
            ),
            Event::ChatMessageRead(body) => EventView::ChatMessageRead(
                match body {
                    Some(chat) => Some(chat.message@),
                    None => None,
                },
            ),
            Event::ProgressLoaded(stored) => EventView::ProgressLoaded(
                match stored {
                    Some(progress) => Some(progress@),
                    None => None,
                },
            ),
            Event::ConversationLoaded(stored) => EventView::ConversationLoaded(
                match stored {
                    Some(history) => Some(history@),
                    None => None,
                },
            ),
            Event::Saved => EventView::Saved,
            Event::Deleted => EventView::Deleted,
            Event::ModelRead(model) => EventView::ModelRead(model@),
            Event::ProviderStatus(status) => EventView::ProviderStatus(*status),
            Event::ProviderReply(body) => EventView::ProviderReply(
                match body {
                    Some(response) => Some(response.block_texts()),
                    None => None,
                },
            ),
        }
    }
}

/// Whether `topic_id` is one of the known topics: the id of a topic of the
/// catalog.
pub open spec fn known_topic(topic_id: Seq<char>) -> bool {
    find_topic(topic_id) is Some
}

/// The request is answered with `outcome`.
pub open spec fn finished(outcome: Result<PayloadView, ApiError>) -> (StageView, ActionView) {
    (StageView::Done, ActionView::Finish { outcome })
}

/// The request is refused because an event came out of turn.
pub open spec fn out_of_turn() -> (StageView, ActionView) {
    finished(Err(ApiError::OutOfTurn))
}

/// What confirms a progress update.
pub open spec fn progress_updated(topic_id: Seq<char>) -> PayloadView {
    PayloadView::Status(
        GenericResponseView { status: 200, message: PROGRESS_UPDATED@ + topic_id + FULL_STOP@ },
    )
}

/// What confirms a reset.
pub open spec fn progress_reset(topic_id: Seq<char>) -> PayloadView {
    PayloadView::Status(
        GenericResponseView { status: 200, message: PROGRESS_RESET@ + topic_id + FULL_STOP@ },
    )
}

/// The first decision on a request for all topics: it is answered with the
/// catalog.
pub open spec fn begin_get_topics() -> (StageView, ActionView) {
    finished(Ok(PayloadView::Topics(all_topics())))
}

/// The first decision on a request for one topic: it is answered with the
/// topic of the catalog that has the id, or refused.
pub open spec fn begin_get_topic(topic_id: Seq<char>) -> (StageView, ActionView) {
    match find_topic(topic_id) {
        Some(topic) => finished(Ok(PayloadView::Topic(topic))),
        None => finished(Err(ApiError::InvalidTopic)),
    }
}

/// The first decision on a progress update: the body is read next, unless
/// the topic is unknown.
pub open spec fn begin_post_progress(topic_id: Seq<char>) -> (StageView, ActionView) {
    if !known_topic(topic_id) {
        finished(Err(ApiError::InvalidTopic))
    } else {
        (StageView::ProgressUpdateBody { topic_id }, ActionView::ReadProgressUpdate)
    }
}

/// The first decision on a progress query: the stored progress is read
/// next, unless the topic is unknown.
pub open spec fn begin_get_progress(topic_id: Seq<char>) -> (StageView, ActionView) {
    if !known_topic(topic_id) {
        finished(Err(ApiError::InvalidTopic))
    } else {
        (
            StageView::ProgressLookup { topic_id },
            ActionView::LoadProgress { key: progress_key_of(topic_id) },
        )
    }
}

/// The first decision on a chat message: the body is read next, unless the
/// topic is unknown.
pub open spec fn begin_post_chat(topic_id: Seq<char>) -> (StageView, ActionView) {
    if !known_topic(topic_id) {
        finished(Err(ApiError::InvalidTopic))
    } else {
        (StageView::ChatBody { topic_id }, ActionView::ReadChatMessage)
    }
}

/// The first decision on a reset: the empty progress is stored next,
/// unless the topic is unknown.
pub open spec fn begin_reset_progress(topic_id: Seq<char>) -> (StageView, ActionView) {
    if !known_topic(topic_id) {
        finished(Err(ApiError::InvalidTopic))
    } else {
        (
            StageView::ResetProgressSaved { topic_id },
            ActionView::SaveProgress {
                key: progress_key_of(topic_id),
                progress: ProgressView::zero(topic_id),
            },
        )
    }
}

/// The first decision on a conversation query: the stored conversation is
/// read next, unless the topic is unknown.
pub open spec fn begin_get_conversation(topic_id: Seq<char>) -> (StageView, ActionView) {
    if !known_topic(topic_id) {
        finished(Err(ApiError::InvalidTopic))
    } else {
        (
            StageView::ConversationLookup { topic_id },
            ActionView::LoadConversation { key: conversation_key_of(topic_id) },
        )
    }
}

/// The body of a progress update was read. A body that is no progress
/// update is refused; else the stored progress is read next.
pub open spec fn on_progress_update_read(topic_id: Seq<char>, body: Option<usize>) -> (
    StageView,
    ActionView,
) {
    match body {
        None => finished(Err(ApiError::BadInput(BadInput::MalformedJson))),
        Some(step) => (
            StageView::ProgressUpdateLookup { topic_id, step },
            ActionView::LoadProgress { key: progress_key_of(topic_id) },
        ),
    }
}

/// The stored progress was read for an update. Where the step is completed
/// already the update is confirmed and nothing is stored. A step that is
/// not completed and has no successor on this machine is refused, and
/// nothing is stored. Else the record with the step is stored next. A
/// topic without stored progress has the empty record.
pub open spec fn on_progress_loaded_for_update(
    topic_id: Seq<char>,
    step: usize,
    stored: Option<ProgressView>,
) -> (StageView, ActionView) {
    let progress = match stored {
        Some(found) => found,
        None => ProgressView::zero(topic_id),
    };
    if progress.completed_steps.contains(step) {
        finished(Ok(progress_updated(topic_id)))
    } else if step == usize::MAX {
        finished(Err(ApiError::BadInput(BadInput::MalformedJson)))
    } else {
        (
            StageView::ProgressUpdateSaved { topic_id },
            ActionView::SaveProgress {
                key: progress_key_of(topic_id),
                progress: progress.record(step),
            },
        )
    }
}

/// The stored progress was read for a query, which is answered with it, or
/// with the empty record where nothing is stored.
pub open spec fn on_progress_loaded(topic_id: Seq<char>, stored: Option<ProgressView>) -> (
    StageView,
    ActionView,
) {
    finished(
        Ok(
            PayloadView::Progress(
                match stored {
                    Some(found) => found,
                    None => ProgressView::zero(topic_id),
                },
            ),
        ),
    )
}

/// The body of a chat message was read. A body that is no chat message, or
/// whose message is blank, is refused; else the stored conversation is
/// read next.
pub open spec fn on_chat_message_read(topic_id: Seq<char>, body: Option<Seq<char>>) -> (
    StageView,
    ActionView,
) {
    match body {
        None => finished(Err(ApiError::BadInput(BadInput::MalformedJson))),
        Some(message) => if is_blank(message) {
            finished(Err(ApiError::BadInput(BadInput::EmptyMessage)))
        } else {
            (
                StageView::ChatLookup { topic_id, message },
                ActionView::LoadConversation { key: conversation_key_of(topic_id) },
            )
        },
    }
}

/// The stored conversation was read for a chat message. The message is
/// appended to it as the user's, and the name of the provider's model is
/// read next.
pub open spec fn on_conversation_loaded_for_chat(
    topic_id: Seq<char>,
    message: Seq<char>,
    stored: Option<ConversationHistoryView>,
    now: Timestamp,
) -> (StageView, ActionView) {
    let conversation = match stored {
        Some(found) => found,
        None => ConversationHistoryView::empty(topic_id),
    }.with_message(user_message(message, now));
    (StageView::ChatModel { topic_id, conversation }, ActionView::ReadModel)
}

/// The name of the provider's model was read. That model is asked to
/// continue the whole conversation.
pub open spec fn on_model_read(
    topic_id: Seq<char>,
    conversation: ConversationHistoryView,
    model: Seq<char>,
) -> (StageView, ActionView) {
    (
        StageView::ChatStatus { topic_id, conversation },
        ActionView::CallProvider { request: request_for(conversation.messages, topic_id, model) },
    )
}

/// The provider's status came in. The body is read next where the status
/// is a success; else the chat fails and nothing is stored.
pub open spec fn on_provider_status(
    topic_id: Seq<char>,
    conversation: ConversationHistoryView,
    status: Option<u16>,
) -> (StageView, ActionView) {
    match status {
        None => finished(Err(ApiError::Provider(ProviderError::TransportError))),
        Some(code) => if is_success(code) {
            (StageView::ChatReply { topic_id, conversation }, ActionView::ReadProviderReply)
        } else {
            finished(Err(ApiError::Provider(ProviderError::UpstreamError { status: code })))
        },
    }
}

/// The provider's body came in. Its first block is the reply: it is
/// appended to the conversation as the assistant's, the conversation is
/// cut back to its most recent messages and stored next. A body that
/// could not be decoded or holds no block fails the chat, and nothing is
/// stored.
pub open spec fn on_provider_reply(
    topic_id: Seq<char>,
    conversation: ConversationHistoryView,
    blocks: Option<Seq<Seq<char>>>,
    now: Timestamp,
) -> (StageView, ActionView) {
    match blocks {
        None => finished(Err(ApiError::Provider(ProviderError::DecodeError))),
        Some(texts) => if texts.len() == 0 {
            finished(Err(ApiError::Provider(ProviderError::EmptyReply)))
        } else {
            (
                StageView::ChatSaved { response: texts[0] },
                ActionView::SaveConversation {
                    key: conversation_key_of(topic_id),
                    history: conversation.with_message(
                        assistant_message(texts[0], now),
                    ).keep_recent(),
                },
            )
        },
    }
}

/// The decision that follows `event` at `stage`, made at the instant
/// `now`: the new stage, and the outside work that comes next or the
/// outcome. An event that the stage does not wait for ends the request.
pub open spec fn transition(stage: StageView, event: EventView, now: Timestamp) -> (
    StageView,
    ActionView,
) {
    match (stage, event) {
        (StageView::ProgressUpdateBody { topic_id }, EventView::ProgressUpdateRead(body)) => {
            on_progress_update_read(topic_id, body)
        },
        (StageView::ProgressUpdateLookup { topic_id, step }, EventView::ProgressLoaded(stored)) => {
            on_progress_loaded_for_update(topic_id, step, stored)
        },
        (StageView::ProgressUpdateSaved { topic_id }, EventView::Saved) => finished(
            Ok(progress_updated(topic_id)),
        ),
        (StageView::ProgressLookup { topic_id }, EventView::ProgressLoaded(stored)) => {
            on_progress_loaded(topic_id, stored)
        },
        (StageView::ChatBody { topic_id }, EventView::ChatMessageRead(body)) => {
            on_chat_message_read(topic_id, body)
        },
        (StageView::ChatLookup { topic_id, message }, EventView::ConversationLoaded(stored)) => {
            on_conversation_loaded_for_chat(topic_id, message, stored, now)
        },
        (StageView::ChatModel { topic_id, conversation }, EventView::ModelRead(model)) => {
            on_model_read(topic_id, conversation, model)
        },
        (StageView::ChatStatus { topic_id, conversation }, EventView::ProviderStatus(status)) => {
            on_provider_status(topic_id, conversation, status)
        },
        (StageView::ChatReply { topic_id, conversation }, EventView::ProviderReply(blocks)) => {
            on_provider_reply(topic_id, conversation, blocks, now)
        },
        (StageView::ChatSaved { response }, EventView::Saved) => finished(
            Ok(PayloadView::Chat(ChatResponseView { response })),
        ),
        (StageView::ConversationLookup { topic_id }, EventView::ConversationLoaded(stored)) => {
            finished(
                Ok(
                    PayloadView::Conversation(
                        match stored {
                            Some(found) => found,
                            None => ConversationHistoryView::empty(topic_id),
                        },
                    ),
                ),
            )
        },
        (StageView::ResetProgressSaved { topic_id }, EventView::Saved) => (
            StageView::ResetConversationDeleted { topic_id },
            ActionView::Delete { key: conversation_key_of(topic_id) },
        ),
        (StageView::ResetConversationDeleted { topic_id }, EventView::Deleted) => finished(
            Ok(progress_reset(topic_id)),
        ),
        _ => out_of_turn(),
    }
}

/// The decision that follows `event` at `stage` where the instant may be
/// missing. Without an instant no message can be appended: at the two
/// stages that append one the request ends as out of turn. At every other
/// stage the decision is the one of `transition`, which there does not
/// depend on the instant.
pub open spec fn transition_with(stage: StageView, event: EventView, now: Option<Timestamp>) -> (
    StageView,
    ActionView,
) {
    match now {
        Some(at) => transition(stage, event, at),
        None => if stage.appends_a_message() {
            out_of_turn()
        } else {
            transition(stage, event, Timestamp { secs: 0, nanos: 0 })
        },
    }
}

/// The instant matters only where a message is appended: at every other
/// stage the decision is the same whatever the clock shows.
pub proof fn lemma_instant_is_read_only_to_append(
    stage: StageView,
    event: EventView,
    one: Timestamp,
    other: Timestamp,
)
    requires
        !stage.appends_a_message(),
    ensures
        transition(stage, event, one) == transition(stage, event, other),
{
}

/// Whether `topic_id` is the id of a topic of the catalog.
pub fn topic_exists(topic_id: &str) -> (known: bool)
    ensures
        known == known_topic(topic_id@),
{
    same_text(topic_id, GITHUB_SETUP_ID)
}

/// Ends a request with `outcome`.
fn finish(outcome: Result<Payload, ApiError>) -> (next: (Stage, Action))
    ensures
        (next.0@, next.1@) == finished(outcome_view(outcome)),
{
    (Stage::Done, Action::Finish { outcome })
}

/// The confirmation that opens with `opening` and names the topic.
fn confirmation(opening: &str, topic_id: &str) -> (payload: Payload)
    ensures
        payload@ == PayloadView::Status(
            GenericResponseView { status: 200, message: opening@ + topic_id@ + FULL_STOP@ },
        ),
{
    let message = String::from_str(opening).concat(topic_id).concat(FULL_STOP);
    Payload::Status(GenericResponse { status: 200, message })
}

/// Serves a request for all topics.
pub fn handle_get_topics() -> (next: (Stage, Action))
    ensures
        (next.0@, next.1@) == begin_get_topics(),
{
    finish(Ok(Payload::Topics(get_all_topics())))
}

/// Serves a request for the topic with the given id.
pub fn handle_get_topic(topic_id: &str) -> (next: (Stage, Action))
    ensures
        (next.0@, next.1@) == begin_get_topic(topic_id@),
{
    match get_topic(topic_id) {
        Some(topic) => finish(Ok(Payload::Topic(topic))),
        None => finish(Err(ApiError::InvalidTopic)),
    }
}

/// Begins to serve a progress update for the topic with the given id.
pub fn handle_post_progress(topic_id: &str) -> (next: (Stage, Action))
    ensures
        (next.0@, next.1@) == begin_post_progress(topic_id@),
{
    if !topic_exists(topic_id) {
        return finish(Err(ApiError::InvalidTopic));
    }
    (Stage::ProgressUpdateBody { topic_id: topic_id.to_owned() }, Action::ReadProgressUpdate)
}

/// Begins to serve a progress query for the topic with the given id.
pub fn handle_get_progress(topic_id: &str) -> (next: (Stage, Action))
    ensures
        (next.0@, next.1@) == begin_get_progress(topic_id@),
{
    if !topic_exists(topic_id) {
        return finish(Err(ApiError::InvalidTopic));
    }
    (
        Stage::ProgressLookup { topic_id: topic_id.to_owned() },
        Action::LoadProgress { key: progress_key(topic_id) },
    )
}

/// Begins to serve a chat message on the topic with the given id.
pub fn handle_post_chat(topic_id: &str) -> (next: (Stage, Action))
    ensures
        (next.0@, next.1@) == begin_post_chat(topic_id@),
{
    if !topic_exists(topic_id) {
        return finish(Err(ApiError::InvalidTopic));
    }
    (Stage::ChatBody { topic_id: topic_id.to_owned() }, Action::ReadChatMessage)
}

/// Begins to reset the progress and the conversation of the topic with the
/// given id.
pub fn handle_reset_progress(topic_id: &str) -> (next: (Stage, Action))
    ensures
        (next.0@, next.1@) == begin_reset_progress(topic_id@),
{
    if !topic_exists(topic_id) {
        return finish(Err(ApiError::InvalidTopic));
    }
    (
        Stage::ResetProgressSaved { topic_id: topic_id.to_owned() },
        Action::SaveProgress { key: progress_key(topic_id), progress: Progress::new(topic_id) },
    )
}

/// Begins to serve a conversation query for the topic with the given id.
pub fn handle_get_conversation(topic_id: &str) -> (next: (Stage, Action))
    ensures
        (next.0@, next.1@) == begin_get_conversation(topic_id@),
{
    if !topic_exists(topic_id) {
        return finish(Err(ApiError::InvalidTopic));
    }
    (
        Stage::ConversationLookup { topic_id: topic_id.to_owned() },
        Action::LoadConversation { key: conversation_key(topic_id) },
    )
}

/// Decides on the body of a progress update.
fn progress_update_read(topic_id: String, body: Option<ProgressUpdate>) -> (next: (Stage, Action))
    ensures
        (next.0@, next.1@) == on_progress_update_read(
            topic_id@,
            match body {
                Some(update) => Some(update.completed_step),
                None => None,
            },
        ),
{
    match body {
        None => finish(Err(ApiError::BadInput(BadInput::MalformedJson))),
        Some(update) => {
            let key = progress_key(topic_id.as_str());
            (
                Stage::ProgressUpdateLookup { topic_id, step: update.completed_step },
                Action::LoadProgress { key },
            )
        },
    }
}

/// Decides on the progress that was read for an update.
fn progress_loaded_for_update(topic_id: String, step: usize, stored: Option<Progress>) -> (next: (
    Stage,
    Action,
))
    ensures
        (next.0@, next.1@) == on_progress_loaded_for_update(
            topic_id@,
            step,
            match stored {
                Some(progress) => Some(progress@),
                None => None,
            },
        ),
{
    let mut progress = match stored {
        Some(found) => found,
        None => Progress::new(topic_id.as_str()),
    };
    if step == usize::MAX && !progress.has_completed(step) {
        finish(Err(ApiError::BadInput(BadInput::MalformedJson)))
    } else if progress.record_completed_step(step) {
        let key = progress_key(topic_id.as_str());
        (Stage::ProgressUpdateSaved { topic_id }, Action::SaveProgress { key, progress })
    } else {
        finish(Ok(confirmation(PROGRESS_UPDATED, topic_id.as_str())))
    }
}

/// Answers a progress query with the progress that was read.
fn progress_loaded(topic_id: String, stored: Option<Progress>) -> (next: (Stage, Action))
    ensures
        (next.0@, next.1@) == on_progress_loaded(
            topic_id@,
            match stored {
                Some(progress) => Some(progress@),
                None => None,
            },
        ),
{
    let progress = match stored {
        Some(found) => found,
        None => Progress::new(topic_id.as_str()),
    };
    finish(Ok(Payload::Progress(progress)))
}

/// Decides on the body of a chat message.
fn chat_message_read(topic_id: String, body: Option<ChatMessage>) -> (next: (Stage, Action))
    ensures
        (next.0@, next.1@) == on_chat_message_read(
            topic_id@,
            match body {
                Some(chat) => Some(chat.message@),
                None => None,
            },
        ),
{
    match body {
        None => finish(Err(ApiError::BadInput(BadInput::MalformedJson))),
        Some(chat) => {
            if is_blank_text(chat.message.as_str()) {
                finish(Err(ApiError::BadInput(BadInput::EmptyMessage)))
            } else {
                let key = conversation_key(topic_id.as_str());
                (
                    Stage::ChatLookup { topic_id, message: chat.message },
                    Action::LoadConversation { key },
                )
            }
        },
    }
}

/// Appends the user's message to the conversation that was read.
fn conversation_loaded_for_chat(
    topic_id: String,
    message: String,
    stored: Option<ConversationHistory>,
    now: Timestamp,
) -> (next: (Stage, Action))
    ensures
        (next.0@, next.1@) == on_conversation_loaded_for_chat(
            topic_id@,
            message@,
            match stored {
                Some(history) => Some(history@),
                None => None,
            },
            now,
        ),
{
    let mut conversation = match stored {
        Some(found) => found,
        None => ConversationHistory::new(topic_id.as_str()),
    };
    conversation.push_user_message(message.as_str(), now);
    (Stage::ChatModel { topic_id, conversation }, Action::ReadModel)
}

/// Builds the request to the model that was named.
fn model_read(topic_id: String, conversation: ConversationHistory, model: String) -> (next: (
    Stage,
    Action,
))
    ensures
        (next.0@, next.1@) == on_model_read(topic_id@, conversation@, model@),
{
    let request = call_claude_api_with_history(
        conversation.messages.as_slice(),
        topic_id.as_str(),
        model.as_str(),
    );
    (Stage::ChatStatus { topic_id, conversation }, Action::CallProvider { request })
}

/// Decides on the status of the provider's answer.
fn provider_status(topic_id: String, conversation: ConversationHistory, status: Option<u16>) -> (next:
    (Stage, Action))
    ensures
        (next.0@, next.1@) == on_provider_status(topic_id@, conversation@, status),
{
    match status {
        None => finish(Err(ApiError::Provider(ProviderError::TransportError))),
        Some(code) => match check_status(code) {
            Ok(_) => (Stage::ChatReply { topic_id, conversation }, Action::ReadProviderReply),
            Err(e) => finish(Err(ApiError::Provider(e))),
        },
    }
}

/// Decides on the body of the provider's answer.
fn provider_reply(
    topic_id: String,
    conversation: ConversationHistory,
    body: Option<ClaudeResponse>,
    now: Timestamp,
) -> (next: (Stage, Action))
    ensures
        (next.0@, next.1@) == on_provider_reply(
            topic_id@,
            conversation@,
            match body {
                Some(response) => Some(response.block_texts()),
                None => None,
            },
            now,
        ),
{
    match body {
        None => finish(Err(ApiError::Provider(ProviderError::DecodeError))),
        Some(response) => match first_reply(&response) {
            Err(e) => finish(Err(ApiError::Provider(e))),
            Ok(text) => {
                let mut conversation = conversation;
                conversation.push_assistant_message(text.as_str(), now);
                conversation.keep_recent();
                let key = conversation_key(topic_id.as_str());
                (
                    Stage::ChatSaved { response: text },
                    Action::SaveConversation { key, history: conversation },
                )
            },
        },
    }
}

/// Answers a conversation query with the conversation that was read.
fn conversation_loaded(topic_id: String, stored: Option<ConversationHistory>) -> (next: (
    Stage,
    Action,
))
    ensures
        (next.0@, next.1@) == finished(
            Ok(
                PayloadView::Conversation(
                    match stored {
                        Some(history) => history@,
                        None => ConversationHistoryView::empty(topic_id@),
                    },
                ),
            ),
        ),
{
    let conversation = match stored {
        Some(found) => found,
        None => ConversationHistory::new(topic_id.as_str()),
    };
    finish(Ok(Payload::Conversation(conversation)))
}

/// Makes the decision that follows `event` at `stage`, with `now` as the
/// instant at which it is made.
pub fn advance_at(stage: Stage, event: Event, now: Timestamp) -> (next: (Stage, Action))
    ensures
        (next.0@, next.1@) == transition(stage@, event@, now),
{
    match stage {
        Stage::ProgressUpdateBody { topic_id } => match event {
            Event::ProgressUpdateRead(body) => progress_update_read(topic_id, body),
            _ => finish(Err(ApiError::OutOfTurn)),
        },
        Stage::ProgressUpdateLookup { topic_id, step } => match event {
            Event::ProgressLoaded(stored) => progress_loaded_for_update(topic_id, step, stored),
            _ => finish(Err(ApiError::OutOfTurn)),
        },
        Stage::ProgressUpdateSaved { topic_id } => match event {
            Event::Saved => finish(Ok(confirmation(PROGRESS_UPDATED, topic_id.as_str()))),
            _ => finish(Err(ApiError::OutOfTurn)),
        },
        Stage::ProgressLookup { topic_id } => match event {
            Event::ProgressLoaded(stored) => progress_loaded(topic_id, stored),
            _ => finish(Err(ApiError::OutOfTurn)),
        },
        Stage::ChatBody { topic_id } => match event {
            Event::ChatMessageRead(body) => chat_message_read(topic_id, body),
            _ => finish(Err(ApiError::OutOfTurn)),
        },
        Stage::ChatLookup { topic_id, message } => match event {
            Event::ConversationLoaded(stored) => conversation_loaded_for_chat(
                topic_id,
                message,
                stored,
                now,
            ),
            _ => finish(Err(ApiError::OutOfTurn)),
        },
        Stage::ChatModel { topic_id, conversation } => match event {
            Event::ModelRead(model) => model_read(topic_id, conversation, model),
            _ => finish(Err(ApiError::OutOfTurn)),
        },
        Stage::ChatStatus { topic_id, conversation } => match event {
            Event::ProviderStatus(status) => provider_status(topic_id, conversation, status),
            _ => finish(Err(ApiError::OutOfTurn)),
        },
        Stage::ChatReply { topic_id, conversation } => match event {
            Event::ProviderReply(body) => provider_reply(topic_id, conversation, body, now),
            _ => finish(Err(ApiError::OutOfTurn)),
        },
        Stage::ChatSaved { response } => match event {
            Event::Saved => finish(Ok(Payload::Chat(ChatResponse { response }))),
            _ => finish(Err(ApiError::OutOfTurn)),
        },
        Stage::ConversationLookup { topic_id } => match event {
            Event::ConversationLoaded(stored) => conversation_loaded(topic_id, stored),
            _ => finish(Err(ApiError::OutOfTurn)),
        },
        Stage::ResetProgressSaved { topic_id } => match event {
            Event::Saved => {
                let key = conversation_key(topic_id.as_str());
                (Stage::ResetConversationDeleted { topic_id }, Action::Delete { key })
            },
            _ => finish(Err(ApiError::OutOfTurn)),
        },
        Stage::ResetConversationDeleted { topic_id } => match event {
            Event::Deleted => finish(Ok(confirmation(PROGRESS_RESET, topic_id.as_str()))),
            _ => finish(Err(ApiError::OutOfTurn)),
        },
        Stage::Done => finish(Err(ApiError::OutOfTurn)),
    }
}

/// Makes the decision that follows `event` at `stage`. The caller reads
/// the clock where `stage` appends a message and hands the instant in; at
/// every other stage it hands in nothing, or an instant that is not read.
pub fn advance(stage: Stage, event: Event, now: Option<Timestamp>) -> (next: (Stage, Action))
    ensures
        (next.0@, next.1@) == transition_with(stage@, event@, now),
{
    match now {
        Some(at) => advance_at(stage, event, at),
        None => {
            if stage.appends_a_message() {
                finish(Err(ApiError::OutOfTurn))
            } else {
                advance_at(stage, event, Timestamp { secs: 0, nanos: 0 })
            }
        },
    }
}

} // verus!
