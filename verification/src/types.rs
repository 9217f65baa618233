//! The data structures of the learning backend, each with the mathematical
//! view that the contracts of the other modules speak of.

use vstd::prelude::*;

verus! {

/// The text of every string of a sequence, in order.
pub open spec fn texts(strings: Seq<String>) -> Seq<Seq<char>> {
    strings.map_values(|s: String| s@)
}

/// A single step within a learning topic. Its position in the topic's list
/// of steps is its identity.
#[derive(Debug)]
pub struct Step {
    /// Title of the step
    pub title: String,
    /// Prompt to be sent to the chat provider for this step
    pub prompt: String,
    /// Suggested questions for this step
    pub suggested_questions: Vec<String>,
}

/// A step as plain text.
pub struct StepView {
    pub title: Seq<char>,
    pub prompt: Seq<char>,
    pub suggested_questions: Seq<Seq<char>>,
}

impl View for Step {
    type V = StepView;

    open spec fn view(&self) -> StepView {
        StepView {
            title: self.title@,
            prompt: self.prompt@,
            suggested_questions: texts(self.suggested_questions@),
        }
    }
}

/// A learning topic: fixed content, looked up by `id`.
#[derive(Debug)]
pub struct Topic {
    /// Unique identifier for the topic
    pub id: String,
    /// Title of the topic
    pub title: String,
    /// Brief description of the topic
    pub description: String,
    /// The steps of the topic, in order
    pub steps: Vec<Step>,
    /// Initial message to be displayed when the topic is started
    pub initial_message: String,
}

/// A topic as plain text.
pub struct TopicView {
    pub id: Seq<char>,
    pub title: Seq<char>,
    pub description: Seq<char>,
    pub steps: Seq<StepView>,
    pub initial_message: Seq<char>,
}

impl View for Topic {
    type V = TopicView;

    open spec fn view(&self) -> TopicView {
        TopicView {
            id: self.id@,
            title: self.title@,
            description: self.description@,
            steps: self.steps@.map_values(|s: Step| s@),
            initial_message: self.initial_message@,
        }
    }
}

/// The view of every topic of a sequence, in order.
pub open spec fn topic_views(topics: Seq<Topic>) -> Seq<TopicView> {
    topics.map_values(|t: Topic| t@)
}

/// A status and a short message: the body of the answers that carry no
/// other data.
#[derive(Debug)]
pub struct GenericResponse {
    /// HTTP status code
    pub status: u16,
    /// Response message
    pub message: String,
}

/// A status and its message as plain text.
pub struct GenericResponseView {
    pub status: u16,
    pub message: Seq<char>,
}

impl View for GenericResponse {
    type V = GenericResponseView;

    open spec fn view(&self) -> GenericResponseView {
        GenericResponseView { status: self.status, message: self.message@ }
    }
}

/// The body of a progress update: the step that was completed.
#[derive(Debug)]
pub struct ProgressUpdate {
    /// The step that was completed
    pub completed_step: usize,
    /// Optional flag to reset progress
    pub reset: Option<bool>,
}

/// Which steps of a topic are completed. There is one record per topic.
#[derive(Debug, Clone)]
pub struct Progress {
    /// The ID of the topic
    pub topic_id: String,
    /// The indices of the completed steps
    pub completed_steps: Vec<usize>,
    /// The step the user is on
    pub current_step: usize,
}

/// A progress record as plain values.
pub struct ProgressView {
    pub topic_id: Seq<char>,
    pub completed_steps: Seq<usize>,
    pub current_step: usize,
}

impl View for Progress {
    type V = ProgressView;

    open spec fn view(&self) -> ProgressView {
        ProgressView {
            topic_id: self.topic_id@,
            completed_steps: self.completed_steps@,
            current_step: self.current_step,
        }
    }
}

/// An instant: whole seconds since 1970-01-01 00:00:00 UTC, and the
/// nanoseconds since the last second boundary.
#[derive(Debug, Clone, Copy, PartialEq, Eq)]
pub struct Timestamp {
    pub secs: i64,
    pub nanos: u32,
}

/// A single message of a conversation, with the instant at which it was
/// appended.
#[derive(Debug, Clone)]
pub struct TimestampedChatMessage {
    /// The role of the message sender ("user" or "assistant")
    pub role: String,
    /// The content of the message
    pub content: String,
    /// When the message was sent or received
    pub timestamp: Timestamp,
}

/// A message as plain text, with its instant.
pub struct TimestampedChatMessageView {
    pub role: Seq<char>,
    pub content: Seq<char>,
    pub timestamp: Timestamp,
}

impl View for TimestampedChatMessage {
    type V = TimestampedChatMessageView;

    open spec fn view(&self) -> TimestampedChatMessageView {
        TimestampedChatMessageView {
            role: self.role@,
            content: self.content@,
            timestamp: self.timestamp,
        }
    }
}

/// The view of every message of a sequence, in order.
pub open spec fn message_views(messages: Seq<TimestampedChatMessage>) -> Seq<
    TimestampedChatMessageView,
> {
    messages.map_values(|m: TimestampedChatMessage| m@)
}

/// The chat turns of one topic, oldest first. There is one history per topic.
#[derive(Debug, Clone)]
pub struct ConversationHistory {
    /// The ID of the topic this conversation belongs to
    pub topic_id: String,
    /// The messages of the conversation, in the order in which they were appended
    pub messages: Vec<TimestampedChatMessage>,
}

/// A conversation history as plain values.
pub struct ConversationHistoryView {
    pub topic_id: Seq<char>,
    pub messages: Seq<TimestampedChatMessageView>,
}

impl View for ConversationHistory {
    type V = ConversationHistoryView;

    open spec fn view(&self) -> ConversationHistoryView {
        ConversationHistoryView {
            topic_id: self.topic_id@,
            messages: message_views(self.messages@),
        }
    }
}

/// A chat message sent by the user.
#[derive(Debug)]
pub struct ChatMessage {
    /// The content of the message
    pub message: String,
}

/// The answer to a chat message.
#[derive(Debug)]
pub struct ChatResponse {
    /// The reply of the provider
    pub response: String,
}

/// The answer to a chat message as plain text.
pub struct ChatResponseView {
    pub response: Seq<char>,
}

impl View for ChatResponse {
    type V = ChatResponseView;

    open spec fn view(&self) -> ChatResponseView {
        ChatResponseView { response: self.response@ }
    }
}

/// A single message of a request to the provider.
#[derive(Debug)]
pub struct ClaudeMessage {
    /// The role of the message sender ("user" or "assistant")
    pub role: String,
    /// The content of the message
    pub content: String,
    /// The name of the message sender (optional)
    pub name: Option<String>,
}

/// A message of a request to the provider as plain text.
pub struct ClaudeMessageView {
    pub role: Seq<char>,
    pub content: Seq<char>,
    pub name: Option<Seq<char>>,
}

impl View for ClaudeMessage {
    type V = ClaudeMessageView;

    open spec fn view(&self) -> ClaudeMessageView {
        ClaudeMessageView {
            role: self.role@,
            content: self.content@,
            name: match self.name {
                Some(n) => Some(n@),
                None => None,
            },
        }
    }
}

/// A request to the provider.
#[derive(Debug)]
pub struct ClaudeRequest {
    /// The model to use for generation
    pub model: String,
    /// Maximum number of tokens to generate
    pub max_tokens: u32,
    /// The conversation so far, the new message last
    pub messages: Vec<ClaudeMessage>,
    /// The system prompt that sets the context of the conversation
    pub system: Option<String>,
}

/// A request to the provider as plain values.
pub struct ClaudeRequestView {
    pub model: Seq<char>,
    pub max_tokens: u32,
    pub messages: Seq<ClaudeMessageView>,
    pub system: Option<Seq<char>>,
}

impl View for ClaudeRequest {
    type V = ClaudeRequestView;

    open spec fn view(&self) -> ClaudeRequestView {
        ClaudeRequestView {
            model: self.model@,
            max_tokens: self.max_tokens,
            messages: self.messages@.map_values(|m: ClaudeMessage| m@),
            system: match self.system {
                Some(s) => Some(s@),
                None => None,
            },
        }
    }
}

/// One block of content of the provider's answer.
#[derive(Debug)]
pub struct ClaudeContent {
    /// The generated text
    pub text: String,
    /// The type of the content
    pub content_type: String,
}

/// The usage statistics of one call to the provider.
#[derive(Debug)]
pub struct ClaudeUsage {
    /// Number of input tokens
    pub input_tokens: u32,
    /// Number of output tokens
    pub output_tokens: u32,
}

/// The provider's answer.
#[derive(Debug)]
pub struct ClaudeResponse {
    /// The generated content
    pub content: Vec<ClaudeContent>,
    /// Unique identifier for the response
    pub id: String,
    /// The model used for generation
    pub model: String,
    /// The role of the response (typically "assistant")
    pub role: String,
    /// The reason why the generation stopped
    pub stop_reason: Option<String>,
    /// The stop sequence that ended the generation, if any
    pub stop_sequence: Option<String>,
    /// The type of the response
    pub response_type: String,
    /// Usage statistics for the call
    pub usage: ClaudeUsage,
}

impl ClaudeResponse {
    /// The text of every content block, in order: all that the backend
    /// reads of an answer.
    pub open spec fn block_texts(&self) -> Seq<Seq<char>> {
        self.content@.map_values(|c: ClaudeContent| c.text@)
    }
}

} // verus!
