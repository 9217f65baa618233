//! The provider adapter: what is sent to the chat provider for a stored
//! conversation, and what its answer is taken to say.

use crate::types::{
    message_views, ClaudeMessage, ClaudeMessageView, ClaudeRequest,
    ClaudeRequestView, ClaudeResponse, TimestampedChatMessage, TimestampedChatMessageView,
};
use vstd::prelude::*;
use vstd::string::StringExecFns;

verus! {

/// Where the provider takes requests.
pub const API_URL: &'static str = "https://api.anthropic.com/v1/messages";

/// The version of the provider's interface that the requests are written for.
pub const API_VERSION: &'static str = "2023-06-01";

/// The budget of output tokens of every request.
pub const MAX_TOKENS: u32 = 1024;

/// The persona and the guardrails that every system prompt opens with. The
/// id of the topic follows.
pub const SYSTEM_PROMPT: &'static str = "You are an AI assistant for a DevOps learning platform. Your role is to provide expert guidance and assistance on DevOps topics including:

    - Version control with Git
    - Continuous Integration and Continuous Delivery (CI/CD)
    - Container technologies like Docker
    - Container orchestration with Kubernetes
    - Infrastructure as Code (IaC)
    - Cloud platforms and services
    - Monitoring and observability
    - DevOps best practices and methodologies

    Respond to user queries with accurate, up-to-date information on these topics. Provide explanations, examples, and step-by-step instructions when appropriate. If asked about a specific tool or technology, include details on its purpose, key features, and common use cases in DevOps workflows.

    Important guidelines:

    1. Only answer questions related to DevOps topics. If a user asks about an unrelated subject, politely redirect them to DevOps-relevant questions.

    2. Do not provide any information on bypassing security measures, hacking, or unauthorized system access.

    3. If asked to perform actions outside your capabilities (e.g. executing code, accessing external systems), explain that you're a text-based assistant focused on providing DevOps knowledge.

    4. Do not share personal information about real individuals or disclose sensitive details about specific organizations.

    5. If unsure about an answer, acknowledge your uncertainty and suggest reliable resources for further information.

    6. Encourage best practices for security, scalability, and efficiency in DevOps processes.

    7. When discussing tools or platforms, maintain a neutral stance and focus on technical merits rather than promoting specific products.

    Your goal is to help users learn and apply DevOps concepts effectively while maintaining a secure and focused learning environment.

    The current topic of discussion is: ";

/// Why a call to the provider gave no reply.
#[derive(Debug, Clone, Copy, PartialEq, Eq, Structural)]
pub enum ProviderError {
    /// The network call could not complete.
    TransportError,
    /// The provider answered with a status that is not a success.
    UpstreamError { status: u16 },
    /// The body of the answer does not have the expected shape.
    DecodeError,
    /// The answer holds no content block.
    EmptyReply,
}

/// What the provider is sent of one stored message: its role and content,
/// without its timestamp.
pub open spec fn provider_message(message: TimestampedChatMessageView) -> ClaudeMessageView {
    ClaudeMessageView { role: message.role, content: message.content, name: None }
}

/// The system prompt of a topic: the fixed text, then the topic's id.
pub open spec fn system_prompt_for(topic: Seq<char>) -> Seq<char> {
    SYSTEM_PROMPT@ + topic
}

/// The request that is sent for a conversation on `topic`: the model that
/// the caller names, the fixed token budget, every message in order, and
/// the topic's system prompt.
pub open spec fn request_for(
    messages: Seq<TimestampedChatMessageView>,
    topic: Seq<char>,
    model: Seq<char>,
) -> ClaudeRequestView {
    ClaudeRequestView {
        model,
        max_tokens: MAX_TOKENS,
        messages: messages.map_values(|m: TimestampedChatMessageView| provider_message(m)),
        system: Some(system_prompt_for(topic)),
    }
}

/// Whether a status of the provider's answer is a success.
pub open spec fn is_success(status: u16) -> bool {
    200 <= status < 300
}

/// What one call to the provider comes to. `status` is the status of its
/// answer, or nothing where the network call did not complete; `blocks` is
/// the text of each content block of the body, or nothing where the body
/// could not be decoded. The reply is the text of the first block.
pub open spec fn reply_of(status: Option<u16>, blocks: Option<Seq<Seq<char>>>) -> Result<
    Seq<char>,
    ProviderError,
> {
    match status {
        None => Err(ProviderError::TransportError),
        Some(code) => if !is_success(code) {
            Err(ProviderError::UpstreamError { status: code })
        } else {
            match blocks {
                None => Err(ProviderError::DecodeError),
                Some(texts) => if texts.len() == 0 {
                    Err(ProviderError::EmptyReply)
                } else {
                    Ok(texts[0])
                },
            }
        },
    }
}

/// Turns pairs of role and content into messages for the provider, in the
/// same order and without a sender's name.
pub fn format_conversation(conversation: Vec<(&str, &str)>) -> (messages: Vec<ClaudeMessage>)
    ensures
        messages@.len() == conversation@.len(),
        forall|i: int|
            0 <= i < conversation@.len() ==> (#[trigger] messages@[i])@ == (ClaudeMessageView {
                role: conversation@[i].0@,
                content: conversation@[i].1@,
                name: None,
            }),
{
    let mut messages: Vec<ClaudeMessage> = Vec::new();
    let mut i: usize = 0;
    while i < conversation.len()
        invariant
            i <= conversation@.len(),
            messages@.len() == i,
            forall|k: int|
                0 <= k < i ==> (#[trigger] messages@[k])@ == (ClaudeMessageView {
                    role: conversation@[k].0@,
                    content: conversation@[k].1@,
                    name: None,
                }),
        decreases conversation@.len() - i,
    {
        let (role, content) = conversation[i];
        messages.push(ClaudeMessage { role: role.to_owned(), content: content.to_owned(), name: None });
        i = i + 1;
    }
    messages
}

/// The system prompt of a topic.
pub fn system_prompt(topic: &str) -> (prompt: String)
    ensures
        prompt@ == system_prompt_for(topic@),
{
    String::from_str(SYSTEM_PROMPT).concat(topic)
}

/// Builds the request that asks the provider's `model` to continue
/// `conversation`, held on `topic`. Sending it is left to the caller.
pub fn call_claude_api_with_history(
    conversation: &[TimestampedChatMessage],
    topic: &str,
    model: &str,
) -> (request: ClaudeRequest)
    ensures
        request@ == request_for(message_views(conversation@), topic@, model@),
{
    let mut messages: Vec<ClaudeMessage> = Vec::new();
    let mut i: usize = 0;
    while i < conversation.len()
        invariant
            i <= conversation@.len(),
            messages@.len() == i,
            forall|k: int|
                0 <= k < i ==> (#[trigger] messages@[k])@ == provider_message(conversation@[k]@),
        decreases conversation@.len() - i,
    {
        let message = &conversation[i];
        messages.push(
            ClaudeMessage {
                role: message.role.clone(),
                content: message.content.clone(),
                name: None,
            },
        );
        i = i + 1;
    }
    let request = ClaudeRequest {
        model: model.to_owned(),
        max_tokens: MAX_TOKENS,
        messages,
        system: Some(system_prompt(topic)),
    };
    assert(request@.messages =~= request_for(message_views(conversation@), topic@, model@).messages);
    request
}

/// Accepts the status of the provider's answer where it is a success.
pub fn check_status(status: u16) -> (checked: Result<(), ProviderError>)
    ensures
        is_success(status) ==> checked == Ok::<(), ProviderError>(()),
        !is_success(status) ==> checked == Err::<(), ProviderError>(
            ProviderError::UpstreamError { status },
        ),
{
    if 200 <= status && status < 300 {
        Ok(())
    } else {
        Err(ProviderError::UpstreamError { status })
    }
}

/// The reply that a decoded answer holds: the text of its first content
/// block. Further blocks are not read.
pub fn first_reply(response: &ClaudeResponse) -> (reply: Result<String, ProviderError>)
    ensures
        match reply {
            Ok(text) => response.block_texts().len() > 0 && text@ == response.block_texts()[0],
            Err(e) => response.block_texts().len() == 0 && e == ProviderError::EmptyReply,
        },
{
    if response.content.len() == 0 {
        Err(ProviderError::EmptyReply)
    } else {
        Ok(response.content[0].text.clone())
    }
}

} // verus!
