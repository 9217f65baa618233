use devops_ai_api::claude::{
    call_claude_api_with_history, check_status, first_reply, format_conversation, system_prompt,
    ProviderError, API_URL, API_VERSION, MAX_TOKENS, SYSTEM_PROMPT,
};
use devops_ai_api::types::{
    ClaudeContent, ClaudeResponse, ClaudeUsage, Timestamp, TimestampedChatMessage,
};

fn response_with(texts: &[&str]) -> ClaudeResponse {
    ClaudeResponse {
        content: texts
            .iter()
            .map(|t| ClaudeContent { text: t.to_string(), content_type: "text".to_string() })
            .collect(),
        id: "msg_01".to_string(),
        model: "some-model".to_string(),
        role: "assistant".to_string(),
        stop_reason: Some("end_turn".to_string()),
        stop_sequence: None,
        response_type: "message".to_string(),
        usage: ClaudeUsage { input_tokens: 12, output_tokens: 7 },
    }
}

fn message(role: &str, content: &str, secs: i64) -> TimestampedChatMessage {
    TimestampedChatMessage {
        role: role.to_string(),
        content: content.to_string(),
        timestamp: Timestamp { secs, nanos: 0 },
    }
}

#[test]
fn test_format_conversation() {
    let conversation = vec![
        ("user", "Hello, assistant!"),
        ("assistant", "Hello! How can I assist you today?"),
        ("user", "Tell me about Rust programming."),
    ];

    let formatted = format_conversation(conversation);

    assert_eq!(formatted.len(), 3);
    assert_eq!(formatted[0].role, "user");
    assert_eq!(formatted[0].content, "Hello, assistant!");
    assert_eq!(formatted[1].role, "assistant");
    assert_eq!(formatted[1].content, "Hello! How can I assist you today?");
    assert_eq!(formatted[2].role, "user");
    assert_eq!(formatted[2].content, "Tell me about Rust programming.");
}

#[test]
fn format_conversation_names_no_sender() {
    let formatted = format_conversation(vec![("user", "a"), ("assistant", "b")]);
    assert!(formatted.iter().all(|m| m.name.is_none()));
}

#[test]
fn format_conversation_of_nothing_is_empty() {
    assert!(format_conversation(Vec::new()).is_empty());
}

#[test]
fn system_prompt_ends_with_the_topic() {
    let prompt = system_prompt("github-setup");
    assert_eq!(prompt, format!("{}{}", SYSTEM_PROMPT, "github-setup"));
    assert!(prompt.starts_with("You are an AI assistant for a DevOps learning platform."));
    assert!(prompt.ends_with("The current topic of discussion is: github-setup"));
}

#[test]
fn system_prompt_keeps_its_guidelines() {
    let prompt = system_prompt("");
    assert!(prompt.contains("    1. Only answer questions related to DevOps topics."));
    assert!(prompt.contains("    7. When discussing tools or platforms"));
    assert_eq!(prompt, SYSTEM_PROMPT);
}

#[test]
fn request_holds_model_budget_messages_and_prompt() {
    let conversation = vec![
        message("user", "What is Git?", 10),
        message("assistant", "A version control system.", 11),
        message("user", "And GitHub?", 12),
    ];
    let request = call_claude_api_with_history(&conversation, "github-setup", "some-model");
    assert_eq!(request.model, "some-model");
    assert_eq!(request.max_tokens, 1024);
    assert_eq!(request.max_tokens, MAX_TOKENS);
    assert_eq!(request.system, Some(system_prompt("github-setup")));
    assert_eq!(request.messages.len(), 3);
    for (sent, stored) in request.messages.iter().zip(conversation.iter()) {
        assert_eq!(sent.role, stored.role);
        assert_eq!(sent.content, stored.content);
        assert!(sent.name.is_none());
    }
}

#[test]
fn request_for_an_empty_conversation_has_no_messages() {
    let request = call_claude_api_with_history(&[], "docker-basics", "another-model");
    assert_eq!(request.model, "another-model");
    assert!(request.messages.is_empty());
    assert!(request.system.unwrap().ends_with(": docker-basics"));
}

#[test]
fn provider_constants() {
    assert_eq!(API_URL, "https://api.anthropic.com/v1/messages");
    assert_eq!(API_VERSION, "2023-06-01");
}

#[test]
fn status_in_the_two_hundreds_is_a_success() {
    assert_eq!(check_status(200), Ok(()));
    assert_eq!(check_status(201), Ok(()));
    assert_eq!(check_status(299), Ok(()));
}

#[test]
fn other_statuses_are_upstream_errors() {
    for status in [0u16, 100, 199, 300, 301, 400, 401, 404, 429, 500, 529, 999, u16::MAX] {
        assert_eq!(check_status(status), Err(ProviderError::UpstreamError { status }));
    }
}

#[test]
fn first_reply_is_the_text_of_the_first_block() {
    assert_eq!(first_reply(&response_with(&["hello"])), Ok("hello".to_string()));
    assert_eq!(first_reply(&response_with(&["first", "second", "third"])), Ok("first".to_string()));
    assert_eq!(first_reply(&response_with(&[""])), Ok(String::new()));
}

#[test]
fn first_reply_of_no_block_is_an_empty_reply() {
    assert_eq!(first_reply(&response_with(&[])), Err(ProviderError::EmptyReply));
}
