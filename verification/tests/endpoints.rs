use devops_ai_api::claude::ProviderError;
use devops_ai_api::errors::{ApiError, BadInput};
use devops_ai_api::handlers::{
    advance, advance_at, handle_get_conversation, handle_get_progress, handle_get_topic,
    handle_get_topics, handle_post_chat, handle_post_progress, handle_reset_progress,
    topic_exists, Action, Event, Stage,
};
use devops_ai_api::store::{conversation_key, progress_key};
use devops_ai_api::types::{
    ChatMessage, ClaudeContent, ClaudeRequest, ClaudeResponse, ClaudeUsage, ConversationHistory,
    Progress, ProgressUpdate, Timestamp, TimestampedChatMessage,
};
use devops_ai_api::utils::{reply_to, Payload, ReplyBody};
use std::collections::HashMap;

#[derive(Debug, Clone)]
enum Stored {
    Progress(Progress),
    Conversation(ConversationHistory),
}

/// A store in memory, a request body and a provider that answers the same
/// way every time.
struct World {
    store: HashMap<String, Stored>,
    step: Option<usize>,
    message: Option<String>,
    status: Option<u16>,
    blocks: Option<Vec<String>>,
    model: String,
    model_reads: usize,
    clock: i64,
    clock_reads: usize,
    writes: usize,
    reads: usize,
    sent: Vec<ClaudeRequest>,
}

impl World {
    fn new() -> World {
        World {
            store: HashMap::new(),
            step: None,
            message: None,
            status: Some(200),
            blocks: Some(vec!["hello".to_string()]),
            model: "some-model".to_string(),
            model_reads: 0,
            clock: 1_700_000_000,
            clock_reads: 0,
            writes: 0,
            reads: 0,
            sent: Vec::new(),
        }
    }

    fn answer(&mut self, action: Action) -> Result<Event, Result<Payload, ApiError>> {
        Ok(match action {
            Action::ReadProgressUpdate => Event::ProgressUpdateRead(
                self.step.map(|completed_step| ProgressUpdate { completed_step, reset: None }),
            ),
            Action::ReadChatMessage => {
                Event::ChatMessageRead(self.message.clone().map(|message| ChatMessage { message }))
            }
            Action::LoadProgress { key } => {
                self.reads += 1;
                Event::ProgressLoaded(match self.store.get(&key) {
                    Some(Stored::Progress(progress)) => Some(progress.clone()),
                    Some(other) => panic!("{:?} where progress is expected", other),
                    None => None,
                })
            }
            Action::LoadConversation { key } => {
                self.reads += 1;
                Event::ConversationLoaded(match self.store.get(&key) {
                    Some(Stored::Conversation(history)) => Some(history.clone()),
                    Some(other) => panic!("{:?} where a conversation is expected", other),
                    None => None,
                })
            }
            Action::SaveProgress { key, progress } => {
                self.writes += 1;
                self.store.insert(key, Stored::Progress(progress));
                Event::Saved
            }
            Action::SaveConversation { key, history } => {
                self.writes += 1;
                self.store.insert(key, Stored::Conversation(history));
                Event::Saved
            }
            Action::Delete { key } => {
                self.writes += 1;
                self.store.remove(&key);
                Event::Deleted
            }
            Action::ReadModel => {
                self.model_reads += 1;
                Event::ModelRead(self.model.clone())
            }
            Action::CallProvider { request } => {
                self.sent.push(request);
                Event::ProviderStatus(self.status)
            }
            Action::ReadProviderReply => Event::ProviderReply(self.blocks.clone().map(response_of)),
            Action::Finish { outcome } => return Err(outcome),
        })
    }

    /// Serves a request from its first decision on.
    fn serve(&mut self, begin: (Stage, Action)) -> Result<Payload, ApiError> {
        let (mut stage, mut action) = begin;
        loop {
            match self.answer(action) {
                Err(outcome) => {
                    assert!(matches!(stage, Stage::Done));
                    return outcome;
                }
                Ok(event) => {
                    let now = if stage.appends_a_message() {
                        self.clock += 1;
                        self.clock_reads += 1;
                        Some(Timestamp { secs: self.clock, nanos: 0 })
                    } else {
                        None
                    };
                    let next = advance(stage, event, now);
                    stage = next.0;
                    action = next.1;
                }
            }
        }
    }

    fn chat(&mut self, message: &str, reply: &str) -> Result<Payload, ApiError> {
        self.message = Some(message.to_string());
        self.status = Some(200);
        self.blocks = Some(vec![reply.to_string()]);
        self.serve(handle_post_chat("github-setup"))
    }

    fn report(&mut self, step: usize) -> Result<Payload, ApiError> {
        self.step = Some(step);
        self.serve(handle_post_progress("github-setup"))
    }

    fn progress(&self, topic_id: &str) -> Option<Progress> {
        match self.store.get(topic_id) {
            Some(Stored::Progress(progress)) => Some(progress.clone()),
            Some(other) => panic!("{:?}", other),
            None => None,
        }
    }

    fn conversation(&self, topic_id: &str) -> Option<ConversationHistory> {
        match self.store.get(&format!("conversation_{}", topic_id)) {
            Some(Stored::Conversation(history)) => Some(history.clone()),
            Some(other) => panic!("{:?}", other),
            None => None,
        }
    }
}

fn response_of(texts: Vec<String>) -> ClaudeResponse {
    ClaudeResponse {
        content: texts
            .into_iter()
            .map(|text| ClaudeContent { text, content_type: "text".to_string() })
            .collect(),
        id: "msg_01".to_string(),
        model: "some-model".to_string(),
        role: "assistant".to_string(),
        stop_reason: None,
        stop_sequence: None,
        response_type: "message".to_string(),
        usage: ClaudeUsage { input_tokens: 1, output_tokens: 1 },
    }
}

fn status_message(outcome: Result<Payload, ApiError>) -> (u16, String) {
    match outcome {
        Ok(Payload::Status(status)) => (status.status, status.message),
        other => panic!("{:?}", other),
    }
}

fn chat_response(outcome: Result<Payload, ApiError>) -> String {
    match outcome {
        Ok(Payload::Chat(chat)) => chat.response,
        other => panic!("{:?}", other),
    }
}

fn progress_payload(outcome: Result<Payload, ApiError>) -> Progress {
    match outcome {
        Ok(Payload::Progress(progress)) => progress,
        other => panic!("{:?}", other),
    }
}

fn conversation_payload(outcome: Result<Payload, ApiError>) -> ConversationHistory {
    match outcome {
        Ok(Payload::Conversation(history)) => history,
        other => panic!("{:?}", other),
    }
}

fn failure(outcome: Result<Payload, ApiError>) -> ApiError {
    match outcome {
        Err(e) => e,
        Ok(payload) => panic!("{:?}", payload),
    }
}

fn contents(history: &ConversationHistory) -> Vec<String> {
    history.messages.iter().map(|m| m.content.clone()).collect()
}

fn roles(history: &ConversationHistory) -> Vec<String> {
    history.messages.iter().map(|m| m.role.clone()).collect()
}

fn history_of(len: usize) -> ConversationHistory {
    let mut history = ConversationHistory::new("github-setup");
    for i in 0..len {
        history.messages.push(TimestampedChatMessage {
            role: if i % 2 == 0 { "user".to_string() } else { "assistant".to_string() },
            content: format!("m{}", i),
            timestamp: Timestamp { secs: i as i64, nanos: 0 },
        });
    }
    history
}

#[test]
fn known_topics() {
    assert!(topic_exists("github-setup"));
    assert!(!topic_exists("docker-basics"));
    assert!(!topic_exists(""));
    assert!(!topic_exists("github-setup/"));
    assert!(!topic_exists("Docker-Basics"));
    assert!(!topic_exists("kubernetes"));
}

#[test]
fn store_keys() {
    assert_eq!(progress_key("github-setup"), "github-setup");
    assert_eq!(conversation_key("github-setup"), "conversation_github-setup");
    assert_eq!(conversation_key(""), "conversation_");
}

#[test]
fn unknown_topic_is_refused_by_every_endpoint() {
    for topic_id in ["", "kubernetes", "docker-basics", "conversation_github-setup", "github-setup "] {
        let mut world = World::new();
        world.store.insert("github-setup".to_string(), Stored::Progress(Progress::new("github-setup")));
        world.step = Some(1);
        world.message = Some("hi".to_string());
        let outcomes = vec![
            world.serve(handle_get_topic(topic_id)),
            world.serve(handle_get_progress(topic_id)),
            world.serve(handle_post_progress(topic_id)),
            world.serve(handle_get_conversation(topic_id)),
            world.serve(handle_post_chat(topic_id)),
            world.serve(handle_reset_progress(topic_id)),
        ];
        for outcome in outcomes {
            assert_eq!(failure(outcome), ApiError::InvalidTopic);
        }
        assert_eq!(world.writes, 0);
        assert_eq!(world.reads, 0);
        assert_eq!(world.model_reads, 0);
        assert_eq!(world.clock_reads, 0);
        assert!(world.sent.is_empty());
        assert_eq!(world.store.len(), 1);
        assert_eq!(reply_to(Err(ApiError::InvalidTopic)).status, 404);
    }
}

#[test]
fn all_topics_are_served_without_outside_work() {
    let (stage, action) = handle_get_topics();
    assert!(matches!(stage, Stage::Done));
    match action {
        Action::Finish { outcome: Ok(Payload::Topics(topics)) } => {
            assert_eq!(topics.len(), 1);
            assert_eq!(topics[0].id, "github-setup");
            assert_eq!(topics[0].steps.len(), 11);
        }
        other => panic!("{:?}", other),
    }
}

#[test]
fn one_topic_is_served_from_the_catalog() {
    let mut world = World::new();
    match world.serve(handle_get_topic("github-setup")) {
        Ok(Payload::Topic(topic)) => assert_eq!(topic.title, "GitHub Setup"),
        other => panic!("{:?}", other),
    }
    assert_eq!(failure(world.serve(handle_get_topic("docker-basics"))), ApiError::InvalidTopic);
}

#[test]
fn progress_of_a_fresh_topic_is_the_zero_value_and_is_not_stored() {
    let mut world = World::new();
    let progress = progress_payload(world.serve(handle_get_progress("github-setup")));
    assert_eq!(progress.topic_id, "github-setup");
    assert!(progress.completed_steps.is_empty());
    assert_eq!(progress.current_step, 0);
    assert_eq!(world.writes, 0);
    assert_eq!(world.clock_reads, 0);
    assert!(world.store.is_empty());
}

#[test]
fn reporting_step_zero_twice() {
    let mut world = World::new();
    let first = status_message(world.report(0));
    assert_eq!(first, (200, "Progress updated for topic github-setup.".to_string()));
    assert_eq!(world.writes, 1);
    let second = status_message(world.report(0));
    assert_eq!(second, first);
    assert_eq!(world.writes, 1);
    assert_eq!(reply_to(world.report(0)).status, 200);
    let progress = progress_payload(world.serve(handle_get_progress("github-setup")));
    assert_eq!(progress.topic_id, "github-setup");
    assert_eq!(progress.completed_steps, vec![0]);
    assert_eq!(progress.current_step, 1);
    assert_eq!(world.writes, 1);
}

#[test]
fn reported_steps_are_stored_sorted() {
    let mut world = World::new();
    for step in [3usize, 1, 2, 3, 0, 1] {
        world.report(step).unwrap();
        let stored = world.progress("github-setup").unwrap();
        let mut sorted = stored.completed_steps.clone();
        sorted.sort();
        sorted.dedup();
        assert_eq!(stored.completed_steps, sorted);
    }
    let stored = world.progress("github-setup").unwrap();
    assert_eq!(stored.completed_steps, vec![0, 1, 2, 3]);
    assert_eq!(stored.current_step, 1);
    assert_eq!(world.writes, 4);
}

#[test]
fn a_body_that_is_no_progress_update_is_refused() {
    let mut world = World::new();
    world.step = None;
    let outcome = world.serve(handle_post_progress("github-setup"));
    assert_eq!(failure(outcome), ApiError::BadInput(BadInput::MalformedJson));
    assert_eq!(world.reads, 0);
    assert_eq!(world.writes, 0);
    assert_eq!(reply_to(Err(ApiError::BadInput(BadInput::MalformedJson))).status, 400);
}

#[test]
fn a_step_without_a_successor_is_refused() {
    let mut world = World::new();
    let outcome = world.report(usize::MAX);
    assert_eq!(failure(outcome), ApiError::BadInput(BadInput::MalformedJson));
    assert_eq!(world.reads, 1);
    assert_eq!(world.writes, 0);
    assert!(world.store.is_empty());
    let again = world.report(usize::MAX);
    assert_eq!(failure(again), ApiError::BadInput(BadInput::MalformedJson));
    assert_eq!(world.writes, 0);
    world.report(usize::MAX - 1).unwrap();
    assert_eq!(world.progress("github-setup").unwrap().current_step, usize::MAX);
    assert_eq!(world.progress("github-setup").unwrap().completed_steps, vec![usize::MAX - 1]);
}

#[test]
fn a_step_without_a_successor_that_is_completed_is_confirmed() {
    let mut world = World::new();
    let stored = Progress {
        topic_id: "github-setup".to_string(),
        completed_steps: vec![3, usize::MAX],
        current_step: 4,
    };
    world.store.insert("github-setup".to_string(), Stored::Progress(stored));
    let confirmed = status_message(world.report(usize::MAX));
    assert_eq!(confirmed, (200, "Progress updated for topic github-setup.".to_string()));
    assert_eq!(world.writes, 0);
    let kept = world.progress("github-setup").unwrap();
    assert_eq!(kept.completed_steps, vec![3, usize::MAX]);
    assert_eq!(kept.current_step, 4);
}

#[test]
fn a_completed_step_costs_no_write() {
    let mut world = World::new();
    let stored = Progress {
        topic_id: "github-setup".to_string(),
        completed_steps: vec![0, 1, 2],
        current_step: 3,
    };
    world.store.insert("github-setup".to_string(), Stored::Progress(stored));
    let confirmed = status_message(world.report(1));
    assert_eq!(confirmed.0, 200);
    assert_eq!(world.writes, 0);
    let kept = world.progress("github-setup").unwrap();
    assert_eq!(kept.completed_steps, vec![0, 1, 2]);
    assert_eq!(kept.current_step, 3);
}

#[test]
fn a_new_step_makes_the_stored_steps_one_longer() {
    let mut world = World::new();
    let stored = Progress {
        topic_id: "github-setup".to_string(),
        completed_steps: vec![1, 4, 9],
        current_step: 10,
    };
    world.store.insert("github-setup".to_string(), Stored::Progress(stored));
    world.report(6).unwrap();
    let kept = world.progress("github-setup").unwrap();
    assert_eq!(kept.completed_steps, vec![1, 4, 6, 9]);
    assert_eq!(kept.current_step, 7);
    assert_eq!(world.writes, 1);
}

#[test]
fn reset_stores_the_zero_progress_and_deletes_the_conversation() {
    let mut world = World::new();
    world.report(2).unwrap();
    world.report(4).unwrap();
    world.chat("hi", "hello").unwrap();
    assert!(world.conversation("github-setup").is_some());
    let writes = world.writes;
    let done = status_message(world.serve(handle_reset_progress("github-setup")));
    assert_eq!(
        done,
        (200, "Progress and conversation reset for topic github-setup.".to_string())
    );
    assert_eq!(world.writes, writes + 2);
    let stored = world.progress("github-setup").expect("the zero value is stored");
    assert!(stored.completed_steps.is_empty());
    assert_eq!(stored.current_step, 0);
    assert_eq!(stored.topic_id, "github-setup");
    assert!(!world.store.contains_key("conversation_github-setup"));
    let progress = progress_payload(world.serve(handle_get_progress("github-setup")));
    assert!(progress.completed_steps.is_empty());
    assert_eq!(progress.current_step, 0);
    let history = conversation_payload(world.serve(handle_get_conversation("github-setup")));
    assert_eq!(history.topic_id, "github-setup");
    assert!(history.messages.is_empty());
    assert!(!world.store.contains_key("conversation_github-setup"));
}

#[test]
fn reset_of_a_fresh_topic() {
    let mut world = World::new();
    status_message(world.serve(handle_reset_progress("github-setup")));
    assert_eq!(world.store.len(), 1);
    assert!(world.progress("github-setup").unwrap().completed_steps.is_empty());
    assert_eq!(world.clock_reads, 0);
}

#[test]
fn reset_of_a_topic_outside_the_catalog_stores_nothing() {
    let mut world = World::new();
    let outcome = world.serve(handle_reset_progress("docker-basics"));
    assert_eq!(failure(outcome), ApiError::InvalidTopic);
    assert!(world.store.is_empty());
    assert_eq!(world.writes, 0);
    assert_eq!(reply_to(Err(ApiError::InvalidTopic)).status, 404);
}

#[test]
fn first_chat_turn_on_a_fresh_topic() {
    let mut world = World::new();
    let response = chat_response(world.chat("hi", "hello"));
    assert_eq!(response, "hello");
    let stored = world.conversation("github-setup").expect("the turn is stored");
    assert_eq!(stored.topic_id, "github-setup");
    assert_eq!(roles(&stored), vec!["user", "assistant"]);
    assert_eq!(contents(&stored), vec!["hi", "hello"]);
    assert_eq!(world.writes, 1);
    assert_eq!(world.sent.len(), 1);
    assert_eq!(world.sent[0].messages.len(), 1);
    assert_eq!(world.sent[0].messages[0].role, "user");
    assert_eq!(world.sent[0].messages[0].content, "hi");
    assert_eq!(world.sent[0].max_tokens, 1024);
    assert_eq!(world.sent[0].model, "some-model");
    assert!(world.sent[0].system.as_ref().unwrap().ends_with(": github-setup"));
    let reply = reply_to(Ok(Payload::Chat(devops_ai_api::types::ChatResponse { response })));
    assert_eq!(reply.status, 200);
    assert!(matches!(reply.body, ReplyBody::Json(Payload::Chat(_))));
}

#[test]
fn the_provider_is_sent_the_whole_conversation() {
    let mut world = World::new();
    world.chat("one", "two").unwrap();
    world.chat("three", "four").unwrap();
    assert_eq!(world.sent.len(), 2);
    let sent: Vec<(String, String)> =
        world.sent[1].messages.iter().map(|m| (m.role.clone(), m.content.clone())).collect();
    assert_eq!(
        sent,
        vec![
            ("user".to_string(), "one".to_string()),
            ("assistant".to_string(), "two".to_string()),
            ("user".to_string(), "three".to_string()),
        ]
    );
    let history = conversation_payload(world.serve(handle_get_conversation("github-setup")));
    assert_eq!(contents(&history), vec!["one", "two", "three", "four"]);
}

#[test]
fn a_blank_message_is_refused_and_nothing_is_stored() {
    for blank in ["", " ", "\n\t  \r\n", "\u{3000}"] {
        let mut world = World::new();
        world.chat("hi", "hello").unwrap();
        let before = contents(&world.conversation("github-setup").unwrap());
        let outcome = world.chat(blank, "never sent");
        assert_eq!(failure(outcome), ApiError::BadInput(BadInput::EmptyMessage));
        assert_eq!(contents(&world.conversation("github-setup").unwrap()), before);
        assert_eq!(world.writes, 1);
        assert_eq!(world.reads, 1);
        assert_eq!(world.model_reads, 1);
        assert_eq!(world.sent.len(), 1);
        assert_eq!(reply_to(Err(ApiError::BadInput(BadInput::EmptyMessage))).status, 400);
    }
}

#[test]
fn the_model_is_the_one_that_the_deployment_names() {
    let mut world = World::new();
    world.model = "another-model".to_string();
    world.chat("hi", "hello").unwrap();
    assert_eq!(world.model_reads, 1);
    assert_eq!(world.sent[0].model, "another-model");
}

#[test]
fn a_body_that_is_no_chat_message_is_refused() {
    let mut world = World::new();
    world.message = None;
    let outcome = world.serve(handle_post_chat("github-setup"));
    assert_eq!(failure(outcome), ApiError::BadInput(BadInput::MalformedJson));
    assert_eq!(world.reads, 0);
    assert_eq!(world.model_reads, 0);
    assert!(world.sent.is_empty());
}

#[test]
fn a_message_is_stored_as_it_was_sent() {
    let mut world = World::new();
    world.chat("  hi there \n", "hello").unwrap();
    assert_eq!(contents(&world.conversation("github-setup").unwrap()), vec!["  hi there \n", "hello"]);
}

#[test]
fn the_fifty_first_message_drops_the_two_oldest() {
    let mut world = World::new();
    for turn in 0..25 {
        let asked = format!("q{}", turn);
        let answered = format!("a{}", turn);
        assert_eq!(chat_response(world.chat(&asked, &answered)), answered);
    }
    let before = world.conversation("github-setup").unwrap();
    assert_eq!(before.messages.len(), 50);
    assert_eq!(before.messages[0].content, "q0");
    assert_eq!(chat_response(world.chat("q25", "a25")), "a25");
    let after = world.conversation("github-setup").unwrap();
    assert_eq!(after.messages.len(), 50);
    let mut expected = contents(&before)[2..].to_vec();
    expected.push("q25".to_string());
    expected.push("a25".to_string());
    assert_eq!(contents(&after), expected);
    assert_eq!(after.messages[0].content, "q1");
    assert_eq!(after.messages[1].content, "a1");
    assert_eq!(world.sent[25].messages.len(), 51);
}

#[test]
fn a_stored_history_that_is_too_long_is_cut_back_to_fifty() {
    let mut world = World::new();
    world
        .store
        .insert("conversation_github-setup".to_string(), Stored::Conversation(history_of(80)));
    world.chat("hi", "hello").unwrap();
    let after = world.conversation("github-setup").unwrap();
    assert_eq!(after.messages.len(), 50);
    let mut expected = contents(&history_of(80))[32..].to_vec();
    expected.push("hi".to_string());
    expected.push("hello".to_string());
    assert_eq!(contents(&after), expected);
    assert_eq!(world.sent[0].messages.len(), 81);
}

#[test]
fn a_failing_provider_leaves_the_store_as_it_is() {
    let cases: Vec<(Option<u16>, Option<Vec<String>>, ProviderError)> = vec![
        (None, Some(vec!["hello".to_string()]), ProviderError::TransportError),
        (Some(500), Some(vec!["hello".to_string()]), ProviderError::UpstreamError { status: 500 }),
        (Some(199), Some(vec!["hello".to_string()]), ProviderError::UpstreamError { status: 199 }),
        (Some(300), None, ProviderError::UpstreamError { status: 300 }),
        (Some(200), None, ProviderError::DecodeError),
        (Some(200), Some(Vec::new()), ProviderError::EmptyReply),
    ];
    for (status, blocks, cause) in cases {
        let mut world = World::new();
        world.chat("hi", "hello").unwrap();
        world.message = Some("again".to_string());
        world.status = status;
        world.blocks = blocks;
        let outcome = world.serve(handle_post_chat("github-setup"));
        assert_eq!(failure(outcome), ApiError::Provider(cause));
        assert_eq!(world.writes, 1);
        assert_eq!(contents(&world.conversation("github-setup").unwrap()), vec!["hi", "hello"]);
        assert_eq!(reply_to(Err(ApiError::Provider(cause))).status, 500);
    }
}

#[test]
fn only_the_first_block_of_the_answer_is_the_reply() {
    let mut world = World::new();
    world.message = Some("hi".to_string());
    world.blocks = Some(vec!["first".to_string(), "second".to_string()]);
    assert_eq!(chat_response(world.serve(handle_post_chat("github-setup"))), "first");
    assert_eq!(contents(&world.conversation("github-setup").unwrap()), vec!["hi", "first"]);
}

#[test]
fn a_conversation_query_does_not_store_the_empty_history() {
    let mut world = World::new();
    let history = conversation_payload(world.serve(handle_get_conversation("github-setup")));
    assert_eq!(history.topic_id, "github-setup");
    assert!(history.messages.is_empty());
    assert!(world.store.is_empty());
    assert_eq!(world.writes, 0);
}

#[test]
fn the_two_records_of_a_topic_have_their_own_keys() {
    let mut world = World::new();
    world.report(1).unwrap();
    world.chat("hi", "hello").unwrap();
    let progress = progress_payload(world.serve(handle_get_progress("github-setup")));
    assert_eq!(progress.completed_steps, vec![1]);
    let history = conversation_payload(world.serve(handle_get_conversation("github-setup")));
    assert_eq!(history.messages.len(), 2);
    let mut keys: Vec<&String> = world.store.keys().collect();
    keys.sort();
    assert_eq!(keys, vec!["conversation_github-setup", "github-setup"]);
}

#[test]
fn messages_are_stamped_at_the_given_instant() {
    let asked_at = Timestamp { secs: 1_700_000_000, nanos: 1 };
    let answered_at = Timestamp { secs: 1_700_000_003, nanos: 2 };
    let (stage, action) = handle_post_chat("github-setup");
    assert!(matches!(action, Action::ReadChatMessage));
    let (stage, action) = advance_at(
        stage,
        Event::ChatMessageRead(Some(ChatMessage { message: "hi".to_string() })),
        asked_at,
    );
    match action {
        Action::LoadConversation { key } => assert_eq!(key, "conversation_github-setup"),
        other => panic!("{:?}", other),
    }
    let (stage, action) = advance_at(stage, Event::ConversationLoaded(None), asked_at);
    assert!(matches!(action, Action::ReadModel));
    let (stage, action) = advance_at(stage, Event::ModelRead("a-model".to_string()), answered_at);
    match &action {
        Action::CallProvider { request } => {
            assert_eq!(request.model, "a-model");
            assert_eq!(request.messages.len(), 1);
        }
        other => panic!("{:?}", other),
    }
    let (stage, action) = advance_at(stage, Event::ProviderStatus(Some(200)), answered_at);
    assert!(matches!(action, Action::ReadProviderReply));
    let (stage, action) = advance_at(
        stage,
        Event::ProviderReply(Some(response_of(vec!["hello".to_string()]))),
        answered_at,
    );
    match action {
        Action::SaveConversation { key, history } => {
            assert_eq!(key, "conversation_github-setup");
            assert_eq!(history.messages.len(), 2);
            assert_eq!(history.messages[0].timestamp, asked_at);
            assert_eq!(history.messages[1].timestamp, answered_at);
        }
        other => panic!("{:?}", other),
    }
    let (stage, action) = advance_at(stage, Event::Saved, answered_at);
    assert!(matches!(stage, Stage::Done));
    assert_eq!(chat_response(match action {
        Action::Finish { outcome } => outcome,
        other => panic!("{:?}", other),
    }), "hello");
}

#[test]
fn the_clock_is_read_once_for_each_message_appended() {
    let mut world = World::new();
    world.chat("hi", "hello").unwrap();
    assert_eq!(world.clock_reads, 2);
    let stored = world.conversation("github-setup").unwrap();
    assert_eq!(stored.messages[0].timestamp, Timestamp { secs: 1_700_000_001, nanos: 0 });
    assert_eq!(stored.messages[1].timestamp, Timestamp { secs: 1_700_000_002, nanos: 0 });
    world.report(3).unwrap();
    world.serve(handle_get_progress("github-setup")).unwrap();
    world.serve(handle_get_conversation("github-setup")).unwrap();
    world.serve(handle_reset_progress("github-setup")).unwrap();
    world.serve(handle_get_topics()).unwrap();
    assert_eq!(world.clock_reads, 2);
    world.status = None;
    world.message = Some("again".to_string());
    assert!(world.serve(handle_post_chat("github-setup")).is_err());
    assert_eq!(world.clock_reads, 3);
}

#[test]
fn without_an_instant_no_message_is_appended() {
    let (stage, _) = handle_post_chat("github-setup");
    let (stage, action) =
        advance(stage, Event::ChatMessageRead(Some(ChatMessage { message: "hi".to_string() })), None);
    assert!(matches!(action, Action::LoadConversation { .. }));
    assert!(stage.appends_a_message());
    let (stage, action) = advance(stage, Event::ConversationLoaded(None), None);
    assert!(matches!(stage, Stage::Done));
    assert!(matches!(action, Action::Finish { outcome: Err(ApiError::OutOfTurn) }));
}

#[test]
fn an_instant_that_is_not_needed_is_not_read() {
    let here = Some(Timestamp { secs: 5, nanos: 5 });
    let (stage, _) = handle_get_progress("github-setup");
    assert!(!stage.appends_a_message());
    let (_, with) = advance(stage, Event::ProgressLoaded(None), here);
    let (stage, _) = handle_get_progress("github-setup");
    let (_, without) = advance(stage, Event::ProgressLoaded(None), None);
    assert_eq!(format!("{:?}", with), format!("{:?}", without));
}

#[test]
fn an_event_out_of_turn_ends_the_request() {
    let now = Timestamp { secs: 0, nanos: 0 };
    let (stage, _) = handle_post_chat("github-setup");
    let (stage, action) = advance_at(stage, Event::Saved, now);
    assert!(matches!(stage, Stage::Done));
    assert!(matches!(action, Action::Finish { outcome: Err(ApiError::OutOfTurn) }));
    let (stage, action) = advance_at(stage, Event::Deleted, now);
    assert!(matches!(stage, Stage::Done));
    assert!(matches!(action, Action::Finish { outcome: Err(ApiError::OutOfTurn) }));
    let (stage, _) = handle_get_progress("github-setup");
    let (_, action) = advance_at(stage, Event::ConversationLoaded(None), now);
    assert!(matches!(action, Action::Finish { outcome: Err(ApiError::OutOfTurn) }));
    let (stage, _) = handle_reset_progress("github-setup");
    let (_, action) = advance(stage, Event::ModelRead("a-model".to_string()), None);
    assert!(matches!(action, Action::Finish { outcome: Err(ApiError::OutOfTurn) }));
    assert_eq!(reply_to(Err(ApiError::OutOfTurn)).status, 500);
}
