use curhatin::chat::begin_chat;
use curhatin::chat::build_messages;
use curhatin::chat::chat_response;
use curhatin::chat::choose_prompt;
use curhatin::chat::ChatStep;
use curhatin::chat::CompletionOutcome;
use curhatin::model::ChatRequest;
use curhatin::model::Message;
use curhatin::model::RetrievedDocument;
use curhatin::model::StoreError;
use curhatin::rag::RagService;
use curhatin::rag::RetrievalError;

fn request(message: &str) -> ChatRequest {
    ChatRequest {
        message: message.to_string(),
        category: None,
        conversation_history: Vec::new(),
    }
}

#[test]
fn empty_message_is_rejected_before_any_remote_call() {
    // An empty chat message must end in a validation error; retrieval and
    // completion are only reached through the Retrieve step, which is never
    // produced here.
    let step = begin_chat(&request(""));
    match step {
        ChatStep::Rejected(rep) => {
            assert_eq!(rep.status, 400);
            assert_eq!(rep.body.response, "");
            assert_eq!(rep.body.error, Some("Message cannot be empty".to_string()));
            assert!(rep.body.sources.is_none());
        }
        ChatStep::Retrieve { .. } => panic!("an empty message must not reach retrieval"),
    }
}

#[test]
fn whitespace_message_is_rejected() {
    let step = begin_chat(&request(" \t\n "));
    assert!(matches!(step, ChatStep::Rejected(_)));
}

#[test]
fn unicode_whitespace_message_is_rejected() {
    // Non-breaking and em spaces count as whitespace, as trimming does.
    let step = begin_chat(&request("\u{a0}\u{2003} "));
    assert!(matches!(step, ChatStep::Rejected(_)));
}

#[test]
fn nonempty_message_proceeds_to_retrieval_of_top_three() {
    let step = begin_chat(&request("I feel anxious"));
    match step {
        ChatStep::Retrieve { query, top_k } => {
            assert_eq!(query, "I feel anxious");
            assert_eq!(top_k, 3);
        }
        ChatStep::Rejected(_) => panic!("a real message must proceed"),
    }
}

fn history(n: usize) -> Vec<Message> {
    let mut msgs = Vec::new();
    let mut i = 0;
    while i < n {
        msgs.push(Message {
            role: if i % 2 == 0 { "user".to_string() } else { "assistant".to_string() },
            content: format!("h{}", i),
        });
        i += 1;
    }
    msgs
}

#[test]
fn build_messages_keeps_only_last_ten_of_fifteen() {
    let msgs = build_messages("sys".to_string(), &history(15), "new question".to_string());
    // system + 10 kept turns + the new user message
    assert_eq!(msgs.len(), 12);
    assert_eq!(msgs[0].role, "system");
    assert_eq!(msgs[0].content, "sys");
    // the five oldest (h0..h4) are excluded; the kept ones stay in order
    assert_eq!(msgs[1].content, "h5");
    assert_eq!(msgs[10].content, "h14");
    assert_eq!(msgs[11].role, "user");
    assert_eq!(msgs[11].content, "new question");
    for m in &msgs {
        assert!(m.content != "h0" && m.content != "h4");
    }
}

#[test]
fn build_messages_keeps_short_history_whole() {
    let msgs = build_messages("sys".to_string(), &history(2), "q".to_string());
    assert_eq!(msgs.len(), 4);
    assert_eq!(msgs[1].content, "h0");
    assert_eq!(msgs[2].content, "h1");
    assert_eq!(msgs[3].content, "q");
}

#[test]
fn build_messages_with_exactly_ten_keeps_all() {
    let msgs = build_messages("sys".to_string(), &history(10), "q".to_string());
    assert_eq!(msgs.len(), 12);
    assert_eq!(msgs[1].content, "h0");
}

fn retrieved(title: &str) -> RetrievedDocument {
    RetrievedDocument {
        content: "c".to_string(),
        title: title.to_string(),
        category: "g".to_string(),
        similarity_millionths: 500_000,
    }
}

#[test]
fn choose_prompt_augments_and_lists_sources_on_success() {
    let rag = RagService::new();
    let (prompt, sources) = choose_prompt(&rag, "base", Ok(vec![retrieved("T1"), retrieved("T2")]));
    assert!(prompt.starts_with("base"));
    assert!(prompt.contains("T1") && prompt.contains("T2"));
    assert_eq!(sources, Some(vec!["T1".to_string(), "T2".to_string()]));
}

#[test]
fn choose_prompt_with_no_survivors_has_no_sources() {
    let rag = RagService::new();
    let (prompt, sources) = choose_prompt(&rag, "base", Ok(vec![]));
    assert_eq!(prompt, "base");
    assert!(sources.is_none());
}

#[test]
fn choose_prompt_falls_back_to_base_on_retrieval_failure() {
    let rag = RagService::new();
    let failure = Err(RetrievalError::StoreFailed(StoreError { message: "down".to_string() }));
    let (prompt, sources) = choose_prompt(&rag, "base", failure);
    assert_eq!(prompt, "base");
    assert!(sources.is_none());
}

#[test]
fn completion_success_answers_with_first_choice() {
    let reply = chat_response(
        CompletionOutcome::Success(vec!["first".to_string(), "second".to_string()]),
        Some(vec!["T".to_string()]),
    );
    assert_eq!(reply.status, 200);
    assert_eq!(reply.body.response, "first");
    assert_eq!(reply.body.error, None);
    assert_eq!(reply.body.sources, Some(vec!["T".to_string()]));
}

#[test]
fn completion_without_choices_answers_with_fallback() {
    let reply = chat_response(CompletionOutcome::Success(vec![]), None);
    assert_eq!(reply.status, 200);
    assert_eq!(reply.body.response, "I'm here to listen. How are you feeling today?");
}

#[test]
fn completion_upstream_failure_is_a_server_error() {
    let reply = chat_response(CompletionOutcome::Upstream(503, "busy".to_string()), None);
    assert_eq!(reply.status, 500);
    assert_eq!(reply.body.response, "");
    assert_eq!(reply.body.error, Some("AI service temporarily unavailable".to_string()));
    assert!(reply.body.sources.is_none());
}

#[test]
fn completion_transport_failure_is_a_server_error() {
    let reply = chat_response(CompletionOutcome::Transport("refused".to_string()), None);
    assert_eq!(reply.status, 500);
    assert_eq!(reply.body.error, Some("Failed to connect to AI service".to_string()));
}

#[test]
fn completion_malformed_response_is_a_server_error() {
    let reply = chat_response(CompletionOutcome::Malformed("bad json".to_string()), None);
    assert_eq!(reply.status, 500);
    assert_eq!(reply.body.error, Some("Failed to process AI response".to_string()));
}
