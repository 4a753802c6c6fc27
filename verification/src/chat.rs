//! The decision logic of the chat flow: request validation, the fallback
//! policy around best-effort retrieval, assembly of the message sequence
//! (with the history cut to its most recent turns), and the shaping of the
//! HTTP reply from the completion API's outcome.
//!
//! The surrounding program performs the network calls; it asks this module
//! what to do before each one and hands back what came over the wire.

use vstd::prelude::*;
use crate::model::ChatRequest;
use crate::model::Message;
use crate::model::RetrievedDocument;
use crate::rag::RagService;
use crate::rag::RetrievalError;
use crate::rag::spec_augment;
use crate::text::is_blank;
use crate::text::spec_is_blank;

verus! {

/// How many prior conversation turns are kept when the messages for the
/// completion API are assembled.
pub const HISTORY_LIMIT: usize = 10;

/// The body of a chat reply.
pub struct ChatResponse {
    pub response: String,
    pub error: Option<String>,
    pub sources: Option<Vec<String>>,
}

/// A finished chat reply: an HTTP status code and its body.
pub struct ChatReply {
    pub status: u16,
    pub body: ChatResponse,
}

/// The first decision of the chat flow: reject the request outright, or
/// proceed to retrieval with the given query.
pub enum ChatStep {
    /// The request is invalid; this reply goes out and no remote API is
    /// called.
    Rejected(ChatReply),
    /// Retrieve context for `query`, keeping at most `top_k` documents.
    Retrieve { query: String, top_k: usize },
}

/// Validates a chat request: a blank message is rejected with a validation
/// error before any remote call; anything else proceeds to retrieval of the
/// top 3 documents for the message text.
pub fn begin_chat(req: &ChatRequest) -> (step: ChatStep)
    ensures
        spec_is_blank(req.message@) ==> (step matches ChatStep::Rejected(rep) && rep.status == 400
            && rep.body.response@.len() == 0 && (rep.body.error matches Some(m) && m@
            == "Message cannot be empty"@) && rep.body.sources is None),
        !spec_is_blank(req.message@) ==> (step matches ChatStep::Retrieve { query, top_k } && query
            == req.message && top_k == 3),
{
    if is_blank(req.message.as_str()) {
        ChatStep::Rejected(
            ChatReply {
                status: 400,
                body: ChatResponse {
                    response: String::new(),
                    error: Some("Message cannot be empty".to_owned()),
                    sources: None,
                },
            },
        )
    } else {
        ChatStep::Retrieve { query: req.message.clone(), top_k: 3 }
    }
}

/// The titles of the retrieved documents, in order.
pub open spec fn spec_titles(ctx: Seq<RetrievedDocument>) -> Seq<String> {
    ctx.map_values(|d: RetrievedDocument| d.title)
}

/// Applies the fallback policy around best-effort retrieval: a successful
/// retrieval augments the base prompt and lists the sources (none when no
/// document survived); a failed retrieval falls back to the base prompt
/// unchanged, with no sources, and the chat proceeds.
pub fn choose_prompt(
    rag: &RagService,
    base_prompt: &str,
    retrieval: Result<Vec<RetrievedDocument>, RetrievalError>,
) -> (r: (String, Option<Vec<String>>))
    ensures
        match retrieval {
            Ok(ctx) => r.0@ == spec_augment(base_prompt@, ctx@) && (ctx@.len() == 0 ==> r.1
                is None) && (ctx@.len() > 0 ==> (r.1 matches Some(titles) && titles@
                == spec_titles(ctx@))),
            Err(_) => r.0@ == base_prompt@ && r.1 is None,
        },
{
    match retrieval {
        Ok(ctx) => {
            let prompt = rag.augment_prompt(base_prompt, &ctx);
            if ctx.len() == 0 {
                (prompt, None)
            } else {
                let mut titles: Vec<String> = Vec::new();
                let n: usize = ctx.len();
                let mut i: usize = 0;
                while i < n
                    invariant
                        n == ctx@.len(),
                        0 <= i <= n,
                        titles@ == spec_titles(ctx@.take(i as int)),
                    decreases n - i,
                {
                    titles.push(ctx[i].title.clone());
                    proof {
                        assert(titles@ =~= spec_titles(ctx@.take(i as int + 1)));
                    }
                    i = i + 1;
                }
                proof {
                    assert(ctx@.take(n as int) =~= ctx@);
                }
                (prompt, Some(titles))
            }
        },
        Err(_) => (base_prompt.to_owned(), None),
    }
}

/// How many history messages are kept out of `n`.
pub open spec fn spec_kept_history(n: int) -> int {
    if n > 10 {
        10
    } else {
        n
    }
}

/// Assembles the message sequence for the completion API: the system prompt
/// first, then the most recent `HISTORY_LIMIT` conversation turns, oldest
/// first, then the new user message.
pub fn build_messages(system_prompt: String, history: &Vec<Message>, user_message: String) -> (r:
    Vec<Message>)
    ensures
        r@.len() == spec_kept_history(history@.len() as int) + 2,
        r@[0].role@ == "system"@ && r@[0].content == system_prompt,
        forall|j: int|
            0 <= j < spec_kept_history(history@.len() as int) ==> #[trigger] r@[1 + j]
                == history@[history@.len() - spec_kept_history(history@.len() as int) + j],
        r@[r@.len() - 1].role@ == "user"@ && r@[r@.len() - 1].content == user_message,
{
    let mut msgs: Vec<Message> = Vec::new();
    msgs.push(Message { role: "system".to_owned(), content: system_prompt });
    let len: usize = history.len();
    let start: usize = if len > HISTORY_LIMIT {
        len - HISTORY_LIMIT
    } else {
        0
    };
    let mut i: usize = start;
    while i < len
        invariant
            len == history@.len(),
            start == if len > 10 {
                len - 10
            } else {
                0
            },
            start <= i <= len,
            msgs@.len() == 1 + i - start,
            msgs@[0].role@ == "system"@ && msgs@[0].content == system_prompt,
            forall|j: int| 0 <= j < i - start ==> #[trigger] msgs@[1 + j] == history@[start + j],
        decreases len - i,
    {
        let h = &history[i];
        msgs.push(Message { role: h.role.clone(), content: h.content.clone() });
        i = i + 1;
    }
    msgs.push(Message { role: "user".to_owned(), content: user_message });
    msgs
}

/// The reply used when the completion API returns no choices.
pub open spec fn spec_fallback_reply() -> Seq<char> {
    "I'm here to listen. How are you feeling today?"@
}

/// What came back from the completion API, reduced to what the reply
/// depends on.
pub enum CompletionOutcome {
    /// A successful response: the content of each returned choice, in order.
    Success(Vec<String>),
    /// A non-success status, with the body text.
    Upstream(u16, String),
    /// The call itself failed; carries the transport's message.
    Transport(String),
    /// The response body could not be understood.
    Malformed(String),
}

/// Shapes the outgoing chat reply: a successful completion answers with its
/// first choice (or the static fallback when there is none) and the sources;
/// every failure of the completion API is a server error with the matching
/// message and no sources.
pub fn chat_response(outcome: CompletionOutcome, sources: Option<Vec<String>>) -> (r: ChatReply)
    ensures
        match outcome {
            CompletionOutcome::Success(choices) => r.status == 200 && r.body.error is None
                && r.body.sources == sources && (choices@.len() == 0 ==> r.body.response@
                == spec_fallback_reply()) && (choices@.len() > 0 ==> r.body.response
                == choices@[0]),
            CompletionOutcome::Upstream(_, _) => r.status == 500 && r.body.response@.len() == 0 && (
            r.body.error matches Some(m) && m@ == "AI service temporarily unavailable"@)
                && r.body.sources is None,
            CompletionOutcome::Transport(_) => r.status == 500 && r.body.response@.len() == 0 && (
            r.body.error matches Some(m) && m@ == "Failed to connect to AI service"@)
                && r.body.sources is None,
            CompletionOutcome::Malformed(_) => r.status == 500 && r.body.response@.len() == 0 && (
            r.body.error matches Some(m) && m@ == "Failed to process AI response"@)
                && r.body.sources is None,
        },
{
    match outcome {
        CompletionOutcome::Success(choices) => {
            let mut choices = choices;
            let reply: String = if choices.len() == 0 {
                "I'm here to listen. How are you feeling today?".to_owned()
            } else {
                choices.remove(0)
            };
            ChatReply {
                status: 200,
                body: ChatResponse { response: reply, error: None, sources: sources },
            }
        },
        CompletionOutcome::Upstream(_, _) => ChatReply {
            status: 500,
            body: ChatResponse {
                response: String::new(),
                error: Some("AI service temporarily unavailable".to_owned()),
                sources: None,
            },
        },
        CompletionOutcome::Transport(_) => ChatReply {
            status: 500,
            body: ChatResponse {
                response: String::new(),
                error: Some("Failed to connect to AI service".to_owned()),
                sources: None,
            },
        },
        CompletionOutcome::Malformed(_) => ChatReply {
            status: 500,
            body: ChatResponse {
                response: String::new(),
                error: Some("Failed to process AI response".to_owned()),
                sources: None,
            },
        },
    }
}

} // verus!
