//! The decision logic of the ingestion flow: request validation, the
//! construction of a knowledge document with a fresh identifier and the
//! current timestamp, and the shaping of the HTTP reply.
//!
//! The surrounding program embeds the content and stores the document; it
//! asks this module what to do before those calls and hands back what they
//! returned.

use vstd::prelude::*;
use vstd::string::StringExecFns;
use crate::embeddings::EmbedError;
use crate::embeddings::spec_embed_error_text;
use crate::model::KnowledgeDocument;
use crate::model::StoreError;
use crate::similarity::bounded_components;
use crate::text::is_blank;
use crate::text::spec_is_blank;

verus! {

/// The body of an ingestion reply.
pub struct IngestResponse {
    pub success: bool,
    pub id: String,
    pub error: Option<String>,
}

/// A finished ingestion reply: an HTTP status code and its body.
pub struct IngestReply {
    pub status: u16,
    pub body: IngestResponse,
}

/// Relies on uuid::Uuid::new_v4 and the hyphenated rendering of its
/// Display impl: a freshly drawn random identifier, 36 characters long.
/// Nothing more can be promised of a random value.
#[verifier::external_body]
fn fresh_document_id() -> (r: String)
    ensures
        r@.len() == 36,
{
    uuid::Uuid::new_v4().to_string()
}

/// Relies on chrono::Utc::now and DateTime::timestamp_millis: the wall
/// clock's reading in milliseconds since the Unix epoch.  Nothing can be
/// promised of the clock.
#[verifier::external_body]
fn current_time_millis() -> i64 {
    chrono::Utc::now().timestamp_millis()
}

/// Validates an ingestion request: blank content is rejected with a
/// validation error before any remote call; anything else proceeds.
pub fn ingest_rejection(content: &str) -> (r: Option<IngestReply>)
    ensures
        r is Some <==> spec_is_blank(content@),
        match r {
            Some(rep) => rep.status == 400 && !rep.body.success && rep.body.id@.len() == 0 && (
            rep.body.error matches Some(m) && m@ == "Content cannot be empty"@),
            None => !spec_is_blank(content@),
        },
{
    if is_blank(content) {
        Some(
            IngestReply {
                status: 400,
                body: IngestResponse {
                    success: false,
                    id: String::new(),
                    error: Some("Content cannot be empty".to_owned()),
                },
            },
        )
    } else {
        None
    }
}

/// Builds the knowledge document to persist: the given fields, a fresh
/// 36-character identifier, and the current time as creation timestamp.
pub fn build_document(title: String, content: String, category: String, embedding: Vec<i64>) -> (d:
    KnowledgeDocument)
    requires
        bounded_components(embedding@),
    ensures
        d.title == title,
        d.content == content,
        d.category == category,
        d.embedding == embedding,
        d.id@.len() == 36,
        d.wf(),
{
    KnowledgeDocument {
        id: fresh_document_id(),
        content: content,
        title: title,
        category: category,
        embedding: embedding,
        created_at_millis: current_time_millis(),
    }
}

/// The outcome of an ingestion attempt, after validation.
pub enum IngestOutcome {
    /// The document was stored under this identifier.
    Created(String),
    /// The content could not be embedded.
    EmbeddingFailed(EmbedError),
    /// The document could not be stored.
    StoreFailed(StoreError),
}

/// Shapes the outgoing ingestion reply: creation answers with the new
/// identifier; an embedding or store failure is a server error carrying the
/// failure's description.
pub fn ingest_response(outcome: IngestOutcome) -> (r: IngestReply)
    ensures
        match outcome {
            IngestOutcome::Created(id) => r.status == 201 && r.body.success && r.body.id == id
                && r.body.error is None,
            IngestOutcome::EmbeddingFailed(e) => r.status == 500 && !r.body.success
                && r.body.id@.len() == 0 && (r.body.error matches Some(m) && m@
                == "Failed to generate embedding: "@ + spec_embed_error_text(e)),
            IngestOutcome::StoreFailed(se) => r.status == 500 && !r.body.success
                && r.body.id@.len() == 0 && (r.body.error matches Some(m) && m@
                == "Failed to store document: "@ + se.message@),
        },
{
    match outcome {
        IngestOutcome::Created(id) => IngestReply {
            status: 201,
            body: IngestResponse { success: true, id: id, error: None },
        },
        IngestOutcome::EmbeddingFailed(e) => {
            let mut msg = "Failed to generate embedding: ".to_owned();
            let detail = e.describe();
            msg.append(detail.as_str());
            IngestReply {
                status: 500,
                body: IngestResponse { success: false, id: String::new(), error: Some(msg) },
            }
        },
        IngestOutcome::StoreFailed(se) => {
            let mut msg = "Failed to store document: ".to_owned();
            msg.append(se.message.as_str());
            IngestReply {
                status: 500,
                body: IngestResponse { success: false, id: String::new(), error: Some(msg) },
            }
        },
    }
}

} // verus!
