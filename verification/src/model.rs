//! Data model of the retrieval-augmented chat core.
//!
//! Embeddings are fixed-point vectors (a component of one million stands for
//! 1.0) and timestamps are milliseconds since the Unix epoch, so that every
//! field the logic reads is a plain value.

use vstd::prelude::*;
use crate::similarity::bounded_components;

verus! {

/// A knowledge document as kept in the store: immutable once created.
#[derive(Debug)]
pub struct KnowledgeDocument {
    pub id: String,
    pub content: String,
    pub title: String,
    pub category: String,
    /// Fixed-point embedding: a component of one million stands for 1.0.
    pub embedding: Vec<i64>,
    /// Creation time, in milliseconds since the Unix epoch.
    pub created_at_millis: i64,
}

impl KnowledgeDocument {
    /// Well-formed: every embedding component is within the fixed-point
    /// range, so that similarity scoring cannot overflow.
    pub open spec fn wf(&self) -> bool {
        bounded_components(self.embedding@)
    }
}

/// All documents of a collection are well-formed.
pub open spec fn all_wf(docs: Seq<KnowledgeDocument>) -> bool {
    forall|i: int| 0 <= i < docs.len() ==> (#[trigger] docs[i]).wf()
}

/// A read-only projection of a knowledge document, annotated with its
/// similarity to the query (a score in millionths; one million is cosine
/// 1.0).  Created transiently per retrieval call and never persisted.
#[derive(Debug)]
pub struct RetrievedDocument {
    pub content: String,
    pub title: String,
    pub category: String,
    pub similarity_millionths: i128,
}

/// A message of the chat exchange.
#[derive(Debug)]
pub struct Message {
    pub role: String,
    pub content: String,
}

/// A conversation message as kept by collaborators that track history; the
/// core only reads role and content.
#[derive(Debug)]
pub struct ConversationMessage {
    pub role: String,
    pub content: String,
    /// Optional timestamp, in milliseconds since the Unix epoch.
    pub timestamp_millis: Option<i64>,
}

/// An inbound chat request.
#[derive(Debug)]
pub struct ChatRequest {
    pub message: String,
    pub category: Option<String>,
    pub conversation_history: Vec<Message>,
}

/// Failure of the persistence layer.
#[derive(Debug)]
pub struct StoreError {
    pub message: String,
}

} // verus!
