//! Core of a retrieval-augmented chat backend: fixed-point cosine
//! similarity, ranking of stored knowledge documents against a query
//! embedding, prompt augmentation with retrieved context, category-specific
//! system prompts, and the decision logic of the chat and ingestion flows.
//!
//! All similarity arithmetic is carried out in fixed point: an embedding
//! component or a similarity score of one million stands for 1.0.  The
//! surrounding program converts the embedding API's numbers into this
//! representation before handing them to the library.

pub mod chat;
pub mod embeddings;
pub mod health;
pub mod ingest;
pub mod model;
pub mod prompts;
pub mod rag;
pub mod similarity;
pub mod text;
