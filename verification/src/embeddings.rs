//! Embedding-client core: the error taxonomy of the embedding API and the
//! decision that extracts the embedding vector from a decoded response.
//!
//! The network call itself lives outside the library; it hands over the
//! numeric rows of the response, already converted to fixed point, and takes
//! back either the chosen vector or the error to report.

use vstd::prelude::*;
use vstd::string::StringExecFns;
use crate::text::spec_decimal;
use crate::text::u64_to_string;

verus! {

/// Failure of an embedding request.
#[derive(Debug)]
pub enum EmbedError {
    /// Network or connection failure; carries the transport's message.
    Transport(String),
    /// The API answered with a non-success status; carries status and body.
    Upstream(u16, String),
    /// The response could not be understood; carries a description.
    Malformed(String),
}

/// The human-readable description of an embedding failure.
pub open spec fn spec_embed_error_text(e: EmbedError) -> Seq<char> {
    match e {
        EmbedError::Transport(m) => "Failed to call embedding API: "@ + m@,
        EmbedError::Upstream(status, body) => "Embedding API error: "@ + spec_decimal(status as int)
            + " - "@ + body@,
        EmbedError::Malformed(m) => m@,
    }
}

impl EmbedError {
    /// Renders the failure as the message shown to callers.
    pub fn describe(&self) -> (r: String)
        ensures
            r@ == spec_embed_error_text(*self),
    {
        match self {
            EmbedError::Transport(m) => {
                let mut s = "Failed to call embedding API: ".to_owned();
                s.append(m.as_str());
                s
            },
            EmbedError::Upstream(status, body) => {
                let mut s = "Embedding API error: ".to_owned();
                let num = u64_to_string(*status as u64);
                s.append(num.as_str());
                s.append(" - ");
                s.append(body.as_str());
                s
            },
            EmbedError::Malformed(m) => m.clone(),
        }
    }
}

/// Picks the embedding out of a decoded response: the first row, which must
/// be non-empty.  A response with no rows, or with an empty first row,
/// carries no embedding and is malformed.
pub fn first_embedding(rows: Vec<Vec<i64>>) -> (r: Result<Vec<i64>, EmbedError>)
    ensures
        r is Ok <==> rows@.len() > 0 && rows@[0]@.len() > 0,
        r is Ok ==> r->Ok_0 == rows@[0],
        r is Err ==> (r->Err_0 matches EmbedError::Malformed(m) && m@ == "No embedding returned"@),
{
    let mut rows = rows;
    if rows.len() == 0 {
        return Err(EmbedError::Malformed("No embedding returned".to_owned()));
    }
    let first = rows.remove(0);
    if first.len() == 0 {
        return Err(EmbedError::Malformed("No embedding returned".to_owned()));
    }
    Ok(first)
}

} // verus!
