//! The health check's reply: the service always answers, and the message
//! names whether the store's ping succeeded.

use vstd::prelude::*;
use vstd::string::StringExecFns;

verus! {

/// The body of a health reply.
pub struct HealthResponse {
    pub status: String,
    pub message: String,
}

/// A finished health reply: an HTTP status code and its body.
pub struct HealthReply {
    pub status: u16,
    pub body: HealthResponse,
}

/// Shapes the health reply from the outcome of the store's ping: always a
/// successful status with "ok", the message naming the store connected or
/// disconnected.
pub fn health_response(db_ok: bool) -> (r: HealthReply)
    ensures
        r.status == 200,
        r.body.status@ == "ok"@,
        r.body.message@ == "AI Mental Chatbot Backend is running. MongoDB: "@ + (if db_ok {
            "connected"@
        } else {
            "disconnected"@
        }),
{
    let mut message = "AI Mental Chatbot Backend is running. MongoDB: ".to_owned();
    if db_ok {
        message.append("connected");
    } else {
        message.append("disconnected");
    }
    HealthReply { status: 200, body: HealthResponse { status: "ok".to_owned(), message: message } }
}

} // verus!
