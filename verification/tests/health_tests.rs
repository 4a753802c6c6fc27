use curhatin::health::health_response;

#[test]
fn health_reply_when_store_answers() {
    let reply = health_response(true);
    assert_eq!(reply.status, 200);
    assert_eq!(reply.body.status, "ok");
    assert_eq!(
        reply.body.message,
        "AI Mental Chatbot Backend is running. MongoDB: connected"
    );
}

#[test]
fn health_reply_when_store_is_down() {
    let reply = health_response(false);
    assert_eq!(reply.status, 200);
    assert_eq!(reply.body.status, "ok");
    assert_eq!(
        reply.body.message,
        "AI Mental Chatbot Backend is running. MongoDB: disconnected"
    );
}
