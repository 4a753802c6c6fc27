use curhatin::model::KnowledgeDocument;
use curhatin::model::StoreError;
use curhatin::embeddings::EmbedError;
use curhatin::rag::RagService;
use curhatin::rag::RetrievalError;
use curhatin::rag::score_documents;
use curhatin::rag::select_top;
use curhatin::rag::sort_by_score;

fn doc(id: &str, title: &str, content: &str, embedding: Vec<i64>) -> KnowledgeDocument {
    KnowledgeDocument {
        id: id.to_string(),
        content: content.to_string(),
        title: title.to_string(),
        category: "general".to_string(),
        embedding,
        created_at_millis: 1_700_000_000_000,
    }
}

#[test]
fn retrieve_returns_at_most_top_k_and_only_relevant() {
    let rag = RagService::new();
    let query: Vec<i64> = vec![1_000_000, 0];
    let docs = vec![
        doc("1", "identical", "a", vec![1_000_000, 0]),
        doc("2", "orthogonal", "b", vec![0, 1_000_000]),
        doc("3", "close", "c", vec![900_000, 100_000]),
        doc("4", "also close", "d", vec![800_000, 200_000]),
    ];
    let out = rag.retrieve_context(Ok(query), Ok(docs), 2).unwrap();
    assert_eq!(out.len(), 2);
    for d in &out {
        assert!(d.similarity_millionths >= 300_000);
    }
    assert_eq!(out[0].title, "identical");
    assert_eq!(out[0].similarity_millionths, 1_000_000);
    assert!(out[0].similarity_millionths >= out[1].similarity_millionths);
}

#[test]
fn retrieve_drops_documents_below_threshold() {
    let rag = RagService::new();
    let query: Vec<i64> = vec![1_000_000, 0];
    let docs = vec![
        // scores about 0.25: below the 0.3 threshold
        doc("1", "faint", "a", vec![250_000, 968_245]),
        // orthogonal: score 0
        doc("2", "unrelated", "b", vec![0, 1_000_000]),
    ];
    let out = rag.retrieve_context(Ok(query), Ok(docs), 5).unwrap();
    assert_eq!(out.len(), 0);
}

#[test]
fn retrieve_propagates_embedding_failure() {
    let rag = RagService::new();
    let err = rag
        .retrieve_context(
            Err(EmbedError::Transport("down".to_string())),
            Ok(vec![]),
            3,
        )
        .unwrap_err();
    assert!(matches!(err, RetrievalError::EmbeddingFailed(EmbedError::Transport(_))));
}

#[test]
fn retrieve_propagates_store_failure() {
    let rag = RagService::new();
    let query: Vec<i64> = vec![1_000_000];
    let err = rag
        .retrieve_context(
            Ok(query),
            Err(StoreError { message: "no connection".to_string() }),
            3,
        )
        .unwrap_err();
    match err {
        RetrievalError::StoreFailed(se) => assert_eq!(se.message, "no connection"),
        _ => panic!("expected a store failure"),
    }
}

#[test]
fn ingested_document_is_retrieved_as_top_result() {
    // Ingest a document, then query with an identical embedding: the
    // document must come back as the only result, scoring at least 0.3.
    let rag = RagService::new();
    let embedding: Vec<i64> = vec![700_000, 100_000, 50_000];
    let stored = doc(
        "anxiety-1",
        "Anxiety Coping",
        "breathing exercises help",
        embedding.clone(),
    );
    let out = rag.retrieve_context(Ok(embedding), Ok(vec![stored]), 3).unwrap();
    assert_eq!(out.len(), 1);
    assert_eq!(out[0].title, "Anxiety Coping");
    assert_eq!(out[0].content, "breathing exercises help");
    // identical embeddings: self-similarity is exactly 1.0
    assert_eq!(out[0].similarity_millionths, 1_000_000);
    assert!(out[0].similarity_millionths >= 300_000);
}

#[test]
fn sort_by_score_orders_descending() {
    let query: Vec<i64> = vec![1_000_000, 0];
    let docs = vec![
        doc("1", "low", "a", vec![400_000, 916_515]),
        doc("2", "high", "b", vec![1_000_000, 0]),
        doc("3", "mid", "c", vec![800_000, 600_000]),
    ];
    let ranked = sort_by_score(score_documents(&query, &docs));
    assert_eq!(ranked.len(), 3);
    assert_eq!(ranked[0].title, "high");
    assert_eq!(ranked[1].title, "mid");
    assert_eq!(ranked[2].title, "low");
    assert!(ranked[0].similarity_millionths >= ranked[1].similarity_millionths);
    assert!(ranked[1].similarity_millionths >= ranked[2].similarity_millionths);
}

#[test]
fn select_top_takes_qualified_prefix() {
    let query: Vec<i64> = vec![1_000_000, 0];
    let docs = vec![
        doc("1", "high", "a", vec![1_000_000, 0]),
        doc("2", "mid", "b", vec![800_000, 600_000]),
        doc("3", "out", "c", vec![0, 1_000_000]),
    ];
    let ranked = sort_by_score(score_documents(&query, &docs));
    let picked = select_top(ranked, 10, 300_000);
    assert_eq!(picked.len(), 2);
    assert_eq!(picked[0].title, "high");
    assert_eq!(picked[1].title, "mid");
}
