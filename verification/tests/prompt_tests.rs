use curhatin::model::RetrievedDocument;
use curhatin::prompts::get_system_prompt;
use curhatin::rag::RagService;

fn retrieved(title: &str, content: &str, category: &str, score: i128) -> RetrievedDocument {
    RetrievedDocument {
        content: content.to_string(),
        title: title.to_string(),
        category: category.to_string(),
        similarity_millionths: score,
    }
}

#[test]
fn augment_with_empty_context_returns_base_unchanged() {
    let rag = RagService::new();
    let base = "You are a helpful assistant.";
    let out = rag.augment_prompt(base, &vec![]);
    assert_eq!(out, base);
}

#[test]
fn augment_with_one_document_has_exact_shape() {
    let rag = RagService::new();
    let ctx = vec![retrieved("T", "X", "c", 500_000)];
    let out = rag.augment_prompt("B", &ctx);
    let expected = "B\n\n## Reference Knowledge Base\nUse the following information to provide accurate, helpful responses when relevant:\n\n---\nDocument 1 (c): T\nX\n\n---\n\nRemember: Only reference this information if it's relevant to the user's question. Always prioritize empathetic listening.";
    assert_eq!(out, expected);
}

#[test]
fn augment_keeps_base_as_prefix_and_lists_every_title() {
    let rag = RagService::new();
    let base = "Base instructions.";
    let ctx = vec![
        retrieved("Sleep Hygiene", "sleep content", "health", 900_000),
        retrieved("Anxiety Coping", "breathing exercises help", "health", 800_000),
        retrieved("Gratitude", "journal daily", "growth", 400_000),
    ];
    let out = rag.augment_prompt(base, &ctx);
    assert!(out.starts_with(base));
    assert!(out.contains("Sleep Hygiene"));
    assert!(out.contains("Anxiety Coping"));
    assert!(out.contains("Gratitude"));
    assert!(out.contains("Document 1 (health): Sleep Hygiene"));
    assert!(out.contains("Document 2 (health): Anxiety Coping"));
    assert!(out.contains("Document 3 (growth): Gratitude"));
}

#[test]
fn augment_numbers_reach_two_digits() {
    let rag = RagService::new();
    let mut ctx = Vec::new();
    let mut i = 0;
    while i < 12 {
        ctx.push(retrieved(&format!("title{}", i), "c", "g", 500_000));
        i += 1;
    }
    let out = rag.augment_prompt("B", &ctx);
    assert!(out.contains("Document 10 (g): title9"));
    assert!(out.contains("Document 12 (g): title11"));
}

#[test]
fn system_prompt_without_category_is_general() {
    let p = get_system_prompt(None);
    assert!(p.starts_with("You are a compassionate mental wellness companion"));
    assert!(!p.contains("career-related concerns"));
}

#[test]
fn system_prompt_for_career_appends_career_section() {
    let p = get_system_prompt(Some("career"));
    assert!(p.starts_with("You are a compassionate mental wellness companion"));
    assert!(p.contains("career-related concerns"));
    let indonesian = get_system_prompt(Some("karir"));
    assert_eq!(p, indonesian);
}

#[test]
fn system_prompt_category_matching_ignores_ascii_case() {
    assert_eq!(get_system_prompt(Some("KARIR")), get_system_prompt(Some("karir")));
    assert_eq!(get_system_prompt(Some("Romance")), get_system_prompt(Some("romance")));
    assert_eq!(
        get_system_prompt(Some("Self Development")),
        get_system_prompt(Some("self development"))
    );
}

#[test]
fn system_prompt_for_known_categories() {
    assert!(get_system_prompt(Some("love")).contains("love, dating, breakups, and loneliness"));
    assert!(get_system_prompt(Some("family")).contains("family conflict, distance, or expectations"));
    assert!(get_system_prompt(Some("keluarga")).contains("family conflict"));
    assert!(get_system_prompt(Some("growth")).contains("self-improvement, habits, and self-worth"));
    assert!(get_system_prompt(Some("asmara")).contains("relationship confidant"));
}

#[test]
fn system_prompt_for_unknown_category_is_general() {
    let general = get_system_prompt(None);
    assert_eq!(get_system_prompt(Some("cooking")), general);
    assert_eq!(get_system_prompt(Some("")), general);
}
