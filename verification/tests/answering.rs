use localrag_core::messages::{render_transcript_markdown, role_text, ChatMessage, Role};
use localrag_core::query::{
    assemble_response, build_prompt, query_embedding, respond_without_retrieval,
    sources_from_response, RetrievedChunk, TOP_K,
};
use localrag_core::watch::{WatchEvent, WatchEventKind, Watcher, WatcherState};

fn chunk(text: &str, path: &str, score: &str) -> RetrievedChunk {
    RetrievedChunk {
        text: String::from(text),
        path: String::from(path),
        score_text: String::from(score),
    }
}

fn msg(role: Role, content: &str, timestamp: Option<&str>) -> ChatMessage {
    ChatMessage {
        id: String::from("m"),
        role,
        content: String::from(content),
        timestamp: timestamp.map(String::from),
    }
}

#[test]
fn roles_have_their_words() {
    assert_eq!(role_text(&Role::User), "user");
    assert_eq!(role_text(&Role::Assistant), "assistant");
    assert_eq!(role_text(&Role::System), "system");
}

#[test]
fn failed_query_embedding_skips_retrieval() {
    assert!(query_embedding(false, "{\"embedding\":[1.0]}").is_none());
    assert!(query_embedding(true, "no json here").is_none());
    assert_eq!(
        query_embedding(true, "{\"embedding\":[1.0,2.0]}").as_deref(),
        Some("[1.0,2.0]")
    );
}

#[test]
fn store_response_yields_sources_in_order() {
    let body = "{\"results\":[\
        {\"text\":\"first\",\"path\":\"a.txt\",\"score\":0.9},\
        {\"text\":\"second\",\"path\":\"b.txt\",\"score\":0.7}]}";
    let sources = sources_from_response(true, body);
    assert_eq!(sources.len(), 2);
    assert_eq!(sources[0].text, "first");
    assert_eq!(sources[0].path, "a.txt");
    assert_eq!(sources[0].score_text, "0.9");
    assert_eq!(sources[1].text, "second");
}

#[test]
fn sources_are_cut_to_the_retrieval_depth() {
    let body = "{\"results\":[\
        {\"text\":\"one\",\"path\":\"1\",\"score\":0.9},\
        {\"text\":\"two\",\"path\":\"2\",\"score\":0.8},\
        {\"text\":\"three\",\"path\":\"3\",\"score\":0.7},\
        {\"text\":\"four\",\"path\":\"4\",\"score\":0.6}]}";
    let sources = sources_from_response(true, body);
    assert_eq!(sources.len(), TOP_K);
    assert_eq!(sources[0].text, "one");
    assert_eq!(sources[2].text, "three");
}

#[test]
fn incomplete_store_records_get_defaults() {
    let body = "{\"results\":[{\"path\":\"a.txt\"},{\"text\":7,\"score\":0.5}]}";
    let sources = sources_from_response(true, body);
    assert_eq!(sources.len(), 2);
    assert_eq!(sources[0].text, "");
    assert_eq!(sources[0].path, "a.txt");
    assert_eq!(sources[0].score_text, "null");
    assert_eq!(sources[1].text, "");
    assert_eq!(sources[1].path, "");
    assert_eq!(sources[1].score_text, "0.5");
}

#[test]
fn failed_store_call_yields_no_sources() {
    assert!(sources_from_response(false, "{\"results\":[]}").is_empty());
    assert!(sources_from_response(true, "garbage").is_empty());
}

#[test]
fn prompt_is_assembled_exactly() {
    let contexts = vec![chunk("Paris is the capital of France.", "notes.txt", "0.9")];
    let history = vec![
        msg(Role::User, "hello", None),
        msg(Role::Assistant, "hi there", None),
    ];
    let p = build_prompt(&contexts, &history, "What is the capital of France?");
    assert_eq!(
        p,
        "You are LocalRAG Pro, a helpful assistant. Use the provided context to answer the question.\n\nCONTEXT:\n\
         ---\nParis is the capital of France.\n\n\
         \nConversation:\nuser: hello\nassistant: hi there\n\
         \nUser: What is the capital of France?\nAssistant:"
    );
    assert!(p.contains("Paris is the capital of France."));
}

#[test]
fn prompt_without_contexts_or_history() {
    let p = build_prompt(&Vec::new(), &Vec::new(), "q");
    assert_eq!(
        p,
        "You are LocalRAG Pro, a helpful assistant. Use the provided context to answer the question.\n\nCONTEXT:\n\
         \nConversation:\n\nUser: q\nAssistant:"
    );
}

#[test]
fn generation_failure_becomes_a_marked_answer() {
    let r = assemble_response(
        false,
        String::from("ignored"),
        "model not found",
        vec![chunk("t", "p", "1")],
    );
    assert_eq!(r.answer, "(failed to generate answer): model not found");
    assert_eq!(r.sources.len(), 1);
    assert_eq!(r.sources[0].text, "t");
}

#[test]
fn successful_generation_is_returned_verbatim() {
    let r = assemble_response(true, String::from("Paris."), "", Vec::new());
    assert_eq!(r.answer, "Paris.");
    assert!(r.sources.is_empty());
}

#[test]
fn embedding_failure_still_answers_with_no_sources() {
    assert!(query_embedding(false, "").is_none());
    let r = respond_without_retrieval(false, String::new(), "backend down");
    assert!(r.sources.is_empty());
    assert_eq!(r.answer, "(failed to generate answer): backend down");
    assert!(!r.answer.is_empty());

    let ok = respond_without_retrieval(true, String::from("an answer"), "");
    assert!(ok.sources.is_empty());
    assert_eq!(ok.answer, "an answer");
}

#[test]
fn upserted_chunk_comes_back_from_a_conformant_store() {
    // Round trip against a store that returns the stored chunk for its
    // own embedding: the chunk is among the (at most three) top sources.
    let stored = localrag_core::ingest::embed_and_chunk(
        "notes.txt",
        "Paris is the capital of France.",
        true,
        "{\"embedding\":[0.5,0.5]}",
    )
    .unwrap();
    let response = format!(
        "{{\"results\":[{{\"text\":\"{}\",\"path\":\"{}\",\"score\":1.0}}]}}",
        stored.text, stored.path
    );
    let sources = sources_from_response(true, &response);
    assert!(sources.len() <= 3);
    assert!(sources
        .iter()
        .any(|s| s.text == stored.text && s.path == stored.path));
}

#[test]
fn transcript_markdown_is_exact() {
    let ms = vec![
        msg(Role::User, "hello", Some("2024-01-01T00:00:00Z")),
        msg(Role::Assistant, "hi", None),
    ];
    let md = render_transcript_markdown(&ms);
    assert_eq!(
        md,
        "**user** (2024-01-01T00:00:00Z)\n\nhello\n\n**assistant** ()\n\nhi\n\n"
    );
}

#[test]
fn watcher_registers_once_and_only_observes() {
    let w = Watcher::unregistered();
    assert_eq!(w.state, WatcherState::Unregistered);
    assert!(!w.change_pending);
    let mut w = w.register(String::from("/data/docs"));
    assert_eq!(w.state, WatcherState::Watching);
    assert!(!w.reingest_may_be_needed());

    let note = w.observe(&WatchEvent {
        kind: WatchEventKind::Other,
        paths: vec![String::from("/data/docs/tmp")],
    });
    assert!(note.is_none());
    assert!(!w.reingest_may_be_needed());

    let note = w.observe(&WatchEvent {
        kind: WatchEventKind::Modified,
        paths: vec![String::from("/data/docs/a.txt")],
    });
    assert_eq!(
        note.as_deref(),
        Some("Change detected; you may want to re-index: /data/docs")
    );
    assert_eq!(w.state, WatcherState::Watching);
    assert!(w.reingest_may_be_needed());

    let note = w.observe(&WatchEvent {
        kind: WatchEventKind::Created,
        paths: Vec::new(),
    });
    assert!(note.is_some());
    let note = w.observe(&WatchEvent {
        kind: WatchEventKind::Removed,
        paths: Vec::new(),
    });
    assert!(note.is_some());
}
