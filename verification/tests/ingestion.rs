use localrag_core::ingest::{
    check_folder, chunk_payload, document_from_extraction, document_from_read, embed_and_chunk,
    ingest_error_text, plan_for_file, should_index, upsert_outcome, Document, FileOutcome,
    FilePlan, IngestError, IndexedChunk, IngestionSummary,
};
use localrag_core::json::{query_payload, upsert_payload};
use localrag_core::text::{classify_extension, is_blank_text, FileKind};

#[test]
fn folder_must_exist() {
    assert_eq!(check_folder(false), Err(IngestError::FolderNotFound));
    assert_eq!(check_folder(true), Ok(()));
    assert_eq!(
        ingest_error_text(&IngestError::FolderNotFound),
        "Folder not found"
    );
}

#[test]
fn extensions_classify_case_insensitively() {
    assert_eq!(classify_extension("txt"), FileKind::PlainText);
    assert_eq!(classify_extension("TXT"), FileKind::PlainText);
    assert_eq!(classify_extension("md"), FileKind::PlainText);
    assert_eq!(classify_extension("rs"), FileKind::PlainText);
    assert_eq!(classify_extension("js"), FileKind::PlainText);
    assert_eq!(classify_extension("ts"), FileKind::PlainText);
    assert_eq!(classify_extension("py"), FileKind::PlainText);
    assert_eq!(classify_extension("Java"), FileKind::PlainText);
    assert_eq!(classify_extension("pdf"), FileKind::Pdf);
    assert_eq!(classify_extension("PDF"), FileKind::Pdf);
    assert_eq!(classify_extension("png"), FileKind::Unsupported);
    assert_eq!(classify_extension("txt2"), FileKind::Unsupported);
    assert_eq!(classify_extension(""), FileKind::Unsupported);
}

#[test]
fn unsupported_files_are_skipped() {
    assert_eq!(plan_for_file(Some("png")), FilePlan::Skip);
    assert_eq!(plan_for_file(None), FilePlan::Skip);
    assert_eq!(plan_for_file(Some("txt")), FilePlan::ReadAsText);
    assert_eq!(plan_for_file(Some("pdf")), FilePlan::ExtractPdf);
}

#[test]
fn blank_detection() {
    assert!(is_blank_text(""));
    assert!(is_blank_text(" \t\r\n"));
    assert!(!is_blank_text("a"));
    assert!(!is_blank_text("  x  "));
}

#[test]
fn blank_detection_matches_unicode_trim() {
    let samples = [
        "\u{a0}",
        "\u{85}\u{1680}",
        "\u{2000}\u{2005}\u{200a}",
        "\u{2028}\u{2029}\u{202f}\u{205f}\u{3000}",
        " \u{a0} ",
        "\u{a0}x\u{a0}",
        "\u{200b}", // zero-width space is not White_Space
        "_",
    ];
    for s in samples {
        assert_eq!(is_blank_text(s), s.trim().is_empty(), "{s:?}");
    }
}

#[test]
fn blank_documents_are_not_indexed() {
    let blank = Document {
        path: String::from("a.txt"),
        raw_text: String::from("  \n "),
    };
    assert!(!should_index(&blank));
    let nbsp_only = Document {
        path: String::from("a.txt"),
        raw_text: String::from("\u{a0}"),
    };
    assert!(!should_index(&nbsp_only));
    let full = Document {
        path: String::from("a.txt"),
        raw_text: String::from("hello"),
    };
    assert!(should_index(&full));
}

#[test]
fn failed_extraction_keeps_the_document_with_a_placeholder() {
    let d = document_from_extraction(String::from("x.pdf"), false, String::from("ignored"));
    assert_eq!(d.path, "x.pdf");
    assert_eq!(d.raw_text, "[PDF] (no text extracted; install pdftotext)");

    let empty = document_from_extraction(String::from("y.pdf"), true, String::from("  \n"));
    assert_eq!(empty.raw_text, "[PDF] (no text extracted; install pdftotext)");

    let nbsp = document_from_extraction(String::from("w.pdf"), true, String::from("\u{a0}\u{a0}"));
    assert_eq!(nbsp.raw_text, "[PDF] (no text extracted; install pdftotext)");

    let ok = document_from_extraction(String::from("z.pdf"), true, String::from("page one"));
    assert_eq!(ok.raw_text, "page one");
}

#[test]
fn unreadable_files_are_dropped() {
    assert!(document_from_read(String::from("a.txt"), None).is_none());
    let d = document_from_read(String::from("a.txt"), Some(String::from("body"))).unwrap();
    assert_eq!(d.path, "a.txt");
    assert_eq!(d.raw_text, "body");
}

#[test]
fn failed_embed_call_skips_the_document() {
    assert!(embed_and_chunk("a.txt", "body", false, "{\"embedding\":[1.0]}").is_none());
}

#[test]
fn unparsable_embedding_still_stores_the_text() {
    let c = embed_and_chunk("a.txt", "body", true, "not json").unwrap();
    assert_eq!(c.path, "a.txt");
    assert_eq!(c.text, "body");
    assert_eq!(c.embedding, None);
    assert_eq!(c.id.len(), 36);
}

#[test]
fn parsed_embedding_is_kept_as_its_array_text() {
    let c = embed_and_chunk("a.txt", "body", true, "{\"embedding\":[1.0,2.5]}").unwrap();
    assert_eq!(c.embedding.as_deref(), Some("[1.0,2.5]"));
}

#[test]
fn fresh_ids_differ_between_chunks() {
    let a = embed_and_chunk("a.txt", "body", true, "{}").unwrap();
    let b = embed_and_chunk("a.txt", "body", true, "{}").unwrap();
    assert_ne!(a.id, b.id);
}

#[test]
fn upsert_payload_is_exact_json() {
    let p = upsert_payload(
        "abc",
        "dir/a.txt",
        "say \"hi\"\nnow",
        &Some(String::from("[1.0,2.5]")),
    );
    assert_eq!(
        p,
        "{\"id\":\"abc\",\"path\":\"dir/a.txt\",\"text\":\"say \\\"hi\\\"\\u000anow\",\"embedding\":[1.0,2.5]}"
    );
    let v: serde_json::Value = serde_json::from_str(&p).unwrap();
    assert_eq!(v["text"].as_str().unwrap(), "say \"hi\"\nnow");
    assert_eq!(v["embedding"][1].as_f64().unwrap(), 2.5);
}

#[test]
fn text_only_upsert_payload_has_null_embedding() {
    let p = upsert_payload("abc", "a.txt", "body", &None);
    assert_eq!(
        p,
        "{\"id\":\"abc\",\"path\":\"a.txt\",\"text\":\"body\",\"embedding\":null}"
    );
    let v: serde_json::Value = serde_json::from_str(&p).unwrap();
    assert!(v["embedding"].is_null());
}

#[test]
fn backslashes_and_controls_are_escaped() {
    let p = upsert_payload("i", "c:\\docs", "tab\there", &None);
    let v: serde_json::Value = serde_json::from_str(&p).unwrap();
    assert_eq!(v["path"].as_str().unwrap(), "c:\\docs");
    assert_eq!(v["text"].as_str().unwrap(), "tab\there");
}

#[test]
fn query_payload_is_exact_json() {
    let p = query_payload("[0.5,1.5]");
    assert_eq!(p, "{\"embedding\":[0.5,1.5],\"topK\":3}");
    let v: serde_json::Value = serde_json::from_str(&p).unwrap();
    assert_eq!(v["topK"].as_u64().unwrap(), 3);
}

#[test]
fn chunk_payload_uses_the_chunk_fields() {
    let c = IndexedChunk {
        id: String::from("id-1"),
        path: String::from("notes.txt"),
        text: String::from("Paris is the capital of France."),
        embedding: None,
    };
    let p = chunk_payload(&c);
    let v: serde_json::Value = serde_json::from_str(&p).unwrap();
    assert_eq!(v["id"].as_str().unwrap(), "id-1");
    assert_eq!(v["path"].as_str().unwrap(), "notes.txt");
    assert_eq!(
        v["text"].as_str().unwrap(),
        "Paris is the capital of France."
    );
}

#[test]
fn upsert_result_decides_the_record() {
    assert_eq!(upsert_outcome(true), FileOutcome::Indexed);
    assert_eq!(upsert_outcome(false), FileOutcome::UpsertFailed);
}

#[test]
fn summary_records_every_file_in_order() {
    let mut s = IngestionSummary::new();
    assert_eq!(s.len(), 0);
    s.record(String::from("a.txt"), FileOutcome::Indexed);
    s.record(String::from("b.png"), FileOutcome::SkippedUnsupported);
    s.record(String::from("c.txt"), FileOutcome::SkippedEmpty);
    assert_eq!(s.len(), 3);
    assert_eq!(s.reports[0].path, "a.txt");
    assert_eq!(s.reports[0].outcome, FileOutcome::Indexed);
    assert_eq!(s.reports[1].outcome, FileOutcome::SkippedUnsupported);
    assert_eq!(s.reports[2].outcome, FileOutcome::SkippedEmpty);
}

#[test]
fn ingesting_only_a_png_plans_no_work() {
    // A folder that holds one unsupported file: the walk plans no
    // extraction and no upsert, and the run itself succeeds.
    assert_eq!(check_folder(true), Ok(()));
    assert_eq!(plan_for_file(Some("png")), FilePlan::Skip);
    let mut s = IngestionSummary::new();
    s.record(String::from("image.png"), FileOutcome::SkippedUnsupported);
    assert_eq!(s.len(), 1);
    assert_eq!(s.reports[0].outcome, FileOutcome::SkippedUnsupported);
}

#[test]
fn plain_text_file_is_upserted_verbatim() {
    // Supported file with non-empty content: exactly one chunk, whose
    // text is the file's content and whose path is the file's path.
    assert_eq!(plan_for_file(Some("txt")), FilePlan::ReadAsText);
    let doc = document_from_read(
        String::from("notes.txt"),
        Some(String::from("Paris is the capital of France.")),
    )
    .unwrap();
    assert!(should_index(&doc));
    let chunk = embed_and_chunk(&doc.path, &doc.raw_text, true, "{\"embedding\":[0.25]}").unwrap();
    assert_eq!(chunk.path, "notes.txt");
    assert_eq!(chunk.text, "Paris is the capital of France.");
    assert_eq!(chunk.embedding.as_deref(), Some("[0.25]"));
    let payload = chunk_payload(&chunk);
    let v: serde_json::Value = serde_json::from_str(&payload).unwrap();
    assert_eq!(
        v["text"].as_str().unwrap(),
        "Paris is the capital of France."
    );
    assert_eq!(v["path"].as_str().unwrap(), "notes.txt");
}
