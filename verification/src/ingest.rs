//! Per-file decisions of the ingestion pipeline: what to do with a file,
//! when a document is worth indexing, and what is handed to the vector
//! store for it. The folder walk, the file reads, the extraction utility
//! and the inference calls happen outside; their outcomes come in as
//! plain values.

use vstd::prelude::*;
use crate::text::{FileKind, kind_of_extension, is_blank, is_blank_text};
use crate::json::{upsert_payload, upsert_payload_of, embedding_text_of, extract_embedding_json};

verus! {

/// A document produced by text extraction: the file's path and its
/// extracted text.
pub struct Document {
    pub path: String,
    pub raw_text: String,
}

/// What the pipeline does with one file.
#[derive(PartialEq, Eq, Structural, Clone, Copy, Debug)]
pub enum FilePlan {
    /// Read the file verbatim as UTF-8.
    ReadAsText,
    /// Run the layout-preserving extraction utility on it.
    ExtractPdf,
    /// Leave the file alone: neither extraction nor upsert.
    Skip,
}

/// The plan an extension selects.
pub open spec fn plan_of_extension(ext: Seq<char>) -> FilePlan {
    match kind_of_extension(ext) {
        FileKind::PlainText => FilePlan::ReadAsText,
        FileKind::Pdf => FilePlan::ExtractPdf,
        FileKind::Unsupported => FilePlan::Skip,
    }
}

/// Decide what to do with a file from its extension; a file without an
/// extension is skipped.
pub fn plan_for_file(ext: Option<&str>) -> (r: FilePlan)
    ensures
        ext is None ==> r == FilePlan::Skip,
        ext matches Some(e) ==> r == plan_of_extension(e@),
{
    match ext {
        None => FilePlan::Skip,
        Some(e) => {
            match crate::text::classify_extension(e) {
                FileKind::PlainText => FilePlan::ReadAsText,
                FileKind::Pdf => FilePlan::ExtractPdf,
                FileKind::Unsupported => FilePlan::Skip,
            }
        },
    }
}

/// The sentinel text a document carries when the extraction utility
/// could not deliver any.
pub open spec fn pdf_placeholder() -> Seq<char> {
    "[PDF] (no text extracted; install pdftotext)"@
}

/// Extraction of a file succeeds only with a zero exit status and
/// non-blank output.
pub open spec fn extraction_succeeded(exit_ok: bool, out: Seq<char>) -> bool {
    exit_ok && !is_blank(out)
}

/// The document for a file the extraction utility ran on: its own text
/// when extraction succeeded, the placeholder sentinel otherwise, so the
/// file is still represented rather than dropped.
pub fn document_from_extraction(path: String, exit_ok: bool, out: String) -> (d: Document)
    ensures
        d.path@ == path@,
        extraction_succeeded(exit_ok, out@) ==> d.raw_text@ == out@,
        !extraction_succeeded(exit_ok, out@) ==> d.raw_text@ == pdf_placeholder(),
{
    if exit_ok && !is_blank_text(out.as_str()) {
        Document { path, raw_text: out }
    } else {
        Document { path, raw_text: String::from_str("[PDF] (no text extracted; install pdftotext)") }
    }
}

/// The document for a file read verbatim: present only when the read
/// itself succeeded.
pub fn document_from_read(path: String, content: Option<String>) -> (d: Option<Document>)
    ensures
        d is Some <==> content is Some,
        d matches Some(doc) ==> doc.path@ == path@ && (content matches Some(c) && doc.raw_text@
            == c@),
{
    match content {
        Some(c) => Some(Document { path, raw_text: c }),
        None => None,
    }
}

/// A document is worth indexing exactly when its trimmed text is
/// non-empty.
pub open spec fn indexable(text: Seq<char>) -> bool {
    !is_blank(text)
}

/// A document is indexed only when its trimmed text is non-empty; for a
/// blank document neither an embedding request nor an upsert is made.
pub fn should_index(doc: &Document) -> (r: bool)
    ensures
        r == indexable(doc.raw_text@),
{
    !is_blank_text(doc.raw_text.as_str())
}

/// One chunk as handed to the vector store: a fresh identifier, the
/// source path and text, and the embedding where one was obtained.
pub struct IndexedChunk {
    pub id: String,
    pub path: String,
    pub text: String,
    pub embedding: Option<String>,
}

/// Relies on `uuid::Uuid::new_v4` and its `Display` form: a fresh random
/// identifier written as 36 characters of hyphenated hexadecimal.
#[verifier::external_body]
fn fresh_chunk_id() -> (r: String)
    ensures
        r@.len() == 36,
{
    uuid::Uuid::new_v4().to_string()
}

/// The embed step of one document, given the inference response: on a
/// failed embed call the document is skipped; otherwise a chunk is built
/// that keeps the document's own path and text, with the embedding the
/// response carried, or none when the response did not parse — the
/// document is still stored in that case.
pub fn embed_and_chunk(path: &str, text: &str, embed_exit_ok: bool, embed_stdout: &str) -> (r:
    Option<IndexedChunk>)
    ensures
        r is Some <==> embed_exit_ok,
        r matches Some(c) ==> {
            &&& c.path@ == path@
            &&& c.text@ == text@
            &&& c.id@.len() == 36
            &&& c.embedding.deep_view() == embedding_text_of(embed_stdout@)
        },
{
    if !embed_exit_ok {
        return None;
    }
    let embedding = extract_embedding_json(embed_stdout);
    let id = fresh_chunk_id();
    Some(IndexedChunk {
        id,
        path: String::from_str(path),
        text: String::from_str(text),
        embedding,
    })
}

/// The upsert request for a chunk.
pub fn chunk_payload(c: &IndexedChunk) -> (r: String)
    ensures
        r@ == upsert_payload_of(c.id@, c.path@, c.text@, c.embedding.deep_view()),
{
    upsert_payload(c.id.as_str(), c.path.as_str(), c.text.as_str(), &c.embedding)
}

/// The one error the ingestion entry point can surface.
#[derive(PartialEq, Eq, Structural, Clone, Copy, Debug)]
pub enum IngestError {
    FolderNotFound,
}

/// The message shown for a failed ingestion.
pub fn ingest_error_text(e: &IngestError) -> (r: String)
    ensures
        r@ == "Folder not found"@,
{
    match e {
        IngestError::FolderNotFound => String::from_str("Folder not found"),
    }
}

/// The first step of the ingestion entry point: it goes ahead exactly
/// when the folder exists, and otherwise fails with the folder-not-found
/// error before any file is touched.
pub fn check_folder(folder_exists: bool) -> (r: Result<(), IngestError>)
    ensures
        r is Ok <==> folder_exists,
        r matches Err(e) ==> e == IngestError::FolderNotFound,
{
    if folder_exists {
        Ok(())
    } else {
        Err(IngestError::FolderNotFound)
    }
}

/// How one file fared during ingestion.
#[derive(PartialEq, Eq, Structural, Clone, Copy, Debug)]
pub enum FileOutcome {
    /// Extracted, embedded (or stored text-only) and upserted.
    Indexed,
    /// Unsupported extension: left alone.
    SkippedUnsupported,
    /// The file could not be read as UTF-8 text.
    SkippedUnreadable,
    /// The trimmed extracted text was empty.
    SkippedEmpty,
    /// The embed call itself failed.
    EmbedFailed,
    /// The vector store refused the upsert.
    UpsertFailed,
}

/// What is recorded for a document that was handed to the vector store:
/// indexed on a successful upsert, the per-file failure otherwise —
/// never an abort of the rest of the run.
pub fn upsert_outcome(upsert_exit_ok: bool) -> (r: FileOutcome)
    ensures
        upsert_exit_ok ==> r == FileOutcome::Indexed,
        !upsert_exit_ok ==> r == FileOutcome::UpsertFailed,
{
    if upsert_exit_ok {
        FileOutcome::Indexed
    } else {
        FileOutcome::UpsertFailed
    }
}

/// One file's entry in the ingestion summary.
pub struct FileReport {
    pub path: String,
    pub outcome: FileOutcome,
}

/// The per-file results of one ingestion run, in walk order. A
/// per-file failure is recorded and never aborts the rest of the run.
pub struct IngestionSummary {
    pub reports: Vec<FileReport>,
}

impl IngestionSummary {
    /// An empty summary, for the start of a run.
    pub fn new() -> (s: IngestionSummary)
        ensures
            s.reports@.len() == 0,
    {
        IngestionSummary { reports: Vec::new() }
    }

    /// Record one file's outcome; everything recorded before stays.
    pub fn record(&mut self, path: String, outcome: FileOutcome)
        ensures
            final(self).reports@ == old(self).reports@.push(
                (FileReport { path, outcome }),
            ),
    {
        self.reports.push(FileReport { path, outcome });
    }

    /// How many files were recorded.
    pub fn len(&self) -> (n: usize)
        ensures
            n == self.reports@.len(),
    {
        self.reports.len()
    }
}

} // verus!
