//! Core of a local retrieval-augmented-generation pipeline.
//!
//! The library holds the verified logic: file classification, extraction
//! fallback policy, embedding-response handling, vector-store payload
//! construction, prompt assembly, and the change-watcher state machine.
//! All process I/O (file reads, the extraction utility, the inference
//! service, the vector store helper) lives outside the library, which
//! receives the outcomes of those calls as plain values.

pub mod ingest;
pub mod json;
pub mod laws;
pub mod messages;
pub mod query;
pub mod text;
pub mod watch;
