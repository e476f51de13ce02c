//! Core of a personal e-book library server: a format-conversion pipeline
//! (bounded job queue, single background worker driving an external converter
//! and extractor) and a remote metadata mirror (a local cache of a catalog
//! database refreshed by a conditional fetch).
//!
//! All decision logic is verified here; process spawning, file probing and
//! network transfer are performed by the surrounding binary, which feeds their
//! observed results back into these functions.

pub mod books;
pub mod cache;
pub mod mirror;
pub mod queue;
pub mod text;
pub mod worker;
