//! Core of a file-system text indexer: the rules that decide which files of a
//! corpus are indexed, how a file becomes a document, how a schema is built and
//! handed to the search engine, when segments are merged and how hits are ranked.
//!
//! The library decides and the caller acts: reading directories and files,
//! and opening, writing and querying the on-disk index, are left to the
//! caller, who hands over what was read as plain values. The search engine's
//! schemas and documents are built here, through the declarations of the
//! `engine` module, which are taken on trust.
pub mod config;
pub mod document;
pub mod engine;
pub mod environment;
pub mod errors;
pub mod ingest;
pub mod merge;
pub mod schema;
pub mod search;
pub mod store;
pub mod system;
pub mod text;
pub mod walker;
