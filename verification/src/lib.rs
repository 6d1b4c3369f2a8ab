//! Core orchestration layer of a local AI coding assistant.
//!
//! The library discovers on-disk model artifacts and classifies them into
//! descriptors, manages the lifecycle of a single loaded inference backend,
//! keeps a bounded conversation log, and assembles token-budgeted context
//! for prompts. All filesystem and user-interface work lives outside; the
//! functions here operate on plain values handed in by the surrounding
//! application.

pub mod assistant;
pub mod backend;
pub mod chat;
pub mod config;
pub mod context;
pub mod conversation;
pub mod debugger;
pub mod editor;
pub mod errors;
pub mod git;
pub mod lifecycle;
pub mod perf;
pub mod project;
pub mod records;
pub mod registry;
pub mod relevance;
pub mod terminal;
pub mod text;

pub use errors::AiError;
