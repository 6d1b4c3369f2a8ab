//! Persistent-store row shapes: what the surrounding application reads
//! from and writes to its history tables.

use vstd::prelude::*;

verus! {

/// One project row.
#[derive(Debug, Clone)]
pub struct ProjectRecord {
    pub id: String,
    pub name: String,
    pub path: String,
    pub project_type: String,
    pub language: String,
    pub created_at: i64,
    pub last_opened: i64,
    pub settings: String,
}

/// One chat-history row.
#[derive(Debug, Clone)]
pub struct ChatRecord {
    pub id: String,
    pub session_id: String,
    pub role: String,
    pub content: String,
    pub timestamp: i64,
    pub model_used: Option<String>,
    pub context_type: Option<String>,
}

/// One indexed-file row.
#[derive(Debug, Clone)]
pub struct FileRecord {
    pub id: String,
    pub project_id: String,
    pub path: String,
    pub language: String,
    pub size: i64,
    pub last_modified: i64,
    pub content_hash: String,
}

} // verus!
