//! Chat-session data shapes shared with the surrounding application.

use vstd::prelude::*;

verus! {

/// Who authored a message. The system role is reserved for a higher
/// layer; the conversation store never emits it into prompts.
#[derive(Debug, Clone, Copy, PartialEq, Eq, Structural)]
pub enum MessageRole {
    User,
    Assistant,
    System,
}

/// Bookkeeping attached to a chat message.
#[derive(Debug, Clone)]
pub struct MessageMetadata {
    pub model_used: Option<String>,
    pub tokens_used: Option<u32>,
    pub generation_time_ms: Option<u64>,
    pub context_files: Vec<String>,
    pub code_blocks: Vec<CodeBlock>,
}

/// One fenced code block extracted from message text.
#[derive(Debug, Clone)]
pub struct CodeBlock {
    pub language: String,
    pub content: String,
    pub start_line: Option<u32>,
    pub end_line: Option<u32>,
}

/// What a chat session is about.
#[derive(Debug, Clone, Copy, PartialEq, Eq, Structural)]
pub enum ContextType {
    General,
    CodeReview,
    Debugging,
    Documentation,
    Refactoring,
    Testing,
}

/// Knobs of the chat engine.
#[derive(Debug, Clone)]
pub struct ChatSettings {
    pub max_context_length: u32,
    pub include_file_context: bool,
    pub include_project_context: bool,
    pub auto_save_sessions: bool,
    pub session_timeout_minutes: u32,
    pub max_messages_per_session: usize,
}

impl Default for ChatSettings {
    /// The stock settings: a 4096-token context, both context sources on,
    /// sessions saved automatically, a one-hour timeout, and at most a
    /// thousand messages per session.
    fn default() -> (r: Self)
        ensures
            r.max_context_length == 4096,
            r.include_file_context,
            r.include_project_context,
            r.auto_save_sessions,
            r.session_timeout_minutes == 60,
            r.max_messages_per_session == 1000,
    {
        ChatSettings {
            max_context_length: 4096,
            include_file_context: true,
            include_project_context: true,
            auto_save_sessions: true,
            session_timeout_minutes: 60,
            max_messages_per_session: 1000,
        }
    }
}

} // verus!
