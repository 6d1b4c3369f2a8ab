//! Project shapes: kind detection results and per-project settings.

use vstd::prelude::*;

verus! {

/// What kind of project a directory holds.
#[derive(Debug, Clone, Copy, PartialEq, Eq, Structural)]
pub enum ProjectType {
    Rust,
    JavaScript,
    TypeScript,
    Python,
    General,
}

/// Per-project behaviour.
#[derive(Debug, Clone)]
pub struct ProjectSettings {
    pub auto_save: bool,
    pub format_on_save: bool,
    pub git_integration: bool,
    pub lsp_enabled: bool,
}

impl Default for ProjectSettings {
    /// Everything on: auto-save, formatting, version control, language
    /// server.
    fn default() -> (r: Self)
        ensures
            r.auto_save,
            r.format_on_save,
            r.git_integration,
            r.lsp_enabled,
    {
        ProjectSettings {
            auto_save: true,
            format_on_save: true,
            git_integration: true,
            lsp_enabled: true,
        }
    }
}

} // verus!
