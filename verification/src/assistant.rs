//! Code-assistance data shapes: suggestions, refactorings, issues and the
//! per-language style rules the assistant applies.

use vstd::prelude::*;

verus! {

/// What kind of help a suggestion offers.
#[derive(Debug, Clone, Copy, PartialEq, Eq, Structural)]
pub enum SuggestionType {
    Completion,
    Refactoring,
    Documentation,
    Test,
    BugFix,
    Optimization,
    Style,
    Import,
}

/// A position (and optional end position) inside a source file.
#[derive(Debug, Clone)]
pub struct CodePosition {
    pub file_path: String,
    pub line: u32,
    pub column: u32,
    pub end_line: Option<u32>,
    pub end_column: Option<u32>,
}

/// Bookkeeping attached to a suggestion.
#[derive(Debug, Clone)]
pub struct SuggestionMetadata {
    pub complexity: ComplexityLevel,
    pub estimated_time: u32,
    pub dependencies: Vec<String>,
    pub tags: Vec<String>,
    pub examples: Vec<String>,
}

/// How demanding a suggestion is to apply.
#[derive(Debug, Clone, Copy, PartialEq, Eq, Structural)]
pub enum ComplexityLevel {
    Low,
    Medium,
    High,
    Expert,
}

/// The refactoring operations the assistant knows.
#[derive(Debug, Clone, Copy, PartialEq, Eq, Structural)]
pub enum RefactoringType {
    ExtractMethod,
    ExtractVariable,
    InlineVariable,
    RenameSymbol,
    MoveMethod,
    ExtractInterface,
    SimplifyConditional,
    RemoveDeadCode,
    OptimizeImports,
    FormatCode,
}

/// Style conventions for one language.
#[derive(Debug, Clone)]
pub struct LanguageRules {
    pub style_guide: String,
    pub naming_conventions: Vec<(String, String)>,
    pub best_practices: Vec<String>,
    pub anti_patterns: Vec<String>,
}

/// One issue found in analyzed code.
#[derive(Debug, Clone)]
pub struct CodeIssue {
    pub id: String,
    pub issue_type: IssueType,
    pub severity: IssueSeverity,
    pub message: String,
    pub position: CodePosition,
    pub fix_suggestion: Option<String>,
}

/// What aspect of the code an issue concerns.
#[derive(Debug, Clone, Copy, PartialEq, Eq, Structural)]
pub enum IssueType {
    Syntax,
    Style,
    Performance,
    Security,
    Maintainability,
    Documentation,
    Test,
}

/// How serious an issue is.
#[derive(Debug, Clone, Copy, PartialEq, Eq, Structural)]
pub enum IssueSeverity {
    Info,
    Warning,
    Error,
    Critical,
}

} // verus!
