use vstd::prelude::*;

verus! {

/// Failure taxonomy of the orchestration layer.
///
/// `NotFound` covers unknown model ids or names and unknown strategy names;
/// `InvalidInput` covers rejected user messages; `StateError` covers
/// operations that need a loaded backend when none is loaded; `IoError`
/// covers filesystem failures reported by the surrounding application.
/// Each variant carries a human-readable message.
#[derive(Debug, Clone)]
pub enum AiError {
    NotFound(String),
    InvalidInput(String),
    StateError(String),
    IoError(String),
}

impl AiError {
    /// The message carried by the error, whatever its variant.
    pub open spec fn text(self) -> Seq<char> {
        match self {
            AiError::NotFound(m) => m@,
            AiError::InvalidInput(m) => m@,
            AiError::StateError(m) => m@,
            AiError::IoError(m) => m@,
        }
    }

    /// Renders the carried message for display.
    pub fn message(&self) -> (r: String)
        ensures
            r@ == self.text(),
    {
        match self {
            AiError::NotFound(m) => m.clone(),
            AiError::InvalidInput(m) => m.clone(),
            AiError::StateError(m) => m.clone(),
            AiError::IoError(m) => m.clone(),
        }
    }
}

} // verus!
