//! Turning a natural language request into a shell command: the prompt
//! that is put to the inference engine, and the reading of its answer.

use crate::inference::InferenceError;
use vstd::prelude::*;

pub mod engine;
pub mod prompt;

pub use engine::TranslationEngine;
pub use prompt::PromptTemplate;

verus! {

/// Error type for translation operations.
#[derive(Debug)]
pub enum TranslationError {
    Generation(String),
    InvalidPrompt(String),
    Inference(InferenceError),
}

/// Result type for translation operations.
pub type TranslationResult<T> = Result<T, TranslationError>;

impl TranslationError {
    /// The text shown to the user for this error.
    pub open spec fn text(self) -> Seq<char> {
        match self {
            TranslationError::Generation(m) => "Failed to generate translation: "@ + m@,
            TranslationError::InvalidPrompt(m) => "Invalid prompt template: "@ + m@,
            TranslationError::Inference(e) => "Inference engine error: "@ + e.text(),
        }
    }

    /// The text shown to the user for this error.
    pub fn message(&self) -> (r: String)
        ensures
            r@ == self.text(),
    {
        match self {
            TranslationError::Generation(m) => String::from_str(
                "Failed to generate translation: ",
            ).concat(m.as_str()),
            TranslationError::InvalidPrompt(m) => String::from_str(
                "Invalid prompt template: ",
            ).concat(m.as_str()),
            TranslationError::Inference(e) => String::from_str("Inference engine error: ").concat(
                e.message().as_str(),
            ),
        }
    }
}

impl From<InferenceError> for TranslationError {
    fn from(error: InferenceError) -> (r: TranslationError) {
        TranslationError::Inference(error)
    }
}

impl vstd::std_specs::convert::FromSpecImpl<InferenceError> for TranslationError {
    open spec fn obeys_from_spec() -> bool {
        true
    }

    open spec fn from_spec(error: InferenceError) -> TranslationError {
        TranslationError::Inference(error)
    }
}

} // verus!
