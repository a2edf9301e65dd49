//! The local model runtime: its context, and the installation of what it
//! needs.

use vstd::prelude::*;

pub mod install;

pub use install::LlmInstaller;

verus! {

/// Error type for LLM operations.
#[derive(Debug)]
pub enum LlmError {
    ModelLoad(String),
    ContextInit(String),
    Generation(String),
    InvalidParams(String),
}

/// Result type for LLM operations.
pub type LlmResult<T> = Result<T, LlmError>;

impl LlmError {
    /// The text shown to the user for this error.
    pub open spec fn text(self) -> Seq<char> {
        match self {
            LlmError::ModelLoad(m) => "Failed to load model: "@ + m@,
            LlmError::ContextInit(m) => "Failed to initialize context: "@ + m@,
            LlmError::Generation(m) => "Failed to generate response: "@ + m@,
            LlmError::InvalidParams(m) => "Invalid parameters: "@ + m@,
        }
    }

    /// The text shown to the user for this error.
    pub fn message(&self) -> (r: String)
        ensures
            r@ == self.text(),
    {
        match self {
            LlmError::ModelLoad(m) => String::from_str("Failed to load model: ").concat(m.as_str()),
            LlmError::ContextInit(m) => String::from_str("Failed to initialize context: ").concat(
                m.as_str(),
            ),
            LlmError::Generation(m) => String::from_str("Failed to generate response: ").concat(
                m.as_str(),
            ),
            LlmError::InvalidParams(m) => String::from_str("Invalid parameters: ").concat(
                m.as_str(),
            ),
        }
    }
}

/// LLM context for managing model state. It holds no state yet and answers
/// every prompt alike.
pub struct LlmContext {}

impl LlmContext {
    /// Create a new LLM context.
    pub fn new() -> (r: LlmResult<Self>)
        ensures
            r is Ok,
    {
        Ok(Self {  })
    }

    /// Generate a response for the given prompt.
    pub fn generate(&mut self, _prompt: &str) -> (r: LlmResult<String>)
        ensures
            r matches Ok(text) && text@ == "Generated response"@,
    {
        Ok(String::from_str("Generated response"))
    }
}

} // verus!
