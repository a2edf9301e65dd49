//! The capability every text-generation backend has to offer, and the errors
//! it reports.

use vstd::prelude::*;

pub mod engine;

pub use engine::{InferenceEngine, MockInferenceEngine};

verus! {

/// Error type for inference operations.
#[derive(Debug)]
pub enum InferenceError {
    Initialization(String),
    ModelLoad(String),
    Generation(String),
    ModelNotLoaded(String),
    InvalidParams(String),
}

/// Result type for inference operations.
pub type InferenceResult<T> = Result<T, InferenceError>;

impl InferenceError {
    /// The text shown to the user for this error.
    pub open spec fn text(self) -> Seq<char> {
        match self {
            InferenceError::Initialization(m) => "Failed to initialize inference engine: "@ + m@,
            InferenceError::ModelLoad(m) => "Failed to load model: "@ + m@,
            InferenceError::Generation(m) => "Failed to generate response: "@ + m@,
            InferenceError::ModelNotLoaded(m) => "Model not loaded: "@ + m@,
            InferenceError::InvalidParams(m) => "Invalid parameters: "@ + m@,
        }
    }

    /// The text shown to the user for this error.
    pub fn message(&self) -> (r: String)
        ensures
            r@ == self.text(),
    {
        match self {
            InferenceError::Initialization(m) => String::from_str(
                "Failed to initialize inference engine: ",
            ).concat(m.as_str()),
            InferenceError::ModelLoad(m) => String::from_str("Failed to load model: ").concat(
                m.as_str(),
            ),
            InferenceError::Generation(m) => String::from_str(
                "Failed to generate response: ",
            ).concat(m.as_str()),
            InferenceError::ModelNotLoaded(m) => String::from_str("Model not loaded: ").concat(
                m.as_str(),
            ),
            InferenceError::InvalidParams(m) => String::from_str("Invalid parameters: ").concat(
                m.as_str(),
            ),
        }
    }
}

} // verus!
