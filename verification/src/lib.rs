//! Natural language to shell command translation, with a safety check in
//! front of execution.

pub mod config;
pub mod fuzz;
pub mod inference;
pub mod llm;
pub mod pipeline;
pub mod scan;
pub mod shell;
pub mod text;
pub mod translation;
pub mod types;

pub use inference::{InferenceEngine, MockInferenceEngine};
pub use shell::ShellExecutor;
pub use translation::TranslationEngine;
pub use types::{Confidence, ExecutionResult, NaturalLanguageRequest, ShellCommand};
