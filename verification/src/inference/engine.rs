//! The inference capability and a deterministic stand-in for tests.

use crate::inference::{InferenceError, InferenceResult};
use vstd::prelude::*;

verus! {

/// What any text-generation backend offers to the translation engine.
pub trait InferenceEngine {
    /// Whether a model is associated with the engine. An engine that does
    /// not say otherwise counts as always loaded.
    open spec fn model_loaded(&self) -> bool {
        true
    }

    /// Whether `generate`, called in this state with `prompt`, may answer
    /// `result` and leave the engine as `after`. An engine that does not say
    /// otherwise may answer anything.
    open spec fn generates(
        &self,
        prompt: Seq<char>,
        result: InferenceResult<String>,
        after: &Self,
    ) -> bool {
        true
    }

    /// Prepares the engine; to be called once before use.
    fn initialize(&mut self) -> (r: InferenceResult<()>)
        ensures
            r matches Err(e) ==> e is Initialization,
    ;

    /// Associates the model at `model_path` with the engine.
    fn load_model(&mut self, model_path: &str) -> (r: InferenceResult<()>)
        ensures
            r is Ok ==> final(self).model_loaded(),
            r matches Err(e) ==> e is ModelLoad,
    ;

    /// Produces the continuation of `prompt`.
    fn generate(&mut self, prompt: &str) -> (r: InferenceResult<String>)
        ensures
            old(self).generates(prompt@, r, final(self)),
            !old(self).model_loaded() ==> (r matches Err(e) && e is ModelNotLoaded),
            r matches Err(e) ==> e is ModelNotLoaded || e is Generation,
    ;

    /// Sets the sampling temperature, in thousandths, and the length limit.
    fn set_parameters(&mut self, temperature_milli: i32, max_tokens: usize) -> (r:
        InferenceResult<()>)
        ensures
            r matches Err(e) ==> e is InvalidParams,
    ;

    /// Whether a model is associated with the engine.
    fn is_model_loaded(&self) -> (b: bool)
        ensures
            b == self.model_loaded(),
    ;
}

/// An engine without a backend: once a model is "loaded" it answers every
/// prompt with a fixed transformation of it.
pub struct MockInferenceEngine {
    pub model_loaded: bool,
}

impl MockInferenceEngine {
    /// The answer of the loaded mock engine to `prompt`.
    pub open spec fn response(prompt: Seq<char>) -> Seq<char> {
        "Mock response to: "@ + prompt
    }

    /// Create a new mock inference engine, with no model loaded.
    pub fn new() -> (s: Self)
        ensures
            !s.model_loaded,
    {
        Self { model_loaded: false }
    }
}

impl Default for MockInferenceEngine {
    fn default() -> (s: Self)
        ensures
            !s.model_loaded,
    {
        Self::new()
    }
}

impl InferenceEngine for MockInferenceEngine {
    open spec fn model_loaded(&self) -> bool {
        self.model_loaded
    }

    open spec fn generates(
        &self,
        prompt: Seq<char>,
        result: InferenceResult<String>,
        after: &Self,
    ) -> bool {
        &&& *after == *self
        &&& if self.model_loaded {
            result matches Ok(text) && text@ == Self::response(prompt)
        } else {
            result matches Err(InferenceError::ModelNotLoaded(m)) && m@ == "No model loaded"@
        }
    }

    fn initialize(&mut self) -> (r: InferenceResult<()>)
        ensures
            r is Ok,
            *final(self) == *old(self),
    {
        Ok(())
    }

    fn load_model(&mut self, _model_path: &str) -> (r: InferenceResult<()>)
        ensures
            r is Ok,
            final(self).model_loaded,
    {
        self.model_loaded = true;
        Ok(())
    }

    fn generate(&mut self, prompt: &str) -> (r: InferenceResult<String>) {
        if !self.model_loaded {
            return Err(InferenceError::ModelNotLoaded(String::from_str("No model loaded")));
        }
        Ok(String::from_str("Mock response to: ").concat(prompt))
    }

    fn set_parameters(&mut self, _temperature_milli: i32, _max_tokens: usize) -> (r:
        InferenceResult<()>)
        ensures
            r is Ok,
            *final(self) == *old(self),
    {
        Ok(())
    }

    fn is_model_loaded(&self) -> (b: bool) {
        self.model_loaded
    }
}

} // verus!
