//! Values that travel through the pipeline: the request, the translated
//! command and the outcome of running it.

use vstd::prelude::*;

verus! {

/// A heuristic quality score between 0 and 1, kept in thousandths.
#[derive(Debug, Clone, Copy)]
pub struct Confidence {
    per_mille: u16,
}

impl Confidence {
    #[verifier::type_invariant]
    spec fn in_range(self) -> bool {
        self.per_mille <= 1000
    }

    /// The score in thousandths: 0 stands for 0.0 and 1000 for 1.0.
    pub closed spec fn value(self) -> nat {
        self.per_mille as nat
    }

    /// The score of `per_mille` thousandths, if that is at most 1.
    pub fn from_per_mille(per_mille: u16) -> (r: Option<Confidence>)
        ensures
            per_mille <= 1000 ==> r is Some && r->Some_0.value() == per_mille,
            per_mille > 1000 ==> r is None,
    {
        if per_mille <= 1000 {
            Some(Confidence { per_mille })
        } else {
            None
        }
    }

    /// The score in thousandths.
    pub fn per_mille(&self) -> (r: u16)
        ensures
            r == self.value(),
            r <= 1000,
    {
        proof {
            use_type_invariant(self);
        }
        self.per_mille
    }

    /// Whether the score is 0, the score of a command that must never be
    /// run without confirmation.
    pub fn is_zero(&self) -> (b: bool)
        ensures
            b == (self.value() == 0),
    {
        self.per_mille == 0
    }
}

/// A natural language request from the user.
#[derive(Debug, Clone)]
pub struct NaturalLanguageRequest {
    pub text: String,
    pub context: Option<String>,
}

/// A translated shell command.
#[derive(Debug, Clone)]
pub struct ShellCommand {
    pub command: String,
    pub explanation: Option<String>,
    pub confidence: Confidence,
}

/// Result of command execution.
#[derive(Debug, Clone)]
pub struct ExecutionResult {
    pub success: bool,
    pub output: String,
    pub error: Option<String>,
    pub exit_code: i32,
}

} // verus!
