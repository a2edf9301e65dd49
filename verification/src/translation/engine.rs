//! The translation engine: it builds the prompt for a request, asks the
//! inference engine for a continuation and reads a command out of the answer.

use crate::inference::{InferenceEngine, InferenceResult};
use crate::text::{blank, is_blank, lemma_blank_trimmed_tokens, trim, trimmed};
use crate::translation::{TranslationError, TranslationResult};
use crate::types::{Confidence, NaturalLanguageRequest, ShellCommand};
use vstd::prelude::*;

verus! {

/// The instructions that precede every request unless a custom template is
/// set.
pub const DEFAULT_PROMPT_TEMPLATE: &'static str =
    "You are a helpful assistant that translates natural language requests into shell commands.\n\nYour task is to:\n1. Understand the user's intent\n2. Generate the appropriate shell command\n3. Provide a brief explanation if needed\n\nRules:\n- Only output the shell command, no additional text\n- Use standard Unix/Linux commands\n- Be safe and avoid destructive operations\n- Prefer simple, readable commands";

/// The confidence, in thousandths, of a command read from an answer that
/// carries no score of its own.
pub const DEFAULT_CONFIDENCE_PER_MILLE: u16 = 800;

/// The prompt for `request` under the instructions `template`: the
/// instructions, the request and the cue after which the answer is expected.
pub open spec fn prompt_text(template: Seq<char>, request: Seq<char>) -> Seq<char> {
    template + "\n\nUser request: "@ + request + answer_cue()
}

/// The cue that ends every prompt; the answer is expected to begin after it.
pub open spec fn answer_cue() -> Seq<char> {
    "\n\nShell command:"@
}

/// Every prompt ends with the cue, whatever the instructions and the
/// request.
pub proof fn lemma_prompt_ends_with_cue(template: Seq<char>, request: Seq<char>)
    ensures
        prompt_text(template, request).len() >= answer_cue().len(),
        prompt_text(template, request).skip(
            prompt_text(template, request).len() - answer_cue().len(),
        ) == answer_cue(),
{
    let prompt = prompt_text(template, request);
    assert(prompt.skip(prompt.len() - answer_cue().len()) =~= answer_cue());
}

/// The detail of the error for an answer that holds no command.
pub open spec fn empty_response_detail() -> Seq<char> {
    "Response contains no command"@
}

/// `outcome` is the reading of the answer `response`: the answer without the
/// whitespace around it as the command, with the default confidence and no
/// explanation; or, for a blank answer, a generation error.
pub open spec fn is_reading_of(response: Seq<char>, outcome: TranslationResult<ShellCommand>) -> bool {
    if is_blank(response) {
        outcome matches Err(TranslationError::Generation(m)) && m@ == empty_response_detail()
    } else {
        &&& outcome matches Ok(command)
        &&& command.command@ == trimmed(response)
        &&& command.explanation is None
        &&& command.confidence.value() == DEFAULT_CONFIDENCE_PER_MILLE
    }
}

/// `outcome` is what the translation makes of `generated`, the answer of the
/// inference engine: its error, wrapped, or the reading of its text.
pub open spec fn is_translation_of(
    generated: InferenceResult<String>,
    outcome: TranslationResult<ShellCommand>,
) -> bool {
    match generated {
        Ok(text) => is_reading_of(text@, outcome),
        Err(error) => outcome == Err::<ShellCommand, TranslationError>(
            TranslationError::Inference(error),
        ),
    }
}

/// An outcome never is a command without text, nor one with a confidence
/// above 1.
pub open spec fn is_sound(outcome: TranslationResult<ShellCommand>) -> bool {
    outcome matches Ok(command) ==> command.command@.len() > 0 && command.confidence.value()
        <= 1000
}

/// Whatever the inference engine answered, the translation of it is sound.
pub proof fn lemma_translation_sound(
    generated: InferenceResult<String>,
    outcome: TranslationResult<ShellCommand>,
)
    requires
        is_translation_of(generated, outcome),
    ensures
        is_sound(outcome),
{
    if let Ok(text) = generated {
        lemma_blank_trimmed_tokens(text@);
    }
}

/// Translation engine for converting natural language to shell commands.
pub struct TranslationEngine<E> {
    inference_engine: E,
    prompt_template: String,
}

impl<E> TranslationEngine<E> {
    /// The inference engine that answers the prompts.
    pub closed spec fn engine(&self) -> E {
        self.inference_engine
    }

    /// The instructions that precede every request.
    pub closed spec fn template(&self) -> Seq<char> {
        self.prompt_template@
    }

    /// Create a new translation engine with the default instructions.
    pub fn new(inference_engine: E) -> (s: Self)
        ensures
            s.engine() == inference_engine,
            s.template() == DEFAULT_PROMPT_TEMPLATE@,
    {
        Self { inference_engine, prompt_template: Self::default_prompt_template() }
    }

    /// Set a custom prompt template.
    pub fn with_prompt_template(self, template: String) -> (s: Self)
        ensures
            s.engine() == self.engine(),
            s.template() == template@,
    {
        let mut engine = self;
        engine.prompt_template = template;
        engine
    }

    /// The inference engine, for a caller that puts the prompt to it itself.
    pub fn inference_engine_mut(&mut self) -> (engine: &mut E)
        ensures
            *engine == old(self).engine(),
            final(self).engine() == *final(engine),
            final(self).template() == old(self).template(),
    {
        &mut self.inference_engine
    }

    /// What the translation makes of `generated`, the answer of the
    /// inference engine to the prompt.
    pub fn complete(generated: InferenceResult<String>) -> (outcome: TranslationResult<
        ShellCommand,
    >)
        ensures
            is_translation_of(generated, outcome),
            is_sound(outcome),
    {
        match generated {
            Ok(text) => Self::parse_response(text.as_str()),
            Err(error) => Err(TranslationError::Inference(error)),
        }
    }

    /// Build the prompt for the inference engine.
    pub fn build_prompt(&self, request: &NaturalLanguageRequest) -> (prompt: String)
        ensures
            prompt@ == prompt_text(self.template(), request.text@),
    {
        let mut prompt = self.prompt_template.clone();
        prompt.append("\n\nUser request: ");
        prompt.append(request.text.as_str());
        prompt.append("\n\nShell command:");
        prompt
    }

    /// Parse the inference engine response.
    pub fn parse_response(response: &str) -> (outcome: TranslationResult<ShellCommand>)
        ensures
            is_reading_of(response@, outcome),
            is_sound(outcome),
    {
        proof {
            lemma_blank_trimmed_tokens(response@);
        }
        if blank(response) {
            return Err(
                TranslationError::Generation(String::from_str("Response contains no command")),
            );
        }
        let confidence = Confidence::from_per_mille(DEFAULT_CONFIDENCE_PER_MILLE).unwrap();
        Ok(ShellCommand { command: String::from_str(trim(response)), explanation: None, confidence })
    }

    /// Get the default prompt template.
    pub fn default_prompt_template() -> (template: String)
        ensures
            template@ == DEFAULT_PROMPT_TEMPLATE@,
    {
        String::from_str(DEFAULT_PROMPT_TEMPLATE)
    }
}

impl<E: InferenceEngine> TranslationEngine<E> {
    /// Translate a natural language request to a shell command. Nothing of
    /// the request is checked here; the command is not run.
    pub fn translate(&mut self, request: NaturalLanguageRequest) -> (outcome: TranslationResult<
        ShellCommand,
    >)
        ensures
            final(self).template() == old(self).template(),
            exists|generated: InferenceResult<String>|
                {
                    &&& old(self).engine().generates(
                        prompt_text(old(self).template(), request.text@),
                        generated,
                        &final(self).engine(),
                    )
                    &&& #[trigger] is_translation_of(generated, outcome)
                },
            !old(self).engine().model_loaded() ==> outcome is Err,
            is_sound(outcome),
    {
        let prompt = self.build_prompt(&request);
        let generated = self.inference_engine.generate(prompt.as_str());
        let ghost answer = generated;
        let outcome = Self::complete(generated);
        assert(is_translation_of(answer, outcome));
        outcome
    }
}

} // verus!
