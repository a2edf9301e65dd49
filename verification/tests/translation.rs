use cmdr::inference::InferenceError;
use cmdr::pipeline::guarded_prepare;
use cmdr::shell::ShellExecutor;
use cmdr::translation::engine::DEFAULT_PROMPT_TEMPLATE;
use cmdr::translation::prompt::DEFAULT_TEMPLATE;
use cmdr::translation::{PromptTemplate, TranslationError};
use cmdr::{
    InferenceEngine, MockInferenceEngine, NaturalLanguageRequest, ShellCommand, TranslationEngine,
};

fn request(text: &str) -> NaturalLanguageRequest {
    NaturalLanguageRequest { text: text.to_string(), context: None }
}

fn loaded_mock() -> MockInferenceEngine {
    let mut engine = MockInferenceEngine::new();
    engine.initialize().unwrap();
    engine.load_model("mock-model").unwrap();
    engine
}

#[test]
fn mock_engine_starts_without_model() {
    let engine = MockInferenceEngine::new();
    assert!(!engine.is_model_loaded());
    assert!(!MockInferenceEngine::default().model_loaded);
}

#[test]
fn mock_engine_refuses_to_generate_without_model() {
    let mut engine = MockInferenceEngine::new();
    let error = engine.generate("hello").unwrap_err();
    assert!(matches!(&error, InferenceError::ModelNotLoaded(m) if m == "No model loaded"));
    assert_eq!(error.message(), "Model not loaded: No model loaded");
}

#[test]
fn mock_engine_echoes_the_prompt_once_loaded() {
    let mut engine = loaded_mock();
    assert!(engine.is_model_loaded());
    assert_eq!(engine.generate("hello").unwrap(), "Mock response to: hello");
}

#[test]
fn mock_engine_accepts_any_parameters() {
    let mut engine = MockInferenceEngine::new();
    assert!(engine.set_parameters(-500, 0).is_ok());
    assert!(engine.set_parameters(700, 2048).is_ok());
    assert!(!engine.is_model_loaded());
}

#[test]
fn prompt_is_instructions_request_and_cue() {
    let engine = TranslationEngine::new(MockInferenceEngine::new());
    let prompt = engine.build_prompt(&request("list files"));
    let expected = format!(
        "{}\n\nUser request: {}\n\nShell command:",
        DEFAULT_PROMPT_TEMPLATE, "list files"
    );
    assert_eq!(prompt, expected);
    assert!(prompt.ends_with("\n\nShell command:"));
}

#[test]
fn default_instructions_are_stable() {
    let text = TranslationEngine::<MockInferenceEngine>::default_prompt_template();
    assert!(text.starts_with("You are a helpful assistant that translates natural language"));
    assert!(text.ends_with("- Prefer simple, readable commands"));
    assert_eq!(text.lines().count(), 12);
}

#[test]
fn custom_instructions_replace_the_default() {
    let engine = TranslationEngine::new(MockInferenceEngine::new())
        .with_prompt_template("Translate.".to_string());
    assert_eq!(
        engine.build_prompt(&request("x")),
        "Translate.\n\nUser request: x\n\nShell command:"
    );
}

#[test]
fn translate_returns_the_trimmed_answer() {
    let mut engine =
        TranslationEngine::new(loaded_mock()).with_prompt_template("T".to_string());
    let command = engine.translate(request("list files")).unwrap();
    assert_eq!(
        command.command,
        "Mock response to: T\n\nUser request: list files\n\nShell command:"
    );
    assert_eq!(command.explanation, None);
    assert_eq!(command.confidence.per_mille(), 800);
    assert!(!command.command.is_empty());
}

#[test]
fn translate_passes_empty_requests_through() {
    let mut engine = TranslationEngine::new(loaded_mock());
    let command = engine.translate(request("")).unwrap();
    assert!(!command.command.is_empty());
    assert!(command.confidence.per_mille() <= 1000);
}

#[test]
fn translate_wraps_the_inference_error() {
    let mut engine = TranslationEngine::new(MockInferenceEngine::new());
    let error = engine.translate(request("list files")).unwrap_err();
    assert!(matches!(
        &error,
        TranslationError::Inference(InferenceError::ModelNotLoaded(m)) if m == "No model loaded"
    ));
    assert_eq!(error.message(), "Inference engine error: Model not loaded: No model loaded");
}

#[test]
fn parse_response_trims_the_answer() {
    let command =
        TranslationEngine::<MockInferenceEngine>::parse_response("  ls -la \n").unwrap();
    assert_eq!(command.command, "ls -la");
    assert_eq!(command.explanation, None);
    assert_eq!(command.confidence.per_mille(), 800);
}

#[test]
fn parse_response_never_yields_an_empty_command() {
    for answer in ["", "   ", "\n\t"] {
        let error = TranslationEngine::<MockInferenceEngine>::parse_response(answer).unwrap_err();
        assert!(matches!(
            &error,
            TranslationError::Generation(m) if m == "Response contains no command"
        ));
    }
}

#[test]
fn complete_maps_each_answer() {
    let ok = TranslationEngine::<MockInferenceEngine>::complete(Ok(" pwd ".to_string()));
    assert_eq!(ok.unwrap().command, "pwd");
    let failed = TranslationEngine::<MockInferenceEngine>::complete(Err(
        InferenceError::Generation("backend down".to_string()),
    ));
    assert!(matches!(
        failed,
        Err(TranslationError::Inference(InferenceError::Generation(m))) if m == "backend down"
    ));
    let blank = TranslationEngine::<MockInferenceEngine>::complete(Ok(" ".to_string()));
    assert!(matches!(blank, Err(TranslationError::Generation(_))));
}

#[test]
fn inference_error_converts_into_translation_error() {
    let error: TranslationError = InferenceError::InvalidParams("t".to_string()).into();
    assert!(matches!(error, TranslationError::Inference(InferenceError::InvalidParams(_))));
}

#[test]
fn error_messages_name_the_failure() {
    assert_eq!(
        InferenceError::Initialization("x".to_string()).message(),
        "Failed to initialize inference engine: x"
    );
    assert_eq!(InferenceError::ModelLoad("x".to_string()).message(), "Failed to load model: x");
    assert_eq!(
        InferenceError::Generation("x".to_string()).message(),
        "Failed to generate response: x"
    );
    assert_eq!(InferenceError::InvalidParams("x".to_string()).message(), "Invalid parameters: x");
    assert_eq!(
        TranslationError::Generation("x".to_string()).message(),
        "Failed to generate translation: x"
    );
    assert_eq!(
        TranslationError::InvalidPrompt("x".to_string()).message(),
        "Invalid prompt template: x"
    );
}

#[test]
fn render_substitutes_known_placeholders() {
    let mut template = PromptTemplate::new("Hello {{name}}, {{name}}! {{greeting}}".to_string());
    template.set_variable("name", "World".to_string());
    template.set_variable("greeting", "Welcome".to_string());
    assert_eq!(template.render(), "Hello World, World! Welcome");
}

#[test]
fn render_leaves_unknown_placeholders() {
    let mut template = PromptTemplate::new("{{known}} and {{unknown}}".to_string());
    template.set_variable("known", "yes".to_string());
    assert_eq!(template.render(), "yes and {{unknown}}");
}

#[test]
fn render_without_variables_is_the_template() {
    let template = PromptTemplate::new("{{a}} {b} c".to_string());
    assert_eq!(template.render(), "{{a}} {b} c");
}

#[test]
fn set_variable_overwrites() {
    let mut template = PromptTemplate::new("{{a}}-{{b}}".to_string());
    template.set_variable("a", "1".to_string());
    template.set_variable("b", "2".to_string());
    template.set_variable("a", "3".to_string());
    assert_eq!(template.render(), "3-2");
}

#[test]
fn render_twice_yields_the_same_string() {
    let mut template = PromptTemplate::new("run {{cmd}} in {{dir}}".to_string());
    template.set_variable("cmd", "ls".to_string());
    template.set_variable("dir", "/tmp".to_string());
    let first = template.render();
    let second = template.render();
    assert_eq!(first, second);
    assert_eq!(first, "run ls in /tmp");
    let mut again = PromptTemplate::new(first.clone());
    again.set_variable("cmd", "ls".to_string());
    again.set_variable("dir", "/tmp".to_string());
    assert_eq!(again.render(), first);
}

#[test]
fn render_substitutes_in_the_order_of_first_setting() {
    let mut template = PromptTemplate::new("{{a}}".to_string());
    template.set_variable("a", "{{b}}".to_string());
    template.set_variable("b", "x".to_string());
    assert_eq!(template.render(), "x");
    let mut reversed = PromptTemplate::new("{{a}}".to_string());
    reversed.set_variable("b", "x".to_string());
    reversed.set_variable("a", "{{b}}".to_string());
    assert_eq!(reversed.render(), "{{b}}");
}

#[test]
fn default_template_keeps_its_single_brace_marker() {
    let mut template = PromptTemplate::default();
    template.set_variable("request", "list files".to_string());
    let rendered = template.render();
    assert_eq!(rendered, DEFAULT_TEMPLATE);
    assert_eq!(rendered, PromptTemplate::default_template());
    assert!(rendered.ends_with("User request: {request}\n\nShell command:"));
}

struct NaiveEngine;

impl InferenceEngine for NaiveEngine {
    fn initialize(&mut self) -> Result<(), InferenceError> {
        Ok(())
    }

    fn load_model(&mut self, _model_path: &str) -> Result<(), InferenceError> {
        Ok(())
    }

    fn generate(&mut self, _prompt: &str) -> Result<String, InferenceError> {
        Ok("rm -rf /\n".to_string())
    }

    fn set_parameters(
        &mut self,
        temperature_milli: i32,
        _max_tokens: usize,
    ) -> Result<(), InferenceError> {
        if temperature_milli < 0 {
            Err(InferenceError::InvalidParams("temperature".to_string()))
        } else {
            Ok(())
        }
    }

    fn is_model_loaded(&self) -> bool {
        true
    }
}

#[test]
fn wipe_my_disk_is_stopped_before_execution() {
    let mut engine = TranslationEngine::new(NaiveEngine);
    let command: ShellCommand = engine.translate(request("wipe my disk")).unwrap();
    assert_eq!(command.command, "rm -rf /");
    let executor = ShellExecutor::default();
    assert!(guarded_prepare(&executor, &command).is_err());
}

#[test]
fn render_agrees_with_replacing_one_variable_after_another() {
    let text = "{{a}} {{b}} {{a}}{{c}} {{ a }} {a} {{{a}}}";
    let variables = [("a", "1"), ("b", "{{c}}"), ("c", "3"), ("", "empty")];
    let mut template = PromptTemplate::new(text.to_string());
    let mut expected = text.to_string();
    for (name, value) in variables {
        template.set_variable(name, value.to_string());
        expected = expected.replace(&format!("{{{{{}}}}}", name), value);
    }
    assert_eq!(template.render(), expected);
    assert_eq!(template.render(), "1 3 13 {{ a }} {a} {1}");
}

#[test]
fn render_replaces_the_placeholder_of_an_empty_name() {
    let mut template = PromptTemplate::new("a{{}}b".to_string());
    template.set_variable("", "-".to_string());
    assert_eq!(template.render(), "a-b");
}

#[test]
fn rendering_a_rendering_substitutes_what_a_value_brought_in() {
    let mut template = PromptTemplate::new("{{a}}".to_string());
    template.set_variable("a", "{{a}}x".to_string());
    let once = template.render();
    assert_eq!(once, "{{a}}x");
    let mut again = PromptTemplate::new(once);
    again.set_variable("a", "{{a}}x".to_string());
    assert_eq!(again.render(), "{{a}}xx");
}
