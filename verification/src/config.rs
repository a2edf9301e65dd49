//! The configuration of the application and its defaults.

use crate::text::option_view;
use vstd::prelude::*;

verus! {

/// `num_cpus::get`: the number of processors that this process may use.
/// It differs from machine to machine and from run to run, so nothing is
/// said of it.
#[verifier::external_body]
fn available_cpus() -> usize {
    num_cpus::get()
}

/// Inference engine configuration.
#[derive(Debug, Clone)]
pub struct InferenceConfig {
    /// Path to the model file.
    pub model_path: Option<String>,
    /// Number of threads to use for inference.
    pub threads: Option<u32>,
    /// Context size for the model.
    pub context_size: Option<u32>,
    /// Temperature for generation, in thousandths.
    pub temperature_milli: Option<i32>,
}

/// Shell execution configuration.
#[derive(Debug, Clone)]
pub struct ShellConfig {
    /// Whether to execute commands automatically.
    pub auto_execute: bool,
    /// Whether to show the translated command before execution.
    pub show_translation: bool,
    /// Default shell to use.
    pub default_shell: String,
}

/// UI/REPL configuration.
#[derive(Debug, Clone)]
pub struct UiConfig {
    /// Prompt string for the REPL.
    pub prompt: String,
    /// Whether to enable syntax highlighting.
    pub syntax_highlighting: bool,
    /// History file path.
    pub history_file: Option<String>,
}

/// Main configuration structure.
#[derive(Debug, Clone)]
pub struct Config {
    /// Inference engine configuration.
    pub inference: InferenceConfig,
    /// Shell execution configuration.
    pub shell: ShellConfig,
    /// UI/REPL configuration.
    pub ui: UiConfig,
}

impl InferenceConfig {
    /// This is the default configuration for a machine with `cpus`
    /// processors: no model, one thread for each processor, a context of
    /// 2048 tokens and a temperature of 0.7.
    pub open spec fn is_default_for(self, cpus: usize) -> bool {
        &&& self.model_path is None
        &&& self.threads == Some(cpus as u32)
        &&& self.context_size == Some(2048u32)
        &&& self.temperature_milli == Some(700i32)
    }

    /// The default configuration for a machine with `cpus` processors.
    pub fn for_cpus(cpus: usize) -> (config: Self)
        ensures
            config.is_default_for(cpus),
    {
        Self {
            model_path: None,
            threads: Some(#[verifier::truncate] (cpus as u32)),
            context_size: Some(2048),
            temperature_milli: Some(700),
        }
    }
}

impl Default for InferenceConfig {
    /// The default configuration for this machine.
    fn default() -> (config: Self)
        ensures
            exists|cpus: usize| config.is_default_for(cpus),
    {
        let cpus = available_cpus();
        let config = Self::for_cpus(cpus);
        assert(config.is_default_for(cpus));
        config
    }
}

impl ShellConfig {
    /// This is the default configuration: commands are run, the translation
    /// is shown, the shell is bash.
    pub open spec fn is_default(self) -> bool {
        &&& self.auto_execute
        &&& self.show_translation
        &&& self.default_shell@ == "bash"@
    }
}

impl Default for ShellConfig {
    fn default() -> (config: Self)
        ensures
            config.is_default(),
    {
        Self { auto_execute: true, show_translation: true, default_shell: String::from_str("bash") }
    }
}

impl UiConfig {
    /// This is the default configuration.
    pub open spec fn is_default(self) -> bool {
        &&& self.prompt@ == "[cmdr] "@
        &&& self.syntax_highlighting
        &&& option_view(self.history_file) == Some("~/.cmdr_history"@)
    }
}

impl Default for UiConfig {
    fn default() -> (config: Self)
        ensures
            config.is_default(),
    {
        Self {
            prompt: String::from_str("[cmdr] "),
            syntax_highlighting: true,
            history_file: Some(String::from_str("~/.cmdr_history")),
        }
    }
}

impl Default for Config {
    fn default() -> (config: Self)
        ensures
            exists|cpus: usize| config.inference.is_default_for(cpus),
            config.shell.is_default(),
            config.ui.is_default(),
    {
        let inference = InferenceConfig::default();
        Self { inference, shell: ShellConfig::default(), ui: UiConfig::default() }
    }
}

} // verus!
