//! The decisions of the installation of Ollama and of the model: what to
//! run, in which order, and what the outcome of each command means.
//!
//! Nothing here touches the system. The caller looks up paths, starts the
//! commands that are named and hands back what it found.

use crate::shell::executor::{slice_views, Invocation, ProcessOutput};
use crate::scan::{split, split_on};
use crate::text::{option_view, views};
use vstd::prelude::*;

pub mod model;
pub mod ollama;
pub mod system;

pub use model::{ModelInstaller, ModelStage, ModelStep};
pub use ollama::{OllamaInstaller, OllamaStage, OllamaStep};
pub use system::{SystemChecker, SystemFacts, SystemRequirements};

verus! {

/// Error type for installation operations.
#[derive(Debug)]
pub enum InstallError {
    SystemCheck(String),
    OllamaInstall(String),
    ModelDownload(String),
    ModelVerification(String),
    Configuration(String),
    Io(String),
}

/// Result type for installation operations.
pub type InstallResult<T> = Result<T, InstallError>;

impl InstallError {
    /// The text shown to the user for this error.
    pub open spec fn text(self) -> Seq<char> {
        match self {
            InstallError::SystemCheck(m) => "System check failed: "@ + m@,
            InstallError::OllamaInstall(m) => "Ollama installation failed: "@ + m@,
            InstallError::ModelDownload(m) => "Model download failed: "@ + m@,
            InstallError::ModelVerification(m) => "Model verification failed: "@ + m@,
            InstallError::Configuration(m) => "Configuration failed: "@ + m@,
            InstallError::Io(m) => "IO error: "@ + m@,
        }
    }

    /// The text shown to the user for this error.
    pub fn message(&self) -> (r: String)
        ensures
            r@ == self.text(),
    {
        match self {
            InstallError::SystemCheck(m) => String::from_str("System check failed: ").concat(
                m.as_str(),
            ),
            InstallError::OllamaInstall(m) => String::from_str(
                "Ollama installation failed: ",
            ).concat(m.as_str()),
            InstallError::ModelDownload(m) => String::from_str("Model download failed: ").concat(
                m.as_str(),
            ),
            InstallError::ModelVerification(m) => String::from_str(
                "Model verification failed: ",
            ).concat(m.as_str()),
            InstallError::Configuration(m) => String::from_str("Configuration failed: ").concat(
                m.as_str(),
            ),
            InstallError::Io(m) => String::from_str("IO error: ").concat(m.as_str()),
        }
    }
}

/// Installation status.
#[derive(Debug, Clone, PartialEq)]
pub enum InstallStatus {
    NotInstalled,
    Installing,
    Installed,
    Failed(String),
}

/// Something for the caller to do in the course of an installation.
#[derive(Debug, Clone)]
pub enum InstallAction {
    /// Run the command to its end and capture what it writes.
    Capture(Invocation),
    /// Run the command to its end; it writes to the terminal.
    Foreground(Invocation),
    /// Start the command and leave it running; go on after so many seconds.
    Background(Invocation, u64),
    /// Look for the Ollama binary.
    Locate,
}

/// What the caller found when it did what it was asked to.
#[derive(Debug)]
pub enum InstallEvent {
    /// A captured command ended, or could not be started for this reason.
    Captured(Result<ProcessOutput, String>),
    /// A foreground command was started, and the wait for it ended: with
    /// success or not, or with this error.
    Exited(Result<bool, String>),
    /// A foreground or background command could not be started.
    NotStarted(String),
    /// A background command is running.
    Started,
    /// The Ollama binary was looked for: this is where it is.
    Located(Option<String>),
}

/// The detail of the error for an event that does not answer the pending
/// action.
pub open spec fn unexpected_event_detail() -> Seq<char> {
    "Unexpected event"@
}

/// The captured output of a command that ended with success, if it did.
pub open spec fn succeeded(outcome: Result<ProcessOutput, String>) -> Option<ProcessOutput> {
    match outcome {
        Ok(output) => if output.success {
            Some(output)
        } else {
            None
        },
        Err(_) => None,
    }
}

/// The places where the Ollama binary is looked for first.
pub fn common_binary_paths() -> (paths: Vec<&'static str>)
    ensures
        slice_views(paths@) == seq![
            "/usr/local/bin/ollama"@,
            "/opt/homebrew/bin/ollama"@,
            "/usr/bin/ollama"@,
        ],
{
    let paths = vec!["/usr/local/bin/ollama", "/opt/homebrew/bin/ollama", "/usr/bin/ollama"];
    proof {
        assert(slice_views(paths@) =~= seq![
            "/usr/local/bin/ollama"@,
            "/opt/homebrew/bin/ollama"@,
            "/usr/bin/ollama"@,
        ]);
    }
    paths
}

/// The directories of the search path `path_var`, in order: its parts
/// between colons.
pub fn search_directories(path_var: &str) -> (directories: Vec<String>)
    ensures
        views(directories@) == split_on(path_var@, ':'),
{
    split(path_var, ':')
}

/// The first of `names` whose mark is set. Names without a mark and marks
/// without a name do not count.
pub open spec fn first_marked(names: Seq<Seq<char>>, marks: Seq<bool>) -> Option<Seq<char>>
    decreases names.len(),
{
    if names.len() == 0 || marks.len() == 0 {
        None
    } else if marks[0] {
        Some(names[0])
    } else {
        first_marked(names.drop_first(), marks.drop_first())
    }
}

/// Find the Ollama binary: the first of the candidate paths that exists.
/// `exists` says for each candidate, in order, whether there is a file.
pub fn find_ollama_binary(candidates: &Vec<String>, exists: &Vec<bool>) -> (found: Option<String>)
    ensures
        option_view(found) == first_marked(views(candidates@), exists@),
{
    let mut i: usize = 0;
    assert(views(candidates@).skip(0) =~= views(candidates@));
    assert(exists@.skip(0) =~= exists@);
    while i < candidates.len() && i < exists.len()
        invariant
            i <= candidates.len(),
            i <= exists.len(),
            first_marked(views(candidates@).skip(i as int), exists@.skip(i as int))
                == first_marked(views(candidates@), exists@),
        decreases candidates.len() - i,
    {
        proof {
            let names = views(candidates@).skip(i as int);
            let marks = exists@.skip(i as int);
            assert(names[0] == candidates@[i as int]@);
            assert(marks[0] == exists@[i as int]);
            assert(names.drop_first() =~= views(candidates@).skip(i + 1));
            assert(marks.drop_first() =~= exists@.skip(i + 1));
        }
        if exists[i] {
            return Some(candidates[i].clone());
        }
        i = i + 1;
    }
    None
}

/// The status for what is, or is not, installed.
pub open spec fn status_of(installed: bool) -> InstallStatus {
    if installed {
        InstallStatus::Installed
    } else {
        InstallStatus::NotInstalled
    }
}

/// Main installer that coordinates the entire installation process.
pub struct LlmInstaller {
    ollama_installer: OllamaInstaller,
    model_installer: ModelInstaller,
    system_checker: SystemChecker,
}

impl LlmInstaller {
    /// The installer of the model.
    pub closed spec fn model(&self) -> ModelInstaller {
        self.model_installer
    }

    /// The installer of Ollama.
    pub closed spec fn ollama(&self) -> OllamaInstaller {
        self.ollama_installer
    }

    /// The checker of the system requirements.
    pub closed spec fn checker(&self) -> SystemChecker {
        self.system_checker
    }

    /// Create a new LLM installer for the default model and requirements.
    /// `ollama_binary` is where the Ollama binary was found, if it was.
    pub fn new(ollama_binary: Option<String>) -> (s: Self)
        ensures
            s.model().name() == model::default_model_name(),
            s.model().binary() == option_view(ollama_binary),
            s.ollama().binary() == option_view(ollama_binary),
            s.checker().requirements() == system::default_requirements(),
    {
        let for_model = match &ollama_binary {
            Some(path) => Some(path.clone()),
            None => None,
        };
        Self {
            ollama_installer: OllamaInstaller::new(ollama_binary),
            model_installer: ModelInstaller::new(for_model),
            system_checker: SystemChecker::new(),
        }
    }

    /// Check if the system meets requirements.
    pub fn check_system(&self, facts: &SystemFacts) -> (r: InstallResult<bool>)
        ensures
            r == Ok::<bool, InstallError>(self.checker().meets_requirements(*facts)),
    {
        self.system_checker.check_requirements(facts)
    }

    /// Get the installation status of Ollama. `probe_succeeded` says whether
    /// the binary answered the version query.
    pub fn ollama_status(&self, probe_succeeded: bool) -> (r: InstallResult<InstallStatus>)
        ensures
            r == Ok::<InstallStatus, InstallError>(
                status_of(self.ollama().installed(probe_succeeded)),
            ),
    {
        self.ollama_installer.status(probe_succeeded)
    }

    /// Get the installation status of the model. `listing` is what listing
    /// the models gave, if the listing ran.
    pub fn model_status(&self, listing: Option<&ProcessOutput>) -> (r: InstallResult<
        InstallStatus,
    >)
        ensures
            r == Ok::<InstallStatus, InstallError>(status_of(self.model().installed(listing))),
    {
        self.model_installer.status(listing)
    }

    /// `r` is the first step of the whole installation: an error if the
    /// system does not meet the requirements, else the first step of the
    /// installation of Ollama.
    pub open spec fn begins_all(&self, facts: SystemFacts, r: InstallResult<OllamaStep>) -> bool {
        if self.checker().meets_requirements(facts) {
            r matches Ok(step) && self.ollama().begins_with(step)
        } else {
            r matches Err(InstallError::SystemCheck(m)) && m@ == "System requirements not met"@
        }
    }

    /// Perform a complete installation, Ollama and then the model: the
    /// first step of it. The installation of the model begins when
    /// `install_ollama` has ended well.
    pub fn install_all(&self, facts: &SystemFacts) -> (r: InstallResult<OllamaStep>)
        ensures
            self.begins_all(*facts, r),
    {
        match self.check_system(facts) {
            Ok(met) => {
                if !met {
                    return Err(
                        InstallError::SystemCheck(String::from_str("System requirements not met")),
                    );
                }
            },
            Err(e) => {
                return Err(e);
            },
        }
        Ok(self.ollama_installer.begin_install())
    }

    /// The first step of the installation of Ollama.
    pub fn begin_install_ollama(&self) -> (step: OllamaStep)
        ensures
            self.ollama().begins_with(step),
    {
        self.ollama_installer.begin_install()
    }

    /// Install Ollama if not already installed: the next step, given the
    /// stage that was reached and what the pending action gave. The model
    /// installer and the requirements stay as they are.
    pub fn install_ollama(&mut self, stage: OllamaStage, event: InstallEvent) -> (step: OllamaStep)
        ensures
            old(self).ollama().steps_to(stage, event, &final(self).ollama(), step),
            final(self).model() == old(self).model(),
            final(self).checker() == old(self).checker(),
    {
        self.ollama_installer.install(stage, event)
    }

    /// The first step of the installation of the model.
    pub fn begin_install_model(&self) -> (step: ModelStep)
        ensures
            self.model().begins_with(step),
    {
        self.model_installer.begin_install()
    }

    /// Install the model: the next step, given the stage that was reached
    /// and what the pending action gave.
    pub fn install_model(&mut self, stage: ModelStage, event: InstallEvent) -> (step: ModelStep)
        ensures
            old(self).model().steps_to(stage, event, step),
            *final(self) == *old(self),
    {
        self.model_installer.install(stage, event)
    }

    /// Get the path to the Ollama binary.
    pub fn ollama_path(&self) -> (r: Option<String>)
        ensures
            option_view(r) == self.ollama().binary(),
    {
        self.ollama_installer.binary_path()
    }

    /// Get the name of the model.
    pub fn model_name(&self) -> (r: String)
        ensures
            r@ == self.model().name(),
    {
        self.model_installer.model_name()
    }

    /// Get the system checker.
    pub fn system_checker(&self) -> (r: &SystemChecker)
        ensures
            *r == self.checker(),
    {
        &self.system_checker
    }

    /// Get the Ollama installer.
    pub fn ollama_installer(&self) -> (r: &OllamaInstaller)
        ensures
            *r == self.ollama(),
    {
        &self.ollama_installer
    }

    /// Get the model installer.
    pub fn model_installer(&self) -> (r: &ModelInstaller)
        ensures
            *r == self.model(),
    {
        &self.model_installer
    }
}

} // verus!
