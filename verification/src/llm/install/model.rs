//! The installer of the model that Ollama serves.
//!
//! As with Ollama itself, the installation is a sequence of commands:
//! `begin_install` names the first, and `install` the one that follows on
//! what the last one gave.

use crate::llm::install::{
    status_of, unexpected_event_detail, InstallAction, InstallError, InstallEvent, InstallResult,
    InstallStatus,
};
use crate::shell::executor::{slice_views, Invocation, ProcessOutput};
use crate::text::{
    contains, contains_text, lossy_text, option_view, trim, trimmed, utf8_lossy,
};
use vstd::prelude::*;

verus! {

/// The model that is installed unless another name is set.
pub open spec fn default_model_name() -> Seq<char> {
    "llama3.2:3b"@
}

/// The prompt that the model is tried with.
pub const TEST_PROMPT: &'static str = "Hello, this is a test.";

/// How far the installation of the model has come: what the pending action
/// is.
#[derive(Debug, Clone, Copy, PartialEq, Eq)]
pub enum ModelStage {
    /// The installed models are listed, to see whether the model is there.
    Listing,
    /// The model is downloaded.
    Pulling,
    /// The installed models are listed again, to see that the model came.
    Verifying,
}

/// What comes next in the installation of the model.
#[derive(Debug)]
pub enum ModelStep {
    /// The caller does `action` and comes back with the stage and what it
    /// found.
    Continue { stage: ModelStage, action: InstallAction },
    /// The installation has ended, well or not.
    Done(InstallResult<()>),
}

/// `error` is a `ModelDownload` error whose detail reads `detail`.
pub open spec fn is_download_error(error: InstallError, detail: Seq<char>) -> bool {
    error matches InstallError::ModelDownload(m) && m@ == detail
}

/// `error` is a `ModelVerification` error whose detail reads `detail`.
pub open spec fn is_verification_error(error: InstallError, detail: Seq<char>) -> bool {
    error matches InstallError::ModelVerification(m) && m@ == detail
}

/// `r` is what a query of Ollama gave to read: the output of a command that
/// succeeded, without the whitespace around it; or a `ModelVerification`
/// error that begins with `not_started` and gives the reason, for a command
/// that could not be started, and one that begins with `failed` and gives
/// what the command wrote to standard error, for one that failed.
pub open spec fn is_report_of(
    outcome: Result<ProcessOutput, String>,
    not_started: Seq<char>,
    failed: Seq<char>,
    r: InstallResult<String>,
) -> bool {
    match outcome {
        Ok(output) => if output.success {
            r matches Ok(text) && text@ == trimmed(lossy_text(output.stdout@))
        } else {
            r matches Err(e) && is_verification_error(e, failed + lossy_text(output.stderr@))
        },
        Err(reason) => r matches Err(e) && is_verification_error(e, not_started + reason@),
    }
}

/// What a query of Ollama gave to read.
fn report_of(outcome: Result<ProcessOutput, String>, not_started: &str, failed: &str) -> (r:
    InstallResult<String>)
    ensures
        is_report_of(outcome, not_started@, failed@, r),
{
    match outcome {
        Ok(output) => {
            if output.success {
                let report = utf8_lossy(&output.stdout);
                Ok(String::from_str(trim(report.as_str())))
            } else {
                let complaint = utf8_lossy(&output.stderr);
                Err(
                    InstallError::ModelVerification(
                        String::from_str(failed).concat(complaint.as_str()),
                    ),
                )
            }
        },
        Err(reason) => Err(
            InstallError::ModelVerification(String::from_str(not_started).concat(reason.as_str())),
        ),
    }
}

impl ModelStep {
    /// The installation has ended with a `ModelDownload` error that reads
    /// `detail`.
    pub open spec fn fails_with(self, detail: Seq<char>) -> bool {
        self matches ModelStep::Done(Err(e)) && is_download_error(e, detail)
    }

    /// The installation has ended well.
    pub open spec fn succeeds(self) -> bool {
        self matches ModelStep::Done(Ok(_))
    }
}

/// Model installer that handles downloading and managing models.
pub struct ModelInstaller {
    model_name: String,
    ollama_binary: Option<String>,
}

impl ModelInstaller {
    /// The name of the model.
    pub closed spec fn name(&self) -> Seq<char> {
        self.model_name@
    }

    /// The path of the Ollama binary, if it was found.
    pub closed spec fn binary(&self) -> Option<Seq<char>> {
        option_view(self.ollama_binary)
    }

    /// Whether the model counts as installed, given what listing the models
    /// gave: the binary is known, the listing ran and succeeded, and its
    /// output holds the name of the model.
    pub open spec fn installed(&self, listing: Option<&ProcessOutput>) -> bool {
        &&& self.binary() is Some
        &&& listing matches Some(output)
        &&& output.success
        &&& contains(lossy_text(output.stdout@), self.name())
    }

    /// Whether the model counts as installed, given what the command that
    /// lists the models gave.
    pub open spec fn listed(&self, outcome: Result<ProcessOutput, String>) -> bool {
        match outcome {
            Ok(output) => self.installed(Some(&output)),
            Err(_) => false,
        }
    }

    /// `r` is the Ollama command with the arguments `args`, or the error
    /// `missing` if the binary is not known.
    pub open spec fn is_command(
        &self,
        args: Seq<Seq<char>>,
        r: InstallResult<Invocation>,
    ) -> bool {
        match self.binary() {
            Some(path) => r matches Ok(invocation) && invocation.runs(path, args),
            None => r matches Err(e) && is_verification_error(e, "Ollama not found"@),
        }
    }

    /// `step` is the first step of the installation: the listing if the
    /// binary is known, an error if it is not.
    pub open spec fn begins_with(&self, step: ModelStep) -> bool {
        match self.binary() {
            Some(path) => {
                &&& step matches ModelStep::Continue {
                    stage: ModelStage::Listing,
                    action: InstallAction::Capture(invocation),
                }
                &&& invocation.runs(path, seq!["list"@])
            },
            None => step.fails_with("Ollama not found"@),
        }
    }

    /// `step` is what follows when `event` comes in at `stage`.
    pub open spec fn steps_to(&self, stage: ModelStage, event: InstallEvent, step: ModelStep) -> bool {
        match (stage, event) {
            (ModelStage::Listing, InstallEvent::Captured(outcome)) => {
                if self.listed(outcome) {
                    step.succeeds()
                } else {
                    match self.binary() {
                        Some(path) => {
                            &&& step matches ModelStep::Continue {
                                stage: ModelStage::Pulling,
                                action: InstallAction::Foreground(invocation),
                            }
                            &&& invocation.runs(path, seq!["pull"@, self.name()])
                        },
                        None => step.fails_with("Ollama not found"@),
                    }
                }
            },
            (ModelStage::Pulling, InstallEvent::NotStarted(reason)) => step.fails_with(
                "Failed to start model download: "@ + reason@,
            ),
            (ModelStage::Pulling, InstallEvent::Exited(Err(reason))) => step.fails_with(
                "Failed to wait for download: "@ + reason@,
            ),
            (ModelStage::Pulling, InstallEvent::Exited(Ok(success))) => {
                if !success {
                    step.fails_with("Model download failed"@)
                } else {
                    match self.binary() {
                        Some(path) => {
                            &&& step matches ModelStep::Continue {
                                stage: ModelStage::Verifying,
                                action: InstallAction::Capture(invocation),
                            }
                            &&& invocation.runs(path, seq!["list"@])
                        },
                        None => step matches ModelStep::Done(Err(e)) && is_verification_error(
                            e,
                            "Model download completed but verification failed"@,
                        ),
                    }
                }
            },
            (ModelStage::Verifying, InstallEvent::Captured(outcome)) => {
                if self.listed(outcome) {
                    step.succeeds()
                } else {
                    step matches ModelStep::Done(Err(e)) && is_verification_error(
                        e,
                        "Model download completed but verification failed"@,
                    )
                }
            },
            _ => {
                step matches ModelStep::Done(Err(InstallError::Configuration(m))) && m@
                    == unexpected_event_detail()
            },
        }
    }

    /// Create a new installer of the default model. `ollama_binary` is
    /// where the Ollama binary was found, if it was.
    pub fn new(ollama_binary: Option<String>) -> (s: Self)
        ensures
            s.name() == default_model_name(),
            s.binary() == option_view(ollama_binary),
    {
        Self { model_name: String::from_str("llama3.2:3b"), ollama_binary }
    }

    /// Check if the model is already installed. `listing` is what listing
    /// the models gave, or `None` if the listing did not run.
    pub fn is_installed(&self, listing: Option<&ProcessOutput>) -> (b: bool)
        ensures
            b == self.installed(listing),
    {
        if self.ollama_binary.is_none() {
            return false;
        }
        match listing {
            Some(output) => {
                if output.success {
                    let listed = utf8_lossy(&output.stdout);
                    contains_text(listed.as_str(), self.model_name.as_str())
                } else {
                    false
                }
            },
            None => false,
        }
    }

    /// Get the installation status.
    pub fn status(&self, listing: Option<&ProcessOutput>) -> (r: InstallResult<InstallStatus>)
        ensures
            r == Ok::<InstallStatus, InstallError>(status_of(self.installed(listing))),
    {
        if self.is_installed(listing) {
            Ok(InstallStatus::Installed)
        } else {
            Ok(InstallStatus::NotInstalled)
        }
    }

    /// The Ollama command with the arguments `args`.
    fn command(&self, args: &Vec<&str>) -> (r: InstallResult<Invocation>)
        ensures
            self.is_command(slice_views(args@), r),
    {
        match &self.ollama_binary {
            Some(path) => Ok(Invocation::new(path.as_str(), args)),
            None => Err(InstallError::ModelVerification(String::from_str("Ollama not found"))),
        }
    }

    /// The command that lists the installed models.
    pub fn list_command(&self) -> (r: InstallResult<Invocation>)
        ensures
            self.is_command(seq!["list"@], r),
    {
        let args = vec!["list"];
        proof {
            assert(slice_views(args@) =~= seq!["list"@]);
        }
        self.command(&args)
    }

    /// The command that shows information on the model.
    pub fn info_command(&self) -> (r: InstallResult<Invocation>)
        ensures
            self.is_command(seq!["show"@, self.name()], r),
    {
        let args = vec!["show", self.model_name.as_str()];
        proof {
            assert(slice_views(args@) =~= seq!["show"@, self.name()]);
        }
        self.command(&args)
    }

    /// The command that tries the model with a simple prompt.
    pub fn test_command(&self) -> (r: InstallResult<Invocation>)
        ensures
            self.is_command(seq!["run"@, self.name(), TEST_PROMPT@], r),
    {
        let args = vec!["run", self.model_name.as_str(), TEST_PROMPT];
        proof {
            assert(slice_views(args@) =~= seq!["run"@, self.name(), TEST_PROMPT@]);
        }
        self.command(&args)
    }

    /// The command that removes the model.
    pub fn remove_command(&self) -> (r: InstallResult<Invocation>)
        ensures
            self.is_command(seq!["rm"@, self.name()], r),
    {
        let args = vec!["rm", self.model_name.as_str()];
        proof {
            assert(slice_views(args@) =~= seq!["rm"@, self.name()]);
        }
        self.command(&args)
    }

    /// The end of the installation with a download error that reads
    /// `prefix` followed by `reason`.
    fn failure(prefix: &str, reason: &str) -> (step: ModelStep)
        ensures
            step.fails_with(prefix@ + reason@),
    {
        ModelStep::Done(Err(InstallError::ModelDownload(String::from_str(prefix).concat(reason))))
    }

    /// The end of the installation because the binary is not known.
    fn not_found() -> (step: ModelStep)
        ensures
            step.fails_with("Ollama not found"@),
    {
        ModelStep::Done(Err(InstallError::ModelDownload(String::from_str("Ollama not found"))))
    }

    /// The end of the installation because the model did not come.
    fn not_verified() -> (step: ModelStep)
        ensures
            step matches ModelStep::Done(Err(e)) && is_verification_error(
                e,
                "Model download completed but verification failed"@,
            ),
    {
        ModelStep::Done(
            Err(
                InstallError::ModelVerification(
                    String::from_str("Model download completed but verification failed"),
                ),
            ),
        )
    }

    /// Whether the model counts as installed, given what the command that
    /// lists the models gave.
    fn is_listed(&self, outcome: &Result<ProcessOutput, String>) -> (b: bool)
        ensures
            b == self.listed(*outcome),
    {
        match outcome {
            Ok(output) => self.is_installed(Some(output)),
            Err(_) => false,
        }
    }

    /// The first step of the installation.
    pub fn begin_install(&self) -> (step: ModelStep)
        ensures
            self.begins_with(step),
    {
        match self.list_command() {
            Ok(invocation) => ModelStep::Continue {
                stage: ModelStage::Listing,
                action: InstallAction::Capture(invocation),
            },
            Err(_) => Self::not_found(),
        }
    }

    /// Install the model: the next step of the installation, given the
    /// stage that was reached and what the pending action gave.
    pub fn install(&self, stage: ModelStage, event: InstallEvent) -> (step: ModelStep)
        ensures
            self.steps_to(stage, event, step),
    {
        match stage {
            ModelStage::Listing => match event {
                InstallEvent::Captured(outcome) => {
                    if self.is_listed(&outcome) {
                        return ModelStep::Done(Ok(()));
                    }
                    let args = vec!["pull", self.model_name.as_str()];
                    proof {
                        assert(slice_views(args@) =~= seq!["pull"@, self.name()]);
                    }
                    match self.command(&args) {
                        Ok(invocation) => ModelStep::Continue {
                            stage: ModelStage::Pulling,
                            action: InstallAction::Foreground(invocation),
                        },
                        Err(_) => Self::not_found(),
                    }
                },
                _ => Self::unexpected(),
            },
            ModelStage::Pulling => match event {
                InstallEvent::NotStarted(reason) => Self::failure(
                    "Failed to start model download: ",
                    reason.as_str(),
                ),
                InstallEvent::Exited(Err(reason)) => Self::failure(
                    "Failed to wait for download: ",
                    reason.as_str(),
                ),
                InstallEvent::Exited(Ok(success)) => {
                    if !success {
                        return ModelStep::Done(
                            Err(
                                InstallError::ModelDownload(
                                    String::from_str("Model download failed"),
                                ),
                            ),
                        );
                    }
                    match self.list_command() {
                        Ok(invocation) => ModelStep::Continue {
                            stage: ModelStage::Verifying,
                            action: InstallAction::Capture(invocation),
                        },
                        Err(_) => Self::not_verified(),
                    }
                },
                _ => Self::unexpected(),
            },
            ModelStage::Verifying => match event {
                InstallEvent::Captured(outcome) => {
                    if self.is_listed(&outcome) {
                        ModelStep::Done(Ok(()))
                    } else {
                        Self::not_verified()
                    }
                },
                _ => Self::unexpected(),
            },
        }
    }

    /// The end of the installation for an event that does not answer the
    /// pending action.
    fn unexpected() -> (step: ModelStep)
        ensures
            step matches ModelStep::Done(Err(InstallError::Configuration(m))) && m@
                == unexpected_event_detail(),
    {
        ModelStep::Done(Err(InstallError::Configuration(String::from_str("Unexpected event"))))
    }

    /// Get the model name.
    pub fn model_name(&self) -> (r: String)
        ensures
            r@ == self.name(),
    {
        self.model_name.clone()
    }

    /// Set a custom model name.
    pub fn with_model_name(self, name: String) -> (s: Self)
        ensures
            s.name() == name@,
            s.binary() == self.binary(),
    {
        let mut installer = self;
        installer.model_name = name;
        installer
    }

    /// Test the model with a simple prompt: the answer of the model, read
    /// from what `test_command` gave. `listing` is what listing the models
    /// gave before, if the listing ran.
    pub fn test_model(
        &self,
        listing: Option<&ProcessOutput>,
        outcome: Result<ProcessOutput, String>,
    ) -> (r: InstallResult<String>)
        ensures
            if self.binary() is None {
                r matches Err(e) && is_verification_error(e, "Ollama not found"@)
            } else if !self.installed(listing) {
                r matches Err(e) && is_verification_error(e, "Model not installed"@)
            } else {
                is_report_of(outcome, "Failed to test model: "@, "Model test failed: "@, r)
            },
    {
        if self.ollama_binary.is_none() {
            return Err(InstallError::ModelVerification(String::from_str("Ollama not found")));
        }
        if !self.is_installed(listing) {
            return Err(InstallError::ModelVerification(String::from_str("Model not installed")));
        }
        report_of(outcome, "Failed to test model: ", "Model test failed: ")
    }

    /// Get model information, read from what `info_command` gave.
    pub fn model_info(&self, outcome: Result<ProcessOutput, String>) -> (r: InstallResult<String>)
        ensures
            if self.binary() is None {
                r matches Err(e) && is_verification_error(e, "Ollama not found"@)
            } else {
                is_report_of(
                    outcome,
                    "Failed to get model info: "@,
                    "Failed to get model info: "@,
                    r,
                )
            },
    {
        if self.ollama_binary.is_none() {
            return Err(InstallError::ModelVerification(String::from_str("Ollama not found")));
        }
        report_of(outcome, "Failed to get model info: ", "Failed to get model info: ")
    }

    /// Remove the model: whether removing succeeded, read from what
    /// `remove_command` gave. `listing` is what listing the models gave
    /// before; a model that is not installed needs no removing, and
    /// `outcome` is then not looked at.
    pub fn remove(
        &self,
        listing: Option<&ProcessOutput>,
        outcome: Result<ProcessOutput, String>,
    ) -> (r: InstallResult<()>)
        ensures
            if !self.installed(listing) {
                r is Ok
            } else {
                match outcome {
                    Ok(output) => if output.success {
                        r is Ok
                    } else {
                        r matches Err(e) && is_download_error(
                            e,
                            "Failed to remove model: "@ + lossy_text(output.stderr@),
                        )
                    },
                    Err(reason) => r matches Err(e) && is_download_error(
                        e,
                        "Failed to remove model: "@ + reason@,
                    ),
                }
            },
    {
        if !self.is_installed(listing) {
            return Ok(());
        }
        match outcome {
            Ok(output) => {
                if output.success {
                    Ok(())
                } else {
                    let complaint = utf8_lossy(&output.stderr);
                    Err(
                        InstallError::ModelDownload(
                            String::from_str("Failed to remove model: ").concat(
                                complaint.as_str(),
                            ),
                        ),
                    )
                }
            },
            Err(reason) => Err(
                InstallError::ModelDownload(
                    String::from_str("Failed to remove model: ").concat(reason.as_str()),
                ),
            ),
        }
    }

    /// Get available models, read from what `list_command` gave.
    pub fn list_models(&self, outcome: Result<ProcessOutput, String>) -> (r: InstallResult<String>)
        ensures
            if self.binary() is None {
                r matches Err(e) && is_verification_error(e, "Ollama not found"@)
            } else {
                is_report_of(outcome, "Failed to list models: "@, "Failed to list models: "@, r)
            },
    {
        if self.ollama_binary.is_none() {
            return Err(InstallError::ModelVerification(String::from_str("Ollama not found")));
        }
        report_of(outcome, "Failed to list models: ", "Failed to list models: ")
    }
}

} // verus!
