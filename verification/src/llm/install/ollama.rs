//! The installer of the Ollama runtime.
//!
//! The installation is a sequence of commands. `begin_install` names the
//! first, and `install`, given the stage that was reached and what the last
//! command gave, names the next or ends the installation.

use crate::llm::install::{
    status_of, succeeded, unexpected_event_detail, InstallAction, InstallError, InstallEvent,
    InstallResult, InstallStatus,
};
use crate::shell::executor::{slice_views, Invocation, ProcessOutput};
use crate::text::{lossy_text, option_view, trim, trimmed, utf8_lossy};
use vstd::prelude::*;

verus! {

/// Where the installation script is fetched from.
pub const INSTALL_SCRIPT_URL: &'static str = "https://ollama.ai/install.sh";

/// The shell command that fetches and runs the installation script.
pub const INSTALL_PIPELINE: &'static str = "curl -fsSL https://ollama.ai/install.sh | sh";

/// How long the service is given to come up, in seconds.
pub const SERVICE_SETTLE_SECONDS: u64 = 2;

/// How far the installation of Ollama has come: what the pending action is.
#[derive(Debug, Clone, Copy, PartialEq, Eq)]
pub enum OllamaStage {
    /// The binary is asked for its version.
    Probing,
    /// The installation script is fetched, to see that it can be.
    Downloading,
    /// The installation script is fetched and run.
    Installing,
    /// The binary is looked for.
    Locating,
    /// The service is started.
    Starting,
}

/// What comes next in the installation of Ollama.
#[derive(Debug)]
pub enum OllamaStep {
    /// The caller does `action` and comes back with the stage and what it
    /// found.
    Continue { stage: OllamaStage, action: InstallAction },
    /// The installation has ended, well or not.
    Done(InstallResult<()>),
}

/// `error` is an `OllamaInstall` error whose detail reads `detail`.
pub open spec fn is_ollama_error(error: InstallError, detail: Seq<char>) -> bool {
    error matches InstallError::OllamaInstall(m) && m@ == detail
}

impl OllamaStep {
    /// The step is to capture `program` with `args` at `stage`.
    pub open spec fn captures(
        self,
        stage: OllamaStage,
        program: Seq<char>,
        args: Seq<Seq<char>>,
    ) -> bool {
        self matches OllamaStep::Continue { stage: s, action: InstallAction::Capture(invocation) }
            && s == stage && invocation.runs(program, args)
    }

    /// The installation has ended with an `OllamaInstall` error that reads
    /// `detail`.
    pub open spec fn fails_with(self, detail: Seq<char>) -> bool {
        self matches OllamaStep::Done(Err(e)) && is_ollama_error(e, detail)
    }

    /// The installation has ended well.
    pub open spec fn succeeds(self) -> bool {
        self matches OllamaStep::Done(Ok(_))
    }

    /// The step is the one that fetches the installation script.
    pub open spec fn is_download(self) -> bool {
        self.captures(OllamaStage::Downloading, "curl"@, seq!["-fsSL"@, INSTALL_SCRIPT_URL@])
    }
}

/// Ollama installer that handles installation and management.
pub struct OllamaInstaller {
    binary_path: Option<String>,
}

impl OllamaInstaller {
    /// The path of the Ollama binary, if it was found.
    pub closed spec fn binary(&self) -> Option<Seq<char>> {
        option_view(self.binary_path)
    }

    /// Whether Ollama counts as installed: the binary is known and it
    /// answered the version query.
    pub open spec fn installed(&self, probe_succeeded: bool) -> bool {
        self.binary() is Some && probe_succeeded
    }

    /// `step` is the first step of the installation: the version query if
    /// the binary is known, the download if it is not.
    pub open spec fn begins_with(&self, step: OllamaStep) -> bool {
        match self.binary() {
            Some(path) => step.captures(OllamaStage::Probing, path, seq!["--version"@]),
            None => step.is_download(),
        }
    }

    /// `step` is what follows when `event` comes in at `stage`, and `after`
    /// is the installer then.
    pub open spec fn steps_to(
        &self,
        stage: OllamaStage,
        event: InstallEvent,
        after: &Self,
        step: OllamaStep,
    ) -> bool {
        match (stage, event) {
            (OllamaStage::Probing, InstallEvent::Captured(outcome)) => {
                &&& after.binary() == self.binary()
                &&& if self.installed(succeeded(outcome) is Some) {
                    step.succeeds()
                } else {
                    step.is_download()
                }
            },
            (OllamaStage::Downloading, InstallEvent::Captured(outcome)) => {
                &&& after.binary() == self.binary()
                &&& match outcome {
                    Err(reason) => step.fails_with(
                        "Failed to download install script: "@ + reason@,
                    ),
                    Ok(output) => if output.success {
                        step.captures(OllamaStage::Installing, "sh"@, seq!["-c"@, INSTALL_PIPELINE@])
                    } else {
                        step.fails_with(
                            "Failed to download install script: "@ + lossy_text(output.stderr@),
                        )
                    },
                }
            },
            (OllamaStage::Installing, InstallEvent::Captured(outcome)) => {
                &&& after.binary() == self.binary()
                &&& match outcome {
                    Err(reason) => step.fails_with("Failed to execute install script: "@ + reason@),
                    Ok(output) => if output.success {
                        step matches OllamaStep::Continue {
                            stage: OllamaStage::Locating,
                            action: InstallAction::Locate,
                        }
                    } else {
                        step.fails_with("Installation failed: "@ + lossy_text(output.stderr@))
                    },
                }
            },
            (OllamaStage::Locating, InstallEvent::Located(found)) => {
                &&& after.binary() == option_view(found)
                &&& match found {
                    Some(path) => {
                        &&& step matches OllamaStep::Continue {
                            stage: OllamaStage::Starting,
                            action: InstallAction::Background(invocation, seconds),
                        }
                        &&& invocation.runs(path@, seq!["serve"@])
                        &&& seconds == SERVICE_SETTLE_SECONDS
                    },
                    None => step.fails_with("Ollama installed but binary not found in PATH"@),
                }
            },
            (OllamaStage::Starting, InstallEvent::Started) => {
                after.binary() == self.binary() && step.succeeds()
            },
            (OllamaStage::Starting, InstallEvent::NotStarted(reason)) => {
                after.binary() == self.binary() && step.fails_with(
                    "Failed to start Ollama service: "@ + reason@,
                )
            },
            _ => {
                &&& after.binary() == self.binary()
                &&& step matches OllamaStep::Done(Err(InstallError::Configuration(m)))
                &&& m@ == unexpected_event_detail()
            },
        }
    }

    /// Create a new Ollama installer. `binary_path` is where the binary was
    /// found, if it was.
    pub fn new(binary_path: Option<String>) -> (s: Self)
        ensures
            s.binary() == option_view(binary_path),
    {
        Self { binary_path }
    }

    /// Check if Ollama is already installed. `probe_succeeded` says whether
    /// the binary answered the version query.
    pub fn is_installed(&self, probe_succeeded: bool) -> (b: bool)
        ensures
            b == self.installed(probe_succeeded),
    {
        self.binary_path.is_some() && probe_succeeded
    }

    /// Get the installation status.
    pub fn status(&self, probe_succeeded: bool) -> (r: InstallResult<InstallStatus>)
        ensures
            r == Ok::<InstallStatus, InstallError>(status_of(self.installed(probe_succeeded))),
    {
        if self.is_installed(probe_succeeded) {
            Ok(InstallStatus::Installed)
        } else {
            Ok(InstallStatus::NotInstalled)
        }
    }

    /// The command that asks the binary for its version, if the binary is
    /// known. Its success is the probe of `is_installed`.
    pub fn probe_command(&self) -> (r: Option<Invocation>)
        ensures
            match self.binary() {
                Some(path) => r matches Some(invocation) && invocation.runs(
                    path,
                    seq!["--version"@],
                ),
                None => r is None,
            },
    {
        match &self.binary_path {
            Some(path) => {
                let args = vec!["--version"];
                proof {
                    assert(slice_views(args@) =~= seq!["--version"@]);
                }
                Some(Invocation::new(path.as_str(), &args))
            },
            None => None,
        }
    }

    /// The first step of the installation.
    pub fn begin_install(&self) -> (step: OllamaStep)
        ensures
            self.begins_with(step),
    {
        match self.probe_command() {
            Some(invocation) => OllamaStep::Continue {
                stage: OllamaStage::Probing,
                action: InstallAction::Capture(invocation),
            },
            None => Self::download_step(),
        }
    }

    /// The step that fetches the installation script.
    fn download_step() -> (step: OllamaStep)
        ensures
            step.is_download(),
    {
        let args = vec!["-fsSL", INSTALL_SCRIPT_URL];
        proof {
            assert(slice_views(args@) =~= seq!["-fsSL"@, INSTALL_SCRIPT_URL@]);
        }
        OllamaStep::Continue {
            stage: OllamaStage::Downloading,
            action: InstallAction::Capture(Invocation::new("curl", &args)),
        }
    }

    /// The end of the installation with an error that reads `prefix`
    /// followed by `reason`.
    fn failure(prefix: &str, reason: &str) -> (step: OllamaStep)
        ensures
            step.fails_with(prefix@ + reason@),
    {
        OllamaStep::Done(Err(InstallError::OllamaInstall(String::from_str(prefix).concat(reason))))
    }

    /// The end of the installation for an event that does not answer the
    /// pending action.
    fn unexpected() -> (step: OllamaStep)
        ensures
            step matches OllamaStep::Done(Err(InstallError::Configuration(m))) && m@
                == unexpected_event_detail(),
    {
        OllamaStep::Done(Err(InstallError::Configuration(String::from_str("Unexpected event"))))
    }

    /// Install Ollama: the next step of the installation, given the stage
    /// that was reached and what the pending action gave.
    pub fn install(&mut self, stage: OllamaStage, event: InstallEvent) -> (step: OllamaStep)
        ensures
            old(self).steps_to(stage, event, final(self), step),
    {
        match stage {
            OllamaStage::Probing => match event {
                InstallEvent::Captured(outcome) => {
                    let probe_succeeded = match &outcome {
                        Ok(output) => output.success,
                        Err(_) => false,
                    };
                    if self.is_installed(probe_succeeded) {
                        OllamaStep::Done(Ok(()))
                    } else {
                        Self::download_step()
                    }
                },
                _ => Self::unexpected(),
            },
            OllamaStage::Downloading => match event {
                InstallEvent::Captured(outcome) => match outcome {
                    Err(reason) => Self::failure(
                        "Failed to download install script: ",
                        reason.as_str(),
                    ),
                    Ok(output) => {
                        if output.success {
                            let args = vec!["-c", INSTALL_PIPELINE];
                            proof {
                                assert(slice_views(args@) =~= seq!["-c"@, INSTALL_PIPELINE@]);
                            }
                            OllamaStep::Continue {
                                stage: OllamaStage::Installing,
                                action: InstallAction::Capture(Invocation::new("sh", &args)),
                            }
                        } else {
                            let complaint = utf8_lossy(&output.stderr);
                            Self::failure("Failed to download install script: ", complaint.as_str())
                        }
                    },
                },
                _ => Self::unexpected(),
            },
            OllamaStage::Installing => match event {
                InstallEvent::Captured(outcome) => match outcome {
                    Err(reason) => Self::failure(
                        "Failed to execute install script: ",
                        reason.as_str(),
                    ),
                    Ok(output) => {
                        if output.success {
                            OllamaStep::Continue {
                                stage: OllamaStage::Locating,
                                action: InstallAction::Locate,
                            }
                        } else {
                            let complaint = utf8_lossy(&output.stderr);
                            Self::failure("Installation failed: ", complaint.as_str())
                        }
                    },
                },
                _ => Self::unexpected(),
            },
            OllamaStage::Locating => match event {
                InstallEvent::Located(found) => {
                    self.binary_path = found;
                    match self.start_service() {
                        Ok(invocation) => OllamaStep::Continue {
                            stage: OllamaStage::Starting,
                            action: InstallAction::Background(invocation, SERVICE_SETTLE_SECONDS),
                        },
                        Err(_) => OllamaStep::Done(
                            Err(
                                InstallError::OllamaInstall(
                                    String::from_str(
                                        "Ollama installed but binary not found in PATH",
                                    ),
                                ),
                            ),
                        ),
                    }
                },
                _ => Self::unexpected(),
            },
            OllamaStage::Starting => match event {
                InstallEvent::Started => OllamaStep::Done(Ok(())),
                InstallEvent::NotStarted(reason) => Self::failure(
                    "Failed to start Ollama service: ",
                    reason.as_str(),
                ),
                _ => Self::unexpected(),
            },
        }
    }

    /// Start the Ollama service: the command that serves, to be left
    /// running, if the binary is known.
    pub fn start_service(&self) -> (r: InstallResult<Invocation>)
        ensures
            match self.binary() {
                Some(path) => r matches Ok(invocation) && invocation.runs(path, seq!["serve"@]),
                None => r matches Err(e) && is_ollama_error(e, "Ollama binary not found"@),
            },
    {
        match &self.binary_path {
            Some(path) => {
                let args = vec!["serve"];
                proof {
                    assert(slice_views(args@) =~= seq!["serve"@]);
                }
                Ok(Invocation::new(path.as_str(), &args))
            },
            None => Err(InstallError::OllamaInstall(String::from_str("Ollama binary not found"))),
        }
    }

    /// Get the path to the Ollama binary.
    pub fn binary_path(&self) -> (r: Option<String>)
        ensures
            option_view(r) == self.binary(),
    {
        match &self.binary_path {
            Some(path) => Some(path.clone()),
            None => None,
        }
    }

    /// Get Ollama version from what the version query gave; `None` stands
    /// for a query that did not run because the binary is not known.
    pub fn version(&self, outcome: Option<Result<ProcessOutput, String>>) -> (r: InstallResult<
        String,
    >)
        ensures
            match (self.binary(), outcome) {
                (Some(_), Some(Ok(output))) => if output.success {
                    r matches Ok(text) && text@ == trimmed(lossy_text(output.stdout@))
                } else {
                    r matches Err(e) && is_ollama_error(e, "Failed to get Ollama version"@)
                },
                (Some(_), Some(Err(reason))) => r matches Err(e) && is_ollama_error(
                    e,
                    "Failed to get version: "@ + reason@,
                ),
                _ => r matches Err(e) && is_ollama_error(e, "Ollama not installed"@),
            },
    {
        if self.binary_path.is_none() {
            return Err(InstallError::OllamaInstall(String::from_str("Ollama not installed")));
        }
        match outcome {
            Some(Ok(output)) => {
                if output.success {
                    let report = utf8_lossy(&output.stdout);
                    Ok(String::from_str(trim(report.as_str())))
                } else {
                    Err(
                        InstallError::OllamaInstall(
                            String::from_str("Failed to get Ollama version"),
                        ),
                    )
                }
            },
            Some(Err(reason)) => Err(
                InstallError::OllamaInstall(
                    String::from_str("Failed to get version: ").concat(reason.as_str()),
                ),
            ),
            None => Err(InstallError::OllamaInstall(String::from_str("Ollama not installed"))),
        }
    }
}

} // verus!
