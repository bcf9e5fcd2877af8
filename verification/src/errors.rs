//! Closed error taxonomy. Each variant carries the structured detail a caller
//! can act on (which field was invalid, which path was missing, which stream
//! held the diagnostic text) instead of pre-formatted prose.

use vstd::prelude::*;

verus! {

use vstd::string::StringExecFns;

/// The request field a validation error refers to.
#[derive(Clone, Copy, Debug, PartialEq, Eq, Structural)]
pub enum FieldName {
    WorkspaceDir,
    ProjectId,
    ActorId,
    Host,
    AgentName,
    Provider,
}

/// Bad or missing caller input; never causes a spawn attempt.
#[derive(Clone, Copy, Debug, PartialEq, Eq, Structural)]
pub enum ValidationError {
    /// A required string field was empty after trimming.
    EmptyField(FieldName),
    /// The actor role was not one of human, ceo, director, manager, worker.
    InvalidActorRole,
    /// The agent role was not one of ceo, director, manager, worker.
    InvalidAgentRole,
    /// The port was zero.
    PortZero,
}

/// Interpreter or entrypoint not found; never causes a spawn attempt.
#[derive(Clone, Debug)]
pub enum ResolutionError {
    /// The caller supplied an explicit entrypoint path and no file is there.
    ExplicitMissing { path: String },
    /// The environment override names an entrypoint path and no file is there.
    EnvMissing { path: String },
    /// No override was given and the discovery sweep found nothing.
    NotFound,
}

impl ResolutionError {
    /// Actionable description of the failure: a missing explicit or
    /// environment path is named; an empty discovery sweep names the expected
    /// relative artifact path and the override variable to set.
    pub fn describe(&self) -> (r: String)
        ensures
            match *self {
                ResolutionError::ExplicitMissing { path } => r@ == "entrypoint path does not exist: "@
                    + path@,
                ResolutionError::EnvMissing { path } => r@
                    == "AGENTCOMPANY_CLI_PATH is set but does not exist: "@ + path@,
                ResolutionError::NotFound => r@
                    == "unable to find dist/cli.js; set AGENTCOMPANY_CLI_PATH to its absolute path"@,
            },
    {
        match self {
            ResolutionError::ExplicitMissing { path } => {
                let mut s = String::from_str("entrypoint path does not exist: ");
                s.append(path.as_str());
                s
            },
            ResolutionError::EnvMissing { path } => {
                let mut s = String::from_str("AGENTCOMPANY_CLI_PATH is set but does not exist: ");
                s.append(path.as_str());
                s
            },
            ResolutionError::NotFound => {
                String::from_str(
                    "unable to find dist/cli.js; set AGENTCOMPANY_CLI_PATH to its absolute path",
                )
            },
        }
    }
}

/// Failure while inspecting or terminating the managed process, or while
/// reaching the shared slot at all.
#[derive(Clone, Copy, Debug, PartialEq, Eq, Structural)]
pub enum SupervisorError {
    /// The shared slot's lock is unusable.
    StateUnavailable,
    /// A non-blocking liveness poll of the managed process failed.
    PollFailed,
    /// The termination signal could not be delivered, for a reason other than
    /// the process already being gone.
    KillFailed,
    /// Waiting for the terminated process to exit failed.
    WaitFailed,
}

/// A one-shot child process ran but violated its output contract or exited
/// nonzero.
#[derive(Clone, Debug)]
pub enum ChildFailureError {
    /// The child's standard output was not valid UTF-8.
    NonUtf8Output,
    /// The child's standard output was empty after trimming where a token was
    /// required.
    EmptyOutput,
    /// The child's standard output did not parse as a single structured
    /// document; `raw` is the trimmed text that failed to parse.
    MalformedJson { raw: String },
    /// The child exited nonzero; `detail` is the trimmed standard error if
    /// non-empty, else the trimmed standard output.
    ChildExit { detail: String },
}

/// The full taxonomy, for callers that surface any failure of an operation.
#[derive(Clone, Debug)]
pub enum WorkerError {
    Validation(ValidationError),
    Resolution(ResolutionError),
    /// The operating system failed to create the process; `detail` is its
    /// diagnostic text.
    Spawn { detail: String },
    ChildFailure(ChildFailureError),
    State(SupervisorError),
}

} // verus!
