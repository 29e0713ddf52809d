//! The error taxonomy: agent-level errors for the lifecycle controller and
//! provider-level errors for the provisioning contract. Every provisioning
//! failure carries exactly one cleanup classification, fixed at the point
//! the failure is first observed.

use vstd::prelude::*;

verus! {

/// Cleanup obligation signaled by a provisioning failure.
#[derive(Clone, Copy, Debug, PartialEq, Eq, Structural)]
pub enum Resources {
    /// No external resource was created; nothing to clean up.
    Clear,
    /// A resource exists and a destroy pass will find and remove it.
    Remaining,
    /// A destroy attempt itself failed; automatic cleanup is not safe to assume.
    Orphaned,
    /// Insufficient information to classify; treated as `Orphaned` for safety.
    Unknown,
}

/// A provisioning failure: a message and exactly one classification.
/// The classification is part of the error itself, never inferred later.
#[derive(Debug)]
pub struct ProviderError {
    pub resources: Resources,
    pub message: String,
}

impl ProviderError {
    pub fn new(resources: Resources, message: &str) -> (r: ProviderError)
        ensures
            r.resources == resources,
            r.message@ == message@,
    {
        ProviderError { resources, message: message.to_owned() }
    }
}

pub type ProviderResult<T> = Result<T, ProviderError>;

/// Agent-level failures of one lifecycle run. Only `Client` and `Runner`
/// failures are reportable over the info channel; a `Bootstrap` failure
/// happens before any channel exists and simply ends the process.
#[derive(Debug)]
pub enum AgentError<CE, RE> {
    Bootstrap(String),
    Client(CE),
    Runner(RE),
}

/// Failures of the workload-execution path, each carrying the diagnostic
/// context observed where it first arose.
#[derive(Debug)]
pub enum WorkloadError {
    /// An external process could not be invoked at all.
    Process { detail: String },
    /// A test plugin could not be generated.
    Test { plugin: String },
    /// The external run command exited unsuccessfully.
    Run { exit_code: i32, stdout: String, stderr: String },
    /// A file could not be written.
    FileWrite { path: String },
    /// The test harness did not report a status within its bound.
    Timeout,
    /// The harness status output was not valid JSON.
    DeserializeJson { detail: String },
    /// Deleting the workload's resources failed.
    Delete,
}

} // verus!
