//! The failure taxonomy: every operation that can fail reports one of
//! these variants to its caller; nothing is swallowed. External command
//! failures carry the captured output for operator diagnosis.
use vstd::prelude::*;

verus! {

#[derive(Debug, Clone, PartialEq)]
pub enum Error {
    /// A required binary was not found in any search-path directory.
    ExecutableNotFound { name: String },
    /// A derived configuration file could not be written.
    ConfigWriteFailure { path: String, cause: String },
    /// The daemon could not be spawned at all.
    ProcessSpawnFailure { executable: String, cause: String },
    /// Neither the readiness marker nor end of stream arrived in time.
    ReadinessTimeout,
    /// The process exited or closed its stdout before the readiness
    /// marker appeared; the captured stderr is attached.
    ReadinessStreamClosed { stderr: String },
    /// An external command exited non-zero.
    ExternalCommandFailure { command: String, exit_code: i32, stdout: String, stderr: String },
    /// An external command exited non-zero while draining workloads.
    DrainFailure { command: String, exit_code: i32, stdout: String, stderr: String },
    /// The supervised process did not terminate within the grace period.
    StopFailure { name: String },
}

impl Error {
    /// A short diagnostic label for the variant.
    pub fn describe(&self) -> (r: String)
        ensures
            (self matches Error::ExecutableNotFound { .. }) ==> r@ == "executable not found"@,
            (self matches Error::ConfigWriteFailure { .. }) ==> r@ == "config write failure"@,
            (self matches Error::ProcessSpawnFailure { .. }) ==> r@ == "process spawn failure"@,
            (self matches Error::ReadinessTimeout) ==> r@ == "readiness timeout"@,
            (self matches Error::ReadinessStreamClosed { .. }) ==> r@ == "readiness stream closed"@,
            (self matches Error::ExternalCommandFailure { .. }) ==> r@
                == "external command failure"@,
            (self matches Error::DrainFailure { .. }) ==> r@ == "drain failure"@,
            (self matches Error::StopFailure { .. }) ==> r@ == "stop failure"@,
    {
        match self {
            Error::ExecutableNotFound { .. } => "executable not found".to_owned(),
            Error::ConfigWriteFailure { .. } => "config write failure".to_owned(),
            Error::ProcessSpawnFailure { .. } => "process spawn failure".to_owned(),
            Error::ReadinessTimeout => "readiness timeout".to_owned(),
            Error::ReadinessStreamClosed { .. } => "readiness stream closed".to_owned(),
            Error::ExternalCommandFailure { .. } => "external command failure".to_owned(),
            Error::DrainFailure { .. } => "drain failure".to_owned(),
            Error::StopFailure { .. } => "stop failure".to_owned(),
        }
    }
}

} // verus!
