//! The failure taxonomy that every step of the provisioning pipeline reports
//! through: one variant per distinct way a step can go wrong.

use vstd::prelude::*;

verus! {

/// A typed step failure. `ProcessExit` carries the child's exit code where
/// one was available; `ReadinessTimeout` is the one fatal variant, on which
/// the whole pipeline stops rather than returning control.
#[derive(Clone, Copy, PartialEq, Eq, Debug)]
pub enum StepError {
    /// A request or transport failure while fetching bytes.
    Network,
    /// A metadata body that is not in the expected structure.
    ResponseParse,
    /// A release whose asset list has no entry satisfying the selector.
    NoMatchingAsset,
    /// A create, write, read or delete failure on a local path.
    FileIo,
    /// An executable that was missing or could not be spawned.
    ProcessLaunch,
    /// A child process that exited with a failure status.
    ProcessExit { code: Option<i32> },
    /// The readiness polling budget was exhausted.
    ReadinessTimeout,
}

/// The short human-readable name of an error variant, as the diagnostics
/// print it.
pub open spec fn spec_error_label(e: StepError) -> Seq<char> {
    match e {
        StepError::Network => "network request failed"@,
        StepError::ResponseParse => "response not in expected structure"@,
        StepError::NoMatchingAsset => "no suitable installer found"@,
        StepError::FileIo => "file operation failed"@,
        StepError::ProcessLaunch => "failed to start process"@,
        StepError::ProcessExit { .. } => "installer exited with failure status"@,
        StepError::ReadinessTimeout => "toolchain never became ready"@,
    }
}

impl StepError {
    /// The label used in diagnostics for this variant.
    pub fn label(&self) -> (r: &'static str)
        ensures
            r@ == spec_error_label(*self),
    {
        match self {
            StepError::Network => "network request failed",
            StepError::ResponseParse => "response not in expected structure",
            StepError::NoMatchingAsset => "no suitable installer found",
            StepError::FileIo => "file operation failed",
            StepError::ProcessLaunch => "failed to start process",
            StepError::ProcessExit { .. } => "installer exited with failure status",
            StepError::ReadinessTimeout => "toolchain never became ready",
        }
    }

    /// Only a readiness timeout is fatal: it terminates the process instead
    /// of returning control to a caller.
    pub fn is_fatal(&self) -> (r: bool)
        ensures
            r == (*self is ReadinessTimeout),
    {
        match self {
            StepError::ReadinessTimeout => true,
            _ => false,
        }
    }
}

} // verus!
