//! The ways a launch can fail, and the text shown for each.

use vstd::prelude::*;
use crate::text::{decimal, render_decimal};

verus! {

/// Why a launch, a termination request or a probe did not succeed.
///
/// None of these is fatal to the caller: each is a value to report.
#[derive(Debug, Clone)]
pub enum ErrorKind {
    /// The target (position 0) or the argument just before `position`
    /// holds the platform's quoting mark and cannot be put on a command line.
    UnquotableArgument { position: usize },
    /// The operating system refused to create the process, or to say how it
    /// ended.
    SpawnFailed { reason: String },
    /// The process outlived its time limit and was told to stop.
    Timeout { seconds: u64 },
    /// The process ran to its end and did not report success.
    NonZeroExit { code: i32, status: String },
    /// The operating system rejected a forced termination.
    KillFailed { reason: String },
    /// A liveness probe could not be carried out.
    ProbeInconclusive,
}

impl ErrorKind {
    /// The text of `message`, over the views of the texts an error carries.
    pub open spec fn message_text(self) -> Seq<char> {
        match self {
            ErrorKind::UnquotableArgument { position } => "Quoting mark inside argument "@
                + decimal(position as nat),
            ErrorKind::SpawnFailed { reason } => "Execution error: "@ + reason@,
            ErrorKind::Timeout { seconds } => "Timeout exceeded ("@ + decimal(seconds as nat)
                + " seconds)"@,
            ErrorKind::NonZeroExit { code, status } => "Process exited with status: "@ + status@,
            ErrorKind::KillFailed { reason } => "Failed to kill process: "@ + reason@,
            ErrorKind::ProbeInconclusive => "Process state could not be determined"@,
        }
    }

    /// A line fit for direct display.
    pub fn message(&self) -> (line: String)
        ensures
            line@ == self.message_text(),
    {
        match self {
            ErrorKind::UnquotableArgument { position } => {
                let mut line = String::from_str("Quoting mark inside argument ");
                let number = render_decimal(*position as u64);
                line.append(number.as_str());
                line
            },
            ErrorKind::SpawnFailed { reason } => {
                let mut line = String::from_str("Execution error: ");
                line.append(reason.as_str());
                line
            },
            ErrorKind::Timeout { seconds } => {
                let mut line = String::from_str("Timeout exceeded (");
                let number = render_decimal(*seconds);
                line.append(number.as_str());
                line.append(" seconds)");
                line
            },
            ErrorKind::NonZeroExit { code: _, status } => {
                let mut line = String::from_str("Process exited with status: ");
                line.append(status.as_str());
                line
            },
            ErrorKind::KillFailed { reason } => {
                let mut line = String::from_str("Failed to kill process: ");
                line.append(reason.as_str());
                line
            },
            ErrorKind::ProbeInconclusive => String::from_str(
                "Process state could not be determined",
            ),
        }
    }
}

} // verus!
