//! How a compiler child process ended, and what its caller is told.
use vstd::prelude::*;
use vstd::utf8::{decode_utf8, valid_utf8};

use crate::errors::CompilationUtilError;
use crate::text::{signed_decimal, signed_decimal_text, utf8_text};

verus! {

/// The signal that a CPU-time overrun or a forced kill delivers.
pub const SIGKILL: i32 = 9;

/// The signal that exceeding the file-size ceiling delivers.
pub const SIGXFSZ: i32 = 25;

/// What the platform reports of how a process ended.
#[derive(Clone, Copy, Debug, PartialEq, Eq, Structural)]
pub enum SignalSemantics {
    /// The platform reports the signal that terminated a process, if any.
    Posix,
    /// The platform reports nothing beyond a non-zero exit.
    Unavailable,
}

/// How a child process ended, as the platform reports it.
#[derive(Clone, Copy, Debug, PartialEq, Eq, Structural)]
pub struct ProcessStatus {
    /// The process exited normally with status zero.
    pub success: bool,
    /// The signal that terminated the process, where the platform tells it.
    pub signal: Option<i32>,
}

/// The diagnosis of a failed run.
#[derive(Clone, Copy, Debug, PartialEq, Eq, Structural)]
pub enum FailureKind {
    /// Killed by SIGKILL, most likely for exceeding its CPU-time ceiling.
    ResourceExhaustionKill,
    /// Killed by SIGXFSZ for exceeding its output-size ceiling.
    OutputSizeLimitExceeded,
    /// Exited with a non-zero status of its own accord.
    HandledFailure,
    /// Killed by another signal, which is kept.
    UnexpectedSignal(i32),
    /// Ended unsuccessfully on a platform that tells no more.
    NonZeroExit,
}

pub open spec fn spec_classify(semantics: SignalSemantics, signal: Option<i32>) -> FailureKind {
    match semantics {
        SignalSemantics::Unavailable => FailureKind::NonZeroExit,
        SignalSemantics::Posix => match signal {
            None => FailureKind::HandledFailure,
            Some(s) => if s == SIGKILL {
                FailureKind::ResourceExhaustionKill
            } else if s == SIGXFSZ {
                FailureKind::OutputSizeLimitExceeded
            } else {
                FailureKind::UnexpectedSignal(s)
            },
        },
    }
}

/// Diagnoses a failed run from the signal that ended it.
pub fn classify(semantics: SignalSemantics, signal: Option<i32>) -> (r: FailureKind)
    ensures
        r == spec_classify(semantics, signal),
{
    match semantics {
        SignalSemantics::Unavailable => FailureKind::NonZeroExit,
        SignalSemantics::Posix => match signal {
            None => FailureKind::HandledFailure,
            Some(s) => if s == SIGKILL {
                FailureKind::ResourceExhaustionKill
            } else if s == SIGXFSZ {
                FailureKind::OutputSizeLimitExceeded
            } else {
                FailureKind::UnexpectedSignal(s)
            },
        },
    }
}

pub open spec fn spec_failure_info(kind: FailureKind) -> Seq<char> {
    match kind {
        FailureKind::ResourceExhaustionKill =>
            "SIGKILL (9): Process was forcefully killed (for example, because it exceeded CPU limit)."@,
        FailureKind::OutputSizeLimitExceeded => "SIGXFSZ (25): File size limit exceeded."@,
        FailureKind::HandledFailure =>
            "Process exited with non-zero status but no signal (likely a handled error, e.g., memory allocation failure)."@,
        FailureKind::UnexpectedSignal(s) =>
            "Process terminated by unexpected signal: "@ + signed_decimal(s as int),
        FailureKind::NonZeroExit => "Process exited with non-zero status"@,
    }
}

/// The advisory text that explains a diagnosis.
pub fn failure_info(kind: FailureKind) -> (r: String)
    ensures
        r@ == spec_failure_info(kind),
{
    match kind {
        FailureKind::ResourceExhaustionKill => String::from_str(
            "SIGKILL (9): Process was forcefully killed (for example, because it exceeded CPU limit).",
        ),
        FailureKind::OutputSizeLimitExceeded => String::from_str(
            "SIGXFSZ (25): File size limit exceeded.",
        ),
        FailureKind::HandledFailure => String::from_str(
            "Process exited with non-zero status but no signal (likely a handled error, e.g., memory allocation failure).",
        ),
        FailureKind::UnexpectedSignal(s) => {
            let n = signed_decimal_text(s);
            String::from_str("Process terminated by unexpected signal: ").concat(n.as_str())
        },
        FailureKind::NonZeroExit => String::from_str("Process exited with non-zero status"),
    }
}

pub open spec fn spec_stderr_text(bytes: Seq<u8>) -> Seq<char> {
    if valid_utf8(bytes) {
        decode_utf8(bytes)
    } else {
        "Failed to decode stderr output"@
    }
}

/// The child's standard error as text, or a fixed notice where it is not UTF-8.
pub fn stderr_text(bytes: Vec<u8>) -> (r: String)
    ensures
        r@ == spec_stderr_text(bytes@),
{
    match utf8_text(bytes) {
        Some(s) => s,
        None => String::from_str("Failed to decode stderr output"),
    }
}

pub open spec fn spec_failure_message(status: Seq<char>, stderr: Seq<char>, info: Seq<char>) -> Seq<char> {
    "Exit status: "@ + status + "\nStderr: "@ + stderr + "\nSignal info: "@ + info
}

/// The text of the error for a failed run.
pub fn failure_message(status: &str, stderr: &str, info: &str) -> (r: String)
    ensures
        r@ == spec_failure_message(status@, stderr@, info@),
{
    let r = String::from_str("Exit status: ")
        .concat(status)
        .concat("\nStderr: ")
        .concat(stderr)
        .concat("\nSignal info: ")
        .concat(info);
    r
}

/// What a run hands back: the captured standard output where it succeeded,
/// else a compilation error whose text holds `status_text`, the captured
/// standard error and the diagnosis of how the process ended.
pub fn process_outcome(
    semantics: SignalSemantics,
    status: ProcessStatus,
    status_text: &str,
    stdout: Vec<u8>,
    stderr: Vec<u8>,
) -> (r: Result<Vec<u8>, CompilationUtilError>)
    ensures
        status.success ==> r == Ok::<Vec<u8>, CompilationUtilError>(stdout),
        !status.success ==> (r matches Err(CompilationUtilError::CompilationError(m))
            && m@ == spec_failure_message(
                status_text@,
                spec_stderr_text(stderr@),
                spec_failure_info(spec_classify(semantics, status.signal)),
            )),
{
    if status.success {
        return Ok(stdout);
    }
    let kind = classify(semantics, status.signal);
    let info = failure_info(kind);
    let err = stderr_text(stderr);
    Err(CompilationUtilError::CompilationError(
        failure_message(status_text, err.as_str(), info.as_str()),
    ))
}

} // verus!
