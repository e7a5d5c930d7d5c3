//! The errors that a compilation reports to its caller.
use vstd::prelude::*;

verus! {

#[verifier::external_type_specification]
#[verifier::external_body]
pub struct ExJsonError(serde_json::Error);

/// Why a compilation failed.
#[derive(Debug)]
pub enum CompilationUtilError {
    /// The compiler ran and failed; the text holds its status, its standard
    /// error and the diagnosis of how it ended.
    CompilationError(String),
    /// The input could not be serialized or the output could not be decoded.
    JsonError(serde_json::Error),
    /// A temporary file could not be created, written or read.
    IoError(String),
    /// Something that a successful run guarantees did not hold.
    UnexpectedError(String),
}

impl CompilationUtilError {
    pub open spec fn is_compilation_error(&self) -> bool {
        self is CompilationError
    }

    pub open spec fn is_json_error(&self) -> bool {
        self is JsonError
    }

    pub open spec fn is_unexpected_error(&self) -> bool {
        self is UnexpectedError
    }

    /// The text that the error carries; empty for a JSON error.
    pub open spec fn spec_message(&self) -> Seq<char> {
        match self {
            CompilationUtilError::CompilationError(m) => m@,
            CompilationUtilError::IoError(m) => m@,
            CompilationUtilError::UnexpectedError(m) => m@,
            CompilationUtilError::JsonError(_) => Seq::empty(),
        }
    }

    /// The text that the error carries; `None` for a JSON error.
    pub fn message(&self) -> (r: Option<&String>)
        ensures
            r matches Some(m) ==> m@ == self.spec_message() && !self.is_json_error(),
            r is None <==> self.is_json_error(),
    {
        match self {
            CompilationUtilError::CompilationError(m) => Some(m),
            CompilationUtilError::IoError(m) => Some(m),
            CompilationUtilError::UnexpectedError(m) => Some(m),
            CompilationUtilError::JsonError(_) => None,
        }
    }
}

} // verus!
