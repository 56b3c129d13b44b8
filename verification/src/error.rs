//! The error type of the desktop core.

use vstd::prelude::*;

verus! {

/// Everything that can go wrong in the desktop core, each with its message.
#[derive(Debug, Clone)]
pub enum AegisError {
    InvalidTarget(String),
    ExecutionFailed(String),
    SandboxError(String),
    Io(String),
    Parse(String),
    PermissionDenied(String),
    SanitizationFailed(String),
}

/// The result type of the desktop core.
pub type AegisResult<T> = Result<T, AegisError>;

/// The display text of an error: its kind, a colon, and its message.
pub open spec fn error_text(e: AegisError) -> Seq<char> {
    match e {
        AegisError::InvalidTarget(m) => "invalid target: "@ + m@,
        AegisError::ExecutionFailed(m) => "execution failed: "@ + m@,
        AegisError::SandboxError(m) => "sandbox error: "@ + m@,
        AegisError::Io(m) => "io error: "@ + m@,
        AegisError::Parse(m) => "parse error: "@ + m@,
        AegisError::PermissionDenied(m) => "permission denied: "@ + m@,
        AegisError::SanitizationFailed(m) => "sanitization failed: "@ + m@,
    }
}

/// `e` is an invalid-target error with message `m`.
pub open spec fn is_invalid_target(e: AegisError, m: Seq<char>) -> bool {
    e matches AegisError::InvalidTarget(x) && x@ == m
}

/// `e` is a permission-denied error with message `m`.
pub open spec fn is_permission_denied(e: AegisError, m: Seq<char>) -> bool {
    e matches AegisError::PermissionDenied(x) && x@ == m
}

/// `e` is an execution-failed error with message `m`.
pub open spec fn is_execution_failed(e: AegisError, m: Seq<char>) -> bool {
    e matches AegisError::ExecutionFailed(x) && x@ == m
}

/// `e` is a sandbox error with message `m`.
pub open spec fn is_sandbox_error(e: AegisError, m: Seq<char>) -> bool {
    e matches AegisError::SandboxError(x) && x@ == m
}

/// `e` is a parse error with message `m`.
pub open spec fn is_parse_error(e: AegisError, m: Seq<char>) -> bool {
    e matches AegisError::Parse(x) && x@ == m
}

impl AegisError {
    /// The display text of the error, as the frontend receives it.
    pub fn to_string(&self) -> (s: String)
        ensures
            s@ == error_text(*self),
    {
        let (prefix, m) = match self {
            AegisError::InvalidTarget(m) => ("invalid target: ", m),
            AegisError::ExecutionFailed(m) => ("execution failed: ", m),
            AegisError::SandboxError(m) => ("sandbox error: ", m),
            AegisError::Io(m) => ("io error: ", m),
            AegisError::Parse(m) => ("parse error: ", m),
            AegisError::PermissionDenied(m) => ("permission denied: ", m),
            AegisError::SanitizationFailed(m) => ("sanitization failed: ", m),
        };
        let mut s = String::from_str(prefix);
        s.append(m.as_str());
        s
    }
}

} // verus!
