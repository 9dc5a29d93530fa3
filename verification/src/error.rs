use vstd::prelude::*;

verus! {

/// Error taxonomy of the gateway.
///
/// `ProcessSpawnFailed` is fatal to one request: the process never started.
/// `ProcessExecutionError` means the process started but failed during
/// execution or could not be killed on request. `SessionNotFound` covers a
/// resume, touch or terminate against an unknown key. `InvalidRequest` is a
/// malformed payload, rejected before any spawn. `IoError`,
/// `SerializationError` and `Internal` carry the text of faults raised by the
/// surrounding plumbing.
#[derive(Debug)]
pub enum AppError {
    ProcessSpawnFailed(String),
    ProcessExecutionError(String),
    SessionNotFound(String),
    InvalidRequest(String),
    IoError(String),
    SerializationError(String),
    Internal(String),
}

/// The HTTP status that each error surfaces as: not-found for an unknown
/// session, bad-request for a malformed payload, internal-server-error for
/// the rest.
pub open spec fn status_code_spec(e: AppError) -> u16 {
    match e {
        AppError::ProcessSpawnFailed(_) => 500,
        AppError::ProcessExecutionError(_) => 500,
        AppError::SessionNotFound(_) => 404,
        AppError::InvalidRequest(_) => 400,
        AppError::IoError(_) => 500,
        AppError::SerializationError(_) => 500,
        AppError::Internal(_) => 500,
    }
}

/// The human-readable text of each error: a fixed prefix naming the kind,
/// then the carried detail.
pub open spec fn message_spec(e: AppError) -> Seq<char> {
    match e {
        AppError::ProcessSpawnFailed(m) => "Process spawn failed: "@ + m@,
        AppError::ProcessExecutionError(m) => "Process execution error: "@ + m@,
        AppError::SessionNotFound(m) => "Session not found: "@ + m@,
        AppError::InvalidRequest(m) => "Invalid request: "@ + m@,
        AppError::IoError(m) => "IO error: "@ + m@,
        AppError::SerializationError(m) => "Serialization error: "@ + m@,
        AppError::Internal(m) => "Internal error: "@ + m@,
    }
}

impl AppError {
    /// The HTTP status code this error maps to at the transport boundary.
    pub fn status_code(&self) -> (r: u16)
        ensures
            r == status_code_spec(*self),
    {
        match self {
            AppError::ProcessSpawnFailed(_) => 500,
            AppError::ProcessExecutionError(_) => 500,
            AppError::SessionNotFound(_) => 404,
            AppError::InvalidRequest(_) => 400,
            AppError::IoError(_) => 500,
            AppError::SerializationError(_) => 500,
            AppError::Internal(_) => 500,
        }
    }

    /// The display text of the error.
    pub fn message(&self) -> (r: String)
        ensures
            r@ == message_spec(*self),
    {
        match self {
            AppError::ProcessSpawnFailed(m) => {
                String::from_str("Process spawn failed: ").concat(m.as_str())
            },
            AppError::ProcessExecutionError(m) => {
                String::from_str("Process execution error: ").concat(m.as_str())
            },
            AppError::SessionNotFound(m) => {
                String::from_str("Session not found: ").concat(m.as_str())
            },
            AppError::InvalidRequest(m) => {
                String::from_str("Invalid request: ").concat(m.as_str())
            },
            AppError::IoError(m) => String::from_str("IO error: ").concat(m.as_str()),
            AppError::SerializationError(m) => {
                String::from_str("Serialization error: ").concat(m.as_str())
            },
            AppError::Internal(m) => String::from_str("Internal error: ").concat(m.as_str()),
        }
    }
}

pub type AppResult<T> = Result<T, AppError>;

} // verus!
