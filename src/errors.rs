use vstd::prelude::*;

verus! {

/// The ways in which one invocation of the tool can fail.
pub enum AppError {
    /// The service credential is not set in the environment.
    MissingApiKey,
    /// The service answered with a body of an unexpected shape.
    InvalidResponse(String),
    /// A referenced path does not exist (holds the path).
    NotFound(String),
    /// A file could not be read or written (holds the reason).
    FileError(String),
    /// A path holds a parent-directory segment (holds the path).
    PathError(String),
    /// A directory could not be walked (holds the reason).
    WalkDirError(String),
    /// The request to the service failed (holds the reason).
    RequestError(String),
}

/// A generated plan that lacks required sections.
pub enum ValidationError {
    /// The headers that are missing, in their required order.
    MissingSections(Vec<String>),
}

impl AppError {
    /// The message shown to the user for this error.
    pub fn message(&self) -> (r: String)
        ensures
            r@ == match self {
                AppError::MissingApiKey => "Missing API key in environment"@,
                AppError::InvalidResponse(m) => "Invalid response format: "@ + m@,
                AppError::NotFound(p) => "File processing error: Path does not exist: "@ + p@,
                AppError::FileError(m) => "File processing error: "@ + m@,
                AppError::PathError(p) => "Path error: Directory traversal detected in path: "@ + p@,
                AppError::WalkDirError(m) => "Directory traversal error: "@ + m@,
                AppError::RequestError(m) => "Request error: "@ + m@,
            },
    {
        match self {
            AppError::MissingApiKey => String::from_str("Missing API key in environment"),
            AppError::InvalidResponse(m) => String::from_str("Invalid response format: ").concat(m.as_str()),
            AppError::NotFound(p) => String::from_str("File processing error: Path does not exist: ").concat(p.as_str()),
            AppError::FileError(m) => String::from_str("File processing error: ").concat(m.as_str()),
            AppError::PathError(p) => String::from_str("Path error: Directory traversal detected in path: ").concat(p.as_str()),
            AppError::WalkDirError(m) => String::from_str("Directory traversal error: ").concat(m.as_str()),
            AppError::RequestError(m) => String::from_str("Request error: ").concat(m.as_str()),
        }
    }
}

} // verus!
