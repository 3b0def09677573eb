//! The error taxonomy shared by every operation of the engine.

use vstd::prelude::*;
use vstd::string::*;
use crate::text::joined;

verus! {

/// The kind of a failure, without its message.
#[derive(Clone, Copy, Debug, PartialEq, Eq, Structural)]
pub enum ErrorKind {
    Validation,
    Unauthorized,
    InternalServerError,
    BadRequest,
    NotFound,
    AlreadyExists,
}

/// A failure of an operation: its kind and a human-readable reason.
#[derive(Debug, Clone, PartialEq, Eq)]
pub enum AppError {
    /// A request whose fields broke a validation rule.
    Validation(String),
    /// The caller could not be authenticated.
    Unauthorized(String),
    /// An unexpected fault of the object database, the disk or an encoding.
    InternalServerError(String),
    /// Structurally invalid input.
    BadRequest(String),
    /// A repository, branch, path or commit that does not exist.
    NotFound(String),
    /// A repository that is already there where one was to be created.
    AlreadyExists(String),
}

impl AppError {
    /// The kind of this failure.
    pub open spec fn kind_spec(&self) -> ErrorKind {
        match self {
            AppError::Validation(_) => ErrorKind::Validation,
            AppError::Unauthorized(_) => ErrorKind::Unauthorized,
            AppError::InternalServerError(_) => ErrorKind::InternalServerError,
            AppError::BadRequest(_) => ErrorKind::BadRequest,
            AppError::NotFound(_) => ErrorKind::NotFound,
            AppError::AlreadyExists(_) => ErrorKind::AlreadyExists,
        }
    }

    /// The reason carried by this failure, as characters.
    pub open spec fn text(&self) -> Seq<char> {
        match self {
            AppError::Validation(m) => m@,
            AppError::Unauthorized(m) => m@,
            AppError::InternalServerError(m) => m@,
            AppError::BadRequest(m) => m@,
            AppError::NotFound(m) => m@,
            AppError::AlreadyExists(m) => m@,
        }
    }

    /// Whether this failure has the given kind and reason.
    pub open spec fn is_failure(&self, kind: ErrorKind, text: Seq<char>) -> bool {
        self.kind_spec() == kind && self.text() == text
    }

    #[verifier::when_used_as_spec(kind_spec)]
    pub fn kind(&self) -> (k: ErrorKind)
        ensures
            k == self.kind_spec(),
    {
        match self {
            AppError::Validation(_) => ErrorKind::Validation,
            AppError::Unauthorized(_) => ErrorKind::Unauthorized,
            AppError::InternalServerError(_) => ErrorKind::InternalServerError,
            AppError::BadRequest(_) => ErrorKind::BadRequest,
            AppError::NotFound(_) => ErrorKind::NotFound,
            AppError::AlreadyExists(_) => ErrorKind::AlreadyExists,
        }
    }

    /// A failure of the given kind with the given reason.
    pub fn new(kind: ErrorKind, reason: String) -> (e: AppError)
        ensures
            e.is_failure(kind, reason@),
    {
        match kind {
            ErrorKind::Validation => AppError::Validation(reason),
            ErrorKind::Unauthorized => AppError::Unauthorized(reason),
            ErrorKind::InternalServerError => AppError::InternalServerError(reason),
            ErrorKind::BadRequest => AppError::BadRequest(reason),
            ErrorKind::NotFound => AppError::NotFound(reason),
            ErrorKind::AlreadyExists => AppError::AlreadyExists(reason),
        }
    }

    /// A failure of the given kind whose reason is `prefix` followed by `detail`.
    pub fn with_detail(kind: ErrorKind, prefix: &str, detail: &str) -> (e: AppError)
        ensures
            e.is_failure(kind, prefix@ + detail@),
    {
        AppError::new(kind, joined(prefix, detail))
    }

    /// A copy of this failure.
    pub fn duplicate(&self) -> (copy: AppError)
        ensures
            copy == *self,
    {
        match self {
            AppError::Validation(m) => AppError::Validation(m.clone()),
            AppError::Unauthorized(m) => AppError::Unauthorized(m.clone()),
            AppError::InternalServerError(m) => AppError::InternalServerError(m.clone()),
            AppError::BadRequest(m) => AppError::BadRequest(m.clone()),
            AppError::NotFound(m) => AppError::NotFound(m.clone()),
            AppError::AlreadyExists(m) => AppError::AlreadyExists(m.clone()),
        }
    }

    /// The HTTP status that reports this failure.
    pub open spec fn status_code_spec(&self) -> u16 {
        match self {
            AppError::Validation(_) => 400,
            AppError::Unauthorized(_) => 401,
            AppError::InternalServerError(_) => 500,
            AppError::BadRequest(_) => 400,
            AppError::NotFound(_) => 404,
            AppError::AlreadyExists(_) => 400,
        }
    }

    #[verifier::when_used_as_spec(status_code_spec)]
    pub fn status_code(&self) -> (code: u16)
        ensures
            code == self.status_code_spec(),
    {
        match self {
            AppError::Validation(_) => 400,
            AppError::Unauthorized(_) => 401,
            AppError::InternalServerError(_) => 500,
            AppError::BadRequest(_) => 400,
            AppError::NotFound(_) => 404,
            AppError::AlreadyExists(_) => 400,
        }
    }

    /// The text that the client is shown for this failure: the reason; for a
    /// validation failure the reason behind a fixed label; and for an
    /// internal fault a fixed text, so that nothing of the inside of the
    /// service leaks out. The reason of an internal fault is for the log.
    pub open spec fn body_spec(&self) -> Seq<char> {
        match self {
            AppError::Validation(m) => "Validation error: "@ + m@,
            AppError::InternalServerError(_) => "Internal server error"@,
            _ => self.text(),
        }
    }

    /// The text that the client is shown for this failure.
    pub fn body(&self) -> (text: String)
        ensures
            text@ == self.body_spec(),
    {
        match self {
            AppError::Validation(m) => joined("Validation error: ", m.as_str()),
            AppError::Unauthorized(m) => m.clone(),
            AppError::InternalServerError(_) => String::from_str("Internal server error"),
            AppError::BadRequest(m) => m.clone(),
            AppError::NotFound(m) => m.clone(),
            AppError::AlreadyExists(m) => m.clone(),
        }
    }

    /// The reason of this failure, for the log.
    pub fn reason(&self) -> (text: &str)
        ensures
            text@ == self.text(),
    {
        match self {
            AppError::Validation(m) => m.as_str(),
            AppError::Unauthorized(m) => m.as_str(),
            AppError::InternalServerError(m) => m.as_str(),
            AppError::BadRequest(m) => m.as_str(),
            AppError::NotFound(m) => m.as_str(),
            AppError::AlreadyExists(m) => m.as_str(),
        }
    }
}

} // verus!
