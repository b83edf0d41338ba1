//! The three-tier error taxonomy: storage failures, repository errors,
//! service errors, and the transport status code of each service error.
use vstd::prelude::*;

verus! {

/// A failure reported by the database driver, already told apart by kind.
#[derive(Debug, Clone, PartialEq, Eq)]
pub enum StorageFailure {
    /// The statement returned no row where exactly one was expected.
    RowNotFound(String),
    /// The statement was rejected by a uniqueness constraint.
    UniqueViolation(String),
    /// Any other failure reported by the driver.
    Other(String),
}

/// Repository-level error.
#[derive(Debug, Clone, PartialEq, Eq)]
pub enum RepoError {
    NotFound(String),
    InvalidUuid(String),
    Other(String),
    UniqueViolation(String),
}

/// Service-level error.
#[derive(Debug, Clone, PartialEq, Eq)]
pub enum ServiceError {
    NotFound(String),
    InvalidUuid(String),
    UnexpectedError(String),
    UniqueViolation(String),
    InputValidationError(String),
}

/// The structured body carried by every transport error.
#[derive(Debug, Clone, PartialEq, Eq, Default)]
pub struct ApiError {
    pub status_code: i32,
    pub message: String,
}

/// The repository error that a storage failure becomes.
pub open spec fn repo_error_of(f: StorageFailure) -> RepoError {
    match f {
        StorageFailure::RowNotFound(m) => RepoError::NotFound(m),
        StorageFailure::UniqueViolation(m) => RepoError::UniqueViolation(m),
        StorageFailure::Other(m) => RepoError::Other(m),
    }
}

/// The service error that a repository error becomes.
pub open spec fn service_error_of(e: RepoError) -> ServiceError {
    match e {
        RepoError::NotFound(m) => ServiceError::NotFound(m),
        RepoError::InvalidUuid(m) => ServiceError::InvalidUuid(m),
        RepoError::Other(m) => ServiceError::UnexpectedError(m),
        RepoError::UniqueViolation(m) => ServiceError::UniqueViolation(m),
    }
}

/// The HTTP status code of a service error.
pub open spec fn status_of(e: ServiceError) -> u16 {
    match e {
        ServiceError::NotFound(_) => 404,
        ServiceError::InvalidUuid(_) => 400,
        ServiceError::UnexpectedError(_) => 500,
        ServiceError::UniqueViolation(_) => 409,
        ServiceError::InputValidationError(_) => 400,
    }
}

/// The message that a service error carries.
pub open spec fn message_of(e: ServiceError) -> String {
    match e {
        ServiceError::NotFound(m) => m,
        ServiceError::InvalidUuid(m) => m,
        ServiceError::UnexpectedError(m) => m,
        ServiceError::UniqueViolation(m) => m,
        ServiceError::InputValidationError(m) => m,
    }
}

impl From<StorageFailure> for RepoError {
    fn from(f: StorageFailure) -> (r: RepoError)
        ensures
            r == repo_error_of(f),
    {
        match f {
            StorageFailure::RowNotFound(m) => RepoError::NotFound(m),
            StorageFailure::UniqueViolation(m) => RepoError::UniqueViolation(m),
            StorageFailure::Other(m) => RepoError::Other(m),
        }
    }
}

impl vstd::std_specs::convert::FromSpecImpl<StorageFailure> for RepoError {
    open spec fn obeys_from_spec() -> bool {
        true
    }

    open spec fn from_spec(f: StorageFailure) -> RepoError {
        repo_error_of(f)
    }
}

impl From<RepoError> for ServiceError {
    fn from(e: RepoError) -> (r: ServiceError)
        ensures
            r == service_error_of(e),
    {
        match e {
            RepoError::NotFound(m) => ServiceError::NotFound(m),
            RepoError::InvalidUuid(m) => ServiceError::InvalidUuid(m),
            RepoError::Other(m) => ServiceError::UnexpectedError(m),
            RepoError::UniqueViolation(m) => ServiceError::UniqueViolation(m),
        }
    }
}

impl vstd::std_specs::convert::FromSpecImpl<RepoError> for ServiceError {
    open spec fn obeys_from_spec() -> bool {
        true
    }

    open spec fn from_spec(e: RepoError) -> ServiceError {
        service_error_of(e)
    }
}

impl ServiceError {
    /// The HTTP status code under which this error is reported.
    pub fn status_code(&self) -> (r: u16)
        ensures
            r == status_of(*self),
    {
        match self {
            ServiceError::NotFound(_) => 404,
            ServiceError::InvalidUuid(_) => 400,
            ServiceError::UnexpectedError(_) => 500,
            ServiceError::UniqueViolation(_) => 409,
            ServiceError::InputValidationError(_) => 400,
        }
    }

    /// The message this error carries.
    pub fn message(&self) -> (r: String)
        ensures
            r@ == message_of(*self)@,
    {
        match self {
            ServiceError::NotFound(m) => m.clone(),
            ServiceError::InvalidUuid(m) => m.clone(),
            ServiceError::UnexpectedError(m) => m.clone(),
            ServiceError::UniqueViolation(m) => m.clone(),
            ServiceError::InputValidationError(m) => m.clone(),
        }
    }

    /// The transport body of this error: its status code and its message.
    pub fn to_api_error(&self) -> (r: ApiError)
        ensures
            r.status_code == status_of(*self) as i32,
            r.message@ == message_of(*self)@,
    {
        let code = self.status_code();
        ApiError { status_code: code as i32, message: self.message() }
    }
}

/// Every storage failure becomes exactly one repository error, every
/// repository error exactly one service error, and every service error is
/// reported under exactly one status code: 404 for a missing row, 400 for a
/// malformed identifier or rejected input, 409 for a uniqueness violation and
/// 500 for anything else.
pub proof fn lemma_error_mapping_total(f: StorageFailure, e: RepoError, s: ServiceError)
    ensures
        status_of(service_error_of(repo_error_of(f))) == match f {
            StorageFailure::RowNotFound(_) => 404u16,
            StorageFailure::UniqueViolation(_) => 409u16,
            StorageFailure::Other(_) => 500u16,
        },
        status_of(service_error_of(e)) == match e {
            RepoError::NotFound(_) => 404u16,
            RepoError::InvalidUuid(_) => 400u16,
            RepoError::Other(_) => 500u16,
            RepoError::UniqueViolation(_) => 409u16,
        },
        status_of(s) == match s {
            ServiceError::NotFound(_) => 404u16,
            ServiceError::InvalidUuid(_) => 400u16,
            ServiceError::UnexpectedError(_) => 500u16,
            ServiceError::UniqueViolation(_) => 409u16,
            ServiceError::InputValidationError(_) => 400u16,
        },
        message_of(service_error_of(repo_error_of(f))) == match f {
            StorageFailure::RowNotFound(m) => m,
            StorageFailure::UniqueViolation(m) => m,
            StorageFailure::Other(m) => m,
        },
{
}

} // verus!
