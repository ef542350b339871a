//! The failures of the comparison service, and what each one tells a caller.

use vstd::prelude::*;

verus! {

/// The ways in which the persistence backend reports a failed load or save.
#[derive(Clone, Copy, Debug, PartialEq, Eq, Structural)]
pub enum PersistErrorKind {
    /// The key does not name a place inside the store.
    InvalidKey,
    /// No entry exists under the key.
    NotFound,
    /// An entry could not be opened, for any reason but that it does not exist.
    Open,
    CreateFolder,
    ListFolder,
    ListName,
    RemoveFolder,
    RemoveFile,
    /// The record could not be encoded for storage.
    Serialize,
    /// The stored bytes do not decode to a record.
    Deserialize,
}

/// A failure reported by the persistence backend: its kind, and the backend's own
/// description of it.
#[derive(Debug, PartialEq, Eq)]
pub struct PersistError {
    pub kind: PersistErrorKind,
    pub message: String,
}

/// Whether a failed load means that nothing is stored under the key: the key
/// names no entry, or no entry exists under it. Every other failure is the
/// store's, a failure to open an entry that exists among them.
pub open spec fn is_no_such_id(err: PersistError) -> bool {
    err.kind is InvalidKey || err.kind is NotFound
}

/// Tells a missing identifier from a failure of the store. Only a key that names
/// no entry, or under which no entry exists, is an identifier that does not
/// exist.
pub fn err_is_no_such_id(err: &PersistError) -> (missing: bool)
    ensures
        missing == is_no_such_id(*err),
{
    matches!(err.kind, PersistErrorKind::InvalidKey | PersistErrorKind::NotFound)
}

/// Every failure that an operation of the service can report.
#[derive(Debug, PartialEq, Eq)]
pub enum ApiError {
    /// The bit pattern offered as a numeric value encodes a NaN.
    InvalidNumber,
    /// The integer offered as the code of an ordering is not -1, 0 or 1.
    InvalidOrderingCode,
    /// No comparison is stored under the identifier.
    NoSuchIdentifier,
    /// The responder's value has been submitted before; the record is final.
    AlreadyCompared,
    /// The responder's value has not been submitted yet.
    NotYetCompared,
    /// The store failed while a record was loaded.
    StoreReadFailed(PersistError),
    /// The store failed while a record was saved.
    StoreWriteFailed(PersistError),
}

pub type ApiResult<T> = Result<T, ApiError>;

/// What a failure looks like to the client: a status code and a line of text.
#[derive(Debug, PartialEq, Eq)]
pub struct ErrorResponse {
    pub status: u16,
    pub error: String,
}

pub const BAD_REQUEST: u16 = 400;

pub const INTERNAL_SERVER_ERROR: u16 = 500;

impl ApiError {
    /// Failures of the store are the server's; every other failure is the caller's.
    pub open spec fn status(self) -> u16 {
        match self {
            ApiError::StoreReadFailed(_) | ApiError::StoreWriteFailed(_) => INTERNAL_SERVER_ERROR,
            _ => BAD_REQUEST,
        }
    }

    /// The text sent to the client.
    pub open spec fn message(self) -> Seq<char> {
        match self {
            ApiError::InvalidNumber => "the given value is not a number"@,
            ApiError::InvalidOrderingCode => "the given ordering is not one of -1, 0 and 1"@,
            ApiError::NoSuchIdentifier => "no comparison with the given id exists"@,
            ApiError::AlreadyCompared => "Bob has already entered his value for the given id"@,
            ApiError::NotYetCompared => "Bob has not entered his value for the given id"@,
            ApiError::StoreReadFailed(err) => err.message@,
            ApiError::StoreWriteFailed(err) => err.message@,
        }
    }

    /// The status code and the text with which the failure is answered.
    pub fn into_response(self) -> (response: ErrorResponse)
        ensures
            response.status == self.status(),
            response.error@ == self.message(),
    {
        match self {
            ApiError::InvalidNumber => ErrorResponse {
                status: BAD_REQUEST,
                error: String::from_str("the given value is not a number"),
            },
            ApiError::InvalidOrderingCode => ErrorResponse {
                status: BAD_REQUEST,
                error: String::from_str("the given ordering is not one of -1, 0 and 1"),
            },
            ApiError::NoSuchIdentifier => ErrorResponse {
                status: BAD_REQUEST,
                error: String::from_str("no comparison with the given id exists"),
            },
            ApiError::AlreadyCompared => ErrorResponse {
                status: BAD_REQUEST,
                error: String::from_str("Bob has already entered his value for the given id"),
            },
            ApiError::NotYetCompared => ErrorResponse {
                status: BAD_REQUEST,
                error: String::from_str("Bob has not entered his value for the given id"),
            },
            ApiError::StoreReadFailed(err) => ErrorResponse {
                status: INTERNAL_SERVER_ERROR,
                error: err.message,
            },
            ApiError::StoreWriteFailed(err) => ErrorResponse {
                status: INTERNAL_SERVER_ERROR,
                error: err.message,
            },
        }
    }
}

/// The failure of a page: the store could not be read.
#[derive(Debug, PartialEq, Eq)]
pub struct AppError(pub PersistError);

pub type AppResult<T> = Result<T, AppError>;

impl AppError {
    /// The text sent to the client: a fixed opening, then the store's description.
    pub open spec fn message(self) -> Seq<char> {
        "INTERNAL SERVER ERROR (something has gone terribly wrong): "@ + self.0.message@
    }

    /// The status code and the text with which the failure is answered.
    pub fn into_response(self) -> (response: ErrorResponse)
        ensures
            response.status == INTERNAL_SERVER_ERROR,
            response.error@ == self.message(),
    {
        let opening = String::from_str(
            "INTERNAL SERVER ERROR (something has gone terribly wrong): ",
        );
        ErrorResponse {
            status: INTERNAL_SERVER_ERROR,
            error: opening.concat(self.0.message.as_str()),
        }
    }
}

impl From<PersistError> for AppError {
    fn from(value: PersistError) -> (error: AppError) {
        AppError(value)
    }
}

impl vstd::std_specs::convert::FromSpecImpl<PersistError> for AppError {
    open spec fn obeys_from_spec() -> bool {
        true
    }

    open spec fn from_spec(value: PersistError) -> AppError {
        AppError(value)
    }
}

} // verus!
