//! How the outcome of a read is answered over HTTP.

use vstd::prelude::*;
use crate::store::error::{StoreError, StoreErrorKind};
use crate::types::{GetMediaEntriesResponse, GetMediaEntryResponse, Media, STATUS_ERROR, STATUS_SUCCESS};

verus! {

/// The HTTP status of an answer.
#[derive(Clone, Copy, Debug, PartialEq, Eq, Structural)]
pub enum StatusCode {
    /// 200
    Success,
    /// 400
    BadRequest,
    /// 500
    InternalServerError,
}

impl StatusCode {
    /// The number of the status.
    pub open spec fn spec_number(self) -> u16 {
        match self {
            StatusCode::Success => 200,
            StatusCode::BadRequest => 400,
            StatusCode::InternalServerError => 500,
        }
    }

    /// The number of the status.
    pub fn number(self) -> (number: u16)
        ensures
            number == self.spec_number(),
    {
        match self {
            StatusCode::Success => 200,
            StatusCode::BadRequest => 400,
            StatusCode::InternalServerError => 500,
        }
    }
}

/// The status that a failure of the repository is answered with: a
/// validation failure is the fault of the caller, any other that of the
/// service.
pub open spec fn spec_failure_status(kind: StoreErrorKind) -> StatusCode {
    if kind == StoreErrorKind::Validation {
        StatusCode::BadRequest
    } else {
        StatusCode::InternalServerError
    }
}

/// The status that a failure of the repository is answered with.
pub fn failure_status(kind: StoreErrorKind) -> (status: StatusCode)
    ensures
        status == spec_failure_status(kind),
{
    if kind == StoreErrorKind::Validation {
        StatusCode::BadRequest
    } else {
        StatusCode::InternalServerError
    }
}

/// Answers the read of one media entry: the entry with status 200, or the
/// message of the failure with the status that its kind calls for.
pub fn get_media_entry(found: Result<Media, StoreError>) -> (answer: (
    StatusCode,
    GetMediaEntryResponse,
))
    ensures
        match found {
            Ok(entry) => {
                &&& answer.0 == StatusCode::Success
                &&& answer.1.spec_status() == STATUS_SUCCESS@
                &&& answer.1.spec_entry() == Some(entry)
                &&& answer.1.spec_error().is_none()
            },
            Err(error) => {
                &&& answer.0 == spec_failure_status(error.spec_kind())
                &&& answer.1.spec_status() == STATUS_ERROR@
                &&& answer.1.spec_entry().is_none()
                &&& answer.1.spec_error() == Some(error.spec_message())
            },
        },
{
    match found {
        Ok(entry) => (StatusCode::Success, GetMediaEntryResponse::success(entry)),
        Err(error) => (failure_status(error.kind()), GetMediaEntryResponse::error(error.message())),
    }
}

/// Answers the read of the list of media entries: the entries with status
/// 200, or the message of the failure with the status that its kind calls
/// for. A failed read is never answered with a list.
pub fn get_media_entries(found: Result<Vec<Media>, StoreError>) -> (answer: (
    StatusCode,
    GetMediaEntriesResponse,
))
    ensures
        match found {
            Ok(entries) => {
                &&& answer.0 == StatusCode::Success
                &&& answer.1.spec_status() == STATUS_SUCCESS@
                &&& answer.1.spec_entries() == Some(entries@)
                &&& answer.1.spec_error().is_none()
            },
            Err(error) => {
                &&& answer.0 == spec_failure_status(error.spec_kind())
                &&& answer.1.spec_status() == STATUS_ERROR@
                &&& answer.1.spec_entries().is_none()
                &&& answer.1.spec_error() == Some(error.spec_message())
            },
        },
{
    match found {
        Ok(entries) => (StatusCode::Success, GetMediaEntriesResponse::success(entries)),
        Err(error) => (
            failure_status(error.kind()),
            GetMediaEntriesResponse::error(error.message()),
        ),
    }
}

} // verus!
