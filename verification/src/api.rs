//! The decisions of the three operations, between one call of the store and the
//! next.
//!
//! None of these functions touches the store. The caller loads and saves, and
//! hands over what the store reported: to create, it saves the record that `store`
//! returns under the identifier returned with it; to submit, it loads the record,
//! passes the report to `compare` and saves what comes back under the same
//! identifier; to retrieve, it loads the record and passes the report to
//! `result`. After a save, `saved` turns the store's report into the answer.
//!
//! A submission reads, then writes. The caller must let no other submission for
//! the same identifier run between that read and that write: it holds a lock from
//! the load to the save. With that, the first submission to arrive finalizes the
//! record and every later one is refused.

use crate::clock::now;
use crate::codec::Outcome;
use crate::error::{err_is_no_such_id, is_no_such_id, ApiError, ApiResult, PersistError};
use crate::identifier::{is_identifier, new_identifier};
use crate::number::NumericValue;
use crate::record::Comparison;
use vstd::prelude::*;

verus! {

/// What a load amounts to: the record, or `NoSuchIdentifier` where the store's
/// failure means that nothing is stored under the key, or `StoreReadFailed` with
/// the store's failure.
pub open spec fn found(loaded: Result<Comparison, PersistError>) -> ApiResult<Comparison> {
    match loaded {
        Ok(record) => Ok(record),
        Err(error) => if is_no_such_id(error) {
            Err(ApiError::NoSuchIdentifier)
        } else {
            Err(ApiError::StoreReadFailed(error))
        },
    }
}

/// What a submission makes of a load: the finalized record that is to be saved,
/// or the reason why nothing is.
pub open spec fn compared(loaded: Result<Comparison, PersistError>, value: NumericValue) -> ApiResult<
    Comparison,
> {
    match found(loaded) {
        Ok(record) => record.submit(value),
        Err(error) => Err(error),
    }
}

/// What a retrieval makes of a load.
pub open spec fn shown(loaded: Result<Comparison, PersistError>) -> ApiResult<(String, Outcome)> {
    match found(loaded) {
        Ok(record) => record.outcome(),
        Err(error) => Err(error),
    }
}

/// The answer after a save: a failure of the store is `StoreWriteFailed`.
pub open spec fn answered(report: Result<(), PersistError>) -> ApiResult<()> {
    match report {
        Ok(_) => Ok(()),
        Err(error) => Err(ApiError::StoreWriteFailed(error)),
    }
}

/// A failed load is a missing identifier exactly where the store reports that the
/// key names no entry or that no entry exists under it. Every other failure, a
/// failure to open an entry that exists among them, is `StoreReadFailed` and
/// carries the store's failure unchanged.
pub proof fn lemma_only_a_missing_entry_is_a_missing_identifier(error: PersistError)
    ensures
        found(Err(error)) == Err::<Comparison, ApiError>(ApiError::NoSuchIdentifier) <==> (error.kind
            is InvalidKey || error.kind is NotFound),
        !(error.kind is InvalidKey || error.kind is NotFound) ==> found(Err(error)) == Err::<
            Comparison,
            ApiError,
        >(ApiError::StoreReadFailed(error)),
{
}

/// Reads the report of a load.
pub fn persist_load(loaded: Result<Comparison, PersistError>) -> (record: ApiResult<Comparison>)
    ensures
        record == found(loaded),
{
    match loaded {
        Ok(record) => Ok(record),
        Err(error) => if err_is_no_such_id(&error) {
            Err(ApiError::NoSuchIdentifier)
        } else {
            Err(ApiError::StoreReadFailed(error))
        },
    }
}

/// Reads the report of a save: a failure of the store is `StoreWriteFailed`.
pub fn saved(report: Result<(), PersistError>) -> (answer: ApiResult<()>)
    ensures
        answer == answered(report),
{
    match report {
        Ok(_) => Ok(()),
        Err(error) => Err(ApiError::StoreWriteFailed(error)),
    }
}

/// Creates a comparison: mints an identifier, reads the clock, and returns the
/// identifier with the pending record that is to be saved under it. The name is
/// taken as it is, empty or not.
pub fn store(name: String, value: NumericValue) -> (created: (String, Comparison))
    ensures
        is_identifier(created.0@),
        created.1 == Comparison::pending(name, created.1.time, value),
{
    let id = new_identifier();
    let record = Comparison::new(name, now(), value);
    (id, record)
}

/// Submits the responder's value to what was loaded under an identifier. Returns
/// the finalized record that is to be saved under the same identifier, or the
/// reason why nothing is to be saved: the load found nothing or failed, or the
/// record is final already.
pub fn compare(loaded: Result<Comparison, PersistError>, value: NumericValue) -> (next: ApiResult<
    Comparison,
>)
    ensures
        next == compared(loaded, value),
{
    match persist_load(loaded) {
        Ok(record) => record.finalize(value),
        Err(error) => Err(error),
    }
}

/// Retrieves the name and the outcome from what was loaded under an identifier.
pub fn result(loaded: Result<Comparison, PersistError>) -> (answer: ApiResult<(String, Outcome)>)
    ensures
        answer == shown(loaded),
{
    match persist_load(loaded) {
        Ok(record) => record.result(),
        Err(error) => Err(error),
    }
}

} // verus!
