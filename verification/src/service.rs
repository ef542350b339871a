//! The comparison service over a store in memory.
//!
//! The service owns its store. Creating and submitting take the service by
//! exclusive reference, so no two submissions run against one store at a time:
//! the read and the write of a submission are one step, the first submission for
//! an identifier finalizes its record, and every later one is refused. Callers
//! that share a service among threads put it behind a lock.

use crate::api::{compared, shown, store};
use crate::codec::Outcome;
use crate::error::{is_no_such_id, ApiError, ApiResult, PersistError};
use crate::identifier::is_identifier;
use crate::number::{is_nan, NumericValue};
use crate::record::{Comparison, Timestamp};
use crate::memory::MemoryStore;
use vstd::prelude::*;

verus! {

/// The records of a service, by identifier.
pub type Records = Map<Seq<char>, Comparison>;

/// What a submission makes of the record under `id`: `NoSuchIdentifier` where
/// there is none, else what the record itself makes of the value.
pub open spec fn submission(records: Records, id: Seq<char>, value: NumericValue) -> ApiResult<
    Comparison,
> {
    if records.contains_key(id) {
        records[id].submit(value)
    } else {
        Err(ApiError::NoSuchIdentifier)
    }
}

/// The answer to a submission.
pub open spec fn submit_answer(records: Records, id: Seq<char>, value: NumericValue) -> ApiResult<
    (),
> {
    match submission(records, id, value) {
        Ok(_) => Ok(()),
        Err(error) => Err(error),
    }
}

/// The records after a submission: the finalized record in the place of the
/// pending one where the submission is accepted, and no change where it is not.
pub open spec fn after_submit(records: Records, id: Seq<char>, value: NumericValue) -> Records {
    match submission(records, id, value) {
        Ok(finalized) => records.insert(id, finalized),
        Err(_) => records,
    }
}

/// The answer to a retrieval: `NoSuchIdentifier` where no record is stored under
/// `id`, else what the record shows.
pub open spec fn retrieval(records: Records, id: Seq<char>) -> ApiResult<(String, Outcome)> {
    if records.contains_key(id) {
        records[id].outcome()
    } else {
        Err(ApiError::NoSuchIdentifier)
    }
}

/// The owner of the comparison records.
pub struct ComparisonService {
    store: MemoryStore,
}

impl View for ComparisonService {
    type V = Records;

    closed spec fn view(&self) -> Records {
        self.store@
    }
}

impl ComparisonService {
    /// A service without records.
    pub fn new() -> (service: ComparisonService)
        ensures
            service@ == Records::empty(),
    {
        ComparisonService { store: MemoryStore::new() }
    }

    /// Creates a comparison from the initiator's name and value, and returns the
    /// identifier under which the pending record is stored. No other identifier
    /// is touched.
    pub fn create(&mut self, name: String, value: NumericValue) -> (id: String)
        ensures
            is_identifier(id@),
            final(self)@.contains_key(id@),
            final(self)@[id@] == Comparison::pending(name, final(self)@[id@].time, value),
            final(self)@ == old(self)@.insert(id@, final(self)@[id@]),
    {
        let (id, record) = store(name, value);
        self.store.save(id.as_str(), record);
        id
    }

    /// Submits the responder's value for `id`. Where a pending record is stored
    /// under `id`, it is replaced by the finalized one; in every other case the
    /// answer says why not, and nothing is changed.
    pub fn submit(&mut self, id: &str, value: NumericValue) -> (answer: ApiResult<()>)
        ensures
            answer == submit_answer(old(self)@, id@, value),
            final(self)@ == after_submit(old(self)@, id@, value),
    {
        let record = match self.store.load(id) {
            Some(record) => record,
            None => {
                return Err(ApiError::NoSuchIdentifier);
            },
        };
        match record.finalize(value) {
            Ok(finalized) => {
                self.store.save(id, finalized);
                Ok(())
            },
            Err(error) => Err(error),
        }
    }

    /// Retrieves the name and the outcome of the comparison stored under `id`.
    /// Nothing is changed.
    pub fn retrieve(&self, id: &str) -> (answer: ApiResult<(String, Outcome)>)
        ensures
            answer == retrieval(self@, id@),
    {
        match self.store.load(id) {
            Some(record) => record.result(),
            None => Err(ApiError::NoSuchIdentifier),
        }
    }

    /// Creates a comparison from a name and the encoding of a number. A NaN is
    /// refused with `InvalidNumber` and nothing is stored; any other encoding is
    /// the initiator's value, as in `create`.
    pub fn create_comparison(&mut self, name: String, value: u64) -> (created: ApiResult<String>)
        ensures
            is_nan(value) ==> created == Err::<String, ApiError>(ApiError::InvalidNumber)
                && final(self)@ == old(self)@,
            !is_nan(value) ==> created is Ok,
            created matches Ok(id) ==> {
                &&& is_identifier(id@)
                &&& final(self)@.contains_key(id@)
                &&& final(self)@[id@] == Comparison::pending(
                    name,
                    final(self)@[id@].time,
                    NumericValue::of(value),
                )
                &&& final(self)@ == old(self)@.insert(id@, final(self)@[id@])
            },
    {
        match NumericValue::new(value) {
            Ok(value) => Ok(self.create(name, value)),
            Err(error) => Err(error),
        }
    }

    /// Submits the encoding of a number for `id`. A NaN is refused with
    /// `InvalidNumber`, whatever is stored under `id`, and nothing is changed; any
    /// other encoding is the responder's value, as in `submit`.
    pub fn submit_value(&mut self, id: &str, value: u64) -> (answer: ApiResult<()>)
        ensures
            is_nan(value) ==> answer == Err::<(), ApiError>(ApiError::InvalidNumber)
                && final(self)@ == old(self)@,
            !is_nan(value) ==> answer == submit_answer(old(self)@, id@, NumericValue::of(value))
                && final(self)@ == after_submit(old(self)@, id@, NumericValue::of(value)),
    {
        match NumericValue::new(value) {
            Ok(value) => self.submit(id, value),
            Err(error) => Err(error),
        }
    }
}

/// What a store that does not fail reports on a load: the record, or `missing`
/// where it holds none.
pub open spec fn report(records: Records, id: Seq<char>, missing: PersistError) -> Result<
    Comparison,
    PersistError,
> {
    if records.contains_key(id) {
        Ok(records[id])
    } else {
        Err(missing)
    }
}

/// The decisions taken between a load and a save are those of the service: on
/// the report of a store that holds `records` and reports a missing key as one,
/// a submission saves what the service would store, or is refused as the service
/// would refuse it, and a retrieval answers as the service would.
pub proof fn lemma_decisions_are_those_of_the_service(
    records: Records,
    id: Seq<char>,
    value: NumericValue,
    missing: PersistError,
)
    requires
        is_no_such_id(missing),
    ensures
        compared(report(records, id, missing), value) == submission(records, id, value),
        shown(report(records, id, missing)) == retrieval(records, id),
{
}

/// Of two submissions for an identifier under which a record is stored, the
/// second is refused with `AlreadyCompared`, whatever the two values, and leaves
/// every record as the first one left it.
pub proof fn lemma_second_submission_is_refused(
    records: Records,
    id: Seq<char>,
    first: NumericValue,
    second: NumericValue,
)
    requires
        records.contains_key(id),
    ensures
        submit_answer(after_submit(records, id, first), id, second) == Err::<(), ApiError>(
            ApiError::AlreadyCompared,
        ),
        after_submit(after_submit(records, id, first), id, second) == after_submit(
            records,
            id,
            first,
        ),
{
}

/// A refused submission changes nothing: not the record it was aimed at, and no
/// other.
pub proof fn lemma_refused_submission_changes_nothing(
    records: Records,
    id: Seq<char>,
    value: NumericValue,
)
    requires
        submit_answer(records, id, value) is Err,
    ensures
        after_submit(records, id, value) == records,
{
}

/// A submission, accepted or not, touches no identifier but its own, and neither
/// adds nor removes one.
pub proof fn lemma_submission_keeps_the_identifiers(
    records: Records,
    id: Seq<char>,
    value: NumericValue,
    other: Seq<char>,
)
    ensures
        after_submit(records, id, value).dom() == records.dom(),
        other != id && records.contains_key(other) ==> after_submit(records, id, value)[other]
            == records[other],
{
    assert(after_submit(records, id, value).dom() =~= records.dom());
}

/// A comparison that has been created and not yet submitted to answers a
/// retrieval with `NotYetCompared`.
pub proof fn lemma_retrieval_before_submission(
    records: Records,
    id: Seq<char>,
    name: String,
    time: Timestamp,
    value: NumericValue,
)
    ensures
        retrieval(records.insert(id, Comparison::pending(name, time, value)), id) == Err::<
            (String, Outcome),
            ApiError,
        >(ApiError::NotYetCompared),
{
}

/// After an accepted submission, a retrieval returns the name given at creation
/// and the outcome of comparing the initiator's value with the submitted one;
/// and it returns the same after any number of further submissions.
pub proof fn lemma_retrieval_after_submission(
    records: Records,
    id: Seq<char>,
    value: NumericValue,
    later: NumericValue,
)
    requires
        submit_answer(records, id, value) is Ok,
    ensures
        records[id].state is Pending,
        retrieval(after_submit(records, id, value), id) == Ok::<(String, Outcome), ApiError>(
            (records[id].name, records[id].state->Pending_0.order(value)),
        ),
        retrieval(after_submit(after_submit(records, id, value), id, later), id) == retrieval(
            after_submit(records, id, value),
            id,
        ),
{
}

/// An identifier under which nothing is stored answers both a submission and a
/// retrieval with `NoSuchIdentifier`, and the submission stores nothing.
pub proof fn lemma_unknown_identifier_is_refused(
    records: Records,
    id: Seq<char>,
    value: NumericValue,
)
    requires
        !records.contains_key(id),
    ensures
        submit_answer(records, id, value) == Err::<(), ApiError>(ApiError::NoSuchIdentifier),
        after_submit(records, id, value) == records,
        retrieval(records, id) == Err::<(String, Outcome), ApiError>(ApiError::NoSuchIdentifier),
{
}

} // verus!
