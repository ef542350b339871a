//! The comparison record and its single transition.
//!
//! A record is created pending, holding the initiator's value. The responder's
//! value finalizes it: the outcome of the comparison takes the place of the
//! initiator's value, which the record then no longer holds. A finalized record
//! never changes again.

use crate::codec::Outcome;
use crate::error::{ApiError, ApiResult};
use crate::number::NumericValue;
use vstd::prelude::*;

verus! {

/// A point in time: whole seconds since the start of 1970 in UTC, and the
/// nanoseconds past that second.
#[derive(Clone, Copy, Debug, PartialEq, Eq, Structural)]
pub struct Timestamp {
    pub secs: i64,
    pub nanos: u32,
}

/// What has been submitted to a comparison so far.
#[derive(Clone, Copy, Debug, PartialEq)]
pub enum ComparisonState {
    /// The initiator's value, waiting for the responder's.
    Pending(NumericValue),
    /// Both values have been submitted: how the initiator's stands to the
    /// responder's.
    Finalized(Outcome),
}

/// What is stored about a comparison.
#[derive(Debug, PartialEq)]
pub struct Comparison {
    /// The initiator's label for the comparison.
    pub name: String,
    /// When the comparison was created. Nothing is decided by it.
    pub time: Timestamp,
    pub state: ComparisonState,
}

impl Clone for Comparison {
    fn clone(&self) -> (copy: Comparison)
        ensures
            copy == *self,
    {
        Comparison { name: self.name.clone(), time: self.time, state: self.state }
    }
}

impl Comparison {
    /// The record of a comparison that waits for the responder.
    pub open spec fn pending(name: String, time: Timestamp, value: NumericValue) -> Comparison {
        Comparison { name, time, state: ComparisonState::Pending(value) }
    }

    /// What the responder's value makes of the record: a pending record becomes
    /// final, with its name and time kept and the outcome in the place of the
    /// initiator's value; a final record refuses.
    pub open spec fn submit(self, value: NumericValue) -> ApiResult<Comparison> {
        match self.state {
            ComparisonState::Pending(committed) => Ok(
                Comparison {
                    name: self.name,
                    time: self.time,
                    state: ComparisonState::Finalized(committed.order(value)),
                },
            ),
            ComparisonState::Finalized(_) => Err(ApiError::AlreadyCompared),
        }
    }

    /// What the record shows to either party: nothing while it is pending, its name
    /// and outcome once it is final.
    pub open spec fn outcome(self) -> ApiResult<(String, Outcome)> {
        match self.state {
            ComparisonState::Pending(_) => Err(ApiError::NotYetCompared),
            ComparisonState::Finalized(outcome) => Ok((self.name, outcome)),
        }
    }

    /// Creates the record of a comparison from the initiator's name and value.
    pub fn new(name: String, time: Timestamp, value: NumericValue) -> (record: Comparison)
        ensures
            record == Comparison::pending(name, time, value),
    {
        Comparison { name, time, state: ComparisonState::Pending(value) }
    }

    /// Takes the responder's value. A pending record is finalized with the outcome
    /// of comparing the initiator's value with it; a final record is refused with
    /// `AlreadyCompared`.
    pub fn finalize(self, value: NumericValue) -> (next: ApiResult<Comparison>)
        ensures
            next == self.submit(value),
    {
        match self.state {
            ComparisonState::Pending(committed) => {
                let outcome = committed.compare(&value);
                Ok(
                    Comparison {
                        name: self.name,
                        time: self.time,
                        state: ComparisonState::Finalized(outcome),
                    },
                )
            },
            ComparisonState::Finalized(_) => Err(ApiError::AlreadyCompared),
        }
    }

    /// The name and the outcome of a final record; `NotYetCompared` for a pending
    /// one.
    pub fn result(self) -> (shown: ApiResult<(String, Outcome)>)
        ensures
            shown == self.outcome(),
    {
        match self.state {
            ComparisonState::Pending(_) => Err(ApiError::NotYetCompared),
            ComparisonState::Finalized(outcome) => Ok((self.name, outcome)),
        }
    }
}

/// A record changes state once and never back: what a submission yields is final,
/// has the name and time of the record it came from, shows the outcome of that
/// submission, and refuses every further submission.
pub proof fn lemma_finalized_is_terminal(record: Comparison, value: NumericValue, later: NumericValue)
    requires
        record.submit(value) is Ok,
    ensures
        record.state matches ComparisonState::Pending(committed) && record.submit(value)->Ok_0.state
            == ComparisonState::Finalized(committed.order(value)),
        record.submit(value)->Ok_0.name == record.name,
        record.submit(value)->Ok_0.time == record.time,
        record.submit(value)->Ok_0.outcome() == Ok::<(String, Outcome), ApiError>(
            (record.name, record.state->Pending_0.order(value)),
        ),
        record.submit(value)->Ok_0.submit(later) == Err::<Comparison, ApiError>(
            ApiError::AlreadyCompared,
        ),
{
}

} // verus!
