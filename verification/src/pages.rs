//! What the two pages show for an identifier.

use crate::codec::Outcome;
use crate::error::{err_is_no_such_id, is_no_such_id, AppError, AppResult, PersistError};
use crate::record::{Comparison, ComparisonState};
use vstd::prelude::*;

verus! {

/// The responder's page.
#[derive(Debug, PartialEq, Eq)]
pub enum BobState {
    /// Nothing is stored under the identifier.
    NoSuchId,
    /// The responder has submitted a value already.
    IdComparedAlready { id: String },
    /// The responder is asked for a value.
    BobMain { name: String, id: String },
}

/// The result page.
#[derive(Debug, PartialEq, Eq)]
pub enum ViewState {
    /// Nothing is stored under the identifier.
    NoSuchId,
    /// The responder has not submitted a value yet.
    IdNotCompared { name: String, id: String },
    /// The comparison is final.
    ViewMain { name: String, result: Outcome },
}

/// The responder's page for what was loaded under `id`.
pub open spec fn bob_page(loaded: Result<Comparison, PersistError>, id: String) -> AppResult<
    BobState,
> {
    match loaded {
        Ok(record) => match record.state {
            ComparisonState::Finalized(_) => Ok(BobState::IdComparedAlready { id }),
            ComparisonState::Pending(_) => Ok(BobState::BobMain { name: record.name, id }),
        },
        Err(error) => if is_no_such_id(error) {
            Ok(BobState::NoSuchId)
        } else {
            Err(AppError(error))
        },
    }
}

/// The result page for what was loaded under `id`.
pub open spec fn view_page(loaded: Result<Comparison, PersistError>, id: String) -> AppResult<
    ViewState,
> {
    match loaded {
        Ok(record) => match record.state {
            ComparisonState::Finalized(outcome) => Ok(
                ViewState::ViewMain { name: record.name, result: outcome },
            ),
            ComparisonState::Pending(_) => Ok(ViewState::IdNotCompared { name: record.name, id }),
        },
        Err(error) => if is_no_such_id(error) {
            Ok(ViewState::NoSuchId)
        } else {
            Err(AppError(error))
        },
    }
}

/// Chooses the responder's page. A failure of the store other than a missing
/// identifier is the page's failure.
pub fn bob(loaded: Result<Comparison, PersistError>, id: String) -> (page: AppResult<BobState>)
    ensures
        page == bob_page(loaded, id),
{
    let data = match loaded {
        Ok(data) => data,
        Err(error) => {
            if err_is_no_such_id(&error) {
                return Ok(BobState::NoSuchId);
            }
            return Err(AppError(error));
        },
    };
    match data.state {
        ComparisonState::Finalized(_) => Ok(BobState::IdComparedAlready { id }),
        ComparisonState::Pending(_) => Ok(BobState::BobMain { name: data.name, id }),
    }
}

/// Chooses the result page. A failure of the store other than a missing
/// identifier is the page's failure.
pub fn view(loaded: Result<Comparison, PersistError>, id: String) -> (page: AppResult<ViewState>)
    ensures
        page == view_page(loaded, id),
{
    let data = match loaded {
        Ok(data) => data,
        Err(error) => {
            if err_is_no_such_id(&error) {
                return Ok(ViewState::NoSuchId);
            }
            return Err(AppError(error));
        },
    };
    match data.state {
        ComparisonState::Finalized(outcome) => Ok(
            ViewState::ViewMain { name: data.name, result: outcome },
        ),
        ComparisonState::Pending(_) => Ok(ViewState::IdNotCompared { name: data.name, id }),
    }
}

} // verus!
