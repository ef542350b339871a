//! Two parties compare two private numbers: the initiator commits a value under a
//! fresh identifier, the responder submits a second value against it, and only the
//! three-way ordering of the two is kept.
//!
//! The crate holds the rules of that exchange: the numeric value type, the stored
//! code of an ordering, the comparison record with its single transition from
//! pending to finalized, and the decisions taken around each load and save of
//! the key-value store.

pub mod api;
mod clock;
pub mod codec;
pub mod error;
pub mod identifier;
pub mod memory;
pub mod number;
pub mod pages;
pub mod record;
pub mod service;

pub use codec::{deserialize, serialize, Outcome};
pub use error::{err_is_no_such_id, ApiError, AppError, PersistError, PersistErrorKind};
pub use memory::MemoryStore;
pub use number::NumericValue;
pub use record::{Comparison, ComparisonState, Timestamp};
pub use service::ComparisonService;
