//! The three-way result of a comparison and its stored code.

use crate::error::ApiError;
use std::cmp::Ordering;
use vstd::prelude::*;

verus! {

/// How the initiator's value stands to the responder's.
#[derive(Clone, Copy, Debug, PartialEq, Eq, Structural)]
pub enum Outcome {
    Less,
    Equal,
    Greater,
}

impl Outcome {
    /// The code under which the outcome is stored and sent: -1, 0 or 1.
    pub open spec fn code(self) -> int {
        match self {
            Outcome::Less => -1,
            Outcome::Equal => 0,
            Outcome::Greater => 1,
        }
    }

    /// The outcome seen from the other side: what `b` is to `a` when `self` is what
    /// `a` is to `b`.
    pub open spec fn reversed(self) -> Outcome {
        match self {
            Outcome::Less => Outcome::Greater,
            Outcome::Equal => Outcome::Equal,
            Outcome::Greater => Outcome::Less,
        }
    }

    /// The outcome that stands for an ordering of the standard library.
    pub open spec fn of(ordering: Ordering) -> Outcome {
        match ordering {
            Ordering::Less => Outcome::Less,
            Ordering::Equal => Outcome::Equal,
            Ordering::Greater => Outcome::Greater,
        }
    }

    pub fn from_ordering(ordering: Ordering) -> (outcome: Outcome)
        ensures
            outcome == Outcome::of(ordering),
    {
        match ordering {
            Ordering::Less => Outcome::Less,
            Ordering::Equal => Outcome::Equal,
            Ordering::Greater => Outcome::Greater,
        }
    }

    pub fn to_ordering(self) -> (ordering: Ordering)
        ensures
            Outcome::of(ordering) == self,
    {
        match self {
            Outcome::Less => Ordering::Less,
            Outcome::Equal => Ordering::Equal,
            Outcome::Greater => Ordering::Greater,
        }
    }
}

/// The integers that are the code of some outcome.
pub open spec fn is_code(code: int) -> bool {
    -1 <= code <= 1
}

/// Encodes an outcome as -1, 0 or 1.
pub fn serialize(ordering: &Outcome) -> (code: i8)
    ensures
        code == ordering.code(),
{
    match ordering {
        Outcome::Less => -1,
        Outcome::Equal => 0,
        Outcome::Greater => 1,
    }
}

/// What an integer decodes to: the outcome with that code, or `InvalidOrderingCode`
/// where no outcome has it.
pub open spec fn decode(code: int) -> Result<Outcome, ApiError> {
    if is_code(code) {
        Ok(choose|outcome: Outcome| outcome.code() == code)
    } else {
        Err(ApiError::InvalidOrderingCode)
    }
}

/// Decodes -1, 0 or 1 to the outcome with that code, and rejects every other integer.
pub fn deserialize(code: i8) -> (decoded: Result<Outcome, ApiError>)
    ensures
        decoded == decode(code as int),
        decoded matches Ok(outcome) ==> outcome.code() == code,
{
    proof {
        lemma_decode_undoes_encode(Outcome::Less);
        lemma_decode_undoes_encode(Outcome::Equal);
        lemma_decode_undoes_encode(Outcome::Greater);
    }
    if code == -1 {
        Ok(Outcome::Less)
    } else if code == 0 {
        Ok(Outcome::Equal)
    } else if code == 1 {
        Ok(Outcome::Greater)
    } else {
        Err(ApiError::InvalidOrderingCode)
    }
}

/// Decoding undoes encoding: the code of an outcome decodes to that outcome.
pub proof fn lemma_decode_undoes_encode(outcome: Outcome)
    ensures
        is_code(outcome.code()),
        decode(outcome.code()) == Ok::<Outcome, ApiError>(outcome),
{
}

/// Decoding succeeds on -1, 0 and 1, where it gives an outcome with the code it
/// was given, and fails with `InvalidOrderingCode` on every other integer.
pub proof fn lemma_decode_accepts_the_codes_only(code: int)
    ensures
        decode(code) is Ok <==> is_code(code),
        decode(code) matches Ok(outcome) ==> outcome.code() == code,
        !is_code(code) ==> decode(code) == Err::<Outcome, ApiError>(ApiError::InvalidOrderingCode),
{
    if code == -1 {
        assert(Outcome::Less.code() == code);
    } else if code == 0 {
        assert(Outcome::Equal.code() == code);
    } else if code == 1 {
        assert(Outcome::Greater.code() == code);
    }
}

} // verus!
