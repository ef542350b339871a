use warren_cmp::codec::Outcome;
use warren_cmp::pages::{bob, view, BobState, ViewState};
use warren_cmp::{AppError, Comparison, NumericValue, PersistError, PersistErrorKind, Timestamp};

fn number(x: f64) -> NumericValue {
    NumericValue::new(x.to_bits()).unwrap()
}

fn pending(name: &str, x: f64) -> Comparison {
    Comparison::new(name.to_string(), Timestamp { secs: 0, nanos: 0 }, number(x))
}

fn failure(kind: PersistErrorKind, message: &str) -> PersistError {
    PersistError { kind, message: message.to_string() }
}

#[test]
fn the_responder_is_asked_for_a_value_while_the_record_is_pending() {
    assert_eq!(
        bob(Ok(pending("race", 3.5)), "abc".to_string()),
        Ok(BobState::BobMain { name: "race".to_string(), id: "abc".to_string() })
    );
}

#[test]
fn the_responder_is_told_when_the_record_is_final() {
    let finalized = pending("race", 3.5).finalize(number(7.0)).unwrap();
    assert_eq!(
        bob(Ok(finalized), "abc".to_string()),
        Ok(BobState::IdComparedAlready { id: "abc".to_string() })
    );
}

#[test]
fn the_responder_is_told_when_the_identifier_is_missing() {
    let gone = failure(PersistErrorKind::NotFound, "failed to open file: not found");
    assert_eq!(bob(Err(gone), "abc".to_string()), Ok(BobState::NoSuchId));
    let bad = failure(PersistErrorKind::InvalidKey, "invalid key name");
    assert_eq!(bob(Err(bad), "a/b".to_string()), Ok(BobState::NoSuchId));
}

#[test]
fn the_responders_page_fails_when_the_store_fails() {
    let broken = failure(PersistErrorKind::Deserialize, "failed to deserialize data: eof");
    assert_eq!(
        bob(Err(broken), "abc".to_string()),
        Err(AppError(failure(PersistErrorKind::Deserialize, "failed to deserialize data: eof")))
    );
}

#[test]
fn the_result_page_shows_the_outcome_of_a_final_record() {
    let finalized = pending("x", 9.0).finalize(number(1.0)).unwrap();
    assert_eq!(
        view(Ok(finalized), "abc".to_string()),
        Ok(ViewState::ViewMain { name: "x".to_string(), result: Outcome::Greater })
    );
}

#[test]
fn the_result_page_waits_while_the_record_is_pending() {
    assert_eq!(
        view(Ok(pending("race", 3.5)), "abc".to_string()),
        Ok(ViewState::IdNotCompared { name: "race".to_string(), id: "abc".to_string() })
    );
}

#[test]
fn the_result_page_tells_when_the_identifier_is_missing() {
    let gone = failure(PersistErrorKind::NotFound, "failed to open file: not found");
    assert_eq!(view(Err(gone), "abc".to_string()), Ok(ViewState::NoSuchId));
    let bad = failure(PersistErrorKind::InvalidKey, "invalid key name");
    assert_eq!(view(Err(bad), "a/b".to_string()), Ok(ViewState::NoSuchId));
}

#[test]
fn the_pages_fail_when_an_entry_does_not_open() {
    let denied = failure(PersistErrorKind::Open, "failed to open file: Permission denied");
    assert_eq!(
        bob(Err(denied), "abc".to_string()),
        Err(AppError(failure(PersistErrorKind::Open, "failed to open file: Permission denied")))
    );
    let denied = failure(PersistErrorKind::Open, "failed to open file: Permission denied");
    assert_eq!(
        view(Err(denied), "abc".to_string()),
        Err(AppError(failure(PersistErrorKind::Open, "failed to open file: Permission denied")))
    );
}

#[test]
fn the_result_page_fails_when_the_store_fails() {
    let broken = failure(PersistErrorKind::Serialize, "failed to serialize data: x");
    assert_eq!(
        view(Err(broken), "abc".to_string()),
        Err(AppError(failure(PersistErrorKind::Serialize, "failed to serialize data: x")))
    );
}
