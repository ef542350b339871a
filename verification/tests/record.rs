use warren_cmp::codec::Outcome;
use warren_cmp::{ApiError, Comparison, ComparisonState, NumericValue, Timestamp};

fn number(x: f64) -> NumericValue {
    NumericValue::new(x.to_bits()).unwrap()
}

fn at() -> Timestamp {
    Timestamp { secs: 1_700_000_000, nanos: 123_456_789 }
}

#[test]
fn a_new_record_is_pending() {
    let record = Comparison::new("race".to_string(), at(), number(3.5));
    assert_eq!(record.name, "race");
    assert_eq!(record.time, at());
    assert_eq!(record.state, ComparisonState::Pending(number(3.5)));
}

#[test]
fn an_empty_name_is_kept() {
    let record = Comparison::new(String::new(), at(), number(0.0));
    assert_eq!(record.name, "");
}

#[test]
fn a_submission_finalizes_a_pending_record() {
    let record = Comparison::new("race".to_string(), at(), number(3.5));
    let finalized = record.finalize(number(7.0)).unwrap();
    assert_eq!(finalized.state, ComparisonState::Finalized(Outcome::Less));
    assert_eq!(finalized.name, "race");
    assert_eq!(finalized.time, at());
}

#[test]
fn the_outcome_is_that_of_the_first_value_against_the_second() {
    let greater = Comparison::new("x".to_string(), at(), number(9.0)).finalize(number(1.0));
    assert_eq!(greater.unwrap().state, ComparisonState::Finalized(Outcome::Greater));
    let equal = Comparison::new("tie".to_string(), at(), number(2.0)).finalize(number(2.0));
    assert_eq!(equal.unwrap().state, ComparisonState::Finalized(Outcome::Equal));
}

#[test]
fn a_final_record_refuses_a_submission() {
    let record = Comparison::new("x".to_string(), at(), number(9.0));
    let finalized = record.finalize(number(1.0)).unwrap();
    assert_eq!(finalized.clone().finalize(number(100.0)), Err(ApiError::AlreadyCompared));
    assert_eq!(finalized.clone().finalize(number(1.0)), Err(ApiError::AlreadyCompared));
    assert_eq!(finalized.state, ComparisonState::Finalized(Outcome::Greater));
}

#[test]
fn a_pending_record_shows_nothing() {
    let record = Comparison::new("race".to_string(), at(), number(3.5));
    assert_eq!(record.result(), Err(ApiError::NotYetCompared));
}

#[test]
fn a_final_record_shows_its_name_and_outcome() {
    let record = Comparison::new("race".to_string(), at(), number(3.5));
    let finalized = record.finalize(number(7.0)).unwrap();
    assert_eq!(finalized.result(), Ok(("race".to_string(), Outcome::Less)));
}

#[test]
fn a_final_record_no_longer_holds_the_first_value() {
    let record = Comparison::new("race".to_string(), at(), number(3.5));
    let finalized = record.finalize(number(7.0)).unwrap();
    match finalized.state {
        ComparisonState::Finalized(outcome) => assert_eq!(outcome, Outcome::Less),
        ComparisonState::Pending(_) => panic!("the record is still pending"),
    }
}

#[test]
fn a_clone_is_equal_to_the_record() {
    let record = Comparison::new("race".to_string(), at(), number(3.5));
    assert_eq!(record.clone(), record);
    let finalized = record.finalize(number(7.0)).unwrap();
    assert_eq!(finalized.clone(), finalized);
}
