use hrana_client::proto::Value;
use hrana_session::decode::{
    decode_batch, decode_outcome, decode_result, BatchReply, StepOutcome, StepResult,
};
use hrana_session::error::{DecodeError, ResultFault};
use hrana_session::model::{Meta, QueryResult, ResultSet};

fn integer(n: i64) -> Value {
    Value::Integer { value: n }
}

fn text(s: &str) -> Value {
    Value::Text { value: s.to_string() }
}

fn cols(names: &[&str]) -> Vec<Option<String>> {
    names.iter().map(|n| Some(n.to_string())).collect()
}

fn table(names: &[&str], rows: Vec<Vec<Value>>) -> StepResult {
    StepResult { cols: cols(names), rows }
}

fn success(result: QueryResult) -> (ResultSet, Meta) {
    match result {
        QueryResult::Success(inner) => inner,
        QueryResult::Error((message, _)) => panic!("a failed statement: {}", message),
    }
}

fn failure(result: QueryResult) -> (String, Meta) {
    match result {
        QueryResult::Error(inner) => inner,
        QueryResult::Success(_) => panic!("a success"),
    }
}

#[test]
fn round_trip_exposes_cells_by_column_name() {
    let raw = table(&["a", "b"], vec![vec![integer(1), text("x")]]);
    let set = decode_result(&raw).unwrap();
    assert_eq!(set.columns, vec!["a".to_string(), "b".to_string()]);
    assert_eq!(set.rows.len(), 1);
    let row = &set.rows[0];
    assert!(matches!(row.get("a"), Some(Value::Integer { value: 1 })));
    assert!(matches!(row.get("b"), Some(Value::Text { value }) if value == "x"));
    assert_eq!(row.len(), 2);
}

#[test]
fn every_row_uses_the_same_column_names() {
    let raw = table(
        &["id", "name"],
        vec![vec![integer(1), text("one")], vec![integer(2), text("two")], vec![integer(3), Value::Null]],
    );
    let set = decode_result(&raw).unwrap();
    assert_eq!(set.rows.len(), 3);
    assert!(matches!(set.rows[0].get("id"), Some(Value::Integer { value: 1 })));
    assert!(matches!(set.rows[1].get("id"), Some(Value::Integer { value: 2 })));
    assert!(matches!(set.rows[2].get("id"), Some(Value::Integer { value: 3 })));
    assert!(matches!(set.rows[1].get("name"), Some(Value::Text { value }) if value == "two"));
    assert!(matches!(set.rows[2].get("name"), Some(Value::Null)));
}

#[test]
fn zero_rows_decode_to_a_success_without_rows() {
    let raw = table(&["a", "b"], vec![]);
    let set = decode_result(&raw).unwrap();
    assert_eq!(set.columns, vec!["a".to_string(), "b".to_string()]);
    assert!(set.rows.is_empty());

    let outcome = StepOutcome { result: Some(raw), error: None };
    let (set, meta) = success(decode_outcome(&outcome).unwrap());
    assert_eq!(set.columns, vec!["a".to_string(), "b".to_string()]);
    assert!(set.rows.is_empty());
    assert_eq!(meta, Meta::default());
}

#[test]
fn no_columns_and_no_rows_decode_to_an_empty_set() {
    let raw = table(&[], vec![]);
    let set = decode_result(&raw).unwrap();
    assert!(set.columns.is_empty());
    assert!(set.rows.is_empty());
}

#[test]
fn rows_without_columns_must_be_empty() {
    let raw = table(&[], vec![vec![], vec![]]);
    let set = decode_result(&raw).unwrap();
    assert_eq!(set.rows.len(), 2);
    assert_eq!(set.rows[0].len(), 0);

    let raw = table(&[], vec![vec![], vec![integer(1)]]);
    assert_eq!(
        decode_result(&raw).unwrap_err(),
        ResultFault::RowWidth { row: 1, expected: 0, found: 1 }
    );
}

#[test]
fn duplicate_column_names_keep_the_last_value() {
    let raw = table(&["a", "b", "a"], vec![vec![integer(1), integer(2), integer(3)]]);
    let set = decode_result(&raw).unwrap();
    assert_eq!(set.columns, vec!["a".to_string(), "b".to_string(), "a".to_string()]);
    let row = &set.rows[0];
    assert_eq!(row.len(), 2);
    assert!(matches!(row.get("a"), Some(Value::Integer { value: 3 })));
    assert!(matches!(row.get("b"), Some(Value::Integer { value: 2 })));
}

#[test]
fn a_short_row_is_a_fault() {
    let raw = table(&["a", "b"], vec![vec![integer(1), integer(2)], vec![integer(3)]]);
    assert_eq!(
        decode_result(&raw).unwrap_err(),
        ResultFault::RowWidth { row: 1, expected: 2, found: 1 }
    );
}

#[test]
fn a_long_row_is_a_fault() {
    let raw = table(&["a"], vec![vec![integer(1), integer(2), integer(3)]]);
    assert_eq!(
        decode_result(&raw).unwrap_err(),
        ResultFault::RowWidth { row: 0, expected: 1, found: 3 }
    );
}

#[test]
fn the_first_bad_row_is_reported() {
    let raw = table(&["a"], vec![vec![integer(1)], vec![], vec![integer(1), integer(2)]]);
    assert_eq!(
        decode_result(&raw).unwrap_err(),
        ResultFault::RowWidth { row: 1, expected: 1, found: 0 }
    );
}

#[test]
fn a_column_without_a_name_is_a_fault() {
    let raw = StepResult {
        cols: vec![Some("a".to_string()), None, None],
        rows: vec![vec![integer(1), integer(2), integer(3)]],
    };
    assert_eq!(decode_result(&raw).unwrap_err(), ResultFault::MissingColumnName { column: 1 });
}

#[test]
fn a_missing_name_is_reported_before_a_bad_row() {
    let raw = StepResult { cols: vec![None], rows: vec![vec![]] };
    assert_eq!(decode_result(&raw).unwrap_err(), ResultFault::MissingColumnName { column: 0 });
}

#[test]
fn decoding_twice_gives_the_same_result_set() {
    let raw = table(&["a", "b"], vec![vec![integer(1), text("x")], vec![Value::Null, integer(2)]]);
    let first = decode_result(&raw).unwrap();
    let second = decode_result(&raw).unwrap();
    assert_eq!(format!("{:?}", first), format!("{:?}", second));

    let bad = table(&["a"], vec![vec![]]);
    assert_eq!(decode_result(&bad).unwrap_err(), decode_result(&bad).unwrap_err());
}

#[test]
fn a_result_alone_is_a_success() {
    let outcome =
        StepOutcome { result: Some(table(&["1"], vec![vec![integer(1)]])), error: None };
    let (set, meta) = success(decode_outcome(&outcome).unwrap());
    assert_eq!(set.columns, vec!["1".to_string()]);
    assert_eq!(set.rows.len(), 1);
    assert!(matches!(set.rows[0].get("1"), Some(Value::Integer { value: 1 })));
    assert_eq!(meta, Meta { duration: 0 });
}

#[test]
fn an_error_alone_keeps_the_message() {
    let outcome = StepOutcome { result: None, error: Some("no such column: x".to_string()) };
    let (message, meta) = failure(decode_outcome(&outcome).unwrap());
    assert_eq!(message, "no such column: x");
    assert_eq!(meta, Meta::default());
}

#[test]
fn neither_slot_filled_is_a_failed_statement() {
    let outcome = StepOutcome { result: None, error: None };
    let (message, meta) = failure(decode_outcome(&outcome).unwrap());
    assert_eq!(message, "Unexpected combination of result and error");
    assert_eq!(meta, Meta::default());
}

#[test]
fn both_slots_filled_is_a_failed_statement() {
    let outcome = StepOutcome {
        result: Some(table(&["a"], vec![vec![integer(1)]])),
        error: Some("boom".to_string()),
    };
    let (message, _) = failure(decode_outcome(&outcome).unwrap());
    assert_eq!(message, "Unexpected combination of result and error");
}

#[test]
fn both_slots_filled_hides_a_malformed_result() {
    let outcome = StepOutcome {
        result: Some(table(&["a"], vec![vec![]])),
        error: Some("boom".to_string()),
    };
    let (message, _) = failure(decode_outcome(&outcome).unwrap());
    assert_eq!(message, "Unexpected combination of result and error");
}

#[test]
fn a_malformed_result_fails_the_decode() {
    let outcome = StepOutcome { result: Some(table(&["a"], vec![vec![]])), error: None };
    assert_eq!(
        decode_outcome(&outcome).unwrap_err(),
        ResultFault::RowWidth { row: 0, expected: 1, found: 0 }
    );
}

#[test]
fn a_batch_of_successes_decodes_in_order() {
    let reply = BatchReply {
        step_results: vec![
            Some(table(&["n"], vec![vec![integer(10)]])),
            Some(table(&["n"], vec![vec![integer(20)]])),
            Some(table(&["n"], vec![vec![integer(30)]])),
        ],
        step_errors: vec![None, None, None],
    };
    let results = decode_batch(3, &reply).unwrap();
    assert_eq!(results.len(), 3);
    let mut seen = Vec::new();
    for result in results {
        let (set, _) = success(result);
        match set.rows[0].get("n") {
            Some(Value::Integer { value }) => seen.push(*value),
            other => panic!("unexpected cell {:?}", other),
        }
    }
    assert_eq!(seen, vec![10, 20, 30]);
}

#[test]
fn one_failed_step_is_reported_in_its_place() {
    let reply = BatchReply {
        step_results: vec![
            Some(table(&["n"], vec![vec![integer(1)]])),
            None,
            Some(table(&["n"], vec![vec![integer(3)]])),
        ],
        step_errors: vec![None, Some("syntax error".to_string()), None],
    };
    let results = decode_batch(3, &reply).unwrap();
    assert_eq!(results.len(), 3);
    assert!(matches!(results[0], QueryResult::Success(_)));
    assert!(matches!(&results[1], QueryResult::Error((message, _)) if message == "syntax error"));
    assert!(matches!(results[2], QueryResult::Success(_)));
}

#[test]
fn an_insert_then_a_bad_select_give_a_success_and_an_error() {
    let reply = BatchReply {
        step_results: vec![Some(table(&[], vec![])), None],
        step_errors: vec![None, Some("no such column: invalid_column".to_string())],
    };
    let results = decode_batch(2, &reply).unwrap();
    assert_eq!(results.len(), 2);
    let (set, _) = success(results[0].clone());
    assert!(set.rows.is_empty());
    let (message, _) = failure(results[1].clone());
    assert_eq!(message, "no such column: invalid_column");
}

#[test]
fn an_inconsistent_step_does_not_lose_the_others() {
    let reply = BatchReply {
        step_results: vec![Some(table(&["n"], vec![vec![integer(1)]])), None, None],
        step_errors: vec![None, None, Some("late".to_string())],
    };
    let results = decode_batch(3, &reply).unwrap();
    assert!(matches!(results[0], QueryResult::Success(_)));
    assert!(matches!(
        &results[1],
        QueryResult::Error((message, _)) if message == "Unexpected combination of result and error"
    ));
    assert!(matches!(&results[2], QueryResult::Error((message, _)) if message == "late"));
}

#[test]
fn an_empty_batch_decodes_to_no_results() {
    let reply = BatchReply { step_results: vec![], step_errors: vec![] };
    assert!(decode_batch(0, &reply).unwrap().is_empty());
}

#[test]
fn too_few_result_slots_are_refused() {
    let reply = BatchReply {
        step_results: vec![Some(table(&[], vec![]))],
        step_errors: vec![None, None],
    };
    assert_eq!(
        decode_batch(2, &reply).unwrap_err(),
        DecodeError::OutcomeCount { expected: 2, results: 1, errors: 2 }
    );
}

#[test]
fn too_few_error_slots_are_refused() {
    let reply = BatchReply {
        step_results: vec![Some(table(&[], vec![])), None],
        step_errors: vec![None],
    };
    assert_eq!(
        decode_batch(2, &reply).unwrap_err(),
        DecodeError::OutcomeCount { expected: 2, results: 2, errors: 1 }
    );
}

#[test]
fn too_many_slots_are_refused() {
    let reply = BatchReply {
        step_results: vec![Some(table(&[], vec![])), None],
        step_errors: vec![None, Some("e".to_string())],
    };
    assert_eq!(
        decode_batch(1, &reply).unwrap_err(),
        DecodeError::OutcomeCount { expected: 1, results: 2, errors: 2 }
    );
}

#[test]
fn a_malformed_step_fails_the_batch_with_its_position() {
    let reply = BatchReply {
        step_results: vec![
            Some(table(&["n"], vec![vec![integer(1)]])),
            Some(table(&["a", "b"], vec![vec![integer(1), integer(2)], vec![integer(3)]])),
            Some(StepResult { cols: vec![None], rows: vec![] }),
        ],
        step_errors: vec![None, None, None],
    };
    assert_eq!(
        decode_batch(3, &reply).unwrap_err(),
        DecodeError::Step {
            step: 1,
            fault: ResultFault::RowWidth { row: 1, expected: 2, found: 1 }
        }
    );
}

#[test]
fn decoding_a_batch_twice_gives_the_same_results() {
    let reply = BatchReply {
        step_results: vec![Some(table(&["n"], vec![vec![integer(1)]])), None],
        step_errors: vec![None, Some("e".to_string())],
    };
    let first = decode_batch(2, &reply).unwrap();
    let second = decode_batch(2, &reply).unwrap();
    assert_eq!(format!("{:?}", first), format!("{:?}", second));
}

#[test]
fn a_copy_of_a_result_holds_the_same_cells() {
    let raw = table(&["a", "b"], vec![vec![integer(1), text("x")]]);
    let set = decode_result(&raw).unwrap();
    let copy = set.clone();
    assert_eq!(copy.columns, set.columns);
    assert_eq!(copy.rows.len(), 1);
    assert!(matches!(copy.rows[0].get("a"), Some(Value::Integer { value: 1 })));
    assert!(matches!(copy.rows[0].get("b"), Some(Value::Text { value }) if value == "x"));
    assert_eq!(copy.rows[0].keys(), set.rows[0].keys());

    let result = QueryResult::Error(("no such table".to_string(), Meta { duration: 3 }));
    assert!(matches!(
        result.clone(),
        QueryResult::Error((message, Meta { duration: 3 })) if message == "no such table"
    ));
}
