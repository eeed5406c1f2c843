use hrana_client::proto::Value;
use hrana_session::batch::{to_wire, to_wire_batch};
use hrana_session::model::Statement;

#[test]
fn a_statement_without_parameters_goes_out_as_it_is() {
    let wire = to_wire(Statement::new("SELECT 1".to_string()));
    assert_eq!(wire.sql, "SELECT 1");
    assert!(wire.args.is_empty());
    assert!(wire.named_args.is_empty());
    assert!(wire.want_rows);
}

#[test]
fn parameters_are_bound_in_the_order_given() {
    let stmt = Statement::with_params(
        "INSERT INTO t VALUES (?, ?, ?)".to_string(),
        vec![
            Value::Integer { value: 7 },
            Value::Text { value: "seven".to_string() },
            Value::Null,
        ],
    );
    let wire = to_wire(stmt);
    assert_eq!(wire.sql, "INSERT INTO t VALUES (?, ?, ?)");
    assert_eq!(wire.args.len(), 3);
    assert!(matches!(wire.args[0], Value::Integer { value: 7 }));
    assert!(matches!(&wire.args[1], Value::Text { value } if value == "seven"));
    assert!(matches!(wire.args[2], Value::Null));
    assert!(wire.named_args.is_empty());
    assert!(wire.want_rows);
}

#[test]
fn a_statement_keeps_what_it_was_made_with() {
    let stmt = Statement::new("SELECT 1".to_string());
    assert_eq!(stmt.q, "SELECT 1");
    assert!(stmt.params.is_empty());
    let stmt = Statement::with_params("SELECT ?".to_string(), vec![Value::Integer { value: 1 }]);
    assert_eq!(stmt.q, "SELECT ?");
    assert_eq!(stmt.params.len(), 1);
}

#[test]
fn an_empty_batch_has_no_steps() {
    let batch = to_wire_batch(Vec::new());
    assert_eq!(format!("{:?}", batch), "Batch { steps: [] }");
}

#[test]
fn a_batch_holds_one_unconditional_step_per_statement_in_order() {
    let batch = to_wire_batch(vec![
        Statement::new("FIRST".to_string()),
        Statement::with_params("SECOND".to_string(), vec![Value::Integer { value: 2 }]),
        Statement::new("THIRD".to_string()),
    ]);
    let shown = format!("{:?}", batch);
    let first = shown.find("FIRST").unwrap();
    let second = shown.find("SECOND").unwrap();
    let third = shown.find("THIRD").unwrap();
    assert!(first < second && second < third);
    assert_eq!(shown.matches("condition: None").count(), 3);
    assert_eq!(shown.matches("want_rows: true").count(), 3);
    assert_eq!(shown.matches("sql: ").count(), 3);
    assert_eq!(shown.matches("Integer { value: 2 }").count(), 1);
}
