use sqlbridge::request::parse_query;
use sqlbridge::request::want_id;
use sqlbridge::request::Query;
use sqlbridge::value::JsonValue;
use sqlbridge::value::NumberRepr;

#[test]
fn a_string_payload_is_a_simple_query() {
    let r = parse_query(JsonValue::Text(String::from("SELECT 1")));
    match r {
        Ok(Query::Simple(s)) => assert_eq!(s, "SELECT 1"),
        _ => panic!("expected a simple query"),
    }
}

#[test]
fn a_statement_with_parameters_is_a_prepared_query() {
    let payload = JsonValue::Arr(vec![
        JsonValue::Text(String::from("SELECT ? ")),
        JsonValue::Arr(vec![JsonValue::Num(NumberRepr::UInt(1))]),
    ]);
    match parse_query(payload) {
        Ok(Query::Prepared(stmt, params)) => {
            assert_eq!(stmt, "SELECT ? ");
            assert_eq!(params.len(), 1);
            assert!(matches!(params[0], JsonValue::Num(NumberRepr::UInt(1))));
        },
        _ => panic!("expected a prepared query"),
    }
}

#[test]
fn other_payload_shapes_are_rejected() {
    assert!(parse_query(JsonValue::Null).is_err());
    assert!(parse_query(JsonValue::Bool(true)).is_err());
    assert!(parse_query(JsonValue::Num(NumberRepr::UInt(1))).is_err());
    assert!(parse_query(JsonValue::Obj).is_err());
}

#[test]
fn arrays_of_the_wrong_shape_are_rejected() {
    assert!(parse_query(JsonValue::Arr(Vec::new())).is_err());
    assert!(parse_query(JsonValue::Arr(vec![JsonValue::Text(String::from("q"))])).is_err());
    assert!(parse_query(JsonValue::Arr(vec![
        JsonValue::Text(String::from("q")),
        JsonValue::Arr(Vec::new()),
        JsonValue::Null,
    ]))
    .is_err());
    assert!(parse_query(JsonValue::Arr(vec![
        JsonValue::Num(NumberRepr::UInt(1)),
        JsonValue::Arr(Vec::new()),
    ]))
    .is_err());
    assert!(parse_query(JsonValue::Arr(vec![
        JsonValue::Text(String::from("q")),
        JsonValue::Text(String::from("not parameters")),
    ]))
    .is_err());
}

#[test]
fn only_exact_boolean_true_selects_id_mode() {
    assert!(want_id(Some(true)));
    assert!(!want_id(Some(false)));
    assert!(!want_id(None));
}
