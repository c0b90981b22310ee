use sqlbridge::executor::assemble_result;
use sqlbridge::executor::plan_query;
use sqlbridge::executor::Failure;
use sqlbridge::executor::QueryResult;
use sqlbridge::executor::StoreReply;
use sqlbridge::relational::RelationalValue;
use sqlbridge::report::error;
use sqlbridge::request::parse_query;
use sqlbridge::request::want_id;
use sqlbridge::request::Query;
use sqlbridge::value::JsonValue;
use sqlbridge::value::NumberRepr;

#[test]
fn planning_a_simple_query_keeps_the_statement() {
    let p = plan_query(Query::Simple(String::from("SELECT 1")), false);
    assert_eq!(p.statement, "SELECT 1");
    assert!(p.parameters.is_none());
    assert!(!p.want_id);
}

#[test]
fn planning_a_prepared_query_encodes_parameters_in_order() {
    let q = Query::Prepared(
        String::from("INSERT INTO t(x, y) VALUES (?, ?)"),
        vec![JsonValue::Num(NumberRepr::UInt(1)), JsonValue::Bool(false)],
    );
    let p = plan_query(q, true);
    assert_eq!(p.statement, "INSERT INTO t(x, y) VALUES (?, ?)");
    assert!(p.want_id);
    let params = p.parameters.expect("prepared queries carry parameters");
    assert_eq!(params.len(), 2);
    assert!(matches!(params[0], RelationalValue::UInt(1)));
    assert!(matches!(params[1], RelationalValue::Int(0)));
}

#[test]
fn row_mode_yields_a_row_set_even_when_empty() {
    match assemble_result(false, StoreReply::Rows(Vec::new())) {
        Ok(QueryResult::Rows(maps)) => assert!(maps.is_empty()),
        _ => panic!("expected a row set"),
    }
}

#[test]
fn id_mode_yields_the_identifier() {
    match assemble_result(true, StoreReply::Id(Some(42))) {
        Ok(QueryResult::Id(id)) => assert_eq!(id, Some(42)),
        _ => panic!("expected an identifier"),
    }
}

#[test]
fn id_mode_yields_null_when_nothing_was_generated() {
    match assemble_result(true, StoreReply::Id(None)) {
        Ok(QueryResult::Id(id)) => assert!(id.is_none()),
        _ => panic!("expected an identifier"),
    }
}

#[test]
fn insert_then_select_scenario() {
    let insert = parse_query(JsonValue::Text(String::from(
        "INSERT INTO t(x) VALUES (1)",
    )))
    .expect("a string payload parses");
    let plan = plan_query(insert, want_id(Some(true)));
    assert!(plan.want_id);
    match assemble_result(plan.want_id, StoreReply::Id(Some(42))) {
        Ok(QueryResult::Id(id)) => assert_eq!(id, Some(42)),
        _ => panic!("expected the generated identifier"),
    }

    let select = parse_query(JsonValue::Arr(vec![
        JsonValue::Text(String::from("SELECT x FROM t WHERE x = ?")),
        JsonValue::Arr(vec![JsonValue::Num(NumberRepr::UInt(1))]),
    ]))
    .expect("a statement-with-parameters payload parses");
    let plan = plan_query(select, want_id(None));
    assert!(!plan.want_id);
    let row = vec![(String::from("x"), RelationalValue::UInt(1))];
    match assemble_result(plan.want_id, StoreReply::Rows(vec![row])) {
        Ok(QueryResult::Rows(maps)) => {
            assert_eq!(maps.len(), 1);
            assert_eq!(maps[0].entries.len(), 1);
            assert_eq!(maps[0].entries[0].0, "x");
            assert!(matches!(
                maps[0].entries[0].1,
                JsonValue::Num(NumberRepr::UInt(1))
            ));
        },
        _ => panic!("expected one row"),
    }
}

#[test]
fn a_failed_statement_surfaces_the_store_text() {
    let store_text = String::from("Table 'nonexistent' doesn't exist");
    match assemble_result(false, StoreReply::StmtFailed(store_text.clone())) {
        Err(f) => {
            assert_eq!(f.prefix(), "MySQL query error");
            let message = f.message();
            assert!(message.contains("nonexistent"));
            assert_eq!(message, store_text);
        },
        _ => panic!("expected a failure"),
    }
}

#[test]
fn a_failed_connection_is_terminal() {
    match assemble_result(true, StoreReply::ConnFailed(String::from("pool exhausted"))) {
        Err(Failure::Connection(m)) => assert_eq!(m, "pool exhausted"),
        _ => panic!("expected a connection failure"),
    }
}

#[test]
fn the_reporter_logs_the_prefix_and_returns_the_message() {
    let (log, body) = error("MySQL query error", String::from("bad syntax"));
    assert_eq!(log, "MySQL query error: bad syntax");
    assert_eq!(body, "bad syntax");
}
