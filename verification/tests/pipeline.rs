use tinyquery::ast::BinaryOperator;
use tinyquery::ast::Expr;
use tinyquery::ast::Query;
use tinyquery::ast::QueryError;
use tinyquery::ast::SelectItem;
use tinyquery::ast::Value;
use tinyquery::engine::compile_query;
use tinyquery::engine::execute_select;
use tinyquery::engine::explain;
use tinyquery::engine::extract_limit;
use tinyquery::engine::get_column_numbers;
use tinyquery::engine::source_table;
use tinyquery::rows::from_str;
use tinyquery::rows::Columns;
use tinyquery::rows::Row;
use tinyquery::text::parse_usize;
use tinyquery::text::str_lt;

fn ident(name: &str) -> Expr {
    Expr::Identifier(name.to_string())
}

fn strlit(s: &str) -> Expr {
    Expr::Value(Value::SingleQuotedString(s.to_string()))
}

fn numlit(s: &str) -> Expr {
    Expr::Value(Value::Number(s.to_string()))
}

fn cmp(left: Expr, op: BinaryOperator, right: Expr) -> Expr {
    Expr::BinaryOp { left: Box::new(left), op, right: Box::new(right) }
}

fn query(projection: Vec<SelectItem>, selection: Option<Expr>, limit: Option<Expr>) -> Query {
    Query { from: vec!["t".to_string()], projection, selection, limit }
}

#[test]
fn limit_bounds_emitted_rows_not_scanned_rows() {
    // Ten rows; the WHERE clause rejects the first five; LIMIT 3
    // emits exactly rows 6, 7, 8.
    let columns: Columns = from_str(vec!["id", "flag"]);
    let mut rows: Vec<Row> = Vec::new();
    for i in 1..=10 {
        let flag = if i <= 5 { "no" } else { "yes" };
        rows.push(vec![i.to_string(), flag.to_string()]);
    }
    let q = query(
        vec![SelectItem::Wildcard],
        Some(cmp(ident("flag"), BinaryOperator::Eq, strlit("yes"))),
        Some(numlit("3")),
    );
    let out = execute_select(&columns, &q, &rows).unwrap();
    assert_eq!(
        out,
        vec![
            vec!["6".to_string(), "yes".to_string()],
            vec!["7".to_string(), "yes".to_string()],
            vec!["8".to_string(), "yes".to_string()],
        ]
    );
}

#[test]
fn absent_where_admits_all_rows() {
    let columns: Columns = from_str(vec!["id"]);
    let rows: Vec<Row> = (0..5).map(|i: usize| vec![i.to_string()]).collect();
    let q = query(vec![SelectItem::Wildcard], None, None);
    let out = execute_select(&columns, &q, &rows).unwrap();
    assert_eq!(out.len(), 5);
    assert_eq!(out, rows);
}

#[test]
fn absent_limit_defaults_to_one_thousand() {
    let columns: Columns = from_str(vec!["id"]);
    let rows: Vec<Row> = (0..1001).map(|i: usize| vec![i.to_string()]).collect();
    let q = query(vec![SelectItem::Wildcard], None, None);
    let out = execute_select(&columns, &q, &rows).unwrap();
    assert_eq!(out.len(), 1000);
    assert_eq!(out[999], vec!["999".to_string()]);
}

#[test]
fn projection_reorders_and_repeats_columns() {
    let columns: Columns = from_str(vec!["a", "b"]);
    let rows: Vec<Row> = vec![from_str(vec!["1", "2"])];
    let q = query(
        vec![
            SelectItem::UnnamedExpr(ident("b")),
            SelectItem::UnnamedExpr(ident("a")),
            SelectItem::UnnamedExpr(ident("b")),
        ],
        None,
        None,
    );
    let out = execute_select(&columns, &q, &rows).unwrap();
    assert_eq!(out, vec![vec!["2".to_string(), "1".to_string(), "2".to_string()]]);
}

#[test]
fn single_column_equality_round_trip() {
    let columns: Columns = from_str(vec!["col1", "col2", "col3"]);
    let q = query(
        vec![SelectItem::Wildcard],
        Some(cmp(ident("col1"), BinaryOperator::Eq, strlit("1"))),
        None,
    );
    let plan = compile_query(&columns, &q).unwrap();
    assert_eq!(plan.process_row(&from_str(vec!["1", "2", "3"])).is_some(), true);
    assert_eq!(plan.process_row(&from_str(vec!["2", "2", "3"])).is_none(), true);
}

#[test]
fn unknown_column_in_select_fails_before_any_row() {
    let columns: Columns = from_str(vec!["a"]);
    let q = query(vec![SelectItem::UnnamedExpr(ident("nope"))], None, None);
    let rows: Vec<Row> = vec![from_str(vec!["1"])];
    let r = execute_select(&columns, &q, &rows);
    assert_eq!(r.unwrap_err(), QueryError::UnknownColumn("nope".to_string()));
}

#[test]
fn unknown_column_in_where_fails_whole_query() {
    let columns: Columns = from_str(vec!["a"]);
    let q = query(
        vec![SelectItem::Wildcard],
        Some(cmp(ident("nope"), BinaryOperator::Lt, strlit("1"))),
        None,
    );
    let r = compile_query(&columns, &q);
    assert_eq!(r.unwrap_err(), QueryError::UnknownColumn("nope".to_string()));
}

#[test]
fn select_item_errors_come_before_where_errors() {
    // The SELECT list is validated first, as the original pipeline
    // ordered it: a literal SELECT item is reported even when the
    // WHERE clause is also bad.
    let columns: Columns = from_str(vec!["a"]);
    let q = query(
        vec![SelectItem::UnnamedExpr(strlit("5"))],
        Some(cmp(ident("nope"), BinaryOperator::Eq, strlit("1"))),
        None,
    );
    let r = compile_query(&columns, &q);
    assert_eq!(r.unwrap_err(), QueryError::UnsupportedSelectItem);
}

#[test]
fn unsupported_select_item_shape_fails() {
    let columns: Columns = from_str(vec!["a"]);
    let q = query(vec![SelectItem::Other], None, None);
    let r = compile_query(&columns, &q);
    assert_eq!(r.unwrap_err(), QueryError::UnsupportedSelectItem);
}

#[test]
fn wildcard_mixed_with_items_fails() {
    let columns: Columns = from_str(vec!["a"]);
    let q = query(
        vec![SelectItem::Wildcard, SelectItem::UnnamedExpr(ident("a"))],
        None,
        None,
    );
    let r = compile_query(&columns, &q);
    assert_eq!(r.unwrap_err(), QueryError::UnsupportedSelectItem);
}

#[test]
fn complex_limit_expression_fails() {
    let columns: Columns = from_str(vec!["a"]);
    let q = query(vec![SelectItem::Wildcard], None, Some(strlit("3")));
    let r = compile_query(&columns, &q);
    assert_eq!(r.unwrap_err(), QueryError::UnsupportedLimitExpression);
}

#[test]
fn extract_limit_reads_plain_integers() {
    assert_eq!(extract_limit(numlit("42")).unwrap(), 42);
    assert_eq!(extract_limit(numlit("0")).unwrap(), 0);
    assert_eq!(
        extract_limit(numlit("99999999999999999999999999")).unwrap_err(),
        QueryError::UnsupportedLimitExpression
    );
    assert_eq!(
        extract_limit(numlit("1.5")).unwrap_err(),
        QueryError::UnsupportedLimitExpression
    );
    assert_eq!(
        extract_limit(ident("n")).unwrap_err(),
        QueryError::UnsupportedLimitExpression
    );
}

#[test]
fn absent_limit_compiles_to_default_cap() {
    let columns: Columns = from_str(vec!["a"]);
    let q = query(vec![SelectItem::Wildcard], None, None);
    let plan = compile_query(&columns, &q).unwrap();
    assert_eq!(plan.limit, 1000);
    let q2 = query(vec![SelectItem::Wildcard], None, Some(numlit("7")));
    let plan2 = compile_query(&columns, &q2).unwrap();
    assert_eq!(plan2.limit, 7);
}

#[test]
fn limit_zero_emits_nothing() {
    let columns: Columns = from_str(vec!["a"]);
    let rows: Vec<Row> = vec![from_str(vec!["1"])];
    let q = query(vec![SelectItem::Wildcard], None, Some(numlit("0")));
    let out = execute_select(&columns, &q, &rows).unwrap();
    assert_eq!(out.len(), 0);
}

#[test]
fn missing_from_fails() {
    let q = Query {
        from: Vec::new(),
        projection: vec![SelectItem::Wildcard],
        selection: None,
        limit: None,
    };
    assert_eq!(source_table(&q).unwrap_err(), QueryError::MissingFrom);
    let columns: Columns = from_str(vec!["a"]);
    assert_eq!(compile_query(&columns, &q).unwrap_err(), QueryError::MissingFrom);
    let rows: Vec<Row> = vec![from_str(vec!["1"])];
    let err = execute_select(&columns, &q, &rows).unwrap_err();
    assert_eq!(err, QueryError::MissingFrom);
    assert_eq!(err.message(), "can't find \"from\" in select query");
    let q2 = query(vec![SelectItem::Wildcard], None, None);
    assert_eq!(source_table(&q2).unwrap(), "t");
}

#[test]
fn missing_from_is_reported_before_other_errors() {
    // The FROM source is demanded before SELECT, WHERE or LIMIT are
    // looked at, as the original pipeline ordered it.
    let columns: Columns = from_str(vec!["a"]);
    let q = Query {
        from: Vec::new(),
        projection: vec![SelectItem::UnnamedExpr(ident("nope"))],
        selection: Some(cmp(ident("nope"), BinaryOperator::Eq, strlit("1"))),
        limit: Some(strlit("x")),
    };
    assert_eq!(compile_query(&columns, &q).unwrap_err(), QueryError::MissingFrom);
}

#[test]
fn explain_returns_header_names_in_source_order() {
    let columns: Columns = from_str(vec!["z", "a", "m"]);
    assert_eq!(explain(&columns), columns);
}

#[test]
fn get_column_numbers_resolves_positions() {
    let columns: Columns = from_str(vec!["a", "b", "c"]);
    let wild = vec![SelectItem::Wildcard];
    assert_eq!(get_column_numbers(&columns, &wild).unwrap(), vec![0, 1, 2]);
    let named = vec![
        SelectItem::UnnamedExpr(ident("c")),
        SelectItem::UnnamedExpr(ident("a")),
    ];
    assert_eq!(get_column_numbers(&columns, &named).unwrap(), vec![2, 0]);
    let dup: Columns = from_str(vec!["a", "b", "a"]);
    let first = vec![SelectItem::UnnamedExpr(ident("a"))];
    assert_eq!(get_column_numbers(&dup, &first).unwrap(), vec![0]);
}

#[test]
fn streaming_steps_match_batch_run() {
    let columns: Columns = from_str(vec!["id", "flag"]);
    let mut rows: Vec<Row> = Vec::new();
    for i in 0..6 {
        let flag = if i % 2 == 0 { "yes" } else { "no" };
        rows.push(vec![i.to_string(), flag.to_string()]);
    }
    let q = query(
        vec![SelectItem::UnnamedExpr(ident("id"))],
        Some(cmp(ident("flag"), BinaryOperator::Eq, strlit("yes"))),
        Some(numlit("2")),
    );
    let plan = compile_query(&columns, &q).unwrap();
    let mut emitted: Vec<Row> = Vec::new();
    for row in &rows {
        if !plan.wants_more(emitted.len()) {
            break;
        }
        if let Some(out) = plan.process_row(row) {
            emitted.push(out);
        }
    }
    assert_eq!(emitted, plan.run(&rows));
    assert_eq!(emitted, vec![vec!["0".to_string()], vec!["2".to_string()]]);
}

#[test]
fn string_order_and_parsing_helpers() {
    assert_eq!(str_lt("10", "9"), true);
    assert_eq!(str_lt("9", "10"), false);
    assert_eq!(str_lt("", "a"), true);
    assert_eq!(str_lt("a", ""), false);
    assert_eq!(parse_usize("1000"), Some(1000));
    assert_eq!(parse_usize("0"), Some(0));
    assert_eq!(parse_usize(""), None);
    assert_eq!(parse_usize("12a"), None);
    assert_eq!(parse_usize("+3"), None);
}
