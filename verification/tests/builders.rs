use tinyquery::ast::BinaryOperator;
use tinyquery::ast::Expr;
use tinyquery::ast::QueryError;
use tinyquery::ast::Value;
use tinyquery::filter::FilterBuilder;
use tinyquery::getter::GetterBuilder;
use tinyquery::ast::SelectItem;
use tinyquery::mapper::MapperBuilder;
use tinyquery::rows::from_str;
use tinyquery::rows::Columns;
use tinyquery::rows::Row;

#[test]
fn filter_test_filter_builder() {
    let columns: Columns = from_str(vec!["col1", "col2", "col3"]);
    let left = Expr::Identifier("col1".to_string());
    let right = Expr::Value(Value::SingleQuotedString("1".to_string()));
    let selection = Expr::BinaryOp {
        left: Box::new(left),
        right: Box::new(right),
        op: BinaryOperator::Eq,
    };
    let filter = FilterBuilder::new()
        .with_columns(&columns)
        .with_selection(&Some(selection))
        .build()
        .unwrap();

    let row = from_str(vec!["1", "2", "3"]);
    assert_eq!(filter.eval(&row), true);
}

#[test]
fn test_getter_builder() {
    let columns: Columns = from_str(vec!["col1", "col2", "col3"]);
    let expr = Expr::Identifier("col1".to_string());
    let getter = GetterBuilder::new()
        .with_columns(&columns)
        .with_expr(&Some(expr))
        .build()
        .unwrap();

    let row = from_str(vec!["1", "2", "3"]);
    assert_eq!(getter.eval(&row), "1");
}

#[test]
fn mapper_test_filter_builder() {
}

#[test]
fn test_row_from_iter() {
    let row: Row = from_str(vec!["a", "b", "c"]);
    assert_eq!(row, vec!["a", "b", "c"]);
}

fn eval_comparison(left: &str, op: BinaryOperator, right: &str) -> bool {
    let columns: Columns = from_str(vec!["c"]);
    let selection = Expr::BinaryOp {
        left: Box::new(Expr::Value(Value::SingleQuotedString(left.to_string()))),
        op,
        right: Box::new(Expr::Value(Value::SingleQuotedString(right.to_string()))),
    };
    let filter = FilterBuilder::new()
        .with_columns(&columns)
        .with_selection(&Some(selection))
        .build()
        .unwrap();
    filter.eval(&from_str(vec!["x"]))
}

#[test]
fn equality_is_exact_string_equality() {
    assert_eq!(eval_comparison("1", BinaryOperator::Eq, "1.0"), false);
    assert_eq!(eval_comparison("1", BinaryOperator::Eq, "1"), true);
    assert_eq!(eval_comparison("abc", BinaryOperator::NotEq, "abd"), true);
    assert_eq!(eval_comparison("abc", BinaryOperator::NotEq, "abc"), false);
}

#[test]
fn ordering_is_lexicographic() {
    // The documented limitation: "9" sorts after "10" in string order.
    assert_eq!(eval_comparison("9", BinaryOperator::Gt, "10"), true);
    assert_eq!(eval_comparison("10", BinaryOperator::Lt, "9"), true);
    assert_eq!(eval_comparison("abc", BinaryOperator::Lt, "abd"), true);
    assert_eq!(eval_comparison("ab", BinaryOperator::Lt, "abc"), true);
    assert_eq!(eval_comparison("abc", BinaryOperator::Gt, "abc"), false);
    assert_eq!(eval_comparison("abc", BinaryOperator::Lt, "abc"), false);
}

#[test]
fn and_short_circuits_on_false_left() {
    // The right side reads column 1, which this malformed one-field
    // row does not have; with a false left side it is never reached.
    let columns: Columns = from_str(vec!["a", "b"]);
    let left = Expr::BinaryOp {
        left: Box::new(Expr::Identifier("a".to_string())),
        op: BinaryOperator::Eq,
        right: Box::new(Expr::Value(Value::SingleQuotedString("x".to_string()))),
    };
    let right = Expr::BinaryOp {
        left: Box::new(Expr::Identifier("b".to_string())),
        op: BinaryOperator::Eq,
        right: Box::new(Expr::Value(Value::SingleQuotedString("y".to_string()))),
    };
    let selection = Expr::BinaryOp {
        left: Box::new(left),
        op: BinaryOperator::And,
        right: Box::new(right),
    };
    let filter = FilterBuilder::new()
        .with_columns(&columns)
        .with_selection(&Some(selection))
        .build()
        .unwrap();
    let short_row = from_str(vec!["z"]);
    assert_eq!(filter.eval(&short_row), false);
}

#[test]
fn absent_where_admits_every_row() {
    let columns: Columns = from_str(vec!["a"]);
    let filter = FilterBuilder::new()
        .with_columns(&columns)
        .with_selection(&None)
        .build()
        .unwrap();
    assert_eq!(filter.eval(&from_str(vec!["1"])), true);
    assert_eq!(filter.eval(&from_str(vec![""])), true);
}

#[test]
fn unknown_column_in_where_fails() {
    let columns: Columns = from_str(vec!["a"]);
    let selection = Expr::BinaryOp {
        left: Box::new(Expr::Identifier("nope".to_string())),
        op: BinaryOperator::Eq,
        right: Box::new(Expr::Value(Value::SingleQuotedString("1".to_string()))),
    };
    let r = FilterBuilder::new()
        .with_columns(&columns)
        .with_selection(&Some(selection))
        .build();
    assert_eq!(r.unwrap_err(), QueryError::UnknownColumn("nope".to_string()));
}

#[test]
fn unknown_column_in_comparison_right_side_fails() {
    let columns: Columns = from_str(vec!["a"]);
    let selection = Expr::BinaryOp {
        left: Box::new(Expr::Identifier("a".to_string())),
        op: BinaryOperator::Gt,
        right: Box::new(Expr::Identifier("nope".to_string())),
    };
    let r = FilterBuilder::new()
        .with_columns(&columns)
        .with_selection(&Some(selection))
        .build();
    assert_eq!(r.unwrap_err(), QueryError::UnknownColumn("nope".to_string()));
}

#[test]
fn unsupported_operator_names_the_operator() {
    let columns: Columns = from_str(vec!["a"]);
    let selection = Expr::BinaryOp {
        left: Box::new(Expr::Identifier("a".to_string())),
        op: BinaryOperator::Other("OR".to_string()),
        right: Box::new(Expr::Identifier("a".to_string())),
    };
    let r = FilterBuilder::new()
        .with_columns(&columns)
        .with_selection(&Some(selection))
        .build();
    assert_eq!(r.unwrap_err(), QueryError::UnsupportedOperator("OR".to_string()));
}

#[test]
fn non_binary_where_expression_fails() {
    let columns: Columns = from_str(vec!["a"]);
    let r = FilterBuilder::new()
        .with_columns(&columns)
        .with_selection(&Some(Expr::Identifier("a".to_string())))
        .build();
    assert_eq!(r.unwrap_err(), QueryError::UnsupportedExpression);
}

#[test]
fn duplicate_column_resolves_to_first_position() {
    let columns: Columns = from_str(vec!["a", "b", "a"]);
    let getter = GetterBuilder::new()
        .with_columns(&columns)
        .with_expr(&Some(Expr::Identifier("a".to_string())))
        .build()
        .unwrap();
    let row = from_str(vec!["1", "2", "3"]);
    assert_eq!(getter.eval(&row), "1");
}

#[test]
fn getter_literal_and_default() {
    let columns: Columns = from_str(vec!["a"]);
    let row = from_str(vec!["1"]);
    let lit = GetterBuilder::new()
        .with_columns(&columns)
        .with_expr(&Some(Expr::Value(Value::Number("42".to_string()))))
        .build()
        .unwrap();
    assert_eq!(lit.eval(&row), "42");
    let dflt = GetterBuilder::new()
        .with_columns(&columns)
        .with_expr(&None)
        .build()
        .unwrap();
    assert_eq!(dflt.eval(&row), "");
}

#[test]
fn wildcard_mapper_is_identity() {
    let columns: Columns = from_str(vec!["a", "b", "c"]);
    let items: Vec<SelectItem> = vec![SelectItem::Wildcard];
    let m = MapperBuilder::new()
        .with_columns(&columns)
        .with_selection(&items)
        .build()
        .unwrap();
    let row = from_str(vec!["x", "y", "z"]);
    let out = tinyquery::mapper::project(&m, &row);
    assert_eq!(out, row);
}

#[test]
fn error_messages_name_the_construct() {
    let e = QueryError::UnknownColumn("col9".to_string());
    assert_eq!(e.message(), "column \"col9\" is not found");
    let e = QueryError::UnsupportedOperator("OR".to_string());
    assert_eq!(e.message(), "unsupported operator OR");
    assert_eq!(QueryError::MissingFrom.message(), "can't find \"from\" in select query");
}
