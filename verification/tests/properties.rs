//! Scenario and behaviour tests: marker/value alignment, grouping shape,
//! substitution idempotence, validation failures and end-to-end statements.

use sqlgen::error::ValidationError;
use sqlgen::placeholder::{apply_placeholders, PlaceholderKind};
use sqlgen::postgres::{
    ConditionBuilder, ConditionValue, DeleteBuilder, ExpressionBuilder, GroupByBuilder,
    GroupByItem, InsertBuilder, Logic, Operator, OrderByBuilder, OrderByItem, SelectBuilder,
    Sequence, SetFieldUpdate, SetValue, TableColumnsBuilder, UpdateBuilder, WhereBuilder,
};
use sqlgen::value::{SqlScalar, SqlValue};

fn text(s: &str) -> SqlValue {
    SqlValue::Scalar(SqlScalar::Text(s.to_string()))
}

fn eq_condition(alias: &str, field: &str, value: SqlValue, logic: Option<Logic>) -> ConditionBuilder {
    ConditionBuilder {
        table_alias: Some(alias.to_string()),
        field: field.to_string(),
        operator: Operator::Eq,
        value: Some(ConditionValue::Single(value)),
        logic,
    }
}

/// One marker per single value, two per range, none for a field reference;
/// the marker count equals the bound-value count.
#[test]
fn marker_count_matches_values() {
    let conditions = vec![
        eq_condition("t", "a", text("x"), None),
        ConditionBuilder {
            table_alias: Some("t".to_string()),
            field: "b".to_string(),
            operator: Operator::Between,
            value: Some(ConditionValue::Range(
                SqlValue::Scalar(SqlScalar::Int(1)),
                SqlValue::Scalar(SqlScalar::Int(9)),
            )),
            logic: Some(Logic::And),
        },
        ConditionBuilder {
            table_alias: Some("t".to_string()),
            field: "c".to_string(),
            operator: Operator::Eq,
            value: Some(ConditionValue::Field("p".to_string(), "d".to_string())),
            logic: Some(Logic::And),
        },
    ];
    let expression = ExpressionBuilder::build(conditions, None).unwrap();
    assert_eq!(expression.condition, "t.a = ? AND t.b BETWEEN ? AND ? AND t.c = p.d");
    let markers = expression.condition.matches('?').count();
    assert_eq!(markers, 3);
    assert_eq!(expression.values.len(), 3);
}

/// With two or more expressions each is wrapped in one parenthesis pair,
/// prefixed by its own connective; a lone expression stays unwrapped.
#[test]
fn grouping_wraps_only_siblings() {
    let make = |logic: Option<Logic>| {
        ExpressionBuilder::build(vec![eq_condition("t", "a", text("x"), None)], logic).unwrap()
    };
    let alone = WhereBuilder::build(vec![make(None)]);
    assert_eq!(alone.statement, "WHERE t.a = ?");

    let pair = WhereBuilder::build(vec![make(None), make(Some(Logic::Or))]);
    assert_eq!(pair.statement, "WHERE (t.a = ?) OR (t.a = ?)");
    assert_eq!(pair.values.len(), 2);
}

/// A lone expression's own leading connective still renders, unsanitized.
#[test]
fn lone_expression_keeps_leading_connective() {
    let expression = ExpressionBuilder::build(
        vec![eq_condition("t", "a", text("x"), Some(Logic::And))],
        None,
    )
    .unwrap();
    let clause = WhereBuilder::build(vec![expression]);
    assert_eq!(clause.statement, "WHERE AND t.a = ?");
}

/// Re-running the sequential substitution over already-numbered text does
/// not double-number it.
#[test]
fn substitution_is_idempotent() {
    let once = apply_placeholders("a = ? AND b IN (?)", &PlaceholderKind::DollarSequential);
    assert_eq!(once, "a = $1 AND b IN ($2)");
    let twice = apply_placeholders(once.as_str(), &PlaceholderKind::DollarSequential);
    assert_eq!(twice, once);

    let kept = apply_placeholders("a = ? AND b IN (?)", &PlaceholderKind::QuestionMark);
    assert_eq!(kept, "a = ? AND b IN (?)");
}

/// The sequential scan rewrites the marker character anywhere in the text,
/// including inside a JSONB key operator's rendering: the known hazard of
/// combining those operators with the numbered notation.
#[test]
fn jsonb_key_operator_is_caught_by_the_scan() {
    let substituted = apply_placeholders("doc ? 'k' AND a = ?", &PlaceholderKind::DollarSequential);
    assert_eq!(substituted, "doc $1 'k' AND a = $2");
}

#[test]
fn empty_item_lists_are_rejected() {
    assert_eq!(OrderByBuilder::build(vec![]), Err(ValidationError::EmptyItems));
    assert_eq!(GroupByBuilder::build(vec![]), Err(ValidationError::EmptyItems));

    let blank_order = OrderByItem {
        table_alias: None,
        field: "".to_string(),
        sequence: Sequence::Asc,
    };
    assert_eq!(OrderByBuilder::build(vec![blank_order]), Err(ValidationError::EmptyField));
    let blank_group = GroupByItem { table_alias: None, field: "".to_string() };
    assert_eq!(GroupByBuilder::build(vec![blank_group]), Err(ValidationError::EmptyField));
}

#[test]
fn duplicate_rendered_fragments_are_skipped() {
    let item = OrderByItem {
        table_alias: Some("t".to_string()),
        field: "a".to_string(),
        sequence: Sequence::Asc,
    };
    let result = OrderByBuilder::build(vec![item.clone(), item.clone(), item]).unwrap();
    assert_eq!(result, "ORDER BY t.a ASC");

    let g = GroupByItem { table_alias: Some("t".to_string()), field: "a".to_string() };
    let result = GroupByBuilder::build(vec![g.clone(), g]).unwrap();
    assert_eq!(result, "GROUP BY t.a");
}

#[test]
fn insert_row_width_is_checked() {
    let mut builder = InsertBuilder::new(PlaceholderKind::QuestionMark);
    builder.table("t");
    builder.columns(vec!["a", "b"]);
    let result = builder.values(vec![text("only one")]);
    assert_eq!(result, Err(ValidationError::ColumnValueCountMismatch));
    assert_eq!(builder.get_values().len(), 0);
}

#[test]
fn nested_select_must_stay_generic() {
    let mut nested = SelectBuilder::new(PlaceholderKind::DollarSequential);
    nested.table("users", "u");
    nested.columns("u", vec!["email"]);
    let mut builder = UpdateBuilder::new(PlaceholderKind::DollarSequential);
    builder.table("users");
    let result = builder.set(vec![SetFieldUpdate {
        field: "email".to_string(),
        value: SetValue::Query(nested),
    }]);
    assert_eq!(result, Err(ValidationError::NestedQueryNotGeneric));
    assert_eq!(
        result.unwrap_err().message(),
        "a nested select must use the question mark placeholder kind"
    );
}

#[test]
fn set_can_only_be_applied_once() {
    let mut builder = UpdateBuilder::new(PlaceholderKind::QuestionMark);
    builder.table("users");
    let first = builder.set(vec![SetFieldUpdate {
        field: "name".to_string(),
        value: SetValue::Value(text("a")),
    }]);
    assert!(first.is_ok());
    let second = builder.set(vec![SetFieldUpdate {
        field: "name".to_string(),
        value: SetValue::Value(text("b")),
    }]);
    assert_eq!(second, Err(ValidationError::SetAlreadyApplied));
}

/// End-to-end: one equality condition under the repeated-symbol notation.
#[test]
fn scenario_single_equality_filter() {
    let expression = ExpressionBuilder::build(
        vec![eq_condition("t", "email", text("x"), None)],
        None,
    )
    .unwrap();
    let mut builder = SelectBuilder::new(PlaceholderKind::QuestionMark);
    builder.table("users", "t");
    builder.columns("t", vec![]);
    builder.filter(vec![expression]);
    let statement = builder.build().unwrap();
    assert_eq!(statement, "SELECT t.* FROM users as t WHERE t.email = ?");
    let values = builder.get_values();
    assert_eq!(values.len(), 1);
    assert_eq!(values[0], text("x"));
}

/// End-to-end: two expressions grouped, a null check binding nothing.
#[test]
fn scenario_grouped_filter_with_null_check() {
    let first = ExpressionBuilder::build(
        vec![
            eq_condition("t", "a", text("1"), None),
            eq_condition("t", "b", text("2"), Some(Logic::And)),
        ],
        None,
    )
    .unwrap();
    let second = ExpressionBuilder::build(
        vec![
            eq_condition("t", "c", text("3"), None),
            ConditionBuilder {
                table_alias: Some("t".to_string()),
                field: "d".to_string(),
                operator: Operator::IsNull,
                value: None,
                logic: Some(Logic::Or),
            },
        ],
        Some(Logic::And),
    )
    .unwrap();
    let clause = WhereBuilder::build(vec![first, second]);
    assert_eq!(
        clause.statement,
        "WHERE (t.a = ? AND t.b = ?) AND (t.c = ? OR t.d IS NULL)"
    );
    assert_eq!(clause.values.len(), 3);
}

/// End-to-end: two value tuples under sequential notation share one counter.
#[test]
fn scenario_insert_sequential_tuples() {
    let mut builder = InsertBuilder::new(PlaceholderKind::DollarSequential);
    builder.table("t");
    builder.columns(vec!["a", "b"]);
    builder.values(vec![text("1"), text("2")]).unwrap();
    builder.values(vec![text("3"), text("4")]).unwrap();
    let statement = builder.build().unwrap();
    assert_eq!(statement, "INSERT INTO t(a, b) VALUES ($1, $2), ($3, $4)");
}

/// End-to-end: a nested select's marker is renumbered as part of the single
/// whole-string pass, between the assignment's marker and the outer
/// filter's, and the value list follows the same order.
#[test]
fn scenario_update_with_nested_select() {
    let mut nested = SelectBuilder::new(PlaceholderKind::QuestionMark);
    nested.table("users", "u");
    nested.columns("u", vec!["email"]);
    nested.filter(vec![ExpressionBuilder::build(
        vec![eq_condition("u", "email", text("nested@example.com"), None)],
        None,
    )
    .unwrap()]);

    let mut builder = UpdateBuilder::new(PlaceholderKind::DollarSequential);
    builder.table("users");
    builder
        .set(vec![
            SetFieldUpdate {
                field: "name".to_string(),
                value: SetValue::Value(text("outer name")),
            },
            SetFieldUpdate {
                field: "email".to_string(),
                value: SetValue::Query(nested),
            },
        ])
        .unwrap();
    builder.filter(vec![ExpressionBuilder::build(
        vec![ConditionBuilder {
            table_alias: None,
            field: "email".to_string(),
            operator: Operator::Eq,
            value: Some(ConditionValue::Single(text("outer@example.com"))),
            logic: None,
        }],
        None,
    )
    .unwrap()]);
    let statement = builder.build().unwrap();
    assert_eq!(
        statement,
        "UPDATE users SET name = $1, email = (SELECT u.email FROM users as u WHERE u.email = $2) WHERE email = $3"
    );
    let values = builder.get_values();
    assert_eq!(values.len(), 3);
    assert_eq!(values[0], text("outer name"));
    assert_eq!(values[1], text("nested@example.com"));
    assert_eq!(values[2], text("outer@example.com"));
}

#[test]
fn where_clause_of_nothing_is_bare() {
    let clause = WhereBuilder::build(vec![]);
    assert_eq!(clause.statement, "WHERE ");
    assert_eq!(clause.values.len(), 0);
}

#[test]
fn select_supports_distinct_and_raw_columns() {
    let mut builder = SelectBuilder::new(PlaceholderKind::QuestionMark);
    builder.distinct();
    builder.table("users", "u");
    builder.columns_raw(vec!["CONCAT(first_name, ' ', last_name) as full_name", "age"]);
    let statement = builder.build().unwrap();
    assert_eq!(
        statement,
        "SELECT DISTINCT CONCAT(first_name, ' ', last_name) as full_name, age FROM users as u"
    );

    let mut bare = SelectBuilder::new(PlaceholderKind::QuestionMark);
    bare.table("users", "u");
    bare.columns_raw(vec![]);
    assert_eq!(bare.build().unwrap(), "SELECT * FROM users as u");
}

#[test]
fn delete_lists_auxiliary_table() {
    let mut builder = DeleteBuilder::new(PlaceholderKind::QuestionMark);
    builder.table("orders", Some("o"));
    builder.using("users", Some("u"));
    builder.filter(vec![ExpressionBuilder::build(
        vec![ConditionBuilder {
            table_alias: Some("o".to_string()),
            field: "user_id".to_string(),
            operator: Operator::Eq,
            value: Some(ConditionValue::Field("u".to_string(), "id".to_string())),
            logic: None,
        }],
        None,
    )
    .unwrap()]);
    let statement = builder.build().unwrap();
    assert_eq!(statement, "DELETE FROM orders as o users as u WHERE o.user_id = u.id");
}

#[test]
fn table_columns_query_is_fixed() {
    let query = TableColumnsBuilder::build("users");
    assert_eq!(
        query,
        "SELECT column_name, data_type FROM information_schema.columns WHERE table_name = 'users'"
    );
}

#[test]
fn default_notation_is_the_question_mark() {
    assert_eq!(PlaceholderKind::default(), PlaceholderKind::QuestionMark);
}

#[test]
fn large_limits_render_in_decimal() {
    let mut builder = SelectBuilder::new(PlaceholderKind::QuestionMark);
    builder.table("t", "t");
    builder.columns_raw(vec!["a"]);
    builder.limit(1234567890);
    builder.offset(0);
    assert_eq!(
        builder.build().unwrap(),
        "SELECT a FROM t as t LIMIT 1234567890 OFFSET 0"
    );
}
