//! Tests for the select, insert, update and delete statement assemblers.

use sqlgen::placeholder::PlaceholderKind;
use sqlgen::postgres::{
    ConditionBuilder, ConditionValue, DeleteBuilder, ExpressionBuilder, GroupByItem,
    InsertBuilder, JoinKind, Logic, Operator, OrderByItem, SelectBuilder, Sequence,
    SetFieldUpdate, SetValue, UpdateBuilder,
};
use sqlgen::value::{SqlScalar, SqlValue};

fn text(s: &str) -> SqlValue {
    SqlValue::Scalar(SqlScalar::Text(s.to_string()))
}

fn uint(n: u64) -> SqlValue {
    SqlValue::Scalar(SqlScalar::Uint(n))
}

#[test]
fn test_select_builder() {
    let mut builder = SelectBuilder::new(PlaceholderKind::QuestionMark);
    builder.table("mytable", "t");
    builder.columns("t", vec![]);
    let result = builder.build();
    assert!(result.is_ok(), "{:?}", result.err());
    assert_eq!(result.unwrap(), "SELECT t.* FROM mytable as t");

    let mut builder = SelectBuilder::new(PlaceholderKind::QuestionMark);
    builder.table("mytable", "t");
    builder.columns("t", vec!["myfield1", "myfield2"]);
    let result = builder.build();
    assert!(result.is_ok(), "{:?}", result.err());
    assert_eq!(result.unwrap(), "SELECT t.myfield1, t.myfield2 FROM mytable as t");

    let mut builder = SelectBuilder::new(PlaceholderKind::QuestionMark);
    builder.table("mytable", "t");
    builder.columns("t", vec!["myfield1", "myfield2"]);
    let result = builder.order_by(vec![OrderByItem {
        table_alias: Some("t".to_string()),
        field: "myfield1".to_string(),
        sequence: Sequence::Asc,
    }]);
    assert!(result.is_ok(), "{:?}", result.err());
    let result = builder.build();
    assert!(result.is_ok(), "{:?}", result.err());
    assert_eq!(
        result.unwrap(),
        "SELECT t.myfield1, t.myfield2 FROM mytable as t ORDER BY t.myfield1 ASC"
    );

    let mut builder = SelectBuilder::new(PlaceholderKind::QuestionMark);
    builder.table("mytable", "t");
    builder.columns("t", vec!["myfield1", "myfield2"]);
    let result = builder.order_by(vec![
        OrderByItem {
            table_alias: None,
            field: "myfield1".to_string(),
            sequence: Sequence::Asc,
        },
        OrderByItem {
            table_alias: None,
            field: "myfield2".to_string(),
            sequence: Sequence::Desc,
        },
    ]);
    assert!(result.is_ok(), "{:?}", result.err());
    let result = builder.build();
    assert!(result.is_ok(), "{:?}", result.err());
    assert_eq!(
        result.unwrap(),
        "SELECT t.myfield1, t.myfield2 FROM mytable as t ORDER BY myfield1 ASC, myfield2 DESC"
    );

    let mut builder = SelectBuilder::new(PlaceholderKind::QuestionMark);
    builder.table("mytable", "t");
    builder.columns("t", vec!["myfield1", "myfield2"]);
    let result = builder.order_by(vec![
        OrderByItem {
            table_alias: Some("t".to_string()),
            field: "myfield1".to_string(),
            sequence: Sequence::Asc,
        },
        OrderByItem {
            table_alias: Some("t".to_string()),
            field: "myfield2".to_string(),
            sequence: Sequence::Desc,
        },
    ]);
    assert!(result.is_ok(), "{:?}", result.err());
    let filter_clauses = vec![
        ConditionBuilder {
            table_alias: Some("t".to_string()),
            field: "myfield3".to_string(),
            operator: Operator::Eq,
            value: Some(ConditionValue::Single(text("MYVALUE"))),
            logic: None,
        },
        ConditionBuilder {
            table_alias: Some("t".to_string()),
            field: "myfield5".to_string(),
            operator: Operator::IsNull,
            value: None,
            logic: Some(Logic::Or),
        },
    ];
    let clause1 = ExpressionBuilder::build(filter_clauses.clone(), None);
    assert!(clause1.is_ok(), "{:?}", clause1.err());
    let clause2 = ExpressionBuilder::build(filter_clauses, Some(Logic::And));
    assert!(clause2.is_ok(), "{:?}", clause2.err());
    builder.filter(vec![clause1.unwrap(), clause2.unwrap()]);
    builder.limit(10);
    builder.offset(0);
    let result = builder.build();
    assert!(result.is_ok(), "{:?}", result.err());
    assert_eq!(
        result.unwrap(),
        "SELECT t.myfield1, t.myfield2 FROM mytable as t WHERE (t.myfield3 = ? OR t.myfield5 IS NULL) AND (t.myfield3 = ? OR t.myfield5 IS NULL) ORDER BY t.myfield1 ASC, t.myfield2 DESC LIMIT 10 OFFSET 0"
    );
    assert!(builder.get_values().len() == 2);

    let mut builder = SelectBuilder::new(PlaceholderKind::QuestionMark);

    let join_clause = ExpressionBuilder::build(
        vec![ConditionBuilder {
            table_alias: Some("p".to_string()),
            field: "id".to_string(),
            operator: Operator::Eq,
            value: Some(ConditionValue::Field("o".to_string(), "product_id".to_string())),
            logic: None,
        }],
        None,
    )
    .unwrap();
    builder.table("orders", "o");
    builder.join(JoinKind::Inner, "products", "p", vec![join_clause]);
    builder.columns("o", vec!["id", "user_id", "product_id"]);
    builder.limit(10);
    builder.offset(0);
    let result = builder.build();
    assert!(result.is_ok(), "{:?}", result.err());
    assert_eq!(
        result.unwrap(),
        "SELECT o.id, o.user_id, o.product_id FROM orders as o INNER JOIN products as p ON p.id = o.product_id LIMIT 10 OFFSET 0"
    );

    let mut builder = SelectBuilder::new(PlaceholderKind::QuestionMark);

    let join_clause = ExpressionBuilder::build(
        vec![ConditionBuilder {
            table_alias: Some("p".to_string()),
            field: "id".to_string(),
            operator: Operator::Eq,
            value: Some(ConditionValue::Field("o".to_string(), "product_id".to_string())),
            logic: None,
        }],
        None,
    )
    .unwrap();

    let filter_clause = ExpressionBuilder::build(
        vec![ConditionBuilder {
            table_alias: Some("o".to_string()),
            field: "id".to_string(),
            operator: Operator::Eq,
            value: Some(ConditionValue::Single(uint(1))),
            logic: None,
        }],
        None,
    )
    .unwrap();
    builder.table("orders", "o");
    builder.join(JoinKind::Left, "products", "p", vec![join_clause.clone()]);
    builder.filter(vec![filter_clause.clone()]);
    builder.columns("o", vec!["id", "user_id", "product_id"]);
    builder.limit(10);
    builder.offset(0);
    let result = builder.build();
    assert!(result.is_ok(), "{:?}", result.err());
    assert_eq!(
        result.unwrap(),
        "SELECT o.id, o.user_id, o.product_id FROM orders as o LEFT JOIN products as p ON p.id = o.product_id WHERE o.id = ? LIMIT 10 OFFSET 0"
    );

    let mut builder = SelectBuilder::new(PlaceholderKind::DollarSequential);
    builder.table("orders", "o");
    builder.join(JoinKind::Left, "products", "p", vec![join_clause.clone()]);
    builder.filter(vec![filter_clause.clone()]);
    builder.columns("o", vec!["id", "user_id", "product_id"]);
    let result = builder.order_by(vec![OrderByItem {
        table_alias: Some("o".to_string()),
        field: "user_id".to_string(),
        sequence: Sequence::Asc,
    }]);
    assert!(result.is_ok(), "{:?}", result.err());
    let result = builder.group_by(vec![GroupByItem {
        table_alias: Some("o".to_string()),
        field: "user_id".to_string(),
    }]);
    assert!(result.is_ok(), "{:?}", result.err());
    builder.limit(10);
    builder.offset(0);
    let result = builder.build();
    assert!(result.is_ok(), "{:?}", result.err());
    assert_eq!(
        result.unwrap(),
        "SELECT o.id, o.user_id, o.product_id FROM orders as o LEFT JOIN products as p ON p.id = o.product_id WHERE o.id = $1 GROUP BY o.user_id ORDER BY o.user_id ASC LIMIT 10 OFFSET 0"
    );

    let filter_clause = ExpressionBuilder::build(
        vec![
            ConditionBuilder {
                table_alias: Some("o".to_string()),
                field: "id".to_string(),
                operator: Operator::Eq,
                value: Some(ConditionValue::Single(uint(1))),
                logic: None,
            },
            ConditionBuilder {
                table_alias: Some("o".to_string()),
                field: "user_id".to_string(),
                operator: Operator::Eq,
                value: Some(ConditionValue::Single(uint(2))),
                logic: Some(Logic::And),
            },
            ConditionBuilder {
                table_alias: Some("o".to_string()),
                field: "product_id".to_string(),
                operator: Operator::Eq,
                value: Some(ConditionValue::Single(uint(3))),
                logic: Some(Logic::And),
            },
        ],
        None,
    )
    .unwrap();
    let mut builder = SelectBuilder::new(PlaceholderKind::DollarSequential);
    builder.table("orders", "o");
    builder.join(JoinKind::Left, "products", "p", vec![join_clause]);
    builder.filter(vec![filter_clause]);
    builder.columns("o", vec!["id", "user_id", "product_id"]);
    let result = builder.order_by(vec![OrderByItem {
        table_alias: Some("o".to_string()),
        field: "user_id".to_string(),
        sequence: Sequence::Asc,
    }]);
    assert!(result.is_ok(), "{:?}", result.err());
    let result = builder.group_by(vec![GroupByItem {
        table_alias: Some("o".to_string()),
        field: "user_id".to_string(),
    }]);
    assert!(result.is_ok(), "{:?}", result.err());
    builder.limit(10);
    builder.offset(0);
    let result = builder.build();
    assert!(result.is_ok(), "{:?}", result.err());
    assert_eq!(
        result.unwrap(),
        "SELECT o.id, o.user_id, o.product_id FROM orders as o LEFT JOIN products as p ON p.id = o.product_id WHERE o.id = $1 AND o.user_id = $2 AND o.product_id = $3 GROUP BY o.user_id ORDER BY o.user_id ASC LIMIT 10 OFFSET 0"
    );
}

#[test]
fn test_insert_builder() {
    let mut builder = InsertBuilder::new(PlaceholderKind::DollarSequential);
    builder.table("users");
    builder.columns(vec!["name", "email"]);
    let result = builder.values(vec![text("Juan dela Cruz"), text("jdc@test.com")]);
    assert!(result.is_ok(), "{:?}", result.err());
    let result = builder.values(vec![text("Jose Rizal"), text("jr@test.com")]);
    assert!(result.is_ok(), "{:?}", result.err());
    let result = builder.build();
    assert!(result.is_ok(), "{:?}", result.err());
    assert_eq!(
        result.unwrap(),
        "INSERT INTO users(name, email) VALUES ($1, $2), ($3, $4)".to_string()
    );

    let mut builder = InsertBuilder::new(PlaceholderKind::QuestionMark);
    builder.table("users");
    builder.columns(vec!["name", "email"]);
    let result = builder.values(vec![text("Juan dela Cruz"), text("jdc@test.com")]);
    assert!(result.is_ok(), "{:?}", result.err());
    let result = builder.values(vec![text("Jose Rizal"), text("jr@test.com")]);
    assert!(result.is_ok(), "{:?}", result.err());
    builder.returning(vec!["name", "email"]);
    let result = builder.build();
    assert!(result.is_ok(), "{:?}", result.err());
    assert_eq!(
        result.unwrap(),
        "INSERT INTO users(name, email) VALUES (?, ?), (?, ?) RETURNING name, email".to_string()
    );
}

#[test]
fn test_update_set_twice() {
    let mut builder = UpdateBuilder::new(PlaceholderKind::QuestionMark);
    builder.table("users");
    let set_ok_result = builder.set(vec![
        SetFieldUpdate {
            field: "name".to_string(),
            value: SetValue::Value(text("Test Update 1")),
        },
        SetFieldUpdate {
            field: "email".to_string(),
            value: SetValue::Value(text("test1update@email.com")),
        },
    ]);
    assert!(set_ok_result.is_ok(), "{:?}", set_ok_result.err());
    let set_err_result = builder.set(vec![
        SetFieldUpdate {
            field: "name".to_string(),
            value: SetValue::Value(text("Test Update 1")),
        },
        SetFieldUpdate {
            field: "email".to_string(),
            value: SetValue::Value(text("test1update@email.com")),
        },
    ]);

    assert!(set_err_result.is_err(), "cannot call set twice");
}

#[test]
fn test_update_question_mark() {
    let mut builder = UpdateBuilder::new(PlaceholderKind::QuestionMark);
    builder.table("users");
    let set_ok_result = builder.set(vec![
        SetFieldUpdate {
            field: "name".to_string(),
            value: SetValue::Value(text("Test Update 1")),
        },
        SetFieldUpdate {
            field: "email".to_string(),
            value: SetValue::Value(text("test1update@email.com")),
        },
    ]);
    assert!(set_ok_result.is_ok(), "{:?}", set_ok_result.err());
    builder.filter(vec![ExpressionBuilder::build(
        vec![ConditionBuilder {
            table_alias: None,
            field: "email".to_string(),
            logic: None,
            operator: Operator::Eq,
            value: Some(ConditionValue::Single(text("test1@example.com"))),
        }],
        None,
    )
    .unwrap()]);
    builder.returning(vec!["email", "name"]);
    let statement = builder.build();
    assert!(statement.is_ok(), "{:?}", statement.err());
    assert_eq!(
        statement.unwrap(),
        "UPDATE users SET name = ?, email = ? WHERE email = ? RETURNING email, name"
    );
    assert_eq!(builder.get_values().len(), 3);
}

#[test]
fn test_update_dollar_sequential() {
    let mut builder = UpdateBuilder::new(PlaceholderKind::DollarSequential);
    builder.table("users");
    let set_ok_result = builder.set(vec![
        SetFieldUpdate {
            field: "name".to_string(),
            value: SetValue::Value(text("Test Update 1")),
        },
        SetFieldUpdate {
            field: "email".to_string(),
            value: SetValue::Value(text("test1update@email.com")),
        },
    ]);
    assert!(set_ok_result.is_ok(), "{:?}", set_ok_result.err());
    builder.filter(vec![ExpressionBuilder::build(
        vec![ConditionBuilder {
            table_alias: None,
            field: "email".to_string(),
            logic: None,
            operator: Operator::Eq,
            value: Some(ConditionValue::Single(text("test1@example.com"))),
        }],
        None,
    )
    .unwrap()]);
    builder.returning(vec!["email", "name"]);
    let statement = builder.build();
    assert!(statement.is_ok(), "{:?}", statement.err());
    assert_eq!(
        statement.unwrap(),
        "UPDATE users SET name = $1, email = $2 WHERE email = $3 RETURNING email, name"
    );
    assert_eq!(builder.get_values().len(), 3);
}

#[test]
fn test_update_dollarsequential_using_subquery_filter() {
    let mut select_builder = SelectBuilder::new(PlaceholderKind::QuestionMark);
    select_builder.table("users", "u");
    select_builder.columns("u", vec!["email"]);
    select_builder.filter(vec![ExpressionBuilder::build(
        vec![ConditionBuilder {
            field: "email".to_string(),
            table_alias: Some("u".to_string()),
            operator: Operator::Eq,
            value: Some(ConditionValue::Single(text("test1@example.com"))),
            logic: None,
        }],
        None,
    )
    .unwrap()]);

    let mut builder = UpdateBuilder::new(PlaceholderKind::DollarSequential);
    builder.table("users");
    let set_ok_result = builder.set(vec![
        SetFieldUpdate {
            field: "name".to_string(),
            value: SetValue::Value(text("Test Update 1")),
        },
        SetFieldUpdate {
            field: "email".to_string(),
            value: SetValue::Query(select_builder),
        },
    ]);
    assert!(set_ok_result.is_ok(), "{:?}", set_ok_result.err());
    builder.filter(vec![ExpressionBuilder::build(
        vec![ConditionBuilder {
            table_alias: None,
            field: "email".to_string(),
            logic: None,
            operator: Operator::Eq,
            value: Some(ConditionValue::Single(text("test1@example.com"))),
        }],
        None,
    )
    .unwrap()]);
    builder.returning(vec!["email", "name"]);
    let statement = builder.build();
    assert!(statement.is_ok(), "{:?}", statement.err());
    assert_eq!(
        statement.unwrap(),
        "UPDATE users SET name = $1, email = (SELECT u.email FROM users as u WHERE u.email = $2) WHERE email = $3 RETURNING email, name"
    );
    assert_eq!(builder.get_values().len(), 3);
}

#[test]
fn test_delete_question_mark() {
    let mut builder = DeleteBuilder::new(PlaceholderKind::QuestionMark);
    builder.table("users", Some("u"));
    builder.filter(vec![ExpressionBuilder::build(
        vec![ConditionBuilder {
            table_alias: Some("u".to_string()),
            field: "email".to_string(),
            logic: None,
            operator: Operator::Eq,
            value: Some(ConditionValue::Single(text("test1@example.com"))),
        }],
        None,
    )
    .unwrap()]);
    builder.returning(vec!["u.email", "u.name"]);
    let statement = builder.build();
    assert!(statement.is_ok(), "{:?}", statement.err());
    assert_eq!(
        statement.unwrap(),
        "DELETE FROM users as u WHERE u.email = ? RETURNING u.email, u.name"
    );
    assert_eq!(builder.get_values().len(), 1);
}
