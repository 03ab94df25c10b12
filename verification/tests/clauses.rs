//! Tests for the leaf condition, expression and clause builders.

use sqlgen::postgres::{
    ConditionBuilder, ConditionValue, ExpressionBuilder, GroupByBuilder, GroupByItem, JoinBuilder,
    JoinKind, Logic, Operator, OrderByBuilder, OrderByItem, Sequence, SetBuilder, SetFieldUpdate,
    SetValue, WhereBuilder,
};
use sqlgen::value::{SqlScalar, SqlValue};

fn text(s: &str) -> SqlValue {
    SqlValue::Scalar(SqlScalar::Text(s.to_string()))
}

fn uint(n: u64) -> SqlValue {
    SqlValue::Scalar(SqlScalar::Uint(n))
}

fn int64(n: i64) -> SqlValue {
    SqlValue::Scalar(SqlScalar::Int(n))
}

#[test]
fn test_condition() {
    let result = ConditionBuilder::build(&ConditionBuilder {
        table_alias: Some("t".to_string()),
        field: "myfield1".to_string(),
        operator: Operator::Eq,
        value: Some(ConditionValue::Single(text("test"))),
        logic: None,
    });
    assert!(result.is_ok(), "{:?}", result.err());
    assert_eq!(result.unwrap(), "t.myfield1 = ?".to_string());

    let result = ConditionBuilder::build(&ConditionBuilder {
        table_alias: Some("t".to_string()),
        field: "myfield1".to_string(),
        operator: Operator::Eq,
        value: Some(ConditionValue::Single(text("test"))),
        logic: Some(Logic::And),
    });
    assert!(result.is_ok(), "{:?}", result.err());
    assert_eq!(result.unwrap(), "AND t.myfield1 = ?".to_string());

    let result = ConditionBuilder::build(&ConditionBuilder {
        table_alias: Some("t".to_string()),
        field: "myfield1".to_string(),
        operator: Operator::Eq,
        value: Some(ConditionValue::Field("p".to_string(), "myfield2".to_string())),
        logic: Some(Logic::And),
    });
    assert!(result.is_ok(), "{:?}", result.err());
    assert_eq!(result.unwrap(), "AND t.myfield1 = p.myfield2".to_string());

    let result = ConditionBuilder::build(&ConditionBuilder {
        table_alias: Some("t".to_string()),
        field: "myfield1".to_string(),
        operator: Operator::Between,
        value: Some(ConditionValue::Range(uint(10), uint(20))),
        logic: Some(Logic::And),
    });
    assert!(result.is_ok(), "{:?}", result.err());
    assert_eq!(result.unwrap(), "AND t.myfield1 BETWEEN ? AND ?".to_string());
}

#[test]
fn test_expression() {
    let condition1 = ConditionBuilder {
        table_alias: Some("t".to_string()),
        field: "myfield1".to_string(),
        operator: Operator::Eq,
        value: Some(ConditionValue::Single(text("test"))),
        logic: None,
    };

    let condition2 = ConditionBuilder {
        table_alias: Some("t".to_string()),
        field: "myfield2".to_string(),
        operator: Operator::Eq,
        value: Some(ConditionValue::Single(text("test"))),
        logic: Some(Logic::And),
    };

    let result = ExpressionBuilder::build(vec![condition1, condition2], None);
    assert!(result.is_ok(), "{:?}", result.err());
    let result = result.unwrap();
    assert_eq!(result.condition, "t.myfield1 = ? AND t.myfield2 = ?".to_string());
    assert_eq!(result.logic, None);
    assert!(result.values.len() > 0);

    let condition1 = ConditionBuilder {
        table_alias: Some("t".to_string()),
        field: "myfield2".to_string(),
        operator: Operator::Between,
        value: Some(ConditionValue::Range(uint(10), uint(20))),
        logic: Some(Logic::And),
    };
    let result = ExpressionBuilder::build(vec![condition1.clone()], None);
    assert!(result.is_ok(), "{:?}", result.err());
    let result = result.unwrap();
    assert_eq!(result.condition, "AND t.myfield2 BETWEEN ? AND ?".to_string());
    assert_eq!(result.logic, None);
    assert_eq!(result.values.len(), 2);
}

#[test]
fn test_where_builder() {
    let data = ConditionValue::Single(text("MYVALUE"));
    let result = ConditionBuilder::bind(&data);
    assert_eq!(result, Some("?".to_string()));

    let data = ConditionValue::Single(int64(128));
    let result = ConditionBuilder::bind(&data);
    assert_eq!(result, Some("?".to_string()));

    let values = ConditionValue::Single(SqlValue::Array(vec![
        SqlScalar::Text("MYVALUE".to_string()),
        SqlScalar::Int(128),
    ]));
    let result = ConditionBuilder::bind(&values);
    assert_eq!(result, Some("(?)".to_string()));

    let where_expression = ConditionBuilder {
        table_alias: None,
        field: "myfield1".to_string(),
        operator: Operator::Eq,
        value: Some(ConditionValue::Single(text("MYVALUE"))),
        logic: None,
    };

    let result = ConditionBuilder::build(&where_expression);
    assert!(result.is_ok(), "{:?}", result.err());
    let result = result.unwrap();
    assert_eq!(result, "myfield1 = ?".to_string());

    let where_expression = ConditionBuilder {
        table_alias: None,
        field: "myfield1".to_string(),
        operator: Operator::In,
        value: Some(values.clone()),
        logic: None,
    };

    let result = ConditionBuilder::build(&where_expression);
    assert!(result.is_ok(), "{:?}", result.err());
    let result = result.unwrap();
    assert_eq!(result, "myfield1 IN (?)".to_string());

    let where_expressions = vec![ConditionBuilder {
        table_alias: Some("t".to_string()),
        field: "".to_string(),
        operator: Operator::Eq,
        value: Some(ConditionValue::Single(text("MYVALUE"))),
        logic: None,
    }];
    let expression_error = ExpressionBuilder::build(where_expressions, None);
    assert!(expression_error.is_err(), "expecting field error");

    let where_expressions = vec![
        ConditionBuilder {
            table_alias: Some("t".to_string()),
            field: "myfield1".to_string(),
            operator: Operator::Eq,
            value: Some(ConditionValue::Single(text("MYVALUE"))),
            logic: None,
        },
        ConditionBuilder {
            table_alias: Some("t".to_string()),
            field: "myfield2".to_string(),
            operator: Operator::Eq,
            value: Some(ConditionValue::Single(int64(128))),
            logic: Some(Logic::And),
        },
    ];
    let expression1 = ExpressionBuilder::build(where_expressions, None);
    assert!(expression1.is_ok(), "{:?}", expression1.err());
    let expression1 = expression1.unwrap();
    assert_eq!(expression1.condition, "t.myfield1 = ? AND t.myfield2 = ?".to_string());
    assert_eq!(expression1.logic, None);
    assert!(expression1.values.len() > 0);

    let where_expressions = vec![
        ConditionBuilder {
            table_alias: Some("t".to_string()),
            field: "myfield3".to_string(),
            operator: Operator::Eq,
            value: Some(ConditionValue::Single(text("MYVALUE"))),
            logic: None,
        },
        ConditionBuilder {
            table_alias: Some("t".to_string()),
            field: "myfield4".to_string(),
            operator: Operator::In,
            value: Some(values),
            logic: Some(Logic::And),
        },
        ConditionBuilder {
            table_alias: Some("t".to_string()),
            field: "myfield5".to_string(),
            operator: Operator::IsNull,
            value: None,
            logic: Some(Logic::Or),
        },
    ];
    let expression2 = ExpressionBuilder::build(where_expressions, Some(Logic::And));
    assert!(expression2.is_ok(), "{:?}", expression2.err());
    let expression2 = expression2.unwrap();
    assert_eq!(
        expression2.condition,
        "t.myfield3 = ? AND t.myfield4 IN (?) OR t.myfield5 IS NULL".to_string()
    );
    assert_eq!(expression2.logic, Some(Logic::And));
    assert!(expression2.values.len() > 0);

    let where1 = WhereBuilder::build(vec![expression1, expression2.clone()]);
    assert_eq!(
        where1.statement,
        "WHERE (t.myfield1 = ? AND t.myfield2 = ?) AND (t.myfield3 = ? AND t.myfield4 IN (?) OR t.myfield5 IS NULL)"
            .to_string()
    );
    assert!(where1.values.len() > 0);
    let where2 = WhereBuilder::build(vec![expression2]);
    assert_eq!(
        where2.statement,
        "WHERE t.myfield3 = ? AND t.myfield4 IN (?) OR t.myfield5 IS NULL".to_string()
    );
    assert!(where2.values.len() > 0);
}

#[test]
fn test_join() {
    let condition1 = ConditionBuilder {
        table_alias: Some("p".to_string()),
        field: "id".to_string(),
        operator: Operator::Eq,
        value: Some(ConditionValue::Field("o".to_string(), "product_id".to_string())),
        logic: None,
    };

    let expression1 = ExpressionBuilder::build(vec![condition1], None);
    assert!(expression1.is_ok(), "{:?}", expression1.err());
    let expression1 = expression1.unwrap();
    let result = JoinBuilder::build(JoinKind::Left, "products", "p", vec![expression1]);
    assert_eq!(result.statement, "LEFT JOIN products as p ON p.id = o.product_id");
    assert_eq!(result.values.len(), 0);

    let condition1 = ConditionBuilder {
        table_alias: Some("p".to_string()),
        field: "id".to_string(),
        operator: Operator::Eq,
        value: Some(ConditionValue::Field("o".to_string(), "product_id".to_string())),
        logic: None,
    };

    let condition2 = ConditionBuilder {
        table_alias: Some("p".to_string()),
        field: "user_id".to_string(),
        operator: Operator::Eq,
        value: Some(ConditionValue::Single(uint(123))),
        logic: Some(Logic::And),
    };

    let expression1 = ExpressionBuilder::build(vec![condition1, condition2], None);
    assert!(expression1.is_ok(), "{:?}", expression1.err());
    let expression1 = expression1.unwrap();
    let result = JoinBuilder::build(JoinKind::Left, "products", "p", vec![expression1]);
    assert_eq!(
        result.statement,
        "LEFT JOIN products as p ON p.id = o.product_id AND p.user_id = ?"
    );
    assert_eq!(result.values.len(), 1);

    let condition1 = ConditionBuilder {
        table_alias: Some("p".to_string()),
        field: "id".to_string(),
        operator: Operator::Eq,
        value: Some(ConditionValue::Field("o".to_string(), "product_id".to_string())),
        logic: None,
    };

    let condition2 = ConditionBuilder {
        table_alias: Some("p".to_string()),
        field: "user_id".to_string(),
        operator: Operator::Eq,
        value: Some(ConditionValue::Single(uint(123))),
        logic: Some(Logic::And),
    };

    let expression1 = ExpressionBuilder::build(vec![condition1.clone(), condition2.clone()], None);
    assert!(expression1.is_ok(), "{:?}", expression1.err());
    let expression2 = ExpressionBuilder::build(vec![condition1, condition2], Some(Logic::And));
    assert!(expression2.is_ok(), "{:?}", expression2.err());
    let expression1 = expression1.unwrap();
    let expression2 = expression2.unwrap();
    let result = JoinBuilder::build(
        JoinKind::Left,
        "products",
        "p",
        vec![expression1, expression2],
    );
    assert_eq!(
        result.statement,
        "LEFT JOIN products as p ON (p.id = o.product_id AND p.user_id = ?) AND (p.id = o.product_id AND p.user_id = ?)"
    );
    assert_eq!(result.values.len(), 2);
}

#[test]
fn test_order_by_builder() {
    let order_by = OrderByItem {
        table_alias: None,
        field: "".to_string(),
        sequence: Sequence::Asc,
    };
    let result = OrderByBuilder::build(vec![order_by]);
    assert!(result.is_err(), "expected error");

    let order_by_items = vec![OrderByItem {
        table_alias: None,
        field: "myfield1".to_string(),
        sequence: Sequence::Asc,
    }];
    let result = OrderByBuilder::build(order_by_items);
    assert!(result.is_ok(), "{:?}", result.err());
    let result = result.unwrap();
    assert_eq!(result, "ORDER BY myfield1 ASC");

    let order_by_items = vec![
        OrderByItem {
            table_alias: Some("t".to_string()),
            field: "myfield1".to_string(),
            sequence: Sequence::Asc,
        },
        OrderByItem {
            table_alias: Some("t".to_string()),
            field: "myfield2".to_string(),
            sequence: Sequence::Desc,
        },
    ];
    let result = OrderByBuilder::build(order_by_items);
    assert!(result.is_ok(), "{:?}", result.err());
    let result = result.unwrap();
    assert_eq!(result, "ORDER BY t.myfield1 ASC, t.myfield2 DESC");
}

#[test]
fn test_group_by_builder() {
    let group_by = GroupByItem { table_alias: None, field: "".to_string() };
    let result = GroupByBuilder::build(vec![group_by]);
    assert!(result.is_err(), "expected error");

    let group_by_items = vec![GroupByItem { table_alias: None, field: "myfield1".to_string() }];
    let result = GroupByBuilder::build(group_by_items);
    assert!(result.is_ok(), "{:?}", result.err());
    let result = result.unwrap();
    assert_eq!(result, "GROUP BY myfield1");

    let group_by_items = vec![
        GroupByItem { table_alias: Some("t".to_string()), field: "myfield1".to_string() },
        GroupByItem { table_alias: Some("t".to_string()), field: "myfield2".to_string() },
    ];
    let result = GroupByBuilder::build(group_by_items);
    assert!(result.is_ok(), "{:?}", result.err());
    let result = result.unwrap();
    assert_eq!(result, "GROUP BY t.myfield1, t.myfield2");
}

#[test]
fn test_builder() {
    let items: Vec<SetFieldUpdate> = vec![
        SetFieldUpdate {
            field: "email".to_string(),
            value: SetValue::Value(text("joserizal@ph.com")),
        },
        SetFieldUpdate {
            field: "password".to_string(),
            value: SetValue::Value(text("joserizal@ph.com")),
        },
    ];
    let result = SetBuilder::build(items);
    assert!(result.is_ok(), "{:?}", result.err());
    let result = result.unwrap();
    assert_eq!(result.values.len(), 2);
    assert_eq!(result.statement, "SET email = ?, password = ?");
}
