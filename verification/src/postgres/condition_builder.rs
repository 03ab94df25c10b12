//! One leaf predicate: optional table qualification, a field, an operator,
//! an optional value reference and an optional preceding connective.  It
//! renders to one atomic text fragment and contributes zero, one or two
//! bound values.

use crate::error::ValidationError;
use crate::postgres::logic::{logic_text, Logic};
use crate::postgres::operator::{
    lemma_operator_marker_free, operator_reuses_marker, operator_text, Operator,
};
use crate::text::{
    lemma_marker_count_concat, lemma_marker_free_count, marker_count, marker_free,
};
use crate::value::SqlValue;
use vstd::prelude::*;

verus! {

/// The value reference of a condition.
///
/// A `Field` renders as literal SQL text (`alias.field`) and binds nothing;
/// a `Single` renders as one marker and binds one value; a `Range` renders
/// as two markers joined by `AND` and binds two values, low then high.
#[derive(Debug, Clone)]
pub enum ConditionValue {
    Field(String, String),
    Single(SqlValue),
    Range(SqlValue, SqlValue),
}

/// One leaf predicate.
#[derive(Debug, Clone)]
pub struct ConditionBuilder {
    pub table_alias: Option<String>,
    pub field: String,
    pub operator: Operator,
    pub value: Option<ConditionValue>,
    pub logic: Option<Logic>,
}

/// The marker fragment of one bound value: a scalar renders as the generic
/// marker, an array as the marker wrapped in parentheses.
pub open spec fn marker_text(v: SqlValue) -> Seq<char> {
    if v is Array {
        "(?)"@
    } else {
        "?"@
    }
}

/// The text that qualifies a field with an optional table alias.
pub open spec fn alias_prefix(alias: Option<String>) -> Seq<char> {
    match alias {
        Some(a) => a@ + "."@,
        None => Seq::empty(),
    }
}

/// The in-text fragment of a condition's value reference.
pub open spec fn bind_text(cv: ConditionValue) -> Seq<char> {
    match cv {
        ConditionValue::Field(alias, field) => alias@ + "."@ + field@,
        ConditionValue::Single(v) => marker_text(v),
        ConditionValue::Range(lo, hi) => marker_text(lo) + " AND "@ + marker_text(hi),
    }
}

/// Whether the condition's rendered fragment ends with its value reference:
/// a value must be present and the operator must consult it (the null checks
/// never do).
pub open spec fn condition_binds(c: ConditionBuilder) -> bool {
    c.value is Some && c.operator != Operator::IsNull && c.operator != Operator::NotNull
}

/// The condition's fragment without its connective prefix.
pub open spec fn condition_core_text(c: ConditionBuilder) -> Seq<char> {
    let base = alias_prefix(c.table_alias) + c.field@ + " "@ + operator_text(c.operator);
    if condition_binds(c) {
        base + " "@ + bind_text(c.value->0)
    } else {
        base
    }
}

/// The condition's full fragment: its own connective prefix, when present,
/// followed by the core fragment.
pub open spec fn condition_text(c: ConditionBuilder) -> Seq<char> {
    match c.logic {
        Some(l) => logic_text(l) + " "@ + condition_core_text(c),
        None => condition_core_text(c),
    }
}

/// The bound values one value reference contributes, in textual order.
pub open spec fn value_contrib(cv: ConditionValue) -> Seq<SqlValue> {
    match cv {
        ConditionValue::Field(_, _) => Seq::empty(),
        ConditionValue::Single(v) => seq![v],
        ConditionValue::Range(lo, hi) => seq![lo, hi],
    }
}

/// The bound values a condition contributes: those of its value reference.
/// The contribution follows the reference's shape alone; it is not cut off
/// by a null-check operator.
pub open spec fn condition_contrib(c: ConditionBuilder) -> Seq<SqlValue> {
    match c.value {
        Some(cv) => value_contrib(cv),
        None => Seq::empty(),
    }
}

/// Whether a condition's fragment carries a generic marker only where a
/// value is bound: its names hold no marker character, its operator's text
/// does not reuse the marker character, and a null-check operator is not
/// paired with a value reference (the fragment would omit the marker while
/// the reference still contributes values).
pub open spec fn condition_marker_clean(c: ConditionBuilder) -> bool {
    &&& match c.table_alias {
        Some(a) => marker_free(a@),
        None => true,
    }
    &&& marker_free(c.field@)
    &&& !operator_reuses_marker(c.operator)
    &&& match c.value {
        Some(ConditionValue::Field(a, f)) => marker_free(a@) && marker_free(f@),
        _ => true,
    }
    &&& (c.operator == Operator::IsNull || c.operator == Operator::NotNull) ==> c.value is None
}

/// The marker fragment of a value holds exactly one marker.
proof fn lemma_marker_text_count(v: SqlValue)
    ensures
        marker_count(marker_text(v)) == 1,
{
    reveal_strlit("?");
    reveal_strlit("(?)");
    if v is Array {
        let s = "(?)"@;
        assert(marker_count(s.drop_first().drop_first().drop_first()) == 0);
        assert(marker_count(s.drop_first().drop_first()) == 0);
        assert(marker_count(s.drop_first()) == 1);
        assert(marker_count(s) == 1);
    } else {
        let s = "?"@;
        assert(marker_count(s.drop_first()) == 0);
        assert(marker_count(s) == 1);
    }
}

/// The fragment of a value reference holds exactly as many markers as the
/// reference contributes bound values, provided a field reference's names
/// are marker-free.
proof fn lemma_bind_text_count(cv: ConditionValue)
    requires
        cv matches ConditionValue::Field(a, f) ==> marker_free(a@) && marker_free(f@),
    ensures
        marker_count(bind_text(cv)) == value_contrib(cv).len(),
{
    reveal_strlit(".");
    reveal_strlit(" AND ");
    match cv {
        ConditionValue::Field(a, f) => {
            lemma_marker_count_concat(a@, "."@);
            lemma_marker_count_concat(a@ + "."@, f@);
            lemma_marker_free_count(a@);
            lemma_marker_free_count("."@);
            lemma_marker_free_count(f@);
        },
        ConditionValue::Single(v) => {
            lemma_marker_text_count(v);
        },
        ConditionValue::Range(lo, hi) => {
            lemma_marker_text_count(lo);
            lemma_marker_text_count(hi);
            lemma_marker_count_concat(marker_text(lo), " AND "@);
            lemma_marker_count_concat(marker_text(lo) + " AND "@, marker_text(hi));
            lemma_marker_free_count(" AND "@);
        },
    }
}

/// Law, at the leaf: the fragment of a marker-clean condition holds exactly
/// as many generic markers as the condition contributes bound values.
pub proof fn lemma_condition_marker_alignment(c: ConditionBuilder)
    requires
        condition_marker_clean(c),
    ensures
        marker_count(condition_text(c)) == condition_contrib(c).len(),
{
    reveal_strlit(" ");
    reveal_strlit(".");
    reveal_strlit("AND");
    reveal_strlit("OR");
    lemma_marker_free_count(" "@);
    lemma_marker_free_count("."@);
    lemma_operator_marker_free(c.operator);
    lemma_marker_free_count(operator_text(c.operator));
    lemma_marker_free_count(c.field@);
    let prefix = alias_prefix(c.table_alias);
    assert(marker_count(prefix) == 0) by {
        match c.table_alias {
            Some(a) => {
                lemma_marker_free_count(a@);
                lemma_marker_count_concat(a@, "."@);
            },
            None => {
                lemma_marker_free_count(Seq::<char>::empty());
            },
        }
    }
    let base = prefix + c.field@ + " "@ + operator_text(c.operator);
    lemma_marker_count_concat(prefix, c.field@);
    lemma_marker_count_concat(prefix + c.field@, " "@);
    lemma_marker_count_concat(prefix + c.field@ + " "@, operator_text(c.operator));
    let core = condition_core_text(c);
    if condition_binds(c) {
        lemma_marker_count_concat(base, " "@);
        lemma_marker_count_concat(base + " "@, bind_text(c.value->0));
        lemma_bind_text_count(c.value->0);
    }
    match c.logic {
        Some(l) => {
            lemma_marker_free_count(logic_text(l));
            lemma_marker_count_concat(logic_text(l), " "@);
            lemma_marker_count_concat(logic_text(l) + " "@, core);
        },
        None => {},
    }
}

impl ConditionBuilder {
    /// The in-text marker for one bound value.
    pub fn bind_value(value: &SqlValue) -> (r: String)
        ensures
            r@ == marker_text(*value),
    {
        match value {
            SqlValue::Array(_) => "(?)".to_owned(),
            SqlValue::Scalar(_) => "?".to_owned(),
        }
    }

    /// The in-text fragment of one value reference.  Every reference has a
    /// fragment; the result is never `None`.
    pub fn bind(condition_value: &ConditionValue) -> (r: Option<String>)
        ensures
            r matches Some(s) && s@ == bind_text(*condition_value),
    {
        let value = match condition_value {
            ConditionValue::Field(table_alias, table_field) => {
                let mut s = table_alias.clone();
                s.append(".");
                s.append(table_field.as_str());
                s
            },
            ConditionValue::Single(value) => Self::bind_value(value),
            ConditionValue::Range(value1, value2) => {
                let mut s = Self::bind_value(value1);
                s.append(" AND ");
                s.append(Self::bind_value(value2).as_str());
                s
            },
        };
        Some(value)
    }

    /// Renders the condition to its atomic fragment.  Fails exactly when the
    /// field name is empty.
    pub fn build(item: &ConditionBuilder) -> (r: Result<String, ValidationError>)
        ensures
            item.field@.len() == 0 ==> r == Err::<String, ValidationError>(
                ValidationError::EmptyField,
            ),
            item.field@.len() > 0 ==> (r matches Ok(s) && s@ == condition_text(*item)),
    {
        if item.field.as_str().is_empty() {
            return Err(ValidationError::EmptyField);
        }
        let mut text = String::new();
        if let Some(l) = &item.logic {
            text.append(l.sql_str());
            text.append(" ");
        }
        if let Some(alias) = &item.table_alias {
            text.append(alias.as_str());
            text.append(".");
        }
        text.append(item.field.as_str());
        text.append(" ");
        text.append(item.operator.sql_str());
        if let Some(cv) = &item.value {
            if item.operator != Operator::IsNull && item.operator != Operator::NotNull {
                if let Some(bound) = Self::bind(cv) {
                    text.append(" ");
                    text.append(bound.as_str());
                }
            }
        }
        proof {
            assert(text@ =~= condition_text(*item));
        }
        Ok(text)
    }
}

} // verus!
