//! The assignment clause builder: renders `SET` assignments, where a
//! right-hand side is either a bound value or a fully built nested select
//! whose own values splice into the outer value list at that position.

use crate::error::ValidationError;
use crate::placeholder::PlaceholderKind;
use crate::postgres::select_builder::{select_built_text, SelectBuilder};
use crate::text::{
    lemma_marker_count_concat, lemma_marker_free_count, marker_count, marker_free,
};
use crate::value::SqlValue;
use vstd::prelude::*;

verus! {

/// The right-hand side of one assignment.
#[derive(Debug, Clone)]
pub enum SetValue {
    Value(SqlValue),
    Query(SelectBuilder),
}

/// One `field = value` assignment.
#[derive(Debug, Clone)]
pub struct SetFieldUpdate {
    pub field: String,
    pub value: SetValue,
}

/// A rendered assignment clause and the values it binds.
#[derive(Debug, Clone)]
pub struct SetBuilder {
    pub statement: String,
    pub values: Vec<SqlValue>,
}

/// The rendered fragment of one assignment: a marker for a bound value, the
/// parenthesised nested statement for a sub-select.
pub open spec fn assignment_text(item: SetFieldUpdate) -> Seq<char> {
    match item.value {
        SetValue::Value(_) => item.field@ + " = ?"@,
        SetValue::Query(sb) => item.field@ + " = ("@ + select_built_text(sb) + ")"@,
    }
}

/// The bound values of one assignment: the value itself, or the nested
/// statement's values in their own internal order.
pub open spec fn assignment_values(item: SetFieldUpdate) -> Seq<SqlValue> {
    match item.value {
        SetValue::Value(v) => seq![v],
        SetValue::Query(sb) => sb.values@,
    }
}

/// Whether an assignment's nested select, if any, was built under the
/// generic marker notation.  Nested statements are substituted once, at the
/// outermost assembly, so any other notation is rejected.
pub open spec fn assignment_generic(item: SetFieldUpdate) -> bool {
    match item.value {
        SetValue::Query(sb) => sb.placeholder_kind == PlaceholderKind::QuestionMark,
        SetValue::Value(_) => true,
    }
}

/// Whether every assignment of the list satisfies [`assignment_generic`].
pub open spec fn all_assignments_generic(items: Seq<SetFieldUpdate>) -> bool {
    forall|i: int| 0 <= i < items.len() ==> assignment_generic(#[trigger] items[i])
}

/// The assignments' fragments joined with `, `.
pub open spec fn assignments_text(items: Seq<SetFieldUpdate>) -> Seq<char>
    decreases items.len(),
{
    if items.len() == 0 {
        Seq::empty()
    } else if items.len() == 1 {
        assignment_text(items[0])
    } else {
        assignments_text(items.drop_last()) + ", "@ + assignment_text(items.last())
    }
}

/// The assignments' bound values concatenated in assignment order.
pub open spec fn assignments_values(items: Seq<SetFieldUpdate>) -> Seq<SqlValue>
    decreases items.len(),
{
    if items.len() == 0 {
        Seq::empty()
    } else {
        assignments_values(items.drop_last()) + assignment_values(items.last())
    }
}

/// The full text of a `SET` clause built from `items`.
pub open spec fn set_statement_text(items: Seq<SetFieldUpdate>) -> Seq<char> {
    "SET "@ + assignments_text(items)
}

/// Whether one assignment's fragment carries exactly one marker per bound
/// value: its field name is marker-free and, for a nested select, the
/// nested statement's own text is aligned with its value list.
pub open spec fn assignment_aligned(item: SetFieldUpdate) -> bool {
    &&& marker_free(item.field@)
    &&& match item.value {
        SetValue::Query(sb) => marker_count(select_built_text(sb)) == sb.values@.len(),
        SetValue::Value(_) => true,
    }
}

/// An aligned assignment's fragment holds exactly as many markers as the
/// assignment binds values.
proof fn lemma_assignment_marker_count(item: SetFieldUpdate)
    requires
        assignment_aligned(item),
    ensures
        marker_count(assignment_text(item)) == assignment_values(item).len(),
{
    lemma_marker_free_count(item.field@);
    match item.value {
        SetValue::Value(_) => {
            reveal_strlit(" = ?");
            let s = " = ?"@;
            assert(marker_count(s.drop_first().drop_first().drop_first().drop_first()) == 0);
            assert(marker_count(s.drop_first().drop_first().drop_first()) == 1);
            assert(marker_count(s.drop_first().drop_first()) == 1);
            assert(marker_count(s.drop_first()) == 1);
            assert(marker_count(s) == 1);
            lemma_marker_count_concat(item.field@, " = ?"@);
        },
        SetValue::Query(sb) => {
            reveal_strlit(" = (");
            reveal_strlit(")");
            lemma_marker_free_count(" = ("@);
            lemma_marker_free_count(")"@);
            lemma_marker_count_concat(item.field@, " = ("@);
            lemma_marker_count_concat(item.field@ + " = ("@, select_built_text(sb));
            lemma_marker_count_concat(item.field@ + " = ("@ + select_built_text(sb), ")"@);
        },
    }
}

/// The comma-joined assignment fragments hold exactly as many markers as
/// the assignments bind values.
proof fn lemma_assignments_marker_alignment(items: Seq<SetFieldUpdate>)
    requires
        forall|i: int| 0 <= i < items.len() ==> assignment_aligned(#[trigger] items[i]),
    ensures
        marker_count(assignments_text(items)) == assignments_values(items).len(),
    decreases items.len(),
{
    if items.len() == 0 {
        lemma_marker_free_count(Seq::<char>::empty());
    } else if items.len() == 1 {
        lemma_assignment_marker_count(items[0]);
        assert(assignments_values(items.drop_last()) =~= Seq::<SqlValue>::empty());
    } else {
        assert forall|i: int| 0 <= i < items.drop_last().len() implies assignment_aligned(
            #[trigger] items.drop_last()[i],
        ) by {
            assert(items.drop_last()[i] == items[i]);
        }
        lemma_assignments_marker_alignment(items.drop_last());
        lemma_assignment_marker_count(items.last());
        reveal_strlit(", ");
        lemma_marker_free_count(", "@);
        let body = assignments_text(items.drop_last());
        lemma_marker_count_concat(body, ", "@);
        lemma_marker_count_concat(body + ", "@, assignment_text(items.last()));
    }
}

/// Law: when every assignment is aligned, the whole `SET` clause holds
/// exactly as many generic markers as it binds values — a nested select's
/// values splice in at the position of that assignment's markers.
pub proof fn lemma_set_clause_marker_alignment(items: Seq<SetFieldUpdate>)
    requires
        forall|i: int| 0 <= i < items.len() ==> assignment_aligned(#[trigger] items[i]),
    ensures
        marker_count(set_statement_text(items)) == assignments_values(items).len(),
{
    lemma_assignments_marker_alignment(items);
    reveal_strlit("SET ");
    lemma_marker_free_count("SET "@);
    lemma_marker_count_concat("SET "@, assignments_text(items));
}

impl SetBuilder {
    /// Renders the assignment clause.  Fails, at the first such assignment,
    /// exactly when a right-hand side is a nested select built under a
    /// notation other than the generic marker; a nested select's values
    /// splice into the clause's value list at the assignment's position.
    pub fn build(items: Vec<SetFieldUpdate>) -> (r: Result<Self, ValidationError>)
        ensures
            !all_assignments_generic(items@) ==> r == Err::<SetBuilder, ValidationError>(
                ValidationError::NestedQueryNotGeneric,
            ),
            all_assignments_generic(items@) ==> (r matches Ok(b) && b.statement@
                == set_statement_text(items@) && b.values@ == assignments_values(items@)),
    {
        let ghost its = items@;
        let mut rest = items;
        let total = rest.len();
        let mut text = String::new();
        let mut vals: Vec<SqlValue> = Vec::new();
        let mut i: usize = 0;
        proof {
            assert(its.subrange(0, 0) =~= Seq::<SetFieldUpdate>::empty());
        }
        while rest.len() > 0
            invariant
                its == items@,
                its.len() == total,
                i + rest@.len() == its.len(),
                rest@ == its.subrange(i as int, its.len() as int),
                forall|j: int| 0 <= j < i ==> assignment_generic(#[trigger] its[j]),
                text@ == assignments_text(its.subrange(0, i as int)),
                vals@ == assignments_values(its.subrange(0, i as int)),
            decreases rest@.len(),
        {
            let item = rest.remove(0);
            proof {
                assert(item == its[i as int]);
                assert(rest@ =~= its.subrange(i as int + 1, its.len() as int));
            }
            if i > 0 {
                text.append(", ");
            }
            let SetFieldUpdate { field, value } = item;
            match value {
                SetValue::Value(v) => {
                    text.append(field.as_str());
                    text.append(" = ?");
                    vals.push(v);
                },
                SetValue::Query(selected_builder) => {
                    if selected_builder.placeholder_kind != PlaceholderKind::QuestionMark {
                        proof {
                            assert(!assignment_generic(its[i as int]));
                        }
                        return Err(ValidationError::NestedQueryNotGeneric);
                    }
                    let result = match selected_builder.build() {
                        Ok(t) => t,
                        Err(e) => {
                            return Err(e);
                        },
                    };
                    text.append(field.as_str());
                    text.append(" = (");
                    text.append(result.as_str());
                    text.append(")");
                    let mut sb_values = selected_builder.values;
                    vals.append(&mut sb_values);
                },
            }
            proof {
                let sub1 = its.subrange(0, i as int + 1);
                assert(sub1.last() == its[i as int]);
                if i == 0 {
                    assert(sub1.len() == 1);
                    assert(sub1[0] == its[0]);
                    assert(sub1.drop_last() =~= its.subrange(0, 0));
                } else {
                    assert(sub1.drop_last() =~= its.subrange(0, i as int));
                }
                assert(text@ =~= assignments_text(sub1));
                assert(vals@ =~= assignments_values(sub1));
            }
            i += 1;
        }
        proof {
            assert(its.subrange(0, its.len() as int) =~= its);
        }
        let mut statement = "SET ".to_owned();
        statement.append(text.as_str());
        Ok(SetBuilder { statement, values: vals })
    }
}

} // verus!
