//! An ordered sequence of conditions folded into one text fragment plus the
//! flattened list of bound values, in textual order.

use crate::error::ValidationError;
use crate::postgres::condition_builder::{
    condition_contrib, condition_marker_clean, condition_text, lemma_condition_marker_alignment,
    ConditionBuilder, ConditionValue,
};
use crate::postgres::logic::{lemma_opt_logic_marker_free, opt_logic_text, Logic};
use crate::text::{join_with, lemma_marker_count_concat, lemma_marker_free_count, marker_count};
use crate::value::SqlValue;
use vstd::prelude::*;

verus! {

/// One boolean expression: the folded condition text, the connective that
/// governs how the whole expression is prefixed when grouped with siblings,
/// and the bound values in textual order.
#[derive(Debug, Clone)]
pub struct ExpressionBuilder {
    pub condition: String,
    pub logic: Option<Logic>,
    pub values: Vec<SqlValue>,
}

/// The fold of the conditions' fragments, space-separated.  The first
/// condition's own connective prefix, when present, is kept verbatim.
pub open spec fn conditions_text(cs: Seq<ConditionBuilder>) -> Seq<char>
    decreases cs.len(),
{
    if cs.len() == 0 {
        Seq::empty()
    } else if cs.len() == 1 {
        condition_text(cs[0])
    } else {
        conditions_text(cs.drop_last()) + " "@ + condition_text(cs.last())
    }
}

/// The concatenation of the conditions' bound-value contributions, in
/// condition order.
pub open spec fn conditions_values(cs: Seq<ConditionBuilder>) -> Seq<SqlValue>
    decreases cs.len(),
{
    if cs.len() == 0 {
        Seq::empty()
    } else {
        conditions_values(cs.drop_last()) + condition_contrib(cs.last())
    }
}

/// Whether every condition of the list carries a non-empty field name.
pub open spec fn all_fields_nonempty(cs: Seq<ConditionBuilder>) -> bool {
    forall|i: int| 0 <= i < cs.len() ==> #[trigger] cs[i].field@.len() > 0
}

/// Law: for every condition list whose conditions are marker-clean, the
/// number of generic markers in the folded expression text equals the number
/// of bound values the list contributes — a field reference contributes
/// none, a single value one, a range two.
pub proof fn lemma_expression_marker_alignment(cs: Seq<ConditionBuilder>)
    requires
        forall|i: int| 0 <= i < cs.len() ==> condition_marker_clean(#[trigger] cs[i]),
    ensures
        marker_count(conditions_text(cs)) == conditions_values(cs).len(),
    decreases cs.len(),
{
    if cs.len() == 0 {
        lemma_marker_free_count(Seq::<char>::empty());
    } else if cs.len() == 1 {
        lemma_condition_marker_alignment(cs[0]);
        assert(conditions_values(cs.drop_last()) =~= Seq::<SqlValue>::empty());
    } else {
        lemma_expression_marker_alignment(cs.drop_last());
        lemma_condition_marker_alignment(cs.last());
        reveal_strlit(" ");
        lemma_marker_free_count(" "@);
        lemma_marker_count_concat(conditions_text(cs.drop_last()), " "@);
        lemma_marker_count_concat(conditions_text(cs.drop_last()) + " "@, condition_text(cs.last()));
    }
}

/// One expression fragment as it appears inside a grouped clause: wrapped
/// `CONNECTIVE (text)` when more than one expression is combined, the bare
/// text otherwise.
pub open spec fn grouped_fragment_text(
    condition: Seq<char>,
    logic: Option<Logic>,
    grouping: bool,
) -> Seq<char> {
    if grouping {
        opt_logic_text(logic) + " ("@ + condition + ")"@
    } else {
        condition
    }
}

/// The body of a grouped clause: the expressions' fragments, wrapped when
/// `grouping` holds, joined by single spaces.
pub open spec fn grouped_expressions_text(es: Seq<ExpressionBuilder>, grouping: bool) -> Seq<char>
    decreases es.len(),
{
    if es.len() == 0 {
        Seq::empty()
    } else if es.len() == 1 {
        grouped_fragment_text(es[0].condition@, es[0].logic, grouping)
    } else {
        grouped_expressions_text(es.drop_last(), grouping) + " "@ + grouped_fragment_text(
            es.last().condition@,
            es.last().logic,
            grouping,
        )
    }
}

/// The bound values of a grouped clause: the expressions' value lists
/// concatenated in expression order.
pub open spec fn expressions_values(es: Seq<ExpressionBuilder>) -> Seq<SqlValue>
    decreases es.len(),
{
    if es.len() == 0 {
        Seq::empty()
    } else {
        expressions_values(es.drop_last()) + es.last().values@
    }
}

/// Law: a clause built from two or more expressions wraps each expression's
/// text in exactly one parenthesis pair, prefixed by the expression's own
/// connective text (or by nothing when it is unset); a clause built from
/// exactly one expression passes its text through with no parentheses added.
pub proof fn lemma_grouped_clause_shape(es: Seq<ExpressionBuilder>)
    ensures
        es.len() == 1 ==> grouped_expressions_text(es, es.len() > 1) == es[0].condition@,
        es.len() >= 2 ==> grouped_expressions_text(es, es.len() > 1) == join_with(
            Seq::new(
                es.len(),
                |i: int| (opt_logic_text(es[i].logic) + " ("@ + es[i].condition@ + ")"@),
            ),
            " "@,
        ),
{
    if es.len() >= 2 {
        lemma_grouped_matches_join(es);
    }
}

/// The recursive clause-body fold coincides, under grouping, with a join of
/// the individually wrapped fragments.
proof fn lemma_grouped_matches_join(es: Seq<ExpressionBuilder>)
    requires
        es.len() >= 1,
    ensures
        grouped_expressions_text(es, true) == join_with(
            Seq::new(
                es.len(),
                |i: int| (opt_logic_text(es[i].logic) + " ("@ + es[i].condition@ + ")"@),
            ),
            " "@,
        ),
    decreases es.len(),
{
    let wrapped = Seq::new(
        es.len(),
        |i: int| (opt_logic_text(es[i].logic) + " ("@ + es[i].condition@ + ")"@),
    );
    if es.len() == 1 {
        assert(join_with(wrapped, " "@) == wrapped[0]);
    } else {
        lemma_grouped_matches_join(es.drop_last());
        let prev = Seq::new(
            es.drop_last().len(),
            |i: int| (opt_logic_text(es.drop_last()[i].logic) + " ("@ + es.drop_last()[i].condition@
                + ")"@),
        );
        assert(wrapped.drop_last() =~= prev);
        assert(join_with(wrapped, " "@) == join_with(wrapped.drop_last(), " "@) + " "@
            + wrapped.last());
    }
}

/// Wrapping a fragment for grouping adds no marker: the connective and the
/// parentheses are marker-free decorations.
proof fn lemma_grouped_fragment_marker_count(
    condition: Seq<char>,
    logic: Option<Logic>,
    grouping: bool,
)
    ensures
        marker_count(grouped_fragment_text(condition, logic, grouping)) == marker_count(condition),
{
    if grouping {
        reveal_strlit(" (");
        reveal_strlit(")");
        lemma_opt_logic_marker_free(logic);
        lemma_marker_free_count(opt_logic_text(logic));
        lemma_marker_free_count(" ("@);
        lemma_marker_free_count(")"@);
        lemma_marker_count_concat(opt_logic_text(logic), " ("@);
        lemma_marker_count_concat(opt_logic_text(logic) + " ("@, condition);
        lemma_marker_count_concat(opt_logic_text(logic) + " ("@ + condition, ")"@);
    }
}

/// The body of a grouped clause holds exactly as many markers as its
/// expressions bind values, provided each expression's own text does.
pub proof fn lemma_grouped_body_marker_alignment(es: Seq<ExpressionBuilder>, grouping: bool)
    requires
        forall|i: int|
            0 <= i < es.len() ==> marker_count(#[trigger] es[i].condition@) == es[i].values@.len(),
    ensures
        marker_count(grouped_expressions_text(es, grouping)) == expressions_values(es).len(),
    decreases es.len(),
{
    if es.len() == 0 {
        lemma_marker_free_count(Seq::<char>::empty());
    } else if es.len() == 1 {
        lemma_grouped_fragment_marker_count(es[0].condition@, es[0].logic, grouping);
        assert(expressions_values(es.drop_last()) =~= Seq::<SqlValue>::empty());
    } else {
        assert forall|i: int| 0 <= i < es.drop_last().len() implies marker_count(
            #[trigger] es.drop_last()[i].condition@,
        ) == es.drop_last()[i].values@.len() by {
            assert(es.drop_last()[i] == es[i]);
        }
        lemma_grouped_body_marker_alignment(es.drop_last(), grouping);
        lemma_grouped_fragment_marker_count(es.last().condition@, es.last().logic, grouping);
        reveal_strlit(" ");
        lemma_marker_free_count(" "@);
        let body = grouped_expressions_text(es.drop_last(), grouping);
        lemma_marker_count_concat(body, " "@);
        lemma_marker_count_concat(
            body + " "@,
            grouped_fragment_text(es.last().condition@, es.last().logic, grouping),
        );
    }
}

/// Wraps one expression fragment for combination with its siblings.
pub fn format_grouped(condition: String, logic: Option<Logic>, do_grouping: bool) -> (r: String)
    ensures
        r@ == grouped_fragment_text(condition@, logic, do_grouping),
{
    if do_grouping {
        let mut s = match &logic {
            Some(l) => l.sql_str().to_owned(),
            None => String::new(),
        };
        s.append(" (");
        s.append(condition.as_str());
        s.append(")");
        proof {
            assert(s@ =~= grouped_fragment_text(condition@, logic, do_grouping));
        }
        s
    } else {
        condition
    }
}

/// Folds an expression list into a clause body and its bound values, in
/// expression order.
pub fn fold_grouped(values: Vec<ExpressionBuilder>, do_grouping: bool) -> (r: (
    String,
    Vec<SqlValue>,
))
    ensures
        r.0@ == grouped_expressions_text(values@, do_grouping),
        r.1@ == expressions_values(values@),
{
    let ghost es = values@;
    let mut items = values;
    let total = items.len();
    let mut text = String::new();
    let mut vals: Vec<SqlValue> = Vec::new();
    let mut i: usize = 0;
    proof {
        assert(es.subrange(0, 0) =~= Seq::<ExpressionBuilder>::empty());
    }
    while items.len() > 0
        invariant
            es == values@,
            es.len() == total,
            i + items@.len() == es.len(),
            items@ == es.subrange(i as int, es.len() as int),
            text@ == grouped_expressions_text(es.subrange(0, i as int), do_grouping),
            vals@ == expressions_values(es.subrange(0, i as int)),
        decreases items@.len(),
    {
        let item = items.remove(0);
        proof {
            assert(item == es[i as int]);
            assert(items@ =~= es.subrange(i as int + 1, es.len() as int));
        }
        let ExpressionBuilder { condition, logic, values: mut item_values } = item;
        let fragment = format_grouped(condition, logic, do_grouping);
        if i > 0 {
            text.append(" ");
        }
        text.append(fragment.as_str());
        vals.append(&mut item_values);
        proof {
            let sub1 = es.subrange(0, i as int + 1);
            assert(sub1.last() == es[i as int]);
            if i == 0 {
                assert(sub1.len() == 1);
                assert(sub1[0] == es[0]);
                assert(sub1.drop_last() =~= es.subrange(0, 0));
            } else {
                assert(sub1.drop_last() =~= es.subrange(0, i as int));
            }
            assert(text@ =~= grouped_expressions_text(sub1, do_grouping));
            assert(vals@ =~= expressions_values(sub1));
        }
        i += 1;
    }
    proof {
        assert(es.subrange(0, es.len() as int) =~= es);
    }
    (text, vals)
}

impl ExpressionBuilder {
    /// Folds an ordered condition list into one expression.  Fails, with the
    /// first failure, exactly when some condition carries an empty field
    /// name; nothing is partially applied.
    pub fn build(values: Vec<ConditionBuilder>, logic: Option<Logic>) -> (r: Result<
        ExpressionBuilder,
        ValidationError,
    >)
        ensures
            !all_fields_nonempty(values@) ==> r == Err::<ExpressionBuilder, ValidationError>(
                ValidationError::EmptyField,
            ),
            all_fields_nonempty(values@) ==> (r matches Ok(e) && e.condition@ == conditions_text(
                values@,
            ) && e.logic == logic && e.values@ == conditions_values(values@)),
    {
        let ghost cs = values@;
        let mut items = values;
        let total = items.len();
        let mut text = String::new();
        let mut vals: Vec<SqlValue> = Vec::new();
        let mut i: usize = 0;
        proof {
            assert(cs.subrange(0, 0) =~= Seq::<ConditionBuilder>::empty());
        }
        while items.len() > 0
            invariant
                cs == values@,
                cs.len() == total,
                i + items@.len() == cs.len(),
                items@ == cs.subrange(i as int, cs.len() as int),
                forall|j: int| 0 <= j < i ==> #[trigger] cs[j].field@.len() > 0,
                text@ == conditions_text(cs.subrange(0, i as int)),
                vals@ == conditions_values(cs.subrange(0, i as int)),
            decreases items@.len(),
        {
            let item = items.remove(0);
            proof {
                assert(item == cs[i as int]);
                assert(items@ =~= cs.subrange(i as int + 1, cs.len() as int));
            }
            let fragment = match ConditionBuilder::build(&item) {
                Ok(f) => f,
                Err(e) => {
                    proof {
                        assert(cs[i as int].field@.len() == 0);
                        assert(!all_fields_nonempty(values@));
                    }
                    return Err(e);
                },
            };
            if i > 0 {
                text.append(" ");
            }
            text.append(fragment.as_str());
            if let Some(condition_value) = item.value {
                // Every shape is matched so that no contribution can be
                // passed over silently.
                match condition_value {
                    ConditionValue::Single(value) => {
                        vals.push(value);
                    },
                    ConditionValue::Range(value1, value2) => {
                        vals.push(value1);
                        vals.push(value2);
                    },
                    ConditionValue::Field(_, _) => {},
                }
            }
            proof {
                let sub1 = cs.subrange(0, i as int + 1);
                assert(sub1.last() == cs[i as int]);
                if i == 0 {
                    assert(sub1.len() == 1);
                    assert(sub1[0] == cs[0]);
                    assert(sub1.drop_last() =~= cs.subrange(0, 0));
                } else {
                    assert(sub1.drop_last() =~= cs.subrange(0, i as int));
                }
                assert(text@ =~= conditions_text(sub1));
                assert(vals@ =~= conditions_values(sub1));
            }
            i += 1;
        }
        proof {
            assert(cs.subrange(0, cs.len() as int) =~= cs);
        }
        Ok(ExpressionBuilder { condition: text, logic, values: vals })
    }
}

} // verus!
