//! The filter-clause grouping combinator: one or more expressions combined
//! into a single `WHERE` clause.

use crate::postgres::expression_builder::{
    expressions_values, fold_grouped, grouped_expressions_text,
    lemma_grouped_body_marker_alignment, ExpressionBuilder,
};
use crate::text::{
    lemma_marker_count_concat, lemma_marker_free_count, lemma_trim_marker_count, marker_count,
    trim_spec, trim_string,
};
use crate::value::SqlValue;
use vstd::prelude::*;

verus! {

/// A rendered filter clause and the values it binds.
#[derive(Debug, Clone)]
pub struct WhereBuilder {
    pub statement: String,
    pub values: Vec<SqlValue>,
}

/// The full text of a filter clause built from `es`.
pub open spec fn where_statement_text(es: Seq<ExpressionBuilder>) -> Seq<char> {
    "WHERE "@ + trim_spec(grouped_expressions_text(es, es.len() > 1))
}

/// Law: when each expression's text holds exactly as many generic markers
/// as the expression binds values, so does the whole `WHERE` clause — its
/// value list lines up, position for position, with the markers as they
/// appear left to right in the clause text.
pub proof fn lemma_where_clause_marker_alignment(es: Seq<ExpressionBuilder>)
    requires
        forall|i: int|
            0 <= i < es.len() ==> marker_count(#[trigger] es[i].condition@) == es[i].values@.len(),
    ensures
        marker_count(where_statement_text(es)) == expressions_values(es).len(),
{
    lemma_grouped_body_marker_alignment(es, es.len() > 1);
    let body = grouped_expressions_text(es, es.len() > 1);
    lemma_trim_marker_count(body);
    reveal_strlit("WHERE ");
    lemma_marker_free_count("WHERE "@);
    lemma_marker_count_concat("WHERE "@, trim_spec(body));
}

impl WhereBuilder {
    /// Combines the expressions into one `WHERE` clause.  Each expression is
    /// wrapped in parentheses, with its connective prefix, exactly when more
    /// than one expression is combined; the bound values concatenate in
    /// expression order, matching the left-to-right order of the markers in
    /// the clause text.
    pub fn build(values: Vec<ExpressionBuilder>) -> (r: WhereBuilder)
        ensures
            r.statement@ == where_statement_text(values@),
            r.values@ == expressions_values(values@),
    {
        let do_grouping = values.len() > 1;
        let (body, vals) = fold_grouped(values, do_grouping);
        let trimmed = trim_string(body.as_str());
        let mut statement = "WHERE ".to_owned();
        statement.append(trimmed.as_str());
        WhereBuilder { statement, values: vals }
    }
}

} // verus!
