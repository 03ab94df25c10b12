//! The join-clause grouping combinator: one or more expressions combined
//! into a single `JOIN ... ON` clause.

use crate::postgres::expression_builder::{
    expressions_values, fold_grouped, grouped_expressions_text,
    lemma_grouped_body_marker_alignment, ExpressionBuilder,
};
use crate::text::{
    lemma_marker_count_concat, lemma_marker_free_count, lemma_trim_marker_count, marker_count,
    marker_free, trim_spec, trim_string,
};
use crate::value::SqlValue;
use vstd::prelude::*;

verus! {

/// The kind of a join.
#[derive(Clone, Copy, Debug, PartialEq, Eq, Structural)]
pub enum JoinKind {
    Inner,
    Left,
    Right,
    Full,
    Cross,
}

/// The SQL text of a join kind.
pub open spec fn join_kind_text(k: JoinKind) -> Seq<char> {
    match k {
        JoinKind::Inner => "INNER"@,
        JoinKind::Left => "LEFT"@,
        JoinKind::Right => "RIGHT"@,
        JoinKind::Full => "FULL"@,
        JoinKind::Cross => "CROSS"@,
    }
}

impl JoinKind {
    /// The exec counterpart of [`join_kind_text`].
    pub fn sql_str(&self) -> (r: &'static str)
        ensures
            r@ == join_kind_text(*self),
    {
        match self {
            JoinKind::Inner => "INNER",
            JoinKind::Left => "LEFT",
            JoinKind::Right => "RIGHT",
            JoinKind::Full => "FULL",
            JoinKind::Cross => "CROSS",
        }
    }
}

/// A rendered join clause and the values it binds.
#[derive(Debug, Clone)]
pub struct JoinBuilder {
    pub statement: String,
    pub values: Vec<SqlValue>,
}

/// The full text of a join clause: the kind, the joined table with its
/// alias, and the combined `ON` conditions.
pub open spec fn join_statement_text(
    kind: JoinKind,
    table: Seq<char>,
    table_alias: Seq<char>,
    es: Seq<ExpressionBuilder>,
) -> Seq<char> {
    join_kind_text(kind) + " JOIN "@ + table + " as "@ + table_alias + " ON "@ + trim_spec(
        grouped_expressions_text(es, es.len() > 1),
    )
}

/// The rendering of a join kind is free of the marker character.
proof fn lemma_join_kind_marker_free(k: JoinKind)
    ensures
        marker_free(join_kind_text(k)),
{
    reveal_strlit("INNER");
    reveal_strlit("LEFT");
    reveal_strlit("RIGHT");
    reveal_strlit("FULL");
    reveal_strlit("CROSS");
    match k {
        JoinKind::Inner => {
            assert(marker_free("INNER"@));
        },
        JoinKind::Left => {
            assert(marker_free("LEFT"@));
        },
        JoinKind::Right => {
            assert(marker_free("RIGHT"@));
        },
        JoinKind::Full => {
            assert(marker_free("FULL"@));
        },
        JoinKind::Cross => {
            assert(marker_free("CROSS"@));
        },
    }
}

/// Law: when the joined table's name and alias are marker-free and each
/// expression's text holds exactly as many generic markers as the
/// expression binds values, so does the whole join clause.
pub proof fn lemma_join_clause_marker_alignment(
    kind: JoinKind,
    table: Seq<char>,
    table_alias: Seq<char>,
    es: Seq<ExpressionBuilder>,
)
    requires
        marker_free(table),
        marker_free(table_alias),
        forall|i: int|
            0 <= i < es.len() ==> marker_count(#[trigger] es[i].condition@) == es[i].values@.len(),
    ensures
        marker_count(join_statement_text(kind, table, table_alias, es)) == expressions_values(
            es,
        ).len(),
{
    lemma_grouped_body_marker_alignment(es, es.len() > 1);
    let body = grouped_expressions_text(es, es.len() > 1);
    lemma_trim_marker_count(body);
    reveal_strlit(" JOIN ");
    reveal_strlit(" as ");
    reveal_strlit(" ON ");
    lemma_join_kind_marker_free(kind);
    lemma_marker_free_count(join_kind_text(kind));
    lemma_marker_free_count(" JOIN "@);
    lemma_marker_free_count(table);
    lemma_marker_free_count(" as "@);
    lemma_marker_free_count(table_alias);
    lemma_marker_free_count(" ON "@);
    let p1 = join_kind_text(kind);
    let p2 = p1 + " JOIN "@;
    let p3 = p2 + table;
    let p4 = p3 + " as "@;
    let p5 = p4 + table_alias;
    let p6 = p5 + " ON "@;
    lemma_marker_count_concat(p1, " JOIN "@);
    lemma_marker_count_concat(p2, table);
    lemma_marker_count_concat(p3, " as "@);
    lemma_marker_count_concat(p4, table_alias);
    lemma_marker_count_concat(p5, " ON "@);
    lemma_marker_count_concat(p6, trim_spec(body));
}

impl JoinBuilder {
    /// Combines the expressions into one join clause.  The grouping rule and
    /// the value order are those of the filter combinator; the clause is
    /// prefixed with `KIND JOIN table as alias ON `.
    pub fn build(
        kind: JoinKind,
        table: &str,
        table_alias: &str,
        values: Vec<ExpressionBuilder>,
    ) -> (r: JoinBuilder)
        ensures
            r.statement@ == join_statement_text(kind, table@, table_alias@, values@),
            r.values@ == expressions_values(values@),
    {
        let do_grouping = values.len() > 1;
        let (body, vals) = fold_grouped(values, do_grouping);
        let trimmed = trim_string(body.as_str());
        let mut statement = kind.sql_str().to_owned();
        statement.append(" JOIN ");
        statement.append(table);
        statement.append(" as ");
        statement.append(table_alias);
        statement.append(" ON ");
        statement.append(trimmed.as_str());
        proof {
            assert(statement@ =~= join_statement_text(kind, table@, table_alias@, values@));
        }
        JoinBuilder { statement, values: vals }
    }
}

} // verus!
