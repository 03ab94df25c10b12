//! The closed set of condition operators and their SQL renderings.

use crate::text::marker_free;
use vstd::prelude::*;

verus! {

/// A condition operator.  The JSONB document operators come last; note that
/// four of them render text that contains the generic `?` marker character
/// (see [`operator_reuses_marker`]).
#[derive(Clone, Copy, Debug, PartialEq, Eq, Structural)]
pub enum Operator {
    // Equality
    Eq,
    Neq,
    // Comparison
    Gt,
    Gte,
    Lt,
    Lte,
    // Pattern matching
    Like,
    // List membership
    In,
    NotIn,
    // Null checks
    IsNull,
    NotNull,
    // Range
    Between,
    // JSONB document operators
    JsonbValue,
    JsonbValueAsText,
    JsonbContains,
    JsonbContained,
    JsonbHasKey,
    JsonbHasAnyKeys,
    JsonbHasAllKeys,
    JsonbConcatenate,
    JsonbRemoveKey,
    JsonbRemovePath,
    JsonbHasPath,
    JsonbPathExists,
}

/// The SQL text of an operator.
pub open spec fn operator_text(op: Operator) -> Seq<char> {
    match op {
        Operator::Eq => "="@,
        Operator::Neq => "!="@,
        Operator::Gt => ">"@,
        Operator::Gte => ">="@,
        Operator::Lt => "<"@,
        Operator::Lte => "<="@,
        Operator::Like => "LIKE"@,
        Operator::In => "IN"@,
        Operator::NotIn => "NOT IN"@,
        Operator::IsNull => "IS NULL"@,
        Operator::NotNull => "IS NOT NULL"@,
        Operator::Between => "BETWEEN"@,
        Operator::JsonbValue => "->"@,
        Operator::JsonbValueAsText => "->>"@,
        Operator::JsonbContains => "@>"@,
        Operator::JsonbContained => "<@"@,
        Operator::JsonbHasKey => "?"@,
        Operator::JsonbHasAnyKeys => "?|"@,
        Operator::JsonbHasAllKeys => "?&"@,
        Operator::JsonbConcatenate => "||"@,
        Operator::JsonbRemoveKey => "-"@,
        Operator::JsonbRemovePath => "#-"@,
        Operator::JsonbHasPath => "@?"@,
        Operator::JsonbPathExists => "@@"@,
    }
}

/// Whether the operator's rendered text reuses the generic `?` marker
/// character.  Combining such an operator with the sequential notation
/// rewrites the operator text itself, so the marker-count laws exclude
/// these operators.
pub open spec fn operator_reuses_marker(op: Operator) -> bool {
    ||| op == Operator::JsonbHasKey
    ||| op == Operator::JsonbHasAnyKeys
    ||| op == Operator::JsonbHasAllKeys
    ||| op == Operator::JsonbHasPath
}

/// The rendering of every other operator is free of the marker character.
pub proof fn lemma_operator_marker_free(op: Operator)
    requires
        !operator_reuses_marker(op),
    ensures
        marker_free(operator_text(op)),
{
    match op {
        Operator::Eq => {
            reveal_strlit("=");
            assert(marker_free("="@));
        },
        Operator::Neq => {
            reveal_strlit("!=");
            assert(marker_free("!="@));
        },
        Operator::Gt => {
            reveal_strlit(">");
            assert(marker_free(">"@));
        },
        Operator::Gte => {
            reveal_strlit(">=");
            assert(marker_free(">="@));
        },
        Operator::Lt => {
            reveal_strlit("<");
            assert(marker_free("<"@));
        },
        Operator::Lte => {
            reveal_strlit("<=");
            assert(marker_free("<="@));
        },
        Operator::Like => {
            reveal_strlit("LIKE");
            assert(marker_free("LIKE"@));
        },
        Operator::In => {
            reveal_strlit("IN");
            assert(marker_free("IN"@));
        },
        Operator::NotIn => {
            reveal_strlit("NOT IN");
            assert(marker_free("NOT IN"@));
        },
        Operator::IsNull => {
            reveal_strlit("IS NULL");
            assert(marker_free("IS NULL"@));
        },
        Operator::NotNull => {
            reveal_strlit("IS NOT NULL");
            assert(marker_free("IS NOT NULL"@));
        },
        Operator::Between => {
            reveal_strlit("BETWEEN");
            assert(marker_free("BETWEEN"@));
        },
        Operator::JsonbValue => {
            reveal_strlit("->");
            assert(marker_free("->"@));
        },
        Operator::JsonbValueAsText => {
            reveal_strlit("->>");
            assert(marker_free("->>"@));
        },
        Operator::JsonbContains => {
            reveal_strlit("@>");
            assert(marker_free("@>"@));
        },
        Operator::JsonbContained => {
            reveal_strlit("<@");
            assert(marker_free("<@"@));
        },
        Operator::JsonbConcatenate => {
            reveal_strlit("||");
            assert(marker_free("||"@));
        },
        Operator::JsonbRemoveKey => {
            reveal_strlit("-");
            assert(marker_free("-"@));
        },
        Operator::JsonbRemovePath => {
            reveal_strlit("#-");
            assert(marker_free("#-"@));
        },
        Operator::JsonbPathExists => {
            reveal_strlit("@@");
            assert(marker_free("@@"@));
        },
        _ => {
        },
    }
}

impl Operator {
    /// The exec counterpart of [`operator_text`].
    pub fn sql_str(&self) -> (r: &'static str)
        ensures
            r@ == operator_text(*self),
    {
        match self {
            Operator::Eq => "=",
            Operator::Neq => "!=",
            Operator::Gt => ">",
            Operator::Gte => ">=",
            Operator::Lt => "<",
            Operator::Lte => "<=",
            Operator::Like => "LIKE",
            Operator::In => "IN",
            Operator::NotIn => "NOT IN",
            Operator::IsNull => "IS NULL",
            Operator::NotNull => "IS NOT NULL",
            Operator::Between => "BETWEEN",
            Operator::JsonbValue => "->",
            Operator::JsonbValueAsText => "->>",
            Operator::JsonbContains => "@>",
            Operator::JsonbContained => "<@",
            Operator::JsonbHasKey => "?",
            Operator::JsonbHasAnyKeys => "?|",
            Operator::JsonbHasAllKeys => "?&",
            Operator::JsonbConcatenate => "||",
            Operator::JsonbRemoveKey => "-",
            Operator::JsonbRemovePath => "#-",
            Operator::JsonbHasPath => "@?",
            Operator::JsonbPathExists => "@@",
        }
    }
}

} // verus!
