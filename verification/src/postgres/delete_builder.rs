//! The delete statement assembler: table, auxiliary table, filter and
//! returning list concatenated in canonical order, then substituted once.

use crate::error::ValidationError;
use crate::placeholder::{apply_placeholders, substituted, PlaceholderKind};
use crate::postgres::expression_builder::{expressions_values, ExpressionBuilder};
use crate::postgres::returning_text;
use crate::postgres::where_builder::{where_statement_text, WhereBuilder};
use crate::text::{
    join_strs, lemma_marker_count_concat, lemma_marker_free_count, marker_count, marker_free,
    trim_spec, trim_string,
};
use crate::value::SqlValue;
use vstd::prelude::*;

verus! {

/// A delete statement under construction.
#[derive(Debug, Clone)]
pub struct DeleteBuilder {
    pub table: String,
    pub values: Vec<SqlValue>,
    pub using_table: Option<String>,
    pub filter_statement: Option<String>,
    pub returning_statement: Option<String>,
    pub placeholder_kind: PlaceholderKind,
}

/// A table reference with an optional alias, rendered `table as alias`.
pub open spec fn aliased_table_text(table: Seq<char>, alias: Option<&str>) -> Seq<char> {
    match alias {
        Some(a) => table + " as "@ + a@,
        None => table,
    }
}

/// The statement text before substitution: the populated clause slots
/// concatenated in the delete's canonical order — table, auxiliary table,
/// filter, returning.
pub open spec fn delete_core_text(b: DeleteBuilder) -> Seq<char> {
    let head = "DELETE FROM "@ + b.table@;
    let with_using = match b.using_table {
        Some(s) => head + " "@ + s@,
        None => head,
    };
    let with_filter = match b.filter_statement {
        Some(s) => with_using + " "@ + s@,
        None => with_using,
    };
    match b.returning_statement {
        Some(s) => with_filter + " "@ + s@,
        None => with_filter,
    }
}

/// What `build` returns: the core text, substituted once under the
/// statement's notation and trimmed.
pub open spec fn delete_built_text(b: DeleteBuilder) -> Seq<char> {
    trim_spec(substituted(delete_core_text(b), b.placeholder_kind))
}

/// Law (the statement invariant): the core text of a delete holds exactly
/// as many generic markers as the builder has bound values, provided the
/// one marker-carrying slot — the filter — accounts for the whole value
/// list and everything else is marker-free.  The filter clause law
/// discharges that premise for clauses the library built.
pub proof fn lemma_delete_marker_alignment(b: DeleteBuilder)
    requires
        marker_free(b.table@),
        match b.using_table {
            Some(s) => marker_free(s@),
            None => true,
        },
        (match b.filter_statement {
            Some(s) => marker_count(s@),
            None => 0nat,
        }) == b.values@.len(),
        match b.returning_statement {
            Some(s) => marker_free(s@),
            None => true,
        },
    ensures
        marker_count(delete_core_text(b)) == b.values@.len(),
{
    reveal_strlit("DELETE FROM ");
    reveal_strlit(" ");
    lemma_marker_free_count("DELETE FROM "@);
    lemma_marker_free_count(b.table@);
    lemma_marker_free_count(" "@);
    lemma_marker_count_concat("DELETE FROM "@, b.table@);
    let head = "DELETE FROM "@ + b.table@;
    let with_using = match b.using_table {
        Some(s) => {
            lemma_marker_free_count(s@);
            lemma_marker_count_concat(head, " "@);
            lemma_marker_count_concat(head + " "@, s@);
            head + " "@ + s@
        },
        None => head,
    };
    let with_filter = match b.filter_statement {
        Some(s) => {
            lemma_marker_count_concat(with_using, " "@);
            lemma_marker_count_concat(with_using + " "@, s@);
            with_using + " "@ + s@
        },
        None => with_using,
    };
    match b.returning_statement {
        Some(s) => {
            lemma_marker_free_count(s@);
            lemma_marker_count_concat(with_filter, " "@);
            lemma_marker_count_concat(with_filter + " "@, s@);
        },
        None => {},
    }
}

impl DeleteBuilder {
    /// A fresh delete statement under the given placeholder notation.
    pub fn new(placeholder: PlaceholderKind) -> (r: Self)
        ensures
            r.table@ == Seq::<char>::empty(),
            r.values@.len() == 0,
            r.using_table is None,
            r.filter_statement is None,
            r.returning_statement is None,
            r.placeholder_kind == placeholder,
    {
        DeleteBuilder {
            table: String::new(),
            values: Vec::new(),
            using_table: None,
            filter_statement: None,
            returning_statement: None,
            placeholder_kind: placeholder,
        }
    }

    /// Sets the table reference, with an optional alias.
    pub fn table(&mut self, table: &str, table_alias: Option<&str>)
        ensures
            final(self).table@ == aliased_table_text(table@, table_alias),
            final(self).values == old(self).values,
            final(self).using_table == old(self).using_table,
            final(self).filter_statement == old(self).filter_statement,
            final(self).returning_statement == old(self).returning_statement,
            final(self).placeholder_kind == old(self).placeholder_kind,
    {
        self.table = match table_alias {
            Some(alias) => {
                let mut t = table.to_owned();
                t.append(" as ");
                t.append(alias);
                t
            },
            None => table.to_owned(),
        };
    }

    /// Sets the auxiliary table reference, with an optional alias.
    pub fn using(&mut self, table: &str, table_alias: Option<&str>)
        ensures
            final(self).using_table matches Some(s) && s@ == aliased_table_text(
                table@,
                table_alias,
            ),
            final(self).table == old(self).table,
            final(self).values == old(self).values,
            final(self).filter_statement == old(self).filter_statement,
            final(self).returning_statement == old(self).returning_statement,
            final(self).placeholder_kind == old(self).placeholder_kind,
    {
        self.using_table = match table_alias {
            Some(alias) => {
                let mut t = table.to_owned();
                t.append(" as ");
                t.append(alias);
                Some(t)
            },
            None => Some(table.to_owned()),
        };
    }

    /// Sets the filter slot to the `WHERE` clause built from the
    /// expressions, and appends its bound values.  An empty expression list
    /// contributes nothing.
    pub fn filter(&mut self, values: Vec<ExpressionBuilder>)
        ensures
            values@.len() == 0 ==> *final(self) == *old(self),
            values@.len() > 0 ==> ({
                &&& final(self).filter_statement matches Some(s) && s@ == where_statement_text(
                    values@,
                )
                &&& final(self).values@ == old(self).values@ + expressions_values(values@)
                &&& final(self).table == old(self).table
                &&& final(self).using_table == old(self).using_table
                &&& final(self).returning_statement == old(self).returning_statement
                &&& final(self).placeholder_kind == old(self).placeholder_kind
            }),
    {
        if values.len() > 0 {
            let mut result = WhereBuilder::build(values);
            self.filter_statement = Some(result.statement);
            self.values.append(&mut result.values);
        }
    }

    /// The bound values accumulated so far, in canonical clause order.
    pub fn get_values(&self) -> (r: Vec<SqlValue>)
        ensures
            r.deep_view() == self.values.deep_view(),
    {
        let r = self.values.clone();
        proof {
            assert forall|i: int| 0 <= i < r.deep_view().len() implies r.deep_view()[i]
                == self.values.deep_view()[i] by {
                assert(vstd::pervasive::cloned::<SqlValue>(self.values[i], r[i]));
            }
            assert(r.deep_view() =~= self.values.deep_view());
        }
        r
    }

    /// Sets the returning list.  An empty column list contributes nothing.
    pub fn returning(&mut self, values: Vec<&str>)
        ensures
            values@.len() == 0 ==> *final(self) == *old(self),
            values@.len() > 0 ==> ({
                &&& final(self).returning_statement matches Some(s) && s@ == returning_text(
                    values.deep_view(),
                )
                &&& final(self).table == old(self).table
                &&& final(self).values == old(self).values
                &&& final(self).using_table == old(self).using_table
                &&& final(self).filter_statement == old(self).filter_statement
                &&& final(self).placeholder_kind == old(self).placeholder_kind
            }),
    {
        if values.len() > 0 {
            let mut s = "RETURNING ".to_owned();
            let cols = join_strs(&values, ", ");
            s.append(cols.as_str());
            self.returning_statement = Some(s);
        }
    }

    /// Renders the statement: table, auxiliary table, filter and returning
    /// list in canonical order, the substitution pass applied once over the
    /// whole text, and the result trimmed.  Building never fails.
    pub fn build(&self) -> (r: Result<String, ValidationError>)
        ensures
            r matches Ok(s) && s@ == delete_built_text(*self),
    {
        let mut statement = "DELETE FROM ".to_owned();
        statement.append(self.table.as_str());
        if let Some(stmt) = &self.using_table {
            statement.append(" ");
            statement.append(stmt.as_str());
        }
        if let Some(stmt) = &self.filter_statement {
            statement.append(" ");
            statement.append(stmt.as_str());
        }
        if let Some(stmt) = &self.returning_statement {
            statement.append(" ");
            statement.append(stmt.as_str());
        }
        proof {
            assert(statement@ =~= delete_core_text(*self));
        }
        let substituted_text = apply_placeholders(statement.as_str(), &self.placeholder_kind);
        Ok(trim_string(substituted_text.as_str()))
    }
}

} // verus!
