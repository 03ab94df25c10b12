//! The update statement assembler: table, assignment clause, filter and
//! returning list concatenated in canonical order, then substituted once.

use crate::error::ValidationError;
use crate::placeholder::{apply_placeholders, substituted, PlaceholderKind};
use crate::postgres::expression_builder::{expressions_values, ExpressionBuilder};
use crate::postgres::returning_text;
use crate::postgres::set_builder::{
    all_assignments_generic, assignments_values, set_statement_text, SetBuilder, SetFieldUpdate,
};
use crate::postgres::where_builder::{where_statement_text, WhereBuilder};
use crate::text::{
    join_strs, lemma_marker_count_concat, lemma_marker_free_count, marker_count, marker_free,
    trim_spec, trim_string,
};
use crate::value::SqlValue;
use vstd::prelude::*;

verus! {

/// An update statement under construction.
#[derive(Debug, Clone)]
pub struct UpdateBuilder {
    pub table: String,
    pub values: Vec<SqlValue>,
    pub set_statement: String,
    pub filter_statement: Option<String>,
    pub returning_statement: Option<String>,
    pub placeholder_kind: PlaceholderKind,
}

/// The statement text before substitution: the populated clause slots
/// concatenated in the update's canonical order — table, set, filter,
/// returning.
pub open spec fn update_core_text(b: UpdateBuilder) -> Seq<char> {
    let head = "UPDATE "@ + b.table@ + " "@ + b.set_statement@;
    let with_filter = match b.filter_statement {
        Some(s) => head + " "@ + s@,
        None => head,
    };
    match b.returning_statement {
        Some(s) => with_filter + " "@ + s@,
        None => with_filter,
    }
}

/// What `build` returns: the core text, substituted once under the
/// statement's notation and trimmed.
pub open spec fn update_built_text(b: UpdateBuilder) -> Seq<char> {
    trim_spec(substituted(update_core_text(b), b.placeholder_kind))
}

/// Law (the statement invariant): the core text of an update holds exactly
/// as many generic markers as the builder has bound values, provided the
/// two marker-carrying slots — set and filter — account together for the
/// whole value list and everything else is marker-free.  The assignment and
/// filter clause laws discharge that premise for clauses the library built.
pub proof fn lemma_update_marker_alignment(b: UpdateBuilder)
    requires
        marker_free(b.table@),
        marker_count(b.set_statement@) + (match b.filter_statement {
            Some(s) => marker_count(s@),
            None => 0nat,
        }) == b.values@.len(),
        match b.returning_statement {
            Some(s) => marker_free(s@),
            None => true,
        },
    ensures
        marker_count(update_core_text(b)) == b.values@.len(),
{
    reveal_strlit("UPDATE ");
    reveal_strlit(" ");
    lemma_marker_free_count("UPDATE "@);
    lemma_marker_free_count(b.table@);
    lemma_marker_free_count(" "@);
    lemma_marker_count_concat("UPDATE "@, b.table@);
    lemma_marker_count_concat("UPDATE "@ + b.table@, " "@);
    lemma_marker_count_concat("UPDATE "@ + b.table@ + " "@, b.set_statement@);
    let head = "UPDATE "@ + b.table@ + " "@ + b.set_statement@;
    let with_filter = match b.filter_statement {
        Some(s) => {
            lemma_marker_count_concat(head, " "@);
            lemma_marker_count_concat(head + " "@, s@);
            head + " "@ + s@
        },
        None => head,
    };
    match b.returning_statement {
        Some(s) => {
            lemma_marker_free_count(s@);
            lemma_marker_count_concat(with_filter, " "@);
            lemma_marker_count_concat(with_filter + " "@, s@);
        },
        None => {},
    }
}

impl UpdateBuilder {
    /// A fresh update statement under the given placeholder notation.
    pub fn new(placeholder: PlaceholderKind) -> (r: Self)
        ensures
            r.table@ == Seq::<char>::empty(),
            r.values@.len() == 0,
            r.set_statement@ == Seq::<char>::empty(),
            r.filter_statement is None,
            r.returning_statement is None,
            r.placeholder_kind == placeholder,
    {
        UpdateBuilder {
            table: String::new(),
            values: Vec::new(),
            set_statement: String::new(),
            filter_statement: None,
            returning_statement: None,
            placeholder_kind: placeholder,
        }
    }

    /// Sets the updated table's name.
    pub fn table(&mut self, table: &str)
        ensures
            final(self).table@ == table@,
            final(self).values == old(self).values,
            final(self).set_statement == old(self).set_statement,
            final(self).filter_statement == old(self).filter_statement,
            final(self).returning_statement == old(self).returning_statement,
            final(self).placeholder_kind == old(self).placeholder_kind,
    {
        self.table = table.to_owned();
    }

    /// Sets the filter slot to the `WHERE` clause built from the
    /// expressions, and appends its bound values.  An empty expression list
    /// contributes nothing.
    pub fn filter(&mut self, values: Vec<ExpressionBuilder>)
        ensures
            values@.len() == 0 ==> *final(self) == *old(self),
            values@.len() > 0 ==> ({
                &&& final(self).filter_statement matches Some(s) && s@ == where_statement_text(
                    values@,
                )
                &&& final(self).values@ == old(self).values@ + expressions_values(values@)
                &&& final(self).table == old(self).table
                &&& final(self).set_statement == old(self).set_statement
                &&& final(self).returning_statement == old(self).returning_statement
                &&& final(self).placeholder_kind == old(self).placeholder_kind
            }),
    {
        if values.len() > 0 {
            let mut result = WhereBuilder::build(values);
            self.filter_statement = Some(result.statement);
            self.values.append(&mut result.values);
        }
    }

    /// Fills the assignment slot.  Fails when the slot was already filled,
    /// or — via the assignment clause builder — when a nested select was
    /// built under a notation other than the generic marker; on failure the
    /// statement is left unchanged.
    pub fn set(&mut self, values: Vec<SetFieldUpdate>) -> (r: Result<(), ValidationError>)
        ensures
            old(self).set_statement@.len() > 0 ==> (r == Err::<(), ValidationError>(
                ValidationError::SetAlreadyApplied,
            ) && *final(self) == *old(self)),
            old(self).set_statement@.len() == 0 && !all_assignments_generic(values@) ==> (r
                == Err::<(), ValidationError>(ValidationError::NestedQueryNotGeneric)
                && *final(self) == *old(self)),
            old(self).set_statement@.len() == 0 && all_assignments_generic(values@) ==> (r is Ok
                && ({
                &&& final(self).set_statement@ == set_statement_text(values@)
                &&& final(self).values@ == old(self).values@ + assignments_values(values@)
                &&& final(self).table == old(self).table
                &&& final(self).filter_statement == old(self).filter_statement
                &&& final(self).returning_statement == old(self).returning_statement
                &&& final(self).placeholder_kind == old(self).placeholder_kind
            })),
    {
        if !self.set_statement.as_str().is_empty() {
            return Err(ValidationError::SetAlreadyApplied);
        }
        let mut builder = match SetBuilder::build(values) {
            Ok(b) => b,
            Err(e) => {
                return Err(e);
            },
        };
        self.set_statement = builder.statement;
        self.values.append(&mut builder.values);
        Ok(())
    }

    /// The bound values accumulated so far, in canonical clause order.
    pub fn get_values(&self) -> (r: Vec<SqlValue>)
        ensures
            r.deep_view() == self.values.deep_view(),
    {
        let r = self.values.clone();
        proof {
            assert forall|i: int| 0 <= i < r.deep_view().len() implies r.deep_view()[i]
                == self.values.deep_view()[i] by {
                assert(vstd::pervasive::cloned::<SqlValue>(self.values[i], r[i]));
            }
            assert(r.deep_view() =~= self.values.deep_view());
        }
        r
    }

    /// Sets the returning list.  An empty column list contributes nothing.
    pub fn returning(&mut self, values: Vec<&str>)
        ensures
            values@.len() == 0 ==> *final(self) == *old(self),
            values@.len() > 0 ==> ({
                &&& final(self).returning_statement matches Some(s) && s@ == returning_text(
                    values.deep_view(),
                )
                &&& final(self).table == old(self).table
                &&& final(self).values == old(self).values
                &&& final(self).set_statement == old(self).set_statement
                &&& final(self).filter_statement == old(self).filter_statement
                &&& final(self).placeholder_kind == old(self).placeholder_kind
            }),
    {
        if values.len() > 0 {
            let mut s = "RETURNING ".to_owned();
            let cols = join_strs(&values, ", ");
            s.append(cols.as_str());
            self.returning_statement = Some(s);
        }
    }

    /// Renders the statement: table, assignment clause, filter and
    /// returning list in canonical order, the substitution pass applied
    /// once over the whole text, and the result trimmed.  Building never
    /// fails.
    pub fn build(&self) -> (r: Result<String, ValidationError>)
        ensures
            r matches Ok(s) && s@ == update_built_text(*self),
    {
        let mut statement = "UPDATE ".to_owned();
        statement.append(self.table.as_str());
        statement.append(" ");
        statement.append(self.set_statement.as_str());
        if let Some(stmt) = &self.filter_statement {
            statement.append(" ");
            statement.append(stmt.as_str());
        }
        if let Some(stmt) = &self.returning_statement {
            statement.append(" ");
            statement.append(stmt.as_str());
        }
        proof {
            assert(statement@ =~= update_core_text(*self));
        }
        let substituted_text = apply_placeholders(statement.as_str(), &self.placeholder_kind);
        Ok(trim_string(substituted_text.as_str()))
    }
}

} // verus!
