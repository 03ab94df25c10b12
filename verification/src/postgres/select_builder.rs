//! The select statement assembler: clause slots filled one call at a time,
//! concatenated in canonical order — table, join, filter, group-by,
//! order-by, limit, offset — and handed to the substitution pass once, as
//! the last step of `build`.

use crate::error::ValidationError;
use crate::placeholder::{apply_placeholders, substituted, PlaceholderKind};
use crate::postgres::expression_builder::{expressions_values, ExpressionBuilder};
use crate::postgres::group_by_builder::{
    all_group_fields_nonempty, group_by_text, GroupByBuilder, GroupByItem,
};
use crate::postgres::join_builder::{join_statement_text, JoinBuilder, JoinKind};
use crate::postgres::order_by_builder::{
    all_order_fields_nonempty, order_by_text, OrderByBuilder, OrderByItem,
};
use crate::postgres::where_builder::{where_statement_text, WhereBuilder};
use crate::text::{
    decimal_str, join_strings, join_with, lemma_decimal_str_digits, lemma_deep_view_push,
    lemma_join_with_marker_free, lemma_marker_count_concat, lemma_marker_free_count, marker_count,
    marker_free, trim_spec, trim_string, usize_to_string,
};
use crate::value::SqlValue;
use vstd::prelude::*;

verus! {

/// A select statement under construction.
#[derive(Debug, Clone)]
pub struct SelectBuilder {
    pub distinct: bool,
    pub table: String,
    pub fields: Vec<String>,
    pub limit: Option<usize>,
    pub offset: Option<usize>,
    pub values: Vec<SqlValue>,
    pub filter_statement: Option<String>,
    pub join_statement: Option<String>,
    pub group_by_statement: Option<String>,
    pub order_by_statement: Option<String>,
    pub placeholder_kind: PlaceholderKind,
}

/// The output columns that one `columns` call contributes: every name
/// prefixed with the table alias, or the alias's wildcard when no name is
/// given.
pub open spec fn qualified_columns(alias: Seq<char>, cols: Seq<Seq<char>>) -> Seq<Seq<char>> {
    if cols.len() == 0 {
        seq![alias + ".*"@]
    } else {
        Seq::new(cols.len(), |i: int| (alias + "."@ + cols[i]))
    }
}

/// The output columns that one `columns_raw` call contributes: the names
/// verbatim, or the bare wildcard when no name is given.
pub open spec fn raw_columns(cols: Seq<Seq<char>>) -> Seq<Seq<char>> {
    if cols.len() == 0 {
        seq!["*"@]
    } else {
        cols
    }
}

/// The statement text before substitution: the populated clause slots
/// concatenated in the select's canonical order.
pub open spec fn select_core_text(b: SelectBuilder) -> Seq<char> {
    let head = (if b.distinct {
        "SELECT DISTINCT "@
    } else {
        "SELECT "@
    }) + join_with(b.fields.deep_view(), ", "@) + " FROM "@ + b.table@;
    let with_join = match b.join_statement {
        Some(s) => head + " "@ + s@,
        None => head,
    };
    let with_filter = match b.filter_statement {
        Some(s) => with_join + " "@ + s@,
        None => with_join,
    };
    let with_group = match b.group_by_statement {
        Some(s) => with_filter + " "@ + s@,
        None => with_filter,
    };
    let with_order = match b.order_by_statement {
        Some(s) => with_group + " "@ + s@,
        None => with_group,
    };
    let with_limit = match b.limit {
        Some(n) => with_order + " LIMIT "@ + decimal_str(n as nat),
        None => with_order,
    };
    match b.offset {
        Some(n) => with_limit + " OFFSET "@ + decimal_str(n as nat),
        None => with_limit,
    }
}

/// What `build` returns: the core text, substituted once under the
/// statement's notation and trimmed.
pub open spec fn select_built_text(b: SelectBuilder) -> Seq<char> {
    trim_spec(substituted(select_core_text(b), b.placeholder_kind))
}

/// The decimal rendering of a count is free of the marker character.
proof fn lemma_decimal_marker_free(n: nat)
    ensures
        marker_free(decimal_str(n)),
{
    lemma_decimal_str_digits(n);
}

/// Law (the statement invariant): the core text of a select holds exactly
/// as many generic markers as the builder has bound values, provided the
/// two marker-carrying slots — join and filter — account together for the
/// whole value list and every other slot is marker-free.  The join and
/// filter clause laws discharge that premise for clauses the library built.
pub proof fn lemma_select_marker_alignment(b: SelectBuilder)
    requires
        marker_free(b.table@),
        forall|i: int|
            0 <= i < b.fields.deep_view().len() ==> marker_free(
                #[trigger] b.fields.deep_view()[i],
            ),
        (match b.join_statement {
            Some(s) => marker_count(s@),
            None => 0nat,
        }) + (match b.filter_statement {
            Some(s) => marker_count(s@),
            None => 0nat,
        }) == b.values@.len(),
        match b.group_by_statement {
            Some(s) => marker_free(s@),
            None => true,
        },
        match b.order_by_statement {
            Some(s) => marker_free(s@),
            None => true,
        },
    ensures
        marker_count(select_core_text(b)) == b.values@.len(),
{
    reveal_strlit("SELECT ");
    reveal_strlit("SELECT DISTINCT ");
    reveal_strlit(" FROM ");
    reveal_strlit(" ");
    reveal_strlit(", ");
    reveal_strlit(" LIMIT ");
    reveal_strlit(" OFFSET ");
    let prefix = if b.distinct {
        "SELECT DISTINCT "@
    } else {
        "SELECT "@
    };
    assert(marker_free(prefix));
    lemma_marker_free_count(prefix);
    lemma_join_with_marker_free(b.fields.deep_view(), ", "@);
    let fields = join_with(b.fields.deep_view(), ", "@);
    lemma_marker_free_count(fields);
    lemma_marker_free_count(" FROM "@);
    lemma_marker_free_count(b.table@);
    lemma_marker_free_count(" "@);
    lemma_marker_count_concat(prefix, fields);
    lemma_marker_count_concat(prefix + fields, " FROM "@);
    lemma_marker_count_concat(prefix + fields + " FROM "@, b.table@);
    let head = prefix + fields + " FROM "@ + b.table@;
    let with_join = match b.join_statement {
        Some(s) => {
            lemma_marker_count_concat(head, " "@);
            lemma_marker_count_concat(head + " "@, s@);
            head + " "@ + s@
        },
        None => head,
    };
    let with_filter = match b.filter_statement {
        Some(s) => {
            lemma_marker_count_concat(with_join, " "@);
            lemma_marker_count_concat(with_join + " "@, s@);
            with_join + " "@ + s@
        },
        None => with_join,
    };
    let with_group = match b.group_by_statement {
        Some(s) => {
            lemma_marker_free_count(s@);
            lemma_marker_count_concat(with_filter, " "@);
            lemma_marker_count_concat(with_filter + " "@, s@);
            with_filter + " "@ + s@
        },
        None => with_filter,
    };
    let with_order = match b.order_by_statement {
        Some(s) => {
            lemma_marker_free_count(s@);
            lemma_marker_count_concat(with_group, " "@);
            lemma_marker_count_concat(with_group + " "@, s@);
            with_group + " "@ + s@
        },
        None => with_group,
    };
    let with_limit = match b.limit {
        Some(n) => {
            lemma_decimal_marker_free(n as nat);
            lemma_marker_free_count(" LIMIT "@);
            lemma_marker_free_count(decimal_str(n as nat));
            lemma_marker_count_concat(with_order, " LIMIT "@);
            lemma_marker_count_concat(with_order + " LIMIT "@, decimal_str(n as nat));
            with_order + " LIMIT "@ + decimal_str(n as nat)
        },
        None => with_order,
    };
    match b.offset {
        Some(n) => {
            lemma_decimal_marker_free(n as nat);
            lemma_marker_free_count(" OFFSET "@);
            lemma_marker_free_count(decimal_str(n as nat));
            lemma_marker_count_concat(with_limit, " OFFSET "@);
            lemma_marker_count_concat(with_limit + " OFFSET "@, decimal_str(n as nat));
        },
        None => {},
    }
}

impl SelectBuilder {
    /// A fresh select statement under the given placeholder notation.
    pub fn new(placeholder: PlaceholderKind) -> (r: Self)
        ensures
            r.distinct == false,
            r.table@ == Seq::<char>::empty(),
            r.fields@.len() == 0,
            r.limit is None,
            r.offset is None,
            r.values@.len() == 0,
            r.filter_statement is None,
            r.join_statement is None,
            r.group_by_statement is None,
            r.order_by_statement is None,
            r.placeholder_kind == placeholder,
    {
        SelectBuilder {
            distinct: false,
            table: String::new(),
            fields: Vec::new(),
            limit: None,
            offset: None,
            values: Vec::new(),
            filter_statement: None,
            join_statement: None,
            group_by_statement: None,
            order_by_statement: None,
            placeholder_kind: placeholder,
        }
    }

    /// Asks for distinct rows.
    pub fn distinct(&mut self)
        ensures
            *final(self) == (SelectBuilder { distinct: true, ..*old(self) }),
    {
        self.distinct = true;
    }

    /// Sets the table reference, rendered `table as alias`.
    pub fn table(&mut self, table: &str, table_alias: &str)
        ensures
            final(self).table@ == table@ + " as "@ + table_alias@,
            final(self).distinct == old(self).distinct,
            final(self).fields == old(self).fields,
            final(self).limit == old(self).limit,
            final(self).offset == old(self).offset,
            final(self).values == old(self).values,
            final(self).filter_statement == old(self).filter_statement,
            final(self).join_statement == old(self).join_statement,
            final(self).group_by_statement == old(self).group_by_statement,
            final(self).order_by_statement == old(self).order_by_statement,
            final(self).placeholder_kind == old(self).placeholder_kind,
    {
        let mut t = table.to_owned();
        t.append(" as ");
        t.append(table_alias);
        self.table = t;
    }

    /// Adds one join clause.  An empty expression list contributes nothing;
    /// otherwise the rendered clause is appended to the join slot, space
    /// separated, and its bound values to the statement's value list.
    pub fn join(
        &mut self,
        kind: JoinKind,
        table: &str,
        table_alias: &str,
        values: Vec<ExpressionBuilder>,
    )
        ensures
            values@.len() == 0 ==> *final(self) == *old(self),
            values@.len() > 0 ==> ({
                &&& final(self).join_statement matches Some(s) && s@ == (match old(
                    self,
                ).join_statement {
                    Some(prev) => prev@ + " "@ + join_statement_text(
                        kind,
                        table@,
                        table_alias@,
                        values@,
                    ),
                    None => join_statement_text(kind, table@, table_alias@, values@),
                })
                &&& final(self).values@ == old(self).values@ + expressions_values(values@)
                &&& final(self).distinct == old(self).distinct
                &&& final(self).table == old(self).table
                &&& final(self).fields == old(self).fields
                &&& final(self).limit == old(self).limit
                &&& final(self).offset == old(self).offset
                &&& final(self).filter_statement == old(self).filter_statement
                &&& final(self).group_by_statement == old(self).group_by_statement
                &&& final(self).order_by_statement == old(self).order_by_statement
                &&& final(self).placeholder_kind == old(self).placeholder_kind
            }),
    {
        if values.len() > 0 {
            let mut item = JoinBuilder::build(kind, table, table_alias, values);
            self.values.append(&mut item.values);
            let statement = match &self.join_statement {
                Some(prev) => {
                    let mut s = prev.clone();
                    s.append(" ");
                    s.append(item.statement.as_str());
                    s
                },
                None => item.statement,
            };
            self.join_statement = Some(statement);
        }
    }

    /// Sets the filter slot to the `WHERE` clause built from the
    /// expressions, and appends its bound values.  An empty expression list
    /// contributes nothing.
    pub fn filter(&mut self, values: Vec<ExpressionBuilder>)
        ensures
            values@.len() == 0 ==> *final(self) == *old(self),
            values@.len() > 0 ==> ({
                &&& final(self).filter_statement matches Some(s) && s@ == where_statement_text(
                    values@,
                )
                &&& final(self).values@ == old(self).values@ + expressions_values(values@)
                &&& final(self).distinct == old(self).distinct
                &&& final(self).table == old(self).table
                &&& final(self).fields == old(self).fields
                &&& final(self).limit == old(self).limit
                &&& final(self).offset == old(self).offset
                &&& final(self).join_statement == old(self).join_statement
                &&& final(self).group_by_statement == old(self).group_by_statement
                &&& final(self).order_by_statement == old(self).order_by_statement
                &&& final(self).placeholder_kind == old(self).placeholder_kind
            }),
    {
        if values.len() > 0 {
            let mut result = WhereBuilder::build(values);
            self.filter_statement = Some(result.statement);
            self.values.append(&mut result.values);
        }
    }

    /// Appends output columns, each prefixed with the table alias; with no
    /// names given, appends the alias's wildcard.
    pub fn columns(&mut self, table_alias: &str, values: Vec<&str>)
        ensures
            final(self).fields.deep_view() == old(self).fields.deep_view() + qualified_columns(
                table_alias@,
                values.deep_view(),
            ),
            final(self).distinct == old(self).distinct,
            final(self).table == old(self).table,
            final(self).limit == old(self).limit,
            final(self).offset == old(self).offset,
            final(self).values == old(self).values,
            final(self).filter_statement == old(self).filter_statement,
            final(self).join_statement == old(self).join_statement,
            final(self).group_by_statement == old(self).group_by_statement,
            final(self).order_by_statement == old(self).order_by_statement,
            final(self).placeholder_kind == old(self).placeholder_kind,
    {
        let ghost pre_self = *self;
        let ghost pre = self.fields.deep_view();
        let ghost cols = values.deep_view();
        if values.len() == 0 {
            let mut f = table_alias.to_owned();
            f.append(".*");
            self.fields.push(f);
            proof {
                assert(self.fields.deep_view() =~~= pre + qualified_columns(table_alias@, cols));
            }
        } else {
            let mut i: usize = 0;
            let ghost alias_view = table_alias@;
            while i < values.len()
                invariant
                    i <= values@.len(),
                    alias_view == table_alias@,
                    cols == values.deep_view(),
                    cols.len() == values@.len(),
                    self.fields.deep_view() == pre + Seq::new(
                        i as nat,
                        |k: int| (alias_view + "."@ + cols[k]),
                    ),
                    self.distinct == pre_self.distinct,
                    self.table == pre_self.table,
                    self.limit == pre_self.limit,
                    self.offset == pre_self.offset,
                    self.values == pre_self.values,
                    self.filter_statement == pre_self.filter_statement,
                    self.join_statement == pre_self.join_statement,
                    self.group_by_statement == pre_self.group_by_statement,
                    self.order_by_statement == pre_self.order_by_statement,
                    self.placeholder_kind == pre_self.placeholder_kind,
                decreases values@.len() - i,
            {
                let mut f = table_alias.to_owned();
                f.append(".");
                f.append(values[i]);
                proof {
                    assert(values@[i as int].deep_view() == cols[i as int]);
                    assert(f@ == alias_view + "."@ + cols[i as int]);
                }
                let ghost fields_pre = self.fields;
                let ghost f_snap = f;
                self.fields.push(f);
                proof {
                    lemma_deep_view_push(fields_pre, self.fields, f_snap);
                    assert(self.fields.deep_view() =~= pre + Seq::new(
                        i as nat + 1,
                        |k: int| (alias_view + "."@ + cols[k]),
                    ));
                }
                i += 1;
            }
            proof {
                assert(pre + Seq::new(cols.len(), |k: int| (alias_view + "."@ + cols[k])) =~~= pre
                    + qualified_columns(table_alias@, cols));
            }
        }
    }

    /// Appends output columns verbatim, for raw expressions such as function
    /// calls; with no names given, appends the bare wildcard.
    pub fn columns_raw(&mut self, values: Vec<&str>)
        ensures
            final(self).fields.deep_view() == old(self).fields.deep_view() + raw_columns(
                values.deep_view(),
            ),
            final(self).distinct == old(self).distinct,
            final(self).table == old(self).table,
            final(self).limit == old(self).limit,
            final(self).offset == old(self).offset,
            final(self).values == old(self).values,
            final(self).filter_statement == old(self).filter_statement,
            final(self).join_statement == old(self).join_statement,
            final(self).group_by_statement == old(self).group_by_statement,
            final(self).order_by_statement == old(self).order_by_statement,
            final(self).placeholder_kind == old(self).placeholder_kind,
    {
        let ghost pre_self = *self;
        let ghost pre = self.fields.deep_view();
        let ghost cols = values.deep_view();
        if values.len() == 0 {
            self.fields.push("*".to_owned());
            proof {
                assert(self.fields.deep_view() =~~= pre + raw_columns(cols));
            }
        } else {
            let mut i: usize = 0;
            while i < values.len()
                invariant
                    i <= values@.len(),
                    cols == values.deep_view(),
                    cols.len() == values@.len(),
                    self.fields.deep_view() == pre + cols.subrange(0, i as int),
                    self.distinct == pre_self.distinct,
                    self.table == pre_self.table,
                    self.limit == pre_self.limit,
                    self.offset == pre_self.offset,
                    self.values == pre_self.values,
                    self.filter_statement == pre_self.filter_statement,
                    self.join_statement == pre_self.join_statement,
                    self.group_by_statement == pre_self.group_by_statement,
                    self.order_by_statement == pre_self.order_by_statement,
                    self.placeholder_kind == pre_self.placeholder_kind,
                decreases values@.len() - i,
            {
                proof {
                    assert(values@[i as int].deep_view() == cols[i as int]);
                }
                let f = values[i].to_owned();
                let ghost fields_pre = self.fields;
                let ghost f_snap = f;
                self.fields.push(f);
                proof {
                    lemma_deep_view_push(fields_pre, self.fields, f_snap);
                    assert(self.fields.deep_view() =~= pre + cols.subrange(0, i as int + 1));
                }
                i += 1;
            }
            proof {
                assert(cols.subrange(0, cols.len() as int) =~= cols);
            }
        }
    }

    /// Sets the ordering slot.  An empty item list contributes nothing; a
    /// validation failure of the clause builder is passed through and leaves
    /// the statement unchanged.
    pub fn order_by(&mut self, values: Vec<OrderByItem>) -> (r: Result<(), ValidationError>)
        ensures
            values@.len() == 0 ==> (r is Ok && *final(self) == *old(self)),
            values@.len() > 0 && !all_order_fields_nonempty(values@) ==> (r == Err::<
                (),
                ValidationError,
            >(ValidationError::EmptyField) && *final(self) == *old(self)),
            values@.len() > 0 && all_order_fields_nonempty(values@) ==> (r is Ok && ({
                &&& final(self).order_by_statement matches Some(s) && s@ == order_by_text(values@)
                &&& final(self).distinct == old(self).distinct
                &&& final(self).table == old(self).table
                &&& final(self).fields == old(self).fields
                &&& final(self).limit == old(self).limit
                &&& final(self).offset == old(self).offset
                &&& final(self).values == old(self).values
                &&& final(self).filter_statement == old(self).filter_statement
                &&& final(self).join_statement == old(self).join_statement
                &&& final(self).group_by_statement == old(self).group_by_statement
                &&& final(self).placeholder_kind == old(self).placeholder_kind
            })),
    {
        if values.len() > 0 {
            match OrderByBuilder::build(values) {
                Ok(statement) => {
                    self.order_by_statement = Some(statement);
                },
                Err(e) => {
                    return Err(e);
                },
            }
        }
        Ok(())
    }

    /// Sets the grouping slot.  An empty item list contributes nothing; a
    /// validation failure of the clause builder is passed through and leaves
    /// the statement unchanged.
    pub fn group_by(&mut self, values: Vec<GroupByItem>) -> (r: Result<(), ValidationError>)
        ensures
            values@.len() == 0 ==> (r is Ok && *final(self) == *old(self)),
            values@.len() > 0 && !all_group_fields_nonempty(values@) ==> (r == Err::<
                (),
                ValidationError,
            >(ValidationError::EmptyField) && *final(self) == *old(self)),
            values@.len() > 0 && all_group_fields_nonempty(values@) ==> (r is Ok && ({
                &&& final(self).group_by_statement matches Some(s) && s@ == group_by_text(values@)
                &&& final(self).distinct == old(self).distinct
                &&& final(self).table == old(self).table
                &&& final(self).fields == old(self).fields
                &&& final(self).limit == old(self).limit
                &&& final(self).offset == old(self).offset
                &&& final(self).values == old(self).values
                &&& final(self).filter_statement == old(self).filter_statement
                &&& final(self).join_statement == old(self).join_statement
                &&& final(self).order_by_statement == old(self).order_by_statement
                &&& final(self).placeholder_kind == old(self).placeholder_kind
            })),
    {
        if values.len() > 0 {
            match GroupByBuilder::build(values) {
                Ok(statement) => {
                    self.group_by_statement = Some(statement);
                },
                Err(e) => {
                    return Err(e);
                },
            }
        }
        Ok(())
    }

    /// Sets the row limit.
    pub fn limit(&mut self, value: usize)
        ensures
            *final(self) == (SelectBuilder { limit: Some(value), ..*old(self) }),
    {
        self.limit = Some(value);
    }

    /// Sets the row offset.
    pub fn offset(&mut self, value: usize)
        ensures
            *final(self) == (SelectBuilder { offset: Some(value), ..*old(self) }),
    {
        self.offset = Some(value);
    }

    /// The bound values accumulated so far, in canonical clause order.
    pub fn get_values(&self) -> (r: Vec<SqlValue>)
        ensures
            r.deep_view() == self.values.deep_view(),
    {
        let r = self.values.clone();
        proof {
            assert forall|i: int| 0 <= i < r.deep_view().len() implies r.deep_view()[i]
                == self.values.deep_view()[i] by {
                assert(vstd::pervasive::cloned::<SqlValue>(self.values[i], r[i]));
            }
            assert(r.deep_view() =~= self.values.deep_view());
        }
        r
    }

    /// Renders the statement: the populated clause slots in canonical order,
    /// the substitution pass applied once over the whole text, and the
    /// result trimmed.  Building never fails.
    pub fn build(&self) -> (r: Result<String, ValidationError>)
        ensures
            r matches Ok(s) && s@ == select_built_text(*self),
    {
        let mut statement = if self.distinct {
            "SELECT DISTINCT ".to_owned()
        } else {
            "SELECT ".to_owned()
        };
        let fields = join_strings(&self.fields, ", ");
        statement.append(fields.as_str());
        statement.append(" FROM ");
        statement.append(self.table.as_str());
        if let Some(value) = &self.join_statement {
            statement.append(" ");
            statement.append(value.as_str());
        }
        if let Some(value) = &self.filter_statement {
            statement.append(" ");
            statement.append(value.as_str());
        }
        if let Some(value) = &self.group_by_statement {
            statement.append(" ");
            statement.append(value.as_str());
        }
        if let Some(value) = &self.order_by_statement {
            statement.append(" ");
            statement.append(value.as_str());
        }
        if let Some(value) = &self.limit {
            statement.append(" LIMIT ");
            let n = usize_to_string(*value);
            statement.append(n.as_str());
        }
        if let Some(value) = &self.offset {
            statement.append(" OFFSET ");
            let n = usize_to_string(*value);
            statement.append(n.as_str());
        }
        proof {
            assert(statement@ =~= select_core_text(*self));
        }
        let substituted_text = apply_placeholders(statement.as_str(), &self.placeholder_kind);
        Ok(trim_string(substituted_text.as_str()))
    }
}

} // verus!
