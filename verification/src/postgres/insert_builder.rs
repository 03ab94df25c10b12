//! The insert statement assembler.  Unlike the other statements, the insert
//! renders its value-tuple markers directly under the chosen notation, with
//! one counter running across all tuples; no substitution pass follows.

use crate::error::ValidationError;
use crate::placeholder::PlaceholderKind;
use crate::postgres::returning_text;
use crate::text::{
    decimal_str, join_strings, join_strs, join_with, lemma_join_with_marker_free,
    lemma_marker_count_concat, lemma_marker_free_count, marker_count, marker_free, trim_spec,
    trim_string, usize_to_string,
};
use crate::value::SqlValue;
use vstd::prelude::*;

verus! {

/// An insert statement under construction.
#[derive(Debug, Clone)]
pub struct InsertBuilder {
    pub table: String,
    pub fields: Vec<String>,
    pub values: Vec<Vec<SqlValue>>,
    pub returning_statement: Option<String>,
    pub placeholder_kind: PlaceholderKind,
}

/// The in-text marker for the `j`-th bound value of the statement, counting
/// from one: the generic marker, or the numbered sigil.
pub open spec fn placeholder_marker(kind: PlaceholderKind, j: nat) -> Seq<char> {
    match kind {
        PlaceholderKind::QuestionMark => "?"@,
        PlaceholderKind::DollarSequential => "$"@ + decimal_str(j),
    }
}

/// The markers of one value tuple of length `n`, comma-joined, numbered
/// `k + 1` through `k + n`.
pub open spec fn tuple_markers_text(kind: PlaceholderKind, k: nat, n: nat) -> Seq<char>
    decreases n,
{
    if n == 0 {
        Seq::empty()
    } else if n == 1 {
        placeholder_marker(kind, k + 1)
    } else {
        tuple_markers_text(kind, k, (n - 1) as nat) + ", "@ + placeholder_marker(kind, k + n)
    }
}

/// The total number of bound values over all the rows.
pub open spec fn rows_count(rows: Seq<Vec<SqlValue>>) -> nat
    decreases rows.len(),
{
    if rows.len() == 0 {
        0
    } else {
        rows_count(rows.drop_last()) + rows.last()@.len()
    }
}

/// A prefix of the rows binds at most as many values as all of them.
proof fn lemma_rows_count_prefix(rows: Seq<Vec<SqlValue>>, m: int)
    requires
        0 <= m <= rows.len(),
    ensures
        rows_count(rows.subrange(0, m)) <= rows_count(rows),
    decreases rows.len() - m,
{
    if m == rows.len() {
        assert(rows.subrange(0, m) =~= rows);
    } else {
        lemma_rows_count_prefix(rows, m + 1);
        let sub1 = rows.subrange(0, m + 1);
        assert(sub1.drop_last() =~= rows.subrange(0, m));
        assert(rows_count(sub1) == rows_count(rows.subrange(0, m)) + sub1.last()@.len());
    }
}

/// The parenthesised value tuples, comma-joined, with one marker counter
/// running across all of them in row order.
pub open spec fn tuples_text(kind: PlaceholderKind, rows: Seq<Vec<SqlValue>>) -> Seq<char>
    decreases rows.len(),
{
    if rows.len() == 0 {
        Seq::empty()
    } else if rows.len() == 1 {
        "("@ + tuple_markers_text(kind, 0, rows[0]@.len()) + ")"@
    } else {
        tuples_text(kind, rows.drop_last()) + ", ("@ + tuple_markers_text(
            kind,
            rows_count(rows.drop_last()),
            rows.last()@.len(),
        ) + ")"@
    }
}

/// The statement text before trimming: table, column list, value tuples and
/// returning list in the insert's canonical order.  A trailing space stands
/// in front of an absent returning list and is trimmed away.
pub open spec fn insert_core_text(b: InsertBuilder) -> Seq<char> {
    "INSERT INTO "@ + b.table@ + "("@ + join_with(b.fields.deep_view(), ", "@) + ") VALUES "@
        + tuples_text(b.placeholder_kind, b.values@) + " "@ + (match b.returning_statement {
        Some(s) => s@,
        None => Seq::empty(),
    })
}

/// What `build` returns: the core text, trimmed.
pub open spec fn insert_built_text(b: InsertBuilder) -> Seq<char> {
    trim_spec(insert_core_text(b))
}

/// Under the generic notation one tuple of `n` values renders exactly `n`
/// markers.
proof fn lemma_tuple_markers_count(k: nat, n: nat)
    ensures
        marker_count(tuple_markers_text(PlaceholderKind::QuestionMark, k, n)) == n,
    decreases n,
{
    reveal_strlit("?");
    reveal_strlit(", ");
    let q = "?"@;
    assert(marker_count(q.drop_first()) == 0);
    assert(marker_count(q) == 1);
    if n == 0 {
        lemma_marker_free_count(Seq::<char>::empty());
    } else if n > 1 {
        lemma_tuple_markers_count(k, (n - 1) as nat);
        lemma_marker_free_count(", "@);
        let body = tuple_markers_text(PlaceholderKind::QuestionMark, k, (n - 1) as nat);
        lemma_marker_count_concat(body, ", "@);
        lemma_marker_count_concat(body + ", "@, q);
    }
}

/// Under the generic notation the joined tuples render one marker per
/// bound value.
proof fn lemma_tuples_marker_count(rows: Seq<Vec<SqlValue>>)
    ensures
        marker_count(tuples_text(PlaceholderKind::QuestionMark, rows)) == rows_count(rows),
    decreases rows.len(),
{
    reveal_strlit("(");
    reveal_strlit(")");
    reveal_strlit(", (");
    lemma_marker_free_count("("@);
    lemma_marker_free_count(")"@);
    lemma_marker_free_count(", ("@);
    if rows.len() == 1 {
        lemma_tuple_markers_count(0, rows[0]@.len());
        let tuple = tuple_markers_text(PlaceholderKind::QuestionMark, 0, rows[0]@.len());
        lemma_marker_count_concat("("@, tuple);
        lemma_marker_count_concat("("@ + tuple, ")"@);
        assert(rows_count(rows.drop_last()) == 0);
    } else if rows.len() > 1 {
        lemma_tuples_marker_count(rows.drop_last());
        let base = rows_count(rows.drop_last());
        lemma_tuple_markers_count(base, rows.last()@.len());
        let body = tuples_text(PlaceholderKind::QuestionMark, rows.drop_last());
        let tuple = tuple_markers_text(PlaceholderKind::QuestionMark, base, rows.last()@.len());
        lemma_marker_count_concat(body, ", ("@);
        lemma_marker_count_concat(body + ", ("@, tuple);
        lemma_marker_count_concat(body + ", ("@ + tuple, ")"@);
    } else {
        lemma_marker_free_count(Seq::<char>::empty());
    }
}

/// Law (the statement invariant, under the generic notation): the text of
/// an insert holds exactly one generic marker per bound value, in row
/// order, provided the table, columns and returning list are marker-free.
/// Under the numbered notation the markers are already rendered as numbered
/// sigils, so no generic marker remains to count.
pub proof fn lemma_insert_marker_alignment(b: InsertBuilder)
    requires
        b.placeholder_kind == PlaceholderKind::QuestionMark,
        marker_free(b.table@),
        forall|i: int|
            0 <= i < b.fields.deep_view().len() ==> marker_free(
                #[trigger] b.fields.deep_view()[i],
            ),
        match b.returning_statement {
            Some(s) => marker_free(s@),
            None => true,
        },
    ensures
        marker_count(insert_core_text(b)) == rows_count(b.values@),
{
    reveal_strlit("INSERT INTO ");
    reveal_strlit("(");
    reveal_strlit(") VALUES ");
    reveal_strlit(" ");
    reveal_strlit(", ");
    lemma_marker_free_count("INSERT INTO "@);
    lemma_marker_free_count(b.table@);
    lemma_marker_free_count("("@);
    lemma_marker_free_count(") VALUES "@);
    lemma_marker_free_count(" "@);
    lemma_join_with_marker_free(b.fields.deep_view(), ", "@);
    let fields = join_with(b.fields.deep_view(), ", "@);
    lemma_marker_free_count(fields);
    lemma_tuples_marker_count(b.values@);
    let tuples = tuples_text(b.placeholder_kind, b.values@);
    let tail = match b.returning_statement {
        Some(s) => s@,
        None => Seq::<char>::empty(),
    };
    lemma_marker_free_count(tail);
    let p1 = "INSERT INTO "@ + b.table@;
    let p2 = p1 + "("@;
    let p3 = p2 + fields;
    let p4 = p3 + ") VALUES "@;
    let p5 = p4 + tuples;
    let p6 = p5 + " "@;
    lemma_marker_count_concat("INSERT INTO "@, b.table@);
    lemma_marker_count_concat(p1, "("@);
    lemma_marker_count_concat(p2, fields);
    lemma_marker_count_concat(p3, ") VALUES "@);
    lemma_marker_count_concat(p4, tuples);
    lemma_marker_count_concat(p5, " "@);
    lemma_marker_count_concat(p6, tail);
}

impl InsertBuilder {
    /// A fresh insert statement under the given placeholder notation.
    pub fn new(placeholder: PlaceholderKind) -> (r: Self)
        ensures
            r.table@ == Seq::<char>::empty(),
            r.fields@.len() == 0,
            r.values@.len() == 0,
            r.returning_statement is None,
            r.placeholder_kind == placeholder,
    {
        InsertBuilder {
            table: String::new(),
            fields: Vec::new(),
            values: Vec::new(),
            returning_statement: None,
            placeholder_kind: placeholder,
        }
    }

    /// Sets the inserted table's name.
    pub fn table(&mut self, table: &str)
        ensures
            final(self).table@ == table@,
            final(self).fields == old(self).fields,
            final(self).values == old(self).values,
            final(self).returning_statement == old(self).returning_statement,
            final(self).placeholder_kind == old(self).placeholder_kind,
    {
        self.table = table.to_owned();
    }

    /// Sets the column list, replacing any earlier one.
    pub fn columns(&mut self, values: Vec<&str>)
        ensures
            final(self).fields.deep_view() == values.deep_view(),
            final(self).table == old(self).table,
            final(self).values == old(self).values,
            final(self).returning_statement == old(self).returning_statement,
            final(self).placeholder_kind == old(self).placeholder_kind,
    {
        let ghost cols = values.deep_view();
        let mut fields: Vec<String> = Vec::new();
        let mut i: usize = 0;
        while i < values.len()
            invariant
                i <= values@.len(),
                cols == values.deep_view(),
                cols.len() == values@.len(),
                fields.deep_view() == cols.subrange(0, i as int),
            decreases values@.len() - i,
        {
            proof {
                assert(values@[i as int].deep_view() == cols[i as int]);
            }
            let f = values[i].to_owned();
            let ghost fields_pre = fields;
            let ghost f_snap = f;
            fields.push(f);
            proof {
                crate::text::lemma_deep_view_push(fields_pre, fields, f_snap);
                assert(fields.deep_view() =~= cols.subrange(0, i as int + 1));
            }
            i += 1;
        }
        proof {
            assert(cols.subrange(0, cols.len() as int) =~= cols);
        }
        self.fields = fields;
    }

    /// Appends one value tuple.  Fails, leaving the statement unchanged,
    /// exactly when the tuple does not hold one value per declared column.
    pub fn values(&mut self, values: Vec<SqlValue>) -> (r: Result<(), ValidationError>)
        ensures
            old(self).fields@.len() != values@.len() ==> (r == Err::<(), ValidationError>(
                ValidationError::ColumnValueCountMismatch,
            ) && *final(self) == *old(self)),
            old(self).fields@.len() == values@.len() ==> (r is Ok && ({
                &&& final(self).values@ == old(self).values@.push(values)
                &&& final(self).table == old(self).table
                &&& final(self).fields == old(self).fields
                &&& final(self).returning_statement == old(self).returning_statement
                &&& final(self).placeholder_kind == old(self).placeholder_kind
            })),
    {
        if self.fields.len() != values.len() {
            return Err(ValidationError::ColumnValueCountMismatch);
        }
        self.values.push(values);
        Ok(())
    }

    /// The value tuples accumulated so far, in row order.
    pub fn get_values(&self) -> (r: Vec<Vec<SqlValue>>)
        ensures
            r.deep_view() == self.values.deep_view(),
    {
        let r = self.values.clone();
        proof {
            assert forall|i: int| 0 <= i < r.deep_view().len() implies r.deep_view()[i]
                == self.values.deep_view()[i] by {
                assert(vstd::pervasive::cloned::<Vec<SqlValue>>(self.values[i], r[i]));
                if self.values[i] != r[i] {
                    assert forall|j: int| 0 <= j < r[i]@.len() implies r[i].deep_view()[j]
                        == self.values[i].deep_view()[j] by {
                        assert(vstd::pervasive::cloned::<SqlValue>(self.values[i]@[j], r[i]@[j]));
                    }
                    assert(r[i].deep_view() =~= self.values[i].deep_view());
                }
            }
            assert(r.deep_view() =~= self.values.deep_view());
        }
        r
    }

    /// Sets the returning list.  An empty column list contributes nothing.
    pub fn returning(&mut self, values: Vec<&str>)
        ensures
            values@.len() == 0 ==> *final(self) == *old(self),
            values@.len() > 0 ==> ({
                &&& final(self).returning_statement matches Some(s) && s@ == returning_text(
                    values.deep_view(),
                )
                &&& final(self).table == old(self).table
                &&& final(self).fields == old(self).fields
                &&& final(self).values == old(self).values
                &&& final(self).placeholder_kind == old(self).placeholder_kind
            }),
    {
        if values.len() > 0 {
            let mut s = "RETURNING ".to_owned();
            let cols = join_strs(&values, ", ");
            s.append(cols.as_str());
            self.returning_statement = Some(s);
        }
    }

    /// Renders the statement.  The markers are generated directly under the
    /// statement's notation, one counter running across all tuples in row
    /// order; no substitution pass follows, and building never fails.  Under
    /// the numbered notation the total number of bound values must fit the
    /// counter, a machine limit.
    pub fn build(&self) -> (r: Result<String, ValidationError>)
        requires
            self.placeholder_kind == PlaceholderKind::DollarSequential ==> rows_count(
                self.values@,
            ) <= usize::MAX,
        ensures
            r matches Ok(s) && s@ == insert_built_text(*self),
    {
        let ghost rows = self.values@;
        let mut statement = "INSERT INTO ".to_owned();
        statement.append(self.table.as_str());
        statement.append("(");
        let fields = join_strings(&self.fields, ", ");
        statement.append(fields.as_str());
        statement.append(") VALUES ");
        let ghost head = statement@;
        let mut counter: usize = 0;
        let mut i: usize = 0;
        proof {
            assert(rows.subrange(0, 0) =~= Seq::<Vec<SqlValue>>::empty());
            assert(statement@ =~= head + tuples_text(self.placeholder_kind, rows.subrange(0, 0)));
        }
        while i < self.values.len()
            invariant
                rows == self.values@,
                i <= rows.len(),
                self.placeholder_kind == PlaceholderKind::DollarSequential ==> rows_count(rows)
                    <= usize::MAX,
                self.placeholder_kind == PlaceholderKind::DollarSequential ==> counter as nat
                    == rows_count(rows.subrange(0, i as int)),
                statement@ == head + tuples_text(self.placeholder_kind, rows.subrange(0, i as int)),
            decreases rows.len() - i,
        {
            let ghost pre = statement@;
            let ghost base = rows_count(rows.subrange(0, i as int));
            if i > 0 {
                statement.append(", (");
            } else {
                statement.append("(");
            }
            let row_len = self.values[i].len();
            let mut j: usize = 0;
            let ghost tuple_start = statement@;
            proof {
                assert(statement@ =~= tuple_start + tuple_markers_text(
                    self.placeholder_kind,
                    base,
                    0,
                ));
            }
            while j < row_len
                invariant
                    rows == self.values@,
                    i < rows.len(),
                    j <= row_len,
                    row_len == rows[i as int]@.len(),
                    base == rows_count(rows.subrange(0, i as int)),
                    self.placeholder_kind == PlaceholderKind::DollarSequential ==> rows_count(
                        rows,
                    ) <= usize::MAX,
                    self.placeholder_kind == PlaceholderKind::DollarSequential ==> counter as nat
                        == base + j,
                    statement@ == tuple_start + tuple_markers_text(
                        self.placeholder_kind,
                        base,
                        j as nat,
                    ),
                decreases row_len - j,
            {
                let ghost marker_pre = statement@;
                if j > 0 {
                    statement.append(", ");
                }
                match &self.placeholder_kind {
                    PlaceholderKind::QuestionMark => {
                        statement.append("?");
                    },
                    PlaceholderKind::DollarSequential => {
                        proof {
                            let sub1 = rows.subrange(0, i as int + 1);
                            assert(sub1.drop_last() =~= rows.subrange(0, i as int));
                            assert(sub1.last() == rows[i as int]);
                            assert(rows_count(sub1) == base + row_len);
                            lemma_rows_count_prefix(rows, i as int + 1);
                        }
                        counter += 1;
                        statement.append("$");
                        let n = usize_to_string(counter);
                        statement.append(n.as_str());
                    },
                }
                proof {
                    assert(statement@ =~= tuple_start + tuple_markers_text(
                        self.placeholder_kind,
                        base,
                        j as nat + 1,
                    ));
                }
                j += 1;
            }
            statement.append(")");
            proof {
                let sub1 = rows.subrange(0, i as int + 1);
                assert(sub1.last() == rows[i as int]);
                if i == 0 {
                    assert(sub1.len() == 1);
                    assert(sub1[0] == rows[0]);
                    assert(sub1.drop_last() =~= rows.subrange(0, 0));
                } else {
                    assert(sub1.drop_last() =~= rows.subrange(0, i as int));
                }
                assert(statement@ =~= head + tuples_text(self.placeholder_kind, sub1));
                assert(rows_count(sub1) == base + row_len);
            }
            i += 1;
        }
        proof {
            assert(rows.subrange(0, rows.len() as int) =~= rows);
        }
        statement.append(" ");
        if let Some(r) = &self.returning_statement {
            statement.append(r.as_str());
        }
        proof {
            assert(statement@ =~= insert_core_text(*self));
        }
        Ok(trim_string(statement.as_str()))
    }
}

} // verus!
