//! The dynamically-typed values that conditions and assignments bind.
//!
//! The engine never interprets a bound value; it only distinguishes scalars
//! from arrays, because an array renders as a parenthesised marker.  Values
//! are carried through, in textual order, into the statement's bound-value
//! list.

use vstd::prelude::*;

verus! {

/// One scalar value reference.
#[derive(Debug, PartialEq, Eq)]
pub enum SqlScalar {
    Null,
    Bool(bool),
    Int(i64),
    Uint(u64),
    Text(String),
}

/// One bound value: a scalar, or an array of scalars.
#[derive(Debug, PartialEq, Eq)]
pub enum SqlValue {
    Scalar(SqlScalar),
    Array(Vec<SqlScalar>),
}

/// The mathematical shape of a bound value.
pub enum SqlValueView {
    Scalar(SqlScalar),
    Array(Seq<SqlScalar>),
}

impl View for SqlValue {
    type V = SqlValueView;

    open spec fn view(&self) -> SqlValueView {
        match self {
            SqlValue::Scalar(s) => SqlValueView::Scalar(*s),
            SqlValue::Array(items) => SqlValueView::Array(items@),
        }
    }
}

impl DeepView for SqlValue {
    type V = SqlValueView;

    open spec fn deep_view(&self) -> SqlValueView {
        self.view()
    }
}

impl Clone for SqlScalar {
    fn clone(&self) -> (r: Self)
        ensures
            r == *self,
    {
        match self {
            SqlScalar::Null => SqlScalar::Null,
            SqlScalar::Bool(b) => SqlScalar::Bool(*b),
            SqlScalar::Int(i) => SqlScalar::Int(*i),
            SqlScalar::Uint(u) => SqlScalar::Uint(*u),
            SqlScalar::Text(s) => SqlScalar::Text(s.clone()),
        }
    }
}

impl Clone for SqlValue {
    /// A clone keeps the value's shape and content; only the identity of the
    /// backing array storage may differ.
    fn clone(&self) -> (r: Self)
        ensures
            r@ == self@,
    {
        match self {
            SqlValue::Scalar(s) => SqlValue::Scalar(s.clone()),
            SqlValue::Array(items) => {
                let mut out: Vec<SqlScalar> = Vec::new();
                let mut i: usize = 0;
                while i < items.len()
                    invariant
                        i <= items.len(),
                        out@ == items@.subrange(0, i as int),
                    decreases items.len() - i,
                {
                    out.push(items[i].clone());
                    proof {
                        assert(out@ =~= items@.subrange(0, i as int + 1));
                    }
                    i += 1;
                }
                proof {
                    assert(items@.subrange(0, items@.len() as int) =~= items@);
                }
                SqlValue::Array(out)
            },
        }
    }
}

} // verus!
