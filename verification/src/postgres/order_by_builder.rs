//! The `ORDER BY` clause builder: validates and renders an ordered field
//! list, de-duplicating fully-rendered fragments.

use crate::error::ValidationError;
use crate::postgres::condition_builder::alias_prefix;
use crate::text::{join_strings, join_with, trim_spec, trim_string, vec_contains_string};
use vstd::prelude::*;

verus! {

/// The direction of one ordering item.
#[derive(Clone, Copy, Debug, PartialEq, Eq, Structural)]
pub enum Sequence {
    Asc,
    Desc,
}

/// The SQL text of an ordering direction.
pub open spec fn sequence_text(s: Sequence) -> Seq<char> {
    match s {
        Sequence::Asc => "ASC"@,
        Sequence::Desc => "DESC"@,
    }
}

impl Sequence {
    /// The exec counterpart of [`sequence_text`].
    pub fn sql_str(&self) -> (r: &'static str)
        ensures
            r@ == sequence_text(*self),
    {
        match self {
            Sequence::Asc => "ASC",
            Sequence::Desc => "DESC",
        }
    }
}

/// One ordering item: an optionally qualified field and its direction.
#[derive(Debug, Clone)]
pub struct OrderByItem {
    pub table_alias: Option<String>,
    pub field: String,
    pub sequence: Sequence,
}

/// Builds `ORDER BY` clauses.
#[derive(Debug, Clone)]
pub struct OrderByBuilder;

/// The rendered fragment of one ordering item.
pub open spec fn order_item_text(item: OrderByItem) -> Seq<char> {
    alias_prefix(item.table_alias) + item.field@ + " "@ + sequence_text(item.sequence)
}

/// The distinct rendered fragments of the items, in first-occurrence order:
/// a fragment that reads exactly as an earlier one is skipped.
pub open spec fn rendered_order_items(items: Seq<OrderByItem>) -> Seq<Seq<char>>
    decreases items.len(),
{
    if items.len() == 0 {
        Seq::empty()
    } else {
        let prev = rendered_order_items(items.drop_last());
        let t = order_item_text(items.last());
        if prev.contains(t) {
            prev
        } else {
            prev.push(t)
        }
    }
}

/// The full text of an `ORDER BY` clause built from `items`.
pub open spec fn order_by_text(items: Seq<OrderByItem>) -> Seq<char> {
    "ORDER BY "@ + trim_spec(join_with(rendered_order_items(items), ", "@))
}

/// Whether every item of the list carries a non-empty field name.
pub open spec fn all_order_fields_nonempty(items: Seq<OrderByItem>) -> bool {
    forall|i: int| 0 <= i < items.len() ==> #[trigger] items[i].field@.len() > 0
}

impl OrderByBuilder {
    /// Renders the ordering clause.  Fails exactly when the item list is
    /// empty, or — with the first such item — when an item's field name is
    /// empty; duplicates by rendered text are skipped, keeping first
    /// occurrences.
    pub fn build(values: Vec<OrderByItem>) -> (r: Result<String, ValidationError>)
        ensures
            values@.len() == 0 ==> r == Err::<String, ValidationError>(ValidationError::EmptyItems),
            values@.len() > 0 && !all_order_fields_nonempty(values@) ==> r == Err::<
                String,
                ValidationError,
            >(ValidationError::EmptyField),
            values@.len() > 0 && all_order_fields_nonempty(values@) ==> (r matches Ok(s) && s@
                == order_by_text(values@)),
    {
        if values.len() == 0 {
            return Err(ValidationError::EmptyItems);
        }
        let mut rendered: Vec<String> = Vec::new();
        let mut i: usize = 0;
        proof {
            assert(rendered.deep_view() =~= rendered_order_items(values@.subrange(0, 0)));
        }
        while i < values.len()
            invariant
                i <= values@.len(),
                forall|j: int| 0 <= j < i ==> #[trigger] values@[j].field@.len() > 0,
                rendered.deep_view() == rendered_order_items(values@.subrange(0, i as int)),
            decreases values@.len() - i,
        {
            let item = &values[i];
            if item.field.as_str().is_empty() {
                proof {
                    assert(values@[i as int].field@.len() == 0);
                }
                return Err(ValidationError::EmptyField);
            }
            let mut value = String::new();
            if let Some(alias) = &item.table_alias {
                value.append(alias.as_str());
                value.append(".");
            }
            value.append(item.field.as_str());
            value.append(" ");
            value.append(item.sequence.sql_str());
            proof {
                assert(value@ =~= order_item_text(values@[i as int]));
            }
            let ghost pre = rendered.deep_view();
            if !vec_contains_string(&rendered, &value) {
                rendered.push(value);
                proof {
                    assert(rendered.deep_view() =~= pre.push(order_item_text(
                        values@[i as int],
                    )));
                }
            }
            proof {
                let sub1 = values@.subrange(0, i as int + 1);
                assert(sub1.drop_last() =~= values@.subrange(0, i as int));
                assert(sub1.last() == values@[i as int]);
            }
            i += 1;
        }
        proof {
            assert(values@.subrange(0, values@.len() as int) =~= values@);
        }
        let body = join_strings(&rendered, ", ");
        let trimmed = trim_string(body.as_str());
        let mut statement = "ORDER BY ".to_owned();
        statement.append(trimmed.as_str());
        Ok(statement)
    }
}

} // verus!
