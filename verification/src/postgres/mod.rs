//! The PostgreSQL-flavoured clause and statement builders.

use vstd::prelude::*;

pub mod condition_builder;
pub mod delete_builder;
pub mod expression_builder;
pub mod group_by_builder;
pub mod insert_builder;
pub mod join_builder;
pub mod logic;
pub mod operator;
pub mod order_by_builder;
pub mod select_builder;
pub mod set_builder;
pub mod table_columns_builder;
pub mod update_builder;
pub mod where_builder;

pub use condition_builder::{ConditionBuilder, ConditionValue};
pub use delete_builder::DeleteBuilder;
pub use expression_builder::ExpressionBuilder;
pub use group_by_builder::{GroupByBuilder, GroupByItem};
pub use insert_builder::InsertBuilder;
pub use join_builder::{JoinBuilder, JoinKind};
pub use logic::Logic;
pub use operator::Operator;
pub use order_by_builder::{OrderByBuilder, OrderByItem, Sequence};
pub use select_builder::SelectBuilder;
pub use set_builder::{SetBuilder, SetFieldUpdate, SetValue};
pub use table_columns_builder::TableColumnsBuilder;
pub use update_builder::UpdateBuilder;
pub use where_builder::WhereBuilder;

verus! {

/// The text of a `RETURNING` clause over the given column names.
pub open spec fn returning_text(cols: Seq<Seq<char>>) -> Seq<char> {
    "RETURNING "@ + crate::text::join_with(cols, ", "@)
}

} // verus!
