//! The error type shared by all clause and statement builders.

use vstd::prelude::*;

verus! {

/// A validation failure raised by a builder call.  Every failure is detected
/// at the offending call and surfaced to the caller; a build that fails
/// produces no text and no value list.
#[derive(Clone, Copy, Debug, PartialEq, Eq, Structural)]
pub enum ValidationError {
    /// A condition, ordering or grouping item carries an empty field name.
    EmptyField,
    /// An ordering or grouping clause was built from an empty item list.
    EmptyItems,
    /// An insert row does not have one value per declared column.
    ColumnValueCountMismatch,
    /// The assignment clause of an update was supplied more than once.
    SetAlreadyApplied,
    /// A nested select was built with a notation other than the generic
    /// `?` marker; nested statements are substituted once, at the outermost
    /// assembly, and must stay generic internally.
    NestedQueryNotGeneric,
}

impl ValidationError {
    /// A human-readable description of the failure.
    pub fn message(&self) -> &'static str {
        match self {
            ValidationError::EmptyField => "field is empty",
            ValidationError::EmptyItems => "item list is empty",
            ValidationError::ColumnValueCountMismatch => {
                "mismatched number of fields and values"
            },
            ValidationError::SetAlreadyApplied => "`.set()` can only be called once",
            ValidationError::NestedQueryNotGeneric => {
                "a nested select must use the question mark placeholder kind"
            },
        }
    }
}

} // verus!
