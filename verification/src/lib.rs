//! A composable generator of parameterized SQL statement text.
//!
//! Structured predicate and clause descriptions are folded, bottom-up, into a
//! single statement string together with an ordered list of values to bind to
//! the placeholders in that string.  Leaf conditions combine into grouped
//! boolean expressions, expressions combine into full statements, and a final
//! substitution pass rewrites the generic `?` markers into the chosen wire
//! notation while the bound-value list stays aligned, position for position,
//! with the markers as they appear in the text.

pub mod error;
pub mod placeholder;
pub mod postgres;
pub mod text;
pub mod value;
