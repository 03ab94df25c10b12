//! The boolean connective placed in front of a condition or an expression.

use crate::text::marker_free;
use vstd::prelude::*;

verus! {

/// The connective that prefixes a condition or a grouped expression.
#[derive(Clone, Copy, Debug, PartialEq, Eq, Structural)]
pub enum Logic {
    And,
    Or,
}

/// The SQL text of a connective.
pub open spec fn logic_text(l: Logic) -> Seq<char> {
    match l {
        Logic::And => "AND"@,
        Logic::Or => "OR"@,
    }
}

/// The text that an optional connective contributes when it stands alone,
/// as in front of a grouped expression: the connective's text, or nothing.
pub open spec fn opt_logic_text(l: Option<Logic>) -> Seq<char> {
    match l {
        Some(x) => logic_text(x),
        None => Seq::empty(),
    }
}

/// The rendering of an optional connective is free of the marker character.
pub proof fn lemma_opt_logic_marker_free(l: Option<Logic>)
    ensures
        marker_free(opt_logic_text(l)),
{
    reveal_strlit("AND");
    reveal_strlit("OR");
    match l {
        Some(Logic::And) => {
            assert(marker_free("AND"@));
        },
        Some(Logic::Or) => {
            assert(marker_free("OR"@));
        },
        None => {
            assert(marker_free(Seq::<char>::empty()));
        },
    }
}

impl Logic {
    /// The exec counterpart of [`logic_text`].
    pub fn sql_str(&self) -> (r: &'static str)
        ensures
            r@ == logic_text(*self),
    {
        match self {
            Logic::And => "AND",
            Logic::Or => "OR",
        }
    }
}

} // verus!
