//! The placeholder notation and the substitution pass that rewrites the
//! generic `?` marker into the chosen wire notation.
//!
//! The pass runs exactly once, over the whole assembled statement, after all
//! clause fragments have been concatenated in canonical order.  That is what
//! keeps the sequential counter monotonic and aligned with the value list.
//! The scan looks for the marker *character* anywhere in the text, so an
//! operator whose rendering reuses that character (the JSONB key operators)
//! is rewritten too when the sequential notation is chosen; the grouped
//! marker-count laws therefore speak only of marker-free fragments.

use crate::text::{decimal_str, lemma_decimal_str_digits, marker_free, usize_to_string};
use vstd::prelude::*;

verus! {

/// The placeholder notation used for value bindings in generated SQL.
///
/// - `QuestionMark` keeps the generic `?` marker (SQLite, MySQL, ...).
/// - `DollarSequential` numbers the markers `$1`, `$2`, ... (PostgreSQL).
#[derive(Clone, Copy, Debug, PartialEq, Eq, Structural)]
pub enum PlaceholderKind {
    QuestionMark,
    DollarSequential,
}

impl Default for PlaceholderKind {
    fn default() -> (r: Self)
        ensures
            r == PlaceholderKind::QuestionMark,
    {
        PlaceholderKind::QuestionMark
    }
}

/// The sequential renumbering of `s` when `k` markers have already been
/// numbered: the `j`-th remaining `?` becomes `$` followed by the decimal
/// rendering of `k + j`, counting from one.
pub open spec fn renumber_from(s: Seq<char>, k: nat) -> Seq<char>
    decreases s.len(),
{
    if s.len() == 0 {
        s
    } else if s[0] == '?' {
        seq!['$'] + decimal_str(k + 1) + renumber_from(s.drop_first(), k + 1)
    } else {
        seq![s[0]] + renumber_from(s.drop_first(), k)
    }
}

/// What the substitution pass makes of `s` under the notation `kind`.
pub open spec fn substituted(s: Seq<char>, kind: PlaceholderKind) -> Seq<char> {
    match kind {
        PlaceholderKind::QuestionMark => s,
        PlaceholderKind::DollarSequential => renumber_from(s, 0),
    }
}

/// Renumbering walks over a marker-free prefix unchanged.
pub proof fn lemma_renumber_clean_prefix(p: Seq<char>, rest: Seq<char>, k: nat)
    requires
        marker_free(p),
    ensures
        renumber_from(p + rest, k) == p + renumber_from(rest, k),
    decreases p.len(),
{
    if p.len() == 0 {
        assert(p + rest =~= rest);
        assert(p + renumber_from(rest, k) =~= renumber_from(rest, k));
    } else {
        assert((p + rest).drop_first() =~= p.drop_first() + rest);
        assert(marker_free(p.drop_first())) by {
            assert(forall|i: int|
                0 <= i < p.drop_first().len() ==> #[trigger] p.drop_first()[i] == p[i + 1]);
        }
        lemma_renumber_clean_prefix(p.drop_first(), rest, k);
        assert((p + rest)[0] == p[0]);
        assert(seq![p[0]] + (p.drop_first() + renumber_from(rest, k)) =~= p + renumber_from(
            rest,
            k,
        ));
    }
}

/// Renumbered text holds no marker: every `?` was rewritten and neither `$`
/// nor a decimal digit is the marker character.
pub proof fn lemma_renumber_marker_free(s: Seq<char>, k: nat)
    ensures
        marker_free(renumber_from(s, k)),
    decreases s.len(),
{
    if s.len() > 0 {
        if s[0] == '?' {
            lemma_decimal_str_digits(k + 1);
            lemma_renumber_marker_free(s.drop_first(), k + 1);
            let num = decimal_str(k + 1);
            let rest = renumber_from(s.drop_first(), k + 1);
            let whole = seq!['$'] + num + rest;
            assert forall|i: int| 0 <= i < whole.len() implies whole[i] != '?' by {
                if i == 0 {
                } else if i < 1 + num.len() {
                    assert(whole[i] == num[i - 1]);
                } else {
                    assert(whole[i] == rest[i - 1 - num.len()]);
                }
            }
        } else {
            lemma_renumber_marker_free(s.drop_first(), k);
            let rest = renumber_from(s.drop_first(), k);
            let whole = seq![s[0]] + rest;
            assert forall|i: int| 0 <= i < whole.len() implies whole[i] != '?' by {
                if i > 0 {
                    assert(whole[i] == rest[i - 1]);
                }
            }
        }
    }
}

/// Renumbering marker-free text returns it unchanged.
pub proof fn lemma_renumber_identity(s: Seq<char>, k: nat)
    requires
        marker_free(s),
    ensures
        renumber_from(s, k) == s,
    decreases s.len(),
{
    if s.len() > 0 {
        assert(marker_free(s.drop_first())) by {
            assert(forall|i: int|
                0 <= i < s.drop_first().len() ==> #[trigger] s.drop_first()[i] == s[i + 1]);
        }
        lemma_renumber_identity(s.drop_first(), k);
        assert(seq![s[0]] + s.drop_first() =~= s);
    }
}

/// Law: the substitution pass is idempotent.  Under the generic notation it
/// is the identity; under the sequential notation the first pass leaves no
/// marker behind, so a second pass does not double-number the text.
pub proof fn lemma_substitution_idempotent(s: Seq<char>, kind: PlaceholderKind)
    ensures
        substituted(substituted(s, kind), kind) == substituted(s, kind),
{
    if kind is DollarSequential {
        lemma_renumber_marker_free(s, 0);
        lemma_renumber_identity(renumber_from(s, 0), 0);
    }
}

/// Rewrites the markers of `s` into the sequential `$1`, `$2`, ... notation,
/// scanning left to right.
fn renumber_markers(s: &str) -> (r: String)
    ensures
        r@ == renumber_from(s@, 0),
{
    let len = s.unicode_len();
    let mut out = String::new();
    let mut start: usize = 0;
    let mut counter: usize = 0;
    let mut i: usize = 0;
    proof {
        assert(s@.subrange(0, len as int) =~= s@);
        assert(out@ + renumber_from(s@.subrange(0, len as int), 0) =~= renumber_from(s@, 0));
    }
    while i < len
        invariant
            start <= i <= len,
            counter <= start,
            len == s@.len(),
            forall|j: int| start <= j < i ==> s@[j] != '?',
            renumber_from(s@, 0) == out@ + renumber_from(
                s@.subrange(start as int, len as int),
                counter as nat,
            ),
        decreases len - i,
    {
        let c = s.get_char(i);
        if c == '?' {
            let ghost out_pre = out@;
            let ghost run_view = s@.subrange(start as int, i as int);
            let ghost tail = s@.subrange(i as int, len as int);
            let ghost next_tail = s@.subrange(i as int + 1, len as int);
            let run = s.substring_char(start, i);
            out.append(run);
            proof {
                reveal_strlit("$");
            }
            out.append("$");
            counter += 1;
            let num = usize_to_string(counter);
            out.append(num.as_str());
            proof {
                assert(s@.subrange(start as int, len as int) =~= run_view + tail);
                assert(marker_free(run_view));
                lemma_renumber_clean_prefix(run_view, tail, (counter - 1) as nat);
                assert(tail[0] == '?');
                assert(tail.drop_first() =~= next_tail);
                assert(renumber_from(tail, (counter - 1) as nat) == seq!['$'] + decimal_str(
                    counter as nat,
                ) + renumber_from(next_tail, counter as nat));
                assert("$"@ =~= seq!['$']);
                assert(out@ =~= out_pre + run_view + seq!['$'] + decimal_str(counter as nat));
                assert(out@ + renumber_from(next_tail, counter as nat) =~= out_pre
                    + renumber_from(s@.subrange(start as int, len as int), (counter - 1) as nat));
            }
            start = i + 1;
        }
        i += 1;
    }
    let run = s.substring_char(start, len);
    out.append(run);
    proof {
        let tail = s@.subrange(start as int, len as int);
        assert(marker_free(tail));
        lemma_renumber_identity(tail, counter as nat);
    }
    out
}

/// Applies the substitution pass to `s` under the notation `kind`.
pub fn apply_placeholders(s: &str, kind: &PlaceholderKind) -> (r: String)
    ensures
        r@ == substituted(s@, *kind),
{
    match kind {
        PlaceholderKind::QuestionMark => s.to_owned(),
        PlaceholderKind::DollarSequential => renumber_markers(s),
    }
}

} // verus!
