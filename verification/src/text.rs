//! Text-level helpers shared by the clause and statement builders: decimal
//! rendering for the numbered placeholder notation, joining fragments with a
//! separator, whitespace trimming, and marker counting.

use vstd::prelude::*;

verus! {

/// The character of the decimal digit `d`.
pub open spec fn decimal_digit(d: nat) -> char {
    if d == 0 {
        '0'
    } else if d == 1 {
        '1'
    } else if d == 2 {
        '2'
    } else if d == 3 {
        '3'
    } else if d == 4 {
        '4'
    } else if d == 5 {
        '5'
    } else if d == 6 {
        '6'
    } else if d == 7 {
        '7'
    } else if d == 8 {
        '8'
    } else {
        '9'
    }
}

/// The decimal rendering of `n`, most significant digit first.
pub open spec fn decimal_str(n: nat) -> Seq<char>
    decreases n,
{
    if n < 10 {
        seq![decimal_digit(n)]
    } else {
        decimal_str(n / 10).push(decimal_digit(n % 10))
    }
}

/// Every character of a decimal rendering is a digit.
pub proof fn lemma_decimal_str_digits(n: nat)
    ensures
        forall|i: int|
            0 <= i < decimal_str(n).len() ==> '0' <= #[trigger] decimal_str(n)[i] <= '9',
    decreases n,
{
    if n < 10 {
        assert(decimal_str(n) == seq![decimal_digit(n)]);
    } else {
        lemma_decimal_str_digits(n / 10);
        let prefix = decimal_str(n / 10);
        let whole = decimal_str(n);
        assert(whole == prefix.push(decimal_digit(n % 10)));
        assert forall|i: int| 0 <= i < whole.len() implies '0' <= #[trigger] whole[i] <= '9' by {
            if i < prefix.len() {
                assert(whole[i] == prefix[i]);
            } else {
                assert(whole[i] == decimal_digit(n % 10));
            }
        }
    }
}

/// Appends the character of the decimal digit `d` to `s`.
fn append_digit(s: &mut String, d: usize)
    requires
        d < 10,
    ensures
        final(s)@ == old(s)@ + seq![decimal_digit(d as nat)],
{
    if d == 0 {
        proof {
            reveal_strlit("0");
            assert("0"@ =~= seq![decimal_digit(d as nat)]);
        }
        s.append("0");
    } else if d == 1 {
        proof {
            reveal_strlit("1");
            assert("1"@ =~= seq![decimal_digit(d as nat)]);
        }
        s.append("1");
    } else if d == 2 {
        proof {
            reveal_strlit("2");
            assert("2"@ =~= seq![decimal_digit(d as nat)]);
        }
        s.append("2");
    } else if d == 3 {
        proof {
            reveal_strlit("3");
            assert("3"@ =~= seq![decimal_digit(d as nat)]);
        }
        s.append("3");
    } else if d == 4 {
        proof {
            reveal_strlit("4");
            assert("4"@ =~= seq![decimal_digit(d as nat)]);
        }
        s.append("4");
    } else if d == 5 {
        proof {
            reveal_strlit("5");
            assert("5"@ =~= seq![decimal_digit(d as nat)]);
        }
        s.append("5");
    } else if d == 6 {
        proof {
            reveal_strlit("6");
            assert("6"@ =~= seq![decimal_digit(d as nat)]);
        }
        s.append("6");
    } else if d == 7 {
        proof {
            reveal_strlit("7");
            assert("7"@ =~= seq![decimal_digit(d as nat)]);
        }
        s.append("7");
    } else if d == 8 {
        proof {
            reveal_strlit("8");
            assert("8"@ =~= seq![decimal_digit(d as nat)]);
        }
        s.append("8");
    } else {
        proof {
            reveal_strlit("9");
            assert("9"@ =~= seq![decimal_digit(d as nat)]);
        }
        s.append("9");
    }
}

/// Appends the decimal rendering of `n` to `s`.
pub fn append_decimal(s: &mut String, n: usize)
    ensures
        final(s)@ == old(s)@ + decimal_str(n as nat),
    decreases n,
{
    if n >= 10 {
        append_decimal(s, n / 10);
        append_digit(s, n % 10);
        proof {
            assert(s@ =~= old(s)@ + decimal_str(n as nat));
        }
    } else {
        append_digit(s, n);
    }
}

/// The fragments of `items` joined with the separator `sep`.
pub open spec fn join_with(items: Seq<Seq<char>>, sep: Seq<char>) -> Seq<char>
    decreases items.len(),
{
    if items.len() == 0 {
        Seq::empty()
    } else if items.len() == 1 {
        items[0]
    } else {
        join_with(items.drop_last(), sep) + sep + items.last()
    }
}

/// Extending a join by one more fragment appends one separator and the
/// fragment.
pub proof fn lemma_join_with_step(items: Seq<Seq<char>>, sep: Seq<char>, i: int)
    requires
        0 <= i < items.len(),
    ensures
        i == 0 ==> join_with(items.subrange(0, 1), sep) == items[0],
        i > 0 ==> join_with(items.subrange(0, i + 1), sep) == join_with(
            items.subrange(0, i),
            sep,
        ) + sep + items[i],
{
    let sub = items.subrange(0, i + 1);
    if i == 0 {
        assert(sub.len() == 1);
        assert(sub[0] == items[0]);
    } else {
        assert(sub.drop_last() =~= items.subrange(0, i));
        assert(sub.last() == items[i]);
    }
}

/// Joins the strings of `items` with the separator `sep`.
pub fn join_strings(items: &Vec<String>, sep: &str) -> (r: String)
    ensures
        r@ == join_with(items.deep_view(), sep@),
{
    let mut r = String::new();
    let mut i: usize = 0;
    while i < items.len()
        invariant
            i <= items.len(),
            items.deep_view().len() == items@.len(),
            r@ == join_with(items.deep_view().subrange(0, i as int), sep@),
        decreases items.len() - i,
    {
        if i > 0 {
            r.append(sep);
        }
        r.append(items[i].as_str());
        proof {
            lemma_join_with_step(items.deep_view(), sep@, i as int);
        }
        i += 1;
    }
    proof {
        assert(items.deep_view().subrange(0, items@.len() as int) =~= items.deep_view());
    }
    r
}

/// Joins the string slices of `items` with the separator `sep`.
pub fn join_strs(items: &Vec<&str>, sep: &str) -> (r: String)
    ensures
        r@ == join_with(items.deep_view(), sep@),
{
    let mut r = String::new();
    let mut i: usize = 0;
    while i < items.len()
        invariant
            i <= items.len(),
            items.deep_view().len() == items@.len(),
            r@ == join_with(items.deep_view().subrange(0, i as int), sep@),
        decreases items.len() - i,
    {
        if i > 0 {
            r.append(sep);
        }
        r.append(items[i]);
        proof {
            lemma_join_with_step(items.deep_view(), sep@, i as int);
        }
        i += 1;
    }
    proof {
        assert(items.deep_view().subrange(0, items@.len() as int) =~= items.deep_view());
    }
    r
}

/// The number of generic `?` markers in `s`.
pub open spec fn marker_count(s: Seq<char>) -> nat
    decreases s.len(),
{
    if s.len() == 0 {
        0
    } else {
        (if s[0] == '?' {
            1nat
        } else {
            0nat
        }) + marker_count(s.drop_first())
    }
}

/// Whether `s` holds no generic `?` marker at all.
pub open spec fn marker_free(s: Seq<char>) -> bool {
    forall|i: int| 0 <= i < s.len() ==> s[i] != '?'
}

/// Marker counting distributes over concatenation.
pub proof fn lemma_marker_count_concat(a: Seq<char>, b: Seq<char>)
    ensures
        marker_count(a + b) == marker_count(a) + marker_count(b),
    decreases a.len(),
{
    if a.len() == 0 {
        assert(a + b =~= b);
    } else {
        assert((a + b).drop_first() =~= a.drop_first() + b);
        lemma_marker_count_concat(a.drop_first(), b);
    }
}

/// A text holds no marker exactly when its marker count is zero.
pub proof fn lemma_marker_free_count(s: Seq<char>)
    ensures
        marker_free(s) <==> marker_count(s) == 0,
    decreases s.len(),
{
    if s.len() > 0 {
        lemma_marker_free_count(s.drop_first());
        if s[0] != '?' && marker_free(s.drop_first()) {
            assert forall|i: int| 0 <= i < s.len() implies s[i] != '?' by {
                if i > 0 {
                    assert(s.drop_first()[i - 1] != '?');
                }
            }
        }
    }
}

/// A join of marker-free fragments with a marker-free separator is
/// marker-free.
pub proof fn lemma_join_with_marker_free(items: Seq<Seq<char>>, sep: Seq<char>)
    requires
        forall|i: int| 0 <= i < items.len() ==> marker_free(#[trigger] items[i]),
        marker_free(sep),
    ensures
        marker_free(join_with(items, sep)),
    decreases items.len(),
{
    if items.len() > 1 {
        assert forall|i: int| 0 <= i < items.drop_last().len() implies marker_free(
            #[trigger] items.drop_last()[i],
        ) by {
            assert(items.drop_last()[i] == items[i]);
        }
        lemma_join_with_marker_free(items.drop_last(), sep);
        let body = join_with(items.drop_last(), sep);
        let whole = body + sep + items.last();
        assert forall|i: int| 0 <= i < whole.len() implies whole[i] != '?' by {
            if i < body.len() {
                assert(whole[i] == body[i]);
            } else if i < body.len() + sep.len() {
                assert(whole[i] == sep[i - body.len()]);
            } else {
                assert(whole[i] == items.last()[i - body.len() - sep.len()]);
            }
        }
    }
}

/// The marker count of a one-character text.
pub proof fn lemma_marker_count_singleton(c: char)
    ensures
        marker_count(seq![c]) == (if c == '?' {
            1nat
        } else {
            0nat
        }),
{
    assert(seq![c].drop_first() =~= Seq::<char>::empty());
    assert(marker_count(Seq::<char>::empty()) == 0);
}

/// Trimming surrounding whitespace keeps every marker: the marker character
/// is not whitespace.
pub proof fn lemma_trim_marker_count(s: Seq<char>)
    ensures
        marker_count(trim_spec(s)) == marker_count(s),
{
    lemma_trim_start_marker_count(s);
    lemma_trim_end_marker_count(trim_start_spec(s));
}

/// Trimming leading whitespace keeps every marker.
proof fn lemma_trim_start_marker_count(s: Seq<char>)
    ensures
        marker_count(trim_start_spec(s)) == marker_count(s),
    decreases s.len(),
{
    if s.len() > 0 && is_space_char(s[0]) {
        lemma_trim_start_marker_count(s.drop_first());
    }
}

/// Trimming trailing whitespace keeps every marker.
proof fn lemma_trim_end_marker_count(s: Seq<char>)
    ensures
        marker_count(trim_end_spec(s)) == marker_count(s),
    decreases s.len(),
{
    if s.len() > 0 && is_space_char(s.last()) {
        lemma_trim_end_marker_count(s.drop_last());
        assert(s =~= s.drop_last() + seq![s.last()]);
        lemma_marker_count_concat(s.drop_last(), seq![s.last()]);
        lemma_marker_count_singleton(s.last());
    }
}

/// Pushing an element onto a vector pushes its deep view onto the vector's
/// deep view.
pub proof fn lemma_deep_view_push<T: DeepView>(v1: Vec<T>, v2: Vec<T>, x: T)
    requires
        v2@ == v1@.push(x),
    ensures
        v2.deep_view() == v1.deep_view().push(x.deep_view()),
{
    assert forall|k: int| 0 <= k < v2.deep_view().len() implies v2.deep_view()[k]
        == v1.deep_view().push(x.deep_view())[k] by {
        if k < v1@.len() {
            assert(v2@[k] == v1@[k]);
        } else {
            assert(v2@[k] == x);
        }
    }
    assert(v2.deep_view() =~= v1.deep_view().push(x.deep_view()));
}

/// Whether one of the strings of `items` reads as `s`.
pub fn vec_contains_string(items: &Vec<String>, s: &String) -> (r: bool)
    ensures
        r == items.deep_view().contains(s@),
{
    let mut i: usize = 0;
    while i < items.len()
        invariant
            i <= items.len(),
            items.deep_view().len() == items@.len(),
            forall|j: int| 0 <= j < i ==> items.deep_view()[j] != s@,
        decreases items.len() - i,
    {
        if items[i].eq(s) {
            proof {
                assert(items.deep_view()[i as int] == s@);
            }
            return true;
        }
        i += 1;
    }
    false
}

/// Whether `c` is whitespace, in the sense the trimming pass strips: the
/// Unicode white-space characters.
pub open spec fn is_space_char(c: char) -> bool {
    let u = c as u32;
    u == 0x20 || (0x09 <= u && u <= 0x0D) || u == 0x85 || u == 0xA0 || u == 0x1680 || (0x2000
        <= u && u <= 0x200A) || u == 0x2028 || u == 0x2029 || u == 0x202F || u == 0x205F || u
        == 0x3000
}

/// The exec counterpart of [`is_space_char`].
pub fn is_space(c: char) -> (r: bool)
    ensures
        r == is_space_char(c),
{
    let u = c as u32;
    u == 0x20 || (0x09 <= u && u <= 0x0D) || u == 0x85 || u == 0xA0 || u == 0x1680 || (0x2000
        <= u && u <= 0x200A) || u == 0x2028 || u == 0x2029 || u == 0x202F || u == 0x205F || u
        == 0x3000
}

/// `s` without its leading whitespace.
pub open spec fn trim_start_spec(s: Seq<char>) -> Seq<char>
    decreases s.len(),
{
    if s.len() > 0 && is_space_char(s[0]) {
        trim_start_spec(s.drop_first())
    } else {
        s
    }
}

/// `s` without its trailing whitespace.
pub open spec fn trim_end_spec(s: Seq<char>) -> Seq<char>
    decreases s.len(),
{
    if s.len() > 0 && is_space_char(s.last()) {
        trim_end_spec(s.drop_last())
    } else {
        s
    }
}

/// `s` without leading and trailing whitespace.
pub open spec fn trim_spec(s: Seq<char>) -> Seq<char> {
    trim_end_spec(trim_start_spec(s))
}

/// Trimming the start keeps the suffix that begins at the first non-space
/// character.
proof fn lemma_trim_start_index(s: Seq<char>, a: int)
    requires
        0 <= a <= s.len(),
        forall|j: int| 0 <= j < a ==> is_space_char(#[trigger] s[j]),
        a < s.len() ==> !is_space_char(s[a]),
    ensures
        trim_start_spec(s) == s.subrange(a, s.len() as int),
    decreases a,
{
    if a == 0 {
        assert(s.subrange(0, s.len() as int) =~= s);
    } else {
        let rest = s.drop_first();
        assert(forall|j: int| 0 <= j < a - 1 ==> is_space_char(#[trigger] rest[j]));
        lemma_trim_start_index(rest, a - 1);
        assert(rest.subrange(a - 1, rest.len() as int) =~= s.subrange(a, s.len() as int));
    }
}

/// Trimming the end keeps the prefix that ends after the last non-space
/// character.
proof fn lemma_trim_end_index(s: Seq<char>, b: int)
    requires
        0 <= b <= s.len(),
        forall|j: int| b <= j < s.len() ==> is_space_char(#[trigger] s[j]),
        b > 0 ==> !is_space_char(s[b - 1]),
    ensures
        trim_end_spec(s) == s.subrange(0, b),
    decreases s.len(),
{
    if b == s.len() {
        assert(s.subrange(0, s.len() as int) =~= s);
    } else {
        let rest = s.drop_last();
        assert(forall|j: int| b <= j < rest.len() ==> is_space_char(#[trigger] rest[j]));
        lemma_trim_end_index(rest, b);
        assert(rest.subrange(0, b) =~= s.subrange(0, b));
    }
}

/// Strips leading and trailing whitespace from `s`.
pub fn trim_string(s: &str) -> (r: String)
    ensures
        r@ == trim_spec(s@),
{
    let len = s.unicode_len();
    let mut a: usize = 0;
    while a < len
        invariant
            a <= len,
            len == s@.len(),
            forall|j: int| 0 <= j < a ==> is_space_char(#[trigger] s@[j]),
        ensures
            a <= len,
            forall|j: int| 0 <= j < a ==> is_space_char(#[trigger] s@[j]),
            a < len ==> !is_space_char(s@[a as int]),
        decreases len - a,
    {
        if !is_space(s.get_char(a)) {
            break ;
        }
        a += 1;
    }
    let mut b: usize = len;
    while b > a
        invariant
            a <= b <= len,
            len == s@.len(),
            forall|j: int| b <= j < len ==> is_space_char(#[trigger] s@[j]),
        ensures
            a <= b <= len,
            forall|j: int| b <= j < len ==> is_space_char(#[trigger] s@[j]),
            b > a ==> !is_space_char(s@[b - 1]),
        decreases b,
    {
        if !is_space(s.get_char(b - 1)) {
            break ;
        }
        b -= 1;
    }
    let mid = s.substring_char(a, b);
    proof {
        lemma_trim_start_index(s@, a as int);
        let suffix = s@.subrange(a as int, s@.len() as int);
        assert(forall|j: int|
            b - a <= j < suffix.len() ==> is_space_char(#[trigger] suffix[j]));
        lemma_trim_end_index(suffix, b - a);
        assert(suffix.subrange(0, b - a) =~= s@.subrange(a as int, b as int));
    }
    mid.to_owned()
}

/// Renders `n` in decimal.
pub fn usize_to_string(n: usize) -> (r: String)
    ensures
        r@ == decimal_str(n as nat),
{
    let mut r = String::new();
    append_decimal(&mut r, n);
    proof {
        assert(r@ =~= decimal_str(n as nat));
    }
    r
}

} // verus!
