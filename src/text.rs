//! Text helpers: input normalisation, list splitting and capitalisation.

use vstd::prelude::*;
use vstd::string::*;

verus! {

/// What `char::is_whitespace` answers for `c` (the Unicode `White_Space` property).
pub uninterp spec fn is_white_space(c: char) -> bool;

/// The characters of `str::to_lowercase` applied to `s`.
pub uninterp spec fn lower_of(s: Seq<char>) -> Seq<char>;

/// The characters of `char::to_uppercase` applied to `c`.
pub uninterp spec fn upper_of(c: char) -> Seq<char>;

/// The pieces of `s` between occurrences of `", "`, as `str::split(", ")` yields them.
pub uninterp spec fn split_of(s: Seq<char>) -> Seq<Seq<char>>;

/// `s` with its leading white space removed.
pub open spec fn trim_start(s: Seq<char>) -> Seq<char>
    decreases s.len(),
{
    if s.len() > 0 && is_white_space(s[0]) {
        trim_start(s.drop_first())
    } else {
        s
    }
}

/// `s` with its trailing white space removed.
pub open spec fn trim_end(s: Seq<char>) -> Seq<char>
    decreases s.len(),
{
    if s.len() > 0 && is_white_space(s.last()) {
        trim_end(s.drop_last())
    } else {
        s
    }
}

/// `s` with white space removed at both ends.
pub open spec fn trim(s: Seq<char>) -> Seq<char> {
    trim_end(trim_start(s))
}

/// The separator between the items of a list in a service reply.
pub open spec fn list_separator() -> Seq<char> {
    seq![',', ' ']
}

/// The items of `parts` with the separator between each two of them.
pub open spec fn join_list(parts: Seq<Seq<char>>) -> Seq<char>
    decreases parts.len(),
{
    if parts.len() == 0 {
        Seq::empty()
    } else if parts.len() == 1 {
        parts[0]
    } else {
        join_list(parts.drop_last()) + list_separator() + parts.last()
    }
}

/// Whether the separator occurs in `s`.
pub open spec fn holds_separator(s: Seq<char>) -> bool {
    exists|i: int| 0 <= i && i + 1 < s.len() && #[trigger] s[i] == ',' && s[i + 1] == ' '
}

/// `s` with its first character upper-cased; the empty string stays empty.
pub open spec fn capitalized(s: Seq<char>) -> Seq<char> {
    if s.len() == 0 {
        s
    } else {
        upper_of(s[0]) + s.drop_first()
    }
}

/// The views of a sequence of strings.
pub open spec fn views(v: Seq<String>) -> Seq<Seq<char>> {
    v.map_values(|s: String| s@)
}

/// Relies on `str::trim`, which drops leading and trailing characters for which
/// `char::is_whitespace` holds.
#[verifier::external_body]
pub(crate) fn trim_str(s: &str) -> (r: String)
    ensures
        r@ == trim(s@),
        r@.len() > 0 ==> !is_white_space(r@[0]) && !is_white_space(r@.last()),
{
    s.trim().to_string()
}

/// Relies on `str::to_lowercase`, whose result depends on the characters alone.
#[verifier::external_body]
fn lowercase(s: &str) -> (r: String)
    ensures
        r@ == lower_of(s@),
{
    s.to_lowercase()
}

/// Relies on `char::to_uppercase`, whose result depends on the character alone.
#[verifier::external_body]
fn uppercase_char(c: char) -> (r: String)
    ensures
        r@ == upper_of(c),
{
    c.to_uppercase().collect()
}

/// Relies on `str::chars` and `Chars::as_str`: the first character of `s`, and
/// the rest of `s` after it.
#[verifier::external_body]
fn first_and_rest(s: &str) -> (r: Option<(char, String)>)
    ensures
        match r {
            None => s@.len() == 0,
            Some((c, rest)) => s@.len() > 0 && c == s@[0] && rest@ == s@.drop_first(),
        },
{
    let mut it = s.chars();
    match it.next() {
        Some(c) => Some((c, it.as_str().to_string())),
        None => None,
    }
}

/// Relies on `str::split` with the pattern `", "`: the pieces, joined again with
/// the separator, give back `s`, and none of them holds the separator.
#[verifier::external_body]
pub(crate) fn split_str(s: &str) -> (r: Vec<String>)
    ensures
        views(r@) == split_of(s@),
        join_list(views(r@)) == s@,
        forall|k: int| 0 <= k < r@.len() ==> !holds_separator(#[trigger] r@[k]@),
{
    s.split(", ").map(String::from).collect()
}

/// Normalises raw search input: lower-cased, with no white space at either end.
pub fn normalize_input(raw: &str) -> (r: String)
    ensures
        r@ == trim(lower_of(raw@)),
        r@.len() > 0 ==> !is_white_space(r@[0]) && !is_white_space(r@.last()),
{
    let low = lowercase(raw);
    trim_str(low.as_str())
}

/// Upper-cases the first character of `s` for display.
pub fn upper_first_letter(s: &str) -> (r: String)
    ensures
        r@ == capitalized(s@),
{
    match first_and_rest(s) {
        Some((c, rest)) => {
            let head = uppercase_char(c);
            head.concat(rest.as_str())
        },
        None => String::new(),
    }
}

proof fn lemma_trim_start_first(s: Seq<char>)
    ensures
        trim_start(s).len() > 0 ==> !is_white_space(trim_start(s)[0]),
    decreases s.len(),
{
    if s.len() > 0 && is_white_space(s[0]) {
        lemma_trim_start_first(s.drop_first());
    }
}

proof fn lemma_trim_end_shape(s: Seq<char>)
    ensures
        trim_end(s).len() <= s.len(),
        trim_end(s) == s.subrange(0, trim_end(s).len() as int),
        trim_end(s).len() > 0 ==> !is_white_space(trim_end(s).last()),
    decreases s.len(),
{
    if s.len() > 0 && is_white_space(s.last()) {
        lemma_trim_end_shape(s.drop_last());
        assert(s.drop_last().subrange(0, trim_end(s).len() as int) =~= s.subrange(
            0,
            trim_end(s).len() as int,
        ));
    } else {
        assert(s.subrange(0, s.len() as int) =~= s);
    }
}

/// What is left after trimming neither starts nor ends with white space.
pub proof fn lemma_trim_ends(s: Seq<char>)
    ensures
        trim(s).len() > 0 ==> !is_white_space(trim(s)[0]) && !is_white_space(trim(s).last()),
{
    lemma_trim_start_first(s);
    lemma_trim_end_shape(trim_start(s));
    if trim(s).len() > 0 {
        assert(trim(s)[0] == trim_start(s)[0]);
    }
}

} // verus!
