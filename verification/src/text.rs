//! Text helpers over `str` that the rest of the crate builds on.
//!
//! Each function here hands its work to one function of the standard
//! library and states what that function's documentation says it returns.
//! Nothing here is proved.

use vstd::prelude::*;

verus! {

/// What `str::trim` returns for a text: the text without its leading and
/// trailing whitespace, whitespace being what Unicode's `White_Space`
/// property says.
pub uninterp spec fn trimmed(text: Seq<char>) -> Seq<char>;

/// What `str::to_lowercase` returns for a text: its lowercase form under
/// Unicode's case mapping.
pub uninterp spec fn lowercase(text: Seq<char>) -> Seq<char>;

/// What `str::to_uppercase` returns for a text: its uppercase form under
/// Unicode's case mapping.
pub uninterp spec fn uppercase(text: Seq<char>) -> Seq<char>;

/// What `str::parse::<i64>` returns for a text: the number it writes in
/// decimal, with an optional sign, if it writes one that fits.
pub uninterp spec fn decimal_i64(text: Seq<char>) -> Option<i64>;

/// What `str::parse::<u16>` returns for a text: the number it writes in
/// decimal, with an optional plus sign, if it writes one that fits.
pub uninterp spec fn decimal_u16(text: Seq<char>) -> Option<u16>;

/// `needle` stands somewhere in `hay`, character for character.
pub open spec fn occurs_in(needle: Seq<char>, hay: Seq<char>) -> bool {
    exists|at: int|
        0 <= at && at + needle.len() <= hay.len() && #[trigger] hay.subrange(
            at,
            at + needle.len(),
        ) == needle
}

/// The lowercase form of an ASCII capital letter; any other character as it
/// is.
pub open spec fn ascii_lower(c: char) -> char {
    if 'A' <= c && c <= 'Z' {
        ((c as u8) + 32) as char
    } else {
        c
    }
}

/// Two texts are the same once every ASCII capital letter is lowered.
pub open spec fn same_ignoring_ascii_case(a: Seq<char>, b: Seq<char>) -> bool {
    &&& a.len() == b.len()
    &&& forall|i: int| 0 <= i < a.len() ==> ascii_lower(#[trigger] a[i]) == ascii_lower(b[i])
}

/// The text without the copies of `c` that it starts with.
pub open spec fn without_leading(text: Seq<char>, c: char) -> Seq<char>
    decreases text.len(),
{
    if text.len() > 0 && text[0] == c {
        without_leading(text.skip(1), c)
    } else {
        text
    }
}

/// `str::eq`: two string slices are equal exactly when they hold the same
/// sequence of characters.
#[verifier::external_body]
pub(crate) fn text_eq(a: &str, b: &str) -> (same: bool)
    ensures
        same == (a@ == b@),
{
    a == b
}

/// `str::trim`: the result is what `trimmed` names.
#[verifier::external_body]
pub(crate) fn trim<'a>(text: &'a str) -> (out: &'a str)
    ensures
        out@ == trimmed(text@),
{
    text.trim()
}

/// `str::to_lowercase`: the result is what `lowercase` names.
#[verifier::external_body]
pub(crate) fn to_lowercase(text: &str) -> (out: String)
    ensures
        out@ == lowercase(text@),
{
    text.to_lowercase()
}

/// `str::to_uppercase`: the result is what `uppercase` names.
#[verifier::external_body]
pub(crate) fn to_uppercase(text: &str) -> (out: String)
    ensures
        out@ == uppercase(text@),
{
    text.to_uppercase()
}

/// `str::contains` with a string pattern: whether the pattern matches a
/// part of the text.
#[verifier::external_body]
pub(crate) fn contains(hay: &str, needle: &str) -> (found: bool)
    ensures
        found == occurs_in(needle@, hay@),
{
    hay.contains(needle)
}

/// `str::contains` with a character pattern: whether the character stands
/// in the text.
#[verifier::external_body]
pub(crate) fn contains_char(text: &str, c: char) -> (found: bool)
    ensures
        found == text@.contains(c),
{
    text.contains(c)
}

/// `str::eq_ignore_ascii_case`: whether the two texts match once ASCII
/// letters are compared without regard to case.
#[verifier::external_body]
pub(crate) fn eq_ignore_ascii_case(a: &str, b: &str) -> (same: bool)
    ensures
        same == same_ignoring_ascii_case(a@, b@),
{
    a.eq_ignore_ascii_case(b)
}

/// `str::ends_with` with a string pattern: whether the text ends in the
/// pattern.
#[verifier::external_body]
pub(crate) fn ends_with(text: &str, suffix: &str) -> (found: bool)
    ensures
        found == suffix@.is_suffix_of(text@),
{
    text.ends_with(suffix)
}

/// `str::strip_prefix` with a string pattern: the text after the prefix,
/// or `None` where the text does not start with it.
#[verifier::external_body]
pub(crate) fn strip_prefix<'a>(text: &'a str, prefix: &str) -> (rest: Option<&'a str>)
    ensures
        rest is Some == prefix@.is_prefix_of(text@),
        rest matches Some(tail) ==> tail@ == text@.skip(prefix@.len() as int),
{
    text.strip_prefix(prefix)
}

/// `str::trim_start_matches` with a character pattern: the text without
/// the copies of the character that it starts with.
#[verifier::external_body]
pub(crate) fn trim_start_matches<'a>(text: &'a str, c: char) -> (rest: &'a str)
    ensures
        rest@ == without_leading(text@, c),
{
    text.trim_start_matches(c)
}

/// `str::parse::<i64>`: the result is what `decimal_i64` names.
#[verifier::external_body]
pub(crate) fn parse_i64(text: &str) -> (number: Option<i64>)
    ensures
        number == decimal_i64(text@),
{
    text.parse::<i64>().ok()
}

/// `str::parse::<u16>`: the result is what `decimal_u16` names.
#[verifier::external_body]
pub(crate) fn parse_u16(text: &str) -> (number: Option<u16>)
    ensures
        number == decimal_u16(text@),
{
    text.parse::<u16>().ok()
}

} // verus!
