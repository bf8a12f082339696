//! The patterns that the extraction rules match text against, and the calls
//! into the `regex` crate that apply them.

use crate::text::{occurs_in, string_views};
use regex::Regex;
use vstd::prelude::*;

verus! {

/// Matches one character that is not a letter from `a` to `z`.
pub const NON_LETTERS: &'static str = "[^a-z]";

/// Matches the start of a web address: `http://` or `https://`.
pub const WEB_ADDRESS: &'static str = "https?://";

/// Whether a text holds `http://` or `https://`.
pub open spec fn is_web_address(text: Seq<char>) -> bool {
    occurs_in("http://"@, text) || occurs_in("https://"@, text)
}

/// Matches four decimal digits that stand between two word boundaries.
pub const YEAR_TOKEN: &'static str = "\\b\\d{4}\\b";

/// The texts of the matches of a pattern in a text that holds a character
/// outside ASCII, from left to right and without overlap, as the `regex`
/// crate finds them.
pub uninterp spec fn matches_of(pattern: Seq<char>, text: Seq<char>) -> Seq<Seq<char>>;

/// Whether an ASCII character is a decimal digit.
pub open spec fn is_ascii_digit(c: char) -> bool {
    '0' <= c && c <= '9'
}

/// Whether an ASCII character is a word character: a letter, a digit or the
/// underscore.
pub open spec fn is_ascii_word(c: char) -> bool {
    is_ascii_digit(c) || ('a' <= c && c <= 'z') || ('A' <= c && c <= 'Z') || c == '_'
}

/// Whether four digits start at `i` and stand between two word boundaries:
/// no word character stands right before them, and none right after them.
pub open spec fn year_token_at(text: Seq<char>, i: int) -> bool {
    &&& 0 <= i && i + 4 <= text.len()
    &&& is_ascii_digit(text[i]) && is_ascii_digit(text[i + 1]) && is_ascii_digit(text[i + 2])
        && is_ascii_digit(text[i + 3])
    &&& (i == 0 || !is_ascii_word(text[i - 1]))
    &&& (i + 4 == text.len() || !is_ascii_word(text[i + 4]))
}

/// The four-digit tokens of an ASCII text that start before `end`, from left
/// to right.
pub open spec fn ascii_year_tokens_before(text: Seq<char>, end: int) -> Seq<Seq<char>>
    decreases end,
{
    if end <= 0 {
        Seq::empty()
    } else if year_token_at(text, end - 1) {
        ascii_year_tokens_before(text, end - 1).push(text.subrange(end - 1, end + 3))
    } else {
        ascii_year_tokens_before(text, end - 1)
    }
}

/// The four-digit tokens of a text, from left to right: every run of four
/// decimal digits that stands between two word boundaries. In text with a
/// character outside ASCII, what counts as a digit and as a word character
/// is for the `regex` crate to say.
pub open spec fn year_tokens(text: Seq<char>) -> Seq<Seq<char>> {
    if vstd::utf8::is_ascii_chars(text) {
        ascii_year_tokens_before(text, text.len() as int)
    } else {
        matches_of(YEAR_TOKEN@, text)
    }
}

/// Whether `c` is a letter from `a` to `z`.
pub open spec fn is_lower_letter(c: char) -> bool {
    'a' <= c && c <= 'z'
}

/// The letters from `a` to `z` of a text, in their order.
pub open spec fn lower_letters_of(text: Seq<char>) -> Seq<char> {
    text.filter(|c: char| is_lower_letter(c))
}

/// `Regex::replace_all` of the `regex` crate, for the pattern `[^a-z]` and an
/// empty replacement. The pattern matches each single character outside `a`
/// to `z`, so replacing every match by nothing leaves the letters `a` to `z`
/// in their order.
#[verifier::external_body]
pub(crate) fn delete_matches(pattern: &str, text: &str, replacement: &str) -> (r: String)
    requires
        pattern@ == NON_LETTERS@,
        replacement@ == ""@,
    ensures
        r@ == lower_letters_of(text@),
{
    Regex::new(pattern).unwrap().replace_all(text, replacement).to_string()
}

/// `Regex::is_match` of the `regex` crate, for the pattern `https?://`:
/// whether the pattern matches anywhere in the text, which it does where the
/// text holds `http://` or `https://`.
#[verifier::external_body]
pub(crate) fn is_match(pattern: &str, text: &str) -> (r: bool)
    requires
        pattern@ == WEB_ADDRESS@,
    ensures
        r == is_web_address(text@),
{
    Regex::new(pattern).unwrap().is_match(text)
}

/// `Regex::find_iter` of the `regex` crate, for the pattern `\b\d{4}\b`:
/// the text of each match, from left to right. In ASCII text
/// the pattern matches every run of four digits `0` to `9` that has no
/// letter, digit or underscore right before it or right after it; two such
/// runs never overlap.
#[verifier::external_body]
pub(crate) fn find_all(pattern: &str, text: &str) -> (r: Vec<String>)
    requires
        pattern@ == YEAR_TOKEN@,
    ensures
        string_views(r@) == (if vstd::utf8::is_ascii_chars(text@) {
            ascii_year_tokens_before(text@, text@.len() as int)
        } else {
            matches_of(pattern@, text@)
        }),
{
    Regex::new(pattern).unwrap().find_iter(text).map(|m| m.as_str().to_string()).collect()
}

} // verus!
