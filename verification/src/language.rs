//! Language codes: from what a catalogue record says of its language to a
//! two-letter code.

use crate::patterns::{delete_matches, is_lower_letter, lower_letters_of, NON_LETTERS};
use crate::text::{lemma_filter_keeps_all, str_eq};
use vstd::prelude::*;
use vstd::string::*;
use vstd::utf8::is_ascii_chars;

verus! {

/// Three-letter language codes, bibliographic and terminologic, each with its
/// two-letter code: the first three characters are the key, the last two the
/// value.
pub const ALPHA3_CODES: [(char, char, char, char, char); 204] = [
    ('a', 'l', 'b', 's', 'q'),
    ('a', 'r', 'm', 'h', 'y'),
    ('b', 'a', 'q', 'e', 'u'),
    ('b', 'u', 'r', 'm', 'y'),
    ('c', 'h', 'i', 'z', 'h'),
    ('c', 'z', 'e', 'c', 's'),
    ('d', 'u', 't', 'n', 'l'),
    ('f', 'r', 'e', 'f', 'r'),
    ('g', 'e', 'o', 'k', 'a'),
    ('g', 'e', 'r', 'd', 'e'),
    ('g', 'r', 'e', 'e', 'l'),
    ('i', 'c', 'e', 'i', 's'),
    ('m', 'a', 'c', 'm', 'k'),
    ('m', 'a', 'o', 'm', 'i'),
    ('m', 'a', 'y', 'm', 's'),
    ('p', 'e', 'r', 'f', 'a'),
    ('r', 'u', 'm', 'r', 'o'),
    ('s', 'l', 'o', 's', 'k'),
    ('t', 'i', 'b', 'b', 'o'),
    ('w', 'e', 'l', 'c', 'y'),
    ('a', 'b', 'k', 'a', 'b'),
    ('a', 'a', 'r', 'a', 'a'),
    ('a', 'f', 'r', 'a', 'f'),
    ('a', 'k', 'a', 'a', 'k'),
    ('s', 'q', 'i', 's', 'q'),
    ('a', 'm', 'h', 'a', 'm'),
    ('a', 'r', 'a', 'a', 'r'),
    ('a', 'r', 'g', 'a', 'n'),
    ('h', 'y', 'e', 'h', 'y'),
    ('a', 's', 'm', 'a', 's'),
    ('a', 'v', 'a', 'a', 'v'),
    ('a', 'v', 'e', 'a', 'e'),
    ('a', 'y', 'm', 'a', 'y'),
    ('a', 'z', 'e', 'a', 'z'),
    ('b', 'a', 'm', 'b', 'm'),
    ('b', 'a', 'k', 'b', 'a'),
    ('e', 'u', 's', 'e', 'u'),
    ('b', 'e', 'l', 'b', 'e'),
    ('b', 'e', 'n', 'b', 'n'),
    ('b', 'i', 's', 'b', 'i'),
    ('b', 'o', 's', 'b', 's'),
    ('b', 'r', 'e', 'b', 'r'),
    ('b', 'u', 'l', 'b', 'g'),
    ('m', 'y', 'a', 'm', 'y'),
    ('c', 'a', 't', 'c', 'a'),
    ('c', 'h', 'a', 'c', 'h'),
    ('c', 'h', 'e', 'c', 'e'),
    ('n', 'y', 'a', 'n', 'y'),
    ('z', 'h', 'o', 'z', 'h'),
    ('c', 'h', 'u', 'c', 'u'),
    ('c', 'h', 'v', 'c', 'v'),
    ('c', 'o', 'r', 'k', 'w'),
    ('c', 'o', 's', 'c', 'o'),
    ('c', 'r', 'e', 'c', 'r'),
    ('h', 'r', 'v', 'h', 'r'),
    ('c', 'e', 's', 'c', 's'),
    ('d', 'a', 'n', 'd', 'a'),
    ('d', 'i', 'v', 'd', 'v'),
    ('n', 'l', 'd', 'n', 'l'),
    ('d', 'z', 'o', 'd', 'z'),
    ('e', 'n', 'g', 'e', 'n'),
    ('e', 'p', 'o', 'e', 'o'),
    ('e', 's', 't', 'e', 't'),
    ('e', 'w', 'e', 'e', 'e'),
    ('f', 'a', 'o', 'f', 'o'),
    ('f', 'i', 'j', 'f', 'j'),
    ('f', 'i', 'n', 'f', 'i'),
    ('f', 'r', 'a', 'f', 'r'),
    ('f', 'r', 'y', 'f', 'y'),
    ('f', 'u', 'l', 'f', 'f'),
    ('g', 'l', 'a', 'g', 'd'),
    ('g', 'l', 'g', 'g', 'l'),
    ('l', 'u', 'g', 'l', 'g'),
    ('k', 'a', 't', 'k', 'a'),
    ('d', 'e', 'u', 'd', 'e'),
    ('e', 'l', 'l', 'e', 'l'),
    ('k', 'a', 'l', 'k', 'l'),
    ('g', 'r', 'n', 'g', 'n'),
    ('g', 'u', 'j', 'g', 'u'),
    ('h', 'a', 't', 'h', 't'),
    ('h', 'a', 'u', 'h', 'a'),
    ('h', 'e', 'b', 'h', 'e'),
    ('h', 'e', 'r', 'h', 'z'),
    ('h', 'i', 'n', 'h', 'i'),
    ('h', 'm', 'o', 'h', 'o'),
    ('h', 'u', 'n', 'h', 'u'),
    ('i', 's', 'l', 'i', 's'),
    ('i', 'd', 'o', 'i', 'o'),
    ('i', 'b', 'o', 'i', 'g'),
    ('i', 'n', 'd', 'i', 'd'),
    ('i', 'n', 'a', 'i', 'a'),
    ('i', 'l', 'e', 'i', 'e'),
    ('i', 'k', 'u', 'i', 'u'),
    ('i', 'p', 'k', 'i', 'k'),
    ('g', 'l', 'e', 'g', 'a'),
    ('i', 't', 'a', 'i', 't'),
    ('j', 'p', 'n', 'j', 'a'),
    ('j', 'a', 'v', 'j', 'v'),
    ('k', 'a', 'n', 'k', 'n'),
    ('k', 'a', 'u', 'k', 'r'),
    ('k', 'a', 's', 'k', 's'),
    ('k', 'a', 'z', 'k', 'k'),
    ('k', 'h', 'm', 'k', 'm'),
    ('k', 'i', 'k', 'k', 'i'),
    ('k', 'i', 'n', 'r', 'w'),
    ('k', 'i', 'r', 'k', 'y'),
    ('k', 'o', 'm', 'k', 'v'),
    ('k', 'o', 'n', 'k', 'g'),
    ('k', 'o', 'r', 'k', 'o'),
    ('k', 'u', 'a', 'k', 'j'),
    ('k', 'u', 'r', 'k', 'u'),
    ('l', 'a', 'o', 'l', 'o'),
    ('l', 'a', 't', 'l', 'a'),
    ('l', 'a', 'v', 'l', 'v'),
    ('l', 'i', 'm', 'l', 'i'),
    ('l', 'i', 'n', 'l', 'n'),
    ('l', 'i', 't', 'l', 't'),
    ('l', 'u', 'b', 'l', 'u'),
    ('l', 't', 'z', 'l', 'b'),
    ('m', 'k', 'd', 'm', 'k'),
    ('m', 'l', 'g', 'm', 'g'),
    ('m', 's', 'a', 'm', 's'),
    ('m', 'a', 'l', 'm', 'l'),
    ('m', 'l', 't', 'm', 't'),
    ('g', 'l', 'v', 'g', 'v'),
    ('m', 'r', 'i', 'm', 'i'),
    ('m', 'a', 'r', 'm', 'r'),
    ('m', 'a', 'h', 'm', 'h'),
    ('m', 'o', 'n', 'm', 'n'),
    ('n', 'a', 'u', 'n', 'a'),
    ('n', 'a', 'v', 'n', 'v'),
    ('n', 'd', 'e', 'n', 'd'),
    ('n', 'b', 'l', 'n', 'r'),
    ('n', 'd', 'o', 'n', 'g'),
    ('n', 'e', 'p', 'n', 'e'),
    ('n', 'o', 'r', 'n', 'o'),
    ('n', 'o', 'b', 'n', 'b'),
    ('n', 'n', 'o', 'n', 'n'),
    ('i', 'i', 'i', 'i', 'i'),
    ('o', 'c', 'i', 'o', 'c'),
    ('o', 'j', 'i', 'o', 'j'),
    ('o', 'r', 'i', 'o', 'r'),
    ('o', 'r', 'm', 'o', 'm'),
    ('o', 's', 's', 'o', 's'),
    ('p', 'l', 'i', 'p', 'i'),
    ('p', 'u', 's', 'p', 's'),
    ('f', 'a', 's', 'f', 'a'),
    ('p', 'o', 'l', 'p', 'l'),
    ('p', 'o', 'r', 'p', 't'),
    ('p', 'a', 'n', 'p', 'a'),
    ('q', 'u', 'e', 'q', 'u'),
    ('r', 'o', 'n', 'r', 'o'),
    ('r', 'o', 'h', 'r', 'm'),
    ('r', 'u', 'n', 'r', 'n'),
    ('r', 'u', 's', 'r', 'u'),
    ('s', 'm', 'e', 's', 'e'),
    ('s', 'm', 'o', 's', 'm'),
    ('s', 'a', 'g', 's', 'g'),
    ('s', 'a', 'n', 's', 'a'),
    ('s', 'r', 'd', 's', 'c'),
    ('s', 'r', 'p', 's', 'r'),
    ('s', 'n', 'a', 's', 'n'),
    ('s', 'n', 'd', 's', 'd'),
    ('s', 'i', 'n', 's', 'i'),
    ('s', 'l', 'k', 's', 'k'),
    ('s', 'l', 'v', 's', 'l'),
    ('s', 'o', 'm', 's', 'o'),
    ('s', 'o', 't', 's', 't'),
    ('s', 'p', 'a', 'e', 's'),
    ('s', 'u', 'n', 's', 'u'),
    ('s', 'w', 'a', 's', 'w'),
    ('s', 's', 'w', 's', 's'),
    ('s', 'w', 'e', 's', 'v'),
    ('t', 'g', 'l', 't', 'l'),
    ('t', 'a', 'h', 't', 'y'),
    ('t', 'g', 'k', 't', 'g'),
    ('t', 'a', 'm', 't', 'a'),
    ('t', 'a', 't', 't', 't'),
    ('t', 'e', 'l', 't', 'e'),
    ('t', 'h', 'a', 't', 'h'),
    ('b', 'o', 'd', 'b', 'o'),
    ('t', 'i', 'r', 't', 'i'),
    ('t', 'o', 'n', 't', 'o'),
    ('t', 's', 'o', 't', 's'),
    ('t', 's', 'n', 't', 'n'),
    ('t', 'u', 'r', 't', 'r'),
    ('t', 'u', 'k', 't', 'k'),
    ('t', 'w', 'i', 't', 'w'),
    ('u', 'i', 'g', 'u', 'g'),
    ('u', 'k', 'r', 'u', 'k'),
    ('u', 'r', 'd', 'u', 'r'),
    ('u', 'z', 'b', 'u', 'z'),
    ('v', 'e', 'n', 'v', 'e'),
    ('v', 'i', 'e', 'v', 'i'),
    ('v', 'o', 'l', 'v', 'o'),
    ('w', 'l', 'n', 'w', 'a'),
    ('c', 'y', 'm', 'c', 'y'),
    ('w', 'o', 'l', 'w', 'o'),
    ('x', 'h', 'o', 'x', 'h'),
    ('y', 'i', 'd', 'y', 'i'),
    ('y', 'o', 'r', 'y', 'o'),
    ('z', 'h', 'a', 'z', 'a'),
    ('z', 'u', 'l', 'z', 'u'),
    ('e', 's', 'p', 'e', 's'),
];

/// Names that catalogues write in place of a code, each with its two-letter
/// code.
pub const LANGUAGE_NAMES: [(&'static str, char, char); 6] = [
    ("france", 'f', 'r'),
    ("francese", 'f', 'r'),
    ("inglese", 'e', 'n'),
    ("italiano", 'i', 't'),
    ("spagnolo", 'e', 's'),
    ("tedesco", 'd', 'e'),
];

/// What stands for a language that no rule recognises.
pub const UNKNOWN_LANGUAGE: &'static str = "unknown";

/// The lower-case form of an ASCII character.
pub open spec fn ascii_lower(c: char) -> char {
    if 'A' <= c && c <= 'Z' {
        ((c as u8) + 32) as char
    } else {
        c
    }
}

/// The lower-case form that Unicode gives a text which holds a character
/// outside ASCII.
pub uninterp spec fn unicode_lowercase(s: Seq<char>) -> Seq<char>;

/// The lower-case form of a text. In ASCII text the letters `A` to `Z` become
/// `a` to `z` and nothing else changes.
pub open spec fn lowercase(s: Seq<char>) -> Seq<char> {
    if is_ascii_chars(s) {
        s.map_values(|c: char| ascii_lower(c))
    } else {
        unicode_lowercase(s)
    }
}

/// `str::to_lowercase` of the standard library: the lower-case form of the
/// text as Unicode defines it, which on ASCII text changes only `A` to `Z`.
#[verifier::external_body]
fn to_lowercase(s: &str) -> (r: String)
    ensures
        r@ == (if is_ascii_chars(s@) {
            s@.map_values(|c: char| ascii_lower(c))
        } else {
            unicode_lowercase(s@)
        }),
{
    s.to_lowercase()
}

/// The two-letter code of the first entry at or after `i` whose key is
/// `(a, b, c)`.
pub open spec fn alpha3_from(i: int, a: char, b: char, c: char) -> Option<(char, char)>
    decreases ALPHA3_CODES@.len() - i,
{
    if i < 0 || i >= ALPHA3_CODES@.len() {
        None
    } else if ALPHA3_CODES@[i].0 == a && ALPHA3_CODES@[i].1 == b && ALPHA3_CODES@[i].2 == c {
        Some((ALPHA3_CODES@[i].3, ALPHA3_CODES@[i].4))
    } else {
        alpha3_from(i + 1, a, b, c)
    }
}

/// The two-letter code of the first name at or after `i` that equals `name`.
pub open spec fn name_from(i: int, name: Seq<char>) -> Option<(char, char)>
    decreases LANGUAGE_NAMES@.len() - i,
{
    if i < 0 || i >= LANGUAGE_NAMES@.len() {
        None
    } else if LANGUAGE_NAMES@[i].0@ == name {
        Some((LANGUAGE_NAMES@[i].1, LANGUAGE_NAMES@[i].2))
    } else {
        name_from(i + 1, name)
    }
}

/// The text of a two-letter code, or of the unknown language.
pub open spec fn code_text(found: Option<(char, char)>) -> Seq<char> {
    match found {
        Some((x, y)) => seq![x, y],
        None => UNKNOWN_LANGUAGE@,
    }
}

/// The two-letter code of a language: the text is put in lower case and
/// loses all but the letters `a` to `z`; two letters stand as they are,
/// three are looked up as a code, any other number as a name.
pub open spec fn language_code(lang: Seq<char>) -> Seq<char> {
    let clean = lower_letters_of(lowercase(lang));
    if clean.len() == 2 {
        clean
    } else if clean.len() == 3 {
        code_text(alpha3_from(0, clean[0], clean[1], clean[2]))
    } else {
        code_text(name_from(0, clean))
    }
}

fn alpha3_lookup(a: char, b: char, c: char) -> (r: Option<(char, char)>)
    ensures
        r == alpha3_from(0, a, b, c),
{
    let mut i: usize = 0;
    while i < ALPHA3_CODES.len()
        invariant
            i <= ALPHA3_CODES@.len(),
            alpha3_from(0, a, b, c) == alpha3_from(i as int, a, b, c),
        decreases ALPHA3_CODES@.len() - i,
    {
        let e = ALPHA3_CODES[i];
        if e.0 == a && e.1 == b && e.2 == c {
            return Some((e.3, e.4));
        }
        i += 1;
    }
    None
}

fn name_lookup(name: &str) -> (r: Option<(char, char)>)
    ensures
        r == name_from(0, name@),
{
    let mut i: usize = 0;
    while i < LANGUAGE_NAMES.len()
        invariant
            i <= LANGUAGE_NAMES@.len(),
            name_from(0, name@) == name_from(i as int, name@),
        decreases LANGUAGE_NAMES@.len() - i,
    {
        let e = LANGUAGE_NAMES[i];
        if str_eq(e.0, name) {
            return Some((e.1, e.2));
        }
        i += 1;
    }
    None
}

fn code_string(found: Option<(char, char)>) -> (r: String)
    ensures
        r@ == code_text(found),
{
    match found {
        Some((x, y)) => {
            let mut s = String::new();
            s.push(x);
            s.push(y);
            assert(s@ =~= seq![x, y]);
            s
        },
        None => String::from_str(UNKNOWN_LANGUAGE),
    }
}

/// The two-letter code of the language that `lang` names, or `unknown`.
pub fn language_iso_code(lang: &str) -> (code: String)
    ensures
        code@ == language_code(lang@),
{
    let lowered = to_lowercase(lang);
    let clean = delete_matches(NON_LETTERS, lowered.as_str(), "");
    proof {
        lemma_lower_letters_ascii(lowercase(lang@));
        vstd::utf8::is_ascii_chars_encode_utf8(clean@);
    }
    let n = clean.as_str().as_bytes().len();
    if n == 2 {
        clean
    } else if n == 3 {
        let s = clean.as_str();
        code_string(alpha3_lookup(s.get_char(0), s.get_char(1), s.get_char(2)))
    } else {
        code_string(name_lookup(clean.as_str()))
    }
}

/// What is left of a text after all but `a` to `z` is dropped holds only
/// those letters, and so only ASCII.
pub proof fn lemma_lower_letters_ascii(s: Seq<char>)
    ensures
        forall|i: int|
            0 <= i < lower_letters_of(s).len() ==> is_lower_letter(
                #[trigger] lower_letters_of(s)[i],
            ),
        is_ascii_chars(lower_letters_of(s)),
{
    let p = |c: char| is_lower_letter(c);
    assert forall|i: int| 0 <= i < s.filter(p).len() implies is_lower_letter(
        #[trigger] s.filter(p)[i],
    ) by {
        s.lemma_filter_pred(p, i);
    }
}

/// A text of letters `a` to `z` alone is its own cleaned lower-case form.
pub proof fn lemma_lower_text_is_clean(s: Seq<char>)
    requires
        forall|i: int| 0 <= i < s.len() ==> is_lower_letter(#[trigger] s[i]),
    ensures
        lower_letters_of(lowercase(s)) == s,
{
    assert(is_ascii_chars(s));
    assert(s.map_values(|c: char| ascii_lower(c)) =~= s);
    lemma_filter_keeps_all(s, |c: char| is_lower_letter(c));
}

proof fn lemma_alpha3_values(i: int, a: char, b: char, c: char)
    requires
        0 <= i,
    ensures
        alpha3_from(i, a, b, c) matches Some(v) ==> is_lower_letter(v.0) && is_lower_letter(v.1),
    decreases ALPHA3_CODES@.len() - i,
{
    if i < ALPHA3_CODES@.len() {
        lemma_alpha3_values(i + 1, a, b, c);
    }
}

proof fn lemma_name_values(i: int, name: Seq<char>)
    requires
        0 <= i,
    ensures
        name_from(i, name) matches Some(v) ==> is_lower_letter(v.0) && is_lower_letter(v.1),
    decreases LANGUAGE_NAMES@.len() - i,
{
    if i < LANGUAGE_NAMES@.len() {
        lemma_name_values(i + 1, name);
    }
}

proof fn lemma_unknown_is_no_name()
    ensures
        UNKNOWN_LANGUAGE@.len() == 7,
        forall|i: int| 0 <= i < 7 ==> is_lower_letter(#[trigger] UNKNOWN_LANGUAGE@[i]),
        name_from(0, UNKNOWN_LANGUAGE@) is None,
{
    reveal_strlit("unknown");
    reveal_strlit("france");
    reveal_strlit("francese");
    reveal_strlit("inglese");
    reveal_strlit("italiano");
    reveal_strlit("spagnolo");
    reveal_strlit("tedesco");
    assert forall|k: int| 0 <= k < LANGUAGE_NAMES@.len() implies #[trigger] LANGUAGE_NAMES@[k].0@
        != UNKNOWN_LANGUAGE@ by {
        let name = LANGUAGE_NAMES@[k].0@;
        if name.len() == 7 {
            assert(name[0] != UNKNOWN_LANGUAGE@[0]);
        }
    }
    reveal_with_fuel(name_from, 8);
}

/// A language code is two letters from `a` to `z`, or `unknown`.
pub proof fn language_code_shape(lang: Seq<char>)
    ensures
        language_code(lang) == UNKNOWN_LANGUAGE@ || (language_code(lang).len() == 2
            && is_lower_letter(language_code(lang)[0]) && is_lower_letter(language_code(lang)[1])),
{
    let clean = lower_letters_of(lowercase(lang));
    lemma_lower_letters_ascii(lowercase(lang));
    if clean.len() == 2 {
    } else if clean.len() == 3 {
        lemma_alpha3_values(0, clean[0], clean[1], clean[2]);
    } else {
        lemma_name_values(0, clean);
    }
}

/// Normalising a language code again gives the same code: what
/// `language_code` returns is a fixed point of it.
pub proof fn language_code_idempotent(lang: Seq<char>)
    ensures
        language_code(language_code(lang)) == language_code(lang),
{
    let code = language_code(lang);
    language_code_shape(lang);
    lemma_unknown_is_no_name();
    lemma_lower_text_is_clean(code);
}

} // verus!
