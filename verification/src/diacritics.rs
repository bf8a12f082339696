//! Text without its diacritics, as it is stored for searching.

use crate::text::lemma_filter_keeps_all;
use unicode_categories::UnicodeCategories;
use unicode_normalization::UnicodeNormalization;
use vstd::prelude::*;
use vstd::utf8::is_ascii_chars;

verus! {

/// The compatibility decomposition (NFKD) of a text that holds a character
/// outside ASCII.
pub uninterp spec fn nfkd_of(s: Seq<char>) -> Seq<char>;

/// Whether a character outside ASCII is a nonspacing mark (category Mn).
pub uninterp spec fn in_category_mn(c: char) -> bool;

/// The compatibility decomposition of a text. ASCII text is its own.
pub open spec fn decomposed(s: Seq<char>) -> Seq<char> {
    if is_ascii_chars(s) {
        s
    } else {
        nfkd_of(s)
    }
}

/// Whether a character is a nonspacing mark. No ASCII character is one.
pub open spec fn is_nonspacing_mark(c: char) -> bool {
    c > '\u{7f}' && in_category_mn(c)
}

/// Whether a character is kept when diacritics are stripped.
pub open spec fn is_kept(c: char) -> bool {
    !is_nonspacing_mark(c)
}

/// A text without its diacritics: its compatibility decomposition without
/// the nonspacing marks.
pub open spec fn stripped(s: Seq<char>) -> Seq<char> {
    decomposed(s).filter(|c: char| is_kept(c))
}

/// `UnicodeNormalization::nfkd` of the `unicode-normalization` crate: the
/// characters of the compatibility decomposition of the text. The crate
/// hands on every ASCII character as it is.
#[verifier::external_body]
fn nfkd(s: &str) -> (r: Vec<char>)
    ensures
        r@ == (if is_ascii_chars(s@) {
            s@
        } else {
            nfkd_of(s@)
        }),
{
    s.nfkd().collect()
}

/// `UnicodeCategories::is_mark_nonspacing` of the `unicode_categories`
/// crate: whether the character is in the category Mn, whose first member is
/// U+0300.
#[verifier::external_body]
fn is_mark_nonspacing(c: char) -> (r: bool)
    ensures
        r == (c > '\u{7f}' && in_category_mn(c)),
{
    c.is_mark_nonspacing()
}

/// The text without its diacritics. The result holds no nonspacing mark, and
/// ASCII text comes back unchanged.
pub fn strip_diacritics(s: &str) -> (r: String)
    ensures
        r@ == stripped(s@),
        forall|i: int| 0 <= i < r@.len() ==> !is_nonspacing_mark(#[trigger] r@[i]),
        is_ascii_chars(s@) ==> r@ == s@,
{
    let chars = nfkd(s);
    let mut out = String::new();
    let mut i: usize = 0;
    let ghost keep = |c: char| is_kept(c);
    proof {
        reveal(Seq::filter);
        assert(chars@.take(0) =~= Seq::empty());
    }
    while i < chars.len()
        invariant
            i <= chars.len(),
            keep == |c: char| is_kept(c),
            out@ == chars@.take(i as int).filter(keep),
        decreases chars.len() - i,
    {
        let c = chars[i];
        proof {
            assert(chars@.take(i + 1) =~= chars@.take(i as int).push(c));
            chars@.take(i as int).lemma_filter_push(c, keep);
        }
        if !is_mark_nonspacing(c) {
            out.push(c);
        }
        i += 1;
    }
    proof {
        assert(chars@.take(i as int) =~= chars@);
        assert forall|k: int| 0 <= k < out@.len() implies !is_nonspacing_mark(
            #[trigger] out@[k],
        ) by {
            chars@.lemma_filter_pred(keep, k);
        }
        if is_ascii_chars(s@) {
            lemma_filter_keeps_all(s@, keep);
        }
    }
    out
}

/// A text without its diacritics holds no nonspacing mark.
pub proof fn stripped_has_no_marks(s: Seq<char>)
    ensures
        forall|i: int| 0 <= i < stripped(s).len() ==> !is_nonspacing_mark(#[trigger] stripped(s)[i]),
{
    let keep = |c: char| is_kept(c);
    assert forall|i: int| 0 <= i < stripped(s).len() implies !is_nonspacing_mark(
        #[trigger] stripped(s)[i],
    ) by {
        decomposed(s).lemma_filter_pred(keep, i);
    }
}

} // verus!
