//! The years of which a record speaks: the four-digit numbers in its dates.

use crate::patterns::{find_all, year_tokens, YEAR_TOKEN};
use crate::record::{HarvestedRecord, HarvestedRecordView};
use crate::text::{join, joined, parse_i32, parsed_i32, string_views};
use vstd::prelude::*;

verus! {

/// Whether each number is less than the next.
pub open spec fn strictly_ascending(s: Seq<i32>) -> bool {
    forall|i: int, j: int| 0 <= i < j < s.len() ==> s[i] < s[j]
}

/// Whether one of the tokens writes the number `y`.
pub open spec fn is_year_of(y: i32, tokens: Seq<Seq<char>>) -> bool {
    exists|k: int| 0 <= k < tokens.len() && parsed_i32(#[trigger] tokens[k]) == Some(y)
}

/// Whether `years` are the numbers that the tokens write, each once and in
/// ascending order. A token that writes no number counts for nothing.
pub open spec fn years_of(years: Seq<i32>, tokens: Seq<Seq<char>>) -> bool {
    &&& strictly_ascending(years)
    &&& forall|y: i32| years.contains(y) <==> is_year_of(y, tokens)
}

/// The numbers that the tokens write, each once and in ascending order.
pub open spec fn years_written(tokens: Seq<Seq<char>>) -> Seq<i32> {
    choose|years: Seq<i32>| years_of(years, tokens)
}

impl HarvestedRecordView {
    /// The four-digit tokens in the dates of the record, which are joined
    /// by single spaces.
    pub open spec fn year_tokens(self) -> Seq<Seq<char>> {
        year_tokens(joined(self.dates(), " "@))
    }

    /// The years of which the record speaks, each once and in ascending
    /// order.
    pub open spec fn edition_years(self) -> Seq<i32> {
        years_written(self.year_tokens())
    }
}

/// The tokens determine their years: two lists that are both the years of
/// the same tokens are equal.
pub proof fn years_of_unique(a: Seq<i32>, b: Seq<i32>, tokens: Seq<Seq<char>>)
    requires
        years_of(a, tokens),
        years_of(b, tokens),
    ensures
        a == b,
    decreases a.len(),
{
    if a.len() == 0 {
        if b.len() > 0 {
            assert(b.contains(b[0]));
            assert(a.contains(b[0]));
        }
        assert(a =~= b);
    } else {
        assert(a.contains(a.last()));
        assert(b.contains(a.last()));
        let k = choose|k: int| 0 <= k < b.len() && b[k] == a.last();
        assert(b.contains(b.last()));
        assert(a.contains(b.last()));
        let m = choose|m: int| 0 <= m < a.len() && a[m] == b.last();
        assert(a.last() == b.last());
        let top = a.last();
        let rest = tokens.filter(|t: Seq<char>| parsed_i32(t) != Some(top));
        assert forall|y: i32| a.drop_last().contains(y) <==> is_year_of(y, rest) by {
            lemma_without_top(a, tokens, top, y);
        }
        assert forall|y: i32| b.drop_last().contains(y) <==> is_year_of(y, rest) by {
            lemma_without_top(b, tokens, top, y);
        }
        years_of_unique(a.drop_last(), b.drop_last(), rest);
        assert(a =~= a.drop_last().push(top));
        assert(b =~= b.drop_last().push(top));
    }
}

proof fn lemma_without_top(a: Seq<i32>, tokens: Seq<Seq<char>>, top: i32, y: i32)
    requires
        years_of(a, tokens),
        a.len() > 0,
        top == a.last(),
    ensures
        a.drop_last().contains(y) <==> is_year_of(
            y,
            tokens.filter(|t: Seq<char>| parsed_i32(t) != Some(top)),
        ),
{
    let p = |t: Seq<char>| parsed_i32(t) != Some(top);
    let rest = tokens.filter(p);
    if a.drop_last().contains(y) {
        let i = choose|i: int| 0 <= i < a.drop_last().len() && a.drop_last()[i] == y;
        assert(a[i] == y);
        assert(a.contains(y));
        assert(y != top);
        let k = choose|k: int| 0 <= k < tokens.len() && parsed_i32(#[trigger] tokens[k]) == Some(y);
        tokens.lemma_filter_contains(p, k);
        let m = choose|m: int| 0 <= m < rest.len() && rest[m] == tokens[k];
        assert(parsed_i32(rest[m]) == Some(y));
    }
    if is_year_of(y, rest) {
        let m = choose|m: int| 0 <= m < rest.len() && parsed_i32(#[trigger] rest[m]) == Some(y);
        tokens.lemma_filter_pred(p, m);
        assert(tokens.contains(rest[m])) by {
            tokens.lemma_filter_contains_rev(p, rest[m]);
        }
        let k = choose|k: int| 0 <= k < tokens.len() && tokens[k] == rest[m];
        assert(parsed_i32(tokens[k]) == Some(y));
        assert(is_year_of(y, tokens));
        assert(a.contains(y));
        let i = choose|i: int| 0 <= i < a.len() && a[i] == y;
        assert(y != top);
        assert(a.drop_last()[i] == y);
    }
}

/// Puts `y` in its place in an ascending list, unless the list holds it.
fn insert_year(years: &mut Vec<i32>, y: i32)
    requires
        strictly_ascending(old(years)@),
    ensures
        strictly_ascending(final(years)@),
        forall|x: i32| final(years)@.contains(x) <==> (old(years)@.contains(x) || x == y),
{
    let mut pos: usize = 0;
    while pos < years.len() && years[pos] < y
        invariant
            pos <= years.len(),
            years@ == old(years)@,
            forall|k: int| 0 <= k < pos ==> years@[k] < y,
        decreases years.len() - pos,
    {
        pos += 1;
    }
    if pos < years.len() && years[pos] == y {
        assert(years@.contains(y));
        return ;
    }
    let ghost before = years@;
    years.insert(pos, y);
    proof {
        let after = years@;
        assert(after == before.insert(pos as int, y));
        assert forall|x: i32| after.contains(x) <==> (before.contains(x) || x == y) by {
            if after.contains(x) {
                let i = choose|i: int| 0 <= i < after.len() && after[i] == x;
                if i < pos {
                    assert(before[i] == x);
                } else if i > pos {
                    assert(before[i - 1] == x);
                }
            }
            if before.contains(x) {
                let i = choose|i: int| 0 <= i < before.len() && before[i] == x;
                if i < pos {
                    assert(after[i] == x);
                } else {
                    assert(after[i + 1] == x);
                }
            }
            if x == y {
                assert(after[pos as int] == y);
            }
        }
    }
}

/// The numbers that the tokens write, each once and in ascending order.
pub fn years_from_tokens(tokens: &Vec<String>) -> (years: Vec<i32>)
    ensures
        years@ == years_written(string_views(tokens@)),
        years_of(years@, string_views(tokens@)),
{
    let mut years: Vec<i32> = Vec::new();
    let ghost views = string_views(tokens@);
    let mut i: usize = 0;
    while i < tokens.len()
        invariant
            i <= tokens.len(),
            views == string_views(tokens@),
            years_of(years@, views.take(i as int)),
        decreases tokens.len() - i,
    {
        let ghost before = years@;
        let parsed = parse_i32(tokens[i].as_str());
        if let Some(y) = parsed {
            insert_year(&mut years, y);
        }
        proof {
            let done = views.take(i as int);
            let next = views.take(i + 1);
            assert(next =~= done.push(views[i as int]));
            assert forall|x: i32| years@.contains(x) <==> is_year_of(x, next) by {
                if is_year_of(x, done) {
                    let k = choose|k: int|
                        0 <= k < done.len() && parsed_i32(#[trigger] done[k]) == Some(x);
                    assert(parsed_i32(next[k]) == Some(x));
                }
                if parsed == Some(x) {
                    assert(parsed_i32(next[i as int]) == Some(x));
                }
                if is_year_of(x, next) {
                    let k = choose|k: int|
                        0 <= k < next.len() && parsed_i32(#[trigger] next[k]) == Some(x);
                    if k < i {
                        assert(parsed_i32(done[k]) == Some(x));
                    }
                }
            }
        }
        i += 1;
    }
    proof {
        assert(views.take(i as int) =~= views);
        years_of_unique(years@, years_written(views), views);
    }
    years
}

impl HarvestedRecord {
    /// The years of which the dates of the record speak, each once and in
    /// ascending order.
    pub fn edition_years(&self) -> (years: Vec<i32>)
        ensures
            years@ == self@.edition_years(),
            years_of(years@, self@.year_tokens()),
    {
        let dates = join(&self.dates(), " ");
        let tokens = find_all(YEAR_TOKEN, dates.as_str());
        years_from_tokens(&tokens)
    }
}

} // verus!
