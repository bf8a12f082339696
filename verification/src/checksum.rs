//! The checksum of a record: what tells one bibliographic work from another.

use crate::aggregation::{aggregation_views, AggregationView, RecordAggregation};
use crate::digest::{sha256_hex, sha256_hex_of};
use crate::record::{HarvestedRecord, HarvestedRecordView};
use crate::text::{str_views, string_views};
use vstd::prelude::*;
use vstd::string::*;
use vstd::utf8::encode_utf8;

verus! {

/// The full names of the aggregations.
pub open spec fn full_names(aggs: Seq<AggregationView>) -> Seq<Seq<char>> {
    aggs.map_values(|a: AggregationView| a.full_aggregation_name())
}

/// Whether SHA-256 gives two different inputs the same digest.
pub open spec fn sha256_collision(x: Seq<u8>, y: Seq<u8>) -> bool {
    x != y && sha256_hex_of(x) == sha256_hex_of(y)
}

impl HarvestedRecordView {
    /// What the checksum covers, in the order in which it is digested: the
    /// full name of each aggregation, each author, each language code, the
    /// subtitle and the title.
    pub open spec fn checksum_parts(self) -> Seq<Seq<char>> {
        full_names(self.aggregations()) + self.authors() + self.languages() + seq![
            self.subtitle(),
            self.title(),
        ]
    }

    /// The bytes that are digested: the parts one after the other, with
    /// nothing between them, in UTF-8.
    pub open spec fn checksum_input(self) -> Seq<u8> {
        encode_utf8(self.checksum_parts().flatten())
    }

    /// The checksum: the SHA-256 digest of the input in lower-case
    /// hexadecimal digits.
    pub open spec fn checksum(self) -> Seq<char> {
        sha256_hex_of(self.checksum_input())
    }
}

/// Appends each of the texts to `data`.
fn append_all(data: &mut String, parts: &Vec<&str>)
    ensures
        final(data)@ == old(data)@ + str_views(parts@).flatten(),
{
    let ghost views = str_views(parts@);
    let mut i: usize = 0;
    proof {
        assert(views.take(0) =~= Seq::empty());
        assert(data@ + views.take(0).flatten() =~= data@);
    }
    while i < parts.len()
        invariant
            i <= parts.len(),
            views == str_views(parts@),
            data@ == old(data)@ + views.take(i as int).flatten(),
        decreases parts.len() - i,
    {
        data.append(parts[i]);
        proof {
            assert(views.take(i + 1) =~= views.take(i as int).push(views[i as int]));
            views.take(i as int).lemma_flatten_push(views[i as int]);
        }
        i += 1;
    }
    proof {
        assert(views.take(i as int) =~= views);
    }
}

impl HarvestedRecord {
    /// The checksum of the record. Records with the same aggregations,
    /// authors, languages, subtitle and title have the same checksum.
    pub fn checksum(&self) -> (r: String)
        ensures
            r@ == self@.checksum(),
    {
        let mut data = String::new();
        let aggs = self.aggregations();
        let ghost names = full_names(self@.aggregations());
        let mut i: usize = 0;
        proof {
            assert(names.take(0) =~= Seq::empty());
            assert(data@ =~= names.take(0).flatten());
        }
        while i < aggs.len()
            invariant
                i <= aggs.len(),
                aggregation_views(aggs@) == self@.aggregations(),
                names == full_names(self@.aggregations()),
                forall|k: int| 0 <= k < aggs@.len() ==> (#[trigger] aggs@[k])@.name is Some,
                data@ == names.take(i as int).flatten(),
            decreases aggs.len() - i,
        {
            let agg: &RecordAggregation = &aggs[i];
            let name = agg.full_aggregation_name();
            data.append(name.as_str());
            proof {
                assert(names.take(i + 1) =~= names.take(i as int).push(names[i as int]));
                names.take(i as int).lemma_flatten_push(names[i as int]);
            }
            i += 1;
        }
        proof {
            assert(names.take(i as int) =~= names);
        }
        append_all(&mut data, &self.authors());
        let langs = self.languages();
        let mut k: usize = 0;
        let ghost codes = self@.languages();
        let ghost start = data@;
        proof {
            assert(codes.take(0) =~= Seq::empty());
            assert(start + codes.take(0).flatten() =~= start);
        }
        while k < langs.len()
            invariant
                k <= langs.len(),
                codes == string_views(langs@),
                data@ == start + codes.take(k as int).flatten(),
            decreases langs.len() - k,
        {
            data.append(langs[k].as_str());
            proof {
                assert(codes.take(k + 1) =~= codes.take(k as int).push(codes[k as int]));
                codes.take(k as int).lemma_flatten_push(codes[k as int]);
            }
            k += 1;
        }
        proof {
            assert(codes.take(k as int) =~= codes);
        }
        let subtitle = self.subtitle();
        let title = self.title();
        data.append(subtitle.as_str());
        data.append(title.as_str());
        proof {
            let tail = seq![self@.subtitle(), self@.title()];
            assert(tail.flatten() =~= self@.subtitle() + self@.title()) by {
                reveal_with_fuel(Seq::flatten, 3);
            }
            vstd::seq_lib::lemma_flatten_concat(names, self@.authors());
            vstd::seq_lib::lemma_flatten_concat(names + self@.authors(), codes);
            vstd::seq_lib::lemma_flatten_concat(names + self@.authors() + codes, tail);
            assert(data@ =~= self@.checksum_parts().flatten());
        }
        sha256_hex(data.as_str().as_bytes())
    }
}

/// Records that agree in all that the checksum covers have the same
/// checksum, whatever else they hold.
pub proof fn checksum_stability(a: HarvestedRecordView, b: HarvestedRecordView)
    requires
        full_names(a.aggregations()) == full_names(b.aggregations()),
        a.authors() == b.authors(),
        a.languages() == b.languages(),
        a.subtitle() == b.subtitle(),
        a.title() == b.title(),
    ensures
        a.checksum() == b.checksum(),
{
}

/// Two lists of texts that differ in one place, and there only, differ when
/// written out one text after the other.
pub proof fn lemma_one_part_changed(a: Seq<Seq<char>>, b: Seq<Seq<char>>, k: int)
    requires
        a.len() == b.len(),
        0 <= k < a.len(),
        a[k] != b[k],
        forall|i: int| 0 <= i < a.len() && i != k ==> a[i] == b[i],
    ensures
        a.flatten() != b.flatten(),
{
    let head = a.take(k);
    let tail = a.skip(k + 1);
    assert(b.take(k) =~= head);
    assert(b.skip(k + 1) =~= tail);
    assert(a =~= head + seq![a[k]] + tail);
    assert(b =~= head + seq![b[k]] + tail);
    vstd::seq_lib::lemma_flatten_concat(head, seq![a[k]]);
    vstd::seq_lib::lemma_flatten_concat(head + seq![a[k]], tail);
    vstd::seq_lib::lemma_flatten_concat(head, seq![b[k]]);
    vstd::seq_lib::lemma_flatten_concat(head + seq![b[k]], tail);
    seq![a[k]].lemma_flatten_singleton();
    seq![b[k]].lemma_flatten_singleton();
    let x = head.flatten() + a[k] + tail.flatten();
    let y = head.flatten() + b[k] + tail.flatten();
    assert(a.flatten() =~= x);
    assert(b.flatten() =~= y);
    if x == y {
        let n = head.flatten().len() as int;
        assert(x.len() == y.len());
        assert(a[k].len() == b[k].len());
        assert(a[k] =~= x.subrange(n, n + a[k].len()));
        assert(b[k] =~= y.subrange(n, n + b[k].len()));
    }
}

/// A change to one of the parts that the checksum covers (the title, the
/// subtitle, one author, one language code or the full name of one
/// aggregation) changes the checksum, unless SHA-256 gives the two inputs the
/// same digest.
pub proof fn checksum_sensitivity(a: HarvestedRecordView, b: HarvestedRecordView, k: int)
    requires
        a.checksum_parts().len() == b.checksum_parts().len(),
        0 <= k < a.checksum_parts().len(),
        a.checksum_parts()[k] != b.checksum_parts()[k],
        forall|i: int|
            0 <= i < a.checksum_parts().len() && i != k ==> a.checksum_parts()[i]
                == b.checksum_parts()[i],
        !sha256_collision(a.checksum_input(), b.checksum_input()),
    ensures
        a.checksum() != b.checksum(),
{
    lemma_one_part_changed(a.checksum_parts(), b.checksum_parts(), k);
    vstd::utf8::encode_utf8_decode_utf8(a.checksum_parts().flatten());
    vstd::utf8::encode_utf8_decode_utf8(b.checksum_parts().flatten());
}

} // verus!
