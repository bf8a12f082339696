//! Aggregations: the journal, series or other container that a record says it
//! is part of.

use crate::digest::{sha256_hex, sha256_hex_of};
use crate::marc::{
    datafield_views, fields_with_tag, last_of, lemma_last_of_push, DatafieldView, MarcDataField,
    SubfieldView,
};
use crate::record::{HarvestedRecord, HarvestedRecordView};
use crate::site::MetadataType;
use crate::text::{join, joined, opt_view, parse_i32, parsed_i32, str_eq, str_views};
use vstd::prelude::*;
use vstd::string::*;
use vstd::utf8::encode_utf8;

verus! {

/// A container that a record is part of, as one datafield describes it.
#[derive(Debug)]
pub struct RecordAggregation {
    pub name: Option<String>,
    pub issue: Option<String>,
    pub isbn: Option<String>,
    pub order: Option<i32>,
    pub place_date_publisher: Option<String>,
    pub item_identifier: Option<String>,
    pub linkage: Option<String>,
    pub host: String,
}

/// What an aggregation holds.
pub struct AggregationView {
    pub name: Option<Seq<char>>,
    pub issue: Option<Seq<char>>,
    pub isbn: Option<Seq<char>>,
    pub order: Option<i32>,
    pub place_date_publisher: Option<Seq<char>>,
    pub item_identifier: Option<Seq<char>>,
    pub linkage: Option<Seq<char>>,
    pub host: Seq<char>,
}

impl View for RecordAggregation {
    type V = AggregationView;

    open spec fn view(&self) -> AggregationView {
        AggregationView {
            name: opt_view(self.name),
            issue: opt_view(self.issue),
            isbn: opt_view(self.isbn),
            order: self.order,
            place_date_publisher: opt_view(self.place_date_publisher),
            item_identifier: opt_view(self.item_identifier),
            linkage: opt_view(self.linkage),
            host: self.host@,
        }
    }
}

/// A list of the one text, or of none.
pub open spec fn opt_part(part: Option<Seq<char>>) -> Seq<Seq<char>> {
    match part {
        Some(p) => seq![p],
        None => Seq::empty(),
    }
}

impl AggregationView {
    /// The parts of the identifier: the word `aggregation`, the host, and
    /// then the item identifier alone where there is one, else the name and,
    /// where there is one, the issue.
    pub open spec fn identifier_parts(self) -> Seq<Seq<char>> {
        seq!["aggregation"@, self.host] + (match self.item_identifier {
            Some(item) => seq![item],
            None => seq![self.name->0] + opt_part(self.issue),
        })
    }

    /// The identifier: its parts joined by colons.
    pub open spec fn identifier(self) -> Seq<char> {
        joined(self.identifier_parts(), ":"@)
    }

    /// The parts of the full name: the name, the issue and the place, date
    /// and publisher, each of the last two only where there is one.
    pub open spec fn full_name_parts(self) -> Seq<Seq<char>> {
        seq![self.name->0] + opt_part(self.issue) + opt_part(self.place_date_publisher)
    }

    /// The full name: its parts joined by single spaces.
    pub open spec fn full_aggregation_name(self) -> Seq<char> {
        joined(self.full_name_parts(), " "@)
    }

    /// The digest of the full name.
    pub open spec fn checksum(self) -> Seq<char> {
        sha256_hex_of(encode_utf8(self.full_aggregation_name()))
    }
}

impl RecordAggregation {
    /// The name. An aggregation without a name has none to give.
    pub fn name(&self) -> (r: &str)
        requires
            self@.name is Some,
        ensures
            Some(r@) == self@.name,
    {
        match &self.name {
            Some(aggregation_name) => aggregation_name.as_str(),
            None => vstd::pervasive::unreached(),
        }
    }

    /// The identifier of the aggregation on its site.
    pub fn identifier(&self) -> (r: String)
        requires
            self@.item_identifier is Some || self@.name is Some,
        ensures
            r@ == self@.identifier(),
    {
        let mut identifier: Vec<&str> = Vec::new();
        identifier.push("aggregation");
        identifier.push(self.host.as_str());
        match &self.item_identifier {
            Some(item_identifier) => {
                identifier.push(item_identifier.as_str());
            },
            None => {
                identifier.push(self.name());
                if let Some(issue_number) = &self.issue {
                    identifier.push(issue_number.as_str());
                }
            },
        }
        assert(str_views(identifier@) =~= self@.identifier_parts());
        join(&identifier, ":")
    }

    /// The name by which the aggregation is told from others.
    pub fn full_aggregation_name(&self) -> (r: String)
        requires
            self@.name is Some,
        ensures
            r@ == self@.full_aggregation_name(),
    {
        let mut full_name: Vec<&str> = Vec::new();
        full_name.push(self.name());
        if let Some(issue_number) = &self.issue {
            full_name.push(issue_number.as_str());
        }
        if let Some(place_date_publisher) = &self.place_date_publisher {
            full_name.push(place_date_publisher.as_str());
        }
        assert(str_views(full_name@) =~= self@.full_name_parts());
        join(&full_name, " ")
    }

    /// The SHA-256 digest of the full name, in hexadecimal digits.
    pub fn checksum(&self) -> (r: String)
        requires
            self@.name is Some,
        ensures
            r@ == self@.checksum(),
    {
        let name = self.full_aggregation_name();
        sha256_hex(name.as_str().as_bytes())
    }
}

/// The subfields with the code `q` whose text writes a 32-bit integer.
pub open spec fn orders(subfields: Seq<SubfieldView>) -> Seq<SubfieldView> {
    subfields.filter(|s: SubfieldView| s.code == "q"@ && parsed_i32(s.text) is Some)
}

/// The number that the last subfield `q` with a number writes.
pub open spec fn last_order(subfields: Seq<SubfieldView>) -> Option<i32> {
    if orders(subfields).len() > 0 {
        parsed_i32(orders(subfields).last().text)
    } else {
        None
    }
}

/// The aggregation that one datafield describes: each attribute is the text
/// of the last subfield with its code, and the order the last number under
/// `q`.
pub open spec fn aggregation_of(field: DatafieldView, host: Seq<char>) -> AggregationView {
    AggregationView {
        name: last_of(field.subfields, "t"@),
        issue: last_of(field.subfields, "g"@),
        isbn: last_of(field.subfields, "z"@),
        order: last_order(field.subfields),
        place_date_publisher: last_of(field.subfields, "d"@),
        item_identifier: last_of(field.subfields, "o"@),
        linkage: last_of(field.subfields, "6"@),
        host,
    }
}

/// What a list of aggregations holds.
pub open spec fn aggregation_views(aggs: Seq<RecordAggregation>) -> Seq<AggregationView> {
    aggs.map_values(|a: RecordAggregation| a@)
}

/// The aggregations that the datafields describe, without those that have no
/// name.
pub open spec fn named_aggregations(fields: Seq<DatafieldView>, host: Seq<char>) -> Seq<
    AggregationView,
> {
    fields.map_values(|f: DatafieldView| aggregation_of(f, host)).filter(
        |a: AggregationView| a.name is Some,
    )
}

impl HarvestedRecordView {
    /// The aggregations of the record: in the Marc21 dialect those that the
    /// datafields 773 describe and name, in the UniMarc dialect none.
    pub open spec fn aggregations(self) -> Seq<AggregationView> {
        match self.record_type {
            MetadataType::Marc21 => named_aggregations(
                fields_with_tag(self.fields(), "773"@),
                self.host,
            ),
            MetadataType::UniMarc => Seq::empty(),
        }
    }
}

/// Every aggregation of a record has a name.
pub proof fn aggregations_have_names(record: HarvestedRecordView, i: int)
    requires
        0 <= i < record.aggregations().len(),
    ensures
        record.aggregations()[i].name is Some,
{
    match record.record_type {
        MetadataType::Marc21 => {
            let all = fields_with_tag(record.fields(), "773"@).map_values(
                |f: DatafieldView| aggregation_of(f, record.host),
            );
            all.lemma_filter_pred(|a: AggregationView| a.name is Some, i);
        },
        MetadataType::UniMarc => {},
    }
}

/// The aggregation that one datafield describes.
fn aggregation_from(field: &MarcDataField, host: &str) -> (agg: RecordAggregation)
    ensures
        agg@ == aggregation_of(field@, host@),
{
    let mut name: Option<String> = None;
    let mut issue: Option<String> = None;
    let mut isbn: Option<String> = None;
    let mut order: Option<i32> = None;
    let mut place_date_publisher: Option<String> = None;
    let mut item_identifier: Option<String> = None;
    let mut linkage: Option<String> = None;
    let ghost subs = field@.subfields;
    let mut j: usize = 0;
    proof {
        reveal_strlit("t");
        reveal_strlit("g");
        reveal_strlit("z");
        reveal_strlit("q");
        reveal_strlit("d");
        reveal_strlit("o");
        reveal_strlit("6");
        reveal(Seq::filter);
        assert(subs.take(0) =~= Seq::empty());
    }
    while j < field.subfields.len()
        invariant
            j <= field.subfields.len(),
            subs == field@.subfields,
            "t"@[0] == 't',
            "g"@[0] == 'g',
            "z"@[0] == 'z',
            "q"@[0] == 'q',
            "d"@[0] == 'd',
            "o"@[0] == 'o',
            "6"@[0] == '6',
            opt_view(name) == last_of(subs.take(j as int), "t"@),
            opt_view(issue) == last_of(subs.take(j as int), "g"@),
            opt_view(isbn) == last_of(subs.take(j as int), "z"@),
            order == last_order(subs.take(j as int)),
            opt_view(place_date_publisher) == last_of(subs.take(j as int), "d"@),
            opt_view(item_identifier) == last_of(subs.take(j as int), "o"@),
            opt_view(linkage) == last_of(subs.take(j as int), "6"@),
        decreases field.subfields.len() - j,
    {
        let sf = &field.subfields[j];
        proof {
            let before = subs.take(j as int);
            assert(subs.take(j + 1) =~= before.push(sf@));
            lemma_last_of_push(before, sf@, "t"@);
            lemma_last_of_push(before, sf@, "g"@);
            lemma_last_of_push(before, sf@, "z"@);
            lemma_last_of_push(before, sf@, "d"@);
            lemma_last_of_push(before, sf@, "o"@);
            lemma_last_of_push(before, sf@, "6"@);
            before.lemma_filter_push(
                sf@,
                |s: SubfieldView| s.code == "q"@ && parsed_i32(s.text) is Some,
            );
        }
        let text = sf.text.clone();
        let code = sf.code.as_str();
        if str_eq(code, "t") {
            name = Some(text);
        } else if str_eq(code, "g") {
            issue = Some(text);
        } else if str_eq(code, "z") {
            isbn = Some(text);
        } else if str_eq(code, "q") {
            match parse_i32(text.as_str()) {
                Some(i) => {
                    order = Some(i);
                },
                None => {},
            }
        } else if str_eq(code, "d") {
            place_date_publisher = Some(text);
        } else if str_eq(code, "o") {
            item_identifier = Some(text);
        } else if str_eq(code, "6") {
            linkage = Some(text);
        }
        j += 1;
    }
    proof {
        assert(subs.take(j as int) =~= subs);
    }
    RecordAggregation {
        name,
        issue,
        isbn,
        order,
        place_date_publisher,
        item_identifier,
        linkage,
        host: String::from_str(host),
    }
}

impl HarvestedRecord {
    /// The aggregations that the record says it is part of, in document
    /// order. Each has a name.
    pub fn aggregations(&self) -> (out: Vec<RecordAggregation>)
        ensures
            aggregation_views(out@) == self@.aggregations(),
            forall|i: int| 0 <= i < out@.len() ==> (#[trigger] out@[i])@.name is Some,
    {
        let mut out: Vec<RecordAggregation> = Vec::new();
        match self.record_type {
            MetadataType::Marc21 => {
                let fields = self.get_fields("773");
                let ghost views = datafield_views(fields@);
                let ghost host = self@.host;
                let mut i: usize = 0;
                proof {
                    reveal(Seq::filter);
                    assert(views.take(0) =~= Seq::empty());
                    assert(aggregation_views(out@) =~= Seq::empty());
                    assert(views.take(0).map_values(|f: DatafieldView| aggregation_of(f, host))
                        =~= Seq::empty());
                }
                while i < fields.len()
                    invariant
                        i <= fields.len(),
                        views == datafield_views(fields@),
                        host == self@.host,
                        aggregation_views(out@) == named_aggregations(views.take(i as int), host),
                        forall|k: int| 0 <= k < out@.len() ==> (#[trigger] out@[k])@.name is Some,
                    decreases fields.len() - i,
                {
                    let agg = aggregation_from(fields[i], self.host.as_str());
                    proof {
                        let f = |f: DatafieldView| aggregation_of(f, host);
                        let before = views.take(i as int);
                        assert(views.take(i + 1) =~= before.push(views[i as int]));
                        assert(before.push(views[i as int]).map_values(f) =~= before.map_values(
                            f,
                        ).push(agg@));
                        before.map_values(f).lemma_filter_push(
                            agg@,
                            |a: AggregationView| a.name is Some,
                        );
                    }
                    let ghost kept = out@;
                    if agg.name.is_some() {
                        out.push(agg);
                        assert(aggregation_views(out@) =~= aggregation_views(kept).push(agg@));
                    }
                    i += 1;
                }
                proof {
                    assert(views.take(i as int) =~= views);
                }
            },
            MetadataType::UniMarc => {
                assert(aggregation_views(out@) =~= Seq::empty());
            },
        }
        out
    }
}

} // verus!
