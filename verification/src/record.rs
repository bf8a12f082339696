//! A harvested record and the attributes that are read from it, each by the
//! tags and codes of the record's dialect.

use crate::marc::{
    datafield_views, fields_with_tag, lemma_fields_with_tag_push, lemma_subfield_texts_push,
    lemma_texts_of_fields_push, selected, subfield_texts, texts_of_fields, DatafieldView,
    MarcDataField, OaiPmhRecord, OaiPmhRecordView,
};
use crate::language::{language_code, language_iso_code};
use crate::request::{host_in, url_host};
use crate::site::{HarvestParams, MetadataType, SiteType};
use crate::text::{join, joined, str_eq, str_views, string_views};
use vstd::prelude::*;

verus! {

/// A record together with what is known of the site it came from.
#[derive(Debug)]
pub struct HarvestedRecord {
    pub raw: OaiPmhRecord,
    pub record_type: MetadataType,
    pub host: String,
    pub site_type: SiteType,
}

/// What a harvested record holds.
pub struct HarvestedRecordView {
    pub raw: OaiPmhRecordView,
    pub record_type: MetadataType,
    pub host: Seq<char>,
    pub site_type: SiteType,
}

impl View for HarvestedRecord {
    type V = HarvestedRecordView;

    open spec fn view(&self) -> HarvestedRecordView {
        HarvestedRecordView {
            raw: self.raw@,
            record_type: self.record_type,
            host: self.host@,
            site_type: self.site_type,
        }
    }
}

impl HarvestedRecordView {
    /// The datafields of the catalogue record.
    pub open spec fn fields(self) -> Seq<DatafieldView> {
        self.raw.record.datafields
    }

    /// The texts that a tag and a list of codes select, joined by single
    /// spaces.
    pub open spec fn spaced(self, tag: &str, codes: Seq<&str>) -> Seq<char> {
        joined(self.texts(tag, codes), " "@)
    }

    /// The texts that a tag and a list of codes select.
    pub open spec fn texts(self, tag: &str, codes: Seq<&str>) -> Seq<Seq<char>> {
        selected(self.fields(), tag@, str_views(codes))
    }

    /// The identifier that the record carries: 024 `a`, in UniMarc 090 `a`.
    pub open spec fn identifier(self) -> Seq<char> {
        match self.record_type {
            MetadataType::Marc21 => self.spaced("024", seq!["a"]),
            MetadataType::UniMarc => self.spaced("090", seq!["a"]),
        }
    }

    /// The title: 245 `a`, `b` and `c`, in UniMarc 200 `a` and `e`.
    pub open spec fn title(self) -> Seq<char> {
        match self.record_type {
            MetadataType::Marc21 => self.spaced("245", seq!["a", "b", "c"]),
            MetadataType::UniMarc => self.spaced("200", seq!["a", "e"]),
        }
    }

    /// The subtitle: 246 `a` and `b`. UniMarc has none.
    pub open spec fn subtitle(self) -> Seq<char> {
        match self.record_type {
            MetadataType::Marc21 => self.spaced("246", seq!["a", "b"]),
            MetadataType::UniMarc => Seq::empty(),
        }
    }

    /// The authors: 100 `a`, in UniMarc 200 `f`.
    pub open spec fn authors(self) -> Seq<Seq<char>> {
        match self.record_type {
            MetadataType::Marc21 => self.texts("100", seq!["a"]),
            MetadataType::UniMarc => self.texts("200", seq!["f"]),
        }
    }

    /// The languages as the record writes them: 041 `a` and then 546 `a`, in
    /// UniMarc 101 `a`.
    pub open spec fn language_texts(self) -> Seq<Seq<char>> {
        match self.record_type {
            MetadataType::Marc21 => self.texts("041", seq!["a"]) + self.texts("546", seq!["a"]),
            MetadataType::UniMarc => self.texts("101", seq!["a"]),
        }
    }

    /// The two-letter codes of the record's languages, in document order.
    pub open spec fn languages(self) -> Seq<Seq<char>> {
        self.language_texts().map_values(|l: Seq<char>| language_code(l))
    }

    /// The description: 520 `a`, in UniMarc 300 `a` and then 330 `a`.
    pub open spec fn description(self) -> Seq<char> {
        match self.record_type {
            MetadataType::Marc21 => self.spaced("520", seq!["a"]),
            MetadataType::UniMarc => joined(
                self.texts("300", seq!["a"]) + self.texts("330", seq!["a"]),
                " "@,
            ),
        }
    }

    /// The texts in which the record speaks of dates: 264 `c`, then 363 `i`,
    /// then 362 `a`, in UniMarc 210 `d`.
    pub open spec fn dates(self) -> Seq<Seq<char>> {
        match self.record_type {
            MetadataType::Marc21 => self.texts("264", seq!["c"]) + self.texts("363", seq!["i"])
                + self.texts("362", seq!["a"]),
            MetadataType::UniMarc => self.texts("210", seq!["d"]),
        }
    }

    /// The publisher: 260 `b` and then 264 `b`, in UniMarc 210 `c`.
    pub open spec fn publisher(self) -> Seq<char> {
        match self.record_type {
            MetadataType::Marc21 => joined(
                self.texts("260", seq!["b"]) + self.texts("264", seq!["b"]),
                " "@,
            ),
            MetadataType::UniMarc => self.spaced("210", seq!["c"]),
        }
    }

    /// The ISBN: 020 `a`, in UniMarc 010 `a`.
    pub open spec fn isbn(self) -> Seq<char> {
        match self.record_type {
            MetadataType::Marc21 => self.spaced("020", seq!["a"]),
            MetadataType::UniMarc => self.spaced("010", seq!["a"]),
        }
    }

    /// The description of the material: 300 `a`, `b`, `c` and `e`, in UniMarc
    /// 215 `a`, `c`, `d` and `e`.
    pub open spec fn material_description(self) -> Seq<char> {
        match self.record_type {
            MetadataType::Marc21 => self.spaced("300", seq!["a", "b", "c", "e"]),
            MetadataType::UniMarc => self.spaced("215", seq!["a", "c", "d", "e"]),
        }
    }

    /// The place on the shelves: 952 `o` and then 852 `c`, in UniMarc 950 `a`
    /// and then 676 `a`.
    pub open spec fn shelf_location_code(self) -> Seq<char> {
        match self.record_type {
            MetadataType::Marc21 => joined(
                self.texts("952", seq!["o"]) + self.texts("852", seq!["c"]),
                " "@,
            ),
            MetadataType::UniMarc => joined(
                self.texts("950", seq!["a"]) + self.texts("676", seq!["a"]),
                " "@,
            ),
        }
    }

    /// The edition statement: 250 `a`, in UniMarc 255 `a` and `v`.
    pub open spec fn edition_statement(self) -> Seq<char> {
        match self.record_type {
            MetadataType::Marc21 => self.spaced("250", seq!["a"]),
            MetadataType::UniMarc => self.spaced("255", seq!["a", "v"]),
        }
    }

    /// Place and date of publication or distribution: 260 `a` and `c` and
    /// then 264 `a` and `c`, in UniMarc 210 `a` and `d`.
    pub open spec fn place_date_of_publication_distribution(self) -> Seq<char> {
        match self.record_type {
            MetadataType::Marc21 => joined(
                self.texts("260", seq!["a", "c"]) + self.texts("264", seq!["a", "c"]),
                " "@,
            ),
            MetadataType::UniMarc => self.spaced("210", seq!["a", "d"]),
        }
    }
}

/// One list of texts after another.
fn both<'a>(first: Vec<&'a str>, second: Vec<&'a str>) -> (r: Vec<&'a str>)
    ensures
        str_views(r@) == str_views(first@) + str_views(second@),
{
    let mut first = first;
    let mut second = second;
    let ghost a = first@;
    let ghost b = second@;
    first.append(&mut second);
    assert(str_views(a + b) =~= str_views(a) + str_views(b));
    first
}

/// A list of one code.
pub(crate) fn codes1<'a>(a: &'a str) -> (r: Vec<&'a str>)
    ensures
        r@ == seq![a],
{
    vec![a]
}

/// A list of two codes.
pub(crate) fn codes2<'a>(a: &'a str, b: &'a str) -> (r: Vec<&'a str>)
    ensures
        r@ == seq![a, b],
{
    vec![a, b]
}

/// A list of three codes.
pub(crate) fn codes3<'a>(a: &'a str, b: &'a str, c: &'a str) -> (r: Vec<&'a str>)
    ensures
        r@ == seq![a, b, c],
{
    vec![a, b, c]
}

/// A list of four codes.
pub(crate) fn codes4<'a>(a: &'a str, b: &'a str, c: &'a str, d: &'a str) -> (r: Vec<&'a str>)
    ensures
        r@ == seq![a, b, c, d],
{
    vec![a, b, c, d]
}

/// Whether `code` is one of `codes`.
fn code_listed(code: &str, codes: &Vec<&str>) -> (r: bool)
    ensures
        r == str_views(codes@).contains(code@),
{
    let mut i: usize = 0;
    while i < codes.len()
        invariant
            i <= codes.len(),
            forall|k: int| 0 <= k < i ==> str_views(codes@)[k] != code@,
        decreases codes.len() - i,
    {
        if str_eq(codes[i], code) {
            assert(str_views(codes@)[i as int] == code@);
            return true;
        }
        i += 1;
    }
    false
}

/// The host of a site, or the empty text where the address of the site
/// names none.
pub open spec fn host_or_empty(host: Option<Seq<char>>) -> Seq<char> {
    match host {
        Some(h) => h,
        None => Seq::empty(),
    }
}

impl HarvestedRecord {
    /// A record of the site that `params` describe, with the dialect of the
    /// site and the host of its address. There is none where the address of
    /// the site is no address.
    pub fn new(record: OaiPmhRecord, params: &HarvestParams) -> (r: Option<HarvestedRecord>)
        ensures
            match host_in(params.base_url@) {
                Some(host) => r matches Some(rec) && rec@ == (HarvestedRecordView {
                    raw: record@,
                    record_type: params.site_type.dialect(),
                    host: host_or_empty(host),
                    site_type: params.site_type,
                }),
                None => r is None,
            },
    {
        match url_host(params.base_url.as_str()) {
            Some(host) => Some(
                HarvestedRecord {
                    raw: record,
                    record_type: match params.site_type {
                        SiteType::KohaUnimarc => MetadataType::UniMarc,
                        SiteType::KohaMarc21 => MetadataType::Marc21,
                        SiteType::Amusewiki => MetadataType::Marc21,
                    },
                    host: match host {
                        Some(h) => h,
                        None => String::new(),
                    },
                    site_type: params.site_type,
                },
            ),
            None => None,
        }
    }

    /// The datafields with the tag `field`, in document order.
    pub fn get_fields(&self, field: &str) -> (out: Vec<&MarcDataField>)
        ensures
            datafield_views(out@) == fields_with_tag(self@.fields(), field@),
    {
        let rec = &self.raw.metadata.record;
        let mut out: Vec<&MarcDataField> = Vec::new();
        let mut i: usize = 0;
        proof {
            assert(self@.fields().take(0) =~= Seq::empty());
            reveal(Seq::filter);
            assert(datafield_views(out@) =~= Seq::empty());
        }
        while i < rec.datafields.len()
            invariant
                rec == &self.raw.metadata.record,
                i <= rec.datafields.len(),
                datafield_views(out@) == fields_with_tag(self@.fields().take(i as int), field@),
            decreases rec.datafields.len() - i,
        {
            let df = &rec.datafields[i];
            proof {
                let all = self@.fields();
                assert(all.take(i + 1) =~= all.take(i as int).push(df@));
                lemma_fields_with_tag_push(all.take(i as int), df@, field@);
            }
            let ghost before = out@;
            if str_eq(df.tag.as_str(), field) {
                out.push(df);
                assert(datafield_views(out@) =~= datafield_views(before).push(df@));
            }
            i += 1;
        }
        proof {
            assert(self@.fields().take(i as int) =~= self@.fields());
        }
        out
    }

    /// The texts of the subfields with one of the `codes`, in the datafields
    /// with the tag `field`, in document order.
    pub fn extract_fields(&self, field: &str, codes: Vec<&str>) -> (out: Vec<&str>)
        ensures
            str_views(out@) == selected(self@.fields(), field@, str_views(codes@)),
    {
        let fields = self.get_fields(field);
        let ghost views = datafield_views(fields@);
        let ghost wanted = str_views(codes@);
        let mut out: Vec<&str> = Vec::new();
        let mut i: usize = 0;
        proof {
            assert(views.take(0) =~= Seq::empty());
            assert(views.take(0).map_values(|f: DatafieldView| subfield_texts(f.subfields, wanted))
                =~= Seq::empty());
            assert(str_views(out@) =~= Seq::empty());
        }
        while i < fields.len()
            invariant
                i <= fields.len(),
                views == datafield_views(fields@),
                wanted == str_views(codes@),
                str_views(out@) == texts_of_fields(views.take(i as int), wanted),
            decreases fields.len() - i,
        {
            let df: &MarcDataField = fields[i];
            let ghost subs = df@.subfields;
            let ghost done = texts_of_fields(views.take(i as int), wanted);
            let mut j: usize = 0;
            proof {
                assert(subs.take(0) =~= Seq::empty());
                reveal(Seq::filter);
                assert(subfield_texts(subs.take(0), wanted) =~= Seq::empty());
                assert(done + Seq::<Seq<char>>::empty() =~= done);
            }
            while j < df.subfields.len()
                invariant
                    j <= df.subfields.len(),
                    subs == df@.subfields,
                    wanted == str_views(codes@),
                    str_views(out@) == done + subfield_texts(subs.take(j as int), wanted),
                decreases df.subfields.len() - j,
            {
                let sf = &df.subfields[j];
                proof {
                    assert(subs.take(j + 1) =~= subs.take(j as int).push(sf@));
                    lemma_subfield_texts_push(subs.take(j as int), sf@, wanted);
                }
                let ghost before = out@;
                if code_listed(sf.code.as_str(), &codes) {
                    out.push(sf.text.as_str());
                    assert(str_views(out@) =~= str_views(before).push(sf@.text));
                    assert(str_views(out@) =~= done + subfield_texts(
                        subs.take(j as int),
                        wanted,
                    ).push(sf@.text));
                }
                j += 1;
            }
            proof {
                assert(subs.take(j as int) =~= subs);
                assert(views.take(i + 1) =~= views.take(i as int).push(df@));
                lemma_texts_of_fields_push(views.take(i as int), df@, wanted);
            }
            i += 1;
        }
        proof {
            assert(views.take(i as int) =~= views);
        }
        out
    }

    /// The texts that a tag and a list of codes select, joined by single
    /// spaces.
    fn spaced(&self, field: &str, codes: Vec<&str>) -> (r: String)
        ensures
            r@ == self@.spaced(field, codes@),
    {
        join(&self.extract_fields(field, codes), " ")
    }

    /// The identifier that the remote catalogue gave the record.
    pub fn oai_pmh_identifier(&self) -> (r: &str)
        ensures
            r@ == self@.raw.header.identifier,
    {
        self.raw.header.identifier.as_str()
    }

    /// The time at which the remote catalogue last changed the record, as it
    /// wrote it.
    pub fn datestamp(&self) -> (r: &str)
        ensures
            r@ == self@.raw.header.datestamp,
    {
        self.raw.header.datestamp.as_str()
    }

    /// The identifier that the record itself carries.
    pub fn identifier(&self) -> (r: String)
        ensures
            r@ == self@.identifier(),
    {
        match self.record_type {
            MetadataType::Marc21 => self.spaced("024", codes1("a")),
            MetadataType::UniMarc => self.spaced("090", codes1("a")),
        }
    }

    /// The title.
    pub fn title(&self) -> (r: String)
        ensures
            r@ == self@.title(),
    {
        match self.record_type {
            MetadataType::Marc21 => self.spaced("245", codes3("a", "b", "c")),
            MetadataType::UniMarc => self.spaced("200", codes2("a", "e")),
        }
    }

    /// The subtitle. The UniMarc dialect has none.
    pub fn subtitle(&self) -> (r: String)
        ensures
            r@ == self@.subtitle(),
    {
        match self.record_type {
            MetadataType::Marc21 => self.spaced("246", codes2("a", "b")),
            MetadataType::UniMarc => String::new(),
        }
    }

    /// The authors, in document order.
    pub fn authors(&self) -> (r: Vec<&str>)
        ensures
            str_views(r@) == self@.authors(),
    {
        match self.record_type {
            MetadataType::Marc21 => self.extract_fields("100", codes1("a")),
            MetadataType::UniMarc => self.extract_fields("200", codes1("f")),
        }
    }

    /// The two-letter codes of the languages, in document order.
    pub fn languages(&self) -> (r: Vec<String>)
        ensures
            string_views(r@) == self@.languages(),
    {
        let langs = match self.record_type {
            MetadataType::Marc21 => both(
                self.extract_fields("041", codes1("a")),
                self.extract_fields("546", codes1("a")),
            ),
            MetadataType::UniMarc => self.extract_fields("101", codes1("a")),
        };
        let mut out: Vec<String> = Vec::new();
        let mut i: usize = 0;
        while i < langs.len()
            invariant
                i <= langs.len(),
                str_views(langs@) == self@.language_texts(),
                out@.len() == i,
                forall|k: int| 0 <= k < i ==> (#[trigger] out@[k])@ == language_code(langs@[k]@),
            decreases langs.len() - i,
        {
            out.push(language_iso_code(langs[i]));
            i += 1;
        }
        assert(string_views(out@) =~= self@.languages());
        out
    }

    /// The description.
    pub fn description(&self) -> (r: String)
        ensures
            r@ == self@.description(),
    {
        match self.record_type {
            MetadataType::Marc21 => self.spaced("520", codes1("a")),
            MetadataType::UniMarc => {
                let descs = both(
                    self.extract_fields("300", codes1("a")),
                    self.extract_fields("330", codes1("a")),
                );
                join(&descs, " ")
            },
        }
    }

    /// The texts in which the record speaks of dates.
    pub fn dates(&self) -> (r: Vec<&str>)
        ensures
            str_views(r@) == self@.dates(),
    {
        match self.record_type {
            MetadataType::Marc21 => both(
                both(
                    self.extract_fields("264", codes1("c")),
                    self.extract_fields("363", codes1("i")),
                ),
                self.extract_fields("362", codes1("a")),
            ),
            MetadataType::UniMarc => self.extract_fields("210", codes1("d")),
        }
    }

    /// The publisher.
    pub fn publisher(&self) -> (r: String)
        ensures
            r@ == self@.publisher(),
    {
        match self.record_type {
            MetadataType::Marc21 => {
                let publishers = both(
                    self.extract_fields("260", codes1("b")),
                    self.extract_fields("264", codes1("b")),
                );
                join(&publishers, " ")
            },
            MetadataType::UniMarc => self.spaced("210", codes1("c")),
        }
    }

    /// The ISBN.
    pub fn isbn(&self) -> (r: String)
        ensures
            r@ == self@.isbn(),
    {
        match self.record_type {
            MetadataType::Marc21 => self.spaced("020", codes1("a")),
            MetadataType::UniMarc => self.spaced("010", codes1("a")),
        }
    }

    /// The description of the material.
    pub fn material_description(&self) -> (r: String)
        ensures
            r@ == self@.material_description(),
    {
        match self.record_type {
            MetadataType::Marc21 => self.spaced("300", codes4("a", "b", "c", "e")),
            MetadataType::UniMarc => self.spaced("215", codes4("a", "c", "d", "e")),
        }
    }

    /// Where the item stands on the shelves.
    pub fn shelf_location_code(&self) -> (r: String)
        ensures
            r@ == self@.shelf_location_code(),
    {
        let locs = match self.record_type {
            MetadataType::Marc21 => both(
                self.extract_fields("952", codes1("o")),
                self.extract_fields("852", codes1("c")),
            ),
            MetadataType::UniMarc => both(
                self.extract_fields("950", codes1("a")),
                self.extract_fields("676", codes1("a")),
            ),
        };
        join(&locs, " ")
    }

    /// The edition statement.
    pub fn edition_statement(&self) -> (r: String)
        ensures
            r@ == self@.edition_statement(),
    {
        match self.record_type {
            MetadataType::Marc21 => self.spaced("250", codes1("a")),
            MetadataType::UniMarc => self.spaced("255", codes2("a", "v")),
        }
    }

    /// Place and date of publication or distribution.
    pub fn place_date_of_publication_distribution(&self) -> (r: String)
        ensures
            r@ == self@.place_date_of_publication_distribution(),
    {
        match self.record_type {
            MetadataType::Marc21 => {
                let places = both(
                    self.extract_fields("260", codes2("a", "c")),
                    self.extract_fields("264", codes2("a", "c")),
                );
                join(&places, " ")
            },
            MetadataType::UniMarc => self.spaced("210", codes2("a", "d")),
        }
    }
}

} // verus!
