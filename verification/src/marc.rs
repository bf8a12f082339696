//! The record model: a harvested record is a header and a catalogue record,
//! and a catalogue record is a list of datafields, each a tag, two indicators
//! and a list of subfields.

use vstd::prelude::*;

verus! {

/// One subfield of a datafield: a code and its text.
#[derive(Debug)]
pub struct MarcSubField {
    pub code: String,
    pub text: String,
}

/// What a subfield holds.
pub struct SubfieldView {
    pub code: Seq<char>,
    pub text: Seq<char>,
}

impl View for MarcSubField {
    type V = SubfieldView;

    open spec fn view(&self) -> SubfieldView {
        SubfieldView { code: self.code@, text: self.text@ }
    }
}

/// One datafield of a catalogue record.
#[derive(Debug)]
pub struct MarcDataField {
    pub tag: String,
    pub ind1: String,
    pub ind2: String,
    pub subfields: Vec<MarcSubField>,
}

/// What a datafield holds.
pub struct DatafieldView {
    pub tag: Seq<char>,
    pub ind1: Seq<char>,
    pub ind2: Seq<char>,
    pub subfields: Seq<SubfieldView>,
}

impl View for MarcDataField {
    type V = DatafieldView;

    open spec fn view(&self) -> DatafieldView {
        DatafieldView {
            tag: self.tag@,
            ind1: self.ind1@,
            ind2: self.ind2@,
            subfields: self.subfields@.map_values(|s: MarcSubField| s@),
        }
    }
}

/// A catalogue record.
#[derive(Debug)]
pub struct MarcRecord {
    pub namespace: String,
    pub datafields: Vec<MarcDataField>,
}

/// What a catalogue record holds.
pub struct MarcRecordView {
    pub namespace: Seq<char>,
    pub datafields: Seq<DatafieldView>,
}

impl View for MarcRecord {
    type V = MarcRecordView;

    open spec fn view(&self) -> MarcRecordView {
        MarcRecordView {
            namespace: self.namespace@,
            datafields: self.datafields@.map_values(|f: MarcDataField| f@),
        }
    }
}

/// The header of a harvested record.
#[derive(Debug)]
pub struct OaiPmhRecordHeader {
    pub identifier: String,
    pub datestamp: String,
    pub status: Option<String>,
}

/// What a header holds.
pub struct HeaderView {
    pub identifier: Seq<char>,
    pub datestamp: Seq<char>,
    pub status: Option<Seq<char>>,
}

impl View for OaiPmhRecordHeader {
    type V = HeaderView;

    open spec fn view(&self) -> HeaderView {
        HeaderView {
            identifier: self.identifier@,
            datestamp: self.datestamp@,
            status: match self.status {
                Some(s) => Some(s@),
                None => None,
            },
        }
    }
}

/// The metadata of a harvested record: one catalogue record.
#[derive(Debug)]
pub struct OaiPmhRecordMetadata {
    pub record: MarcRecord,
}

/// A record as the remote catalogue hands it out.
#[derive(Debug)]
pub struct OaiPmhRecord {
    pub header: OaiPmhRecordHeader,
    pub metadata: OaiPmhRecordMetadata,
}

/// What a harvested record holds.
pub struct OaiPmhRecordView {
    pub header: HeaderView,
    pub record: MarcRecordView,
}

impl View for OaiPmhRecord {
    type V = OaiPmhRecordView;

    open spec fn view(&self) -> OaiPmhRecordView {
        OaiPmhRecordView { header: self.header@, record: self.metadata.record@ }
    }
}

impl OaiPmhRecord {
    /// The identifier that the remote catalogue gave the record.
    pub fn identifier(&self) -> (r: &str)
        ensures
            r@ == self@.header.identifier,
    {
        self.header.identifier.as_str()
    }

    /// The time at which the remote catalogue last changed the record, as it
    /// wrote it.
    pub fn datestamp(&self) -> (r: &str)
        ensures
            r@ == self@.header.datestamp,
    {
        self.header.datestamp.as_str()
    }
}

/// The datafields that a list of references leads to.
pub open spec fn datafield_views(fields: Seq<&MarcDataField>) -> Seq<DatafieldView> {
    fields.map_values(|f: &MarcDataField| f@)
}

/// The datafields with the given tag, in document order.
pub open spec fn fields_with_tag(fields: Seq<DatafieldView>, tag: Seq<char>) -> Seq<
    DatafieldView,
> {
    fields.filter(|f: DatafieldView| f.tag == tag)
}

/// The subfields with the given code, in document order.
pub open spec fn with_code(subfields: Seq<SubfieldView>, code: Seq<char>) -> Seq<SubfieldView> {
    subfields.filter(|s: SubfieldView| s.code == code)
}

/// The text of the last subfield with the given code.
pub open spec fn last_of(subfields: Seq<SubfieldView>, code: Seq<char>) -> Option<Seq<char>> {
    if with_code(subfields, code).len() > 0 {
        Some(with_code(subfields, code).last().text)
    } else {
        None
    }
}

/// A subfield added at the end is the last with its code.
pub proof fn lemma_last_of_push(subfields: Seq<SubfieldView>, s: SubfieldView, code: Seq<char>)
    ensures
        last_of(subfields.push(s), code) == if s.code == code {
            Some(s.text)
        } else {
            last_of(subfields, code)
        },
{
    subfields.lemma_filter_push(s, |s: SubfieldView| s.code == code);
}

/// The texts of the subfields whose code is one of `codes`, in document
/// order.
pub open spec fn subfield_texts(subfields: Seq<SubfieldView>, codes: Seq<Seq<char>>) -> Seq<
    Seq<char>,
> {
    subfields.filter(|s: SubfieldView| codes.contains(s.code)).map_values(|s: SubfieldView| s.text)
}

/// The texts that `codes` select in each of the datafields, one datafield
/// after the other.
pub open spec fn texts_of_fields(fields: Seq<DatafieldView>, codes: Seq<Seq<char>>) -> Seq<
    Seq<char>,
> {
    fields.map_values(|f: DatafieldView| subfield_texts(f.subfields, codes)).flatten()
}

/// The texts that a tag and a list of codes select in a record: those of the
/// subfields with one of the codes, in the datafields with the tag, in
/// document order.
pub open spec fn selected(fields: Seq<DatafieldView>, tag: Seq<char>, codes: Seq<Seq<char>>) -> Seq<
    Seq<char>,
> {
    texts_of_fields(fields_with_tag(fields, tag), codes)
}

/// Adding a datafield at the end adds it to those with its tag.
pub proof fn lemma_fields_with_tag_push(fields: Seq<DatafieldView>, f: DatafieldView, tag: Seq<char>)
    ensures
        fields_with_tag(fields.push(f), tag) == if f.tag == tag {
            fields_with_tag(fields, tag).push(f)
        } else {
            fields_with_tag(fields, tag)
        },
{
    fields.lemma_filter_push(f, |f: DatafieldView| f.tag == tag);
}

/// Adding a subfield at the end adds its text where its code is listed.
pub proof fn lemma_subfield_texts_push(
    subfields: Seq<SubfieldView>,
    s: SubfieldView,
    codes: Seq<Seq<char>>,
)
    ensures
        subfield_texts(subfields.push(s), codes) == if codes.contains(s.code) {
            subfield_texts(subfields, codes).push(s.text)
        } else {
            subfield_texts(subfields, codes)
        },
{
    let p = |s: SubfieldView| codes.contains(s.code);
    let t = |s: SubfieldView| s.text;
    subfields.lemma_filter_push(s, p);
    if codes.contains(s.code) {
        assert(subfields.filter(p).push(s).map_values(t) =~= subfields.filter(p).map_values(
            t,
        ).push(s.text));
    }
}

/// Adding a datafield at the end adds the texts selected in it.
pub proof fn lemma_texts_of_fields_push(
    fields: Seq<DatafieldView>,
    f: DatafieldView,
    codes: Seq<Seq<char>>,
)
    ensures
        texts_of_fields(fields.push(f), codes) == texts_of_fields(fields, codes) + subfield_texts(
            f.subfields,
            codes,
        ),
{
    let t = |f: DatafieldView| subfield_texts(f.subfields, codes);
    assert(fields.push(f).map_values(t) =~= fields.map_values(t).push(t(f)));
    fields.map_values(t).lemma_flatten_push(t(f));
}

} // verus!
