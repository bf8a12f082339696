use harvesting::marc::{
    MarcDataField, MarcRecord, MarcSubField, OaiPmhRecord, OaiPmhRecordHeader,
    OaiPmhRecordMetadata,
};
use harvesting::record::HarvestedRecord;
use harvesting::site::{HarvestParams, SiteType};

fn field(tag: &str, subfields: &[(&str, &str)]) -> MarcDataField {
    MarcDataField {
        tag: String::from(tag),
        ind1: String::from(" "),
        ind2: String::from(" "),
        subfields: subfields
            .iter()
            .map(|(code, text)| MarcSubField { code: String::from(*code), text: String::from(*text) })
            .collect(),
    }
}

fn record(datafields: Vec<MarcDataField>) -> HarvestedRecord {
    let raw = OaiPmhRecord {
        header: OaiPmhRecordHeader {
            identifier: String::from("oai:1"),
            datestamp: String::new(),
            status: None,
        },
        metadata: OaiPmhRecordMetadata {
            record: MarcRecord { namespace: String::new(), datafields },
        },
    };
    let params = HarvestParams {
        base_url: String::from("https://example.org/oai"),
        from: None,
        library_id: 1,
        site_id: 1,
        site_type: SiteType::Amusewiki,
    };
    HarvestedRecord::new(raw, &params).unwrap()
}

fn hello() -> Vec<MarcDataField> {
    vec![
        field("245", &[("a", "Hello")]),
        field("100", &[("a", "A")]),
        field("041", &[("a", "eng")]),
    ]
}

#[test]
fn checksum_is_the_digest_of_the_parts_in_order() {
    // The input is "A" + "en" + "" + "Hello".
    assert_eq!(
        record(hello()).checksum(),
        "0ed429d30418c354a1581f9f40613820f7fe7ee77eb4408cfe3aaa85301b2f4b"
    );
    let mut fields = hello();
    fields.push(field("773", &[("t", "Journal"), ("g", "n.1")]));
    // The input is "Journal n.1" + "A" + "en" + "" + "Hello".
    assert_eq!(
        record(fields).checksum(),
        "2cd7b14704fc7182c3bb98c28f9d45e2fd6b4d773e8fee4d1a12aeeea122d78d"
    );
    // The digest of nothing.
    assert_eq!(
        record(vec![]).checksum(),
        "e3b0c44298fc1c149afbf4c8996fb92427ae41e4649b934ca495991b7852b855"
    );
}

#[test]
fn checksum_is_stable() {
    assert_eq!(record(hello()).checksum(), record(hello()).checksum());
    let rec = record(hello());
    assert_eq!(rec.checksum(), rec.checksum());
}

#[test]
fn checksum_ignores_what_it_does_not_cover() {
    let mut fields = hello();
    fields.push(field("520", &[("a", "A description")]));
    fields.push(field("020", &[("a", "978-1")]));
    fields.push(field("260", &[("b", "Publisher"), ("c", "2001")]));
    fields.push(field("856", &[("u", "https://example.org/x")]));
    fields.push(field("773", &[("g", "an aggregation without a name")]));
    assert_eq!(record(fields).checksum(), record(hello()).checksum());
}

#[test]
fn checksum_changes_with_each_covered_part() {
    let base = record(hello()).checksum();
    let title = vec![
        field("245", &[("a", "Hello!")]),
        field("100", &[("a", "A")]),
        field("041", &[("a", "eng")]),
    ];
    assert_eq!(
        record(title).checksum(),
        "a8a4ea9b75f032ad7ed8a472d907b20f62c01b4b027ce588af87c749f624cedc"
    );
    let subtitle = vec![
        field("245", &[("a", "Hello")]),
        field("246", &[("a", "again")]),
        field("100", &[("a", "A")]),
        field("041", &[("a", "eng")]),
    ];
    assert_ne!(record(subtitle).checksum(), base);
    let author = vec![
        field("245", &[("a", "Hello")]),
        field("100", &[("a", "B")]),
        field("041", &[("a", "eng")]),
    ];
    assert_ne!(record(author).checksum(), base);
    let language = vec![
        field("245", &[("a", "Hello")]),
        field("100", &[("a", "A")]),
        field("041", &[("a", "ita")]),
    ];
    assert_ne!(record(language).checksum(), base);
    let mut aggregation = hello();
    aggregation.push(field("773", &[("t", "Journal")]));
    assert_ne!(record(aggregation).checksum(), base);
}

#[test]
fn checksum_sees_the_normalized_language() {
    let fre = vec![field("245", &[("a", "T")]), field("041", &[("a", "fre")])];
    let fra = vec![field("245", &[("a", "T")]), field("041", &[("a", "FRA")])];
    assert_eq!(record(fre).checksum(), record(fra).checksum());
}

#[test]
fn moving_text_between_parts_keeps_the_digested_bytes() {
    // Nothing separates the parts, so an author "ab" with the title "c" is
    // digested as an author "a" with the title "bc" is.
    let one = vec![field("100", &[("a", "ab")]), field("245", &[("a", "c")])];
    let two = vec![field("100", &[("a", "a")]), field("245", &[("a", "bc")])];
    assert_eq!(record(one).checksum(), record(two).checksum());
}

#[test]
fn splitting_an_author_keeps_the_digested_bytes() {
    let one = vec![field("100", &[("a", "a")]), field("100", &[("a", "b")]), field("245", &[("a", "t")])];
    let two = vec![field("100", &[("a", "ab")]), field("245", &[("a", "t")])];
    assert_eq!(record(one).checksum(), record(two).checksum());
}
