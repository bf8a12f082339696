use harvesting::marc::{
    MarcDataField, MarcRecord, MarcSubField, OaiPmhRecord, OaiPmhRecordHeader,
    OaiPmhRecordMetadata,
};
use harvesting::record::HarvestedRecord;
use harvesting::site::{HarvestParams, SiteType};
use harvesting::uri::FullTextError;

fn field(tag: &str, subfields: &[(&str, &str)]) -> MarcDataField {
    MarcDataField {
        tag: String::from(tag),
        ind1: String::from(" "),
        ind2: String::from(" "),
        subfields: subfields
            .iter()
            .map(|(code, text)| MarcSubField { code: String::from(*code), text: String::from(*text) })
            .collect(),
    }
}

fn record(site_type: SiteType, datafields: Vec<MarcDataField>) -> HarvestedRecord {
    let raw = OaiPmhRecord {
        header: OaiPmhRecordHeader {
            identifier: String::from("oai:1"),
            datestamp: String::new(),
            status: None,
        },
        metadata: OaiPmhRecordMetadata {
            record: MarcRecord { namespace: String::new(), datafields },
        },
    };
    let params = HarvestParams {
        base_url: String::from("https://example.org/oai"),
        from: None,
        library_id: 1,
        site_id: 1,
        site_type,
    };
    HarvestedRecord::new(raw, &params).unwrap()
}

fn own() -> MarcDataField {
    field("856", &[("u", "https://example.org/library/text"), ("q", "text/html"), ("y", "Read")])
}

fn foreign() -> MarcDataField {
    field("856", &[("u", "http://other.net/text"), ("q", "application/pdf"), ("y", "Elsewhere")])
}

#[test]
fn own_host_is_preferred_when_first() {
    let uri = record(SiteType::Amusewiki, vec![own(), foreign()]).uri().unwrap();
    assert_eq!(uri.uri, "https://example.org/library/text");
    assert_eq!(uri.content_type, "text/html");
    assert_eq!(uri.uri_label, "Read");
}

#[test]
fn own_host_is_preferred_when_last() {
    let uri = record(SiteType::Amusewiki, vec![foreign(), own()]).uri().unwrap();
    assert_eq!(uri.uri, "https://example.org/library/text");
    assert_eq!(uri.content_type, "text/html");
    assert_eq!(uri.uri_label, "Read");
}

#[test]
fn first_own_host_address_is_taken() {
    let second = field("856", &[("u", "https://example.org/second")]);
    let uri = record(SiteType::KohaMarc21, vec![foreign(), own(), second]).uri().unwrap();
    assert_eq!(uri.uri, "https://example.org/library/text");
}

#[test]
fn last_foreign_address_is_taken_without_own_host() {
    let later = field("856", &[("u", "https://third.net/x")]);
    let uri = record(SiteType::KohaMarc21, vec![foreign(), later]).uri().unwrap();
    assert_eq!(uri.uri, "https://third.net/x");
    assert_eq!(uri.content_type, "");
    assert_eq!(uri.uri_label, "");
}

#[test]
fn only_web_addresses_count() {
    let ftp = field("856", &[("u", "ftp://example.org/file"), ("q", "text/plain")]);
    assert!(record(SiteType::KohaMarc21, vec![ftp]).uri().is_none());
    let mixed = field(
        "856",
        &[("u", "https://example.org/a"), ("u", "mailto:someone"), ("q", "one"), ("q", "two")],
    );
    let uri = record(SiteType::KohaMarc21, vec![mixed]).uri().unwrap();
    assert_eq!(uri.uri, "https://example.org/a");
    assert_eq!(uri.content_type, "two");
    // The pattern matches anywhere in the text.
    let inside = field("856", &[("u", "see http://other.net/x")]);
    assert_eq!(record(SiteType::KohaMarc21, vec![inside]).uri().unwrap().uri, "see http://other.net/x");
}

#[test]
fn falls_back_to_952() {
    let rec = record(
        SiteType::KohaMarc21,
        vec![
            field("856", &[("u", "not-a-web-address")]),
            field("952", &[("o", "shelf"), ("u", "koha-item-1")]),
            field("952", &[("u", "koha-item-2")]),
        ],
    );
    let uri = rec.uri().unwrap();
    assert_eq!(uri.uri, "koha-item-1");
    assert_eq!(uri.content_type, "");
    assert_eq!(uri.uri_label, "");
}

#[test]
fn no_address_without_856_and_952() {
    assert!(record(SiteType::KohaMarc21, vec![field("245", &[("a", "t")])]).uri().is_none());
}

#[test]
fn unimarc_has_no_address() {
    assert!(record(SiteType::KohaUnimarc, vec![own(), field("952", &[("u", "x")])]).uri().is_none());
}

#[test]
fn full_text_is_served_by_amusewiki_only() {
    let rec = record(SiteType::Amusewiki, vec![own()]);
    assert_eq!(rec.full_text_url(), Ok(String::from("https://example.org/library/text.bare.html")));
    let rec = record(SiteType::Amusewiki, vec![]);
    assert_eq!(rec.full_text_url(), Err(FullTextError::NoUri));
    let rec = record(SiteType::KohaMarc21, vec![own()]);
    assert_eq!(rec.full_text_url(), Err(FullTextError::NotSupported));
    let rec = record(SiteType::KohaUnimarc, vec![own()]);
    assert_eq!(rec.full_text_url(), Err(FullTextError::NotSupported));
    assert_eq!(FullTextError::NoUri.message(), "No uri found");
    assert_eq!(FullTextError::NotSupported.message(), "Not a site type with full text");
}
