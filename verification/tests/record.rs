use harvesting::marc::{
    MarcDataField, MarcRecord, MarcSubField, OaiPmhRecord, OaiPmhRecordHeader,
    OaiPmhRecordMetadata,
};
use harvesting::record::HarvestedRecord;
use harvesting::site::{HarvestParams, MetadataType, SiteType};

fn field(tag: &str, subfields: &[(&str, &str)]) -> MarcDataField {
    MarcDataField {
        tag: String::from(tag),
        ind1: String::from(" "),
        ind2: String::from(" "),
        subfields: subfields
            .iter()
            .map(|(code, text)| MarcSubField { code: String::from(*code), text: String::from(*text) })
            .collect(),
    }
}

fn raw(datafields: Vec<MarcDataField>) -> OaiPmhRecord {
    OaiPmhRecord {
        header: OaiPmhRecordHeader {
            identifier: String::from("oai:example.org:1"),
            datestamp: String::from("2024-01-02T03:04:05Z"),
            status: None,
        },
        metadata: OaiPmhRecordMetadata {
            record: MarcRecord {
                namespace: String::from("http://www.loc.gov/MARC21/slim"),
                datafields,
            },
        },
    }
}

fn params(site_type: SiteType) -> HarvestParams {
    HarvestParams {
        base_url: String::from("https://example.org/oai"),
        from: None,
        library_id: 7,
        site_id: 3,
        site_type,
    }
}

fn record(site_type: SiteType, datafields: Vec<MarcDataField>) -> HarvestedRecord {
    HarvestedRecord::new(raw(datafields), &params(site_type)).unwrap()
}

#[test]
fn new_takes_dialect_and_host_from_the_site() {
    let rec = record(SiteType::Amusewiki, vec![]);
    assert_eq!(rec.record_type, MetadataType::Marc21);
    assert_eq!(rec.host, "example.org");
    assert_eq!(rec.site_type, SiteType::Amusewiki);
    let rec = record(SiteType::KohaMarc21, vec![]);
    assert_eq!(rec.record_type, MetadataType::Marc21);
    let rec = record(SiteType::KohaUnimarc, vec![]);
    assert_eq!(rec.record_type, MetadataType::UniMarc);
    assert_eq!(rec.oai_pmh_identifier(), "oai:example.org:1");
    assert_eq!(rec.datestamp(), "2024-01-02T03:04:05Z");
    assert_eq!(rec.raw.identifier(), "oai:example.org:1");
    assert_eq!(rec.raw.datestamp(), "2024-01-02T03:04:05Z");
}

#[test]
fn new_needs_an_address() {
    let mut p = params(SiteType::Amusewiki);
    p.base_url = String::from("not an address");
    assert!(HarvestedRecord::new(raw(vec![]), &p).is_none());
}

#[test]
fn address_without_host_gives_empty_host() {
    let mut p = params(SiteType::Amusewiki);
    p.base_url = String::from("data:text/plain,Stuff");
    let rec = HarvestedRecord::new(raw(vec![]), &p).unwrap();
    assert_eq!(rec.host, "");
}

#[test]
fn get_fields_keeps_document_order() {
    let rec = record(
        SiteType::KohaMarc21,
        vec![
            field("100", &[("a", "first")]),
            field("245", &[("a", "title")]),
            field("100", &[("a", "second")]),
        ],
    );
    let fields = rec.get_fields("100");
    assert_eq!(fields.len(), 2);
    assert_eq!(fields[0].subfields[0].text, "first");
    assert_eq!(fields[1].subfields[0].text, "second");
    assert!(rec.get_fields("999").is_empty());
}

#[test]
fn extract_fields_selects_by_tag_and_code() {
    let rec = record(
        SiteType::KohaMarc21,
        vec![
            field("245", &[("a", "A1"), ("x", "skip"), ("c", "C1"), ("b", "B1")]),
            field("246", &[("a", "other")]),
            field("245", &[("b", "B2"), ("a", "A2")]),
        ],
    );
    assert_eq!(rec.extract_fields("245", vec!["a", "b", "c"]), vec!["A1", "C1", "B1", "B2", "A2"]);
    assert_eq!(rec.extract_fields("245", vec!["b"]), vec!["B1", "B2"]);
    assert!(rec.extract_fields("245", vec![]).is_empty());
    assert!(rec.extract_fields("245", vec!["z"]).is_empty());
}

fn marc21_sample() -> HarvestedRecord {
    record(
        SiteType::KohaMarc21,
        vec![
            field("024", &[("a", "id-1")]),
            field("245", &[("a", "Title"), ("b", "rest"), ("c", "by someone")]),
            field("246", &[("a", "Sub"), ("b", "title")]),
            field("100", &[("a", "Author One")]),
            field("100", &[("a", "Author Two")]),
            field("041", &[("a", "eng")]),
            field("546", &[("a", "francese")]),
            field("520", &[("a", "About")]),
            field("500", &[("a", "not a description")]),
            field("264", &[("c", "2001"), ("b", "Second Press"), ("a", "Rome")]),
            field("363", &[("i", "1999")]),
            field("362", &[("a", "2010")]),
            field("260", &[("b", "First Press"), ("a", "Milan"), ("c", "1998")]),
            field("020", &[("a", "978-1")]),
            field("300", &[("a", "10 p."), ("b", "ill."), ("c", "20 cm"), ("e", "1 map")]),
            field("952", &[("o", "SHELF 1")]),
            field("852", &[("c", "ROOM 2")]),
            field("250", &[("a", "2nd ed.")]),
        ],
    )
}

#[test]
fn marc21_attributes() {
    let rec = marc21_sample();
    assert_eq!(rec.identifier(), "id-1");
    assert_eq!(rec.title(), "Title rest by someone");
    assert_eq!(rec.subtitle(), "Sub title");
    assert_eq!(rec.authors(), vec!["Author One", "Author Two"]);
    assert_eq!(rec.languages(), vec!["en", "fr"]);
    assert_eq!(rec.description(), "About");
    assert_eq!(rec.dates(), vec!["2001", "1999", "2010"]);
    assert_eq!(rec.publisher(), "First Press Second Press");
    assert_eq!(rec.isbn(), "978-1");
    assert_eq!(rec.material_description(), "10 p. ill. 20 cm 1 map");
    assert_eq!(rec.shelf_location_code(), "SHELF 1 ROOM 2");
    assert_eq!(rec.edition_statement(), "2nd ed.");
    assert_eq!(rec.place_date_of_publication_distribution(), "Milan 1998 2001 Rome");
}

fn unimarc_sample() -> HarvestedRecord {
    record(
        SiteType::KohaUnimarc,
        vec![
            field("090", &[("a", "id-9")]),
            field("200", &[("a", "Titre"), ("f", "Auteur"), ("e", "suite")]),
            field("246", &[("a", "ignored")]),
            field("101", &[("a", "francese")]),
            field("300", &[("a", "Note")]),
            field("330", &[("a", "Summary")]),
            field("210", &[("a", "Paris"), ("c", "Editeur"), ("d", "1987")]),
            field("010", &[("a", "2-07")]),
            field("215", &[("a", "99 p."), ("c", "ill."), ("d", "18 cm"), ("e", "1 disque")]),
            field("950", &[("a", "MAG")]),
            field("676", &[("a", "840")]),
            field("255", &[("a", "Echelle"), ("v", "v.1")]),
        ],
    )
}

#[test]
fn unimarc_attributes() {
    let rec = unimarc_sample();
    assert_eq!(rec.identifier(), "id-9");
    assert_eq!(rec.title(), "Titre suite");
    assert_eq!(rec.subtitle(), "");
    assert_eq!(rec.authors(), vec!["Auteur"]);
    assert_eq!(rec.languages(), vec!["fr"]);
    assert_eq!(rec.description(), "Note Summary");
    assert_eq!(rec.dates(), vec!["1987"]);
    assert_eq!(rec.publisher(), "Editeur");
    assert_eq!(rec.isbn(), "2-07");
    assert_eq!(rec.material_description(), "99 p. ill. 18 cm 1 disque");
    assert_eq!(rec.shelf_location_code(), "MAG 840");
    assert_eq!(rec.edition_statement(), "Echelle v.1");
    assert_eq!(rec.place_date_of_publication_distribution(), "Paris 1987");
    assert!(rec.aggregations().is_empty());
    assert!(rec.uri().is_none());
}

#[test]
fn empty_record_has_empty_attributes() {
    for site_type in [SiteType::Amusewiki, SiteType::KohaMarc21, SiteType::KohaUnimarc] {
        let rec = record(site_type, vec![]);
        assert_eq!(rec.identifier(), "");
        assert_eq!(rec.title(), "");
        assert_eq!(rec.subtitle(), "");
        assert!(rec.authors().is_empty());
        assert!(rec.languages().is_empty());
        assert_eq!(rec.description(), "");
        assert_eq!(rec.publisher(), "");
        assert_eq!(rec.isbn(), "");
        assert!(rec.edition_years().is_empty());
        assert!(rec.aggregations().is_empty());
        assert!(rec.uri().is_none());
    }
}

#[test]
fn unimarc_record_is_stored_as_french() {
    let rec = record(
        SiteType::KohaUnimarc,
        vec![field("200", &[("a", "Titre"), ("f", "Auteur")]), field("101", &[("a", "francese")])],
    );
    assert_eq!(rec.title(), "Titre");
    assert_eq!(rec.authors(), vec!["Auteur"]);
    assert_eq!(rec.languages(), vec!["fr"]);
    assert_eq!(
        rec.checksum(),
        "7917aef482957d1fe01e1e353d22b550e88d3c7cb2ad70d7eca5310e6ab9e5fe"
    );
}

#[test]
fn aggregations_are_read_from_773() {
    let rec = record(
        SiteType::KohaMarc21,
        vec![
            field(
                "773",
                &[
                    ("t", "Journal"),
                    ("g", "n.1"),
                    ("z", "isbn-1"),
                    ("q", "12"),
                    ("d", "Rome 2001"),
                    ("o", "item-1"),
                    ("6", "link"),
                    ("x", "ignored"),
                ],
            ),
            field("773", &[("g", "nameless")]),
            field("773", &[("t", "old"), ("q", "7"), ("t", "Series"), ("q", "seven")]),
        ],
    );
    let aggs = rec.aggregations();
    assert_eq!(aggs.len(), 2);
    assert_eq!(aggs[0].name.as_deref(), Some("Journal"));
    assert_eq!(aggs[0].issue.as_deref(), Some("n.1"));
    assert_eq!(aggs[0].isbn.as_deref(), Some("isbn-1"));
    assert_eq!(aggs[0].order, Some(12));
    assert_eq!(aggs[0].place_date_publisher.as_deref(), Some("Rome 2001"));
    assert_eq!(aggs[0].item_identifier.as_deref(), Some("item-1"));
    assert_eq!(aggs[0].linkage.as_deref(), Some("link"));
    assert_eq!(aggs[0].host, "example.org");
    assert_eq!(aggs[0].identifier(), "aggregation:example.org:item-1");
    assert_eq!(aggs[0].full_aggregation_name(), "Journal n.1 Rome 2001");
    // The last name wins, and an order that is no number is dropped.
    assert_eq!(aggs[1].name.as_deref(), Some("Series"));
    assert_eq!(aggs[1].order, Some(7));
    assert_eq!(aggs[1].issue, None);
    assert_eq!(aggs[1].identifier(), "aggregation:example.org:Series");
}

#[test]
fn aggregation_order_parses_like_an_integer() {
    for (text, expected) in [
        ("12", Some(12)),
        ("+12", Some(12)),
        ("-12", Some(-12)),
        ("0012", Some(12)),
        ("2147483647", Some(2147483647)),
        ("-2147483648", Some(-2147483648)),
        ("2147483648", None),
        ("", None),
        ("-", None),
        ("+", None),
        (" 12", None),
        ("12a", None),
        ("1_2", None),
        ("١٢", None),
    ] {
        let rec = record(SiteType::KohaMarc21, vec![field("773", &[("t", "J"), ("q", text)])]);
        assert_eq!(rec.aggregations()[0].order, expected, "order {:?}", text);
    }
}
