use harvesting::marc::{
    MarcDataField, MarcRecord, MarcSubField, OaiPmhRecord, OaiPmhRecordHeader,
    OaiPmhRecordMetadata,
};
use harvesting::record::HarvestedRecord;
use harvesting::site::{HarvestParams, SiteType};
use harvesting::store::{
    agent_rows, datasource_row, edition_year_fields, entry_row, next_stage, IngestState,
    StageOutcome, Timestamp,
};

fn field(tag: &str, subfields: &[(&str, &str)]) -> MarcDataField {
    MarcDataField {
        tag: String::from(tag),
        ind1: String::from(" "),
        ind2: String::from(" "),
        subfields: subfields
            .iter()
            .map(|(code, text)| MarcSubField { code: String::from(*code), text: String::from(*text) })
            .collect(),
    }
}

fn params(site_type: SiteType) -> HarvestParams {
    HarvestParams {
        base_url: String::from("https://example.org/oai"),
        from: None,
        library_id: 7,
        site_id: 3,
        site_type,
    }
}

fn record(site_type: SiteType, datestamp: &str, datafields: Vec<MarcDataField>) -> HarvestedRecord {
    let raw = OaiPmhRecord {
        header: OaiPmhRecordHeader {
            identifier: String::from("oai:example.org:1"),
            datestamp: String::from(datestamp),
            status: None,
        },
        metadata: OaiPmhRecordMetadata {
            record: MarcRecord { namespace: String::new(), datafields },
        },
    };
    HarvestedRecord::new(raw, &params(site_type)).unwrap()
}

fn hello() -> HarvestedRecord {
    record(
        SiteType::Amusewiki,
        "2024-01-02T03:04:05Z",
        vec![
            field("245", &[("a", "Hello")]),
            field("100", &[("a", "A")]),
            field("041", &[("a", "eng")]),
            field("856", &[("u", "https://example.org/library/hello"), ("q", "text/html"), ("y", "Read")]),
            field("264", &[("c", "2001-2003, rev. 2010")]),
        ],
    )
}

const NOW: Timestamp = Timestamp { secs: 1_800_000_000, nanos: 5 };

#[test]
fn entry_of_a_simple_record() {
    let row = entry_row(&hello());
    assert_eq!(row.title, "Hello");
    assert_eq!(row.subtitle, "");
    assert_eq!(row.checksum, "0ed429d30418c354a1581f9f40613820f7fe7ee77eb4408cfe3aaa85301b2f4b");
    assert_eq!(row.search_text, "Hello ");
    assert!(row.search_text.contains("Hello"));
}

#[test]
fn entry_search_text_has_no_diacritics() {
    let rec = record(
        SiteType::KohaMarc21,
        "",
        vec![field("245", &[("a", "Café naïve")]), field("246", &[("a", "Città")])],
    );
    let row = entry_row(&rec);
    assert_eq!(row.title, "Café naïve");
    assert_eq!(row.subtitle, "Città");
    assert_eq!(row.search_text, "Cafe naive Citta");
}

#[test]
fn agents_of_a_record() {
    let rows = agent_rows(&hello());
    assert_eq!(rows.len(), 1);
    assert_eq!(rows[0].full_name, "A");
    assert_eq!(rows[0].search_text, "A");
    let rec = record(
        SiteType::KohaMarc21,
        "",
        vec![field("100", &[("a", "Émile Zola")]), field("100", &[("a", "Brontë")])],
    );
    let rows = agent_rows(&rec);
    assert_eq!(rows.len(), 2);
    assert_eq!(rows[0].full_name, "Émile Zola");
    assert_eq!(rows[0].search_text, "Emile Zola");
    assert_eq!(rows[1].full_name, "Brontë");
    assert_eq!(rows[1].search_text, "Bronte");
}

#[test]
fn languages_of_a_simple_record() {
    assert_eq!(hello().languages(), vec!["en"]);
}

#[test]
fn edition_years_become_two_fields() {
    assert_eq!(edition_year_fields(&vec![]), (None, None));
    assert_eq!(edition_year_fields(&vec![2001]), (Some(2001), None));
    assert_eq!(edition_year_fields(&vec![1999, 2001]), (Some(2001), Some(1999)));
    assert_eq!(edition_year_fields(&vec![1999, 2001, 2010]), (Some(2010), Some(1999)));
}

#[test]
fn datasource_of_a_simple_record() {
    let rec = hello();
    let url = rec.full_text_url().unwrap();
    assert_eq!(url, "https://example.org/library/hello.bare.html");
    let row = datasource_row(&params(SiteType::Amusewiki), &rec, 42, Some("<p>Città è già</p>"), NOW);
    assert_eq!(row.site_id, 3);
    assert_eq!(row.oai_pmh_identifier, "oai:example.org:1");
    assert_eq!(row.entry_id, 42);
    assert_eq!(row.datestamp, Timestamp { secs: 1704164645, nanos: 0 });
    assert_eq!(row.description, "");
    assert_eq!(row.year_edition, Some(2010));
    assert_eq!(row.year_first_edition, Some(2001));
    assert_eq!(row.publisher, "");
    assert_eq!(row.isbn, "");
    assert_eq!(row.uri.as_deref(), Some("https://example.org/library/hello"));
    assert_eq!(row.uri_label.as_deref(), Some("Read"));
    assert_eq!(row.content_type.as_deref(), Some("text/html"));
    assert_eq!(row.search_text, "<p>Citta e gia</p>");
}

#[test]
fn datasource_without_full_text_and_address() {
    let rec = record(
        SiteType::KohaUnimarc,
        "2024-01-02 03:04:05.25+02:00",
        vec![
            field("200", &[("a", "Titre")]),
            field("210", &[("d", "1987"), ("c", "Editeur"), ("a", "Paris")]),
            field("330", &[("a", "Résumé")]),
            field("215", &[("a", "99 p.")]),
            field("676", &[("a", "840")]),
            field("255", &[("a", "Echelle")]),
            field("010", &[("a", "2-07")]),
        ],
    );
    let row = datasource_row(&params(SiteType::KohaUnimarc), &rec, 1, None, NOW);
    assert_eq!(row.datestamp, Timestamp { secs: 1704157445, nanos: 250_000_000 });
    assert_eq!(row.description, "Résumé");
    assert_eq!(row.year_edition, Some(1987));
    assert_eq!(row.year_first_edition, None);
    assert_eq!(row.publisher, "Editeur");
    assert_eq!(row.isbn, "2-07");
    assert_eq!(row.uri, None);
    assert_eq!(row.uri_label, None);
    assert_eq!(row.content_type, None);
    assert_eq!(row.material_description, "99 p.");
    assert_eq!(row.shelf_location_code, "840");
    assert_eq!(row.edition_statement, "Echelle");
    assert_eq!(row.place_date_of_publication_distribution, "1987 Paris");
    assert_eq!(row.search_text, "");
}

#[test]
fn unreadable_datestamp_gives_the_current_time() {
    for datestamp in ["", "yesterday", "2024-01-02", "2024-13-02T03:04:05Z"] {
        let rec = record(SiteType::KohaMarc21, datestamp, vec![]);
        let row = datasource_row(&params(SiteType::KohaMarc21), &rec, 1, None, NOW);
        assert_eq!(row.datestamp, NOW, "datestamp {:?}", datestamp);
        assert_eq!(row.year_edition, None);
        assert_eq!(row.year_first_edition, None);
    }
}

#[test]
fn ingest_goes_through_its_stages() {
    let mut state = IngestState::UpsertEntry;
    state = next_stage(state, StageOutcome::Succeeded(Some(5)));
    assert_eq!(state, IngestState::InsertAgents(5));
    state = next_stage(state, StageOutcome::Succeeded(None));
    assert_eq!(state, IngestState::InsertLanguages(5));
    state = next_stage(state, StageOutcome::Succeeded(None));
    assert_eq!(state, IngestState::UpsertDatasource(5));
    state = next_stage(state, StageOutcome::Succeeded(Some(9)));
    assert_eq!(state, IngestState::Stored(5));
    assert_eq!(next_stage(state, StageOutcome::Failed), IngestState::Stored(5));
}

#[test]
fn later_failures_keep_the_entry() {
    let outcomes = [StageOutcome::Failed, StageOutcome::Succeeded(None), StageOutcome::Succeeded(Some(1))];
    for agents in outcomes {
        for languages in outcomes {
            for datasource in outcomes {
                let mut state = next_stage(IngestState::UpsertEntry, StageOutcome::Succeeded(Some(77)));
                state = next_stage(state, agents);
                state = next_stage(state, languages);
                state = next_stage(state, datasource);
                assert_eq!(state, IngestState::Stored(77));
            }
        }
    }
}

#[test]
fn entry_without_identifier_is_rejected() {
    assert_eq!(next_stage(IngestState::UpsertEntry, StageOutcome::Failed), IngestState::Rejected);
    assert_eq!(
        next_stage(IngestState::UpsertEntry, StageOutcome::Succeeded(None)),
        IngestState::Rejected
    );
    assert_eq!(
        next_stage(IngestState::Rejected, StageOutcome::Succeeded(Some(1))),
        IngestState::Rejected
    );
}

#[test]
fn same_record_gives_the_same_rows() {
    let first = entry_row(&hello());
    let second = entry_row(&hello());
    assert_eq!(first.checksum, second.checksum);
    assert_eq!(first.search_text, second.search_text);
    let p = params(SiteType::Amusewiki);
    let one = datasource_row(&p, &hello(), 1, Some("body"), NOW);
    let two = datasource_row(&p, &hello(), 1, Some("body"), NOW);
    assert_eq!((one.site_id, one.oai_pmh_identifier), (two.site_id, two.oai_pmh_identifier));
}
