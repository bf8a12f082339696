use harvesting::harvest::{
    parse_response, step, FetchOutcome, HarvestState, ListRecords, OaiPmhResponse,
};
use harvesting::marc::{
    MarcDataField, MarcRecord, MarcSubField, OaiPmhRecord, OaiPmhRecordHeader,
    OaiPmhRecordMetadata,
};
use harvesting::record::HarvestedRecord;
use harvesting::request::HarvestUrlError;
use harvesting::site::{HarvestParams, SiteType};

fn raw(identifier: &str) -> OaiPmhRecord {
    OaiPmhRecord {
        header: OaiPmhRecordHeader {
            identifier: String::from(identifier),
            datestamp: String::from("2024-01-02T03:04:05Z"),
            status: None,
        },
        metadata: OaiPmhRecordMetadata {
            record: MarcRecord {
                namespace: String::new(),
                datafields: vec![MarcDataField {
                    tag: String::from("245"),
                    ind1: String::new(),
                    ind2: String::new(),
                    subfields: vec![MarcSubField {
                        code: String::from("a"),
                        text: String::from(identifier),
                    }],
                }],
            },
        },
    }
}

fn page(identifiers: &[&str], token: Option<&str>) -> FetchOutcome {
    FetchOutcome::Response(
        200,
        Ok(OaiPmhResponse {
            response_date: String::from("2024-01-02T03:04:05Z"),
            request: String::from("https://example.org/oai"),
            error: None,
            list_records: Some(ListRecords {
                resumption_token: token.map(String::from),
                records: identifiers.iter().map(|i| raw(i)).collect(),
            }),
        }),
    )
}

fn params() -> HarvestParams {
    HarvestParams {
        base_url: String::from("https://example.org/oai"),
        from: None,
        library_id: 1,
        site_id: 1,
        site_type: SiteType::KohaMarc21,
    }
}

/// Runs a harvest against a site that answers with the given outcomes, one
/// for each request, and returns the addresses asked, the identifiers of the
/// records handed on, and the last state.
fn run(params: &HarvestParams, outcomes: Vec<FetchOutcome>) -> (Vec<String>, Vec<String>, HarvestState) {
    let mut outcomes = outcomes.into_iter();
    let mut asked = Vec::new();
    let mut stored = Vec::new();
    let mut state = HarvestState::Initial;
    for _ in 0..1000 {
        let outcome = match &state {
            HarvestState::Requesting(url) => {
                asked.push(url.clone());
                Some(outcomes.next().expect("the site was asked more often than it can answer"))
            }
            HarvestState::Done | HarvestState::Failed(_) => return (asked, stored, state),
            _ => None,
        };
        let (next, records) = step(params, state, outcome);
        for record in &records {
            stored.push(String::from(record.oai_pmh_identifier()));
        }
        state = next;
    }
    panic!("the harvest did not end");
}

#[test]
fn harvest_follows_tokens_to_the_end() {
    let (asked, stored, state) = run(
        &params(),
        vec![page(&["a", "b"], Some("t1")), page(&["c"], Some("t2")), page(&["d", "e"], Some(""))],
    );
    assert!(matches!(state, HarvestState::Done));
    assert_eq!(stored, vec!["a", "b", "c", "d", "e"]);
    assert_eq!(
        asked,
        vec![
            "https://example.org/oai?verb=ListRecords&metadataPrefix=marc21",
            "https://example.org/oai?verb=ListRecords&metadataPrefix=marc21&resumptionToken=t1",
            "https://example.org/oai?verb=ListRecords&metadataPrefix=marc21&resumptionToken=t2",
        ]
    );
}

#[test]
fn harvest_ends_without_a_token() {
    let (asked, stored, state) = run(&params(), vec![page(&["a"], None)]);
    assert!(matches!(state, HarvestState::Done));
    assert_eq!(stored, vec!["a"]);
    assert_eq!(asked.len(), 1);
}

#[test]
fn single_character_token_ends_the_harvest() {
    for token in [" ", "x", "é"] {
        let (asked, stored, state) =
            run(&params(), vec![page(&["a", "b"], Some(token)), page(&["never"], None)]);
        assert!(matches!(state, HarvestState::Done));
        assert_eq!(stored, vec!["a", "b"]);
        assert_eq!(asked.len(), 1);
    }
}

#[test]
fn two_character_token_goes_on() {
    let (asked, stored, _) = run(&params(), vec![page(&["a"], Some("xy")), page(&["b"], None)]);
    assert_eq!(stored, vec!["a", "b"]);
    assert_eq!(asked.len(), 2);
}

#[test]
fn transport_error_ends_the_harvest_and_keeps_what_was_handed_on() {
    let (asked, stored, state) = run(
        &params(),
        vec![page(&["a"], Some("t1")), FetchOutcome::TransportError(String::from("timed out"))],
    );
    assert!(matches!(state, HarvestState::Done));
    assert_eq!(stored, vec!["a"]);
    assert_eq!(asked.len(), 2);
}

#[test]
fn other_status_than_200_ends_the_harvest() {
    for status in [199, 201, 404, 500] {
        let answer = match page(&["a"], None) {
            FetchOutcome::Response(_, decoded) => FetchOutcome::Response(status, decoded),
            other => other,
        };
        let (_, stored, state) = run(&params(), vec![answer]);
        assert!(matches!(state, HarvestState::Done));
        assert!(stored.is_empty());
    }
}

#[test]
fn answer_without_records_ends_the_harvest() {
    let answer = FetchOutcome::Response(
        200,
        Ok(OaiPmhResponse {
            response_date: String::new(),
            request: String::new(),
            error: None,
            list_records: None,
        }),
    );
    let (_, stored, state) = run(&params(), vec![answer]);
    assert!(matches!(state, HarvestState::Done));
    assert!(stored.is_empty());
}

#[test]
fn unreadable_body_becomes_an_answer_with_an_error() {
    let answer = parse_response(Err(String::from("unexpected end of file")));
    assert_eq!(answer.response_date, "NOW");
    assert_eq!(answer.request, "Invalid");
    let error = answer.error.expect("an error is reported");
    assert_eq!(error.code, "Invalid XML");
    assert_eq!(error.message, "unexpected end of file");
    assert!(answer.list_records.is_none());

    let outcome = FetchOutcome::Response(200, Err(String::from("unexpected end of file")));
    let (asked, stored, state) = run(&params(), vec![outcome]);
    assert!(matches!(state, HarvestState::Done));
    assert!(stored.is_empty());
    assert_eq!(asked.len(), 1);
}

#[test]
fn readable_body_is_handed_on_as_it_is() {
    let decoded = match page(&["a"], Some("t")) {
        FetchOutcome::Response(_, decoded) => decoded,
        _ => unreachable!(),
    };
    let answer = parse_response(decoded);
    assert!(answer.error.is_none());
    let list = answer.list_records.unwrap();
    assert_eq!(list.resumption_token.as_deref(), Some("t"));
    assert_eq!(list.records.len(), 1);
}

#[test]
fn steps_one_by_one() {
    let p = params();
    let (state, records) = step(&p, HarvestState::Initial, None);
    assert!(records.is_empty());
    let url = match &state {
        HarvestState::Requesting(url) => url.clone(),
        other => panic!("unexpected state {:?}", other),
    };
    assert_eq!(url, "https://example.org/oai?verb=ListRecords&metadataPrefix=marc21");
    // While no outcome has come, the harvest keeps asking.
    let (state, records) = step(&p, state, None);
    assert!(records.is_empty());
    assert!(matches!(&state, HarvestState::Requesting(u) if *u == url));
    let (state, records) = step(&p, state, Some(page(&["a", "b"], Some("next"))));
    assert!(records.is_empty());
    assert!(matches!(state, HarvestState::Parsing(_)));
    let (state, records) = step(&p, state, None);
    assert!(records.is_empty());
    match &state {
        HarvestState::Emitting(records, token) => {
            assert_eq!(records.len(), 2);
            assert_eq!(records[0].host, "example.org");
            assert_eq!(token.as_deref(), Some("next"));
        }
        other => panic!("unexpected state {:?}", other),
    }
    let (state, records) = step(&p, state, None);
    let identifiers: Vec<&str> = records.iter().map(|r: &HarvestedRecord| r.oai_pmh_identifier()).collect();
    assert_eq!(identifiers, vec!["a", "b"]);
    assert!(matches!(state, HarvestState::Requesting(_)));
    let (state, _) = step(&p, HarvestState::Done, Some(page(&["x"], None)));
    assert!(matches!(state, HarvestState::Done));
    let (state, _) = step(&p, HarvestState::Failed(HarvestUrlError::TooLong), None);
    assert!(matches!(state, HarvestState::Failed(HarvestUrlError::TooLong)));
}

#[test]
fn harvest_of_a_site_without_address_fails() {
    let mut p = params();
    p.base_url = String::from("no address");
    let (asked, stored, state) = run(&p, vec![]);
    assert!(matches!(state, HarvestState::Failed(HarvestUrlError::InvalidBaseUrl)));
    assert!(asked.is_empty());
    assert!(stored.is_empty());
}
