//! What is stored of a record: the rows that an ingest writes, and the order
//! of its stages.

use crate::diacritics::{is_nonspacing_mark, strip_diacritics, stripped, stripped_has_no_marks};
use crate::record::HarvestedRecord;
use crate::site::HarvestParams;
use crate::text::{opt_str_view, opt_view, str_views};
use crate::uri::UriView;
use crate::years::strictly_ascending;
use chrono::{DateTime, Utc};
use vstd::prelude::*;
use vstd::string::*;

verus! {

/// A point in time: seconds since the start of 1970 in UTC, and the
/// nanoseconds into that second.
#[derive(Clone, Copy, Debug, PartialEq, Eq, Structural)]
pub struct Timestamp {
    pub secs: i64,
    pub nanos: u32,
}

/// The point in time that a text names, as the `chrono` crate reads a date
/// and time with an offset: the seconds since the start of 1970 in UTC and
/// the nanoseconds into that second; nothing where it reads none.
pub uninterp spec fn instant_of(text: Seq<char>) -> Option<(i64, u32)>;

/// The point in time that a text names.
pub open spec fn timestamp_of(text: Seq<char>) -> Option<Timestamp> {
    match instant_of(text) {
        Some((secs, nanos)) => Some(Timestamp { secs, nanos }),
        None => None,
    }
}

/// `str::parse::<DateTime<Utc>>` of the `chrono` crate, with
/// `DateTime::timestamp` and `DateTime::timestamp_subsec_nanos`: the point
/// in time that the text names.
#[verifier::external_body]
fn parse_instant(text: &str) -> (r: Option<Timestamp>)
    ensures
        match r {
            Some(t) => instant_of(text@) == Some((t.secs, t.nanos)),
            None => instant_of(text@) is None,
        },
{
    match text.parse::<DateTime<Utc>>() {
        Ok(t) => Some(Timestamp { secs: t.timestamp(), nanos: t.timestamp_subsec_nanos() }),
        Err(_) => None,
    }
}

/// The row of a bibliographic work.
#[derive(Debug)]
pub struct EntryRow {
    pub title: String,
    pub subtitle: String,
    pub checksum: String,
    pub search_text: String,
}

/// The row of an author.
#[derive(Debug)]
pub struct AgentRow {
    pub full_name: String,
    pub search_text: String,
}

/// The row of one record of one site.
#[derive(Debug)]
pub struct DatasourceRow {
    pub site_id: i32,
    pub oai_pmh_identifier: String,
    pub entry_id: i32,
    pub datestamp: Timestamp,
    pub description: String,
    pub year_edition: Option<i32>,
    pub year_first_edition: Option<i32>,
    pub publisher: String,
    pub isbn: String,
    pub uri: Option<String>,
    pub uri_label: Option<String>,
    pub content_type: Option<String>,
    pub material_description: String,
    pub shelf_location_code: String,
    pub edition_statement: String,
    pub place_date_of_publication_distribution: String,
    pub search_text: String,
}

/// The text by which a work is searched: the title and the subtitle without
/// their diacritics, with a space between them.
pub open spec fn entry_search_text(title: Seq<char>, subtitle: Seq<char>) -> Seq<char> {
    stripped(title) + " "@ + stripped(subtitle)
}

/// The year of the edition at hand: the only year, or the last of several.
pub open spec fn year_edition(years: Seq<i32>) -> Option<i32> {
    if years.len() >= 1 {
        Some(years.last())
    } else {
        None
    }
}

/// The year of the first edition: the first of several years.
pub open spec fn year_first_edition(years: Seq<i32>) -> Option<i32> {
    if years.len() > 1 {
        Some(years.first())
    } else {
        None
    }
}

/// The time of a record: the one that its datestamp names, or `now` where
/// the datestamp names none.
pub open spec fn record_time(datestamp: Seq<char>, now: Timestamp) -> Timestamp {
    match timestamp_of(datestamp) {
        Some(t) => t,
        None => now,
    }
}

/// The text by which a record is searched: its full text without
/// diacritics, or nothing where no full text was had.
pub open spec fn full_search_text(body: Option<Seq<char>>) -> Seq<char> {
    match body {
        Some(b) => stripped(b),
        None => Seq::empty(),
    }
}

/// The one part of an optional address.
pub open spec fn uri_part(u: Option<UriView>, part: spec_fn(UriView) -> Seq<char>) -> Option<
    Seq<char>,
> {
    match u {
        Some(u) => Some(part(u)),
        None => None,
    }
}

/// The text by which a work is searched holds no nonspacing mark.
pub proof fn entry_search_text_has_no_marks(title: Seq<char>, subtitle: Seq<char>)
    ensures
        forall|i: int|
            0 <= i < entry_search_text(title, subtitle).len() ==> !is_nonspacing_mark(
                #[trigger] entry_search_text(title, subtitle)[i],
            ),
{
    reveal_strlit(" ");
    stripped_has_no_marks(title);
    stripped_has_no_marks(subtitle);
    let text = entry_search_text(title, subtitle);
    let n = stripped(title).len() as int;
    assert forall|i: int| 0 <= i < text.len() implies !is_nonspacing_mark(#[trigger] text[i]) by {
        if i < n {
            assert(text[i] == stripped(title)[i]);
        } else if i == n {
            assert(text[i] == ' ');
        } else {
            assert(text[i] == stripped(subtitle)[i - n - 1]);
        }
    }
}

/// Of years in ascending order the year of the first edition is the
/// smallest, and the year of the edition at hand the largest.
pub proof fn edition_years_are_extremes(years: Seq<i32>, i: int)
    requires
        strictly_ascending(years),
        0 <= i < years.len(),
    ensures
        year_edition(years) matches Some(last) && years[i] <= last,
        year_first_edition(years) matches Some(first) ==> first <= years[i],
{
}

/// The row of the work that a record describes.
pub fn entry_row(record: &HarvestedRecord) -> (row: EntryRow)
    ensures
        row.title@ == record@.title(),
        row.subtitle@ == record@.subtitle(),
        row.checksum@ == record@.checksum(),
        row.search_text@ == entry_search_text(record@.title(), record@.subtitle()),
{
    let title = record.title();
    let subtitle = record.subtitle();
    let mut search_text = strip_diacritics(title.as_str());
    search_text.append(" ");
    search_text.append(strip_diacritics(subtitle.as_str()).as_str());
    EntryRow { title, subtitle, checksum: record.checksum(), search_text }
}

/// The rows of the authors of a record, in document order.
pub fn agent_rows(record: &HarvestedRecord) -> (rows: Vec<AgentRow>)
    ensures
        rows@.len() == record@.authors().len(),
        forall|i: int|
            0 <= i < rows@.len() ==> (#[trigger] rows@[i]).full_name@ == record@.authors()[i]
                && rows@[i].search_text@ == stripped(record@.authors()[i]),
{
    let authors = record.authors();
    let mut rows: Vec<AgentRow> = Vec::new();
    let mut i: usize = 0;
    while i < authors.len()
        invariant
            i <= authors.len(),
            str_views(authors@) == record@.authors(),
            rows@.len() == i,
            forall|k: int|
                0 <= k < rows@.len() ==> (#[trigger] rows@[k]).full_name@ == record@.authors()[k]
                    && rows@[k].search_text@ == stripped(record@.authors()[k]),
        decreases authors.len() - i,
    {
        let full_name = authors[i];
        assert(full_name@ == str_views(authors@)[i as int]);
        rows.push(
            AgentRow {
                full_name: String::from_str(full_name),
                search_text: strip_diacritics(full_name),
            },
        );
        i += 1;
    }
    rows
}

/// The year of the edition at hand and the year of the first edition, from
/// the years of which a record speaks, in ascending order. One year is the
/// year of the edition at hand; of several, the first is the year of the
/// first edition and the last that of the edition at hand.
pub fn edition_year_fields(years: &Vec<i32>) -> (r: (Option<i32>, Option<i32>))
    ensures
        r.0 == year_edition(years@),
        r.1 == year_first_edition(years@),
{
    if years.len() == 1 {
        (Some(years[0]), None)
    } else if years.len() > 1 {
        (Some(years[years.len() - 1]), Some(years[0]))
    } else {
        (None, None)
    }
}

/// The row of a record. `body` is the full text of the record where it
/// could be fetched, and `now` the time to take where the datestamp of the
/// record names none.
pub fn datasource_row(
    params: &HarvestParams,
    record: &HarvestedRecord,
    entry_id: i32,
    body: Option<&str>,
    now: Timestamp,
) -> (row: DatasourceRow)
    ensures
        row.site_id == params.site_id,
        row.oai_pmh_identifier@ == record@.raw.header.identifier,
        row.entry_id == entry_id,
        row.datestamp == record_time(record@.raw.header.datestamp, now),
        row.description@ == record@.description(),
        row.year_edition == year_edition(record@.edition_years()),
        row.year_first_edition == year_first_edition(record@.edition_years()),
        row.publisher@ == record@.publisher(),
        row.isbn@ == record@.isbn(),
        opt_view(row.uri) == uri_part(record@.uri(), |u: UriView| u.uri),
        opt_view(row.uri_label) == uri_part(record@.uri(), |u: UriView| u.uri_label),
        opt_view(row.content_type) == uri_part(record@.uri(), |u: UriView| u.content_type),
        row.material_description@ == record@.material_description(),
        row.shelf_location_code@ == record@.shelf_location_code(),
        row.edition_statement@ == record@.edition_statement(),
        row.place_date_of_publication_distribution@
            == record@.place_date_of_publication_distribution(),
        row.search_text@ == full_search_text(opt_str_view(body)),
{
    let search_text = match body {
        Some(b) => strip_diacritics(b),
        None => String::new(),
    };
    let years = record.edition_years();
    let (year_edition, year_first_edition) = edition_year_fields(&years);
    let mut uri = None;
    let mut uri_label = None;
    let mut content_type = None;
    if let Some(uri_struct) = record.uri() {
        uri = Some(uri_struct.uri);
        uri_label = Some(uri_struct.uri_label);
        content_type = Some(uri_struct.content_type);
    }
    let datestamp = match parse_instant(record.datestamp()) {
        Some(t) => t,
        None => now,
    };
    DatasourceRow {
        site_id: params.site_id,
        oai_pmh_identifier: String::from_str(record.oai_pmh_identifier()),
        entry_id,
        datestamp,
        description: record.description(),
        year_edition,
        year_first_edition,
        publisher: record.publisher(),
        isbn: record.isbn(),
        uri,
        uri_label,
        content_type,
        material_description: record.material_description(),
        shelf_location_code: record.shelf_location_code(),
        edition_statement: record.edition_statement(),
        place_date_of_publication_distribution: record.place_date_of_publication_distribution(),
        search_text,
    }
}

/// Where the ingest of one record stands.
#[derive(Clone, Copy, Debug, PartialEq, Eq, Structural)]
pub enum IngestState {
    /// The work is to be stored.
    UpsertEntry,
    /// The work is stored under this identifier; its authors are next.
    InsertAgents(i32),
    /// The languages are next.
    InsertLanguages(i32),
    /// The row of the record is next.
    UpsertDatasource(i32),
    /// The ingest is over and the work is stored under this identifier.
    Stored(i32),
    /// The work could not be stored, and nothing else was tried.
    Rejected,
}

/// What came of one stage of an ingest.
#[derive(Clone, Copy, Debug, PartialEq, Eq, Structural)]
pub enum StageOutcome {
    /// The stage went through; where it stored the work, the store gave this
    /// identifier.
    Succeeded(Option<i32>),
    /// The stage failed.
    Failed,
}

/// The state after a stage. The work comes first and must be stored with an
/// identifier, or the ingest ends. After that the authors, the languages and
/// the row of the record follow in this order, and none of them is held up
/// or undone by the failure of another.
pub open spec fn after_stage(state: IngestState, outcome: StageOutcome) -> IngestState {
    match state {
        IngestState::UpsertEntry => match outcome {
            StageOutcome::Succeeded(Some(entry_id)) => IngestState::InsertAgents(entry_id),
            _ => IngestState::Rejected,
        },
        IngestState::InsertAgents(entry_id) => IngestState::InsertLanguages(entry_id),
        IngestState::InsertLanguages(entry_id) => IngestState::UpsertDatasource(entry_id),
        IngestState::UpsertDatasource(entry_id) => IngestState::Stored(entry_id),
        IngestState::Stored(entry_id) => IngestState::Stored(entry_id),
        IngestState::Rejected => IngestState::Rejected,
    }
}

/// The state of an ingest after the stage that `state` names has had
/// `outcome`.
pub fn next_stage(state: IngestState, outcome: StageOutcome) -> (r: IngestState)
    ensures
        r == after_stage(state, outcome),
{
    match state {
        IngestState::UpsertEntry => match outcome {
            StageOutcome::Succeeded(Some(entry_id)) => IngestState::InsertAgents(entry_id),
            _ => IngestState::Rejected,
        },
        IngestState::InsertAgents(entry_id) => IngestState::InsertLanguages(entry_id),
        IngestState::InsertLanguages(entry_id) => IngestState::UpsertDatasource(entry_id),
        IngestState::UpsertDatasource(entry_id) => IngestState::Stored(entry_id),
        IngestState::Stored(entry_id) => IngestState::Stored(entry_id),
        IngestState::Rejected => IngestState::Rejected,
    }
}

/// Once the work is stored, the ingest ends with its identifier, whatever
/// comes of the authors, the languages and the row of the record.
pub proof fn stored_entry_is_kept(
    entry_id: i32,
    agents: StageOutcome,
    languages: StageOutcome,
    datasource: StageOutcome,
)
    ensures
        after_stage(
            after_stage(
                after_stage(
                    after_stage(IngestState::UpsertEntry, StageOutcome::Succeeded(Some(entry_id))),
                    agents,
                ),
                languages,
            ),
            datasource,
        ) == IngestState::Stored(entry_id),
{
}

} // verus!
