//! The harvest of one site: the answers of the site, and the states that a
//! harvest goes through from its first request to its end.

use crate::marc::{OaiPmhRecord, OaiPmhRecordView};
use crate::record::{host_or_empty, HarvestedRecord, HarvestedRecordView};
use crate::request::{host_in, request_url, HarvestUrlError};
use crate::site::HarvestParams;
use crate::text::{opt_str_view, opt_view};
use vstd::prelude::*;
use vstd::string::*;

verus! {

/// An error that the site reports in its answer.
#[derive(Debug)]
pub struct ResponseError {
    pub code: String,
    pub message: String,
}

/// What a reported error holds.
pub struct ResponseErrorView {
    pub code: Seq<char>,
    pub message: Seq<char>,
}

impl View for ResponseError {
    type V = ResponseErrorView;

    open spec fn view(&self) -> ResponseErrorView {
        ResponseErrorView { code: self.code@, message: self.message@ }
    }
}

/// The records of one answer, and the token to ask for more with.
#[derive(Debug)]
pub struct ListRecords {
    pub resumption_token: Option<String>,
    pub records: Vec<OaiPmhRecord>,
}

/// What a list of records holds.
pub struct ListRecordsView {
    pub resumption_token: Option<Seq<char>>,
    pub records: Seq<OaiPmhRecordView>,
}

impl View for ListRecords {
    type V = ListRecordsView;

    open spec fn view(&self) -> ListRecordsView {
        ListRecordsView {
            resumption_token: opt_view(self.resumption_token),
            records: self.records@.map_values(|r: OaiPmhRecord| r@),
        }
    }
}

/// The answer of a site to one request.
#[derive(Debug)]
pub struct OaiPmhResponse {
    pub response_date: String,
    pub request: String,
    pub error: Option<ResponseError>,
    pub list_records: Option<ListRecords>,
}

/// What an answer holds.
pub struct ResponseView {
    pub response_date: Seq<char>,
    pub request: Seq<char>,
    pub error: Option<ResponseErrorView>,
    pub list_records: Option<ListRecordsView>,
}

impl View for OaiPmhResponse {
    type V = ResponseView;

    open spec fn view(&self) -> ResponseView {
        ResponseView {
            response_date: self.response_date@,
            request: self.request@,
            error: match self.error {
                Some(e) => Some(e@),
                None => None,
            },
            list_records: match self.list_records {
                Some(l) => Some(l@),
                None => None,
            },
        }
    }
}

/// The answer that stands for a body that could not be read: it reports the
/// error `Invalid XML` with the message of the reader, and lists no records.
pub open spec fn invalid_answer(message: Seq<char>) -> ResponseView {
    ResponseView {
        response_date: "NOW"@,
        request: "Invalid"@,
        error: Some(ResponseErrorView { code: "Invalid XML"@, message }),
        list_records: None,
    }
}

/// What the reading of a body holds: an answer, or the message of the
/// reader.
pub open spec fn decoded_view(decoded: Result<OaiPmhResponse, String>) -> Result<
    ResponseView,
    Seq<char>,
> {
    match decoded {
        Ok(answer) => Ok(answer@),
        Err(message) => Err(message@),
    }
}

/// The answer that a body stands for.
pub open spec fn answer_of(decoded: Result<ResponseView, Seq<char>>) -> ResponseView {
    match decoded {
        Ok(answer) => answer,
        Err(message) => invalid_answer(message),
    }
}

/// The answer that a body stands for: the answer read from it, or, where it
/// could not be read, an answer that reports this as an error. A body that
/// cannot be read never stops a harvest by itself.
pub fn parse_response(decoded: Result<OaiPmhResponse, String>) -> (r: OaiPmhResponse)
    ensures
        r@ == answer_of(decoded_view(decoded)),
{
    match decoded {
        Ok(res) => res,
        Err(e) => OaiPmhResponse {
            response_date: String::from_str("NOW"),
            request: String::from_str("Invalid"),
            error: Some(ResponseError { code: String::from_str("Invalid XML"), message: e }),
            list_records: None,
        },
    }
}

/// What came of one request.
#[derive(Debug)]
pub enum FetchOutcome {
    /// No answer came; the text says why.
    TransportError(String),
    /// An answer came, with this status and this body as far as it could be
    /// read.
    Response(u16, Result<OaiPmhResponse, String>),
}

/// What an outcome holds.
pub enum OutcomeView {
    TransportError(Seq<char>),
    Response(u16, Result<ResponseView, Seq<char>>),
}

impl View for FetchOutcome {
    type V = OutcomeView;

    open spec fn view(&self) -> OutcomeView {
        match self {
            FetchOutcome::TransportError(reason) => OutcomeView::TransportError(reason@),
            FetchOutcome::Response(status, decoded) => OutcomeView::Response(
                *status,
                decoded_view(*decoded),
            ),
        }
    }
}

/// What an optional outcome holds.
pub open spec fn opt_outcome_view(outcome: Option<FetchOutcome>) -> Option<OutcomeView> {
    match outcome {
        Some(o) => Some(o@),
        None => None,
    }
}

/// The state of the harvest of one site.
#[derive(Debug)]
pub enum HarvestState {
    /// Nothing has been asked yet.
    Initial,
    /// The site is being asked at this address.
    Requesting(String),
    /// An answer has come and is looked at.
    Parsing(OaiPmhResponse),
    /// The records of an answer are handed on; the token, if there is one,
    /// leads to the next answer.
    Emitting(Vec<HarvestedRecord>, Option<String>),
    /// The harvest is over. What was handed on stays.
    Done,
    /// The harvest could not go on.
    Failed(HarvestUrlError),
}

/// What a state holds.
pub enum StateView {
    Initial,
    Requesting(Seq<char>),
    Parsing(ResponseView),
    Emitting(Seq<HarvestedRecordView>, Option<Seq<char>>),
    Done,
    Failed(HarvestUrlError),
}

/// What a list of harvested records holds.
pub open spec fn record_views(records: Seq<HarvestedRecord>) -> Seq<HarvestedRecordView> {
    records.map_values(|r: HarvestedRecord| r@)
}

impl View for HarvestState {
    type V = StateView;

    open spec fn view(&self) -> StateView {
        match self {
            HarvestState::Initial => StateView::Initial,
            HarvestState::Requesting(url) => StateView::Requesting(url@),
            HarvestState::Parsing(answer) => StateView::Parsing(answer@),
            HarvestState::Emitting(records, token) => StateView::Emitting(
                record_views(records@),
                opt_view(*token),
            ),
            HarvestState::Done => StateView::Done,
            HarvestState::Failed(e) => StateView::Failed(*e),
        }
    }
}

/// Whether a token leads to a further answer: it is there and has more than
/// one character. Sites end a list with an empty or nearly empty token.
pub open spec fn token_continues(token: Option<Seq<char>>) -> bool {
    token matches Some(t) && t.len() > 1
}

/// The state in which the site is asked, from the start or from a token; or
/// the failure where no request can be built.
pub open spec fn asking(params: HarvestParams, token: Option<Seq<char>>) -> StateView {
    match request_url(params.base_url@, params.site_type, params.from, token) {
        Ok(url) => StateView::Requesting(url),
        Err(e) => StateView::Failed(e),
    }
}

/// A record of the site as it is handed on.
pub open spec fn harvested(
    record: OaiPmhRecordView,
    params: HarvestParams,
    host: Option<Seq<char>>,
) -> HarvestedRecordView {
    HarvestedRecordView {
        raw: record,
        record_type: params.site_type.dialect(),
        host: host_or_empty(host),
        site_type: params.site_type,
    }
}

/// The state in which the records of an answer are handed on. Records of a
/// site whose address is no address cannot be handed on.
pub open spec fn emitting(list: ListRecordsView, params: HarvestParams) -> StateView {
    match host_in(params.base_url@) {
        Some(host) => StateView::Emitting(
            list.records.map_values(|r: OaiPmhRecordView| harvested(r, params, host)),
            list.resumption_token,
        ),
        None => if list.records.len() == 0 {
            StateView::Emitting(Seq::empty(), list.resumption_token)
        } else {
            StateView::Failed(HarvestUrlError::InvalidBaseUrl)
        },
    }
}

/// The next state of a harvest, and the records that this step hands on to
/// be stored.
///
/// A harvest starts by asking from the start. While it is asking it waits
/// for an outcome: with an answer of status 200 it goes on to look at the
/// answer, with any other outcome it is over. An answer without a list of
/// records ends it; one with a list has its records handed on. Then a token
/// that continues leads to the next request, and anything else to the end.
pub open spec fn next_state(
    params: HarvestParams,
    state: StateView,
    outcome: Option<OutcomeView>,
) -> (StateView, Seq<HarvestedRecordView>) {
    match state {
        StateView::Initial => (asking(params, None), Seq::empty()),
        StateView::Requesting(url) => match outcome {
            None => (StateView::Requesting(url), Seq::empty()),
            Some(OutcomeView::TransportError(_)) => (StateView::Done, Seq::empty()),
            Some(OutcomeView::Response(status, decoded)) => if status == 200 {
                (StateView::Parsing(answer_of(decoded)), Seq::empty())
            } else {
                (StateView::Done, Seq::empty())
            },
        },
        StateView::Parsing(answer) => match answer.list_records {
            Some(list) => (emitting(list, params), Seq::empty()),
            None => (StateView::Done, Seq::empty()),
        },
        StateView::Emitting(records, token) => (
            if token_continues(token) {
                asking(params, token)
            } else {
                StateView::Done
            },
            records,
        ),
        StateView::Done => (StateView::Done, Seq::empty()),
        StateView::Failed(e) => (StateView::Failed(e), Seq::empty()),
    }
}

/// The state in which the site is asked.
fn ask(params: &HarvestParams, token: Option<&str>) -> (r: HarvestState)
    ensures
        r@ == asking(*params, opt_str_view(token)),
{
    match params.harvest_url(token) {
        Ok(url) => HarvestState::Requesting(url),
        Err(e) => HarvestState::Failed(e),
    }
}

/// The state in which the records of an answer are handed on.
fn emit(list: ListRecords, params: &HarvestParams) -> (r: HarvestState)
    ensures
        r@ == emitting(list@, *params),
{
    let ghost raw = list@.records;
    let ghost host = host_in(params.base_url@);
    let ListRecords { resumption_token, records } = list;
    let mut out: Vec<HarvestedRecord> = Vec::new();
    for record in it: records
        invariant
            raw == list@.records,
            raw == it.seq().map_values(|r: OaiPmhRecord| r@),
            host == host_in(params.base_url@),
            out@.len() == it.index(),
            out@.len() > 0 ==> host is Some,
            forall|k: int|
                0 <= k < out@.len() ==> (#[trigger] out@[k])@ == harvested(
                    raw[k],
                    *params,
                    host->0,
                ),
    {
        match HarvestedRecord::new(record, params) {
            Some(rec) => {
                out.push(rec);
            },
            None => {
                return HarvestState::Failed(HarvestUrlError::InvalidBaseUrl);
            },
        }
    }
    proof {
        if raw.len() == 0 {
            assert(record_views(out@) =~= Seq::empty());
            assert(raw.map_values(|r: OaiPmhRecordView| harvested(r, *params, host->0))
                =~= Seq::empty());
        } else {
            assert(record_views(out@) =~= raw.map_values(
                |r: OaiPmhRecordView| harvested(r, *params, host->0),
            ));
        }
    }
    HarvestState::Emitting(out, resumption_token)
}

/// Takes a harvest one step on. `outcome` is what came of the request where
/// the harvest was asking, and is not looked at in any other state. The
/// records that are returned are to be stored, in their order, before the
/// next step is taken.
pub fn step(params: &HarvestParams, state: HarvestState, outcome: Option<FetchOutcome>) -> (r: (
    HarvestState,
    Vec<HarvestedRecord>,
))
    ensures
        (r.0@, record_views(r.1@)) == next_state(*params, state@, opt_outcome_view(outcome)),
{
    let none: Vec<HarvestedRecord> = Vec::new();
    proof {
        assert(record_views(none@) =~= Seq::empty());
    }
    match state {
        HarvestState::Initial => (ask(params, None), none),
        HarvestState::Requesting(url) => match outcome {
            None => (HarvestState::Requesting(url), none),
            Some(FetchOutcome::TransportError(_)) => (HarvestState::Done, none),
            Some(FetchOutcome::Response(status, decoded)) => {
                if status == 200 {
                    (HarvestState::Parsing(parse_response(decoded)), none)
                } else {
                    (HarvestState::Done, none)
                }
            },
        },
        HarvestState::Parsing(answer) => match answer.list_records {
            Some(list) => (emit(list, params), none),
            None => (HarvestState::Done, none),
        },
        HarvestState::Emitting(records, token) => {
            let next = match &token {
                Some(t) => {
                    if t.as_str().unicode_len() > 1 {
                        ask(params, Some(t.as_str()))
                    } else {
                        HarvestState::Done
                    }
                },
                None => HarvestState::Done,
            };
            (next, records)
        },
        HarvestState::Done => (HarvestState::Done, none),
        HarvestState::Failed(e) => (HarvestState::Failed(e), none),
    }
}

/// A token of one character or none ends the harvest: the records are handed
/// on and no further request is made.
pub proof fn short_token_ends_harvest(
    params: HarvestParams,
    records: Seq<HarvestedRecordView>,
    token: Seq<char>,
    outcome: Option<OutcomeView>,
)
    requires
        token.len() <= 1,
    ensures
        next_state(params, StateView::Emitting(records, Some(token)), outcome) == (
            StateView::Done,
            records,
        ),
{
}

/// The state and the records handed on after `steps` steps of a harvest that
/// starts in `state`, against a site whose next outcomes are `outcomes`. A
/// harvest that is asking takes the next outcome, and waits where there is
/// none.
pub open spec fn run(
    params: HarvestParams,
    state: StateView,
    outcomes: Seq<OutcomeView>,
    steps: nat,
) -> (StateView, Seq<HarvestedRecordView>)
    decreases steps,
{
    if steps == 0 {
        (state, Seq::empty())
    } else if state is Requesting {
        if outcomes.len() == 0 {
            (state, Seq::empty())
        } else {
            let (next, handed) = next_state(params, state, Some(outcomes.first()));
            let (last, more) = run(params, next, outcomes.drop_first(), (steps - 1) as nat);
            (last, handed + more)
        }
    } else {
        let (next, handed) = next_state(params, state, None);
        let (last, more) = run(params, next, outcomes, (steps - 1) as nat);
        (last, handed + more)
    }
}

/// The outcome of a request that the site answers with status 200 and a
/// body that can be read.
pub open spec fn answered(answer: ResponseView) -> OutcomeView {
    OutcomeView::Response(200, Ok(answer))
}

/// The records of the answers as they are handed on, answer after answer.
pub open spec fn records_of(
    answers: Seq<ResponseView>,
    params: HarvestParams,
    host: Option<Seq<char>>,
) -> Seq<HarvestedRecordView> {
    answers.map_values(
        |a: ResponseView|
            a.list_records->0.records.map_values(|r: OaiPmhRecordView| harvested(r, params, host)),
    ).flatten()
}

/// Whether the answers are the pages of one list: each has a list of
/// records, the token of each but the last continues and leads to a
/// request, and the token of the last does not continue.
pub open spec fn is_paged_list(answers: Seq<ResponseView>, params: HarvestParams) -> bool {
    &&& answers.len() > 0
    &&& forall|i: int| 0 <= i < answers.len() ==> (#[trigger] answers[i]).list_records is Some
    &&& forall|i: int|
        0 <= i < answers.len() - 1 ==> token_continues(
            (#[trigger] answers[i]).list_records->0.resumption_token,
        ) && asking(params, answers[i].list_records->0.resumption_token) is Requesting
    &&& !token_continues(answers.last().list_records->0.resumption_token)
}

/// A harvest that is asking, against a site that answers with the pages of
/// one list, goes through all pages, hands on the records of all of them in
/// their order, and ends.
pub proof fn lemma_pages_are_followed(
    params: HarvestParams,
    url: Seq<char>,
    answers: Seq<ResponseView>,
)
    requires
        host_in(params.base_url@) is Some,
        is_paged_list(answers, params),
    ensures
        run(
            params,
            StateView::Requesting(url),
            answers.map_values(|a: ResponseView| answered(a)),
            3 * answers.len(),
        ) == (StateView::Done, records_of(answers, params, host_in(params.base_url@)->0)),
    decreases answers.len(),
{
    let host = host_in(params.base_url@)->0;
    let outcomes = answers.map_values(|a: ResponseView| answered(a));
    let first = answers.first();
    let list = first.list_records->0;
    let handed = list.records.map_values(|r: OaiPmhRecordView| harvested(r, params, host));
    let per_answer = |a: ResponseView|
        a.list_records->0.records.map_values(|r: OaiPmhRecordView| harvested(r, params, host));
    let rest = answers.drop_first();
    let n = answers.len();
    let none = Seq::<HarvestedRecordView>::empty();
    // Asking, looking at the answer and handing on its records take one step each.
    let parsing = StateView::Parsing(first);
    let emitting = StateView::Emitting(handed, list.resumption_token);
    assert(next_state(params, StateView::Requesting(url), Some(outcomes.first())) == (
        parsing,
        none,
    ));
    assert(next_state(params, parsing, None) == (emitting, none));
    assert(outcomes.drop_first() =~= rest.map_values(|a: ResponseView| answered(a)));
    assert(answers.map_values(per_answer) =~= seq![handed] + rest.map_values(per_answer));
    vstd::seq_lib::lemma_flatten_concat(seq![handed], rest.map_values(per_answer));
    seq![handed].lemma_flatten_singleton();
    reveal_with_fuel(run, 4);
    if n == 1 {
        assert(rest.map_values(per_answer) =~= Seq::empty());
        assert(next_state(params, emitting, None) == (StateView::Done, handed));
        assert(run(params, StateView::Done, outcomes.drop_first(), 0) == (StateView::Done, none));
        assert(none + none =~= none);
        assert(none + (none + (handed + none)) =~= handed + none);
    } else {
        assert(is_paged_list(rest, params)) by {
            assert forall|i: int| 0 <= i < rest.len() implies (#[trigger] rest[i]).list_records
                is Some by {
                assert(rest[i] == answers[i + 1]);
            }
            assert forall|i: int| 0 <= i < rest.len() - 1 implies token_continues(
                (#[trigger] rest[i]).list_records->0.resumption_token,
            ) && asking(params, rest[i].list_records->0.resumption_token) is Requesting by {
                assert(rest[i] == answers[i + 1]);
            }
            assert(rest.last() == answers.last());
        }
        assert(answers[0] == first);
        let next = asking(params, list.resumption_token);
        assert(next_state(params, emitting, None) == (next, handed));
        lemma_pages_are_followed(params, next->Requesting_0, rest);
        let more = records_of(rest, params, host);
        assert(3 * n - 3 == 3 * rest.len());
        assert(none + (none + (handed + more)) =~= handed + more);
    }
}

/// A harvest of a site that answers with the pages of one list hands on the
/// records of all pages in their order and ends, where the site has an
/// address that the first request can be made from.
pub proof fn harvest_follows_tokens_to_the_end(params: HarvestParams, answers: Seq<ResponseView>)
    requires
        host_in(params.base_url@) is Some,
        asking(params, None) is Requesting,
        is_paged_list(answers, params),
    ensures
        run(
            params,
            StateView::Initial,
            answers.map_values(|a: ResponseView| answered(a)),
            3 * answers.len() + 1,
        ) == (StateView::Done, records_of(answers, params, host_in(params.base_url@)->0)),
{
    let first = asking(params, None);
    lemma_pages_are_followed(params, first->Requesting_0, answers);
    let all = records_of(answers, params, host_in(params.base_url@)->0);
    assert(Seq::<HarvestedRecordView>::empty() + all =~= all);
    reveal_with_fuel(run, 2);
}

} // verus!
