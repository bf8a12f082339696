//! The address under which a record can be read: which of the addresses that
//! a record offers is taken.

use crate::marc::{
    datafield_views, fields_with_tag, with_code, DatafieldView, MarcDataField, SubfieldView,
};
use crate::patterns::{is_match, is_web_address, WEB_ADDRESS};
use crate::record::{codes1, HarvestedRecord, HarvestedRecordView};
use crate::site::{MetadataType, SiteType};
use crate::text::{contains, occurs_in, str_eq, str_views};
use vstd::prelude::*;
use vstd::string::*;

verus! {

/// An address with its content type and its label.
#[derive(Debug)]
pub struct RecordUri {
    pub uri: String,
    pub content_type: String,
    pub uri_label: String,
}

/// What an address holds.
pub struct UriView {
    pub uri: Seq<char>,
    pub content_type: Seq<char>,
    pub uri_label: Seq<char>,
}

impl View for RecordUri {
    type V = UriView;

    open spec fn view(&self) -> UriView {
        UriView { uri: self.uri@, content_type: self.content_type@, uri_label: self.uri_label@ }
    }
}

/// What an optional address holds.
pub open spec fn opt_uri_view(u: Option<RecordUri>) -> Option<UriView> {
    match u {
        Some(u) => Some(u@),
        None => None,
    }
}

/// The subfields with the code `u` whose text holds a web address.
pub open spec fn web_links(subfields: Seq<SubfieldView>) -> Seq<SubfieldView> {
    subfields.filter(|s: SubfieldView| s.code == "u"@ && is_web_address(s.text))
}

/// The text of the last of the subfields, or the empty text where there is
/// none.
pub open spec fn last_text(subfields: Seq<SubfieldView>) -> Seq<char> {
    if subfields.len() > 0 {
        subfields.last().text
    } else {
        Seq::empty()
    }
}

/// The address that one datafield offers: the last web address among its
/// subfields `u`, with the last content type (`q`) and the last label (`y`).
/// A datafield without a web address offers none.
pub open spec fn candidate(field: DatafieldView) -> Option<UriView> {
    if web_links(field.subfields).len() > 0 {
        Some(
            UriView {
                uri: last_text(web_links(field.subfields)),
                content_type: last_text(with_code(field.subfields, "q"@)),
                uri_label: last_text(with_code(field.subfields, "y"@)),
            },
        )
    } else {
        None
    }
}

/// The addresses that the datafields offer, in document order.
pub open spec fn candidates(fields: Seq<DatafieldView>) -> Seq<UriView> {
    fields.filter_map(|f: DatafieldView| candidate(f))
}

/// Whether an address holds the name of the host.
pub open spec fn on_host(u: UriView, host: Seq<char>) -> bool {
    occurs_in(host, u.uri)
}

/// The addresses that hold the name of the host.
pub open spec fn own(cands: Seq<UriView>, host: Seq<char>) -> Seq<UriView> {
    cands.filter(|u: UriView| on_host(u, host))
}

/// The address that is taken: the first on the site's own host, or the last
/// of all where none is on that host.
pub open spec fn preferred(cands: Seq<UriView>, host: Seq<char>) -> Option<UriView> {
    if own(cands, host).len() > 0 {
        Some(own(cands, host).first())
    } else if cands.len() > 0 {
        Some(cands.last())
    } else {
        None
    }
}

/// An address without content type and label.
pub open spec fn bare(uri: Seq<char>) -> UriView {
    UriView { uri, content_type: Seq::empty(), uri_label: Seq::empty() }
}

impl HarvestedRecordView {
    /// The addresses that the datafields 856 offer.
    pub open spec fn uri_candidates(self) -> Seq<UriView> {
        candidates(fields_with_tag(self.fields(), "856"@))
    }

    /// The address of the record. In the Marc21 dialect it is the preferred
    /// of those that the datafields 856 offer, or else the first text of
    /// 952 `u`, bare. The UniMarc dialect has none.
    pub open spec fn uri(self) -> Option<UriView> {
        match self.record_type {
            MetadataType::Marc21 => match preferred(self.uri_candidates(), self.host) {
                Some(u) => Some(u),
                None => if self.texts("952", seq!["u"]).len() > 0 {
                    Some(bare(self.texts("952", seq!["u"]).first()))
                } else {
                    None
                },
            },
            MetadataType::UniMarc => None,
        }
    }
}

/// The addresses offered by one list of datafields and then another are
/// those of the two lists, one after the other.
pub proof fn lemma_candidates_add(a: Seq<DatafieldView>, b: Seq<DatafieldView>)
    ensures
        candidates(a + b) == candidates(a) + candidates(b),
    decreases b.len(),
{
    if b.len() == 0 {
        assert(a + b =~= a);
        assert(candidates(a) + candidates(b) =~= candidates(a));
    } else {
        assert((a + b).drop_last() =~= a + b.drop_last());
        assert((a + b).last() == b.last());
        lemma_candidates_add(a, b.drop_last());
        assert(candidates(a + b) =~= candidates(a) + candidates(b));
    }
}

/// Once an address on the site's own host has been offered, what is offered
/// after it does not change which one is taken.
pub proof fn lemma_preferred_settled(first: Seq<UriView>, rest: Seq<UriView>, host: Seq<char>)
    requires
        own(first, host).len() > 0,
    ensures
        preferred(first + rest, host) == preferred(first, host),
{
    Seq::filter_distributes_over_add(first, rest, |u: UriView| on_host(u, host));
}

/// The address that one datafield offers, and whether it is on the host.
fn link_of(field: &MarcDataField, host: &str) -> (r: (Option<RecordUri>, bool))
    ensures
        opt_uri_view(r.0) == candidate(field@),
        r.0 matches Some(u) ==> r.1 == on_host(u@, host@),
{
    let mut same_host = false;
    let mut found = false;
    let mut uri_str: &str = "";
    let mut content_type: &str = "";
    let mut label: &str = "";
    let ghost subs = field@.subfields;
    let mut j: usize = 0;
    proof {
        reveal_strlit("");
        reveal_strlit("u");
        reveal_strlit("q");
        reveal_strlit("y");
        assert("u"@[0] != "q"@[0] && "u"@[0] != "y"@[0] && "q"@[0] != "y"@[0]);
        reveal(Seq::filter);
        assert(subs.take(0) =~= Seq::empty());
    }
    while j < field.subfields.len()
        invariant
            j <= field.subfields.len(),
            subs == field@.subfields,
            "u"@ != "q"@,
            "u"@ != "y"@,
            "q"@ != "y"@,
            found == (web_links(subs.take(j as int)).len() > 0),
            found ==> uri_str@ == last_text(web_links(subs.take(j as int))),
            found ==> same_host == occurs_in(host@, uri_str@),
            content_type@ == last_text(with_code(subs.take(j as int), "q"@)),
            label@ == last_text(with_code(subs.take(j as int), "y"@)),
        decreases field.subfields.len() - j,
    {
        let sf = &field.subfields[j];
        proof {
            let before = subs.take(j as int);
            assert(subs.take(j + 1) =~= before.push(sf@));
            before.lemma_filter_push(sf@, |s: SubfieldView| s.code == "q"@);
            before.lemma_filter_push(sf@, |s: SubfieldView| s.code == "y"@);
            before.lemma_filter_push(
                sf@,
                |s: SubfieldView| s.code == "u"@ && is_web_address(s.text),
            );
        }
        if str_eq(sf.code.as_str(), "u") {
            if is_match(WEB_ADDRESS, sf.text.as_str()) {
                same_host = contains(sf.text.as_str(), host);
                uri_str = sf.text.as_str();
                found = true;
            }
        } else if str_eq(sf.code.as_str(), "q") {
            content_type = sf.text.as_str();
        } else if str_eq(sf.code.as_str(), "y") {
            label = sf.text.as_str();
        }
        j += 1;
    }
    proof {
        assert(subs.take(j as int) =~= subs);
    }
    if found {
        let uri_struct = RecordUri {
            uri: String::from_str(uri_str),
            content_type: String::from_str(content_type),
            uri_label: String::from_str(label),
        };
        (Some(uri_struct), same_host)
    } else {
        (None, false)
    }
}

impl HarvestedRecord {
    /// The address under which the record can be read, if it offers one.
    pub fn uri(&self) -> (r: Option<RecordUri>)
        ensures
            opt_uri_view(r) == self@.uri(),
    {
        match self.record_type {
            MetadataType::Marc21 => {
                let fields = self.get_fields("856");
                let ghost views = datafield_views(fields@);
                let ghost host = self@.host;
                let mut found_uri: Option<RecordUri> = None;
                let mut i: usize = 0;
                proof {
                    assert(views.take(0) =~= Seq::empty());
                    assert(views.take(views.len() as int) =~= views);
                    reveal(Seq::filter);
                }
                while i < fields.len()
                    invariant_except_break
                        i <= fields.len(),
                        views.take(views.len() as int) == views,
                        own(candidates(views.take(i as int)), host).len() == 0,
                        opt_uri_view(found_uri) == preferred(candidates(views.take(i as int)), host),
                    invariant
                        views == datafield_views(fields@),
                        host == self@.host,
                    ensures
                        opt_uri_view(found_uri) == preferred(candidates(views), host),
                    decreases fields.len() - i,
                {
                    let (offered, same_host) = link_of(fields[i], self.host.as_str());
                    proof {
                        let before = candidates(views.take(i as int));
                        views.lemma_filter_map_take_succ(|f: DatafieldView| candidate(f), i as int);
                        match opt_uri_view(offered) {
                            Some(u) => {
                                before.lemma_filter_push(u, |u: UriView| on_host(u, host));
                                assert(before + seq![u] =~= before.push(u));
                            },
                            None => {
                                assert(before + Seq::<UriView>::empty() =~= before);
                            },
                        }
                    }
                    i += 1;
                    if let Some(u) = offered {
                        found_uri = Some(u);
                        if same_host {
                            proof {
                                let first = views.take(i as int);
                                let rest = views.skip(i as int);
                                assert(first + rest =~= views);
                                lemma_candidates_add(first, rest);
                                lemma_preferred_settled(candidates(first), candidates(rest), host);
                            }
                            break ;
                        }
                    }
                }
                if found_uri.is_none() {
                    let koha = self.extract_fields("952", codes1("u"));
                    assert(koha.len() > 0 ==> str_views(koha@).first() == koha@[0]@);
                    if koha.len() > 0 {
                        found_uri = Some(
                            RecordUri {
                                uri: String::from_str(koha[0]),
                                content_type: String::new(),
                                uri_label: String::new(),
                            },
                        );
                    }
                }
                found_uri
            },
            MetadataType::UniMarc => None,
        }
    }
}

/// Why the full text of a record cannot be had.
#[derive(Clone, Copy, Debug, PartialEq, Eq, Structural)]
pub enum FullTextError {
    /// The record has no address.
    NoUri,
    /// Sites of this kind serve no full text.
    NotSupported,
}

impl FullTextError {
    /// The error in words.
    pub fn message(&self) -> (r: &'static str)
        ensures
            r@ == (match self {
                FullTextError::NoUri => "No uri found"@,
                FullTextError::NotSupported => "Not a site type with full text"@,
            }),
    {
        match self {
            FullTextError::NoUri => "No uri found",
            FullTextError::NotSupported => "Not a site type with full text",
        }
    }
}

impl HarvestedRecordView {
    /// The address of the full text: for a record of an Amusewiki the
    /// address of the record with `.bare.html` behind it.
    pub open spec fn full_text_url(self) -> Result<Seq<char>, FullTextError> {
        match self.site_type {
            SiteType::Amusewiki => match self.uri() {
                Some(u) => Ok(u.uri + ".bare.html"@),
                None => Err(FullTextError::NoUri),
            },
            _ => Err(FullTextError::NotSupported),
        }
    }
}

impl HarvestedRecord {
    /// The address from which the full text of the record can be fetched.
    /// Only an Amusewiki serves full text.
    pub fn full_text_url(&self) -> (r: Result<String, FullTextError>)
        ensures
            match self@.full_text_url() {
                Ok(url) => r matches Ok(s) && s@ == url,
                Err(e) => r == Err::<String, FullTextError>(e),
            },
    {
        match self.site_type {
            SiteType::Amusewiki => match self.uri() {
                Some(uri) => {
                    let mut bare_html = uri.uri;
                    bare_html.append(".bare.html");
                    Ok(bare_html)
                },
                None => Err(FullTextError::NoUri),
            },
            _ => Err(FullTextError::NotSupported),
        }
    }
}

/// Of two datafields that each offer an address, one on the site's own host
/// and one elsewhere, the one on the own host is taken, whichever comes
/// first in the record.
pub proof fn uri_prefers_own_host(x: DatafieldView, y: DatafieldView, host: Seq<char>)
    requires
        candidate(x) is Some,
        candidate(y) is Some,
        on_host(candidate(x)->0, host),
        !on_host(candidate(y)->0, host),
    ensures
        preferred(candidates(seq![x, y]), host) == candidate(x),
        preferred(candidates(seq![y, x]), host) == candidate(x),
{
    let a = candidate(x)->0;
    let b = candidate(y)->0;
    let p = |u: UriView| on_host(u, host);
    assert(candidates(seq![x, y]) =~= seq![a, b]) by {
        lemma_candidates_add(seq![x], seq![y]);
        assert(seq![x] + seq![y] =~= seq![x, y]);
        reveal_with_fuel(Seq::filter_map, 2);
    }
    assert(candidates(seq![y, x]) =~= seq![b, a]) by {
        lemma_candidates_add(seq![y], seq![x]);
        assert(seq![y] + seq![x] =~= seq![y, x]);
        reveal_with_fuel(Seq::filter_map, 2);
    }
    assert(own(seq![a, b], host) =~= seq![a]) by {
        Seq::<UriView>::empty().lemma_filter_push(a, p);
        seq![a].lemma_filter_push(b, p);
        reveal(Seq::filter);
        assert(seq![a].push(b) =~= seq![a, b]);
        assert(Seq::<UriView>::empty().push(a) =~= seq![a]);
    }
    assert(own(seq![b, a], host) =~= seq![a]) by {
        Seq::<UriView>::empty().lemma_filter_push(b, p);
        seq![b].lemma_filter_push(a, p);
        reveal(Seq::filter);
        assert(seq![b].push(a) =~= seq![b, a]);
        assert(Seq::<UriView>::empty().push(b) =~= seq![b]);
    }
}

/// A record in the Marc21 dialect whose datafields 856 offer no address, and
/// which has a text under 952 `u`, has the first such text as its address,
/// with an empty content type and an empty label.
pub proof fn uri_falls_back(record: HarvestedRecordView)
    requires
        record.record_type == MetadataType::Marc21,
        record.uri_candidates().len() == 0,
        record.texts("952", seq!["u"]).len() > 0,
    ensures
        record.uri() == Some(bare(record.texts("952", seq!["u"]).first())),
{
    reveal(Seq::filter);
}

} // verus!
