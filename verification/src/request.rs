//! The requests of a harvest: the address that asks a site for its records,
//! first from the start and then from where the last answer stopped.

use crate::site::{HarvestParams, SiteType};
use crate::text::{opt_str_view, opt_view};
use chrono::DateTime;
use url::Url;
use vstd::prelude::*;
use vstd::utf8::encode_utf8;

verus! {

/// The longest text, in bytes, that is handed to the `url` crate.
pub const MAX_TEXT_BYTES: usize = 0x100_0000;

/// The form in which a time is written into a request.
pub const ZULU_FORMAT: &'static str = "%Y-%m-%dT%H:%M:%SZ";

/// Why no request could be built.
#[derive(Clone, Copy, Debug, PartialEq, Eq, Structural)]
pub enum HarvestUrlError {
    /// The time to harvest from is outside what the calendar can hold.
    TimestampOutOfRange,
    /// The address or a value of the query is longer than `MAX_TEXT_BYTES`.
    TooLong,
    /// The base address of the site is no address.
    InvalidBaseUrl,
}

/// The address `url` with the pair of `name` and `value` added at the end of
/// its query, as the `url` crate writes it; nothing where `url` is no
/// address.
pub uninterp spec fn with_query_pair(url: Seq<char>, name: Seq<char>, value: Seq<char>) -> Option<
    Seq<char>,
>;

/// The host of an address as the `url` crate reads it: nothing where the text
/// is no address, and `Some(None)` where the address names no host.
pub uninterp spec fn host_in(url: Seq<char>) -> Option<Option<Seq<char>>>;

/// The time that lies `secs` seconds and `nanos` nanoseconds after the start
/// of 1970 in UTC, written in `format` as the `chrono` crate writes it;
/// nothing where the time is outside what its calendar holds.
pub uninterp spec fn utc_text(secs: int, nanos: int, format: Seq<char>) -> Option<Seq<char>>;

/// Whether a text is short enough to be handed to the `url` crate.
pub open spec fn fits(s: Seq<char>) -> bool {
    encode_utf8(s).len() <= MAX_TEXT_BYTES
}

/// What the outcome of looking for a host holds.
pub open spec fn host_view(h: Option<Option<String>>) -> Option<Option<Seq<char>>> {
    match h {
        Some(Some(s)) => Some(Some(s@)),
        Some(None) => Some(None),
        None => None,
    }
}

/// What a result of a string or an error holds.
pub open spec fn url_result_view(r: Result<String, HarvestUrlError>) -> Result<
    Seq<char>,
    HarvestUrlError,
> {
    match r {
        Ok(s) => Ok(s@),
        Err(e) => Err(e),
    }
}

/// `Url::parse`, `Url::query_pairs_mut`, `Serializer::append_pair` and the
/// `to_string` of the `url` crate: the address is parsed, the pair is added
/// at the end of its query, and the address is written out again. The texts
/// are bounded because the crate counts positions in 32 bits.
#[verifier::external_body]
fn append_query_pair(url: &str, name: &str, value: &str) -> (r: Option<String>)
    requires
        fits(url@),
        fits(name@),
        fits(value@),
    ensures
        opt_view(r) == with_query_pair(url@, name@, value@),
{
    match Url::parse(url) {
        Ok(mut parsed) => {
            parsed.query_pairs_mut().append_pair(name, value);
            Some(parsed.to_string())
        },
        Err(_) => None,
    }
}

/// `Url::parse` and `Url::host_str` of the `url` crate: the host that the
/// address names.
#[verifier::external_body]
pub(crate) fn url_host(url: &str) -> (r: Option<Option<String>>)
    ensures
        host_view(r) == host_in(url@),
{
    match Url::parse(url) {
        Ok(parsed) => Some(parsed.host_str().map(String::from)),
        Err(_) => None,
    }
}

/// `DateTime::from_timestamp` and `DateTime::format` of the `chrono` crate,
/// for the format `%Y-%m-%dT%H:%M:%SZ`: the time in UTC, written in that
/// form.
#[verifier::external_body]
fn format_utc(secs: i64, nanos: u32, format: &str) -> (r: Option<String>)
    requires
        format@ == ZULU_FORMAT@,
    ensures
        opt_view(r) == utc_text(secs as int, nanos as int, format@),
{
    DateTime::from_timestamp(secs, nanos).map(|t| t.format(format).to_string())
}

/// The time to harvest from as it is written into the first request. A
/// request that goes on from a token names no time.
pub open spec fn from_text(from: Option<u64>, token: Option<Seq<char>>) -> Result<
    Option<Seq<char>>,
    HarvestUrlError,
> {
    match (token, from) {
        (None, Some(secs)) => if secs <= i64::MAX {
            match utc_text(secs as int, 0, ZULU_FORMAT@) {
                Some(zulu) => Ok(Some(zulu)),
                None => Err(HarvestUrlError::TimestampOutOfRange),
            }
        } else {
            Err(HarvestUrlError::TimestampOutOfRange)
        },
        _ => Ok(None),
    }
}

/// The pairs of the query, in their order. Every request names the verb and
/// the metadata prefix, which is `marc21` for every kind of site. A request
/// that goes on from a token names the token and nothing more. A first
/// request names the set `web` where the site is an Amusewiki, and the time
/// to harvest from where there is one.
pub open spec fn query_pairs(
    site_type: SiteType,
    zulu: Option<Seq<char>>,
    token: Option<Seq<char>>,
) -> Seq<(Seq<char>, Seq<char>)> {
    seq![("verb"@, "ListRecords"@), ("metadataPrefix"@, "marc21"@)] + (match token {
        Some(t) => seq![("resumptionToken"@, t)],
        None => (if site_type == SiteType::Amusewiki {
            seq![("set"@, "web"@)]
        } else {
            Seq::empty()
        }) + (match zulu {
            Some(z) => seq![("from"@, z)],
            None => Seq::empty(),
        }),
    })
}

/// An address with one more pair in its query.
pub open spec fn attach(
    url: Result<Seq<char>, HarvestUrlError>,
    pair: (Seq<char>, Seq<char>),
) -> Result<Seq<char>, HarvestUrlError> {
    match url {
        Ok(u) => if !fits(u) || !fits(pair.0) || !fits(pair.1) {
            Err(HarvestUrlError::TooLong)
        } else {
            match with_query_pair(u, pair.0, pair.1) {
                Some(next) => Ok(next),
                None => Err(HarvestUrlError::InvalidBaseUrl),
            }
        },
        Err(e) => Err(e),
    }
}

/// An address with the pairs added to its query, one after the other.
pub open spec fn attach_all(
    url: Result<Seq<char>, HarvestUrlError>,
    pairs: Seq<(Seq<char>, Seq<char>)>,
) -> Result<Seq<char>, HarvestUrlError>
    decreases pairs.len(),
{
    if pairs.len() == 0 {
        url
    } else {
        attach(attach_all(url, pairs.drop_last()), pairs.last())
    }
}

/// The address of the request that a site is asked with.
pub open spec fn request_url(
    base_url: Seq<char>,
    site_type: SiteType,
    from: Option<u64>,
    token: Option<Seq<char>>,
) -> Result<Seq<char>, HarvestUrlError> {
    match from_text(from, token) {
        Ok(zulu) => attach_all(Ok(base_url), query_pairs(site_type, zulu, token)),
        Err(e) => Err(e),
    }
}

/// Adds one pair to the query of an address.
fn attach_pair(url: Result<String, HarvestUrlError>, name: &str, value: &str) -> (r: Result<
    String,
    HarvestUrlError,
>)
    ensures
        url_result_view(r) == attach(url_result_view(url), (name@, value@)),
{
    match url {
        Ok(u) => {
            if u.as_str().as_bytes().len() > MAX_TEXT_BYTES || name.as_bytes().len()
                > MAX_TEXT_BYTES || value.as_bytes().len() > MAX_TEXT_BYTES {
                Err(HarvestUrlError::TooLong)
            } else {
                match append_query_pair(u.as_str(), name, value) {
                    Some(next) => Ok(next),
                    None => Err(HarvestUrlError::InvalidBaseUrl),
                }
            }
        },
        Err(e) => Err(e),
    }
}

impl HarvestParams {
    /// The address that asks the site for records: from the start where
    /// `token` is `None`, and else from where the answer that gave the token
    /// stopped.
    pub fn harvest_url(&self, token: Option<&str>) -> (r: Result<String, HarvestUrlError>)
        ensures
            url_result_view(r) == request_url(
                self.base_url@,
                self.site_type,
                self.from,
                opt_str_view(token),
            ),
    {
        let metadata_prefix = match self.site_type {
            SiteType::KohaUnimarc => "marc21",
            SiteType::KohaMarc21 => "marc21",
            SiteType::Amusewiki => "marc21",
        };
        let ghost mut pairs = seq![("verb"@, "ListRecords"@), ("metadataPrefix"@, "marc21"@)];
        let mut zulu: Option<String> = None;
        if token.is_none() {
            if let Some(secs) = self.from {
                if secs > i64::MAX as u64 {
                    return Err(HarvestUrlError::TimestampOutOfRange);
                }
                match format_utc(secs as i64, 0, ZULU_FORMAT) {
                    Some(text) => {
                        zulu = Some(text);
                    },
                    None => {
                        return Err(HarvestUrlError::TimestampOutOfRange);
                    },
                }
            }
        }
        let mut url: Result<String, HarvestUrlError> = Ok(self.base_url.clone());
        let ghost start = url_result_view(url);
        proof {
            reveal_with_fuel(attach_all, 3);
            assert(pairs.drop_last() =~= seq![("verb"@, "ListRecords"@)]);
            assert(pairs.drop_last().drop_last() =~= Seq::empty());
        }
        url = attach_pair(url, "verb", "ListRecords");
        url = attach_pair(url, "metadataPrefix", metadata_prefix);
        assert(url_result_view(url) == attach_all(start, pairs));
        match token {
            Some(token) => {
                url = attach_pair(url, "resumptionToken", token);
                proof {
                    let more = pairs.push(("resumptionToken"@, token@));
                    assert(more.drop_last() =~= pairs);
                    pairs = more;
                }
            },
            None => {
                if let SiteType::Amusewiki = self.site_type {
                    url = attach_pair(url, "set", "web");
                    proof {
                        let more = pairs.push(("set"@, "web"@));
                        assert(more.drop_last() =~= pairs);
                        pairs = more;
                    }
                }
                if let Some(text) = &zulu {
                    url = attach_pair(url, "from", text.as_str());
                    proof {
                        let more = pairs.push(("from"@, text@));
                        assert(more.drop_last() =~= pairs);
                        pairs = more;
                    }
                }
            },
        }
        proof {
            assert(pairs =~= query_pairs(
                self.site_type,
                opt_view(zulu),
                opt_str_view(token),
            ));
        }
        url
    }
}

} // verus!
