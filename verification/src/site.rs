//! The sites that are harvested and the dialects of their records.

use crate::text::str_eq;
use vstd::prelude::*;

verus! {

/// The dialect of a catalogue record: which tag and code carry which
/// attribute.
#[derive(Clone, Copy, Debug, PartialEq, Eq, Structural)]
pub enum MetadataType {
    Marc21,
    UniMarc,
}

/// The kind of software that serves a site.
#[derive(Clone, Copy, Debug, PartialEq, Eq, Structural)]
pub enum SiteType {
    Amusewiki,
    KohaMarc21,
    KohaUnimarc,
}

/// The kind of site that a name stands for: `amusewiki`, `koha-marc21` or
/// `koha-unimarc`.
pub open spec fn site_type_named(name: Seq<char>) -> Option<SiteType> {
    if name == "amusewiki"@ {
        Some(SiteType::Amusewiki)
    } else if name == "koha-marc21"@ {
        Some(SiteType::KohaMarc21)
    } else if name == "koha-unimarc"@ {
        Some(SiteType::KohaUnimarc)
    } else {
        None
    }
}

impl SiteType {
    /// The kind of site that the store names `name`, if it is a name of one.
    pub fn from_name(name: &str) -> (r: Option<SiteType>)
        ensures
            r == site_type_named(name@),
    {
        if str_eq(name, "amusewiki") {
            Some(SiteType::Amusewiki)
        } else if str_eq(name, "koha-marc21") {
            Some(SiteType::KohaMarc21)
        } else if str_eq(name, "koha-unimarc") {
            Some(SiteType::KohaUnimarc)
        } else {
            None
        }
    }

    /// The dialect in which a site of this kind writes its records.
    pub open spec fn dialect(self) -> MetadataType {
        match self {
            SiteType::KohaUnimarc => MetadataType::UniMarc,
            SiteType::KohaMarc21 => MetadataType::Marc21,
            SiteType::Amusewiki => MetadataType::Marc21,
        }
    }
}

/// What a harvest of one site needs to know of it.
#[derive(Debug)]
pub struct HarvestParams {
    pub base_url: String,
    /// Harvest only what changed since this time, in whole seconds since the
    /// start of 1970 in UTC.
    pub from: Option<u64>,
    pub library_id: i32,
    pub site_id: i32,
    pub site_type: SiteType,
}

} // verus!
