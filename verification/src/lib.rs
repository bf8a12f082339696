//! Harvesting of bibliographic records: the record model, the extraction of
//! catalogue fields from their positional form, and the rules that drive a
//! harvest.

pub mod aggregation;
pub mod checksum;
pub mod diacritics;
pub mod digest;
pub mod harvest;
pub mod language;
pub mod marc;
pub mod patterns;
pub mod record;
pub mod request;
pub mod site;
pub mod store;
pub mod text;
pub mod uri;
pub mod years;
