//! ISO 3166-1 country identifiers.
//!
//! A closed, exhaustive mapping between the two-letter code, three-letter
//! code, numeric code and English short name of every country, together
//! with a sentinel [`Country::Unspecified`] value whose numeric code is 0
//! and whose textual forms are all empty.
//!
//! Parsing ([`Country::parse`]) accepts exactly the alpha-2 codes of the
//! dataset, plus the empty string for the sentinel; formatting
//! ([`Country::display`]) returns the alpha-2 code. Name lookup runs in
//! both directions ([`Country::name`], [`Country::from_name`]).
//!
//! The [`table`] module holds the table compiler: it parses the rows of
//! a tab-separated dataset into country records, rejects malformed or
//! duplicated rows, and renders the generated lookup artifacts.

pub mod country;
pub mod data;
pub mod laws;
pub mod lookup;
pub mod table;

mod inverse;
mod order;
mod text;

pub use crate::country::Country;
pub use crate::lookup::CountryParseError;
