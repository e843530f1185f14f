//! The laws of the country tables, stated and proved once and for all.
//!
//! Each lemma here is a public statement about the specification functions
//! that the executable contracts are written over, so a caller can compose
//! them with the contracts of `Country::parse`, `Country::from_name` and
//! the accessors.

use vstd::prelude::*;
use vstd::std_specs::cmp::PartialOrdSpec;

use crate::country::{spec_alpha2, spec_display, spec_name, spec_numeric, Country};
use crate::data::{lemma_dataset_matches_country, spec_dataset, spec_row_index};
use crate::inverse::{
    lemma_from_name_complete, lemma_from_name_sound, lemma_numeric_complete, lemma_parse_complete,
    lemma_parse_sound, spec_from_numeric,
};
use crate::lookup::{spec_from_name, spec_parse};

verus! {

/// Round trip: parsing the displayed form of any country — its alpha-2
/// code, or the empty string for the sentinel — yields that same country.
pub proof fn lemma_display_parse_round_trip(c: Country)
    ensures
        spec_parse(spec_display(c)) == Some(c),
{
    lemma_parse_complete(c);
}

/// A successful parse returns a country whose displayed form is exactly
/// the parsed string.
pub proof fn lemma_parse_display_round_trip(s: Seq<char>)
    ensures
        spec_parse(s) matches Some(c) ==> spec_display(c) == s,
{
    lemma_parse_sound(s);
}

/// Sentinel: the empty string parses to `Unspecified`, and `Unspecified`
/// displays as the empty string and has the empty name.
pub proof fn lemma_unspecified_sentinel()
    ensures
        spec_parse(Seq::<char>::empty()) == Some(Country::Unspecified),
        spec_display(Country::Unspecified) == Seq::<char>::empty(),
        spec_name(Country::Unspecified) == Seq::<char>::empty(),
{
    reveal_strlit("");
    assert(""@ =~= Seq::<char>::empty());
}

/// Alpha-2 codes identify countries: no two values share a code.
pub proof fn lemma_alpha2_injective(c1: Country, c2: Country)
    ensures
        spec_alpha2(c1) == spec_alpha2(c2) ==> c1 == c2,
{
    lemma_parse_complete(c1);
    lemma_parse_complete(c2);
}

/// Bijection between countries and names: looking up the name of any
/// country other than the sentinel yields that same country, and a
/// successful lookup returns a country carrying the looked-up name.
pub proof fn lemma_name_bijection(c: Country, s: Seq<char>)
    ensures
        c != Country::Unspecified ==> spec_from_name(spec_name(c)) == Some(c),
        spec_from_name(s) matches Some(c2) ==> spec_name(c2) == s,
{
    lemma_from_name_complete(c);
    lemma_from_name_sound(s);
}

/// Names identify countries: no two values share a name.
pub proof fn lemma_name_injective(c1: Country, c2: Country)
    ensures
        spec_name(c1) == spec_name(c2) ==> c1 == c2,
{
    lemma_from_name_complete(c1);
    lemma_from_name_complete(c2);
    if spec_name(c1) == spec_name(c2) && c1 != c2 {
        reveal_strlit("");
        if c1 == Country::Unspecified {
            // c2 would be found under the empty name, which no lookup returns.
            assert(spec_name(c2).len() == 0);
            assert(spec_from_name(spec_name(c2)) is None);
        } else if c2 == Country::Unspecified {
            assert(spec_name(c1).len() == 0);
            assert(spec_from_name(spec_name(c1)) is None);
        }
    }
}

/// Round trip over the dataset itself: the alpha-2 code stored in a
/// country's dataset row parses back to that country, and the name
/// stored there looks it up again.
pub proof fn lemma_dataset_round_trip(c: Country)
    ensures
        c != Country::Unspecified ==> spec_parse(spec_dataset()[spec_row_index(c)].alpha2@)
            == Some(c),
        c != Country::Unspecified ==> spec_from_name(spec_dataset()[spec_row_index(c)].name@)
            == Some(c),
{
    lemma_dataset_matches_country(c);
    lemma_parse_complete(c);
    lemma_from_name_complete(c);
}

/// Total order by numeric code: numeric codes identify countries, the
/// sentinel carries code 0 and every real country a positive code, and
/// comparison of two values is exactly comparison of their numeric codes.
pub proof fn lemma_ordered_by_numeric(c1: Country, c2: Country)
    ensures
        (spec_numeric(c1) == spec_numeric(c2)) <==> (c1 == c2),
        spec_numeric(Country::Unspecified) == 0,
        c1 != Country::Unspecified ==> spec_numeric(c1) > 0,
        c1.partial_cmp_spec(&c2) == Some(core::cmp::Ordering::Equal) <==> c1 == c2,
        c1.partial_cmp_spec(&c2) == Some(core::cmp::Ordering::Less) <==> spec_numeric(c1)
            < spec_numeric(c2),
        c1.partial_cmp_spec(&c2) == Some(core::cmp::Ordering::Greater) <==> spec_numeric(c1)
            > spec_numeric(c2),
{
    lemma_numeric_complete(c1);
    lemma_numeric_complete(c2);
    if c1 != Country::Unspecified && spec_numeric(c1) <= 0 {
        assert(spec_from_numeric(spec_numeric(c1)) == Some(c1));
        assert(false);
    }
}

} // verus!
