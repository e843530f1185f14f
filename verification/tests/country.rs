use iso_country::data::all;
use iso_country::{Country, CountryParseError};

#[test]
fn from_to_str() {
    let c: Country = "ZW".parse().unwrap();
    assert_eq!("ZW", c.display());
    let c: Country = "PL".parse().unwrap();
    assert_eq!("PL", c.display());
    let c: Country = "".parse().unwrap();
    assert_eq!("", c.display());
}

#[test]
fn name() {
    assert_eq!("Poland", Country::PL.name());
    assert_eq!("", Country::Unspecified.name());
}

#[test]
fn parse_poland_scenario() {
    let c = Country::parse("PL").unwrap();
    assert_eq!(c, Country::PL);
    assert_eq!(c.name(), "Poland");
    assert_eq!(c.display(), "PL");
}

#[test]
fn parse_is_case_sensitive() {
    let e = Country::parse("ru").unwrap_err();
    assert_eq!(e, CountryParseError::InvalidCountryCode("ru".to_string()));
}

#[test]
fn parse_unknown_code() {
    let e = Country::parse("ZZ").unwrap_err();
    assert_eq!(e, CountryParseError::InvalidCountryCode("ZZ".to_string()));
}

#[test]
fn parse_rejects_wrong_lengths() {
    let e = Country::parse("P").unwrap_err();
    assert_eq!(e, CountryParseError::InvalidCountryCode("P".to_string()));
    let e = Country::parse("PLL").unwrap_err();
    assert_eq!(e, CountryParseError::InvalidCountryCode("PLL".to_string()));
}

#[test]
fn parse_error_description() {
    let e = Country::parse("no such code").unwrap_err();
    assert_eq!(e.description(), "error parsing country code");
}

#[test]
fn empty_string_is_unspecified() {
    assert_eq!(Country::parse(""), Ok(Country::Unspecified));
    assert_eq!(Country::Unspecified.display(), "");
    assert_eq!(Country::Unspecified.name(), "");
    assert_eq!(Country::Unspecified.alpha2(), "");
    assert_eq!(Country::Unspecified.alpha3(), "");
    assert_eq!(Country::Unspecified.numeric(), 0);
}

#[test]
fn from_name_miss_is_not_an_error() {
    assert_eq!(Country::from_name("Atlantis"), None);
    assert_eq!(Country::from_name(""), None);
    assert_eq!(Country::from_name("poland"), None);
}

#[test]
fn from_name_hit() {
    assert_eq!(Country::from_name("Poland"), Some(Country::PL));
    assert_eq!(Country::from_name("Afghanistan"), Some(Country::AF));
    assert_eq!(Country::from_name("Zimbabwe"), Some(Country::ZW));
}

#[test]
fn accessors() {
    assert_eq!(Country::PL.alpha2(), "PL");
    assert_eq!(Country::PL.alpha3(), "POL");
    assert_eq!(Country::PL.numeric(), 616);
    assert_eq!(Country::AF.alpha2(), "AF");
    assert_eq!(Country::AF.alpha3(), "AFG");
    assert_eq!(Country::AF.numeric(), 4);
    assert_eq!(Country::ZW.alpha3(), "ZWE");
    assert_eq!(Country::ZW.numeric(), 716);
}

#[test]
fn ordered_by_numeric_code() {
    assert!(Country::Unspecified < Country::AF);
    assert!(Country::AF < Country::AL);
    assert!(Country::AL < Country::PL);
    assert!(Country::PL > Country::AF);
    assert_eq!(
        Country::PL.partial_cmp(&Country::PL),
        Some(std::cmp::Ordering::Equal)
    );
}

#[test]
fn round_trip_over_whole_dataset() {
    let rows = all();
    assert_eq!(rows.len(), 249);
    for row in rows {
        let c = Country::parse(row.alpha2).unwrap();
        assert_eq!(c.display(), row.alpha2);
        assert_eq!(c.alpha2(), row.alpha2);
        assert_eq!(c.alpha3(), row.alpha3);
        assert_eq!(c.name(), row.name);
        assert_eq!(c.numeric(), row.num.parse::<u16>().unwrap());
        assert_eq!(Country::from_name(row.name), Some(c));
        assert!(Country::Unspecified < c);
    }
}

#[test]
fn dataset_is_sorted_by_numeric_code() {
    let rows = all();
    for pair in rows.windows(2) {
        let a = Country::parse(pair[0].alpha2).unwrap();
        let b = Country::parse(pair[1].alpha2).unwrap();
        assert!(a.numeric() < b.numeric());
        assert!(a < b);
    }
}

#[test]
fn dataset_first_row() {
    let rows = all();
    assert_eq!(rows[0].alpha2, "AF");
    assert_eq!(rows[0].alpha3, "AFG");
    assert_eq!(rows[0].name, "Afghanistan");
    assert_eq!(rows[0].num, "004");
}
