use iso_country::table::{
    emit_data_mod, emit_enum, emit_enum_impl, emit_search_table, parse_row, parse_table,
    CountryRecord, TableError,
};

fn lines(rows: &[&str]) -> Vec<String> {
    rows.iter().map(|r| r.to_string()).collect()
}

fn record(alpha2: &str, alpha3: &str, name: &str, num: &str) -> CountryRecord {
    CountryRecord {
        alpha2: alpha2.to_string(),
        alpha3: alpha3.to_string(),
        name: name.to_string(),
        num: num.to_string(),
    }
}

#[test]
fn parse_row_splits_four_columns() {
    let rec = parse_row("AF\tAFG\tAfghanistan\t004").unwrap();
    assert_eq!(rec.alpha2, "AF");
    assert_eq!(rec.alpha3, "AFG");
    assert_eq!(rec.name, "Afghanistan");
    assert_eq!(rec.num, "004");
}

#[test]
fn parse_row_keeps_empty_columns() {
    let rec = parse_row("\t\t\t").unwrap();
    assert_eq!(rec.alpha2, "");
    assert_eq!(rec.alpha3, "");
    assert_eq!(rec.name, "");
    assert_eq!(rec.num, "");
}

#[test]
fn parse_row_rejects_wrong_column_counts() {
    assert_eq!(parse_row(""), Err(1));
    assert_eq!(parse_row("AF\tAFG\tAfghanistan"), Err(3));
    assert_eq!(parse_row("a\tb\tc\td\te"), Err(5));
}

#[test]
fn parse_table_skips_header() {
    let input = lines(&[
        "alpha2\talpha3\tname\tnumeric",
        "AF\tAFG\tAfghanistan\t004",
        "AL\tALB\tAlbania\t008",
    ]);
    let recs = parse_table(&input).unwrap();
    assert_eq!(recs.len(), 2);
    assert_eq!(recs[0].alpha2, "AF");
    assert_eq!(recs[1].name, "Albania");
}

#[test]
fn parse_table_of_nothing_is_empty() {
    assert_eq!(parse_table(&lines(&[])).unwrap().len(), 0);
    assert_eq!(
        parse_table(&lines(&["alpha2\talpha3\tname\tnumeric"]))
            .unwrap()
            .len(),
        0
    );
}

#[test]
fn parse_table_rejects_wrong_column_count() {
    let input = lines(&[
        "alpha2\talpha3\tname\tnumeric",
        "AF\tAFG\tAfghanistan\t004",
        "AL\tALB",
    ]);
    assert_eq!(
        parse_table(&input),
        Err(TableError::WrongColumnCount {
            row: 1,
            columns: 2
        })
    );
}

#[test]
fn parse_table_rejects_duplicate_alpha2() {
    let input = lines(&[
        "alpha2\talpha3\tname\tnumeric",
        "AF\tAFG\tAfghanistan\t004",
        "AF\tALB\tAlbania\t008",
    ]);
    assert_eq!(
        parse_table(&input),
        Err(TableError::DuplicateAlpha2 {
            row: 1,
            alpha2: "AF".to_string()
        })
    );
}

#[test]
fn parse_table_rejects_duplicate_numeric() {
    let input = lines(&[
        "alpha2\talpha3\tname\tnumeric",
        "AF\tAFG\tAfghanistan\t004",
        "AL\tALB\tAlbania\t004",
    ]);
    assert_eq!(
        parse_table(&input),
        Err(TableError::DuplicateNumeric {
            row: 1,
            num: "004".to_string()
        })
    );
}

#[test]
fn emit_enum_renders_tags() {
    let recs = vec![record("AF", "AFG", "Afghanistan", "004")];
    let expected = "#[derive(Copy, Clone, Debug, PartialEq, Eq, PartialOrd, Ord, Hash)]\n\
                    pub enum Country {\n    Unspecified = 0,\n    #[doc(hidden)]\n    AF = 004,\n}\n\n";
    assert_eq!(emit_enum(&recs), expected);
}

#[test]
fn emit_search_table_renders_sentinel_first() {
    let recs = vec![
        record("AF", "AFG", "Afghanistan", "004"),
        record("AL", "ALB", "Albania", "008"),
    ];
    let expected = "const COUNTRY_CODE_SEARCH_TABLE : &[(&str, Country)] = &[\n   (\"\",    Country::Unspecified),\n    (\"AF\",  Country::AF),\n    (\"AL\",  Country::AL),\n];\n\n";
    assert_eq!(emit_search_table(&recs), expected);
}

#[test]
fn emit_enum_impl_renders_both_lookups() {
    let recs = vec![record("PL", "POL", "Poland", "616")];
    let expected = "impl Country {\n    pub fn name(self) -> &'static str {\n        match self {\n            Country::Unspecified => \"\",\n            Country::PL => \"Poland\",\n        }\n    }\n    pub fn from_name(s: &str) -> Option<Country> {\n        Some(match s {\n            \"Poland\" => Country::PL,\n            _ => return None,\n        })\n    }\n}\n";
    assert_eq!(emit_enum_impl(&recs), expected);
}

#[test]
fn emit_data_mod_renders_records() {
    let recs = vec![record("PL", "POL", "Poland", "616")];
    let expected = "pub mod data {\npub struct CountryCode<'a> {\n    pub alpha2: &'a str,\n    pub alpha3: &'a str,\n    pub name: &'a str,\n    pub num: &'a str,\n}\npub fn all<'a>() -> Vec<CountryCode<'a>> {\n    let mut codes: Vec<CountryCode> = vec![];\n    codes.push(CountryCode {\n        alpha2: \"PL\",\n        alpha3: \"POL\",\n        name: \"Poland\",\n        num: \"616\",\n    });\n    codes\n}\n}\n";
    assert_eq!(emit_data_mod(&recs), expected);
}

#[test]
fn emitters_on_no_records() {
    let recs: Vec<CountryRecord> = vec![];
    assert_eq!(
        emit_enum(&recs),
        "#[derive(Copy, Clone, Debug, PartialEq, Eq, PartialOrd, Ord, Hash)]\npub enum Country {\n    Unspecified = 0,\n}\n\n"
    );
    assert_eq!(
        emit_search_table(&recs),
        "const COUNTRY_CODE_SEARCH_TABLE : &[(&str, Country)] = &[\n   (\"\",    Country::Unspecified),\n];\n\n"
    );
}

#[test]
fn regeneration_is_deterministic() {
    let input = lines(&[
        "alpha2\talpha3\tname\tnumeric",
        "AF\tAFG\tAfghanistan\t004",
        "AL\tALB\tAlbania\t008",
    ]);
    let first = parse_table(&input).unwrap();
    let second = parse_table(&input).unwrap();
    assert_eq!(emit_enum(&first), emit_enum(&second));
    assert_eq!(emit_search_table(&first), emit_search_table(&second));
    assert_eq!(emit_enum_impl(&first), emit_enum_impl(&second));
    assert_eq!(emit_data_mod(&first), emit_data_mod(&second));
}
