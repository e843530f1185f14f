//! The table compiler: parses a tab-separated dataset into country
//! records, checks it, and renders the generated lookup artifacts.
//!
//! The dataset is a header row followed by one row per country with four
//! tab-separated columns: alpha-2 code, alpha-3 code, English short name,
//! numeric code.  A row with the wrong column count, or a duplicate
//! alpha-2 or numeric code, aborts the whole generation with a
//! descriptive error; there is no partial success.

use vstd::prelude::*;
use vstd::string::{StrSliceExecFns, StringExecFns};

use crate::text::str_eq;

verus! {

/// One parsed dataset row: owned copies of its four columns.
#[derive(Debug, PartialEq, Eq)]
pub struct CountryRecord {
    pub alpha2: String,
    pub alpha3: String,
    pub name: String,
    pub num: String,
}

/// Error aborting table generation.
#[derive(Debug, PartialEq, Eq)]
pub enum TableError {
    /// A data row does not split into exactly four columns; carries the
    /// index of the data row (0 for the first row after the header) and
    /// the column count found.
    WrongColumnCount { row: usize, columns: usize },
    /// A data row repeats the alpha-2 code of an earlier data row;
    /// carries the index of the offending row and the code.
    DuplicateAlpha2 { row: usize, alpha2: String },
    /// A data row repeats the numeric code of an earlier data row;
    /// carries the index of the offending row and the code.
    DuplicateNumeric { row: usize, num: String },
}

/// The segments of `s` between occurrences of `sep`: splitting the empty
/// string gives one empty segment, and each separator ends the segment
/// before it.
pub open spec fn spec_split(s: Seq<char>, sep: char) -> Seq<Seq<char>>
    decreases s.len(),
{
    if s.len() == 0 {
        seq![s]
    } else if s[0] == sep {
        seq![Seq::<char>::empty()].add(spec_split(s.drop_first(), sep))
    } else {
        let rest = spec_split(s.drop_first(), sep);
        seq![seq![s[0]].add(rest[0])].add(rest.drop_first())
    }
}

/// The columns of a dataset row: its split at tab characters.
pub open spec fn spec_columns(line: Seq<char>) -> Seq<Seq<char>> {
    spec_split(line, '\t')
}

/// A string without the separator splits into the single segment that is
/// the string itself.
proof fn lemma_split_no_sep(s: Seq<char>, sep: char)
    requires
        forall|i: int| 0 <= i < s.len() ==> s[i] != sep,
    ensures
        spec_split(s, sep) == seq![s],
    decreases s.len(),
{
    if s.len() == 0 {
        assert(spec_split(s, sep) == seq![s]);
    } else {
        lemma_split_no_sep(s.drop_first(), sep);
        assert(seq![s[0]].add(s.drop_first()) =~= s);
        assert(seq![s.drop_first()].drop_first() =~= Seq::<Seq<char>>::empty());
        assert(spec_split(s, sep) =~= seq![s]);
    }
}

/// Splitting at the first separator: a separator-free prefix becomes the
/// first segment and the rest splits on its own.
proof fn lemma_split_at_sep(a: Seq<char>, b: Seq<char>, sep: char)
    requires
        forall|i: int| 0 <= i < a.len() ==> a[i] != sep,
    ensures
        spec_split(a.add(seq![sep]).add(b), sep) == seq![a].add(spec_split(b, sep)),
    decreases a.len(),
{
    let s = a.add(seq![sep]).add(b);
    if a.len() == 0 {
        assert(s.drop_first() =~= b);
        assert(s[0] == sep);
        assert(a =~= Seq::<char>::empty());
        assert(seq![Seq::<char>::empty()] =~= seq![a]);
        assert(spec_split(s, sep) == seq![a].add(spec_split(b, sep)));
    } else {
        assert(s[0] == a[0]);
        assert(s[0] != sep);
        assert(s.drop_first() =~= a.drop_first().add(seq![sep]).add(b));
        lemma_split_at_sep(a.drop_first(), b, sep);
        let rest = spec_split(s.drop_first(), sep);
        assert(rest == seq![a.drop_first()].add(spec_split(b, sep)));
        assert(rest[0] == a.drop_first());
        assert(seq![s[0]].add(a.drop_first()) =~= a);
        assert(rest.drop_first() =~= spec_split(b, sep));
        assert(spec_split(s, sep) =~= seq![a].add(spec_split(b, sep)));
    }
}

/// The start of segment `m` of a split whose separators sit at `tabs`.
spec fn seg_start(tabs: Seq<int>, m: int) -> int {
    if m == 0 {
        0
    } else {
        tabs[m - 1] + 1
    }
}

/// The end of segment `m` of a split of a string of length `slen` whose
/// separators sit at `tabs`.
spec fn seg_end(tabs: Seq<int>, slen: int, m: int) -> int {
    if m == tabs.len() {
        slen
    } else {
        tabs[m]
    }
}

/// A split is determined by the positions of its separators: given the
/// increasing, exhaustive list of them, there is one segment more than
/// there are separators and segment `m` is the subrange between its
/// neighbouring separators.
proof fn lemma_split_positions(s: Seq<char>, sep: char, tabs: Seq<int>)
    requires
        forall|k1: int, k2: int| 0 <= k1 < k2 < tabs.len() ==> tabs[k1] < tabs[k2],
        forall|k: int| 0 <= k < tabs.len() ==> 0 <= tabs[k] < s.len() && s[tabs[k]] == sep,
        forall|j: int|
            0 <= j < s.len() && s[j] == sep ==> exists|k: int| 0 <= k < tabs.len() && tabs[k]
                == j,
    ensures
        spec_split(s, sep).len() == tabs.len() + 1,
        forall|m: int|
            0 <= m <= tabs.len() ==> #[trigger] spec_split(s, sep)[m] == s.subrange(
                seg_start(tabs, m),
                seg_end(tabs, s.len() as int, m),
            ),
    decreases tabs.len(),
{
    if tabs.len() == 0 {
        assert forall|i: int| 0 <= i < s.len() implies s[i] != sep by {
            if s[i] == sep {
                let k = choose|k: int| 0 <= k < tabs.len() && tabs[k] == i;
            }
        }
        lemma_split_no_sep(s, sep);
        assert(s.subrange(0, s.len() as int) =~= s);
    } else {
        let t0 = tabs[0];
        let a = s.subrange(0, t0);
        let b = s.subrange(t0 + 1, s.len() as int);
        assert forall|i: int| 0 <= i < a.len() implies a[i] != sep by {
            if a[i] == sep {
                let k = choose|k: int| 0 <= k < tabs.len() && tabs[k] == i;
                if k > 0 {
                    assert(tabs[0] < tabs[k]);
                }
            }
        }
        assert(s =~= a.add(seq![sep]).add(b));
        lemma_split_at_sep(a, b, sep);
        let tabs2 = Seq::new((tabs.len() - 1) as nat, |k: int| tabs[k + 1] - (t0 + 1));
        assert forall|j: int|
            0 <= j < b.len() && b[j] == sep implies exists|k: int|
            0 <= k < tabs2.len() && tabs2[k] == j by {
            assert(s[t0 + 1 + j] == sep);
            let k = choose|k: int| 0 <= k < tabs.len() && tabs[k] == t0 + 1 + j;
            if k == 0 {
                assert(t0 == t0 + 1 + j);
            } else {
                assert(tabs2[k - 1] == j);
            }
        }
        lemma_split_positions(b, sep, tabs2);
        assert(spec_split(s, sep) == seq![a].add(spec_split(b, sep)));
        assert forall|m: int|
            0 <= m <= tabs.len() implies #[trigger] spec_split(s, sep)[m] == s.subrange(
            seg_start(tabs, m),
            seg_end(tabs, s.len() as int, m),
        ) by {
            if m == 0 {
                assert(spec_split(s, sep)[0] == a);
            } else {
                assert(spec_split(s, sep)[m] == spec_split(b, sep)[m - 1]);
                assert(spec_split(b, sep)[m - 1] == b.subrange(
                    seg_start(tabs2, m - 1),
                    seg_end(tabs2, b.len() as int, m - 1),
                ));
                assert(b.subrange(
                    seg_start(tabs2, m - 1),
                    seg_end(tabs2, b.len() as int, m - 1),
                ) =~= s.subrange(seg_start(tabs, m), seg_end(tabs, s.len() as int, m)));
            }
        }
    }
}

/// Returns the positions of every tab character of `s`, in increasing
/// order and exhaustively.
fn tab_positions(s: &str) -> (r: Vec<usize>)
    ensures
        r@.len() <= s@.len(),
        forall|k1: int, k2: int| 0 <= k1 < k2 < r@.len() ==> r@[k1] < r@[k2],
        forall|k: int| 0 <= k < r@.len() ==> r@[k] < s@.len() && s@[r@[k] as int] == '\t',
        forall|j: int|
            0 <= j < s@.len() && s@[j] == '\t' ==> exists|k: int|
                0 <= k < r@.len() && r@[k] == j,
{
    let n = s.unicode_len();
    let mut r: Vec<usize> = Vec::new();
    let mut i: usize = 0;
    while i < n
        invariant
            n == s@.len(),
            i <= n,
            r@.len() <= i,
            forall|k1: int, k2: int| 0 <= k1 < k2 < r@.len() ==> r@[k1] < r@[k2],
            forall|k: int| 0 <= k < r@.len() ==> r@[k] < i && s@[r@[k] as int] == '\t',
            forall|j: int|
                0 <= j < i && s@[j] == '\t' ==> exists|k: int| 0 <= k < r@.len() && r@[k] == j,
        decreases n - i,
    {
        let c = s.get_char(i);
        let ghost r0 = r@;
        if c == '\t' {
            r.push(i);
        }
        proof {
            assert forall|j: int| 0 <= j <= i && s@[j] == '\t' implies exists|k: int|
                0 <= k < r@.len() && r@[k] == j by {
                if j < i {
                    let k = choose|k: int| 0 <= k < r0.len() && r0[k] == j;
                    assert(r@[k] == j);
                } else {
                    assert(r@[r@.len() - 1] == i);
                }
            }
        }
        i = i + 1;
    }
    r
}

/// Splits one data row into its four columns; a row with any other
/// column count is rejected, returning the count found.
pub fn parse_row(line: &str) -> (r: Result<CountryRecord, usize>)
    requires
        line@.len() < usize::MAX,
    ensures
        match r {
            Ok(rec) => spec_columns(line@) == seq![
                rec.alpha2@,
                rec.alpha3@,
                rec.name@,
                rec.num@,
            ],
            Err(columns) => columns == spec_columns(line@).len() && columns != 4,
        },
{
    let tabs = tab_positions(line);
    let n = line.unicode_len();
    let ghost tabs_int = Seq::new(tabs@.len(), |k: int| tabs@[k] as int);
    proof {
        assert forall|j: int| 0 <= j < line@.len() && line@[j] == '\t' implies exists|k: int|
            0 <= k < tabs_int.len() && tabs_int[k] == j by {
            let k = choose|k: int| 0 <= k < tabs@.len() && tabs@[k] == j;
            assert(tabs_int[k] == j);
        }
        lemma_split_positions(line@, '\t', tabs_int);
    }
    if tabs.len() != 3 {
        return Err(tabs.len() + 1);
    }
    let t0 = tabs[0];
    let t1 = tabs[1];
    let t2 = tabs[2];
    let alpha2 = line.substring_char(0, t0).to_owned();
    let alpha3 = line.substring_char(t0 + 1, t1).to_owned();
    let name = line.substring_char(t1 + 1, t2).to_owned();
    let num = line.substring_char(t2 + 1, n).to_owned();
    let rec = CountryRecord { alpha2, alpha3, name, num };
    proof {
        assert(spec_columns(line@)[0] == rec.alpha2@);
        assert(spec_columns(line@)[1] == rec.alpha3@);
        assert(spec_columns(line@)[2] == rec.name@);
        assert(spec_columns(line@)[3] == rec.num@);
        assert(spec_columns(line@) =~= seq![rec.alpha2@, rec.alpha3@, rec.name@, rec.num@]);
    }
    Ok(rec)
}

/// Parses a whole dataset: a header line followed by one four-column row
/// per country.  The header is skipped and never inspected; an empty
/// input yields no records.  A row with the wrong column count, or one
/// repeating the alpha-2 or numeric code of an earlier row, aborts the
/// parse with the corresponding error.
pub fn parse_table(lines: &Vec<String>) -> (r: Result<Vec<CountryRecord>, TableError>)
    requires
        forall|i: int| 0 <= i < lines@.len() ==> lines@[i]@.len() < usize::MAX,
    ensures
        match r {
            Ok(recs) => {
                &&& recs@.len() == if lines@.len() == 0 {
                    0int
                } else {
                    lines@.len() - 1
                }
                &&& forall|k: int|
                    0 <= k < recs@.len() ==> #[trigger] spec_columns(lines@[k + 1]@) == seq![
                        recs@[k].alpha2@,
                        recs@[k].alpha3@,
                        recs@[k].name@,
                        recs@[k].num@,
                    ]
                &&& forall|k1: int, k2: int|
                    0 <= k1 < k2 < recs@.len() ==> recs@[k1].alpha2@ != recs@[k2].alpha2@
                &&& forall|k1: int, k2: int|
                    0 <= k1 < k2 < recs@.len() ==> recs@[k1].num@ != recs@[k2].num@
            },
            Err(TableError::WrongColumnCount { row, columns }) => {
                &&& row + 1 < lines@.len()
                &&& spec_columns(lines@[row + 1]@).len() == columns
                &&& columns != 4
                &&& forall|k: int|
                    0 <= k < row ==> (#[trigger] spec_columns(lines@[k + 1]@)).len() == 4
            },
            Err(TableError::DuplicateAlpha2 { row, alpha2 }) => {
                &&& row + 1 < lines@.len()
                &&& alpha2@ == spec_columns(lines@[row + 1]@)[0]
                &&& exists|k: int|
                    0 <= k < row && #[trigger] spec_columns(lines@[k + 1]@)[0] == alpha2@
            },
            Err(TableError::DuplicateNumeric { row, num }) => {
                &&& row + 1 < lines@.len()
                &&& num@ == spec_columns(lines@[row + 1]@)[3]
                &&& exists|k: int|
                    0 <= k < row && #[trigger] spec_columns(lines@[k + 1]@)[3] == num@
            },
        },
{
    let mut recs: Vec<CountryRecord> = Vec::new();
    if lines.len() == 0 {
        return Ok(recs);
    }
    let mut i: usize = 1;
    while i < lines.len()
        invariant
            1 <= i <= lines@.len(),
            forall|idx: int| 0 <= idx < lines@.len() ==> lines@[idx]@.len() < usize::MAX,
            recs@.len() == i - 1,
            forall|k: int|
                0 <= k < recs@.len() ==> #[trigger] spec_columns(lines@[k + 1]@) == seq![
                    recs@[k].alpha2@,
                    recs@[k].alpha3@,
                    recs@[k].name@,
                    recs@[k].num@,
                ],
            forall|k1: int, k2: int|
                0 <= k1 < k2 < recs@.len() ==> recs@[k1].alpha2@ != recs@[k2].alpha2@,
            forall|k1: int, k2: int|
                0 <= k1 < k2 < recs@.len() ==> recs@[k1].num@ != recs@[k2].num@,
        decreases lines@.len() - i,
    {
        let rec = match parse_row(lines[i].as_str()) {
            Ok(rec) => rec,
            Err(columns) => {
                return Err(TableError::WrongColumnCount { row: i - 1, columns });
            },
        };
        let mut j: usize = 0;
        while j < recs.len()
            invariant
                1 <= i < lines@.len(),
                recs@.len() == i - 1,
                j <= recs@.len(),
                spec_columns(lines@[i as int]@) == seq![
                    rec.alpha2@,
                    rec.alpha3@,
                    rec.name@,
                    rec.num@,
                ],
                forall|k: int|
                    0 <= k < recs@.len() ==> #[trigger] spec_columns(lines@[k + 1]@) == seq![
                        recs@[k].alpha2@,
                        recs@[k].alpha3@,
                        recs@[k].name@,
                        recs@[k].num@,
                    ],
                forall|k: int| 0 <= k < j ==> recs@[k].alpha2@ != rec.alpha2@,
            decreases recs@.len() - j,
        {
            if str_eq(recs[j].alpha2.as_str(), rec.alpha2.as_str()) {
                proof {
                    assert(spec_columns(lines@[i as int]@)[0] == rec.alpha2@);
                    assert(spec_columns(lines@[j + 1]@)[0] == rec.alpha2@);
                }
                return Err(TableError::DuplicateAlpha2 { row: i - 1, alpha2: rec.alpha2 });
            }
            j = j + 1;
        }
        let mut j2: usize = 0;
        while j2 < recs.len()
            invariant
                1 <= i < lines@.len(),
                recs@.len() == i - 1,
                j2 <= recs@.len(),
                spec_columns(lines@[i as int]@) == seq![
                    rec.alpha2@,
                    rec.alpha3@,
                    rec.name@,
                    rec.num@,
                ],
                forall|k: int|
                    0 <= k < recs@.len() ==> #[trigger] spec_columns(lines@[k + 1]@) == seq![
                        recs@[k].alpha2@,
                        recs@[k].alpha3@,
                        recs@[k].name@,
                        recs@[k].num@,
                    ],
                forall|k: int| 0 <= k < j2 ==> recs@[k].num@ != rec.num@,
            decreases recs@.len() - j2,
        {
            if str_eq(recs[j2].num.as_str(), rec.num.as_str()) {
                proof {
                    assert(spec_columns(lines@[i as int]@)[3] == rec.num@);
                    assert(spec_columns(lines@[j2 + 1]@)[3] == rec.num@);
                }
                return Err(TableError::DuplicateNumeric { row: i - 1, num: rec.num });
            }
            j2 = j2 + 1;
        }
        recs.push(rec);
        i = i + 1;
    }
    Ok(recs)
}

/// The generated enumeration entry of one record.
pub open spec fn spec_enum_row(rec: CountryRecord) -> Seq<char> {
    "    #[doc(hidden)]\n    "@ + rec.alpha2@ + " = "@ + rec.num@ + ",\n"@
}

/// The concatenation of [`spec_enum_row`] over `rows`, in order.
pub open spec fn spec_enum_rows(rows: Seq<CountryRecord>) -> Seq<char>
    decreases rows.len(),
{
    if rows.len() == 0 {
        Seq::empty()
    } else {
        spec_enum_row(rows[0]) + spec_enum_rows(rows.drop_first())
    }
}

proof fn lemma_enum_rows_push(rows: Seq<CountryRecord>, rec: CountryRecord)
    ensures
        spec_enum_rows(rows.push(rec)) == spec_enum_rows(rows) + spec_enum_row(rec),
    decreases rows.len(),
{
    if rows.len() == 0 {
        assert(rows.push(rec).drop_first() =~= rows);
        assert(spec_enum_rows(rows.push(rec)) =~= spec_enum_rows(rows) + spec_enum_row(rec));
    } else {
        assert(rows.push(rec).drop_first() =~= rows.drop_first().push(rec));
        lemma_enum_rows_push(rows.drop_first(), rec);
        assert(spec_enum_rows(rows.push(rec)) =~= spec_enum_rows(rows) + spec_enum_row(rec));
    }
}

/// The generated search-table entry of one record.
pub open spec fn spec_search_row(rec: CountryRecord) -> Seq<char> {
    "    (\""@ + rec.alpha2@ + "\",  Country::"@ + rec.alpha2@ + "),\n"@
}

/// The concatenation of [`spec_search_row`] over `rows`, in order.
pub open spec fn spec_search_rows(rows: Seq<CountryRecord>) -> Seq<char>
    decreases rows.len(),
{
    if rows.len() == 0 {
        Seq::empty()
    } else {
        spec_search_row(rows[0]) + spec_search_rows(rows.drop_first())
    }
}

proof fn lemma_search_rows_push(rows: Seq<CountryRecord>, rec: CountryRecord)
    ensures
        spec_search_rows(rows.push(rec)) == spec_search_rows(rows) + spec_search_row(rec),
    decreases rows.len(),
{
    if rows.len() == 0 {
        assert(rows.push(rec).drop_first() =~= rows);
        assert(spec_search_rows(rows.push(rec)) =~= spec_search_rows(rows) + spec_search_row(rec));
    } else {
        assert(rows.push(rec).drop_first() =~= rows.drop_first().push(rec));
        lemma_search_rows_push(rows.drop_first(), rec);
        assert(spec_search_rows(rows.push(rec)) =~= spec_search_rows(rows) + spec_search_row(rec));
    }
}

/// The generated name-lookup match arm of one record.
pub open spec fn spec_name_arm(rec: CountryRecord) -> Seq<char> {
    "            Country::"@ + rec.alpha2@ + " => \""@ + rec.name@ + "\",\n"@
}

/// The concatenation of [`spec_name_arm`] over `rows`, in order.
pub open spec fn spec_name_arms(rows: Seq<CountryRecord>) -> Seq<char>
    decreases rows.len(),
{
    if rows.len() == 0 {
        Seq::empty()
    } else {
        spec_name_arm(rows[0]) + spec_name_arms(rows.drop_first())
    }
}

proof fn lemma_name_arms_push(rows: Seq<CountryRecord>, rec: CountryRecord)
    ensures
        spec_name_arms(rows.push(rec)) == spec_name_arms(rows) + spec_name_arm(rec),
    decreases rows.len(),
{
    if rows.len() == 0 {
        assert(rows.push(rec).drop_first() =~= rows);
        assert(spec_name_arms(rows.push(rec)) =~= spec_name_arms(rows) + spec_name_arm(rec));
    } else {
        assert(rows.push(rec).drop_first() =~= rows.drop_first().push(rec));
        lemma_name_arms_push(rows.drop_first(), rec);
        assert(spec_name_arms(rows.push(rec)) =~= spec_name_arms(rows) + spec_name_arm(rec));
    }
}

/// The generated inverse name-lookup match arm of one record.
pub open spec fn spec_from_name_arm(rec: CountryRecord) -> Seq<char> {
    "            \""@ + rec.name@ + "\" => Country::"@ + rec.alpha2@ + ",\n"@
}

/// The concatenation of [`spec_from_name_arm`] over `rows`, in order.
pub open spec fn spec_from_name_arms(rows: Seq<CountryRecord>) -> Seq<char>
    decreases rows.len(),
{
    if rows.len() == 0 {
        Seq::empty()
    } else {
        spec_from_name_arm(rows[0]) + spec_from_name_arms(rows.drop_first())
    }
}

proof fn lemma_from_name_arms_push(rows: Seq<CountryRecord>, rec: CountryRecord)
    ensures
        spec_from_name_arms(rows.push(rec)) == spec_from_name_arms(rows) + spec_from_name_arm(rec),
    decreases rows.len(),
{
    if rows.len() == 0 {
        assert(rows.push(rec).drop_first() =~= rows);
        assert(spec_from_name_arms(rows.push(rec)) =~= spec_from_name_arms(rows) + spec_from_name_arm(rec));
    } else {
        assert(rows.push(rec).drop_first() =~= rows.drop_first().push(rec));
        lemma_from_name_arms_push(rows.drop_first(), rec);
        assert(spec_from_name_arms(rows.push(rec)) =~= spec_from_name_arms(rows) + spec_from_name_arm(rec));
    }
}

/// The generated dataset entry of one record.
pub open spec fn spec_data_row(rec: CountryRecord) -> Seq<char> {
    "    codes.push(CountryCode {\n        alpha2: \""@ + rec.alpha2@ + "\",\n        alpha3: \""@ + rec.alpha3@ + "\",\n        name: \""@ + rec.name@ + "\",\n        num: \""@ + rec.num@ + "\",\n    });\n"@
}

/// The concatenation of [`spec_data_row`] over `rows`, in order.
pub open spec fn spec_data_rows(rows: Seq<CountryRecord>) -> Seq<char>
    decreases rows.len(),
{
    if rows.len() == 0 {
        Seq::empty()
    } else {
        spec_data_row(rows[0]) + spec_data_rows(rows.drop_first())
    }
}

proof fn lemma_data_rows_push(rows: Seq<CountryRecord>, rec: CountryRecord)
    ensures
        spec_data_rows(rows.push(rec)) == spec_data_rows(rows) + spec_data_row(rec),
    decreases rows.len(),
{
    if rows.len() == 0 {
        assert(rows.push(rec).drop_first() =~= rows);
        assert(spec_data_rows(rows.push(rec)) =~= spec_data_rows(rows) + spec_data_row(rec));
    } else {
        assert(rows.push(rec).drop_first() =~= rows.drop_first().push(rec));
        lemma_data_rows_push(rows.drop_first(), rec);
        assert(spec_data_rows(rows.push(rec)) =~= spec_data_rows(rows) + spec_data_row(rec));
    }
}

/// The generated closed enumeration: one tag per record, tagged by numeric code, with the sentinel first.
pub open spec fn spec_emit_enum(rows: Seq<CountryRecord>) -> Seq<char> {
    "#[derive(Copy, Clone, Debug, PartialEq, Eq, PartialOrd, Ord, Hash)]\npub enum Country {\n    Unspecified = 0,\n"@ + spec_enum_rows(rows) + "}\n\n"@
}

/// Renders the artifact described by [`spec_emit_enum`].
pub fn emit_enum(recs: &Vec<CountryRecord>) -> (r: String)
    ensures
        r@ == spec_emit_enum(recs@),
{
    let mut out = String::new();
    out.append("#[derive(Copy, Clone, Debug, PartialEq, Eq, PartialOrd, Ord, Hash)]\npub enum Country {\n    Unspecified = 0,\n");
    let mut i: usize = 0;
    while i < recs.len()
        invariant
            i <= recs@.len(),
            out@ == "#[derive(Copy, Clone, Debug, PartialEq, Eq, PartialOrd, Ord, Hash)]\npub enum Country {\n    Unspecified = 0,\n"@ + spec_enum_rows(recs@.take(i as int)),
        decreases recs@.len() - i,
    {
        out.append("    #[doc(hidden)]\n    ");
        out.append(recs[i].alpha2.as_str());
        out.append(" = ");
        out.append(recs[i].num.as_str());
        out.append(",\n");
        proof {
            assert(recs@.take(i + 1) =~= recs@.take(i as int).push(recs@[i as int]));
            lemma_enum_rows_push(recs@.take(i as int), recs@[i as int]);
            assert(out@ =~= "#[derive(Copy, Clone, Debug, PartialEq, Eq, PartialOrd, Ord, Hash)]\npub enum Country {\n    Unspecified = 0,\n"@ + spec_enum_rows(recs@.take(i + 1)));
        }
        i = i + 1;
    }
    proof {
        assert(recs@.take(recs@.len() as int) =~= recs@);
    }
    out.append("}\n\n");
    out
}

/// The generated search table: (alpha-2, tag) pairs with the sentinel entry first.
pub open spec fn spec_emit_search_table(rows: Seq<CountryRecord>) -> Seq<char> {
    "const COUNTRY_CODE_SEARCH_TABLE : &[(&str, Country)] = &[\n   (\"\",    Country::Unspecified),\n"@ + spec_search_rows(rows) + "];\n\n"@
}

/// Renders the artifact described by [`spec_emit_search_table`].
pub fn emit_search_table(recs: &Vec<CountryRecord>) -> (r: String)
    ensures
        r@ == spec_emit_search_table(recs@),
{
    let mut out = String::new();
    out.append("const COUNTRY_CODE_SEARCH_TABLE : &[(&str, Country)] = &[\n   (\"\",    Country::Unspecified),\n");
    let mut i: usize = 0;
    while i < recs.len()
        invariant
            i <= recs@.len(),
            out@ == "const COUNTRY_CODE_SEARCH_TABLE : &[(&str, Country)] = &[\n   (\"\",    Country::Unspecified),\n"@ + spec_search_rows(recs@.take(i as int)),
        decreases recs@.len() - i,
    {
        out.append("    (\"");
        out.append(recs[i].alpha2.as_str());
        out.append("\",  Country::");
        out.append(recs[i].alpha2.as_str());
        out.append("),\n");
        proof {
            assert(recs@.take(i + 1) =~= recs@.take(i as int).push(recs@[i as int]));
            lemma_search_rows_push(recs@.take(i as int), recs@[i as int]);
            assert(out@ =~= "const COUNTRY_CODE_SEARCH_TABLE : &[(&str, Country)] = &[\n   (\"\",    Country::Unspecified),\n"@ + spec_search_rows(recs@.take(i + 1)));
        }
        i = i + 1;
    }
    proof {
        assert(recs@.take(recs@.len() as int) =~= recs@);
    }
    out.append("];\n\n");
    out
}

/// The generated dataset module: the records themselves, re-rendered as source.
pub open spec fn spec_emit_data_mod(rows: Seq<CountryRecord>) -> Seq<char> {
    "pub mod data {\npub struct CountryCode<'a> {\n    pub alpha2: &'a str,\n    pub alpha3: &'a str,\n    pub name: &'a str,\n    pub num: &'a str,\n}\npub fn all<'a>() -> Vec<CountryCode<'a>> {\n    let mut codes: Vec<CountryCode> = vec![];\n"@ + spec_data_rows(rows) + "    codes\n}\n}\n"@
}

/// Renders the artifact described by [`spec_emit_data_mod`].
pub fn emit_data_mod(recs: &Vec<CountryRecord>) -> (r: String)
    ensures
        r@ == spec_emit_data_mod(recs@),
{
    let mut out = String::new();
    out.append("pub mod data {\npub struct CountryCode<'a> {\n    pub alpha2: &'a str,\n    pub alpha3: &'a str,\n    pub name: &'a str,\n    pub num: &'a str,\n}\npub fn all<'a>() -> Vec<CountryCode<'a>> {\n    let mut codes: Vec<CountryCode> = vec![];\n");
    let mut i: usize = 0;
    while i < recs.len()
        invariant
            i <= recs@.len(),
            out@ == "pub mod data {\npub struct CountryCode<'a> {\n    pub alpha2: &'a str,\n    pub alpha3: &'a str,\n    pub name: &'a str,\n    pub num: &'a str,\n}\npub fn all<'a>() -> Vec<CountryCode<'a>> {\n    let mut codes: Vec<CountryCode> = vec![];\n"@ + spec_data_rows(recs@.take(i as int)),
        decreases recs@.len() - i,
    {
        out.append("    codes.push(CountryCode {\n        alpha2: \"");
        out.append(recs[i].alpha2.as_str());
        out.append("\",\n        alpha3: \"");
        out.append(recs[i].alpha3.as_str());
        out.append("\",\n        name: \"");
        out.append(recs[i].name.as_str());
        out.append("\",\n        num: \"");
        out.append(recs[i].num.as_str());
        out.append("\",\n    });\n");
        proof {
            assert(recs@.take(i + 1) =~= recs@.take(i as int).push(recs@[i as int]));
            lemma_data_rows_push(recs@.take(i as int), recs@[i as int]);
            assert(out@ =~= "pub mod data {\npub struct CountryCode<'a> {\n    pub alpha2: &'a str,\n    pub alpha3: &'a str,\n    pub name: &'a str,\n    pub num: &'a str,\n}\npub fn all<'a>() -> Vec<CountryCode<'a>> {\n    let mut codes: Vec<CountryCode> = vec![];\n"@ + spec_data_rows(recs@.take(i + 1)));
        }
        i = i + 1;
    }
    proof {
        assert(recs@.take(recs@.len() as int) =~= recs@);
    }
    out.append("    codes\n}\n}\n");
    out
}

/// The generated name tables: the forward name lookup as an exhaustive
/// match and the inverse lookup returning an optional result.
pub open spec fn spec_emit_enum_impl(rows: Seq<CountryRecord>) -> Seq<char> {
    "impl Country {\n    pub fn name(self) -> &'static str {\n        match self {\n            Country::Unspecified => \"\",\n"@ + spec_name_arms(rows) + "        }\n    }\n    pub fn from_name(s: &str) -> Option<Country> {\n        Some(match s {\n"@ + spec_from_name_arms(rows) + "            _ => return None,\n        })\n    }\n}\n"@
}

/// Renders the artifact described by [`spec_emit_enum_impl`].
pub fn emit_enum_impl(recs: &Vec<CountryRecord>) -> (r: String)
    ensures
        r@ == spec_emit_enum_impl(recs@),
{
    let mut out = String::new();
    out.append("impl Country {\n    pub fn name(self) -> &'static str {\n        match self {\n            Country::Unspecified => \"\",\n");
    let mut i: usize = 0;
    while i < recs.len()
        invariant
            i <= recs@.len(),
            out@ == "impl Country {\n    pub fn name(self) -> &'static str {\n        match self {\n            Country::Unspecified => \"\",\n"@ + spec_name_arms(recs@.take(i as int)),
        decreases recs@.len() - i,
    {
        out.append("            Country::");
        out.append(recs[i].alpha2.as_str());
        out.append(" => \"");
        out.append(recs[i].name.as_str());
        out.append("\",\n");
        proof {
            assert(recs@.take(i + 1) =~= recs@.take(i as int).push(recs@[i as int]));
            lemma_name_arms_push(recs@.take(i as int), recs@[i as int]);
            assert(out@ =~= "impl Country {\n    pub fn name(self) -> &'static str {\n        match self {\n            Country::Unspecified => \"\",\n"@ + spec_name_arms(recs@.take(i + 1)));
        }
        i = i + 1;
    }
    proof {
        assert(recs@.take(recs@.len() as int) =~= recs@);
    }
    out.append("        }\n    }\n    pub fn from_name(s: &str) -> Option<Country> {\n        Some(match s {\n");
    let mut i: usize = 0;
    while i < recs.len()
        invariant
            i <= recs@.len(),
            out@ == "impl Country {\n    pub fn name(self) -> &'static str {\n        match self {\n            Country::Unspecified => \"\",\n"@ + spec_name_arms(recs@) + "        }\n    }\n    pub fn from_name(s: &str) -> Option<Country> {\n        Some(match s {\n"@ + spec_from_name_arms(recs@.take(i as int)),
        decreases recs@.len() - i,
    {
        out.append("            \"");
        out.append(recs[i].name.as_str());
        out.append("\" => Country::");
        out.append(recs[i].alpha2.as_str());
        out.append(",\n");
        proof {
            assert(recs@.take(i + 1) =~= recs@.take(i as int).push(recs@[i as int]));
            lemma_from_name_arms_push(recs@.take(i as int), recs@[i as int]);
            assert(out@ =~= "impl Country {\n    pub fn name(self) -> &'static str {\n        match self {\n            Country::Unspecified => \"\",\n"@ + spec_name_arms(recs@) + "        }\n    }\n    pub fn from_name(s: &str) -> Option<Country> {\n        Some(match s {\n"@ + spec_from_name_arms(recs@.take(i + 1)));
        }
        i = i + 1;
    }
    proof {
        assert(recs@.take(recs@.len() as int) =~= recs@);
    }
    out.append("            _ => return None,\n        })\n    }\n}\n");
    out
}

} // verus!
