//! The word sets and brackets that the BigQuery, ClickHouse and Athena
//! dialects change.

use crate::ansi::BracketPair;
use crate::sets::{texts, WordSet};
use vstd::prelude::*;

verus! {

/// The date and time units that BigQuery adds to the ANSI ones.
pub open spec fn bigquery_added_datetime_units() -> Seq<Seq<char>> {
    seq![
        "MICROSECOND"@,
        "MILLISECOND"@,
        "SECOND"@,
        "MINUTE"@,
        "HOUR"@,
        "DAY"@,
        "DAYOFWEEK"@,
        "DAYOFYEAR"@,
        "WEEK"@,
        "ISOWEEK"@,
        "MONTH"@,
        "QUARTER"@,
        "YEAR"@,
        "ISOYEAR"@,
    ]
}

/// BigQuery's date and time units: the ANSI ones and
/// [`bigquery_added_datetime_units`].
pub fn bigquery_datetime_units(units: &mut WordSet)
    ensures
        final(units)@ == old(units)@.union(bigquery_added_datetime_units().to_set()),
{
    let words = [
        "MICROSECOND",
        "MILLISECOND",
        "SECOND",
        "MINUTE",
        "HOUR",
        "DAY",
        "DAYOFWEEK",
        "DAYOFYEAR",
        "WEEK",
        "ISOWEEK",
        "MONTH",
        "QUARTER",
        "YEAR",
        "ISOYEAR",
    ];
    assert(texts(words@) =~= bigquery_added_datetime_units());
    units.extend(&words);
}

/// The units that BigQuery recognises in some functions only (such as
/// `EXTRACT`).
pub fn bigquery_extended_datetime_units() -> (s: WordSet)
    ensures
        s@ == seq!["DATE"@, "DATETIME"@, "TIME"@].to_set(),
{
    let words = ["DATE", "DATETIME", "TIME"];
    assert(texts(words@) =~= seq!["DATE"@, "DATETIME"@, "TIME"@]);
    WordSet::from_words(&words)
}

/// The BigQuery functions that take a date part.
pub open spec fn bigquery_date_part_function_name_list() -> Seq<Seq<char>> {
    seq![
        "DATE_DIFF"@,
        "DATE_TRUNC"@,
        "DATETIME_DIFF"@,
        "DATETIME_TRUNC"@,
        "EXTRACT"@,
        "LAST_DAY"@,
        "TIME_DIFF"@,
        "TIME_TRUNC"@,
        "TIMESTAMP_DIFF"@,
        "TIMESTAMP_TRUNC"@,
    ]
}

/// BigQuery's functions that take a date part: exactly
/// [`bigquery_date_part_function_name_list`], in place of the ANSI ones.
pub fn bigquery_date_part_function_names(names: &mut WordSet)
    ensures
        final(names)@ == bigquery_date_part_function_name_list().to_set(),
{
    let words = [
        "DATE_DIFF",
        "DATE_TRUNC",
        "DATETIME_DIFF",
        "DATETIME_TRUNC",
        "EXTRACT",
        "LAST_DAY",
        "TIME_DIFF",
        "TIME_TRUNC",
        "TIMESTAMP_DIFF",
        "TIMESTAMP_TRUNC",
    ];
    assert(texts(words@) =~= bigquery_date_part_function_name_list());
    names.clear();
    names.extend(&words);
    assert(names@ =~= bigquery_date_part_function_name_list().to_set());
}

/// BigQuery's value table functions: `UNNEST` is one (in `FROM` it gives a
/// column, not a table).
pub fn bigquery_value_table_functions(functions: &mut WordSet)
    ensures
        final(functions)@ == old(functions)@.insert("UNNEST"@),
{
    functions.insert("UNNEST");
}

/// The angle brackets of Athena and BigQuery (`ARRAY<INT64>`), not kept
/// between parser passes.
pub fn angle_bracket_pair() -> (pair: BracketPair)
    ensures
        pair.0@ == "angle"@,
        pair.1@ == "StartAngleBracketSegment"@,
        pair.2@ == "EndAngleBracketSegment"@,
        !pair.3,
{
    ("angle", "StartAngleBracketSegment", "EndAngleBracketSegment", false)
}

/// The date and time units of ClickHouse, with their plural, `SQL_TSI_` and
/// short spellings.
pub open spec fn clickhouse_datetime_unit_list() -> Seq<Seq<char>> {
    seq![
        "NANOSECOND"@,
        "NANOSECONDS"@,
        "SQL_TSI_NANOSECOND"@,
        "NS"@,
        "MICROSECOND"@,
        "MICROSECONDS"@,
        "SQL_TSI_MICROSECOND"@,
        "MCS"@,
        "MILLISECOND"@,
        "MILLISECONDS"@,
        "SQL_TSI_MILLISECOND"@,
        "MS"@,
        "SECOND"@,
        "SECONDS"@,
        "SQL_TSI_SECOND"@,
        "SS"@,
        "S"@,
        "MINUTE"@,
        "MINUTES"@,
        "SQL_TSI_MINUTE"@,
        "MI"@,
        "N"@,
        "HOUR"@,
        "HOURS"@,
        "SQL_TSI_HOUR"@,
        "HH"@,
        "H"@,
        "DAY"@,
        "DAYS"@,
        "SQL_TSI_DAY"@,
        "DD"@,
        "D"@,
        "WEEK"@,
        "WEEKS"@,
        "SQL_TSI_WEEK"@,
        "WK"@,
        "WW"@,
        "MONTH"@,
        "MONTHS"@,
        "SQL_TSI_MONTH"@,
        "MM"@,
        "M"@,
        "QUARTER"@,
        "QUARTERS"@,
        "SQL_TSI_QUARTER"@,
        "QQ"@,
        "Q"@,
        "YEAR"@,
        "YEARS"@,
        "SQL_TSI_YEAR"@,
        "YYYY"@,
        "YY"@,
    ]
}

/// ClickHouse's date and time units: exactly
/// [`clickhouse_datetime_unit_list`], in place of the ANSI ones.
pub fn clickhouse_datetime_units(units: &mut WordSet)
    ensures
        final(units)@ == clickhouse_datetime_unit_list().to_set(),
{
    let words = [
        "NANOSECOND",
        "NANOSECONDS",
        "SQL_TSI_NANOSECOND",
        "NS",
        "MICROSECOND",
        "MICROSECONDS",
        "SQL_TSI_MICROSECOND",
        "MCS",
        "MILLISECOND",
        "MILLISECONDS",
        "SQL_TSI_MILLISECOND",
        "MS",
        "SECOND",
        "SECONDS",
        "SQL_TSI_SECOND",
        "SS",
        "S",
        "MINUTE",
        "MINUTES",
        "SQL_TSI_MINUTE",
        "MI",
        "N",
        "HOUR",
        "HOURS",
        "SQL_TSI_HOUR",
        "HH",
        "H",
        "DAY",
        "DAYS",
        "SQL_TSI_DAY",
        "DD",
        "D",
        "WEEK",
        "WEEKS",
        "SQL_TSI_WEEK",
        "WK",
        "WW",
        "MONTH",
        "MONTHS",
        "SQL_TSI_MONTH",
        "MM",
        "M",
        "QUARTER",
        "QUARTERS",
        "SQL_TSI_QUARTER",
        "QQ",
        "Q",
        "YEAR",
        "YEARS",
        "SQL_TSI_YEAR",
        "YYYY",
        "YY",
    ];
    assert(texts(words@) =~= clickhouse_datetime_unit_list());
    units.clear();
    units.extend(&words);
    assert(units@ =~= clickhouse_datetime_unit_list().to_set());
}

} // verus!
