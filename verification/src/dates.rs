//! Reading and writing dates.
//!
//! Dates reach the directory as text, either as an RFC 3339 timestamp or as
//! `year-month-day`. Reading and writing them is the work of `chrono`; what
//! it returns is named here, and the rules that choose between the readings
//! are proved over those names.

use vstd::prelude::*;
use vstd::string::*;
use chrono::DateTime;
use chrono::NaiveDate;
use chrono::NaiveDateTime;
use chrono::ParseError;
use chrono::Utc;

verus! {

/// `chrono::NaiveDate`, a calendar date without a time zone.
#[verifier::external_type_specification]
#[verifier::external_body]
pub struct ExNaiveDate(NaiveDate);

/// `chrono::NaiveDateTime`, a calendar date and a time of day without a time
/// zone.
#[verifier::external_type_specification]
#[verifier::external_body]
pub struct ExNaiveDateTime(NaiveDateTime);

/// `Clone::clone` of `chrono::NaiveDateTime`, a type that is `Copy`: the
/// copy is the value itself.
pub assume_specification[ <NaiveDateTime as Clone>::clone ](moment: &NaiveDateTime) -> (copy:
    NaiveDateTime)
    ensures
        copy == *moment,
;

/// `chrono::ParseError`, the reason why a text could not be read.
#[verifier::external_type_specification]
#[verifier::external_body]
pub struct ExParseError(ParseError);

/// A moment read from a timestamp: the date and time in the timestamp's own
/// offset, and the same moment in UTC.
#[derive(Debug)]
pub struct Timestamp {
    pub local: NaiveDateTime,
    pub utc: NaiveDateTime,
}

/// Day, month and year, as documents show them.
pub const DAY_MONTH_YEAR: &'static str = "%d-%m-%Y";

/// Date and time as they stand in the names of exported files.
pub const FILE_STAMP: &'static str = "%Y%m%d_%H%M%S";

/// Year, month and day, as dates are entered.
pub const YEAR_MONTH_DAY: &'static str = "%Y-%m-%d";

/// What `chrono` reads from `text` as an RFC 3339 timestamp: the moment, or
/// the reason why it reads none.
pub uninterp spec fn rfc3339_reading(text: Seq<char>) -> Result<Timestamp, ParseError>;

/// The date that `chrono` reads from `text` by `pattern`, if it reads one.
pub uninterp spec fn parsed_date(text: Seq<char>, pattern: Seq<char>) -> Option<NaiveDate>;

/// What `chrono` writes for `moment` by `pattern`.
pub uninterp spec fn date_time_text(moment: NaiveDateTime, pattern: Seq<char>) -> Seq<char>;

/// What `chrono` writes for `day` by `pattern`.
pub uninterp spec fn date_text(day: NaiveDate, pattern: Seq<char>) -> Seq<char>;

/// `chrono::DateTime::parse_from_rfc3339`. Of a timestamp that it accepts,
/// the date and time are taken both in the timestamp's own offset
/// (`DateTime::naive_local`) and in UTC (`DateTime::naive_utc`); its error
/// is handed on as it is. The result depends on the text alone. A timestamp
/// that is accepted has a year of four digits, so both are in range.
#[verifier::external_body]
pub(crate) fn parse_rfc3339(text: &str) -> (reading: Result<Timestamp, ParseError>)
    ensures
        reading == rfc3339_reading(text@),
{
    match DateTime::parse_from_rfc3339(text) {
        Ok(parsed) => Ok(Timestamp { local: parsed.naive_local(), utc: parsed.naive_utc() }),
        Err(error) => Err(error),
    }
}

/// `chrono::NaiveDate::parse_from_str`. The result depends on the text and
/// the pattern alone; a pattern that `chrono` does not understand reads no
/// date.
#[verifier::external_body]
pub(crate) fn parse_date(text: &str, pattern: &str) -> (day: Option<NaiveDate>)
    ensures
        day == parsed_date(text@, pattern@),
{
    match NaiveDate::parse_from_str(text, pattern) {
        Ok(parsed) => Some(parsed),
        Err(_) => None,
    }
}

/// `chrono::NaiveDateTime::format`, written out. Only the two patterns of
/// this module are admitted: both are understood by `chrono` and ask for
/// nothing that a date and time lacks, so writing cannot fail.
#[verifier::external_body]
pub(crate) fn write_date_time(moment: &NaiveDateTime, pattern: &str) -> (text: String)
    requires
        pattern@ == DAY_MONTH_YEAR@ || pattern@ == FILE_STAMP@,
    ensures
        text@ == date_time_text(*moment, pattern@),
{
    moment.format(pattern).to_string()
}

/// `chrono::NaiveDate::format`, written out. Only the pattern of day, month
/// and year is admitted: a pattern that asks for a time of day cannot be
/// written for a date.
#[verifier::external_body]
pub(crate) fn write_date(day: &NaiveDate, pattern: &str) -> (text: String)
    requires
        pattern@ == DAY_MONTH_YEAR@,
    ensures
        text@ == date_text(*day, pattern@),
{
    day.format(pattern).to_string()
}

/// `chrono::Utc::now`, as date and time in UTC (`DateTime::naive_utc`).
/// Nothing is known of the result: it is whatever the clock says.
#[verifier::external_body]
pub(crate) fn current_time() -> (moment: NaiveDateTime) {
    Utc::now().naive_utc()
}

/// The first of the readings of a date that is there, else the date as it
/// was entered.
pub open spec fn first_reading(
    as_timestamp: Option<Seq<char>>,
    as_date: Option<Seq<char>>,
    entered: Seq<char>,
) -> Seq<char> {
    match as_timestamp {
        Some(text) => text,
        None => match as_date {
            Some(text) => text,
            None => entered,
        },
    }
}

/// `text` read as an RFC 3339 timestamp and written as day, month and year.
pub open spec fn timestamp_reading(text: Seq<char>) -> Option<Seq<char>> {
    match rfc3339_reading(text) {
        Ok(moment) => Some(date_time_text(moment.local, DAY_MONTH_YEAR@)),
        Err(_) => None,
    }
}

/// `text` read as year, month and day and written as day, month and year.
pub open spec fn date_reading(text: Seq<char>) -> Option<Seq<char>> {
    match parsed_date(text, YEAR_MONTH_DAY@) {
        Some(day) => Some(date_text(day, DAY_MONTH_YEAR@)),
        None => None,
    }
}

/// A date as documents show it: day, month and year where the text can be
/// read as a timestamp or, failing that, as a date; else the text itself.
pub open spec fn displayed_date(text: Seq<char>) -> Seq<char> {
    first_reading(timestamp_reading(text), date_reading(text), text)
}

/// The view of an optional string.
pub open spec fn optional_text(text: Option<String>) -> Option<Seq<char>> {
    match text {
        Some(t) => Some(t@),
        None => None,
    }
}

/// Chooses what to show for a date from its two readings.
pub fn choose_reading(as_timestamp: Option<String>, as_date: Option<String>, entered: &str) -> (out:
    String)
    ensures
        out@ == first_reading(optional_text(as_timestamp), optional_text(as_date), entered@),
{
    match as_timestamp {
        Some(text) => text,
        None => match as_date {
            Some(text) => text,
            None => String::from_str(entered),
        },
    }
}

fn read_timestamp(text: &str) -> (out: Option<String>)
    ensures
        optional_text(out) == timestamp_reading(text@),
{
    match parse_rfc3339(text) {
        Ok(moment) => Some(write_date_time(&moment.local, DAY_MONTH_YEAR)),
        Err(_) => None,
    }
}

fn read_date(text: &str) -> (out: Option<String>)
    ensures
        optional_text(out) == date_reading(text@),
{
    match parse_date(text, YEAR_MONTH_DAY) {
        Some(day) => Some(write_date(&day, DAY_MONTH_YEAR)),
        None => None,
    }
}

/// Shows a date as day, month and year where it can be read, and as it was
/// entered where it cannot.
pub fn format_date(date_str: &str) -> (out: String)
    ensures
        out@ == displayed_date(date_str@),
{
    let as_timestamp = read_timestamp(date_str);
    if as_timestamp.is_some() {
        choose_reading(as_timestamp, None, date_str)
    } else {
        let as_date = read_date(date_str);
        choose_reading(as_timestamp, as_date, date_str)
    }
}

/// A timestamp of a stored row that cannot be read.
#[derive(Debug)]
pub struct TimestampError {
    /// The column that holds the timestamp.
    pub column: usize,
    /// Why it cannot be read.
    pub cause: ParseError,
}

/// What a stored timestamp is read as: the moment in UTC, or the column and
/// the reason why it cannot be read.
pub open spec fn row_timestamp(col_index: usize, value: Seq<char>) -> Result<
    NaiveDateTime,
    TimestampError,
> {
    match rfc3339_reading(value) {
        Ok(moment) => Ok(moment.utc),
        Err(cause) => Err(TimestampError { column: col_index, cause }),
    }
}

/// Reads the timestamp that column `col_index` of a row holds as text. It
/// has to be an RFC 3339 timestamp and is read as a moment in UTC.
pub fn parse_datetime_from_row(col_index: usize, value: String) -> (result: Result<
    NaiveDateTime,
    TimestampError,
>)
    ensures
        result == row_timestamp(col_index, value@),
{
    match parse_rfc3339(value.as_str()) {
        Ok(moment) => Ok(moment.utc),
        Err(cause) => Err(TimestampError { column: col_index, cause }),
    }
}

/// Today's date in UTC as day, month and year.
pub fn today_text() -> (out: String)
    ensures
        exists|now: NaiveDateTime| out@ == date_time_text(now, DAY_MONTH_YEAR@),
{
    let now = current_time();
    write_date_time(&now, DAY_MONTH_YEAR)
}

/// The present moment in UTC as it stands in the name of an exported file.
pub fn file_stamp_text() -> (out: String)
    ensures
        exists|now: NaiveDateTime| out@ == date_time_text(now, FILE_STAMP@),
{
    let now = current_time();
    write_date_time(&now, FILE_STAMP)
}

} // verus!
