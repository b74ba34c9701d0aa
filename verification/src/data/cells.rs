//! How the numbers behind dates and times of day are written for display.

use crate::text::{zero_padded, zero_padded_text};
use chrono::{Datelike, Timelike};
use serde_json::Value;
use vstd::prelude::*;
use vstd::string::StringExecFns;

verus! {

/// The quotient of `a` by a positive `b`, rounded towards zero.
pub open spec fn trunc_div(a: int, b: int) -> int {
    if a >= 0 {
        a / b
    } else {
        -((-a) / b)
    }
}

/// What is left of `a` after `trunc_div`; it has the sign of `a`.
pub open spec fn trunc_rem(a: int, b: int) -> int {
    if a >= 0 {
        a % b
    } else {
        -((-a) % b)
    }
}

/// A date number as text: the number without its last four digits as
/// the year, the next two digits as the month, the last two as the day,
/// with hyphens between them.
pub open spec fn date_number_text(d: int) -> Seq<char> {
    zero_padded(trunc_div(d, 10000), 4) + seq!['-'] + zero_padded(
        trunc_div(trunc_rem(d, 10000), 100),
        2,
    ) + seq!['-'] + zero_padded(trunc_rem(d, 100), 2)
}

/// The nanoseconds of an hour, a minute and a second.
pub const NANOS_PER_HOUR: u64 = 3_600_000_000_000;

pub const NANOS_PER_MINUTE: u64 = 60_000_000_000;

pub const NANOS_PER_SECOND: u64 = 1_000_000_000;

/// A count of nanoseconds since midnight as text: hours, minutes and
/// seconds, two digits each, with colons between them.
pub open spec fn time_of_day_text(t: int) -> Seq<char> {
    zero_padded(trunc_div(t, NANOS_PER_HOUR as int), 2) + seq![':'] + zero_padded(
        trunc_div(trunc_rem(t, NANOS_PER_HOUR as int), NANOS_PER_MINUTE as int),
        2,
    ) + seq![':'] + zero_padded(
        trunc_div(trunc_rem(t, NANOS_PER_MINUTE as int), NANOS_PER_SECOND as int),
        2,
    )
}

/// The magnitude of a number.
pub fn magnitude(n: i64) -> (m: u64)
    ensures
        m as int == if n >= 0 {
            n as int
        } else {
            -(n as int)
        },
{
    if n >= 0 {
        n as u64
    } else if n == i64::MIN {
        9_223_372_036_854_775_808u64
    } else {
        (-n) as u64
    }
}

/// Writes a date number: year, month and day, with hyphens.
pub fn format_date_number(d: i32) -> (s: String)
    ensures
        s@ == date_number_text(d as int),
{
    let negative = d < 0;
    let m = magnitude(d as i64);
    proof {
        reveal_strlit("-");
    }
    let mut s = zero_padded_text(negative, m / 10000, 4);
    s.append("-");
    s.append(zero_padded_text(negative, (m % 10000) / 100, 2).as_str());
    s.append("-");
    s.append(zero_padded_text(negative, m % 100, 2).as_str());
    assert(m % 100 == (m % 10000) % 100) by (nonlinear_arith)
        requires
            m >= 0,
    ;
    s
}

/// Writes a time of day: hours, minutes and seconds, with colons.
pub fn format_time_of_day(t: i64) -> (s: String)
    ensures
        s@ == time_of_day_text(t as int),
{
    let negative = t < 0;
    let m = magnitude(t);
    proof {
        reveal_strlit(":");
    }
    let mut s = zero_padded_text(negative, m / NANOS_PER_HOUR, 2);
    s.append(":");
    s.append(zero_padded_text(negative, (m % NANOS_PER_HOUR) / NANOS_PER_MINUTE, 2).as_str());
    s.append(":");
    s.append(zero_padded_text(negative, (m % NANOS_PER_MINUTE) / NANOS_PER_SECOND, 2).as_str());
    s
}

/// The unit in which a moment is counted.
#[derive(Clone, Copy, Debug, PartialEq, Eq, Structural)]
pub enum TimeUnit {
    Nanoseconds,
    Microseconds,
    Milliseconds,
}

impl TimeUnit {
    /// How many units make a second.
    pub open spec fn per_second(self) -> int {
        match self {
            TimeUnit::Nanoseconds => 1_000_000_000,
            TimeUnit::Microseconds => 1_000_000,
            TimeUnit::Milliseconds => 1_000,
        }
    }
}

/// One cell of a table, as the values that a display needs of it.
#[derive(Debug)]
pub enum CellValue {
    /// A missing value.
    Null,
    Boolean(bool),
    Text(String),
    UInt(u64),
    Int(i64),
    /// A value that is JSON already, such as a fraction.
    Json(Value),
    /// A date number.
    Date(i32),
    /// A moment, counted in `unit` since 1970.
    Datetime { value: i64, unit: TimeUnit },
    /// A time of day, in nanoseconds since midnight.
    Time(i64),
    /// Any other value, as the engine prints it.
    Other(String),
}

/// The JSON string that holds `text`.
pub uninterp spec fn json_text_of(text: Seq<char>) -> Value;

/// The JSON value of an optional truth value: `null` for none.
pub uninterp spec fn json_bool_of(value: Option<bool>) -> Value;

/// The JSON number of an unsigned whole number.
pub uninterp spec fn json_unsigned_of(n: u64) -> Value;

/// The JSON number of a signed whole number.
pub uninterp spec fn json_signed_of(n: i64) -> Value;

/// The date and the time of day, in UTC, of the moment `secs` seconds
/// after the beginning of 1970: year, month, day, hour, minute, second.
/// `None` for a moment outside the calendar's range.
pub uninterp spec fn utc_parts_of(secs: i64) -> Option<(i32, u32, u32, u32, u32, u32)>;

/// `Value::from` of `serde_json` on an `Option<bool>`: `Value::Null` for
/// `None`, `Value::Bool` otherwise.
#[verifier::external_body]
fn json_bool(value: Option<bool>) -> (json: Value)
    ensures
        json == json_bool_of(value),
{
    Value::from(value)
}

/// `Value::from` of `serde_json` on a `u64`: the number of that value.
#[verifier::external_body]
fn json_unsigned(n: u64) -> (json: Value)
    ensures
        json == json_unsigned_of(n),
{
    Value::from(n)
}

/// `Value::from` of `serde_json` on an `i64`: the number of that value.
#[verifier::external_body]
fn json_signed(n: i64) -> (json: Value)
    ensures
        json == json_signed_of(n),
{
    Value::from(n)
}

/// `Value::String` of `serde_json`: the JSON string that holds `text`.
#[verifier::external_body]
pub(crate) fn json_string(text: String) -> (json: Value)
    ensures
        json == json_text_of(text@),
{
    Value::String(text)
}

/// `DateTime::from_timestamp` of `chrono` with no nanoseconds, read
/// through `Datelike` and `Timelike` on its `naive_utc`.
#[verifier::external_body]
fn utc_parts(secs: i64) -> (parts: Option<(i32, u32, u32, u32, u32, u32)>)
    ensures
        parts == utc_parts_of(secs),
{
    chrono::DateTime::from_timestamp(secs, 0).map(
        |t| {
            let n = t.naive_utc();
            (n.year(), n.month(), n.day(), n.hour(), n.minute(), n.second())
        },
    )
}

/// A moment as text: the date with hyphens, a space, the time of day
/// with colons.
pub open spec fn moment_text(parts: (i32, u32, u32, u32, u32, u32)) -> Seq<char> {
    zero_padded(parts.0 as int, 4) + seq!['-'] + zero_padded(parts.1 as int, 2) + seq!['-']
        + zero_padded(parts.2 as int, 2) + seq![' '] + zero_padded(parts.3 as int, 2) + seq![':']
        + zero_padded(parts.4 as int, 2) + seq![':'] + zero_padded(parts.5 as int, 2)
}

/// Writes a moment from its parts.
pub fn format_moment(parts: (i32, u32, u32, u32, u32, u32)) -> (s: String)
    ensures
        s@ == moment_text(parts),
{
    proof {
        reveal_strlit("-");
        reveal_strlit(" ");
        reveal_strlit(":");
    }
    let mut s = zero_padded_text(parts.0 < 0, magnitude(parts.0 as i64), 4);
    s.append("-");
    s.append(zero_padded_text(false, parts.1 as u64, 2).as_str());
    s.append("-");
    s.append(zero_padded_text(false, parts.2 as u64, 2).as_str());
    s.append(" ");
    s.append(zero_padded_text(false, parts.3 as u64, 2).as_str());
    s.append(":");
    s.append(zero_padded_text(false, parts.4 as u64, 2).as_str());
    s.append(":");
    s.append(zero_padded_text(false, parts.5 as u64, 2).as_str());
    s
}

/// The whole seconds of a count in `unit`, rounded towards zero.
pub fn whole_seconds(value: i64, unit: TimeUnit) -> (secs: i64)
    ensures
        secs as int == trunc_div(value as int, unit.per_second()),
{
    let per: u64 = match unit {
        TimeUnit::Nanoseconds => 1_000_000_000,
        TimeUnit::Microseconds => 1_000_000,
        TimeUnit::Milliseconds => 1_000,
    };
    let m = magnitude(value) / per;
    if value < 0 {
        -(m as i64)
    } else {
        m as i64
    }
}

/// The text that shows a moment counted in `unit`: its date and time of
/// day in UTC, or the count itself where the calendar does not reach.
pub open spec fn datetime_text(value: i64, unit: TimeUnit) -> Seq<char> {
    match utc_parts_of(trunc_div(value as int, unit.per_second()) as i64) {
        Some(parts) => moment_text(parts),
        None => zero_padded(value as int, 0),
    }
}

/// The JSON value that shows a cell.
pub open spec fn json_of_cell(cell: CellValue) -> Value {
    match cell {
        CellValue::Null => json_bool_of(None),
        CellValue::Boolean(b) => json_bool_of(Some(b)),
        CellValue::Text(text) => json_text_of(text@),
        CellValue::UInt(n) => json_unsigned_of(n),
        CellValue::Int(n) => json_signed_of(n),
        CellValue::Json(json) => json,
        CellValue::Date(d) => json_text_of(date_number_text(d as int)),
        CellValue::Datetime { value, unit } => json_text_of(datetime_text(value, unit)),
        CellValue::Time(t) => json_text_of(time_of_day_text(t as int)),
        CellValue::Other(text) => json_text_of(text@),
    }
}

/// Turns a cell into the JSON value that shows it: a missing value into
/// `null`, truth values, texts and whole numbers into themselves, dates,
/// moments and times of day into their texts.
pub fn cell_to_json(cell: CellValue) -> (json: Value)
    ensures
        json == json_of_cell(cell),
{
    match cell {
        CellValue::Null => json_bool(None),
        CellValue::Boolean(b) => json_bool(Some(b)),
        CellValue::Text(text) => json_string(text),
        CellValue::UInt(n) => json_unsigned(n),
        CellValue::Int(n) => json_signed(n),
        CellValue::Json(json) => json,
        CellValue::Date(d) => json_string(format_date_number(d)),
        CellValue::Datetime { value, unit } => {
            let text = match utc_parts(whole_seconds(value, unit)) {
                Some(parts) => format_moment(parts),
                None => zero_padded_text(value < 0, magnitude(value), 0),
            };
            json_string(text)
        },
        CellValue::Time(t) => json_string(format_time_of_day(t)),
        CellValue::Other(text) => json_string(text),
    }
}

/// The JSON values that show the cells of a row, in order.
pub open spec fn json_of_row(cells: Seq<CellValue>) -> Seq<Value> {
    Seq::new(cells.len(), |i: int| json_of_cell(cells[i]))
}

/// Turns the cells of a row into the JSON values that show them.
pub fn row_to_json(cells: Vec<CellValue>) -> (row: Vec<Value>)
    ensures
        row@ == json_of_row(cells@),
{
    let ghost given = cells@;
    let mut row: Vec<Value> = Vec::new();
    for cell in it: cells
        invariant
            it.seq() == given,
            row@.len() == it.index(),
            forall|k: int| 0 <= k < it.index() ==> row@[k] == json_of_cell(given[k]),
    {
        row.push(cell_to_json(cell));
    }
    assert(row@ =~= json_of_row(given));
    row
}

} // verus!
