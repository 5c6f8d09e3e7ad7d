//! Rows of the similarity report export.

use vstd::prelude::*;
use crate::text::{decimal, i64_to_decimal, padded, signed_decimal};

verus! {

/// The column titles of the similarity report.
pub fn headers() -> (r: Vec<String>)
    ensures
        r@.len() == 6,
        r@[0]@ == "Codigo"@,
        r@[1]@ == "Emissora"@,
        r@[2]@ == "Horario"@,
        r@[3]@ == "Propaganda"@,
        r@[4]@ == "Score"@,
        r@[5]@ == "Similaridade"@,
{
    let mut r: Vec<String> = Vec::new();
    r.push(String::from_str("Codigo"));
    r.push(String::from_str("Emissora"));
    r.push(String::from_str("Horario"));
    r.push(String::from_str("Propaganda"));
    r.push(String::from_str("Score"));
    r.push(String::from_str("Similaridade"));
    r
}

/// A cell's text, or `-` when the value is missing.
pub open spec fn cell(value: Option<String>) -> Seq<char> {
    match value {
        Some(v) => v@,
        None => "-"@,
    }
}

/// The name of what std's `str::to_uppercase` returns: the Unicode uppercase mapping of
/// each character.
pub uninterp spec fn unicode_uppercase(s: Seq<char>) -> Seq<char>;

/// `s` in uppercase (std `str::to_uppercase`).
/// Trusted: the result is a function of `s` alone, named `unicode_uppercase`.
#[verifier::external_body]
fn to_uppercase(s: &str) -> (r: String)
    ensures
        r@ == unicode_uppercase(s@),
{
    s.to_uppercase()
}

/// A calendar date and clock time to the minute, as the report shows it.
#[derive(Clone, Copy, Debug, PartialEq, Eq)]
pub struct AirTime {
    pub year: i32,
    pub month: u32,
    pub day: u32,
    pub hour: u32,
    pub minute: u32,
}

/// `year` is a leap year of the proleptic Gregorian calendar.
pub open spec fn is_leap_year(year: int) -> bool {
    year % 4 == 0 && (year % 100 != 0 || year % 400 == 0)
}

/// The number of days of `month` in `year`.
pub open spec fn days_in_month(year: int, month: int) -> int {
    if month == 2 {
        if is_leap_year(year) {
            29
        } else {
            28
        }
    } else if month == 4 || month == 6 || month == 9 || month == 11 {
        30
    } else {
        31
    }
}

/// The date exists and lies in chrono's years -262143 to 262142, and the time of day exists.
pub open spec fn air_time_exists(year: i32, month: u32, day: u32, hour: u32, minute: u32) -> bool {
    &&& -262_143 <= year <= 262_142
    &&& 1 <= month <= 12
    &&& 1 <= day <= days_in_month(year as int, month as int)
    &&& hour < 24
    &&& minute < 60
}

/// A year as chrono's `%Y` writes it: four digits, zero-padded, for the years 0 to 9999,
/// otherwise a sign and at least four digits.
pub open spec fn year_text(year: int) -> Seq<char> {
    if 0 <= year <= 9999 {
        padded(year as nat, 4)
    } else {
        let magnitude: nat = if year < 0 {
            (-year) as nat
        } else {
            year as nat
        };
        (if year < 0 {
            "-"@
        } else {
            "+"@
        }) + if magnitude < 10000 {
            padded(magnitude, 4)
        } else {
            decimal(magnitude)
        }
    }
}

/// What chrono writes for a date and time in the form `%d/%m/%Y %H:%M`, or `None` when
/// `NaiveDate::from_ymd_opt` or `and_hms_opt` refuses it.
pub open spec fn air_time_text(year: i32, month: u32, day: u32, hour: u32, minute: u32) -> Option<
    Seq<char>,
> {
    if air_time_exists(year, month, day, hour, minute) {
        Some(
            padded(day as nat, 2) + "/"@ + padded(month as nat, 2) + "/"@ + year_text(year as int)
                + " "@ + padded(hour as nat, 2) + ":"@ + padded(minute as nat, 2),
        )
    } else {
        None
    }
}

/// The air time as the report shows it (chrono `NaiveDate::from_ymd_opt`, `and_hms_opt` at
/// second 0, then `format("%d/%m/%Y %H:%M")`).
/// Trusted: as chrono documents and its source shows, the date is refused when its year lies
/// outside -262143 to 262142 or the day does not exist in the Gregorian calendar, the time
/// when the hour or minute is out of range; otherwise day, month, hour and minute are written
/// with two digits and the year as `%Y` writes it (`write_year`).
#[verifier::external_body]
fn format_air_time(year: i32, month: u32, day: u32, hour: u32, minute: u32) -> (r: Option<String>)
    ensures
        match r {
            Some(t) => air_time_text(year, month, day, hour, minute) == Some(t@),
            None => air_time_text(year, month, day, hour, minute) is None,
        },
{
    let date = chrono::NaiveDate::from_ymd_opt(year, month, day)?;
    let time = date.and_hms_opt(hour, minute, 0)?;
    Some(time.format("%d/%m/%Y %H:%M").to_string())
}

/// The air-time cell: the formatted time, or `-` when there is none or chrono refuses it.
pub open spec fn air_time_cell(aired_at: Option<AirTime>) -> Seq<char> {
    match aired_at {
        Some(t) => match air_time_text(t.year, t.month, t.day, t.hour, t.minute) {
            Some(text) => text,
            None => "-"@,
        },
        None => "-"@,
    }
}

fn air_time_cell_text(aired_at: Option<AirTime>) -> (r: String)
    ensures
        r@ == air_time_cell(aired_at),
{
    match aired_at {
        Some(t) => match format_air_time(t.year, t.month, t.day, t.hour, t.minute) {
            Some(text) => text,
            None => String::from_str("-"),
        },
        None => String::from_str("-"),
    }
}

fn cell_text(value: Option<String>) -> (r: String)
    ensures
        r@ == cell(value),
{
    match value {
        Some(v) => v,
        None => String::from_str("-"),
    }
}

/// One row of the report: the record's id, the station's name, the air time, the
/// advertisement's name in uppercase, the score as displayed and the similarity level;
/// a missing value shows as `-`.
pub fn export_row(
    id: i32,
    station: Option<String>,
    aired_at: Option<AirTime>,
    advertisement: Option<String>,
    score: Option<String>,
    level: String,
) -> (r: Vec<String>)
    ensures
        r@.len() == 6,
        r@[0]@ == signed_decimal(id as int),
        r@[1]@ == cell(station),
        r@[2]@ == air_time_cell(aired_at),
        r@[3]@ == (match advertisement {
            Some(a) => unicode_uppercase(a@),
            None => "-"@,
        }),
        r@[4]@ == cell(score),
        r@[5] == level,
{
    let mut r: Vec<String> = Vec::new();
    r.push(i64_to_decimal(id as i64));
    r.push(cell_text(station));
    r.push(air_time_cell_text(aired_at));
    let name = match advertisement {
        Some(a) => to_uppercase(a.as_str()),
        None => String::from_str("-"),
    };
    r.push(name);
    r.push(cell_text(score));
    r.push(level);
    r
}

} // verus!
