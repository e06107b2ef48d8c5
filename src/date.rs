//! Calendar dates as plain values, checked and produced through chrono.

use chrono::Datelike;
use vstd::prelude::*;

verus! {

/// The earliest year a calendar date may have.
pub const MIN_YEAR: i32 = -262143;

/// The latest year a calendar date may have.
pub const MAX_YEAR: i32 = 262142;

pub open spec fn is_leap_year(y: int) -> bool {
    (y % 4 == 0 && y % 100 != 0) || y % 400 == 0
}

pub open spec fn days_in_month(y: int, m: int) -> int {
    if m == 2 {
        if is_leap_year(y) { 29 } else { 28 }
    } else if m == 4 || m == 6 || m == 9 || m == 11 {
        30
    } else {
        31
    }
}

/// Whether year, month and day name an existing day of the proleptic
/// Gregorian calendar within the supported range of years.
pub open spec fn valid_ymd(y: int, m: int, d: int) -> bool {
    &&& MIN_YEAR <= y <= MAX_YEAR
    &&& 1 <= m <= 12
    &&& 1 <= d <= days_in_month(y, m)
}

/// What chrono reads from a text in the form "YYYY-MM-DD".
pub uninterp spec fn iso_date_of(s: Seq<char>) -> Option<(int, int, int)>;

/// What chrono writes for a date with the format "%F".
pub uninterp spec fn iso_text_of(ymd: (int, int, int)) -> Seq<char>;

/// A calendar date.
#[derive(Debug, Clone, Copy, PartialEq, Eq, Structural)]
pub struct Date {
    pub year: i32,
    pub month: u32,
    pub day: u32,
}

impl Date {
    pub open spec fn wf(&self) -> bool {
        valid_ymd(self.year as int, self.month as int, self.day as int)
    }

    pub open spec fn ymd(&self) -> (int, int, int) {
        (self.year as int, self.month as int, self.day as int)
    }

    /// The date with the given year, month and day, if that day exists.
    pub fn from_ymd(year: i32, month: u32, day: u32) -> (r: Option<Date>)
        ensures
            r is Some <==> valid_ymd(year as int, month as int, day as int),
            r is Some ==> r->0 == (Date { year, month, day }),
    {
        if ymd_exists(year, month, day) {
            Some(Date { year, month, day })
        } else {
            None
        }
    }

    /// Whether the date names an existing day.
    pub fn is_valid(&self) -> (r: bool)
        ensures
            r == self.wf(),
    {
        ymd_exists(self.year, self.month, self.day)
    }

    /// The current day in UTC.
    pub fn today() -> (r: Date)
        ensures
            r.wf(),
    {
        let (year, month, day) = utc_today();
        Date { year, month, day }
    }

    /// Reads a date written as "YYYY-MM-DD".
    pub fn parse_iso(s: &str) -> (r: Option<Date>)
        ensures
            r is Some <==> iso_date_of(s@) is Some,
            r is Some ==> r->0.wf() && iso_date_of(s@) == Some(r->0.ymd()),
    {
        parse_iso_ymd(s)
    }

    /// Writes the date as "YYYY-MM-DD".
    pub fn to_iso(&self) -> (r: String)
        requires
            self.wf(),
        ensures
            r@ == iso_text_of(self.ymd()),
    {
        format_iso(*self)
    }
}

/// Relies on chrono's `NaiveDate::from_ymd_opt`: it returns `Some` exactly
/// when the calendar day exists and the year is within chrono's range.
#[verifier::external_body]
fn ymd_exists(year: i32, month: u32, day: u32) -> (r: bool)
    ensures
        r == valid_ymd(year as int, month as int, day as int),
{
    chrono::NaiveDate::from_ymd_opt(year, month, day).is_some()
}

/// Relies on chrono's `Utc::now` and `DateTime::date_naive`: the result is
/// an existing calendar day.
#[verifier::external_body]
fn utc_today() -> (r: (i32, u32, u32))
    ensures
        valid_ymd(r.0 as int, r.1 as int, r.2 as int),
{
    let d = chrono::Utc::now().date_naive();
    (d.year(), d.month(), d.day())
}

/// Relies on chrono's `NaiveDate::parse_from_str` with the format "%F":
/// a date it returns is an existing calendar day.
#[verifier::external_body]
fn parse_iso_ymd(s: &str) -> (r: Option<Date>)
    ensures
        r is Some <==> iso_date_of(s@) is Some,
        r is Some ==> r->0.wf() && iso_date_of(s@) == Some(r->0.ymd()),
{
    match chrono::NaiveDate::parse_from_str(s, "%F") {
        Ok(d) => Some(Date { year: d.year(), month: d.month(), day: d.day() }),
        Err(_) => None,
    }
}

/// Relies on chrono's `NaiveDate::from_ymd_opt`, which returns `Some` for
/// an existing day, and on `format("%F")`: the text depends on the date
/// alone.
#[verifier::external_body]
fn format_iso(d: Date) -> (r: String)
    requires
        d.wf(),
    ensures
        r@ == iso_text_of(d.ymd()),
{
    chrono::NaiveDate::from_ymd_opt(d.year, d.month, d.day).unwrap().format("%F").to_string()
}

} // verus!
