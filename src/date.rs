use vstd::prelude::*;

use chrono::Datelike;

verus! {

/// A calendar day of the proleptic Gregorian calendar, with a four-digit year.
///
/// Notes are stored with their day written as `YYYY-MM-DD`, which sorts in
/// calendar order.
#[derive(Debug, Clone, Copy, PartialEq, Eq)]
pub struct TradingDate {
    year: i32,
    month: u32,
    day: u32,
}

pub open spec fn is_leap_year(year: int) -> bool {
    (year % 4 == 0 && year % 100 != 0) || year % 400 == 0
}

pub open spec fn days_in_month(year: int, month: int) -> int {
    if month == 2 {
        if is_leap_year(year) { 29 } else { 28 }
    } else if month == 4 || month == 6 || month == 9 || month == 11 {
        30
    } else {
        31
    }
}

/// A real calendar day with a four-digit year.
pub open spec fn is_calendar_day(year: int, month: int, day: int) -> bool {
    1 <= year <= 9999 && 1 <= month <= 12 && 1 <= day <= days_in_month(year, month)
}

pub open spec fn digit(n: int) -> char {
    seq!['0', '1', '2', '3', '4', '5', '6', '7', '8', '9'][n % 10]
}

/// The day written as `YYYY-MM-DD`, with zero padding.
pub open spec fn iso_text(year: int, month: int, day: int) -> Seq<char> {
    seq![
        digit(year / 1000),
        digit(year / 100),
        digit(year / 10),
        digit(year),
        '-',
        digit(month / 10),
        digit(month),
        '-',
        digit(day / 10),
        digit(day),
    ]
}

/// `text` is a real calendar day written as `YYYY-MM-DD`.
pub open spec fn is_day_text(text: Seq<char>) -> bool {
    exists|year: int, month: int, day: int|
        is_calendar_day(year, month, day) && text == #[trigger] iso_text(year, month, day)
}

impl View for TradingDate {
    type V = (int, int, int);

    closed spec fn view(&self) -> (int, int, int) {
        (self.year as int, self.month as int, self.day as int)
    }
}

impl TradingDate {
    #[verifier::type_invariant]
    spec fn wf(self) -> bool {
        is_calendar_day(self.year as int, self.month as int, self.day as int)
    }

    /// The day as it is stored.
    pub open spec fn text(self) -> Seq<char> {
        iso_text(self@.0, self@.1, self@.2)
    }

    /// The day with the given year, month and day, if it exists.
    pub fn new(year: i32, month: u32, day: u32) -> (r: Option<TradingDate>)
        ensures
            r is Some <==> is_calendar_day(year as int, month as int, day as int),
            r matches Some(d) ==> d@ == (year as int, month as int, day as int),
    {
        if year < 1 || year > 9999 || month < 1 || month > 12 || day < 1 {
            return None;
        }
        let leap = (year % 4 == 0 && year % 100 != 0) || year % 400 == 0;
        let last: u32 = if month == 2 {
            if leap { 29 } else { 28 }
        } else if month == 4 || month == 6 || month == 9 || month == 11 {
            30
        } else {
            31
        };
        if day > last {
            None
        } else {
            Some(TradingDate { year, month, day })
        }
    }

    pub fn year(&self) -> (r: i32)
        ensures
            r as int == self@.0,
    {
        self.year
    }

    pub fn month(&self) -> (r: u32)
        ensures
            r as int == self@.1,
    {
        self.month
    }

    pub fn day(&self) -> (r: u32)
        ensures
            r as int == self@.2,
    {
        self.day
    }

    /// The day written as `YYYY-MM-DD`.
    pub fn to_text(&self) -> (r: String)
        ensures
            r@ == self.text(),
    {
        proof {
            use_type_invariant(self);
        }
        format_day(self.year, self.month, self.day)
    }

    /// Reads a day written as `YYYY-MM-DD`, as `to_text` writes it; any other
    /// text gives `None`.
    pub fn from_text(text: &String) -> (r: Option<TradingDate>)
        ensures
            r is Some <==> is_day_text(text@),
            r matches Some(d) ==> d.text() == text@,
    {
        let parsed = parse_day(text.as_str());
        match parsed {
            Some((year, month, day)) => match TradingDate::new(year, month, day) {
                Some(d) => {
                    let written = d.to_text();
                    if written == *text {
                        proof {
                            use_type_invariant(&d);
                        }
                        Some(d)
                    } else {
                        None
                    }
                },
                None => None,
            },
            None => None,
        }
    }
}

/// Relies on chrono's `NaiveDate::from_ymd_opt`, which accepts every real
/// calendar day, and on its `%Y-%m-%d` format: the year zero-padded to four
/// digits, month and day to two.
#[verifier::external_body]
fn format_day(year: i32, month: u32, day: u32) -> (r: String)
    requires
        is_calendar_day(year as int, month as int, day as int),
    ensures
        r@ == iso_text(year as int, month as int, day as int),
{
    chrono::NaiveDate::from_ymd_opt(year, month, day).unwrap().format("%Y-%m-%d").to_string()
}

/// Relies on chrono's `NaiveDate::parse_from_str` with the format `%Y-%m-%d`;
/// what it reads is handed on as year, month and day. `%Y` reads up to four
/// unsigned digits and `%m`, `%d` two each, so a real calendar day written with
/// that zero padding reads back as itself.
#[verifier::external_body]
fn parse_day(text: &str) -> (r: Option<(i32, u32, u32)>)
    ensures
        forall|year: int, month: int, day: int|
            is_calendar_day(year, month, day) && text@ == #[trigger] iso_text(year, month, day)
                ==> r == Some((year as i32, month as u32, day as u32)),
{
    let d = chrono::NaiveDate::parse_from_str(text, "%Y-%m-%d").ok()?;
    Some((d.year(), d.month(), d.day()))
}

} // verus!
