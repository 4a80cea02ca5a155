//! Calendar dates as the service writes them: year, month and day.

use crate::decimal::decimal_text;
use vstd::prelude::*;

verus! {

/// The first year a date can lie in.
pub const MIN_YEAR: i32 = -262143;

/// The last year a date can lie in.
pub const MAX_YEAR: i32 = 262142;

/// True when `year` has a 29th of February in the proleptic Gregorian calendar.
pub open spec fn is_leap_year(year: int) -> bool {
    year % 4 == 0 && (year % 100 != 0 || year % 400 == 0)
}

/// The number of days of `month` in `year`.
pub open spec fn days_in_month(year: int, month: int) -> int {
    if month == 2 {
        if is_leap_year(year) {
            29
        } else {
            28
        }
    } else if month == 4 || month == 6 || month == 9 || month == 11 {
        30
    } else {
        31
    }
}

/// A year, a month and a day, as mathematical integers.
pub struct Ymd {
    pub year: int,
    pub month: int,
    pub day: int,
}

impl Ymd {
    /// True when the three numbers name a day of the calendar.
    pub open spec fn is_date(self) -> bool {
        &&& MIN_YEAR <= self.year <= MAX_YEAR
        &&& 1 <= self.month <= 12
        &&& 1 <= self.day <= days_in_month(self.year, self.month)
    }
}

/// The three numbers as mathematical integers.
pub open spec fn ymd(year: i32, month: u32, day: u32) -> Ymd {
    Ymd { year: year as int, month: month as int, day: day as int }
}

/// A day of the proleptic Gregorian calendar.
#[derive(Debug, Clone, Copy, PartialEq, Eq)]
pub struct Date {
    year: i32,
    month: u32,
    day: u32,
}

impl View for Date {
    type V = Ymd;

    closed spec fn view(&self) -> Ymd {
        Ymd { year: self.year as int, month: self.month as int, day: self.day as int }
    }
}

/// `n` in decimal, with zeros in front up to `width` characters.
pub open spec fn zero_padded(n: nat, width: nat) -> Seq<char> {
    let digits = decimal_text(n);
    if digits.len() >= width {
        digits
    } else {
        Seq::new((width - digits.len()) as nat, |i: int| '0') + digits
    }
}

/// How a year is written: four digits, and a sign in front of a year before
/// 0 or after 9999.
pub open spec fn year_text(year: int) -> Seq<char> {
    if 0 <= year <= 9999 {
        zero_padded(year as nat, 4)
    } else if year < 0 {
        seq!['-'] + zero_padded((-year) as nat, 4)
    } else {
        seq!['+'] + zero_padded(year as nat, 4)
    }
}

/// How a date is written: year, month and day, two digits for each of the
/// last two, with `-` between them.
pub open spec fn date_text(date: Ymd) -> Seq<char> {
    year_text(date.year) + seq!['-'] + zero_padded(date.month as nat, 2) + seq!['-'] + zero_padded(
        date.day as nat,
        2,
    )
}

/// What `chrono::NaiveDate`'s `FromStr` makes of `text`: the date it spells,
/// or `None` where it spells none.
pub uninterp spec fn iso_date(text: Seq<char>) -> Option<Ymd>;

/// Calls `chrono::NaiveDate`'s `FromStr` and copies out year, month and day
/// (`Datelike::year`, `month`, `day`). The claims: the outcome depends on the
/// text alone, and a date that comes back is a day of the calendar within
/// chrono's range of years.
#[verifier::external_body]
fn read_date(text: &str) -> (r: Option<Date>)
    ensures
        match r {
            Some(date) => iso_date(text@) == Some(date@) && date@.is_date(),
            None => iso_date(text@) is None,
        },
{
    match text.parse::<chrono::NaiveDate>() {
        Ok(d) => Some(
            Date {
                year: chrono::Datelike::year(&d),
                month: chrono::Datelike::month(&d),
                day: chrono::Datelike::day(&d),
            },
        ),
        Err(_) => None,
    }
}

/// Calls `chrono::NaiveDate::from_ymd_opt` and the date's `Display`. The
/// claims: the text is the year in four digits (signed outside 0..=9999),
/// the month and the day in two digits each, joined by `-`; and chrono's
/// `FromStr` reads that text back as the same date.
#[verifier::external_body]
fn write_date(date: &Date) -> (r: String)
    requires
        date@.is_date(),
    ensures
        r@ == date_text(date@),
        iso_date(r@) == Some(date@),
{
    chrono::NaiveDate::from_ymd_opt(date.year, date.month, date.day).unwrap().to_string()
}

impl Date {
    /// Every date is a day of the calendar.
    #[verifier::type_invariant]
    pub open spec fn wf(self) -> bool {
        self@.is_date()
    }

    /// The date of the given year, month and day, if there is such a day.
    pub fn from_ymd(year: i32, month: u32, day: u32) -> (r: Option<Date>)
        ensures
            match r {
                Some(date) => date@ == ymd(year, month, day) && date@.is_date(),
                None => !ymd(year, month, day).is_date(),
            },
    {
        if year < MIN_YEAR || year > MAX_YEAR || month < 1 || month > 12 || day < 1 {
            return None;
        }
        let shifted: u32 = (year + 262400) as u32;
        let leap = shifted % 4 == 0 && (shifted % 100 != 0 || shifted % 400 == 0);
        assert(leap == is_leap_year(year as int));
        let last: u32 = if month == 2 {
            if leap {
                29
            } else {
                28
            }
        } else if month == 4 || month == 6 || month == 9 || month == 11 {
            30
        } else {
            31
        };
        if day > last {
            return None;
        }
        Some(Date { year, month, day })
    }

    /// Reads a date as the service writes it, `2018-10-23`.
    pub fn parse(text: &str) -> (r: Option<Date>)
        ensures
            match r {
                Some(date) => iso_date(text@) == Some(date@) && date@.is_date(),
                None => iso_date(text@) is None,
            },
    {
        read_date(text)
    }

    /// Writes the date as the service does. Reading the text gives the date
    /// back.
    pub fn to_text(&self) -> (r: String)
        ensures
            r@ == date_text(self@),
            iso_date(r@) == Some(self@),
            self@.is_date(),
    {
        proof {
            use_type_invariant(self);
        }
        write_date(self)
    }

    pub fn year(&self) -> (y: i32)
        ensures
            y == self@.year,
    {
        self.year
    }

    pub fn month(&self) -> (m: u32)
        ensures
            m == self@.month,
    {
        self.month
    }

    pub fn day(&self) -> (d: u32)
        ensures
            d == self@.day,
    {
        self.day
    }
}

} // verus!
