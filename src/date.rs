//! Publish timestamps: UTC, to the minute.
use vstd::prelude::*;
use chrono::{Datelike, Timelike};
use crate::text::{decimal, digits, padded, padded_decimal};

verus! {

/// A publish timestamp, held as its calendar fields.
#[derive(Clone, Copy, Debug, PartialEq, Eq, Structural)]
pub struct DateTime {
    pub year: i32,
    pub month: u32,
    pub day: u32,
    pub hour: u32,
    pub minute: u32,
}

/// The timestamp that `%Y-%m-%d %H:%M` reads from the text, as
/// (year, month, day, hour, minute), or none where the text is malformed.
pub uninterp spec fn parsed_timestamp(text: Seq<char>) -> Option<(int, int, int, int, int)>;

impl DateTime {
    /// The fields stay within the ranges of a calendar date and a time of day.
    pub open spec fn wf(&self) -> bool {
        &&& 1 <= self.month <= 12
        &&& 1 <= self.day <= 31
        &&& self.hour <= 23
        &&& self.minute <= 59
    }

    pub open spec fn fields(&self) -> (int, int, int, int, int) {
        (self.year as int, self.month as int, self.day as int, self.hour as int, self.minute as int)
    }

    /// `self` is strictly later than `other`.
    pub open spec fn later_than(&self, other: DateTime) -> bool {
        ||| self.year > other.year
        ||| (self.year == other.year && self.month > other.month)
        ||| (self.year == other.year && self.month == other.month && self.day > other.day)
        ||| (self.year == other.year && self.month == other.month && self.day == other.day
            && self.hour > other.hour)
        ||| (self.year == other.year && self.month == other.month && self.day == other.day
            && self.hour == other.hour && self.minute > other.minute)
    }

    /// Whether `self` is strictly later than `other`.
    pub fn is_later_than(&self, other: &DateTime) -> (r: bool)
        ensures
            r == self.later_than(*other),
    {
        if self.year != other.year {
            self.year > other.year
        } else if self.month != other.month {
            self.month > other.month
        } else if self.day != other.day {
            self.day > other.day
        } else if self.hour != other.hour {
            self.hour > other.hour
        } else {
            self.minute > other.minute
        }
    }

    /// The text `YYYY-MM-DD HH:MM`. Years outside 0..=9999 carry a sign.
    pub open spec fn rendered(&self) -> Seq<char> {
        year_text(self.year as int) + seq!['-'] + padded(self.month as nat, 2) + seq!['-']
            + padded(self.day as nat, 2) + seq![' '] + padded(self.hour as nat, 2) + seq![':']
            + padded(self.minute as nat, 2)
    }

    /// The year as a plain decimal number, with a leading `-` when negative.
    pub open spec fn year_string(&self) -> Seq<char> {
        if self.year < 0 {
            seq!['-'] + digits((-self.year) as nat)
        } else {
            digits(self.year as nat)
        }
    }
}

/// A year written with at least four digits, signed outside 0..=9999.
pub open spec fn year_text(y: int) -> Seq<char> {
    if y < 0 {
        seq!['-'] + padded((-y) as nat, 4)
    } else if y > 9999 {
        seq!['+'] + digits(y as nat)
    } else {
        padded(y as nat, 4)
    }
}

/// Relies on chrono::NaiveDateTime::parse_from_str with the format
/// `%Y-%m-%d %H:%M`: the outcome depends on the text alone, and the fields of
/// a parsed value lie in the ranges that chrono's `Datelike` and `Timelike`
/// document (month 1 to 12, day 1 to 31, hour 0 to 23, minute 0 to 59).
#[verifier::external_body]
fn parse_with_chrono(text: &str) -> (r: Result<DateTime, String>)
    ensures
        match r {
            Ok(d) => d.wf() && parsed_timestamp(text@) == Some(d.fields()),
            Err(_) => parsed_timestamp(text@) is None,
        },
{
    match chrono::NaiveDateTime::parse_from_str(text, "%Y-%m-%d %H:%M") {
        Ok(d) => Ok(
            DateTime {
                year: d.year(),
                month: d.month(),
                day: d.day(),
                hour: d.hour(),
                minute: d.minute(),
            },
        ),
        Err(e) => Err(e.to_string()),
    }
}

impl DateTime {
    /// Reads a timestamp written `YYYY-MM-DD HH:MM`; the error carries the
    /// parser's message.
    pub fn parse(text: &str) -> (r: Result<DateTime, String>)
        ensures
            r is Ok <==> parsed_timestamp(text@) is Some,
            r matches Ok(d) ==> d.wf() && parsed_timestamp(text@) == Some(d.fields()),
    {
        parse_with_chrono(text)
    }

    /// The timestamp as text, `YYYY-MM-DD HH:MM`.
    pub fn render(&self) -> (r: String)
        ensures
            r@ == self.rendered(),
    {
        let year = if self.year < 0 {
            let y: u64 = if self.year == i32::MIN {
                2147483648u64
            } else {
                (-self.year) as u64
            };
            let s = String::from_str("-");
            s.concat(padded_decimal(y, 4).as_str())
        } else if self.year > 9999 {
            let s = String::from_str("+");
            s.concat(decimal(self.year as u64).as_str())
        } else {
            padded_decimal(self.year as u64, 4)
        };
        let r = year.concat("-");
        let r = r.concat(padded_decimal(self.month as u64, 2).as_str());
        let r = r.concat("-");
        let r = r.concat(padded_decimal(self.day as u64, 2).as_str());
        let r = r.concat(" ");
        let r = r.concat(padded_decimal(self.hour as u64, 2).as_str());
        let r = r.concat(":");
        let r = r.concat(padded_decimal(self.minute as u64, 2).as_str());
        proof {
            reveal_strlit("-");
            reveal_strlit("+");
            reveal_strlit(" ");
            reveal_strlit(":");
            assert(r@ =~= self.rendered());
        }
        r
    }

    /// The year as decimal text, as it is shown beside a post.
    pub fn year_text(&self) -> (r: String)
        ensures
            r@ == self.year_string(),
    {
        if self.year < 0 {
            let y: u64 = if self.year == i32::MIN {
                2147483648u64
            } else {
                (-self.year) as u64
            };
            let s = String::from_str("-");
            let r = s.concat(decimal(y).as_str());
            proof {
                reveal_strlit("-");
                assert(r@ =~= self.year_string());
            }
            r
        } else {
            decimal(self.year as u64)
        }
    }
}

} // verus!
