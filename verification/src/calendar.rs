//! Calendar dates and wall-clock timestamps as plain integers.
//!
//! A [`Date`] is a day number in the proleptic Gregorian calendar and a
//! [`Timestamp`] a number of seconds, so that windows, checkpoints and tariff
//! lookups are integer arithmetic. Everything that needs the shape of the
//! calendar (month boundaries, reading a date from text) is asked of `chrono`.

use vstd::prelude::*;
use chrono::Datelike;
use chrono::NaiveDate;

verus! {

/// Day number of the earliest date `chrono` can hold (1 January of year -262143).
pub const MIN_DAYS: i32 = -95_746_129;

/// Day number of the latest date `chrono` can hold (31 December of year 262142).
pub const MAX_DAYS: i32 = 95_745_399;

/// Day number of 1 January 1970.
pub const EPOCH_DAYS: i32 = 719_163;

/// Seconds in one day.
pub const SECONDS_PER_DAY: i64 = 86_400;

/// First second of the earliest date.
pub const MIN_SECONDS: i64 = -8_334_601_228_800;

/// Last second of the latest date.
pub const MAX_SECONDS: i64 = 8_210_266_876_799;

/// A calendar date: the number of days since 31 December of year 0, so that
/// 1 January of year 1 is day 1.
#[derive(Clone, Copy, Debug, PartialEq, Eq, Structural)]
pub struct Date {
    pub days: i32,
}

/// A date and time of day without a time zone, in whole seconds since
/// midnight of 1 January 1970.
#[derive(Clone, Copy, Debug, PartialEq, Eq, Structural)]
pub struct Timestamp {
    pub seconds: i64,
}

/// `chrono::ParseError`: why `chrono` rejected a text. It is passed on as it
/// comes; nothing is known of what it holds.
#[verifier::external_type_specification]
#[verifier::external_body]
pub struct ExParseError(chrono::ParseError);

/// The day number of the date that has the year and month of day `days` and
/// the day of month `day`, as `chrono` computes it; `None` where there is no
/// such date.
pub uninterp spec fn day_of_same_month(days: int, day: int) -> Option<int>;

/// The day number that `chrono` reads from `text` under `format`; `None`
/// where it rejects the text.
pub uninterp spec fn parsed_days(text: Seq<char>, format: Seq<char>) -> Option<int>;

/// Whether a day number lies in the range of dates that `chrono` can hold.
pub open spec fn days_in_range(days: int) -> bool {
    MIN_DAYS <= days <= MAX_DAYS
}

/// The day number of the first day of the month that day `days` lies in.
pub open spec fn month_start_days(days: int) -> int {
    day_of_same_month(days, 1).unwrap()
}

/// The day number of the first day of the month before the one that day
/// `days` lies in.
pub open spec fn previous_month_start_days(days: int) -> int {
    month_start_days(month_start_days(days) - 1)
}

/// The day number of the date that second `seconds` falls on.
pub open spec fn days_of_seconds(seconds: int) -> int {
    seconds / (SECONDS_PER_DAY as int) + EPOCH_DAYS
}

/// The first second of day `days`.
pub open spec fn midnight_seconds(days: int) -> int {
    (days - EPOCH_DAYS) * SECONDS_PER_DAY
}

/// `chrono::NaiveDate::with_day`, on day numbers, which are turned into dates
/// by `NaiveDate::from_num_days_from_ce_opt` and back by
/// `Datelike::num_days_from_ce`. Trusted: the result is the date of the same
/// month with the given day of month, so it lies within 30 days of `date`;
/// asking for day 1 of a representable date always succeeds and never moves
/// forward; nothing is returned for a day number outside `chrono`'s range.
#[verifier::external_body]
fn with_day(date: Date, day: u32) -> (moved: Option<Date>)
    ensures
        moved matches Some(d) ==> {
            &&& day_of_same_month(date.days as int, day as int) == Some(d.days as int)
            &&& date.valid()
            &&& d.valid()
            &&& -30 <= d.days - date.days <= 30
            &&& day == 1 ==> d.days <= date.days
        },
        moved is None ==> day_of_same_month(date.days as int, day as int) is None,
        day == 1 && date.valid() ==> moved is Some,
{
    match NaiveDate::from_num_days_from_ce_opt(date.days) {
        Some(from) => match from.with_day(day) {
            Some(to) => Some(Date { days: to.num_days_from_ce() }),
            None => None,
        },
        None => None,
    }
}

/// `chrono::NaiveDate::parse_from_str`, the date turned into its day number
/// by `Datelike::num_days_from_ce`. Trusted: the outcome depends on the text
/// and the format alone, and a date that is returned is representable.
#[verifier::external_body]
fn parse_with_format(text: &str, format: &str) -> (parsed: Result<Date, chrono::ParseError>)
    ensures
        parsed matches Ok(d) ==> parsed_days(text@, format@) == Some(d.days as int) && d.valid(),
        parsed is Err ==> parsed_days(text@, format@) is None,
{
    match NaiveDate::parse_from_str(text, format) {
        Ok(date) => Ok(Date { days: date.num_days_from_ce() }),
        Err(error) => Err(error),
    }
}

impl Date {
    /// Whether `chrono` can hold this date.
    pub open spec fn valid(&self) -> bool {
        days_in_range(self.days as int)
    }

    /// Whether the month before this date's month is representable.
    pub open spec fn has_previous_month(&self) -> bool {
        self.valid() && month_start_days(self.days as int) > MIN_DAYS
    }

    /// Whether `chrono` can hold this date.
    pub fn is_valid(&self) -> (valid: bool)
        ensures
            valid == self.valid(),
    {
        MIN_DAYS <= self.days && self.days <= MAX_DAYS
    }

    /// The date with the given day number, if it is representable.
    pub fn from_days(days: i32) -> (date: Option<Date>)
        ensures
            date == (if days_in_range(days as int) {
                Some(Date { days })
            } else {
                None
            }),
    {
        if MIN_DAYS <= days && days <= MAX_DAYS {
            Some(Date { days })
        } else {
            None
        }
    }

    /// Whole days from `earlier` to `self`; negative when `self` comes first.
    pub fn days_since(&self, earlier: Date) -> (days: i64)
        ensures
            days == self.days - earlier.days,
    {
        self.days as i64 - earlier.days as i64
    }

    /// The date `count` days before this one, or `floor` if that would lie
    /// before `floor`.
    pub fn back_to_at_least(&self, count: u32, floor: Date) -> (date: Date)
        ensures
            date.days == (if self.days - count < floor.days {
                floor.days as int
            } else {
                self.days - count
            }),
    {
        let back: i64 = self.days as i64 - count as i64;
        if back < floor.days as i64 {
            floor
        } else {
            Date { days: back as i32 }
        }
    }

    /// The first day of this date's month; `None` exactly when the date is
    /// not representable.
    pub fn start_of_month(&self) -> (start: Option<Date>)
        ensures
            start is Some <==> self.valid(),
            start matches Some(d) ==> {
                &&& d.days == month_start_days(self.days as int)
                &&& d.valid()
                &&& d.days <= self.days <= d.days + 30
            },
    {
        with_day(*self, 1)
    }

    /// The first day of the month before this date's month; `None` when the
    /// date is not representable or that month lies before the earliest date.
    pub fn start_of_previous_month(&self) -> (start: Option<Date>)
        ensures
            start is Some <==> self.has_previous_month(),
            start matches Some(d) ==> {
                &&& d.days == previous_month_start_days(self.days as int)
                &&& d.valid()
                &&& d.days < month_start_days(self.days as int) <= d.days + 31
                &&& d.days < self.days <= d.days + 61
            },
    {
        match with_day(*self, 1) {
            None => None,
            Some(first) => {
                if first.days <= MIN_DAYS {
                    None
                } else {
                    with_day(Date { days: first.days - 1 }, 1)
                }
            },
        }
    }

    /// Midnight at the start of this date.
    pub open spec fn midnight(&self) -> Timestamp {
        Timestamp { seconds: midnight_seconds(self.days as int) as i64 }
    }

    /// Midnight at the start of this date.
    pub fn at_midnight(&self) -> (instant: Timestamp)
        ensures
            instant == self.midnight(),
            instant.seconds == midnight_seconds(self.days as int),
            self.valid() ==> instant.valid(),
            days_of_seconds(instant.seconds as int) == self.days,
    {
        let instant = Timestamp { seconds: (self.days as i64 - EPOCH_DAYS as i64) * SECONDS_PER_DAY };
        proof {
            lemma_midnight_round_trip(self.days as int);
        }
        instant
    }
}

impl Timestamp {
    /// Whether the instant falls on a representable date.
    pub open spec fn valid(&self) -> bool {
        MIN_SECONDS <= self.seconds <= MAX_SECONDS
    }

    /// Whether the instant falls on a representable date.
    pub fn is_valid(&self) -> (valid: bool)
        ensures
            valid == self.valid(),
    {
        MIN_SECONDS <= self.seconds && self.seconds <= MAX_SECONDS
    }

    /// The date that the instant falls on.
    pub fn date(&self) -> (date: Date)
        requires
            self.valid(),
        ensures
            date.days == days_of_seconds(self.seconds as int),
            date.valid(),
    {
        let whole_days: i64 = if self.seconds >= 0 {
            self.seconds / SECONDS_PER_DAY
        } else {
            -((-(self.seconds + 1)) / SECONDS_PER_DAY) - 1
        };
        Date { days: (whole_days + EPOCH_DAYS as i64) as i32 }
    }
}

/// Midnight of a day falls on that day.
pub proof fn lemma_midnight_round_trip(days: int)
    ensures
        days_of_seconds(midnight_seconds(days)) == days,
        days_in_range(days) ==> MIN_SECONDS <= midnight_seconds(days) <= MAX_SECONDS,
{
    let d = days - EPOCH_DAYS;
    assert((d * 86_400) / 86_400 == d) by (nonlinear_arith);
}

/// The format of the date that opens an ISO 8601 date-time string.
pub open spec fn iso_date_format() -> Seq<char> {
    "%Y-%m-%d"@
}

/// Number of bytes that the date takes at the start of an ISO 8601 string.
pub const ISO_DATE_LENGTH: usize = 10;

/// Whether `text` is long enough to hold a date, and can be cut after it.
pub open spec fn has_date_prefix(text: Seq<char>) -> bool {
    &&& vstd::utf8::encode_utf8(text).len() >= ISO_DATE_LENGTH
    &&& vstd::utf8::is_char_boundary(vstd::utf8::encode_utf8(text), ISO_DATE_LENGTH as int)
}

/// The first ten bytes of `text` as text.
pub open spec fn date_prefix(text: Seq<char>) -> Seq<char> {
    vstd::utf8::decode_utf8(vstd::utf8::encode_utf8(text).subrange(0, ISO_DATE_LENGTH as int))
}

/// What reading the date at the start of `text` gives: the day number, or
/// `None` where the text is too short, cannot be cut after ten bytes, or
/// does not start with a date.
pub open spec fn iso_date_of(text: Seq<char>) -> Option<int> {
    if has_date_prefix(text) {
        parsed_days(date_prefix(text), iso_date_format())
    } else {
        None
    }
}

/// Why no date could be read from a string.
#[derive(Debug)]
pub enum DateTextError {
    /// The string has fewer than ten bytes, or its tenth byte ends inside a
    /// character.
    NoDatePrefix,
    /// The first ten bytes are not a date.
    Rejected(chrono::ParseError),
}

/// Reads the date that an ISO 8601 date or date-time string starts with; what
/// follows the first ten bytes is not looked at.
pub fn parse_iso_date(text: &str) -> (parsed: Result<Date, DateTextError>)
    ensures
        parsed matches Ok(date) ==> iso_date_of(text@) == Some(date.days as int) && date.valid(),
        parsed matches Err(DateTextError::NoDatePrefix) ==> !has_date_prefix(text@),
        parsed matches Err(DateTextError::Rejected(_)) ==> has_date_prefix(text@) && iso_date_of(
            text@,
        ) is None,
{
    if text.as_bytes().len() < ISO_DATE_LENGTH || !text.is_char_boundary(ISO_DATE_LENGTH) {
        return Err(DateTextError::NoDatePrefix);
    }
    let (head, _) = text.split_at(ISO_DATE_LENGTH);
    proof {
        vstd::utf8::encode_utf8_decode_utf8(head@);
        assert(head@ == date_prefix(text@));
    }
    match parse_with_format(head, "%Y-%m-%d") {
        Ok(date) => Ok(date),
        Err(e) => Err(DateTextError::Rejected(e)),
    }
}

} // verus!
