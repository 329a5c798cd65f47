//! Timestamps of requests, and their text on the wire.
//!
//! A timestamp is a calendar date and a time of day at some offset from UTC.
//! On the wire it is always written in UTC, as `yyyyMMdd HH:mm:ss UTC`. The
//! shift to UTC is left to the `time` and `time-tz` crates; what it gives is
//! stated here in terms of the calendar, and the digits are written here.

use vstd::prelude::*;
use vstd::string::StringExecFns;
use time_tz::OffsetDateTimeExt;

use crate::errors::Error;
use crate::fields::append_four_digits;
use crate::fields::append_two_digits;
use crate::fields::four_digit_text;
use crate::fields::lemma_four_digit_text_reads_back;
use crate::fields::lemma_two_digit_text_reads_back;
use crate::fields::natural_value;
use crate::fields::two_digit_text;

verus! {

/// The first year that a timestamp may lie in.
pub const MIN_YEAR: i32 = -9999;

/// The last year that a timestamp may lie in.
pub const MAX_YEAR: i32 = 9999;

/// The largest offset from UTC, in seconds, to either side: 25:59:59.
pub const MAX_OFFSET_SECONDS: i32 = 93599;

/// Whether `year` is a leap year of the Gregorian calendar.
pub open spec fn is_leap_year(year: int) -> bool {
    year % 4 == 0 && (year % 100 != 0 || year % 400 == 0)
}

/// The number of days of a month; 0 where `month` is none.
pub open spec fn days_in_month(year: int, month: int) -> int {
    if month == 2 {
        if is_leap_year(year) {
            29
        } else {
            28
        }
    } else if month == 4 || month == 6 || month == 9 || month == 11 {
        30
    } else if 1 <= month <= 12 {
        31
    } else {
        0
    }
}

/// The distance of a number from zero.
pub open spec fn magnitude(n: int) -> nat {
    if n >= 0 {
        n as nat
    } else {
        (-n) as nat
    }
}

/// A calendar date and time of day, at an offset from UTC.
#[derive(Debug, Clone, Copy, PartialEq, Eq, Structural)]
pub struct Timestamp {
    pub year: i32,
    /// 1 for January to 12 for December.
    pub month: u8,
    pub day: u8,
    pub hour: u8,
    pub minute: u8,
    pub second: u8,
    /// Seconds that the local time is ahead of UTC; negative to the west.
    pub offset_seconds: i32,
}

/// The timestamp that denotes the same instant as `local`, at offset zero.
pub open spec fn utc_normalized(local: Timestamp) -> Timestamp {
    local.at_offset(0)
}

impl Timestamp {
    /// Whether month and day are a day of the calendar.
    pub open spec fn is_date(self) -> bool {
        &&& 1 <= self.month <= 12
        &&& 1 <= self.day <= days_in_month(self.year as int, self.month as int)
    }

    /// Whether the fields are a day of the calendar, in a year that a
    /// timestamp may lie in, and a time of that day.
    pub open spec fn is_date_time(self) -> bool {
        &&& MIN_YEAR <= self.year <= MAX_YEAR
        &&& self.is_date()
        &&& self.hour < 24
        &&& self.minute < 60
        &&& self.second < 60
    }

    /// Whether the fields are a date and time in a year of four digits.
    pub open spec fn is_civil(self) -> bool {
        self.is_date_time() && 0 <= self.year
    }

    /// Whether the offset is within 25:59:59 of UTC.
    pub open spec fn has_offset(self) -> bool {
        -MAX_OFFSET_SECONDS <= self.offset_seconds <= MAX_OFFSET_SECONDS
    }

    /// Whether the timestamp can be sent: a date and time of the calendar,
    /// at an offset within 25:59:59 of UTC, whose year in UTC has four
    /// digits.
    pub open spec fn is_valid(self) -> bool {
        &&& self.is_date_time()
        &&& self.has_offset()
        &&& 0 <= utc_normalized(self).year <= MAX_YEAR
    }

    /// The seconds that have passed since the start of the day.
    pub open spec fn second_of_day(self) -> int {
        self.hour * 3600 + self.minute * 60 + self.second
    }

    /// The same time on the day after.
    pub open spec fn next_day(self) -> Timestamp {
        if self.day < days_in_month(self.year as int, self.month as int) {
            Timestamp { day: (self.day + 1) as u8, ..self }
        } else if self.month < 12 {
            Timestamp { month: (self.month + 1) as u8, day: 1, ..self }
        } else {
            Timestamp { year: (self.year + 1) as i32, month: 1, day: 1, ..self }
        }
    }

    /// The same time on the day before.
    pub open spec fn previous_day(self) -> Timestamp {
        if self.day > 1 {
            Timestamp { day: (self.day - 1) as u8, ..self }
        } else if self.month > 1 {
            Timestamp {
                month: (self.month - 1) as u8,
                day: days_in_month(self.year as int, self.month - 1) as u8,
                ..self
            }
        } else {
            Timestamp { year: (self.year - 1) as i32, month: 12, day: 31, ..self }
        }
    }

    /// The same time `days` days later; earlier where `days` is negative.
    pub open spec fn days_later(self, days: int) -> Timestamp
        decreases magnitude(days),
    {
        if days > 0 {
            self.next_day().days_later(days - 1)
        } else if days < 0 {
            self.previous_day().days_later(days + 1)
        } else {
            self
        }
    }

    /// The same instant at another offset: the time of day moves by the
    /// difference of the offsets, and the date by the days that this
    /// carries.
    pub open spec fn at_offset(self, offset: int) -> Timestamp {
        let seconds = self.second_of_day() - self.offset_seconds + offset;
        let date = self.days_later(seconds / 86400);
        let rest = seconds % 86400;
        Timestamp {
            year: date.year,
            month: date.month,
            day: date.day,
            hour: (rest / 3600) as u8,
            minute: ((rest % 3600) / 60) as u8,
            second: (rest % 60) as u8,
            offset_seconds: offset as i32,
        }
    }

    /// The text of a timestamp that is in UTC: `yyyyMMdd HH:mm:ss UTC`.
    pub open spec fn utc_text(self) -> Seq<char> {
        four_digit_text(self.year as int) + two_digit_text(self.month as int) + two_digit_text(
            self.day as int,
        ) + seq![' '] + two_digit_text(self.hour as int) + seq![':'] + two_digit_text(
            self.minute as int,
        ) + seq![':'] + two_digit_text(self.second as int) + seq![' ', 'U', 'T', 'C']
    }

    /// A timestamp from its fields, which are taken as they are.
    pub fn new(
        year: i32,
        month: u8,
        day: u8,
        hour: u8,
        minute: u8,
        second: u8,
        offset_seconds: i32,
    ) -> (timestamp: Timestamp)
        ensures
            timestamp == (Timestamp { year, month, day, hour, minute, second, offset_seconds }),
    {
        Timestamp { year, month, day, hour, minute, second, offset_seconds }
    }

    /// A timestamp in UTC from its fields, which are taken as they are.
    pub fn utc(year: i32, month: u8, day: u8, hour: u8, minute: u8, second: u8) -> (timestamp:
        Timestamp)
        ensures
            timestamp == (Timestamp { year, month, day, hour, minute, second, offset_seconds: 0 }),
    {
        Timestamp { year, month, day, hour, minute, second, offset_seconds: 0 }
    }

    /// Whether the fields are a day of the calendar, in a year that a
    /// timestamp may lie in, and a time of that day.
    pub fn is_calendar_date_time(&self) -> (found: bool)
        ensures
            found == self.is_date_time(),
    {
        if self.year < MIN_YEAR || self.year > MAX_YEAR {
            return false;
        }
        if self.month < 1 || self.month > 12 || self.day < 1 {
            return false;
        }
        if self.hour >= 24 || self.minute >= 60 || self.second >= 60 {
            return false;
        }
        // a year of the same place in the cycle of 400 years, and not negative
        let year: i32 = self.year + 10000;
        let leap: bool = year % 4 == 0 && (year % 100 != 0 || year % 400 == 0);
        assert(leap == is_leap_year(self.year as int));
        let days: u8 = if self.month == 2 {
            if leap {
                29
            } else {
                28
            }
        } else if self.month == 4 || self.month == 6 || self.month == 9 || self.month == 11 {
            30
        } else {
            31
        };
        self.day <= days
    }

    /// Whether the fields are a date and time in a year of four digits.
    pub fn is_calendar_time(&self) -> (civil: bool)
        ensures
            civil == self.is_civil(),
    {
        self.is_calendar_date_time() && 0 <= self.year
    }

    /// Whether the timestamp can be sent.
    pub fn is_well_formed(&self) -> (valid: bool)
        ensures
            valid == self.is_valid(),
    {
        if !self.is_calendar_date_time() {
            return false;
        }
        if self.offset_seconds < -MAX_OFFSET_SECONDS || self.offset_seconds > MAX_OFFSET_SECONDS {
            return false;
        }
        let year: i32 = utc_year(self);
        0 <= year && year <= MAX_YEAR
    }

    /// The same instant at offset zero; `None` for a timestamp that cannot
    /// be sent.
    pub fn to_utc(&self) -> (utc: Option<Timestamp>)
        ensures
            self.is_valid() ==> utc == Some(utc_normalized(*self)),
            self.is_valid() ==> utc_normalized(*self).is_civil(),
            self.is_valid() && self.offset_seconds == 0 ==> utc == Some(*self),
            !self.is_valid() ==> utc is None,
    {
        if self.is_well_formed() {
            proof {
                lemma_utc_normalized_is_civil(*self);
                if self.offset_seconds == 0 {
                    lemma_at_own_offset(*self);
                }
            }
            Some(shift_to_utc(self))
        } else {
            None
        }
    }

    /// Writes a timestamp that is in UTC as `yyyyMMdd HH:mm:ss UTC`. Fields
    /// that are no date and time in a year of four digits are refused.
    pub fn write_utc(&self) -> (field: Result<String, Error>)
        ensures
            self.is_civil() ==> field is Ok,
            self.is_civil() ==> field->Ok_0@ == self.utc_text(),
            !self.is_civil() ==> field is Err,
            !self.is_civil() ==> is_malformed_timestamp(field->Err_0),
    {
        if !self.is_calendar_time() {
            return Err(malformed_timestamp());
        }
        let mut text = String::new();
        proof {
            reveal_strlit(" ");
            reveal_strlit(":");
            reveal_strlit(" UTC");
        }
        append_four_digits(&mut text, self.year as u16);
        append_two_digits(&mut text, self.month);
        append_two_digits(&mut text, self.day);
        text.append(" ");
        append_two_digits(&mut text, self.hour);
        text.append(":");
        append_two_digits(&mut text, self.minute);
        text.append(":");
        append_two_digits(&mut text, self.second);
        text.append(" UTC");
        assert(text@ =~= self.utc_text());
        Ok(text)
    }

    /// The field of the timestamp: the instant it denotes, written in UTC.
    /// A timestamp that cannot be sent is refused.
    pub fn to_field(&self) -> (field: Result<String, Error>)
        ensures
            self.is_valid() ==> field is Ok,
            self.is_valid() ==> field->Ok_0@ == utc_normalized(*self).utc_text(),
            !self.is_valid() ==> field is Err,
            !self.is_valid() ==> is_malformed_timestamp(field->Err_0),
    {
        match self.to_utc() {
            Some(utc) => utc.write_utc(),
            None => Err(malformed_timestamp()),
        }
    }
}

/// The year in which the instant of `local` lies in UTC.
fn utc_year(local: &Timestamp) -> (year: i32)
    requires
        local.is_date_time(),
        local.has_offset(),
    ensures
        year == utc_normalized(*local).year,
{
    let seconds: i32 = (local.hour as i32) * 3600 + (local.minute as i32) * 60 + (
    local.second as i32) - local.offset_seconds;
    let days: i32 = if seconds < -86400 {
        -2
    } else if seconds < 0 {
        -1
    } else if seconds < 86400 {
        0
    } else if seconds < 172800 {
        1
    } else {
        2
    };
    let day: i32 = local.day as i32 + days;
    proof {
        assert(seconds as int / 86400 == days);
        lemma_days_later(*local, days as int);
    }
    if local.month == 12 && day > 31 {
        local.year + 1
    } else if local.month == 1 && day < 1 {
        local.year - 1
    } else {
        local.year
    }
}

/// The day after a day of the calendar is a day of the calendar, at the
/// same time, and the day before it is the day itself.
pub proof fn lemma_next_day(date: Timestamp)
    requires
        date.is_date(),
        date.year < i32::MAX,
    ensures
        date.next_day().is_date(),
        date.next_day().previous_day() == date,
        date.next_day().year == date.year + if date.month == 12 && date.day == 31 {
            1int
        } else {
            0int
        },
        date.next_day().hour == date.hour,
        date.next_day().minute == date.minute,
        date.next_day().second == date.second,
        date.next_day().offset_seconds == date.offset_seconds,
{
}

/// The day before a day of the calendar is a day of the calendar, at the
/// same time, and the day after it is the day itself.
pub proof fn lemma_previous_day(date: Timestamp)
    requires
        date.is_date(),
        date.year > i32::MIN,
    ensures
        date.previous_day().is_date(),
        date.previous_day().next_day() == date,
        date.previous_day().year == date.year - if date.month == 1 && date.day == 1 {
            1int
        } else {
            0int
        },
        date.previous_day().hour == date.hour,
        date.previous_day().minute == date.minute,
        date.previous_day().second == date.second,
        date.previous_day().offset_seconds == date.offset_seconds,
{
}

/// Up to two days from a day of the calendar lies a day of the calendar, at
/// the same time. Its year is the next one where the days lead past the
/// end of December, the one before where they lead back past the start of
/// January, and else the same.
pub proof fn lemma_days_later(date: Timestamp, days: int)
    requires
        date.is_date(),
        MIN_YEAR <= date.year <= MAX_YEAR,
        -2 <= days <= 2,
    ensures
        date.days_later(days).is_date(),
        date.days_later(days).year == date.year + if date.month == 12 && date.day + days > 31 {
            1int
        } else if date.month == 1 && date.day + days < 1 {
            -1int
        } else {
            0int
        },
        date.days_later(days).hour == date.hour,
        date.days_later(days).minute == date.minute,
        date.days_later(days).second == date.second,
        date.days_later(days).offset_seconds == date.offset_seconds,
{
    reveal_with_fuel(Timestamp::days_later, 3);
    if days > 0 {
        lemma_next_day(date);
        if days > 1 {
            lemma_next_day(date.next_day());
        }
    } else if days < 0 {
        lemma_previous_day(date);
        if days < -1 {
            lemma_previous_day(date.previous_day());
        }
    }
}

/// The UTC form of a timestamp that can be sent is a date and time in a
/// year of four digits, at offset zero.
pub proof fn lemma_utc_normalized_is_civil(local: Timestamp)
    requires
        local.is_valid(),
    ensures
        utc_normalized(local).is_civil(),
        utc_normalized(local).offset_seconds == 0,
{
    let seconds = local.second_of_day() - local.offset_seconds;
    lemma_days_later(local, seconds / 86400);
}

/// A timestamp at its own offset is the timestamp itself.
pub proof fn lemma_at_own_offset(local: Timestamp)
    requires
        local.is_date_time(),
        local.has_offset(),
    ensures
        local.at_offset(local.offset_seconds as int) == local,
{
    let seconds = local.second_of_day();
    assert(seconds / 86400 == 0);
    assert(seconds % 86400 == seconds);
    assert(seconds / 3600 == local.hour);
    assert((seconds % 3600) / 60 == local.minute);
    assert(seconds % 60 == local.second);
}

/// The days from a day do not depend on the time of day.
pub proof fn lemma_days_later_by_date(left: Timestamp, right: Timestamp, days: int)
    requires
        left.year == right.year,
        left.month == right.month,
        left.day == right.day,
    ensures
        left.days_later(days).year == right.days_later(days).year,
        left.days_later(days).month == right.days_later(days).month,
        left.days_later(days).day == right.days_later(days).day,
    decreases magnitude(days),
{
    if days > 0 {
        lemma_days_later_by_date(left.next_day(), right.next_day(), days - 1);
    } else if days < 0 {
        lemma_days_later_by_date(left.previous_day(), right.previous_day(), days + 1);
    }
}

/// Days from the day after are one more day from the day itself, and days
/// from the day before one less.
pub proof fn lemma_days_later_from_neighbour(date: Timestamp, days: int)
    requires
        date.is_date(),
        i32::MIN < date.year < i32::MAX,
    ensures
        date.next_day().days_later(days) == date.days_later(days + 1),
        date.previous_day().days_later(days) == date.days_later(days - 1),
{
    lemma_next_day(date);
    lemma_previous_day(date);
    reveal_with_fuel(Timestamp::days_later, 2);
}

/// Days after days are the sum of the days; they lead to a day of the
/// calendar, and through no more years than there are days.
pub proof fn lemma_days_later_adds(date: Timestamp, first: int, second: int)
    requires
        date.is_date(),
        magnitude(date.year as int) + magnitude(first) <= 1000000,
    ensures
        date.days_later(first).days_later(second) == date.days_later(first + second),
        date.days_later(first).is_date(),
        date.year - magnitude(first) <= date.days_later(first).year <= date.year + magnitude(
            first,
        ),
    decreases magnitude(first),
{
    if first > 0 {
        lemma_next_day(date);
        lemma_days_later_adds(date.next_day(), first - 1, second);
        lemma_days_later_from_neighbour(date, first - 1 + second);
    } else if first < 0 {
        lemma_previous_day(date);
        lemma_days_later_adds(date.previous_day(), first + 1, second);
        lemma_days_later_from_neighbour(date, first + 1 + second);
    }
}

/// The time of day of a timestamp at another offset is the seconds that
/// the shift leaves within the day.
pub proof fn lemma_second_of_day_at_offset(local: Timestamp, offset: int)
    requires
        i32::MIN <= offset <= i32::MAX,
    ensures
        local.at_offset(offset).second_of_day() == (local.second_of_day() - local.offset_seconds
            + offset) % 86400,
        local.at_offset(offset).hour < 24,
        local.at_offset(offset).minute < 60,
        local.at_offset(offset).second < 60,
        local.at_offset(offset).offset_seconds == offset,
{
    let rest = (local.second_of_day() - local.offset_seconds + offset) % 86400;
    assert(0 <= rest < 86400);
    assert(0 <= rest / 3600 < 24);
    assert(0 <= (rest % 3600) / 60 < 60);
    assert(rest == (rest / 3600) * 3600 + ((rest % 3600) / 60) * 60 + rest % 60);
}

/// The same instant at another offset, and from there at a third, is the
/// instant at the third: which way a timestamp came to its offset does not
/// show.
pub proof fn lemma_at_offset_composes(local: Timestamp, first: int, second: int)
    requires
        local.is_date_time(),
        local.has_offset(),
        -MAX_OFFSET_SECONDS <= first <= MAX_OFFSET_SECONDS,
        -MAX_OFFSET_SECONDS <= second <= MAX_OFFSET_SECONDS,
    ensures
        local.at_offset(first).at_offset(second) == local.at_offset(second),
{
    let start = local.second_of_day() - local.offset_seconds;
    let other = local.at_offset(first);
    let days = (start + first) / 86400;
    let rest = (start + first) % 86400;
    lemma_second_of_day_at_offset(local, first);
    lemma_second_of_day_at_offset(local, second);
    lemma_second_of_day_at_offset(other, second);
    assert(other.second_of_day() == rest);
    let again = rest - first + second;
    assert(again == start + second - 86400 * days);
    assert(again / 86400 == (start + second) / 86400 - days);
    assert(again % 86400 == (start + second) % 86400);
    lemma_days_later_adds(local, days, again / 86400);
    lemma_days_later_by_date(other, local.days_later(days), again / 86400);
}

/// One instant, one text: the source offset does not show in the field. A
/// timestamp and the same instant at any other offset have the same UTC
/// form and so the same text, and if the one can be sent so can the other,
/// unless its own year is one that no timestamp may lie in.
pub proof fn lemma_one_instant_one_text(local: Timestamp, offset: int)
    requires
        local.is_date_time(),
        local.has_offset(),
        -MAX_OFFSET_SECONDS <= offset <= MAX_OFFSET_SECONDS,
    ensures
        utc_normalized(local.at_offset(offset)) == utc_normalized(local),
        utc_normalized(local.at_offset(offset)).utc_text() == utc_normalized(local).utc_text(),
        local.at_offset(offset).has_offset(),
        local.is_valid() && MIN_YEAR <= local.at_offset(offset).year <= MAX_YEAR
            ==> local.at_offset(offset).is_valid(),
{
    lemma_at_offset_composes(local, offset, 0);
    lemma_second_of_day_at_offset(local, offset);
    let days = (local.second_of_day() - local.offset_seconds + offset) / 86400;
    lemma_days_later_adds(local, days, 0);
}

/// Shifts a timestamp to offset zero.
///
/// This is `time_tz::OffsetDateTimeExt::to_timezone` with the UTC zone of the
/// crate's database, on the `time::OffsetDateTime` that `local` spells out;
/// it ends in `time::OffsetDateTime::to_offset`, which keeps the instant.
/// The contract says which timestamp that is: the time of day moves by the
/// offset, and the date moves by the days that this carries, forward or
/// back through the calendar. For the timestamps that `is_valid` admits the
/// fields are accepted by the crate and the result lies in a year of four
/// digits, well inside the years that the crate holds.
#[verifier::external_body]
fn shift_to_utc(local: &Timestamp) -> (utc: Timestamp)
    requires
        local.is_valid(),
    ensures
        utc == utc_normalized(*local),
{
    let month = time::Month::try_from(local.month).unwrap();
    let date = time::Date::from_calendar_date(local.year, month, local.day).unwrap();
    let clock = time::Time::from_hms(local.hour, local.minute, local.second).unwrap();
    let offset = time::UtcOffset::from_whole_seconds(local.offset_seconds).unwrap();
    let utc = time::OffsetDateTime::new_in_offset(date, clock, offset).to_timezone(
        time_tz::timezones::db::UTC,
    );
    let (year, month, day) = utc.to_calendar_date();
    let (hour, minute, second) = utc.to_hms();
    let offset_seconds = utc.offset().whole_seconds();
    Timestamp { year, month: u8::from(month), day, hour, minute, second, offset_seconds }
}

/// The text of a timestamp in UTC reads back as the timestamp: it has 21
/// characters, the digits at the places of `yyyyMMdd HH:mm:ss` denote the
/// year, month, day, hour, minute and second, and it ends in ` UTC`.
pub proof fn lemma_utc_text_reads_back(utc: Timestamp)
    requires
        utc.is_civil(),
    ensures
        utc.utc_text().len() == 21,
        natural_value(utc.utc_text().subrange(0, 4)) == Some(utc.year as int),
        natural_value(utc.utc_text().subrange(4, 6)) == Some(utc.month as int),
        natural_value(utc.utc_text().subrange(6, 8)) == Some(utc.day as int),
        utc.utc_text()[8] == ' ',
        natural_value(utc.utc_text().subrange(9, 11)) == Some(utc.hour as int),
        utc.utc_text()[11] == ':',
        natural_value(utc.utc_text().subrange(12, 14)) == Some(utc.minute as int),
        utc.utc_text()[14] == ':',
        natural_value(utc.utc_text().subrange(15, 17)) == Some(utc.second as int),
        utc.utc_text().subrange(17, 21) == seq![' ', 'U', 'T', 'C'],
{
    let text = utc.utc_text();
    lemma_four_digit_text_reads_back(utc.year as int);
    lemma_two_digit_text_reads_back(utc.month as int);
    lemma_two_digit_text_reads_back(utc.day as int);
    lemma_two_digit_text_reads_back(utc.hour as int);
    lemma_two_digit_text_reads_back(utc.minute as int);
    lemma_two_digit_text_reads_back(utc.second as int);
    assert(text.len() == 21);
    assert(text.subrange(0, 4) =~= four_digit_text(utc.year as int));
    assert(text.subrange(4, 6) =~= two_digit_text(utc.month as int));
    assert(text.subrange(6, 8) =~= two_digit_text(utc.day as int));
    assert(text.subrange(9, 11) =~= two_digit_text(utc.hour as int));
    assert(text.subrange(12, 14) =~= two_digit_text(utc.minute as int));
    assert(text.subrange(15, 17) =~= two_digit_text(utc.second as int));
    assert(text.subrange(17, 21) =~= seq![' ', 'U', 'T', 'C']);
}

/// Whether `error` is the refusal of a timestamp that cannot be sent.
pub open spec fn is_malformed_timestamp(error: Error) -> bool {
    error matches Error::InvalidArgument(reason) && reason@
        == "timestamp is not a date and time that can be sent"@
}

/// The refusal of a timestamp that cannot be sent.
pub fn malformed_timestamp() -> (error: Error)
    ensures
        is_malformed_timestamp(error),
{
    Error::InvalidArgument(String::from_str("timestamp is not a date and time that can be sent"))
}

/// The text of an optional timestamp: empty where there is none.
pub open spec fn optional_timestamp_text(timestamp: Option<Timestamp>) -> Seq<char> {
    match timestamp {
        Some(local) => utc_normalized(local).utc_text(),
        None => Seq::empty(),
    }
}

/// Whether an optional timestamp can be sent: it is absent or valid.
pub open spec fn optional_timestamp_valid(timestamp: Option<Timestamp>) -> bool {
    match timestamp {
        Some(local) => local.is_valid(),
        None => true,
    }
}

/// The field of an optional timestamp: empty where there is none, else the
/// instant written in UTC. A timestamp that cannot be sent is refused.
pub fn encode_timestamp(timestamp: &Option<Timestamp>) -> (field: Result<String, Error>)
    ensures
        optional_timestamp_valid(*timestamp) ==> field is Ok,
        optional_timestamp_valid(*timestamp) ==> field->Ok_0@ == optional_timestamp_text(
            *timestamp,
        ),
        !optional_timestamp_valid(*timestamp) ==> field is Err,
        !optional_timestamp_valid(*timestamp) ==> is_malformed_timestamp(field->Err_0),
{
    match timestamp {
        Some(local) => local.to_field(),
        None => Ok(String::new()),
    }
}

} // verus!
