//! Times, as they are stored: by the calendar, in UTC.

use vstd::prelude::*;

verus! {

/// The last millisecond that a stored time can hold: the end of the year 9999.
pub const LAST_MILLIS: i64 = 253_402_300_799_999;

/// A time of the calendar, in UTC.
#[derive(Clone, Copy, Debug, PartialEq, Eq, Structural)]
pub struct Civil {
    pub year: u16,
    pub month: u8,
    pub day: u8,
    pub hour: u8,
    pub minute: u8,
    pub second: u8,
    /// Microseconds, one million and more of them in a leap second.
    pub micros: u32,
}

impl DeepView for Civil {
    type V = Civil;

    open spec fn deep_view(&self) -> Civil {
        *self
    }
}

/// Whether a year has a 29 February.
pub open spec fn is_leap_year(year: int) -> bool {
    year % 4 == 0 && (year % 100 != 0 || year % 400 == 0)
}

/// The number of days of a month.
pub open spec fn days_in_month(year: int, month: int) -> int {
    if month == 2 {
        if is_leap_year(year) {
            29
        } else {
            28
        }
    } else if month == 4 || month == 6 || month == 9 || month == 11 {
        30
    } else {
        31
    }
}

/// The number of leap years from the year 0 up to a year, without that year.
pub open spec fn leap_years_before(year: int) -> int {
    (year + 3) / 4 - (year + 99) / 100 + (year + 399) / 400
}

/// The number of days from the start of the year 0 to the start of a year.
pub open spec fn days_before_year(year: int) -> int {
    365 * year + leap_years_before(year)
}

/// The number of days from the start of a year to the start of one of its months.
pub open spec fn days_before_month(year: int, month: int) -> int
    decreases month,
{
    if month <= 1 {
        0
    } else {
        days_before_month(year, month - 1) + days_in_month(year, month - 1)
    }
}

/// The number of days from the epoch to a day.
pub open spec fn days_since_epoch(year: int, month: int, day: int) -> int {
    days_before_year(year) + days_before_month(year, month) + day - 1 - days_before_year(1970)
}

impl Civil {
    /// Whether there is such a time.
    pub open spec fn valid(self) -> bool {
        &&& 1 <= self.month <= 12
        &&& 1 <= self.day <= days_in_month(self.year as int, self.month as int)
        &&& self.hour < 24
        &&& self.minute < 60
        &&& self.second < 60
        &&& self.micros < 1_000_000 || (self.second == 59 && self.micros < 2_000_000)
    }

    /// Whether there is such a time.
    pub fn is_valid(&self) -> (valid: bool)
        ensures
            valid == self.valid(),
    {
        let leap: bool = self.year % 4 == 0 && (self.year % 100 != 0 || self.year % 400 == 0);
        let days: u8 = if self.month == 2 {
            if leap {
                29
            } else {
                28
            }
        } else if self.month == 4 || self.month == 6 || self.month == 9 || self.month == 11 {
            30
        } else {
            31
        };
        1 <= self.month && self.month <= 12 && 1 <= self.day && self.day <= days && self.hour < 24
            && self.minute < 60 && self.second < 60 && (self.micros < 1_000_000 || (self.second
            == 59 && self.micros < 2_000_000))
    }

    /// Milliseconds since the epoch.
    pub open spec fn since_epoch(self) -> int {
        let days = days_since_epoch(self.year as int, self.month as int, self.day as int);
        let seconds = ((days * 24 + self.hour) * 60 + self.minute) * 60 + self.second;
        seconds * 1000 + self.micros as int / 1000
    }

    /// Whether the time lies a number of milliseconds after the epoch, neither in a leap second nor
    /// between two milliseconds.
    pub open spec fn lies_at(self, millis: int) -> bool {
        &&& self.valid()
        &&& self.micros < 1_000_000
        &&& self.micros % 1000 == 0
        &&& self.since_epoch() == millis
    }

    /// Milliseconds since the epoch.
    pub fn millis(&self) -> (millis: i64)
        requires
            self.valid(),
        ensures
            millis == self.since_epoch(),
    {
        millis_of_civil(self)
    }

    /// The time that lies so many milliseconds after the epoch.
    pub fn of_millis(millis: i64) -> (time: Civil)
        requires
            0 <= millis <= LAST_MILLIS,
        ensures
            time.lies_at(millis as int),
            time == civil_at(millis as int),
    {
        let time = civil_from_millis(millis);
        proof {
            a_millisecond_is_one_time(time, civil_at(millis as int), millis as int);
        }
        time
    }
}

/// The time that lies so many milliseconds after the epoch.
pub open spec fn civil_at(millis: int) -> Civil {
    choose|time: Civil| time.lies_at(millis)
}

/// `chrono::DateTime::<Utc>::timestamp_millis` of a `chrono::NaiveDateTime`: the milliseconds since
/// the epoch by the calendar. A time that is valid exists for `chrono`.
#[verifier::external_body]
fn millis_of_civil(time: &Civil) -> (millis: i64)
    requires
        time.valid(),
    ensures
        millis == time.since_epoch(),
{
    chrono::NaiveDate::from_ymd_opt(time.year.into(), time.month.into(), time.day.into())
        .and_then(
            |date|
                date.and_hms_micro_opt(
                    time.hour.into(),
                    time.minute.into(),
                    time.second.into(),
                    time.micros,
                ),
        )
        .unwrap()
        .and_utc()
        .timestamp_millis()
}

/// `From<SystemTime>` for `chrono::DateTime<Utc>`, and its `naive_utc`: the time by the calendar
/// that lies so many milliseconds after the epoch. Up to [`LAST_MILLIS`] the year has four digits.
#[verifier::external_body]
fn civil_from_millis(millis: i64) -> (time: Civil)
    requires
        0 <= millis <= LAST_MILLIS,
    ensures
        time.lies_at(millis as int),
{
    let since = std::time::Duration::from_millis(millis as u64);
    let utc: chrono::DateTime<chrono::Utc> = (std::time::UNIX_EPOCH + since).into();
    let naive = utc.naive_utc();
    Civil {
        year: chrono::Datelike::year(&naive) as u16,
        month: chrono::Datelike::month(&naive) as u8,
        day: chrono::Datelike::day(&naive) as u8,
        hour: chrono::Timelike::hour(&naive) as u8,
        minute: chrono::Timelike::minute(&naive) as u8,
        second: chrono::Timelike::second(&naive) as u8,
        micros: utc.timestamp_subsec_micros(),
    }
}

/// A year starts where the one before it ends.
pub proof fn years_follow_each_other(year: int)
    requires
        0 <= year,
    ensures
        days_before_year(year + 1) == days_before_year(year) + days_before_month(year, 12)
            + days_in_month(year, 12),
        days_before_month(year, 12) + days_in_month(year, 12) == if is_leap_year(year) {
            366int
        } else {
            365int
        },
{
    reveal_with_fuel(days_before_month, 13);
    assert((year + 4) / 4 - (year + 3) / 4 == if year % 4 == 0 {
        1int
    } else {
        0int
    });
    assert((year + 100) / 100 - (year + 99) / 100 == if year % 100 == 0 {
        1int
    } else {
        0int
    });
    assert((year + 400) / 400 - (year + 399) / 400 == if year % 400 == 0 {
        1int
    } else {
        0int
    });
}

/// A year does not start before an earlier one ends.
proof fn years_are_in_order(early: int, late: int)
    requires
        0 <= early < late,
    ensures
        days_before_year(early + 1) <= days_before_year(late),
    decreases late - early,
{
    if early + 1 < late {
        years_are_in_order(early, late - 1);
        years_follow_each_other(late - 1);
    }
}

/// A month does not start before an earlier one ends.
proof fn months_are_in_order(year: int, early: int, late: int)
    requires
        1 <= early < late,
    ensures
        days_before_month(year, early) + days_in_month(year, early) <= days_before_month(
            year,
            late,
        ),
    decreases late - early,
{
    if early + 1 < late {
        months_are_in_order(year, early, late - 1);
    }
}

/// An earlier day is fewer days after the epoch.
proof fn days_are_in_order(a: Civil, b: Civil)
    requires
        a.valid(),
        b.valid(),
        a.year < b.year || (a.year == b.year && a.month < b.month),
    ensures
        days_since_epoch(a.year as int, a.month as int, a.day as int) < days_since_epoch(
            b.year as int,
            b.month as int,
            b.day as int,
        ),
{
    if a.year < b.year {
        years_follow_each_other(a.year as int);
        years_are_in_order(a.year as int, b.year as int);
        if a.month < 12 {
            months_are_in_order(a.year as int, a.month as int, 12);
        }
        if b.month > 1 {
            months_are_in_order(b.year as int, 1, b.month as int);
        }
    } else {
        months_are_in_order(a.year as int, a.month as int, b.month as int);
    }
}

/// There is one time that lies a number of milliseconds after the epoch.
pub proof fn a_millisecond_is_one_time(a: Civil, b: Civil, millis: int)
    requires
        a.lies_at(millis),
        b.lies_at(millis),
    ensures
        a == b,
{
    let days_a = days_since_epoch(a.year as int, a.month as int, a.day as int);
    let days_b = days_since_epoch(b.year as int, b.month as int, b.day as int);
    assert(days_a == days_b && a.hour == b.hour && a.minute == b.minute && a.second == b.second
        && a.micros == b.micros);
    if a.year < b.year || (a.year == b.year && a.month < b.month) {
        days_are_in_order(a, b);
    } else if b.year < a.year || (a.year == b.year && b.month < a.month) {
        days_are_in_order(b, a);
    }
}

/// The last millisecond that can be stored is the last of the year 9999, and the first is the
/// epoch.
pub proof fn stored_times_end_with_the_year_9999()
    ensures
        LAST_MILLIS == (Civil {
            year: 9999,
            month: 12,
            day: 31,
            hour: 23,
            minute: 59,
            second: 59,
            micros: 999_000,
        }).since_epoch(),
        (Civil {
            year: 1970,
            month: 1,
            day: 1,
            hour: 0,
            minute: 0,
            second: 0,
            micros: 0,
        }).since_epoch() == 0,
{
    reveal_with_fuel(days_before_month, 13);
}

/// There is a time where its month is one of twelve, its day one of the month, and the rest of it
/// one of the day. April, June, September and November have thirty days; February has twenty-eight,
/// or twenty-nine in every fourth year, but for the hundredth that is not a four hundredth; any
/// other month has thirty-one. Only the last second of a minute may be a leap second.
pub proof fn a_time_exists_by_the_calendar(time: Civil)
    ensures
        time.valid() <==> {
            &&& 1 <= time.month <= 12
            &&& 1 <= time.day <= 31
            &&& time.day == 31 ==> time.month != 4 && time.month != 6 && time.month != 9
                && time.month != 11
            &&& time.month == 2 ==> time.day <= 29
            &&& time.month == 2 && time.day == 29 ==> time.year % 400 == 0 || (time.year % 4 == 0
                && time.year % 100 != 0)
            &&& 0 <= time.hour <= 23
            &&& 0 <= time.minute <= 59
            &&& 0 <= time.second <= 59
            &&& 0 <= time.micros <= if time.second == 59 {
                1_999_999int
            } else {
                999_999int
            }
        },
{
}

/// A day follows the day before it: the next day of its month, the first of the next month after
/// the last, and the first of January after the last of December. Within a day there are
/// twenty-four hours of sixty minutes of sixty seconds.
pub proof fn a_day_follows_the_day_before(today: Civil, tomorrow: Civil)
    requires
        today.valid(),
        tomorrow.valid(),
        ({
            ||| tomorrow.year == today.year && tomorrow.month == today.month && tomorrow.day
                == today.day + 1
            ||| tomorrow.year == today.year && tomorrow.month == today.month + 1 && tomorrow.day
                == 1 && !(Civil { day: (today.day + 1) as u8, ..today }).valid()
            ||| tomorrow.year == today.year + 1 && tomorrow.month == 1 && tomorrow.day == 1
                && today.month == 12 && today.day == 31
        }),
    ensures
        ({
            let early = today.hour * 3_600_000 + today.minute * 60_000 + today.second * 1000
                + today.micros as int / 1000;
            let late = tomorrow.hour * 3_600_000 + tomorrow.minute * 60_000 + tomorrow.second * 1000
                + tomorrow.micros as int / 1000;
            tomorrow.since_epoch() - late == today.since_epoch() - early + 86_400_000
        }),
{
    if tomorrow.year > today.year {
        years_follow_each_other(today.year as int);
    }
}

} // verus!
