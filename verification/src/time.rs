use chrono::{FixedOffset, LocalResult, NaiveTime, TimeZone, Timelike};
use vstd::prelude::*;

use crate::error::AppError;

verus! {

/// Seconds in one calendar day.
pub const SECONDS_PER_DAY: i64 = 86_400;

/// The first second of the earliest day the calendar can name (1 January of
/// the year -262143), counted from the epoch.
pub const MIN_TIMESTAMP: i64 = -8_334_601_228_800;

/// The last second of the latest day the calendar can name (31 December of
/// the year 262142), counted from the epoch.
pub const MAX_TIMESTAMP: i64 = 8_210_266_876_799;

/// A fixed offset from UTC is a whole number of seconds, strictly less than a
/// day in either direction.
pub open spec fn valid_utc_offset(utc_offset: int) -> bool {
    -SECONDS_PER_DAY < utc_offset < SECONDS_PER_DAY
}

/// Whether a count of seconds from the epoch falls on a day the calendar can name.
pub open spec fn in_calendar_range(seconds: int) -> bool {
    MIN_TIMESTAMP <= seconds <= MAX_TIMESTAMP
}

/// An instant can be read on a local clock when both the instant itself and
/// its local reading fall on a day the calendar can name.
pub open spec fn representable(utc_offset: int, timestamp: int) -> bool {
    in_calendar_range(timestamp) && in_calendar_range(timestamp + utc_offset)
}

/// Midnight of the local day on which an instant falls, counted on the local
/// clock: the local reading rounded down to a whole day.
pub open spec fn local_day_start(utc_offset: int, timestamp: int) -> int {
    SECONDS_PER_DAY * ((timestamp + utc_offset) / (SECONDS_PER_DAY as int))
}

/// The instant at which the local day of an instant begins, in seconds from
/// the epoch: local midnight, taken back from the local clock by the offset.
/// This is the key of a day's bucket.
pub open spec fn local_midnight(utc_offset: int, timestamp: int) -> int {
    local_day_start(utc_offset, timestamp) - utc_offset
}

/// Seconds elapsed since local midnight at an instant.
pub open spec fn local_second_of_day(utc_offset: int, timestamp: int) -> int {
    (timestamp + utc_offset) % (SECONDS_PER_DAY as int)
}

/// A slot on the local day that begins at the instant `day`: the clock runs at
/// an offset it can run at, both ends can be read on it, fall on that day and
/// on whole minutes, and the start comes before the end.
pub open spec fn slot_on_day(utc_offset: int, day: int, start: int, end: int) -> bool {
    &&& valid_utc_offset(utc_offset)
    &&& representable(utc_offset, start)
    &&& representable(utc_offset, end)
    &&& local_midnight(utc_offset, start) == day
    &&& local_midnight(utc_offset, end) == day
    &&& local_second_of_day(utc_offset, start) % 60 == 0
    &&& local_second_of_day(utc_offset, end) % 60 == 0
    &&& local_second_of_day(utc_offset, start) < local_second_of_day(utc_offset, end)
}

/// Two instants on whole minutes of one local day, the first at an earlier
/// time of day, are a whole number of minutes apart, at least one and less than
/// a day, and their difference is the difference of their local times of day.
pub proof fn lemma_slot_length(utc_offset: int, start: int, end: int)
    requires
        local_day_start(utc_offset, start) == local_day_start(utc_offset, end),
        local_second_of_day(utc_offset, start) % 60 == 0,
        local_second_of_day(utc_offset, end) % 60 == 0,
        local_second_of_day(utc_offset, start) < local_second_of_day(utc_offset, end),
    ensures
        60 <= end - start < SECONDS_PER_DAY,
        (end - start) % 60 == 0,
        end - start == local_second_of_day(utc_offset, end) - local_second_of_day(
            utc_offset,
            start,
        ),
{
}

/// A time of day, as written in a calendar's configuration.
#[derive(Clone, Copy, Debug, PartialEq, Eq, Structural)]
pub struct Time {
    pub hour: u32,
    pub minute: u32,
    pub second: u32,
}

impl Time {
    /// The fields name a time that a clock can show.
    pub open spec fn wf(self) -> bool {
        self.hour < 24 && self.minute < 60 && self.second < 60
    }

    /// Seconds from midnight to this time of day.
    pub open spec fn spec_seconds_from_midnight(self) -> int {
        self.hour * 3600 + self.minute * 60 + self.second
    }

    /// Whether the fields name a time that a clock can show.
    pub fn is_valid(&self) -> (r: bool)
        ensures
            r == self.wf(),
    {
        self.hour < 24 && self.minute < 60 && self.second < 60
    }

    /// Seconds from midnight to this time of day.
    pub fn seconds_from_midnight(&self) -> (r: u32)
        requires
            self.wf(),
        ensures
            r == self.spec_seconds_from_midnight(),
            r < SECONDS_PER_DAY,
    {
        self.hour * 3600 + self.minute * 60 + self.second
    }
}

/// An instant as read on a clock that runs at a fixed offset from UTC.
#[derive(Clone, Copy, Debug, PartialEq, Eq, Structural)]
pub struct LocalDateTime {
    /// The instant itself, in seconds from the epoch.
    pub timestamp: i64,
    /// Midnight of the local day, counted on the local clock: 86 400 times the
    /// number of whole local days since the epoch. The instant of that
    /// midnight is earlier by the offset.
    pub day_start: i64,
    /// Seconds since local midnight.
    pub second_of_day: u32,
    /// Nanoseconds into the current second.
    pub nanosecond: u32,
}

/// What a clock at `utc_offset` shows at `timestamp`.
pub open spec fn local_reading(utc_offset: int, timestamp: int) -> LocalDateTime {
    LocalDateTime {
        timestamp: timestamp as i64,
        day_start: local_day_start(utc_offset, timestamp) as i64,
        second_of_day: local_second_of_day(utc_offset, timestamp) as u32,
        nanosecond: 0,
    }
}

/// Reads an instant on a fixed-offset clock with `chrono`:
/// `FixedOffset::east_opt`, then `TimeZone::timestamp_opt` with no nanoseconds,
/// and the fields of the `DateTime` it gives.
///
/// Trusted: `timestamp_opt` answers `Single` exactly for the instants whose UTC
/// day lies in the years -262143 to 262142, which in seconds is the range
/// `MIN_TIMESTAMP ..= MAX_TIMESTAMP`. Of such an instant, `time()` is the
/// local reading modulo one day, `date_naive()` at midnight is the local
/// reading rounded down to a whole day, `timestamp()` is the instant again and
/// the nanoseconds are zero. `east_opt` is `None` and `date_naive` panics
/// outside what `requires` admits.
#[verifier::external_body]
fn read_fixed_offset_clock(utc_offset: i32, timestamp: i64) -> (r: Option<LocalDateTime>)
    requires
        valid_utc_offset(utc_offset as int),
        in_calendar_range(timestamp + utc_offset),
    ensures
        r == if in_calendar_range(timestamp as int) {
            Some(local_reading(utc_offset as int, timestamp as int))
        } else {
            None
        },
{
    let timezone = FixedOffset::east_opt(utc_offset).unwrap();
    match timezone.timestamp_opt(timestamp, 0) {
        LocalResult::Single(value) => Some(LocalDateTime {
            timestamp: value.timestamp(),
            day_start: value.date_naive().and_time(NaiveTime::default()).and_utc().timestamp(),
            second_of_day: value.time().num_seconds_from_midnight(),
            nanosecond: value.time().nanosecond(),
        }),
        LocalResult::Ambiguous(_, _) => None,
        LocalResult::None => None,
    }
}

/// Reads `timestamp` on the clock that runs `utc_offset` seconds east of UTC.
///
/// Fails with `InvalidTime` exactly when the instant, or its local reading,
/// lies outside the days the calendar can name.
pub fn get_date_time(utc_offset: i32, timestamp: i64) -> (r: Result<LocalDateTime, AppError>)
    requires
        valid_utc_offset(utc_offset as int),
    ensures
        r == if representable(utc_offset as int, timestamp as int) {
            Ok::<LocalDateTime, AppError>(local_reading(utc_offset as int, timestamp as int))
        } else {
            Err::<LocalDateTime, AppError>(AppError::InvalidTime)
        },
{
    let local: i64 = match timestamp.checked_add(utc_offset as i64) {
        Some(local) => local,
        None => { return Err(AppError::InvalidTime); },
    };
    if local < MIN_TIMESTAMP || local > MAX_TIMESTAMP {
        return Err(AppError::InvalidTime);
    }
    match read_fixed_offset_clock(utc_offset, timestamp) {
        Some(value) => Ok(value),
        None => Err(AppError::InvalidTime),
    }
}

/// Whether the instants `start` and `end` bound a slot on the local day that
/// begins at the instant `day`.
pub fn is_slot_on_day(utc_offset: i32, day: i64, start: i64, end: i64) -> (r: bool)
    ensures
        r == slot_on_day(utc_offset as int, day as int, start as int, end as int),
{
    if utc_offset <= -86_400 || utc_offset >= 86_400 {
        return false;
    }
    let start_datetime = match get_date_time(utc_offset, start) {
        Ok(datetime) => datetime,
        Err(_) => { return false; },
    };
    let end_datetime = match get_date_time(utc_offset, end) {
        Ok(datetime) => datetime,
        Err(_) => { return false; },
    };
    let offset: i64 = utc_offset as i64;
    start_datetime.day_start - offset == day && end_datetime.day_start - offset == day
        && start_datetime.second_of_day % 60 == 0 && end_datetime.second_of_day % 60 == 0
        && start_datetime.second_of_day < end_datetime.second_of_day
}

} // verus!
