//! Fire-time specifications and their conversion into native timestamps.
//!
//! An instant is kept as nanoseconds since the Unix epoch. `Interval` and
//! `Every` schedules are offsets from the current instant: an interval sums
//! its second, minute, hour and day fields (month, year and weekday are carried
//! but not applied), and `Every` multiplies a fixed length per unit (a year is
//! 365 days, a month 30) by its count.
use crate::error::{Error, Result};
use crate::models::same_text;
use vstd::prelude::*;

verus! {

pub const NANOS_PER_SECOND: i128 = 1_000_000_000;

/// Unix seconds of -9999-01-01T00:00:00Z, the earliest instant representable.
pub const MIN_UNIX_SECONDS: i128 = -377_705_116_800;

/// Unix seconds of 9999-12-31T23:59:59Z, the last whole second representable.
pub const MAX_UNIX_SECONDS: i128 = 253_402_300_799;

/// 100-nanosecond ticks between 1601-01-01 and 1970-01-01 (134774 days).
pub const UNIX_EPOCH_TICKS: i128 = 116_444_736_000_000_000;

pub const NANOS_PER_TICK: i128 = 100;

/// Whether `nanos` (since the Unix epoch) names a representable instant:
/// its whole seconds, rounded down, lie in the representable range.
pub open spec fn in_time_range(nanos: int) -> bool {
    MIN_UNIX_SECONDS * NANOS_PER_SECOND <= nanos < (MAX_UNIX_SECONDS + 1) * NANOS_PER_SECOND
}

/// An absolute instant in UTC.
#[derive(Clone, Copy, Debug)]
pub struct UtcInstant {
    nanos: i128,
}

impl View for UtcInstant {
    type V = int;

    /// Nanoseconds since the Unix epoch.
    closed spec fn view(&self) -> int {
        self.nanos as int
    }
}

/// Relies on time's OffsetDateTime::now_utc, read back through
/// unix_timestamp_nanos: the clock's reading, which like every
/// OffsetDateTime lies in the representable range.
#[verifier::external_body]
fn clock_unix_nanos() -> (r: i128)
    ensures
        in_time_range(r as int),
{
    time::OffsetDateTime::now_utc().unix_timestamp_nanos()
}

/// Relies on time's OffsetDateTime::from_unix_timestamp_nanos, read back
/// through unix_timestamp_nanos: it accepts exactly the nanosecond counts
/// whose floored seconds lie in the representable range, and keeps the value.
#[verifier::external_body]
fn checked_unix_nanos(nanos: i128) -> (r: Option<i128>)
    ensures
        r == (if in_time_range(nanos as int) {
            Some(nanos)
        } else {
            None::<i128>
        }),
{
    match time::OffsetDateTime::from_unix_timestamp_nanos(nanos) {
        Ok(date) => Some(date.unix_timestamp_nanos()),
        Err(_) => None,
    }
}

impl UtcInstant {
    #[verifier::type_invariant]
    closed spec fn inv(self) -> bool {
        in_time_range(self.nanos as int)
    }

    /// The instant `nanos` nanoseconds after the Unix epoch, if representable.
    pub fn from_unix_nanos(nanos: i128) -> (r: Option<UtcInstant>)
        ensures
            r is Some <==> in_time_range(nanos as int),
            r matches Some(t) ==> t@ == nanos as int,
    {
        match checked_unix_nanos(nanos) {
            Some(n) => Some(UtcInstant { nanos: n }),
            None => None,
        }
    }

    pub fn unix_nanos(&self) -> (r: i128)
        ensures
            r as int == self@,
    {
        self.nanos
    }

    /// The current instant, as the system clock gives it.
    pub fn now() -> (r: UtcInstant) {
        UtcInstant { nanos: clock_unix_nanos() }
    }
}

/// Calendar components of an `Interval` schedule.
#[derive(Clone, Copy, Debug, PartialEq, Eq)]
pub struct ScheduleInterval {
    pub year: Option<u8>,
    pub month: Option<u8>,
    pub day: Option<u8>,
    pub weekday: Option<u8>,
    pub hour: Option<u8>,
    pub minute: Option<u8>,
    pub second: Option<u8>,
}

impl Default for ScheduleInterval {
    fn default() -> (r: Self)
        ensures
            r.year is None,
            r.month is None,
            r.day is None,
            r.weekday is None,
            r.hour is None,
            r.minute is None,
            r.second is None,
    {
        ScheduleInterval {
            year: None,
            month: None,
            day: None,
            weekday: None,
            hour: None,
            minute: None,
            second: None,
        }
    }
}

/// The unit of an `Every` schedule.
#[derive(Clone, Copy, Debug, PartialEq, Eq, Structural)]
pub enum ScheduleEvery {
    Year,
    Month,
    TwoWeeks,
    Week,
    Day,
    Hour,
    Minute,
    Second,
}

/// A fire-time specification.
#[allow(inconsistent_fields)]
#[derive(Clone, Copy, Debug)]
pub enum Schedule {
    /// An absolute instant, optionally repeating.
    At { date: UtcInstant, repeating: bool, allow_while_idle: bool },
    /// A calendar-component pattern, applied as an offset from now.
    Interval { interval: ScheduleInterval, allow_while_idle: bool },
    /// `count` periods of `interval` from now.
    Every { interval: ScheduleEvery, count: u8, allow_while_idle: bool },
}

/// Seconds in one period of `every`.
pub open spec fn every_seconds(every: ScheduleEvery) -> int {
    match every {
        ScheduleEvery::Year => 31_536_000,
        ScheduleEvery::Month => 2_592_000,
        ScheduleEvery::TwoWeeks => 1_209_600,
        ScheduleEvery::Week => 604_800,
        ScheduleEvery::Day => 86400,
        ScheduleEvery::Hour => 3600,
        ScheduleEvery::Minute => 60,
        ScheduleEvery::Second => 1,
    }
}

pub open spec fn field_or_zero(f: Option<u8>) -> int {
    match f {
        Some(v) => v as int,
        None => 0,
    }
}

/// Seconds that an interval stands for: its second, minute, hour and day fields.
pub open spec fn interval_seconds(i: ScheduleInterval) -> int {
    field_or_zero(i.second) + field_or_zero(i.minute) * 60 + field_or_zero(i.hour) * 3600
        + field_or_zero(i.day) * 86400
}

/// The instant (Unix nanoseconds) at which `schedule` fires, seen at `now`.
pub open spec fn fire_nanos(schedule: Schedule, now: int) -> int {
    match schedule {
        Schedule::At { date, .. } => date@,
        Schedule::Interval { interval, .. } => now + interval_seconds(interval) * NANOS_PER_SECOND,
        Schedule::Every { interval, count, .. } => now + every_seconds(interval) * count
            * NANOS_PER_SECOND,
    }
}

/// Division rounding toward zero, as integer division does.
pub open spec fn div_toward_zero(a: int, b: int) -> int
    recommends
        b > 0,
{
    if a >= 0 {
        a / b
    } else {
        -((-a) / b)
    }
}

/// 100-nanosecond ticks since 1601-01-01 of the instant `nanos`.
pub open spec fn ticks_of(nanos: int) -> int {
    div_toward_zero(nanos, NANOS_PER_TICK as int) + UNIX_EPOCH_TICKS
}

/// Unix nanoseconds of a tick count.
pub open spec fn nanos_of_ticks(ticks: int) -> int {
    (ticks - UNIX_EPOCH_TICKS) * NANOS_PER_TICK
}

pub open spec fn out_of_range_message() -> Seq<char> {
    "Schedule date out of range"@
}


/// The wire name of a unit.
pub open spec fn every_name(every: ScheduleEvery) -> Seq<char> {
    match every {
        ScheduleEvery::Year => "year"@,
        ScheduleEvery::Month => "month"@,
        ScheduleEvery::TwoWeeks => "twoWeeks"@,
        ScheduleEvery::Week => "week"@,
        ScheduleEvery::Day => "day"@,
        ScheduleEvery::Hour => "hour"@,
        ScheduleEvery::Minute => "minute"@,
        ScheduleEvery::Second => "second"@,
    }
}

/// The unit that a lower-case name stands for.
pub open spec fn every_of_lowercase(name: Seq<char>) -> Option<ScheduleEvery> {
    if name == "year"@ {
        Some(ScheduleEvery::Year)
    } else if name == "month"@ {
        Some(ScheduleEvery::Month)
    } else if name == "twoweeks"@ {
        Some(ScheduleEvery::TwoWeeks)
    } else if name == "week"@ {
        Some(ScheduleEvery::Week)
    } else if name == "day"@ {
        Some(ScheduleEvery::Day)
    } else if name == "hour"@ {
        Some(ScheduleEvery::Hour)
    } else if name == "minute"@ {
        Some(ScheduleEvery::Minute)
    } else if name == "second"@ {
        Some(ScheduleEvery::Second)
    } else {
        None
    }
}

/// What `str::to_lowercase` makes of a text.
pub uninterp spec fn lowercase_of(s: Seq<char>) -> Seq<char>;

/// Relies on `str::to_lowercase`: the result depends on the characters alone.
#[verifier::external_body]
fn to_lowercase(s: &str) -> (r: String)
    ensures
        r@ == lowercase_of(s@),
{
    s.to_lowercase()
}

impl ScheduleEvery {
    /// The wire name: `year`, `month`, `twoWeeks`, `week`, `day`, `hour`,
    /// `minute` or `second`.
    pub fn to_string(&self) -> (r: String)
        ensures
            r@ == every_name(*self),
    {
        let name = match self {
            ScheduleEvery::Year => "year",
            ScheduleEvery::Month => "month",
            ScheduleEvery::TwoWeeks => "twoWeeks",
            ScheduleEvery::Week => "week",
            ScheduleEvery::Day => "day",
            ScheduleEvery::Hour => "hour",
            ScheduleEvery::Minute => "minute",
            ScheduleEvery::Second => "second",
        };
        name.to_owned()
    }

    /// The unit named by an already lower-cased name.
    pub fn from_lowercase_name(name: &str) -> (r: Option<ScheduleEvery>)
        ensures
            r == every_of_lowercase(name@),
    {
        if same_text(name, "year") {
            Some(ScheduleEvery::Year)
        } else if same_text(name, "month") {
            Some(ScheduleEvery::Month)
        } else if same_text(name, "twoweeks") {
            Some(ScheduleEvery::TwoWeeks)
        } else if same_text(name, "week") {
            Some(ScheduleEvery::Week)
        } else if same_text(name, "day") {
            Some(ScheduleEvery::Day)
        } else if same_text(name, "hour") {
            Some(ScheduleEvery::Hour)
        } else if same_text(name, "minute") {
            Some(ScheduleEvery::Minute)
        } else if same_text(name, "second") {
            Some(ScheduleEvery::Second)
        } else {
            None
        }
    }

    /// The unit named by `name`, compared without regard to case; `None`
    /// for an unknown name.
    pub fn from_name(name: &str) -> (r: Option<ScheduleEvery>)
        ensures
            r == every_of_lowercase(lowercase_of(name@)),
    {
        let lower = to_lowercase(name);
        ScheduleEvery::from_lowercase_name(lower.as_str())
    }

    /// Seconds in one period.
    pub fn seconds(&self) -> (r: i64)
        ensures
            r as int == every_seconds(*self),
    {
        match self {
            ScheduleEvery::Year => 365 * 86400,
            ScheduleEvery::Month => 30 * 86400,
            ScheduleEvery::TwoWeeks => 14 * 86400,
            ScheduleEvery::Week => 7 * 86400,
            ScheduleEvery::Day => 86400,
            ScheduleEvery::Hour => 3600,
            ScheduleEvery::Minute => 60,
            ScheduleEvery::Second => 1,
        }
    }
}

fn field_value(f: Option<u8>) -> (r: i64)
    ensures
        r as int == field_or_zero(f),
{
    match f {
        Some(v) => v as i64,
        None => 0,
    }
}

impl ScheduleInterval {
    /// Seconds that the interval stands for.
    pub fn total_seconds(&self) -> (r: i64)
        ensures
            r as int == interval_seconds(*self),
    {
        field_value(self.second) + field_value(self.minute) * 60 + field_value(self.hour) * 3600
            + field_value(self.day) * 86400
    }
}

/// The instant at which `schedule` fires, seen at `now`; an error when that
/// instant is not representable.
pub fn to_native_instant(schedule: &Schedule, now: UtcInstant) -> (r: Result<UtcInstant>)
    ensures
        r is Ok <==> in_time_range(fire_nanos(*schedule, now@)),
        r matches Ok(t) ==> t@ == fire_nanos(*schedule, now@),
        r matches Err(e) ==> e matches Error::Io(m) && m@ == out_of_range_message(),
{
    proof {
        use_type_invariant(&now);
    }
    let nanos: i128 = match schedule {
        Schedule::At { date, .. } => date.unix_nanos(),
        Schedule::Interval { interval, .. } => {
            now.unix_nanos() + (interval.total_seconds() as i128) * NANOS_PER_SECOND
        },
        Schedule::Every { interval, count, .. } => {
            let seconds = interval.seconds() as i128;
            proof {
                assert(0 <= seconds * (*count as i128) <= 365 * 86400 * 255) by (nonlinear_arith)
                    requires
                        0 <= seconds <= 365 * 86400,
                        0 <= *count <= 255,
                ;
            }
            now.unix_nanos() + seconds * (*count as i128) * NANOS_PER_SECOND
        },
    };
    match UtcInstant::from_unix_nanos(nanos) {
        Some(t) => Ok(t),
        None => Err(Error::Io(String::from_str("Schedule date out of range"))),
    }
}

/// 100-nanosecond ticks since 1601-01-01 of `t`; every representable
/// instant has a tick count that fits in an `i64`.
pub fn to_windows_ticks(t: UtcInstant) -> (r: i64)
    ensures
        r as int == ticks_of(t@),
{
    proof {
        use_type_invariant(&t);
    }
    let n = t.unix_nanos();
    let whole: i128 = if n >= 0 {
        n / NANOS_PER_TICK
    } else {
        -((-n) / NANOS_PER_TICK)
    };
    (whole + UNIX_EPOCH_TICKS) as i64
}

/// The instant of a tick count since 1601-01-01, if representable.
pub fn from_windows_ticks(ticks: i64) -> (r: Option<UtcInstant>)
    ensures
        r is Some <==> in_time_range(nanos_of_ticks(ticks as int)),
        r matches Some(t) ==> t@ == nanos_of_ticks(ticks as int),
{
    UtcInstant::from_unix_nanos(((ticks as i128) - UNIX_EPOCH_TICKS) * NANOS_PER_TICK)
}

/// Converting a representable instant to ticks and back lands on a
/// representable instant less than one tick (100 ns) away from it.
pub proof fn lemma_ticks_round_trip(nanos: int)
    requires
        in_time_range(nanos),
    ensures
        i64::MIN <= ticks_of(nanos) <= i64::MAX,
        in_time_range(nanos_of_ticks(ticks_of(nanos))),
        -100 < nanos - nanos_of_ticks(ticks_of(nanos)) < 100,
{
    let back = nanos_of_ticks(ticks_of(nanos));
    assert(back == div_toward_zero(nanos, 100) * 100);
    if nanos >= 0 {
        assert(0 <= nanos - (nanos / 100) * 100 < 100) by (nonlinear_arith);
    } else {
        assert(0 <= (-nanos) - ((-nanos) / 100) * 100 < 100) by (nonlinear_arith)
            requires
                -nanos > 0,
        ;
    }
}

/// A schedule of every one day fires exactly one day (86400 s) after the
/// instant at which it is converted.
pub proof fn lemma_every_day_fires_a_day_later(schedule: Schedule, now: int)
    requires
        schedule matches Schedule::Every { interval, count, .. } && interval == ScheduleEvery::Day
            && count == 1,
    ensures
        fire_nanos(schedule, now) == now + 86400 * NANOS_PER_SECOND,
{
}

/// For an absolute schedule, the instant it fires at is its date, whatever
/// the current instant; turned into ticks and back, that instant comes back
/// representable and less than one tick (100 ns) away.
pub proof fn lemma_at_round_trip(schedule: Schedule, now: int)
    requires
        schedule is At,
        in_time_range(schedule->date@),
    ensures
        fire_nanos(schedule, now) == schedule->date@,
        i64::MIN <= ticks_of(schedule->date@) <= i64::MAX,
        in_time_range(nanos_of_ticks(ticks_of(schedule->date@))),
        -100 < schedule->date@ - nanos_of_ticks(ticks_of(schedule->date@)) < 100,
{
    lemma_ticks_round_trip(schedule->date@);
}

/// Windows delivery time of `schedule`: its firing instant, taken from the
/// system clock for offsets, as 100-nanosecond ticks since 1601-01-01.
pub fn schedule_to_datetime(schedule: &Schedule) -> (r: Result<i64>)
    ensures
        schedule matches Schedule::At { date, .. } ==> r matches Ok(ticks) && ticks as int
            == ticks_of(date@),
        r matches Ok(ticks) ==> exists|now: int|
            in_time_range(now) && in_time_range(fire_nanos(*schedule, now)) && ticks as int
                == ticks_of(fire_nanos(*schedule, now)),
        r matches Err(e) ==> e matches Error::Io(m) && m@ == out_of_range_message(),
        r is Err ==> exists|now: int|
            in_time_range(now) && !in_time_range(fire_nanos(*schedule, now)),
{
    let now = UtcInstant::now();
    proof {
        use_type_invariant(&now);
    }
    if let Schedule::At { date, .. } = schedule {
        proof {
            use_type_invariant(date);
        }
    }
    match to_native_instant(schedule, now) {
        Ok(t) => Ok(to_windows_ticks(t)),
        Err(e) => Err(e),
    }
}

} // verus!
