use notifications::error::Error;
use notifications::schedule::{
    from_windows_ticks, schedule_to_datetime, to_native_instant, to_windows_ticks,
};
use notifications::{Schedule, ScheduleEvery, ScheduleInterval, UtcInstant};

const SECOND: i128 = 1_000_000_000;

fn instant(nanos: i128) -> UtcInstant {
    UtcInstant::from_unix_nanos(nanos).expect("representable instant")
}

#[test]
fn every_day_fires_one_day_from_now() {
    let now = UtcInstant::now();
    let schedule = Schedule::Every { interval: ScheduleEvery::Day, count: 1, allow_while_idle: false };
    let fire = to_native_instant(&schedule, now).unwrap();
    let offset = fire.unix_nanos() - now.unix_nanos();
    assert!(offset >= (86400 - 2) * SECOND && offset <= (86400 + 2) * SECOND);
    assert_eq!(offset, 86400 * SECOND);
}

#[test]
fn every_day_delivery_ticks_are_one_day_ahead() {
    let schedule = Schedule::Every { interval: ScheduleEvery::Day, count: 1, allow_while_idle: false };
    let before = to_windows_ticks(UtcInstant::now()) as i128;
    let ticks = schedule_to_datetime(&schedule).unwrap() as i128;
    let after = to_windows_ticks(UtcInstant::now()) as i128;
    let day = 86400 * SECOND / 100;
    assert!(ticks >= before + day - 2 * SECOND / 100);
    assert!(ticks <= after + day + 2 * SECOND / 100);
}

#[test]
fn every_multiplies_unit_by_count() {
    let now = instant(0);
    let cases = [
        (ScheduleEvery::Year, 365 * 86400),
        (ScheduleEvery::Month, 30 * 86400),
        (ScheduleEvery::TwoWeeks, 14 * 86400),
        (ScheduleEvery::Week, 7 * 86400),
        (ScheduleEvery::Day, 86400),
        (ScheduleEvery::Hour, 3600),
        (ScheduleEvery::Minute, 60),
        (ScheduleEvery::Second, 1),
    ];
    for (unit, seconds) in cases {
        let s = Schedule::Every { interval: unit, count: 3, allow_while_idle: true };
        let fire = to_native_instant(&s, now).unwrap();
        assert_eq!(fire.unix_nanos(), 3 * seconds * SECOND);
    }
}

#[test]
fn interval_sums_time_fields_and_ignores_calendar_fields() {
    let now = instant(1_000 * SECOND);
    let interval = ScheduleInterval {
        year: Some(24),
        month: Some(12),
        day: Some(2),
        weekday: Some(1),
        hour: Some(10),
        minute: Some(30),
        second: Some(5),
    };
    let s = Schedule::Interval { interval, allow_while_idle: false };
    let fire = to_native_instant(&s, now).unwrap();
    let seconds = 5 + 30 * 60 + 10 * 3600 + 2 * 86400;
    assert_eq!(fire.unix_nanos(), (1_000 + seconds) * SECOND);
    let empty = Schedule::Interval { interval: ScheduleInterval::default(), allow_while_idle: false };
    assert_eq!(to_native_instant(&empty, now).unwrap().unix_nanos(), 1_000 * SECOND);
}

#[test]
fn at_ignores_now() {
    let date = instant(1_546_300_800 * SECOND);
    let s = Schedule::At { date, repeating: true, allow_while_idle: false };
    let fire = to_native_instant(&s, instant(5)).unwrap();
    assert_eq!(fire.unix_nanos(), 1_546_300_800 * SECOND);
    let ticks = schedule_to_datetime(&s).unwrap();
    assert_eq!(ticks, 1_546_300_800 * 10_000_000 + 116_444_736_000_000_000);
}

#[test]
fn offset_past_the_last_instant_is_an_error() {
    let last = instant(253_402_300_799 * SECOND + 999_999_999);
    let s = Schedule::Every { interval: ScheduleEvery::Second, count: 1, allow_while_idle: false };
    match to_native_instant(&s, last) {
        Err(Error::Io(m)) => assert_eq!(m, "Schedule date out of range"),
        other => panic!("unexpected {:?}", other),
    }
}

#[test]
fn representable_range_bounds() {
    assert!(UtcInstant::from_unix_nanos(-377_705_116_800 * SECOND).is_some());
    assert!(UtcInstant::from_unix_nanos(-377_705_116_800 * SECOND - 1).is_none());
    assert!(UtcInstant::from_unix_nanos(253_402_300_800 * SECOND - 1).is_some());
    assert!(UtcInstant::from_unix_nanos(253_402_300_800 * SECOND).is_none());
}

#[test]
fn windows_epoch_offset() {
    assert_eq!(to_windows_ticks(instant(0)), 116_444_736_000_000_000);
    assert_eq!(to_windows_ticks(instant(-1 * SECOND)), 116_444_736_000_000_000 - 10_000_000);
    assert_eq!(to_windows_ticks(instant(-150)), 116_444_736_000_000_000 - 1);
    assert_eq!(to_windows_ticks(instant(199)), 116_444_736_000_000_000 + 1);
}

#[test]
fn ticks_round_trip_within_one_tick() {
    let samples: [i128; 6] = [
        0,
        123_456_789_012_345_678,
        -987_654_321_987,
        -377_705_116_800 * SECOND,
        253_402_300_800 * SECOND - 1,
        UtcInstant::now().unix_nanos(),
    ];
    for n in samples {
        let ticks = to_windows_ticks(instant(n));
        let back = from_windows_ticks(ticks).expect("representable");
        let diff = n - back.unix_nanos();
        assert!(diff > -100 && diff < 100, "{n} came back as {}", back.unix_nanos());
    }
}

#[test]
fn now_is_after_2019() {
    assert!(UtcInstant::now().unix_nanos() > 1_546_300_800 * SECOND);
}
