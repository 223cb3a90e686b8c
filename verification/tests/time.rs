use chrono::{DateTime, Datelike, Utc};
use mx_xkcd_ng::time::{day_number, Timestamp, FIRST_SECOND, LAST_SECOND};

fn at(secs: i64) -> Timestamp {
    Timestamp { secs, nanos: 0 }
}

#[test]
fn days_are_counted_from_the_epoch() {
    assert_eq!(day_number(0), Some(0));
    assert_eq!(day_number(86_399), Some(0));
    assert_eq!(day_number(86_400), Some(1));
    assert_eq!(day_number(-1), Some(-1));
    assert_eq!(day_number(-86_400), Some(-1));
    assert_eq!(day_number(-86_401), Some(-2));
    assert_eq!(day_number(1_431_648_000), Some(16_570));
    assert_eq!(day_number(1_525_219_200), Some(17_653));
}

#[test]
fn days_end_with_the_supported_span() {
    assert_eq!(FIRST_SECOND, -8_334_601_228_800);
    assert_eq!(LAST_SECOND, 8_210_266_876_799);
    assert_eq!(day_number(FIRST_SECOND), Some(-96_465_292));
    assert_eq!(day_number(LAST_SECOND), Some(95_026_236));
    assert_eq!(day_number(FIRST_SECOND - 1), None);
    assert_eq!(day_number(LAST_SECOND + 1), None);
    assert_eq!(day_number(i64::MIN), None);
    assert_eq!(day_number(i64::MAX), None);
}

#[test]
fn same_day_goes_by_the_utc_date() {
    let noon = at(1_525_262_400);
    assert_eq!(noon.same_day(&at(1_525_219_200)), Some(true));
    assert_eq!(noon.same_day(&at(1_525_305_599)), Some(true));
    assert_eq!(noon.same_day(&at(1_525_305_600)), Some(false));
    assert_eq!(noon.same_day(&at(1_525_219_199)), Some(false));
    assert_eq!(noon.same_day(&at(1_525_262_400 + 365 * 86_400)), Some(false));
    assert_eq!(noon.same_day(&Timestamp::epoch()), Some(false));
    assert_eq!(noon.same_day(&at(i64::MAX)), None);
    assert_eq!(at(i64::MIN).same_day(&noon), None);
}

#[test]
fn nanoseconds_do_not_move_the_day() {
    let a = Timestamp { secs: 86_399, nanos: 999_999_999 };
    let b = Timestamp { secs: 0, nanos: 0 };
    assert_eq!(a.same_day(&b), Some(true));
}

#[test]
fn the_epoch_is_second_zero() {
    assert_eq!(Timestamp::epoch(), Timestamp { secs: 0, nanos: 0 });
}

#[test]
fn timestamps_are_written_as_utc() {
    assert_eq!(Timestamp::epoch().text(), Some("1970-01-01 00:00:00 UTC".to_string()));
    assert_eq!(
        Timestamp { secs: 1_431_648_000, nanos: 0 }.text(),
        Some("2015-05-15 00:00:00 UTC".to_string())
    );
    assert_eq!(
        Timestamp { secs: 1_525_262_400, nanos: 500_000_000 }.text(),
        Some("2018-05-02 12:00:00.500 UTC".to_string())
    );
    assert_eq!(Timestamp { secs: i64::MAX, nanos: 0 }.text(), None);
}

#[test]
fn the_supported_span_is_the_span_of_the_calendar() {
    assert_eq!(DateTime::<Utc>::MIN_UTC.timestamp(), FIRST_SECOND);
    assert_eq!(DateTime::<Utc>::MAX_UTC.timestamp(), LAST_SECOND);
    let first = DateTime::from_timestamp(FIRST_SECOND, 0).unwrap();
    assert_eq!((first.year(), first.ordinal()), (-262_143, 1));
    let last = DateTime::from_timestamp(LAST_SECOND, 0).unwrap();
    assert_eq!((last.year(), last.month(), last.day()), (262_142, 12, 31));
    assert!(DateTime::from_timestamp(FIRST_SECOND - 1, 0).is_none());
    assert!(DateTime::from_timestamp(LAST_SECOND + 1, 0).is_none());
}

#[test]
fn days_far_from_the_epoch_are_counted() {
    assert_eq!(day_number(-62_135_596_800), Some(-719_162));
    assert_eq!(day_number(-62_135_596_801), Some(-719_163));
    assert_eq!(day_number(253_402_300_799), Some(2_932_896));
    assert_eq!(day_number(253_402_300_800), Some(2_932_897));
    for secs in [FIRST_SECOND, -62_135_596_801, -86_401, -1, 0, 1_525_262_400, 253_402_300_800, LAST_SECOND] {
        let date = DateTime::from_timestamp(secs, 0).unwrap();
        assert_eq!(day_number(secs), Some(i64::from(date.num_days_from_ce()) - 719_163), "{}", secs);
        assert_eq!(day_number(secs), Some(secs.div_euclid(86_400)), "{}", secs);
    }
}
