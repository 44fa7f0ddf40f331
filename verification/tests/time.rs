use chrono::{DateTime, Datelike, TimeDelta, Timelike, Utc, Weekday};
use evse_server::text::{decimal_text, parse_number, same_text};
use evse_server::time::{
    CALENDAR_END, CALENDAR_START, LocalTime, TimeOfDay, Timestamp, duration_profile_seconds,
    duration_seconds,
};

#[test]
fn calendar_is_the_one_of_chrono() {
    assert_eq!(CALENDAR_START, DateTime::<Utc>::MIN_UTC.timestamp());
    assert_eq!(CALENDAR_END, DateTime::<Utc>::MAX_UTC.timestamp());
    assert!(DateTime::<Utc>::from_timestamp(CALENDAR_START, 0).is_some());
    assert!(DateTime::<Utc>::from_timestamp(CALENDAR_START - 1, 0).is_none());
    assert!(DateTime::<Utc>::from_timestamp(CALENDAR_END, 0).is_some());
    assert!(DateTime::<Utc>::from_timestamp(CALENDAR_END + 1, 0).is_none());
}

#[test]
fn representable_instants() {
    for (secs, subsec) in [
        (0, 0),
        (0, 999_999_999),
        (0, 1_000_000_000),
        (59, 1_000_000_000),
        (59, 1_999_999_999),
        (59, 2_000_000_000),
        (-1, 1_500_000_000),
        (-2, 1_500_000_000),
        (CALENDAR_START - 1, 0),
        (CALENDAR_END + 1, 0),
        (CALENDAR_END, 0),
    ] {
        assert_eq!(
            Timestamp { secs, subsec }.is_representable(),
            DateTime::<Utc>::from_timestamp(secs, subsec).is_some(),
            "{secs} {subsec}"
        );
    }
}

#[test]
fn first_minute_of_monday() {
    for secs in [
        -259_201i64, -259_200, -259_141, -259_140, 0, 345_599, 345_600, 345_659, 345_660,
        1_785_715_200, 1_785_715_259, 1_785_715_260, 1_785_715_199,
    ] {
        let time = DateTime::<Utc>::from_timestamp(secs, 0).unwrap();
        let expected =
            time.weekday() == Weekday::Mon && time.hour() == 0 && time.minute() == 0;
        assert_eq!(
            Timestamp { secs, subsec: 0 }.is_first_minute_of_monday(),
            expected,
            "{time}"
        );
    }
}

#[test]
fn wall_clock() {
    let time = LocalTime { secs: -1, subsec: 5 };
    assert_eq!(time.day(), -1);
    assert_eq!(time.time(), TimeOfDay { secs: 86_399, subsec: 5 });
    assert_eq!(time.nanos(), -999_999_995);
    assert_eq!(LocalTime::from_nanos(-999_999_995), time);
    assert_eq!(LocalTime::on_day(-1, TimeOfDay { secs: 86_399, subsec: 5 }), time);
    assert!(TimeOfDay { secs: 1, subsec: 0 }.is_before(TimeOfDay { secs: 1, subsec: 1 }));
    assert!(!TimeOfDay { secs: 1, subsec: 1 }.is_before(TimeOfDay { secs: 1, subsec: 1 }));
}

#[test]
fn leap_seconds_are_counted_as_chrono_does() {
    // around the end of a day, of a minute, and before 1970
    let times = [
        (86_398, 999_999_999),
        (86_399, 0),
        (86_399, 999_999_999),
        (86_399, 1_000_000_000),
        (86_399, 1_500_000_000),
        (86_399, 1_999_999_999),
        (86_400, 0),
        (86_400, 500_000_000),
        (86_459, 1_200_000_000),
        (90_000, 7),
        (-1, 1_999_999_999),
        (-1, 3),
        (0, 0),
    ];
    let naive = |(secs, subsec)| DateTime::<Utc>::from_timestamp(secs, subsec).unwrap();
    let nanos = |delta: TimeDelta| {
        delta.num_seconds() as i128 * 1_000_000_000 + delta.subsec_nanos() as i128
    };
    for a in times {
        let local_a = LocalTime { secs: a.0, subsec: a.1 };
        let utc_a = Timestamp { secs: a.0, subsec: a.1 };
        for b in times {
            let local_b = LocalTime { secs: b.0, subsec: b.1 };
            let utc_b = Timestamp { secs: b.0, subsec: b.1 };
            assert_eq!(local_a.is_before(local_b), naive(a) < naive(b), "{a:?} {b:?}");
            assert_eq!(utc_a.is_before(utc_b), naive(a) < naive(b), "{a:?} {b:?}");
            assert_eq!(local_a.key() < local_b.key(), naive(a) < naive(b), "{a:?} {b:?}");
            let expected = nanos(naive(a) - naive(b));
            assert_eq!(local_a.since(local_b), expected, "{a:?} {b:?}");
            assert_eq!(utc_a.since(utc_b), expected, "{a:?} {b:?}");
        }
        for delta in [
            0i64,
            1,
            -1,
            400_000_000,
            -400_000_000,
            999_999_999,
            -999_999_999,
            1_000_000_000,
            -1_000_000_000,
            1_700_000_000,
            -1_700_000_000,
            86_400_000_000_000,
            -86_400_000_000_000,
        ] {
            let later = naive(a) + TimeDelta::nanoseconds(delta);
            let expected = LocalTime {
                secs: later.timestamp(),
                subsec: later.timestamp_subsec_nanos(),
            };
            assert_eq!(local_a.plus(delta as i128), expected, "{a:?} {delta}");
        }
    }
}

#[test]
fn durations() {
    assert_eq!(duration_seconds(1_999_999_999), 1);
    assert_eq!(duration_seconds(-1_999_999_999), -1);
    assert_eq!(duration_profile_seconds(3_600_000_000_000), 3_600);
}

#[test]
fn numbers() {
    for text in [
        "0", "+7", "007", "18446744073709551615", "18446744073709551616", "", "+", "-1", "1.5",
        " 1", "++1", "abc", "99999999999999999999999999",
    ] {
        assert_eq!(parse_number(text), text.parse::<u64>().ok(), "{text}");
    }
    for n in [0, 9, 10, 12_345, u64::MAX] {
        assert_eq!(decimal_text(n), n.to_string());
        assert_eq!(parse_number(&decimal_text(n)), Some(n));
    }
    assert!(same_text("NoError", "NoError"));
    assert!(!same_text("NoError", "NoErrors"));
}
