use azure_app_exporter::types::time::{TimeSpan, Timestamp, MAX_ABS_SECS, NANOS_PER_SEC};
use chrono::DateTime;

fn at(secs: i64, nanos: u32) -> Timestamp {
    Timestamp::new(secs, nanos).expect("an instant")
}

fn chrono_nanos(later: (i64, u32), earlier: (i64, u32)) -> i128 {
    let later = DateTime::from_timestamp(later.0, later.1).expect("in chrono's range");
    let earlier = DateTime::from_timestamp(earlier.0, earlier.1).expect("in chrono's range");
    let between = later - earlier;
    between.num_seconds() as i128 * 1_000_000_000 + between.subsec_nanos() as i128
}

#[test]
fn timestamp_keeps_seconds_and_nanoseconds() {
    let t = at(1_704_067_200, 250);
    assert_eq!(t.secs(), 1_704_067_200);
    assert_eq!(t.nanos(), 250);
    let before_epoch = at(-1, 999_999_999);
    assert_eq!(before_epoch.secs(), -1);
    assert_eq!(before_epoch.nanos(), 999_999_999);
}

#[test]
fn timestamp_ends_where_the_range_ends() {
    assert!(Timestamp::new(MAX_ABS_SECS, 0).is_some());
    assert!(Timestamp::new(-MAX_ABS_SECS, 0).is_some());
    assert!(Timestamp::new(MAX_ABS_SECS + 1, 0).is_none());
    assert!(Timestamp::new(-MAX_ABS_SECS - 1, 0).is_none());
    assert!(Timestamp::new(i64::MAX, 0).is_none());
    assert!(Timestamp::new(i64::MIN, 0).is_none());
}

#[test]
fn timestamp_takes_a_leap_second_after_second_59_only() {
    assert!(Timestamp::new(59, 1_000_000_000).is_some());
    assert!(Timestamp::new(59, 1_999_999_999).is_some());
    assert!(Timestamp::new(59, 2_000_000_000).is_none());
    assert!(Timestamp::new(58, 1_000_000_000).is_none());
    assert!(Timestamp::new(0, 1_000_000_000).is_none());
    assert!(Timestamp::new(0, 999_999_999).is_some());
    // one second before the epoch is second 59 of its minute
    assert!(Timestamp::new(-1, 1_500_000_000).is_some());
    assert!(Timestamp::new(-2, 1_500_000_000).is_none());
    assert!(Timestamp::new(-61, 1_000_000_000).is_some());
}

#[test]
fn timestamp_accepts_what_chrono_accepts_within_its_range() {
    for (secs, nanos) in [
        (0_i64, 0_u32),
        (59, 1_000_000_000),
        (58, 1_000_000_000),
        (-1, 1_999_999_999),
        (-2, 1_000_000_000),
        (1_483_228_799, 1_500_000_000),
        (1_704_067_200, 2_000_000_000),
    ] {
        assert_eq!(
            Timestamp::new(secs, nanos).is_some(),
            DateTime::from_timestamp(secs, nanos).is_some(),
            "{secs} {nanos}"
        );
    }
}

#[test]
fn time_between_is_kept_to_the_nanosecond() {
    let base = at(1_000, 0);
    assert_eq!(at(1_010, 0).nanos_since(&base), 10_000_000_000);
    assert_eq!(at(1_010, 999_999_999).nanos_since(&base), 10_999_999_999);
    assert_eq!(at(990, 0).nanos_since(&base), -10_000_000_000);
    assert_eq!(at(989, 1).nanos_since(&base), -10_999_999_999);
    assert_eq!(at(999, 500_000_000).nanos_since(&base), -500_000_000);
    assert_eq!(at(999, 999_999_999).nanos_since(&base), -1);
    assert_eq!(at(1_000, 0).nanos_since(&base), 0);
    assert_eq!(at(1_000, 1).nanos_since(&at(1_000, 2)), -1);
    assert_eq!(at(1_001, 1).nanos_since(&at(1_000, 2)), 999_999_999);
    assert_eq!(at(-1, 0).nanos_since(&at(1, 0)), -2_000_000_000);
}

#[test]
fn time_between_spans_the_whole_range() {
    let first = at(-MAX_ABS_SECS, 0);
    let last = at(MAX_ABS_SECS, 999_999_999);
    assert_eq!(last.nanos_since(&first), 2 * MAX_ABS_SECS as i128 * 1_000_000_000 + 999_999_999);
    assert_eq!(first.nanos_since(&last), -2 * MAX_ABS_SECS as i128 * 1_000_000_000 - 999_999_999);
}

#[test]
fn time_between_counts_the_leap_second_an_instant_stands_in() {
    // 23:59:59 with a leap second running, and instants around it
    let leap = at(1_483_228_799, 1_500_000_000);
    let same_second = at(1_483_228_799, 0);
    let earlier_that_day = at(1_483_228_700, 0);
    assert_eq!(leap.nanos_since(&same_second), 1_500_000_000);
    assert_eq!(same_second.nanos_since(&leap), -1_500_000_000);
    assert_eq!(leap.nanos_since(&earlier_that_day), 100_500_000_000);
    assert_eq!(earlier_that_day.nanos_since(&leap), -100_500_000_000);
    // 03:00:59 with a leap second running, and 03:01:40
    let leap = at(10_859, 1_500_000_000);
    let later = at(10_900, 0);
    assert_eq!(later.nanos_since(&leap), 40_500_000_000);
    assert_eq!(leap.nanos_since(&later), -40_500_000_000);
}

#[test]
fn time_between_loses_a_leap_second_at_midnight() {
    // the one place where an instant that comes first does not lie below zero
    let leap = at(1_483_228_799, 1_900_000_000);
    let next_day = at(1_483_228_800, 100_000_000);
    assert_eq!(leap.nanos_since(&next_day), 800_000_000);
    assert_eq!(next_day.nanos_since(&leap), -800_000_000);
    // further into the next day than into the leap second, the order holds again
    let next_day = at(1_483_228_800, 950_000_000);
    assert_eq!(leap.nanos_since(&next_day), -50_000_000);
    assert_eq!(next_day.nanos_since(&leap), 50_000_000);
}

#[test]
fn time_between_is_that_which_chrono_counts() {
    let instants: [(i64, u32); 14] = [
        (0, 0),
        (0, 1),
        (0, 999_999_999),
        (1, 0),
        (59, 1_000_000_000),
        (59, 1_999_999_999),
        (60, 0),
        (86_399, 1_250_000_000),
        (86_400, 0),
        (-1, 1_750_000_000),
        (-1, 0),
        (-86_401, 1_000_000_001),
        (1_483_228_799, 1_500_000_000),
        (1_704_067_200, 123_456_789),
    ];
    for later in instants {
        for earlier in instants {
            assert_eq!(
                at(later.0, later.1).nanos_since(&at(earlier.0, earlier.1)),
                chrono_nanos(later, earlier),
                "{later:?} since {earlier:?}"
            );
        }
    }
}

#[test]
fn instant_that_comes_first_lies_below_zero() {
    let instants: [(i64, u32); 9] = [
        (-86_400, 0),
        (-1, 999_999_999),
        (0, 0),
        (0, 1),
        (59, 999_999_999),
        (59, 1_000_000_000),
        (59, 1_999_999_999),
        (60, 0),
        (86_400, 5),
    ];
    for (n, earlier) in instants.iter().enumerate() {
        for later in &instants[n + 1..] {
            let earlier = at(earlier.0, earlier.1);
            let later = at(later.0, later.1);
            assert!(earlier.nanos_since(&later) < 0);
            assert!(later.nanos_since(&earlier) > 0);
        }
    }
}

#[test]
fn parse_reads_rfc_3339() {
    let t = Timestamp::parse("2024-01-01T00:00:00Z").expect("a date and time");
    assert_eq!((t.secs(), t.nanos()), (1_704_067_200, 0));
    let t = Timestamp::parse("1970-01-01T00:00:01.5Z").expect("a date and time");
    assert_eq!((t.secs(), t.nanos()), (1, 500_000_000));
    let t = Timestamp::parse("1969-12-31T23:59:59Z").expect("a date and time");
    assert_eq!((t.secs(), t.nanos()), (-1, 0));
}

#[test]
fn parse_applies_the_offset() {
    let t = Timestamp::parse("2024-01-01T02:00:00+02:00").expect("a date and time");
    assert_eq!((t.secs(), t.nanos()), (1_704_067_200, 0));
    let t = Timestamp::parse("2023-12-31T19:00:00-05:00").expect("a date and time");
    assert_eq!((t.secs(), t.nanos()), (1_704_067_200, 0));
    let t = Timestamp::parse("2024-01-01T05:30:00.125+05:30").expect("a date and time");
    assert_eq!((t.secs(), t.nanos()), (1_704_067_200, 125_000_000));
    let t = Timestamp::parse("2024-01-01T00:00:00+00:00").expect("a date and time");
    assert_eq!((t.secs(), t.nanos()), (1_704_067_200, 0));
    let zulu = Timestamp::parse("2024-01-01T00:00:00Z").expect("a date and time");
    let east = Timestamp::parse("2024-01-01T00:00:00+02:00").expect("a date and time");
    assert_eq!(zulu.nanos_since(&east), 7_200_000_000_000);
}

#[test]
fn parse_reads_what_chrono_reads_as_rfc_3339() {
    for text in [
        "2024-01-01T00:00:00Z",
        "2024-01-01T02:00:00+02:00",
        "1999-12-31T23:59:59.999999999-23:59",
        "2016-12-31T23:59:60Z",
        "2017-01-01T05:29:60+05:30",
    ] {
        let ours = Timestamp::parse(text).expect(text);
        let theirs = DateTime::parse_from_rfc3339(text).expect(text);
        assert_eq!(ours.secs(), theirs.timestamp(), "{text}");
        assert_eq!(ours.nanos(), theirs.timestamp_subsec_nanos(), "{text}");
    }
}

#[test]
fn parse_reads_a_leap_second() {
    let t = Timestamp::parse("2016-12-31T23:59:60Z").expect("a date and time");
    assert_eq!((t.secs(), t.nanos()), (1_483_228_799, 1_000_000_000));
    let t = Timestamp::parse("2017-01-01T05:29:60.5+05:30").expect("a date and time");
    assert_eq!((t.secs(), t.nanos()), (1_483_228_799, 1_500_000_000));
}

#[test]
fn parse_rejects_what_is_no_date_and_time() {
    for text in ["", "tomorrow", "2024-01-01", "2024-13-01T00:00:00Z", "2024-01-01 00:00:00", "2024-01-01T00:00:00Z "] {
        let reason = Timestamp::parse(text).expect_err(text);
        assert!(!reason.is_empty());
    }
}

#[test]
fn parse_says_why_in_chronos_words() {
    assert_eq!(Timestamp::parse("tomorrow").expect_err("no date"), "input contains invalid characters");
    assert_eq!(Timestamp::parse("2024-01-01").expect_err("no time"), "premature end of input");
    assert_eq!(Timestamp::parse("2024-13-01T00:00:00Z").expect_err("no month"), "input is out of range");
}

#[test]
fn now_is_after_the_epoch_and_moves_on() {
    let first = Timestamp::now();
    let second = Timestamp::now();
    // 2023-11-14, to tell a clock from a constant
    assert!(first.secs() > 1_700_000_000);
    assert!(first.nanos() < NANOS_PER_SEC);
    assert!(second.nanos_since(&first) >= 0);
}

#[test]
fn span_is_seconds_and_nanoseconds() {
    let span = TimeSpan::new(3, 500_000_000).expect("a span");
    assert_eq!(span.as_secs(), 3);
    assert_eq!(span.subsec_nanos(), 500_000_000);
    assert_eq!(span.as_millis(), 3_500);
    assert!(TimeSpan::new(3, 1_000_000_000).is_none());
    assert!(TimeSpan::new(0, 999_999_999).is_some());
    assert_eq!(TimeSpan::from_secs(7).as_secs(), 7);
    assert_eq!(TimeSpan::from_secs(7).subsec_nanos(), 0);
}

#[test]
fn span_in_milliseconds_drops_what_is_less() {
    assert_eq!(TimeSpan::new(0, 999_999).expect("a span").as_millis(), 0);
    assert_eq!(TimeSpan::new(0, 1_000_000).expect("a span").as_millis(), 1);
    assert_eq!(TimeSpan::new(u64::MAX, 999_999_999).expect("a span").as_millis(), u64::MAX as u128 * 1_000 + 999);
}

#[test]
fn nine_tenths_of_a_span() {
    let span = TimeSpan::from_secs(1_000).nine_tenths();
    assert_eq!((span.as_secs(), span.subsec_nanos()), (900, 0));
    let span = TimeSpan::from_secs(3_599).nine_tenths();
    assert_eq!((span.as_secs(), span.subsec_nanos()), (3_239, 100_000_000));
    let span = TimeSpan::from_secs(1).nine_tenths();
    assert_eq!((span.as_secs(), span.subsec_nanos()), (0, 900_000_000));
    let span = TimeSpan::from_secs(0).nine_tenths();
    assert_eq!((span.as_secs(), span.subsec_nanos()), (0, 0));
    let span = TimeSpan::new(0, 999_999_999).expect("a span").nine_tenths();
    assert_eq!((span.as_secs(), span.subsec_nanos()), (0, 899_999_999));
    let span = TimeSpan::new(u64::MAX, 999_999_999).expect("a span").nine_tenths();
    assert_eq!((span.as_secs(), span.subsec_nanos()), (16_602_069_666_338_596_454, 399_999_999));
}
