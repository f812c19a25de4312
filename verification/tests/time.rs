use termclock::error::ClockError;
use termclock::time::get_current_time;
use termclock::time::sample;
use termclock::time::Time;

#[test]
fn sample_splits_elapsed_seconds_into_fields() {
    let time = sample(3661, 0);
    assert_eq!(time.hours(), 1);
    assert_eq!(time.minutes(), 1);
    assert_eq!(time.seconds(), 1);
    assert_eq!(time.to_text(), "01:01:01");
}

#[test]
fn sample_normalizes_negative_hours() {
    let time = sample(0, -5);
    assert_eq!(time.hours(), 19);
    assert_eq!(time.minutes(), 0);
    assert_eq!(time.seconds(), 0);
    assert_eq!(time.to_text(), "19:00:00");
}

#[test]
fn sample_wraps_positive_offsets_past_midnight() {
    let time = sample(23 * 3600 + 59 * 60 + 59, 5);
    assert_eq!(time.to_text(), "04:59:59");
    assert_eq!(sample(86399, 0).to_text(), "23:59:59");
    assert_eq!(sample(86400, 0).to_text(), "00:00:00");
    assert_eq!(sample(86400, 23).to_text(), "23:00:00");
    assert_eq!(sample(86400, -23).to_text(), "01:00:00");
}

#[test]
fn sample_accepts_the_extremes_of_its_inputs() {
    // u64::MAX = 18446744073709551615 seconds: 5124095576030431 whole hours,
    // which is 7 modulo 24, then 15 seconds into the first minute.
    assert_eq!(sample(u64::MAX, 0).to_text(), "07:00:15");
    // 7 + 127 = 134 = 5 * 24 + 14
    assert_eq!(sample(u64::MAX, 127).to_text(), "14:00:15");
    // 7 - 128 = -121 = -6 * 24 + 23
    assert_eq!(sample(u64::MAX, -128).to_text(), "23:00:15");
    assert_eq!(sample(0, -128).to_text(), "16:00:00");
    assert_eq!(sample(0, 24).to_text(), "00:00:00");
    assert_eq!(sample(0, -24).to_text(), "00:00:00");
}

#[test]
fn sample_can_be_taken_back_to_the_second_of_the_day() {
    let instants: [u64; 7] = [0, 1, 59, 3599, 3661, 86399, 1_700_000_000];
    for elapsed in instants {
        for offset in -23i8..=23 {
            let time = sample(elapsed, offset);
            assert!((0..24).contains(&time.hours()));
            assert!((0..60).contains(&time.minutes()));
            assert!((0..60).contains(&time.seconds()));
            let utc_hours = (i64::from(time.hours()) - i64::from(offset)).rem_euclid(24);
            let second_of_day =
                utc_hours * 3600 + i64::from(time.minutes()) * 60 + i64::from(time.seconds());
            assert_eq!(second_of_day, (elapsed % 86400) as i64);
        }
    }
}

#[test]
fn new_accepts_exactly_the_valid_readings() {
    let time = Time::new(7, 5, 9).unwrap();
    assert_eq!((time.hours(), time.minutes(), time.seconds()), (7, 5, 9));
    assert_eq!(Some(time), Time::new(7, 5, 9));
    assert!(Time::new(0, 0, 0).is_some());
    assert!(Time::new(23, 59, 59).is_some());
    assert!(Time::new(24, 0, 0).is_none());
    assert!(Time::new(0, 60, 0).is_none());
    assert!(Time::new(0, 0, 60).is_none());
    assert!(Time::new(-1, 0, 0).is_none());
    assert!(Time::new(0, -1, 0).is_none());
    assert!(Time::new(0, 0, -1).is_none());
}

#[test]
fn to_text_pads_every_field_to_two_digits() {
    assert_eq!(Time::new(0, 0, 0).unwrap().to_text(), "00:00:00");
    assert_eq!(Time::new(7, 5, 9).unwrap().to_text(), "07:05:09");
    assert_eq!(Time::new(23, 59, 59).unwrap().to_text(), "23:59:59");
    assert_eq!(Time::new(10, 20, 30).unwrap().to_text(), "10:20:30");
}

#[test]
fn current_time_is_a_valid_reading() {
    match get_current_time(0) {
        Ok(time) => {
            assert!((0..24).contains(&time.hours()));
            assert!((0..60).contains(&time.minutes()));
            assert!((0..60).contains(&time.seconds()));
        }
        Err(e) => assert_eq!(e, ClockError::TimeSourceUnavailable),
    }
}

#[test]
fn configuration_errors_are_the_fatal_ones() {
    assert!(ClockError::UnknownFont.is_fatal());
    assert!(ClockError::TimeSourceUnavailable.is_fatal());
    assert!(!ClockError::InvalidSymbol.is_fatal());
    assert!(!ClockError::TerminalUnavailable.is_fatal());
}
