use palangrotte::logger::{log_message, timestamp, LogTime};

#[test]
fn log_line_has_the_time_in_brackets() {
    let time = LogTime::new(2024, 1, 2, 3, 4, 5).unwrap();
    assert_eq!(
        log_message(&time, "Started monitoring folder /tmp/c3."),
        "[2024-01-02 03:04:05] Started monitoring folder /tmp/c3.\n"
    );
}

#[test]
fn log_line_of_an_empty_message() {
    let time = LogTime::new(1999, 12, 31, 23, 59, 59).unwrap();
    assert_eq!(log_message(&time, ""), "[1999-12-31 23:59:59] \n");
}

#[test]
fn timestamp_pads_every_field() {
    assert_eq!(timestamp(&LogTime::new(0, 1, 1, 0, 0, 0).unwrap()), "0000-01-01 00:00:00");
    assert_eq!(timestamp(&LogTime::new(987, 10, 9, 8, 7, 6).unwrap()), "0987-10-09 08:07:06");
    assert_eq!(timestamp(&LogTime::new(9999, 12, 31, 23, 59, 60).unwrap()), "9999-12-31 23:59:60");
}

#[test]
fn reading_keeps_its_fields() {
    let time = LogTime::new(2026, 10, 28, 7, 30, 15).unwrap();
    assert_eq!(time, LogTime { year: 2026, month: 10, day: 28, hour: 7, minute: 30, second: 15 });
}

#[test]
fn reading_out_of_range_is_refused() {
    assert!(LogTime::new(10000, 1, 1, 0, 0, 0).is_none());
    assert!(LogTime::new(2024, 0, 1, 0, 0, 0).is_none());
    assert!(LogTime::new(2024, 13, 1, 0, 0, 0).is_none());
    assert!(LogTime::new(2024, 1, 0, 0, 0, 0).is_none());
    assert!(LogTime::new(2024, 1, 32, 0, 0, 0).is_none());
    assert!(LogTime::new(2024, 1, 1, 24, 0, 0).is_none());
    assert!(LogTime::new(2024, 1, 1, 0, 60, 0).is_none());
    assert!(LogTime::new(2024, 1, 1, 0, 0, 61).is_none());
    assert!(LogTime::new(2024, 1, 1, 0, 0, 60).is_some());
}
