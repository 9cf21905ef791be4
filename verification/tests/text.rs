use flight_search::resp::LiveLocalDateTime;
use flight_search::text::{parse_i64, push_padded};

fn padded(v: i32, width: usize) -> String {
    let mut out = String::new();
    push_padded(&mut out, v, width);
    out
}

#[test]
fn padding_fills_with_zeros() {
    assert_eq!(padded(7, 2), "07");
    assert_eq!(padded(7, 4), "0007");
    assert_eq!(padded(0, 2), "00");
    assert_eq!(padded(0, 0), "0");
    assert_eq!(padded(2024, 4), "2024");
}

#[test]
fn padding_never_cuts() {
    assert_eq!(padded(123, 2), "123");
    assert_eq!(padded(12345, 4), "12345");
    assert_eq!(padded(i32::MAX, 4), "2147483647");
}

#[test]
fn padding_counts_the_sign() {
    assert_eq!(padded(-1, 4), "-001");
    assert_eq!(padded(-5, 2), "-5");
    assert_eq!(padded(-12, 2), "-12");
    assert_eq!(padded(i32::MIN, 4), "-2147483648");
}

#[test]
fn padding_appends() {
    let mut out = String::from("x=");
    push_padded(&mut out, 3, 2);
    push_padded(&mut out, -3, 3);
    assert_eq!(out, "x=03-03");
}

#[test]
fn padding_is_that_of_the_formatter() {
    let values = [0, 1, 9, 10, 99, 100, 999, 1000, 9999, 10000, -1, -9, -10, -99, -100, -999,
        -1000, i32::MAX, i32::MIN];
    for v in values {
        assert_eq!(padded(v, 2), format!("{:02}", v));
        assert_eq!(padded(v, 4), format!("{:04}", v));
        assert_eq!(padded(v, 12), format!("{:012}", v));
    }
}

#[test]
fn date_time_text() {
    let t = LiveLocalDateTime { year: 2024, month: 3, day: 9, hour: 7, minute: 5, second: 0 };
    assert_eq!(t.to_string(), "2024-03-09 07:05:00");
    let t = LiveLocalDateTime { year: 987, month: 12, day: 31, hour: 23, minute: 59, second: 59 };
    assert_eq!(t.to_string(), "0987-12-31 23:59:59");
}

#[test]
fn date_time_text_of_unchecked_fields() {
    let t = LiveLocalDateTime { year: 12345, month: 0, day: -1, hour: 100, minute: 7, second: 61 };
    assert_eq!(t.to_string(), "12345-00--1 100:07:61");
    assert_eq!(
        t.to_string(),
        format!(
            "{:04}-{:02}-{:02} {:02}:{:02}:{:02}",
            t.year, t.month, t.day, t.hour, t.minute, t.second
        )
    );
}

#[test]
fn integers_are_read() {
    assert_eq!(parse_i64("0"), Some(0));
    assert_eq!(parse_i64("42"), Some(42));
    assert_eq!(parse_i64("-42"), Some(-42));
    assert_eq!(parse_i64("+42"), Some(42));
    assert_eq!(parse_i64("007"), Some(7));
    assert_eq!(parse_i64("-0"), Some(0));
    assert_eq!(parse_i64("9223372036854775807"), Some(i64::MAX));
    assert_eq!(parse_i64("-9223372036854775808"), Some(i64::MIN));
}

#[test]
fn what_is_no_integer_is_not_read() {
    for bad in ["", "-", "+", "+-1", "--1", "1-", "1+1", " 1", "1 ", "1_000", "1.0", "a", "٣",
        "1٣", "9223372036854775808", "-9223372036854775809", "99999999999999999999999999"] {
        assert_eq!(parse_i64(bad), None);
    }
}

#[test]
fn reading_is_that_of_the_standard_library() {
    let samples = ["", "0", "-0", "+0", "00", "1", "-1", "+1", "12", "1a", "a1", "-", "+", "++1",
        "+-1", "-+1", " 1", "1 ", "\t1", "1\n", "9223372036854775806", "9223372036854775807",
        "9223372036854775808", "-9223372036854775807", "-9223372036854775808",
        "-9223372036854775809", "18446744073709551615", "18446744073709551616",
        "000000000000000000000000000000000000001", "-000000000000000000000000000000000000001",
        "100000000000000000000000000000000000000", "1e3", "0x1", "1.5", "१२३", "１２３", "1,000"];
    for s in samples {
        assert_eq!(parse_i64(s), s.parse::<i64>().ok());
    }
}
