use ffprobe::scalar::{
    bytes_to_string, chronostring_to_duration, clock_to_duration, option_chronostring_to_duration,
    option_string_to_bool, option_string_to_datetime, option_string_to_duration,
    option_string_to_int, option_string_to_naivedatetime, string_to_bytes, string_to_duration,
    string_to_int,
};
use ffprobe::text::{parse_i64, parse_u64, render_u64};
use ffprobe::{ClockTime, DateTime, Duration, Grammar, NaiveDateTime};

#[test]
fn string_to_int_reads_signed_integers() {
    assert_eq!(string_to_int("0"), Ok(0));
    assert_eq!(string_to_int("44100"), Ok(44100));
    assert_eq!(string_to_int("-17"), Ok(-17));
    assert_eq!(string_to_int("+17"), Ok(17));
    assert_eq!(string_to_int("9223372036854775807"), Ok(i64::MAX));
    assert_eq!(string_to_int("-9223372036854775808"), Ok(i64::MIN));
}

#[test]
fn string_to_int_refuses_what_is_no_integer() {
    for text in ["", "-", "+", "abc", "1.5", "12a", " 12", "9223372036854775808", "-9223372036854775809", "--1"] {
        let e = string_to_int(text).unwrap_err();
        assert_eq!(e.raw, text);
        assert_eq!(e.grammar, Grammar::Integer);
    }
}

#[test]
fn integers_agree_with_the_standard_reading() {
    for text in ["0", "-0", "+0", "12", "-12", "0012", "9223372036854775807", "9223372036854775808", "-9223372036854775808", "-9223372036854775809", "", "-", "1e3", "١"] {
        assert_eq!(parse_i64(text), text.parse::<i64>().ok(), "{text}");
        assert_eq!(parse_u64(text), text.parse::<u64>().ok(), "{text}");
    }
}

#[test]
fn numbers_are_written_in_decimal() {
    for n in [0u64, 7, 10, 99, 100, 1000, 18446744073709551615] {
        assert_eq!(render_u64(n), n.to_string());
    }
}

#[test]
fn option_string_to_int_takes_absence_as_nothing() {
    assert_eq!(option_string_to_int(None), Ok(None));
    assert_eq!(option_string_to_int(Some("128000")), Ok(Some(128000)));
    let e = option_string_to_int(Some("N/A")).unwrap_err();
    assert_eq!(e.raw, "N/A");
    assert_eq!(e.grammar, Grammar::Integer);
}

#[test]
fn option_string_to_bool_reads_true_and_false() {
    assert_eq!(option_string_to_bool(None), Ok(None));
    assert_eq!(option_string_to_bool(Some("true")), Ok(Some(true)));
    assert_eq!(option_string_to_bool(Some("false")), Ok(Some(false)));
    for text in ["", "True", "1", "yes", "false "] {
        let e = option_string_to_bool(Some(text)).unwrap_err();
        assert_eq!(e.raw, text);
        assert_eq!(e.grammar, Grammar::Boolean);
    }
}

#[test]
fn string_to_bytes_reads_pairs_of_hex_digits() {
    assert_eq!(string_to_bytes("0x31637661"), Ok(vec![0x31, 0x63, 0x76, 0x61]));
    assert_eq!(string_to_bytes("31637661"), Ok(vec![0x31, 0x63, 0x76, 0x61]));
    assert_eq!(string_to_bytes("0x0000"), Ok(vec![0, 0]));
    assert_eq!(string_to_bytes("fF0a"), Ok(vec![0xff, 0x0a]));
    assert_eq!(string_to_bytes(""), Ok(vec![]));
    assert_eq!(string_to_bytes("0x"), Ok(vec![]));
    assert_eq!(string_to_bytes("0x0x"), Err(ffprobe::Malformed { raw: "0x0x".to_string(), grammar: Grammar::Hex }));
}

#[test]
fn string_to_bytes_refuses_odd_lengths_and_other_characters() {
    for text in ["0", "0x0", "abc", "0x123", "zz", "0xgg", "+f", "0x+f", "0X10", "1 23", "é1"] {
        let e = string_to_bytes(text).unwrap_err();
        assert_eq!(e.raw, text);
        assert_eq!(e.grammar, Grammar::Hex);
    }
}

#[test]
fn hex_round_trip() {
    let cases: [&[u8]; 4] = [&[], &[0], &[0x00, 0x7f, 0x80, 0xff], &[0x61, 0x76, 0x63, 0x31]];
    for bytes in cases {
        let text = bytes_to_string(bytes);
        assert_eq!(text.len(), 2 * bytes.len());
        assert_eq!(string_to_bytes(&text).unwrap(), bytes);
        assert_eq!(string_to_bytes(&format!("0x{text}")).unwrap(), bytes);
    }
    assert_eq!(bytes_to_string(&[0x0a, 0xbc]), "0abc");
    for text in ["0xDEADBEEF", "deadbeef", "0x00", ""] {
        let bytes = string_to_bytes(text).unwrap();
        assert_eq!(string_to_bytes(&bytes_to_string(&bytes)).unwrap(), bytes);
    }
}

#[test]
fn seconds_are_read_as_decimal_numbers() {
    assert_eq!(string_to_duration("1.500000"), Ok(Duration::new(1, 500_000_000)));
    assert_eq!(string_to_duration("30"), Ok(Duration::from_secs(30)));
    assert_eq!(string_to_duration("0.000001"), Ok(Duration::new(0, 1_000)));
    assert_eq!(string_to_duration("596.474195"), Ok(Duration::new(596, 474_195_000)));
    assert_eq!(string_to_duration(".5"), Ok(Duration::from_millis(500)));
    assert_eq!(string_to_duration("5."), Ok(Duration::from_secs(5)));
    assert_eq!(string_to_duration("0.1234567891"), Ok(Duration::new(0, 123_456_789)));
    assert_eq!(string_to_duration("0.9999999999"), Ok(Duration::new(0, 999_999_999)));
    assert_eq!(
        string_to_duration("18446744073709551615.999999999"),
        Ok(Duration::new(u64::MAX, 999_999_999))
    );
}

#[test]
fn seconds_that_are_no_decimal_number_are_refused() {
    for text in ["", ".", "abc", "1.2.3", "-1.5", "1,5", "1e3", " 1", "18446744073709551616", "18446744073709551616.0", "1.5s", "N/A"] {
        let e = string_to_duration(text).unwrap_err();
        assert_eq!(e.raw, text);
        assert_eq!(e.grammar, Grammar::Seconds);
    }
}

#[test]
fn option_string_to_duration_takes_absence_as_nothing() {
    assert_eq!(option_string_to_duration(None), Ok(None));
    assert_eq!(
        option_string_to_duration(Some("2.5")),
        Ok(Some(Duration::from_millis(2500)))
    );
    assert!(option_string_to_duration(Some("two")).is_err());
}

#[test]
fn clock_form_counts_from_midnight() {
    assert_eq!(
        chronostring_to_duration("00:01:30.000000000"),
        Ok(Duration::from_secs(90))
    );
    assert_eq!(
        chronostring_to_duration("01:02:03.5"),
        Ok(Duration::new(3723, 500_000_000))
    );
    assert_eq!(chronostring_to_duration("23:59:59"), Ok(Duration::from_secs(86399)));
    assert_eq!(
        option_chronostring_to_duration(Some("00:00:01.250")),
        Ok(Some(Duration::from_millis(1250)))
    );
    assert_eq!(option_chronostring_to_duration(None), Ok(None));
}

#[test]
fn clock_form_carries_a_leap_second_over() {
    assert_eq!(
        chronostring_to_duration("08:59:60.123"),
        Ok(Duration::new(9 * 3600, 123_000_000))
    );
}

#[test]
fn clock_form_refuses_other_texts() {
    for text in ["", "90", "1:30", "24:00:00", "00:61:00", "aa:bb:cc", "00:01:30 "] {
        let e = chronostring_to_duration(text).unwrap_err();
        assert_eq!(e.raw, text);
        assert_eq!(e.grammar, Grammar::Clock);
    }
}

#[test]
fn clock_to_duration_adds_up_the_fields() {
    let t = ClockTime { hour: 1, minute: 2, second: 3, nanosecond: 4 };
    assert_eq!(clock_to_duration(t), Duration::new(3723, 4));
    let t = ClockTime { hour: 0, minute: 0, second: 59, nanosecond: 1_500_000_000 };
    assert_eq!(clock_to_duration(t), Duration::new(60, 500_000_000));
    let t = ClockTime { hour: u32::MAX, minute: u32::MAX, second: u32::MAX, nanosecond: u32::MAX };
    let secs = 4294967295u64 * 3600 + 4294967295u64 * 60 + 4294967295u64 + 4;
    assert_eq!(clock_to_duration(t), Duration::new(secs, 294_967_295));
}

#[test]
fn naive_datetime_is_read_from_date_and_time() {
    assert_eq!(
        option_string_to_naivedatetime(Some("1970-01-01 00:00:00")),
        Ok(Some(NaiveDateTime { seconds: 0, nanoseconds: 0 }))
    );
    assert_eq!(
        option_string_to_naivedatetime(Some("2021-03-04 05:06:07")),
        Ok(Some(NaiveDateTime { seconds: 1614834367, nanoseconds: 0 }))
    );
    assert_eq!(option_string_to_naivedatetime(None), Ok(None));
    for text in ["", "2021-03-04", "2021-03-04T05:06:07", "2021-13-01 00:00:00", "yesterday"] {
        let e = option_string_to_naivedatetime(Some(text)).unwrap_err();
        assert_eq!(e.raw, text);
        assert_eq!(e.grammar, Grammar::NaiveDateTime);
    }
}

#[test]
fn datetime_is_read_from_rfc3339() {
    assert_eq!(
        option_string_to_datetime(Some("1970-01-01T00:00:00Z")),
        Ok(Some(DateTime { seconds: 0, nanoseconds: 0, offset: 0 }))
    );
    assert_eq!(
        option_string_to_datetime(Some("2021-03-04T05:06:07.250000Z")),
        Ok(Some(DateTime { seconds: 1614834367, nanoseconds: 250_000_000, offset: 0 }))
    );
    assert_eq!(
        option_string_to_datetime(Some("1996-12-19T16:39:57-08:00")),
        Ok(Some(DateTime { seconds: 851042397, nanoseconds: 0, offset: -8 * 3600 }))
    );
    assert_eq!(option_string_to_datetime(None), Ok(None));
    for text in ["", "2021-03-04 05:06:07", "2021-03-04T05:06:07", "now"] {
        let e = option_string_to_datetime(Some(text)).unwrap_err();
        assert_eq!(e.raw, text);
        assert_eq!(e.grammar, Grammar::DateTime);
    }
}

#[test]
fn durations_count_nanoseconds() {
    let d = Duration::new(1, 2_500_000_000);
    assert_eq!(d.as_secs(), 3);
    assert_eq!(d.subsec_nanos(), 500_000_000);
    assert_eq!(d.as_millis(), 3500);
    assert_eq!(Duration::from_millis(5000), Duration::from_secs(5));
    assert_eq!(Duration::from_millis(u64::MAX).as_millis(), u64::MAX as u128);
    assert_eq!(Duration::from_millis(1001).subsec_nanos(), 1_000_000);
}
