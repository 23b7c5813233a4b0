use ffprobe::{Grammar, Ratio};

#[test]
fn ratio_accessors_return_the_parts() {
    let r = Ratio::new(1, 1000);
    assert_eq!(r.numerator(), 1);
    assert_eq!(r.denominator(), 1000);
}

#[test]
fn ratio_parses_colon_and_slash() {
    assert_eq!(Ratio::parse("1:1000"), Ok(Ratio::new(1, 1000)));
    assert_eq!(Ratio::parse("30000/1001"), Ok(Ratio::new(30000, 1001)));
    assert_eq!(Ratio::parse("0/0"), Ok(Ratio::new(0, 0)));
}

#[test]
fn ratio_renders_with_a_colon() {
    assert_eq!(Ratio::new(16, 9).render(), "16:9");
    assert_eq!(Ratio::new(0, 0).render(), "0:0");
    assert_eq!(
        Ratio::new(u64::MAX, 10).render(),
        "18446744073709551615:10"
    );
}

#[test]
fn ratio_round_trip_of_canonical_text() {
    for text in ["1:2", "0:1", "1:1000", "18446744073709551615:1", "24000:1001"] {
        assert_eq!(Ratio::parse(text).unwrap().render(), text);
    }
}

#[test]
fn ratio_slash_is_normalised_to_colon() {
    let r = Ratio::parse("1/2").unwrap();
    assert_eq!(r.render(), "1:2");
    assert_ne!(r.render(), "1/2");
}

#[test]
fn ratio_render_then_parse_gives_the_ratio_back() {
    for (n, d) in [(0u64, 0u64), (1, 1000), (u64::MAX, u64::MAX), (25, 1)] {
        let r = Ratio::new(n, d);
        assert_eq!(Ratio::parse(&r.render()), Ok(r));
    }
}

#[test]
fn ratio_without_exactly_one_separator_is_refused() {
    for text in ["", "12", "1:2:3", "1/2/3", "1:2/3", ":", "::"] {
        let e = Ratio::parse(text).unwrap_err();
        if text == ":" {
            assert_eq!(e.grammar, Grammar::Unsigned);
        } else {
            assert_eq!(e.grammar, Grammar::Ratio, "{text}");
            assert_eq!(e.raw, text);
        }
    }
}

#[test]
fn ratio_with_a_part_that_is_no_number_is_refused() {
    let e = Ratio::parse("a:2").unwrap_err();
    assert_eq!(e.grammar, Grammar::Unsigned);
    assert_eq!(e.raw, "a");
    let e = Ratio::parse("1:b2").unwrap_err();
    assert_eq!(e.grammar, Grammar::Unsigned);
    assert_eq!(e.raw, "b2");
    let e = Ratio::parse("1:").unwrap_err();
    assert_eq!(e.raw, "");
    let e = Ratio::parse("-1:2").unwrap_err();
    assert_eq!(e.raw, "-1");
    let e = Ratio::parse("18446744073709551616:1").unwrap_err();
    assert_eq!(e.raw, "18446744073709551616");
    assert!(Ratio::parse("1 : 2").is_err());
}

#[test]
fn ratio_parts_may_have_a_plus_or_leading_zeros() {
    assert_eq!(Ratio::parse("+1:+2"), Ok(Ratio::new(1, 2)));
    assert_eq!(Ratio::parse("01:002"), Ok(Ratio::new(1, 2)));
    assert_eq!(Ratio::parse("01:002").unwrap().render(), "1:2");
}

#[test]
fn ratio_parts_agree_with_the_standard_reading_of_unsigned_integers() {
    for part in ["0", "7", "+7", "007", "18446744073709551615", "18446744073709551616", "", "+", "-0", "1_0", " 1", "1 ", "٣"] {
        let text = format!("{part}:1");
        let ours = Ratio::parse(&text).ok().map(|r| r.numerator());
        assert_eq!(ours, part.parse::<u64>().ok(), "{part}");
    }
}

#[test]
fn ratio_millis_scales_units_by_the_ratio() {
    assert_eq!(Ratio::new(1, 1000).millis(5000), 5000);
    assert_eq!(Ratio::new(1, 90000).millis(90000), 1000);
    assert_eq!(Ratio::new(1, 3).millis(1), 333);
    assert_eq!(Ratio::new(2, 3).millis(1), 666);
    assert_eq!(Ratio::new(1001, 30000).millis(30), 1001);
    assert_eq!(Ratio::new(1, 1000).millis(0), 0);
    assert_eq!(Ratio::new(0, 0).millis(5), 0);
    assert_eq!(Ratio::new(1, 0).millis(5), u64::MAX);
    assert_eq!(Ratio::new(u64::MAX, 1).millis(u64::MAX), u64::MAX);
    assert_eq!(Ratio::new(1, 1000).millis(u64::MAX), u64::MAX);
    assert_eq!(Ratio::new(1, 1001).millis(u64::MAX), 18428315757951600014);
}
