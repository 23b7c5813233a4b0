use ffprobe::json::{clone_members, find};
use ffprobe::member::{
    read_array, read_clock, read_datetime, read_hex, read_integer, read_integer_or_text,
    read_naive_datetime, read_object, read_ratio, read_seconds, read_text, read_unsigned,
};
use ffprobe::text::text_eq;
use ffprobe::{
    DecodeError, Duration, Fault, Grammar, JsonNumber, JsonType, JsonValue, Malformed,
    MemberError, Ratio, Shape,
};

fn pos(n: u64) -> JsonValue {
    JsonValue::Number(JsonNumber::PosInt(n))
}

fn neg(n: i64) -> JsonValue {
    JsonValue::Number(JsonNumber::NegInt(n))
}

fn fraction(x: f64) -> JsonValue {
    JsonValue::Number(JsonNumber::Float(x.to_bits()))
}

fn string(s: &str) -> JsonValue {
    JsonValue::String(s.to_string())
}

fn wrong(expected: Shape, found: JsonType) -> Fault {
    Fault::WrongType { expected, found }
}

fn sample() -> Vec<JsonValue> {
    vec![
        JsonValue::Null,
        JsonValue::Bool(false),
        pos(3),
        string("3"),
        JsonValue::Array(vec![pos(1)]),
        JsonValue::Object(vec![("a".to_string(), pos(1))]),
    ]
}

#[test]
fn kinds_of_values() {
    let kinds: Vec<JsonType> = sample().iter().map(|v| v.kind()).collect();
    assert_eq!(
        kinds,
        vec![
            JsonType::Null,
            JsonType::Boolean,
            JsonType::Number,
            JsonType::Text,
            JsonType::Array,
            JsonType::Object
        ]
    );
}

#[test]
fn numbers_as_integers() {
    assert_eq!(JsonNumber::PosInt(5).as_i64(), Some(5));
    assert_eq!(JsonNumber::PosInt(i64::MAX as u64).as_i64(), Some(i64::MAX));
    assert_eq!(JsonNumber::PosInt(i64::MAX as u64 + 1).as_i64(), None);
    assert_eq!(JsonNumber::NegInt(-5).as_i64(), Some(-5));
    assert_eq!(JsonNumber::NegInt(i64::MIN).as_i64(), Some(i64::MIN));
    assert_eq!(JsonNumber::Float(2.0f64.to_bits()).as_i64(), None);
    assert_eq!(JsonNumber::PosInt(u64::MAX).as_u64(), Some(u64::MAX));
    assert_eq!(JsonNumber::NegInt(-1).as_u64(), None);
    assert_eq!(JsonNumber::NegInt(7).as_u64(), Some(7));
    assert_eq!(JsonNumber::Float(0).as_u64(), None);
}

#[test]
fn find_returns_the_first_member_of_that_name() {
    let members = vec![
        ("a".to_string(), pos(1)),
        ("b".to_string(), pos(2)),
        ("a".to_string(), pos(3)),
        ("".to_string(), pos(4)),
        ("é".to_string(), pos(5)),
    ];
    assert_eq!(find(&members, "a"), Some(&pos(1)));
    assert_eq!(find(&members, "b"), Some(&pos(2)));
    assert_eq!(find(&members, ""), Some(&pos(4)));
    assert_eq!(find(&members, "é"), Some(&pos(5)));
    assert_eq!(find(&members, "e"), None);
    assert_eq!(find(&members, "A"), None);
    assert_eq!(find(&Vec::new(), "a"), None);
}

#[test]
fn texts_compare_by_their_characters() {
    assert!(text_eq("", ""));
    assert!(text_eq("codec_type", "codec_type"));
    assert!(!text_eq("codec_type", "codec_typ"));
    assert!(!text_eq("a", "b"));
    assert!(text_eq("日本語", "日本語"));
    assert!(!text_eq("日本語", "日本誤"));
}

#[test]
fn clones_are_equal_to_what_they_copy() {
    let tree = JsonValue::Object(vec![
        ("list".to_string(), JsonValue::Array(sample())),
        ("deep".to_string(), JsonValue::Object(vec![("x".to_string(), fraction(0.25))])),
    ]);
    assert_eq!(tree.clone(), tree);
    assert_eq!(tree.deep_clone(), tree);
    let JsonValue::Object(members) = &tree else { panic!() };
    assert_eq!(&clone_members(members), members);
}

#[test]
fn integers_are_read_from_numbers_only() {
    assert_eq!(read_integer(&pos(7)), Ok(7));
    assert_eq!(read_integer(&neg(-7)), Ok(-7));
    assert_eq!(
        read_integer(&pos(u64::MAX)),
        Err(wrong(Shape::Integer, JsonType::Number))
    );
    assert_eq!(read_integer(&fraction(7.0)), Err(wrong(Shape::Integer, JsonType::Number)));
    assert_eq!(read_integer(&string("7")), Err(wrong(Shape::Integer, JsonType::Text)));
    assert_eq!(read_integer(&JsonValue::Null), Err(wrong(Shape::Integer, JsonType::Null)));
    assert_eq!(read_unsigned(&pos(u64::MAX)), Ok(u64::MAX));
    assert_eq!(read_unsigned(&neg(-1)), Err(wrong(Shape::Unsigned, JsonType::Number)));
    assert_eq!(
        read_unsigned(&JsonValue::Bool(true)),
        Err(wrong(Shape::Unsigned, JsonType::Boolean))
    );
}

#[test]
fn integers_given_as_numbers_or_as_text() {
    assert_eq!(read_integer_or_text(&pos(48000)), Ok(48000));
    assert_eq!(read_integer_or_text(&string("48000")), Ok(48000));
    assert_eq!(read_integer_or_text(&string("-1")), Ok(-1));
    assert_eq!(
        read_integer_or_text(&string("48k")),
        Err(Fault::Malformed(Malformed { raw: "48k".to_string(), grammar: Grammar::Integer }))
    );
    assert_eq!(
        read_integer_or_text(&fraction(1.5)),
        Err(wrong(Shape::IntegerOrText, JsonType::Number))
    );
    assert_eq!(
        read_integer_or_text(&JsonValue::Array(vec![])),
        Err(wrong(Shape::IntegerOrText, JsonType::Array))
    );
}

#[test]
fn texts_are_held_to_their_grammars() {
    assert_eq!(read_text(&string("x")), Ok("x".to_string()));
    assert_eq!(read_text(&pos(1)), Err(wrong(Shape::Text, JsonType::Number)));
    assert_eq!(read_ratio(&string("16:9")), Ok(Ratio::new(16, 9)));
    assert_eq!(read_ratio(&pos(16)), Err(wrong(Shape::Text, JsonType::Number)));
    assert!(matches!(read_ratio(&string("16")), Err(Fault::Malformed(m)) if m.grammar == Grammar::Ratio));
    assert_eq!(read_hex(&string("0x00ff")), Ok(vec![0, 255]));
    assert!(matches!(read_hex(&string("0x0")), Err(Fault::Malformed(m)) if m.grammar == Grammar::Hex));
    assert_eq!(read_seconds(&string("1.5")), Ok(Duration::from_millis(1500)));
    assert!(matches!(read_seconds(&string("x")), Err(Fault::Malformed(m)) if m.grammar == Grammar::Seconds));
    assert_eq!(read_seconds(&pos(1)), Err(wrong(Shape::Text, JsonType::Number)));
    assert_eq!(read_clock(&string("00:00:02")), Ok(Duration::from_secs(2)));
    assert!(matches!(read_clock(&string("2")), Err(Fault::Malformed(m)) if m.grammar == Grammar::Clock));
    assert!(read_naive_datetime(&string("2000-01-01 00:00:00")).is_ok());
    assert!(matches!(
        read_naive_datetime(&string("2000-01-01")),
        Err(Fault::Malformed(m)) if m.grammar == Grammar::NaiveDateTime
    ));
    assert!(read_datetime(&string("2000-01-01T00:00:00+01:00")).is_ok());
    assert!(matches!(
        read_datetime(&string("2000-01-01")),
        Err(Fault::Malformed(m)) if m.grammar == Grammar::DateTime
    ));
}

#[test]
fn objects_and_arrays_are_handed_out_as_they_are() {
    let members = vec![("a".to_string(), pos(1))];
    assert_eq!(read_object(&JsonValue::Object(members.clone())), Ok(&members));
    assert_eq!(read_object(&pos(1)), Err(wrong(Shape::Object, JsonType::Number)));
    let items = vec![pos(1), JsonValue::Null];
    assert_eq!(read_array(&JsonValue::Array(items.clone())), Ok(&items));
    assert_eq!(
        read_array(&JsonValue::Object(members)),
        Err(wrong(Shape::Array, JsonType::Object))
    );
}

#[test]
fn messages_name_member_and_fault() {
    let e = MemberError { name: "width".to_string(), fault: Fault::Missing };
    assert_eq!(e.message(), "missing member `width`");
    let e = MemberError {
        name: "width".to_string(),
        fault: wrong(Shape::Integer, JsonType::Text),
    };
    assert_eq!(e.message(), "member `width`: expected an integer, found a text");
    let e = MemberError {
        name: "BPS".to_string(),
        fault: Fault::Malformed(Malformed { raw: "N/A".to_string(), grammar: Grammar::Integer }),
    };
    assert_eq!(e.message(), "member `BPS`: `N/A` is not a signed integer");
    let e = MemberError { name: "encoder".to_string(), fault: Fault::Duplicate };
    assert_eq!(e.message(), "member `encoder` is given under two names");
    let e = MemberError { name: "x".to_string(), fault: Fault::Unknown };
    assert_eq!(e.message(), "unknown member `x`");
    assert_eq!(DecodeError::Syntax("EOF".to_string()).message(), "EOF");
    assert_eq!(DecodeError::Member(e).message(), "unknown member `x`");
    for g in [
        Grammar::Integer,
        Grammar::Unsigned,
        Grammar::Boolean,
        Grammar::Hex,
        Grammar::Ratio,
        Grammar::Seconds,
        Grammar::Clock,
        Grammar::DateTime,
        Grammar::NaiveDateTime,
    ] {
        assert!(!g.describe().is_empty());
    }
    for s in [
        Shape::Integer,
        Shape::Unsigned,
        Shape::Text,
        Shape::IntegerOrText,
        Shape::Array,
        Shape::Object,
    ] {
        assert!(!s.describe().is_empty());
    }
}
