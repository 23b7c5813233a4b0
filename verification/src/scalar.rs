//! Coercions of one text to one typed value. Each names the grammar that the
//! text is held to, and fails with the offending text when the text breaks it.

use crate::duration::Duration;
use crate::error::{result_is, Grammar, Malformed, MalformedView};
use crate::text::{chars_of, decimal_value, i64_text, is_digit, parse_i64, read_numeral, text_eq};
use crate::timestamp::{
    clock_text, datetime_text, naive_datetime_text, parse_clock, parse_datetime,
    parse_naive_datetime, ClockTime, DateTime, NaiveDateTime,
};
use vstd::prelude::*;

verus! {

/// What a coercion makes of a reading: the value that was read, or the text
/// as an offence against the grammar.
pub open spec fn held_to<T>(reading: Option<T>, raw: Seq<char>, grammar: Grammar) -> Result<
    T,
    MalformedView,
> {
    match reading {
        Some(v) => Ok(v),
        None => Err(MalformedView { raw, grammar }),
    }
}

/// What a coercion makes of a text that may be absent: nothing of no text,
/// and of a text what the coercion of a text makes of it.
pub open spec fn if_present<T>(
    text: Option<Seq<char>>,
    coerce: spec_fn(Seq<char>) -> Result<T, MalformedView>,
) -> Result<Option<T>, MalformedView> {
    match text {
        None => Ok(None),
        Some(s) => match coerce(s) {
            Ok(v) => Ok(Some(v)),
            Err(e) => Err(e),
        },
    }
}

/// The text of an optional text.
pub open spec fn text_of(text: Option<&str>) -> Option<Seq<char>> {
    match text {
        Some(s) => Some(s@),
        None => None,
    }
}

/// The text as an offence against a grammar.
fn offence(text: &str, grammar: Grammar) -> (e: Malformed)
    ensures
        e@ == (MalformedView { raw: text@, grammar }),
{
    Malformed { raw: text.to_owned(), grammar }
}

// Integers

/// The integer that a text writes.
pub open spec fn int_of_text(s: Seq<char>) -> Result<i64, MalformedView> {
    held_to(i64_text(s), s, Grammar::Integer)
}

/// Reads a signed decimal integer.
pub fn string_to_int(text: &str) -> (r: Result<i64, Malformed>)
    ensures
        result_is(r, int_of_text(text@)),
{
    match parse_i64(text) {
        Some(v) => Ok(v),
        None => Err(offence(text, Grammar::Integer)),
    }
}

/// Reads a signed decimal integer from a text that may be absent.
pub fn option_string_to_int(text: Option<&str>) -> (r: Result<Option<i64>, Malformed>)
    ensures
        result_is(r, if_present(text_of(text), |s: Seq<char>| int_of_text(s))),
{
    match text {
        None => Ok(None),
        Some(s) => match string_to_int(s) {
            Ok(v) => Ok(Some(v)),
            Err(e) => Err(e),
        },
    }
}

// Booleans

/// The truth value that a text writes: `true` or `false`, in those letters.
pub open spec fn bool_text(s: Seq<char>) -> Option<bool> {
    if s == "true"@ {
        Some(true)
    } else if s == "false"@ {
        Some(false)
    } else {
        None
    }
}

/// What [`option_string_to_bool`] makes of a text.
pub open spec fn bool_of_text(s: Seq<char>) -> Result<bool, MalformedView> {
    held_to(bool_text(s), s, Grammar::Boolean)
}

/// Reads `true` or `false` from a text that may be absent.
pub fn option_string_to_bool(text: Option<&str>) -> (r: Result<Option<bool>, Malformed>)
    ensures
        result_is(r, if_present(text_of(text), |s: Seq<char>| bool_of_text(s))),
{
    match text {
        None => Ok(None),
        Some(s) => {
            if text_eq(s, "true") {
                Ok(Some(true))
            } else if text_eq(s, "false") {
                Ok(Some(false))
            } else {
                Err(offence(s, Grammar::Boolean))
            }
        },
    }
}

// Bytes in hexadecimal

/// The value of a hexadecimal digit, in either case.
pub open spec fn hex_value(c: char) -> Option<nat> {
    if '0' <= c && c <= '9' {
        Some((c as u32 - 48) as nat)
    } else if 'a' <= c && c <= 'f' {
        Some((c as u32 - 87) as nat)
    } else if 'A' <= c && c <= 'F' {
        Some((c as u32 - 55) as nat)
    } else {
        None
    }
}

/// The lower-case hexadecimal digit of a value below sixteen.
pub open spec fn hex_char(v: nat) -> char
    recommends
        v < 16,
{
    if v < 10 {
        ((v + 48) as u32) as char
    } else {
        ((v + 87) as u32) as char
    }
}

/// The digits of a hexadecimal text once an optional leading `0x` is dropped.
pub open spec fn without_0x(s: Seq<char>) -> Seq<char> {
    if s.len() >= 2 && s[0] == '0' && s[1] == 'x' {
        s.skip(2)
    } else {
        s
    }
}

/// The byte that the pair of digits at `2 * i` writes.
pub open spec fn hex_pair(digits: Seq<char>, i: int) -> u8
    recommends
        0 <= i,
        2 * i + 1 < digits.len(),
{
    (16 * hex_value(digits[2 * i]).unwrap() + hex_value(digits[2 * i + 1]).unwrap()) as u8
}

/// The bytes that a text writes in hexadecimal: after an optional `0x`, an
/// even number of hexadecimal digits, two to a byte. Any other text writes
/// none.
pub open spec fn hex_bytes(s: Seq<char>) -> Option<Seq<u8>> {
    let digits = without_0x(s);
    if digits.len() % 2 == 0 && (forall|i: int|
        0 <= i < digits.len() ==> hex_value(#[trigger] digits[i]) is Some) {
        Some(Seq::new(digits.len() / 2, |i: int| hex_pair(digits, i)))
    } else {
        None
    }
}

/// The text that writes bytes in lower-case hexadecimal, two digits to a byte.
pub open spec fn hex_text(bytes: Seq<u8>) -> Seq<char> {
    Seq::new(
        2 * bytes.len(),
        |i: int|
            if i % 2 == 0 {
                hex_char((bytes[i / 2] / 16) as nat)
            } else {
                hex_char((bytes[i / 2] % 16) as nat)
            },
    )
}

/// What [`string_to_bytes`] makes of a text.
pub open spec fn bytes_of_text(s: Seq<char>) -> Result<Seq<u8>, MalformedView> {
    held_to(hex_bytes(s), s, Grammar::Hex)
}

/// The value of a hexadecimal digit, in either case.
fn hex_digit(c: char) -> (r: Option<u8>)
    ensures
        match r {
            Some(v) => hex_value(c) == Some(v as nat) && v < 16,
            None => hex_value(c) is None,
        },
{
    if c >= '0' && c <= '9' {
        Some(((c as u32) - 48) as u8)
    } else if c >= 'a' && c <= 'f' {
        Some(((c as u32) - 87) as u8)
    } else if c >= 'A' && c <= 'F' {
        Some(((c as u32) - 55) as u8)
    } else {
        None
    }
}

/// Reads bytes written in hexadecimal, with or without a leading `0x`.
pub fn string_to_bytes(text: &str) -> (r: Result<Vec<u8>, Malformed>)
    ensures
        result_is(r, bytes_of_text(text@)),
{
    let chars = chars_of(text);
    let n = chars.len();
    let start: usize = if n >= 2 && chars[0] == '0' && chars[1] == 'x' {
        2
    } else {
        0
    };
    let ghost digits = without_0x(text@);
    if (n - start) % 2 != 0 {
        return Err(offence(text, Grammar::Hex));
    }
    let mut out: Vec<u8> = Vec::new();
    let mut i: usize = start;
    while i < n
        invariant
            start <= i <= n == chars.len(),
            (i - start) % 2 == 0,
            (n - start) % 2 == 0,
            digits == chars@.subrange(start as int, n as int),
            digits == without_0x(text@),
            forall|j: int| 0 <= j < i - start ==> hex_value(#[trigger] digits[j]) is Some,
            out@.len() == (i - start) / 2,
            forall|k: int| 0 <= k < out@.len() ==> out@[k] == hex_pair(digits, k),
        decreases n - i,
    {
        assert(digits[i - start] == chars@[i as int]);
        assert(digits[i - start + 1] == chars@[i + 1]);
        let hi = match hex_digit(chars[i]) {
            Some(v) => v,
            None => {
                return Err(offence(text, Grammar::Hex));
            },
        };
        let lo = match hex_digit(chars[i + 1]) {
            Some(v) => v,
            None => {
                return Err(offence(text, Grammar::Hex));
            },
        };
        out.push(16 * hi + lo);
        i += 2;
    }
    assert(out.deep_view() =~= hex_bytes(text@).unwrap());
    Ok(out)
}

/// The one-character text of a value below sixteen, in lower case.
fn hex_digit_text(v: u8) -> (r: &'static str)
    requires
        v < 16,
    ensures
        r@ == seq![hex_char(v as nat)],
{
    proof {
        reveal_strlit("0");
        reveal_strlit("1");
        reveal_strlit("2");
        reveal_strlit("3");
        reveal_strlit("4");
        reveal_strlit("5");
        reveal_strlit("6");
        reveal_strlit("7");
        reveal_strlit("8");
        reveal_strlit("9");
        reveal_strlit("a");
        reveal_strlit("b");
        reveal_strlit("c");
        reveal_strlit("d");
        reveal_strlit("e");
        reveal_strlit("f");
    }
    let r = if v == 0 {
        "0"
    } else if v == 1 {
        "1"
    } else if v == 2 {
        "2"
    } else if v == 3 {
        "3"
    } else if v == 4 {
        "4"
    } else if v == 5 {
        "5"
    } else if v == 6 {
        "6"
    } else if v == 7 {
        "7"
    } else if v == 8 {
        "8"
    } else if v == 9 {
        "9"
    } else if v == 10 {
        "a"
    } else if v == 11 {
        "b"
    } else if v == 12 {
        "c"
    } else if v == 13 {
        "d"
    } else if v == 14 {
        "e"
    } else {
        "f"
    };
    r
}

/// Writes bytes in lower-case hexadecimal, two digits to a byte and no prefix.
pub fn bytes_to_string(bytes: &[u8]) -> (text: String)
    ensures
        text@ == hex_text(bytes@),
{
    let mut out = String::new();
    let mut i: usize = 0;
    while i < bytes.len()
        invariant
            i <= bytes.len(),
            out@ == hex_text(bytes@.take(i as int)),
        decreases bytes.len() - i,
    {
        let b = bytes[i];
        out.append(hex_digit_text(b / 16));
        out.append(hex_digit_text(b % 16));
        i += 1;
    }
    out
}

/// Reading what [`bytes_to_string`] writes gives the bytes back, with or
/// without `0x` before the digits.
pub proof fn lemma_hex_round_trip(bytes: Seq<u8>)
    ensures
        hex_bytes(hex_text(bytes)) == Some(bytes),
        hex_bytes("0x"@ + hex_text(bytes)) == Some(bytes),
{
    reveal_strlit("0x");
}

/// Whatever bytes a text writes, writing them again and reading that gives the
/// same bytes. And a text writes none unless, its `0x` apart, it is an even
/// number of hexadecimal digits.
pub proof fn lemma_hex_reading(s: Seq<char>)
    ensures
        hex_bytes(s) matches Some(bytes) ==> hex_bytes(hex_text(bytes)) == Some(bytes),
        without_0x(s).len() % 2 == 1 ==> hex_bytes(s) is None,
        (exists|i: int|
            0 <= i < without_0x(s).len() && hex_value(#[trigger] without_0x(s)[i]) is None)
            ==> hex_bytes(s) is None,
{
}

// Spans of time in decimal seconds

/// Whether `s` has a point at `i` and only digits elsewhere.
pub open spec fn point_at(s: Seq<char>, i: int) -> bool {
    &&& 0 <= i < s.len()
    &&& s[i] == '.'
    &&& forall|j: int| 0 <= j < s.len() && j != i ==> is_digit(#[trigger] s[j])
}

/// The nanoseconds that the digits after a point write: the first nine count,
/// the rest are dropped.
pub open spec fn fraction_nanos(digits: Seq<char>) -> nat {
    decimal_value(
        Seq::new(
            9,
            |i: int|
                if i < digits.len() {
                    digits[i]
                } else {
                    '0'
                },
        ),
    )
}

/// The seconds and nanoseconds that a text writes as a decimal number of
/// seconds: digits, or digits around one point with a digit on at least one
/// side, and whole seconds that fit `u64`. Any other text writes none.
pub open spec fn seconds_text(s: Seq<char>) -> Option<(u64, nat)> {
    if s.len() > 0 && (forall|j: int| 0 <= j < s.len() ==> is_digit(#[trigger] s[j])) {
        if decimal_value(s) <= u64::MAX {
            Some((decimal_value(s) as u64, 0nat))
        } else {
            None
        }
    } else if s.len() >= 2 && exists|i: int| point_at(s, i) {
        let i = choose|i: int| point_at(s, i);
        if decimal_value(s.take(i)) <= u64::MAX {
            Some((decimal_value(s.take(i)) as u64, fraction_nanos(s.skip(i + 1))))
        } else {
            None
        }
    } else {
        None
    }
}

/// What [`option_string_to_duration`] makes of a text: the span in
/// nanoseconds.
pub open spec fn duration_of_text(s: Seq<char>) -> Result<nat, MalformedView> {
    match seconds_text(s) {
        Some((secs, nanos)) => Ok((secs * 1_000_000_000 + nanos) as nat),
        None => Err(MalformedView { raw: s, grammar: Grammar::Seconds }),
    }
}

spec fn ten_to(i: int) -> nat {
    if i <= 0 {
        1
    } else if i == 1 {
        10
    } else if i == 2 {
        100
    } else if i == 3 {
        1_000
    } else if i == 4 {
        10_000
    } else if i == 5 {
        100_000
    } else if i == 6 {
        1_000_000
    } else if i == 7 {
        10_000_000
    } else if i == 8 {
        100_000_000
    } else {
        1_000_000_000
    }
}

/// Reads the nanoseconds that the digits `chars[start..]` write after a point.
fn read_fraction(chars: &Vec<char>, start: usize) -> (nanos: u32)
    requires
        start <= chars.len(),
        forall|j: int| start <= j < chars.len() ==> is_digit(#[trigger] chars@[j]),
    ensures
        nanos == fraction_nanos(chars@.skip(start as int)),
        nanos < 1_000_000_000,
{
    let ghost digits = chars@.skip(start as int);
    let ghost padded = Seq::new(
        9,
        |i: int|
            if i < digits.len() {
                digits[i]
            } else {
                '0'
            },
    );
    let mut acc: u32 = 0;
    let mut i: usize = 0;
    while i < 9
        invariant
            i <= 9,
            start <= chars.len(),
            digits == chars@.skip(start as int),
            forall|j: int| start <= j < chars.len() ==> is_digit(#[trigger] chars@[j]),
            padded == Seq::new(
                9,
                |i: int|
                    if i < digits.len() {
                        digits[i]
                    } else {
                        '0'
                    },
            ),
            acc == decimal_value(padded.take(i as int)),
            acc < ten_to(i as int),
        decreases 9 - i,
    {
        let d: u32 = if i < chars.len() - start {
            let c = chars[start + i];
            (c as u32) - 48
        } else {
            0
        };
        assert(padded.take(i + 1).drop_last() =~= padded.take(i as int));
        acc = 10 * acc + d;
        i += 1;
    }
    assert(padded.take(9) =~= padded);
    acc
}

/// Reads a span of time written as a decimal number of seconds.
pub fn string_to_duration(text: &str) -> (r: Result<Duration, Malformed>)
    ensures
        result_is(r, duration_of_text(text@)),
{
    let chars = chars_of(text);
    let n = chars.len();
    let mut point: usize = n;
    let mut i: usize = 0;
    while i < n
        invariant
            i <= n == chars.len(),
            point <= n,
            chars@ == text@,
            point == n ==> forall|j: int| 0 <= j < i ==> is_digit(#[trigger] chars@[j]),
            point < n ==> point < i && chars@[point as int] == '.' && forall|j: int|
                0 <= j < i && j != point ==> is_digit(#[trigger] chars@[j]),
        decreases n - i,
    {
        let c = chars[i];
        if c == '.' && point == n {
            point = i;
        } else if !(c >= '0' && c <= '9') {
            return Err(offence(text, Grammar::Seconds));
        }
        i += 1;
    }
    if point == n {
        if n == 0 {
            return Err(offence(text, Grammar::Seconds));
        }
        assert(chars@.subrange(0, n as int) =~= chars@);
        match read_numeral(&chars, 0, n, u64::MAX) {
            Some(secs) => Ok(Duration::new(secs, 0)),
            None => Err(offence(text, Grammar::Seconds)),
        }
    } else {
        if n < 2 {
            return Err(offence(text, Grammar::Seconds));
        }
        assert(point_at(chars@, point as int));
        let secs: u64 = if point == 0 {
            0
        } else {
            match read_numeral(&chars, 0, point, u64::MAX) {
                Some(v) => v,
                None => {
                    return Err(offence(text, Grammar::Seconds));
                },
            }
        };
        let nanos = read_fraction(&chars, point + 1);
        Ok(Duration::new(secs, nanos))
    }
}

/// Reads a span of time written as a decimal number of seconds, from a text
/// that may be absent.
pub fn option_string_to_duration(text: Option<&str>) -> (r: Result<Option<Duration>, Malformed>)
    ensures
        result_is(r, if_present(text_of(text), |s: Seq<char>| duration_of_text(s))),
{
    match text {
        None => Ok(None),
        Some(s) => match string_to_duration(s) {
            Ok(d) => Ok(Some(d)),
            Err(e) => Err(e),
        },
    }
}

// Spans of time in clock form

/// The span, in nanoseconds, from midnight to a time of day.
pub open spec fn clock_nanos(t: ClockTime) -> nat {
    ((t.hour * 3600 + t.minute * 60 + t.second) * 1_000_000_000 + t.nanosecond) as nat
}

/// The span from midnight to a time of day: hours, minutes and seconds in
/// seconds, and the nanoseconds on top.
pub fn clock_to_duration(t: ClockTime) -> (d: Duration)
    ensures
        d@ == clock_nanos(t),
{
    let secs: u64 = (t.hour as u64) * 3600 + (t.minute as u64) * 60 + (t.second as u64);
    Duration::new(secs, t.nanosecond)
}

/// What [`option_chronostring_to_duration`] makes of a text.
pub open spec fn clock_duration_of_text(s: Seq<char>) -> Result<nat, MalformedView> {
    match clock_text(s) {
        Some(t) => Ok(clock_nanos(t)),
        None => Err(MalformedView { raw: s, grammar: Grammar::Clock }),
    }
}

/// Reads a span of time written as a time of day, `HH:MM:SS` with an optional
/// fraction of a second.
pub fn chronostring_to_duration(text: &str) -> (r: Result<Duration, Malformed>)
    ensures
        result_is(r, clock_duration_of_text(text@)),
{
    match parse_clock(text) {
        Ok(t) => Ok(clock_to_duration(t)),
        Err(_) => Err(offence(text, Grammar::Clock)),
    }
}

/// Reads a span of time written as a time of day, from a text that may be
/// absent.
pub fn option_chronostring_to_duration(text: Option<&str>) -> (r: Result<
    Option<Duration>,
    Malformed,
>)
    ensures
        result_is(r, if_present(text_of(text), |s: Seq<char>| clock_duration_of_text(s))),
{
    match text {
        None => Ok(None),
        Some(s) => match chronostring_to_duration(s) {
            Ok(d) => Ok(Some(d)),
            Err(e) => Err(e),
        },
    }
}

// Points in time

/// What [`option_string_to_naivedatetime`] makes of a text.
pub open spec fn naive_datetime_of_text(s: Seq<char>) -> Result<NaiveDateTime, MalformedView> {
    held_to(naive_datetime_text(s), s, Grammar::NaiveDateTime)
}

/// Reads a date and time written as `YYYY-MM-DD HH:MM:SS`.
pub fn string_to_naivedatetime(text: &str) -> (r: Result<NaiveDateTime, Malformed>)
    ensures
        result_is(r, naive_datetime_of_text(text@)),
{
    match parse_naive_datetime(text) {
        Ok(t) => Ok(t),
        Err(_) => Err(offence(text, Grammar::NaiveDateTime)),
    }
}

/// Reads a date and time written as `YYYY-MM-DD HH:MM:SS`, from a text that
/// may be absent.
pub fn option_string_to_naivedatetime(text: Option<&str>) -> (r: Result<
    Option<NaiveDateTime>,
    Malformed,
>)
    ensures
        result_is(r, if_present(text_of(text), |s: Seq<char>| naive_datetime_of_text(s))),
{
    match text {
        None => Ok(None),
        Some(s) => match string_to_naivedatetime(s) {
            Ok(t) => Ok(Some(t)),
            Err(e) => Err(e),
        },
    }
}

/// What [`option_string_to_datetime`] makes of a text.
pub open spec fn datetime_of_text(s: Seq<char>) -> Result<DateTime, MalformedView> {
    held_to(datetime_text(s), s, Grammar::DateTime)
}

/// Reads a point in time written as RFC 3339 has it.
pub fn string_to_datetime(text: &str) -> (r: Result<DateTime, Malformed>)
    ensures
        result_is(r, datetime_of_text(text@)),
{
    match parse_datetime(text) {
        Ok(t) => Ok(t),
        Err(_) => Err(offence(text, Grammar::DateTime)),
    }
}

/// Reads a point in time written as RFC 3339 has it, from a text that may be
/// absent.
pub fn option_string_to_datetime(text: Option<&str>) -> (r: Result<Option<DateTime>, Malformed>)
    ensures
        result_is(r, if_present(text_of(text), |s: Seq<char>| datetime_of_text(s))),
{
    match text {
        None => Ok(None),
        Some(s) => match string_to_datetime(s) {
            Ok(t) => Ok(Some(t)),
            Err(e) => Err(e),
        },
    }
}

} // verus!
