//! Decimal numerals: what a text denotes as a number, and how a number is
//! written as text.

use vstd::prelude::*;

verus! {

/// Whether `c` is one of the ten decimal digits.
pub open spec fn is_digit(c: char) -> bool {
    '0' <= c && c <= '9'
}

/// The value of a decimal digit.
pub open spec fn digit_value(c: char) -> nat
    recommends
        is_digit(c),
{
    (c as u32 - 48) as nat
}

/// The character that writes a value below ten.
pub open spec fn digit_char(d: nat) -> char
    recommends
        d < 10,
{
    ((d + 48) as u32) as char
}

/// A numeral is one or more decimal digits.
pub open spec fn is_numeral(s: Seq<char>) -> bool {
    s.len() > 0 && forall|i: int| 0 <= i < s.len() ==> is_digit(#[trigger] s[i])
}

/// A numeral is canonical when it has no leading zero, `"0"` itself apart.
pub open spec fn is_canonical_numeral(s: Seq<char>) -> bool {
    is_numeral(s) && (s.len() == 1 || s[0] != '0')
}

/// The number that a sequence of digits denotes, most significant digit first.
pub open spec fn decimal_value(s: Seq<char>) -> nat
    decreases s.len(),
{
    if s.len() == 0 {
        0
    } else {
        10 * decimal_value(s.drop_last()) + digit_value(s.last())
    }
}

/// The canonical numeral of `n`.
pub open spec fn decimal_digits(n: nat) -> Seq<char>
    decreases n,
{
    if n < 10 {
        seq![digit_char(n)]
    } else {
        decimal_digits(n / 10).push(digit_char(n % 10))
    }
}

/// The digits of an unsigned numeral once an optional leading `+` is dropped.
pub open spec fn without_plus(s: Seq<char>) -> Seq<char> {
    if s.len() > 0 && s[0] == '+' {
        s.skip(1)
    } else {
        s
    }
}

/// What `s` denotes as a `u64`: an optional `+`, then a numeral whose value
/// fits. Anything else denotes nothing.
pub open spec fn u64_text(s: Seq<char>) -> Option<u64> {
    let d = without_plus(s);
    if is_numeral(d) && decimal_value(d) <= u64::MAX {
        Some(decimal_value(d) as u64)
    } else {
        None
    }
}

/// What `s` denotes as an `i64`: an optional `+` or `-`, then a numeral whose
/// signed value fits. Anything else denotes nothing.
pub open spec fn i64_text(s: Seq<char>) -> Option<i64> {
    if s.len() > 0 && s[0] == '-' {
        let d = s.skip(1);
        if is_numeral(d) && decimal_value(d) <= 0x8000_0000_0000_0000 {
            Some((0 - decimal_value(d)) as i64)
        } else {
            None
        }
    } else {
        let d = without_plus(s);
        if is_numeral(d) && decimal_value(d) <= i64::MAX {
            Some(decimal_value(d) as i64)
        } else {
            None
        }
    }
}

/// The value of a prefix of a digit sequence never exceeds the value of the whole.
pub proof fn lemma_decimal_value_prefix(s: Seq<char>, k: int)
    requires
        0 <= k <= s.len(),
    ensures
        decimal_value(s.take(k)) <= decimal_value(s),
    decreases s.len(),
{
    if k == s.len() {
        assert(s.take(k) =~= s);
    } else {
        lemma_decimal_value_prefix(s.drop_last(), k);
        assert(s.drop_last().take(k) =~= s.take(k));
    }
}

/// Appending one digit multiplies the value by ten and adds the digit.
pub proof fn lemma_decimal_value_push(s: Seq<char>, c: char)
    ensures
        decimal_value(s.push(c)) == 10 * decimal_value(s) + digit_value(c),
{
    assert(s.push(c).drop_last() =~= s);
}

/// A numeral of two or more digits whose first digit is not zero is at least
/// ten.
proof fn lemma_canonical_at_least_ten(s: Seq<char>)
    requires
        is_numeral(s),
        s.len() >= 2,
        s[0] != '0',
    ensures
        decimal_value(s) >= 10,
    decreases s.len(),
{
    let front = s.drop_last();
    if s.len() == 2 {
        assert(decimal_value(front.drop_last()) == 0);
        assert(decimal_value(front) == digit_value(s[0]));
    } else {
        lemma_canonical_at_least_ten(front);
    }
}

/// Reading back the canonical numeral of a number gives the number.
pub proof fn lemma_digits_then_value(n: nat)
    ensures
        is_canonical_numeral(decimal_digits(n)),
        decimal_value(decimal_digits(n)) == n,
    decreases n,
{
    if n < 10 {
        let s = seq![digit_char(n)];
        assert(decimal_value(s.drop_last()) == 0);
    } else {
        lemma_digits_then_value(n / 10);
        let front = decimal_digits(n / 10);
        lemma_decimal_value_push(front, digit_char(n % 10));
        if front.len() == 1 {
            assert(decimal_value(front.drop_last()) == 0);
        }
    }
}

/// Writing the value of a canonical numeral gives the numeral back.
pub proof fn lemma_value_then_digits(s: Seq<char>)
    requires
        is_canonical_numeral(s),
    ensures
        decimal_digits(decimal_value(s)) == s,
    decreases s.len(),
{
    if s.len() == 1 {
        assert(decimal_value(s.drop_last()) == 0);
    } else {
        let front = s.drop_last();
        lemma_value_then_digits(front);
    }
}

/// The names in a list of texts.
pub open spec fn names_of(list: Seq<&'static str>) -> Seq<Seq<char>> {
    Seq::new(list.len(), |i: int| list[i]@)
}

/// Whether two texts hold the same characters.
pub fn text_eq(a: &str, b: &str) -> (r: bool)
    ensures
        r == (a@ == b@),
{
    broadcast use vstd::utf8::encode_utf8_decode_utf8;

    let x = a.as_bytes();
    let y = b.as_bytes();
    if x.len() != y.len() {
        return false;
    }
    let mut i: usize = 0;
    while i < x.len()
        invariant
            i <= x.len(),
            x.len() == y.len(),
            x@ == vstd::utf8::encode_utf8(a@),
            y@ == vstd::utf8::encode_utf8(b@),
            forall|j: int| 0 <= j < i ==> x@[j] == y@[j],
        decreases x.len() - i,
    {
        if x[i] != y[i] {
            return false;
        }
        i += 1;
    }
    assert(x@ =~= y@);
    assert(vstd::utf8::decode_utf8(vstd::utf8::encode_utf8(b@)) == b@);
    true
}

/// The characters of a text, in order.
pub(crate) fn chars_of(text: &str) -> (chars: Vec<char>)
    ensures
        chars@ == text@,
{
    let mut chars: Vec<char> = Vec::new();
    for c in it: text.chars()
        invariant
            chars@ == it.seq().take(it.index() as int),
            it.seq() == text@,
    {
        chars.push(c);
    }
    chars
}

/// Reads the digits `chars[start..end]` as a number no greater than `limit`.
pub(crate) fn read_numeral(
    chars: &Vec<char>,
    start: usize,
    end: usize,
    limit: u64,
) -> (r: Option<u64>)
    requires
        start <= end <= chars.len(),
    ensures
        r == (if is_numeral(chars@.subrange(start as int, end as int)) && decimal_value(
            chars@.subrange(start as int, end as int),
        ) <= limit {
            Some(decimal_value(chars@.subrange(start as int, end as int)) as u64)
        } else {
            None
        }),
{
    let ghost whole = chars@.subrange(start as int, end as int);
    if start == end {
        return None;
    }
    let mut acc: u64 = 0;
    let mut i: usize = start;
    while i < end
        invariant
            start <= i <= end <= chars.len(),
            whole == chars@.subrange(start as int, end as int),
            forall|j: int| 0 <= j < i - start ==> is_digit(#[trigger] whole[j]),
            acc == decimal_value(whole.take(i - start)),
            acc <= limit,
        decreases end - i,
    {
        let c = chars[i];
        assert(c == whole[i - start]);
        if !(c >= '0' && c <= '9') {
            return None;
        }
        let d: u64 = ((c as u32) - 48) as u64;
        proof {
            assert(whole.take(i - start + 1).drop_last() =~= whole.take(i - start));
            lemma_decimal_value_prefix(whole, i - start + 1);
        }
        if d > limit || acc > (limit - d) / 10 {
            return None;
        }
        acc = 10 * acc + d;
        i += 1;
    }
    assert(whole.take(end - start) =~= whole);
    Some(acc)
}

/// Reads `chars[start..end]` as a `u64`.
pub(crate) fn read_u64(chars: &Vec<char>, start: usize, end: usize) -> (r: Option<u64>)
    requires
        start <= end <= chars.len(),
    ensures
        r == u64_text(chars@.subrange(start as int, end as int)),
{
    let ghost whole = chars@.subrange(start as int, end as int);
    if start < end && chars[start] == '+' {
        assert(whole.skip(1) =~= chars@.subrange(start + 1, end as int));
        read_numeral(chars, start + 1, end, u64::MAX)
    } else {
        read_numeral(chars, start, end, u64::MAX)
    }
}

/// Reads `chars[start..end]` as an `i64`.
pub(crate) fn read_i64(chars: &Vec<char>, start: usize, end: usize) -> (r: Option<i64>)
    requires
        start <= end <= chars.len(),
    ensures
        r == i64_text(chars@.subrange(start as int, end as int)),
{
    let ghost whole = chars@.subrange(start as int, end as int);
    if start < end && chars[start] == '-' {
        assert(whole.skip(1) =~= chars@.subrange(start + 1, end as int));
        match read_numeral(chars, start + 1, end, 0x8000_0000_0000_0000) {
            Some(v) => {
                if v == 0x8000_0000_0000_0000 {
                    Some(i64::MIN)
                } else {
                    Some(0 - (v as i64))
                }
            },
            None => None,
        }
    } else if start < end && chars[start] == '+' {
        assert(whole.skip(1) =~= chars@.subrange(start + 1, end as int));
        match read_numeral(chars, start + 1, end, 0x7fff_ffff_ffff_ffff) {
            Some(v) => Some(v as i64),
            None => None,
        }
    } else {
        match read_numeral(chars, start, end, 0x7fff_ffff_ffff_ffff) {
            Some(v) => Some(v as i64),
            None => None,
        }
    }
}

/// What a text denotes as a `u64`, if anything.
pub fn parse_u64(text: &str) -> (r: Option<u64>)
    ensures
        r == u64_text(text@),
{
    let chars = chars_of(text);
    assert(chars@.subrange(0, chars.len() as int) =~= text@);
    read_u64(&chars, 0, chars.len())
}

/// What a text denotes as an `i64`, if anything.
pub fn parse_i64(text: &str) -> (r: Option<i64>)
    ensures
        r == i64_text(text@),
{
    let chars = chars_of(text);
    assert(chars@.subrange(0, chars.len() as int) =~= text@);
    read_i64(&chars, 0, chars.len())
}

/// The one-character text of a value below ten.
fn digit_text(d: u64) -> (r: &'static str)
    requires
        d < 10,
    ensures
        r@ == seq![digit_char(d as nat)],
{
    proof {
        reveal_strlit("0");
        reveal_strlit("1");
        reveal_strlit("2");
        reveal_strlit("3");
        reveal_strlit("4");
        reveal_strlit("5");
        reveal_strlit("6");
        reveal_strlit("7");
        reveal_strlit("8");
        reveal_strlit("9");
    }
    let r = if d == 0 {
        "0"
    } else if d == 1 {
        "1"
    } else if d == 2 {
        "2"
    } else if d == 3 {
        "3"
    } else if d == 4 {
        "4"
    } else if d == 5 {
        "5"
    } else if d == 6 {
        "6"
    } else if d == 7 {
        "7"
    } else if d == 8 {
        "8"
    } else {
        "9"
    };
    r
}

/// Appends the canonical numeral of `n` to `out`.
pub(crate) fn push_u64(out: &mut String, n: u64)
    ensures
        final(out)@ == old(out)@ + decimal_digits(n as nat),
    decreases n,
{
    if n >= 10 {
        push_u64(out, n / 10);
    }
    out.append(digit_text(n % 10));
}

/// The canonical numeral of `n`.
pub fn render_u64(n: u64) -> (r: String)
    ensures
        r@ == decimal_digits(n as nat),
{
    let mut out = String::new();
    push_u64(&mut out, n);
    out
}

} // verus!
