//! A ratio of two unsigned integers, such as a time base or a frame rate.

use crate::error::{Grammar, Malformed, MalformedView};
use crate::text::{
    chars_of, decimal_digits, decimal_value, is_canonical_numeral, is_numeral,
    lemma_digits_then_value, lemma_value_then_digits, push_u64, read_u64, u64_text,
};
use vstd::prelude::*;

verus! {

/// A ratio such as `1:1000`. The denominator may be zero: nothing is divided
/// until a consumer needs a quotient.
#[derive(Debug, Clone, Copy, PartialEq, Eq, Structural)]
pub struct Ratio {
    numerator: u64,
    denominator: u64,
}

/// The two characters that may part a numerator from its denominator.
pub open spec fn is_separator(c: char) -> bool {
    c == ':' || c == '/'
}

/// Whether `s` has a separator at `i` and nowhere else.
pub open spec fn splits_at(s: Seq<char>, i: int) -> bool {
    &&& 0 <= i < s.len()
    &&& is_separator(s[i])
    &&& forall|j: int| 0 <= j < s.len() && j != i ==> !is_separator(#[trigger] s[j])
}

/// The place of the one separator of `s`, if it has exactly one.
pub open spec fn separator_of(s: Seq<char>) -> Option<int> {
    if exists|i: int| splits_at(s, i) {
        Some(choose|i: int| splits_at(s, i))
    } else {
        None
    }
}

/// What a text denotes as a ratio. A text without exactly one separator
/// breaks the grammar of ratios as a whole; otherwise the first part that is
/// no unsigned integer is the offending text.
pub open spec fn ratio_text(s: Seq<char>) -> Result<(u64, u64), MalformedView> {
    match separator_of(s) {
        None => Err(MalformedView { raw: s, grammar: Grammar::Ratio }),
        Some(i) => match (u64_text(s.take(i)), u64_text(s.skip(i + 1))) {
            (None, _) => Err(MalformedView { raw: s.take(i), grammar: Grammar::Unsigned }),
            (Some(_), None) => Err(
                MalformedView { raw: s.skip(i + 1), grammar: Grammar::Unsigned },
            ),
            (Some(n), Some(d)) => Ok((n, d)),
        },
    }
}

/// The canonical text of a ratio: both parts in decimal around a colon.
pub open spec fn ratio_render(numerator: u64, denominator: u64) -> Seq<char> {
    decimal_digits(numerator as nat) + seq![':'] + decimal_digits(denominator as nat)
}

/// The whole milliseconds in `units` units of `base.0 / base.1` seconds each.
/// No units, or units of no length, make no time. Units of a length over
/// zero make more time than can be counted, and so does any span of `2^64`
/// milliseconds or more: both give `u64::MAX`.
pub open spec fn millis_in(units: nat, base: (u64, u64)) -> u64 {
    let product = units * base.0;
    if product == 0 {
        0
    } else if base.1 == 0 {
        u64::MAX
    } else if product * 1000 / (base.1 as int) > u64::MAX {
        u64::MAX
    } else {
        (product * 1000 / (base.1 as int)) as u64
    }
}

/// A text has at most one place at which it splits.
pub proof fn lemma_split_is_unique(s: Seq<char>, i: int)
    requires
        splits_at(s, i),
    ensures
        separator_of(s) == Some(i),
{
}

impl View for Ratio {
    type V = (u64, u64);

    closed spec fn view(&self) -> (u64, u64) {
        (self.numerator, self.denominator)
    }
}

impl DeepView for Ratio {
    type V = (u64, u64);

    open spec fn deep_view(&self) -> (u64, u64) {
        self@
    }
}

impl Ratio {
    /// The first part of the ratio.
    pub open spec fn spec_numerator(&self) -> u64 {
        self@.0
    }

    /// The second part of the ratio.
    pub open spec fn spec_denominator(&self) -> u64 {
        self@.1
    }

    /// The ratio of `numerator` to `denominator`, as given: nothing is reduced.
    pub fn new(numerator: u64, denominator: u64) -> (r: Ratio)
        ensures
            r@ == (numerator, denominator),
    {
        Ratio { numerator, denominator }
    }

    /// The first part of the ratio.
    #[verifier::when_used_as_spec(spec_numerator)]
    pub fn numerator(&self) -> (n: u64)
        ensures
            n == self@.0,
    {
        self.numerator
    }

    /// The second part of the ratio, which may be zero.
    #[verifier::when_used_as_spec(spec_denominator)]
    pub fn denominator(&self) -> (d: u64)
        ensures
            d == self@.1,
    {
        self.denominator
    }

    /// The whole milliseconds in `units` units of this many seconds each.
    pub fn millis(&self, units: u64) -> (ms: u64)
        ensures
            ms == millis_in(units as nat, self@),
    {
        assert((units as int) * (self.numerator as int) <= 0xffff_ffff_ffff_ffff
            * 0xffff_ffff_ffff_ffff) by {
            vstd::arithmetic::mul::lemma_mul_upper_bound(
                units as int,
                0xffff_ffff_ffff_ffff,
                self.numerator as int,
                0xffff_ffff_ffff_ffff,
            );
        }
        let product: u128 = (units as u128) * (self.numerator as u128);
        if product == 0 {
            return 0;
        }
        if self.denominator == 0 {
            return u64::MAX;
        }
        let den: u128 = self.denominator as u128;
        let q: u128 = product / den;
        let r: u128 = product % den;
        proof {
            vstd::arithmetic::div_mod::lemma_hoist_over_denominator(
                r * 1000,
                q * 1000,
                den as nat,
            );
            assert(product * 1000 == r * 1000 + (q * 1000) * den) by (nonlinear_arith)
                requires
                    product == den * q + r,
            ;
            assert(0 <= (r * 1000) / (den as int) <= 1000) by (nonlinear_arith)
                requires
                    0 <= r < den,
            ;
        }
        if q > 0xffff_ffff_ffff_ffff / 1000 {
            return u64::MAX;
        }
        let ms: u128 = q * 1000 + (r * 1000) / den;
        if ms > 0xffff_ffff_ffff_ffff {
            u64::MAX
        } else {
            ms as u64
        }
    }

    /// Reads a ratio from `N:D` or `N/D`.
    pub fn parse(text: &str) -> (r: Result<Ratio, Malformed>)
        ensures
            crate::error::result_is(r, ratio_text(text@)),
    {
        let chars = chars_of(text);
        let n = chars.len();
        let mut at: usize = n;
        let mut count: usize = 0;
        let mut i: usize = 0;
        while i < n
            invariant
                i <= n == chars.len(),
                count <= i,
                count == 0 ==> forall|j: int| 0 <= j < i ==> !is_separator(#[trigger] chars@[j]),
                count >= 1 ==> at < i && is_separator(chars@[at as int]),
                count == 1 ==> forall|j: int|
                    0 <= j < i && j != at ==> !is_separator(#[trigger] chars@[j]),
                count >= 2 ==> exists|k: int|
                    0 <= k < i && k != at && is_separator(#[trigger] chars@[k]),
            decreases n - i,
        {
            let c = chars[i];
            if c == ':' || c == '/' {
                if count == 0 {
                    at = i;
                }
                count += 1;
            }
            i += 1;
        }
        if count != 1 {
            return Err(Malformed { raw: text.to_owned(), grammar: Grammar::Ratio });
        }
        proof {
            lemma_split_is_unique(chars@, at as int);
        }
        let numerator = match read_u64(&chars, 0, at) {
            Some(v) => v,
            None => {
                let raw = text.substring_char(0, at).to_owned();
                return Err(Malformed { raw, grammar: Grammar::Unsigned });
            },
        };
        let denominator = match read_u64(&chars, at + 1, n) {
            Some(v) => v,
            None => {
                let raw = text.substring_char(at + 1, n).to_owned();
                return Err(Malformed { raw, grammar: Grammar::Unsigned });
            },
        };
        Ok(Ratio { numerator, denominator })
    }

    /// Writes the ratio as `N:D`.
    pub fn render(&self) -> (text: String)
        ensures
            text@ == ratio_render(self@.0, self@.1),
    {
        let mut out = String::new();
        push_u64(&mut out, self.numerator);
        proof {
            reveal_strlit(":");
        }
        out.append(":");
        push_u64(&mut out, self.denominator);
        out
    }
}

/// Two numerals around one separator split at that separator, and nowhere else.
proof fn lemma_numerals_split(a: Seq<char>, c: char, b: Seq<char>)
    requires
        is_numeral(a),
        is_numeral(b),
        is_separator(c),
    ensures
        separator_of(a + seq![c] + b) == Some(a.len() as int),
        (a + seq![c] + b).take(a.len() as int) == a,
        (a + seq![c] + b).skip(a.len() as int + 1) == b,
{
    let s = a + seq![c] + b;
    let i = a.len() as int;
    lemma_split_is_unique(s, i);
}

/// Reading what `render` writes gives the ratio back, whatever its parts.
pub proof fn lemma_render_then_parse(numerator: u64, denominator: u64)
    ensures
        ratio_text(ratio_render(numerator, denominator)) == Ok::<(u64, u64), MalformedView>(
            (numerator, denominator),
        ),
{
    let a = decimal_digits(numerator as nat);
    let b = decimal_digits(denominator as nat);
    lemma_digits_then_value(numerator as nat);
    lemma_digits_then_value(denominator as nat);
    lemma_numerals_split(a, ':', b);
}

/// Whether a text is the canonical text of a ratio: two canonical numerals
/// that fit `u64`, around a colon.
pub open spec fn is_canonical_ratio(text: Seq<char>) -> bool {
    exists|a: Seq<char>, b: Seq<char>|
        #![trigger a + seq![':'] + b]
        is_canonical_numeral(a) && is_canonical_numeral(b) && decimal_value(a) <= u64::MAX
            && decimal_value(b) <= u64::MAX && text == a + seq![':'] + b
}

/// A text made of two canonical numerals that fit `u64`, around a colon, reads
/// as a ratio whose rendering is the same text.
pub proof fn lemma_parse_then_render(a: Seq<char>, b: Seq<char>)
    requires
        is_canonical_numeral(a),
        is_canonical_numeral(b),
        decimal_value(a) <= u64::MAX,
        decimal_value(b) <= u64::MAX,
    ensures
        ratio_text(a + seq![':'] + b) == Ok::<(u64, u64), MalformedView>(
            (decimal_value(a) as u64, decimal_value(b) as u64),
        ),
        ratio_render(decimal_value(a) as u64, decimal_value(b) as u64) == a + seq![':'] + b,
{
    lemma_numerals_split(a, ':', b);
    lemma_value_then_digits(a);
    lemma_value_then_digits(b);
}

/// Reading a text and writing the ratio gives the text back exactly when the
/// text is canonical. Any other text that reads as a ratio is written
/// otherwise than it was read: `1/2`, `01:2` and `+1:2` all come back as
/// `1:2`.
pub proof fn lemma_round_trip(text: Seq<char>)
    ensures
        is_canonical_ratio(text) <==> (ratio_text(text) matches Ok(r) && ratio_render(r.0, r.1)
            == text),
{
    if is_canonical_ratio(text) {
        let (a, b) = choose|a: Seq<char>, b: Seq<char>|
            #![trigger a + seq![':'] + b]
            is_canonical_numeral(a) && is_canonical_numeral(b) && decimal_value(a) <= u64::MAX
                && decimal_value(b) <= u64::MAX && text == a + seq![':'] + b;
        lemma_parse_then_render(a, b);
    }
    if let Ok(r) = ratio_text(text) {
        if ratio_render(r.0, r.1) == text {
            lemma_digits_then_value(r.0 as nat);
            lemma_digits_then_value(r.1 as nat);
        }
    }
}

/// Which of the two separators a text has makes no difference to the ratio
/// that it reads as, nor to the part that is refused where one is.
pub proof fn lemma_separator_is_immaterial(s: Seq<char>, i: int)
    requires
        splits_at(s, i),
    ensures
        ratio_text(s.update(i, ':')) == ratio_text(s),
        ratio_text(s.update(i, '/')) == ratio_text(s),
{
    lemma_other_separator(s, i, ':');
    lemma_other_separator(s, i, '/');
}

/// A text that splits at `i` still splits there, into the same parts, when
/// the other separator is put in that place.
proof fn lemma_other_separator(s: Seq<char>, i: int, c: char)
    requires
        splits_at(s, i),
        is_separator(c),
    ensures
        separator_of(s.update(i, c)) == Some(i),
        s.update(i, c).take(i) == s.take(i),
        s.update(i, c).skip(i + 1) == s.skip(i + 1),
{
    let t = s.update(i, c);
    lemma_split_is_unique(t, i);
}

/// Two canonical numerals around a slash read as the ratio that they read as
/// around a colon, and its rendering has the colon in the slash's place: the
/// text that comes back is not the text that was read.
pub proof fn lemma_slash_reads_as_colon(a: Seq<char>, b: Seq<char>)
    requires
        is_canonical_numeral(a),
        is_canonical_numeral(b),
        decimal_value(a) <= u64::MAX,
        decimal_value(b) <= u64::MAX,
    ensures
        ratio_text(a + seq!['/'] + b) == Ok::<(u64, u64), MalformedView>(
            (decimal_value(a) as u64, decimal_value(b) as u64),
        ),
        ratio_render(decimal_value(a) as u64, decimal_value(b) as u64) == a + seq![':'] + b,
        ratio_render(decimal_value(a) as u64, decimal_value(b) as u64) != a + seq!['/'] + b,
{
    lemma_numerals_split(a, '/', b);
    lemma_parse_then_render(a, b);
}

} // verus!
