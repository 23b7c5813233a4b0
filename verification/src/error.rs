//! What can go wrong while a document is decoded.

use crate::json::{JsonType, JsonValue, JsonView};
use crate::ratio::Ratio;
use crate::streams::Seconds;
use crate::timestamp::{DateTime, NaiveDateTime};
use vstd::prelude::*;

verus! {

/// The grammars that a text member can be held to.
#[derive(Debug, Clone, Copy, PartialEq, Eq, Structural)]
pub enum Grammar {
    /// A signed decimal integer.
    Integer,
    /// An unsigned decimal integer.
    Unsigned,
    /// `true` or `false`.
    Boolean,
    /// Pairs of hexadecimal digits, after an optional `0x`.
    Hex,
    /// Two unsigned integers around one `:` or `/`.
    Ratio,
    /// Seconds as a decimal number.
    Seconds,
    /// A time of day, `HH:MM:SS` with an optional fraction.
    Clock,
    /// A date and time with an offset, as RFC 3339 writes it.
    DateTime,
    /// A date and time without an offset, `YYYY-MM-DD HH:MM:SS`.
    NaiveDateTime,
}

/// What a member's value was expected to be.
#[derive(Debug, Clone, Copy, PartialEq, Eq, Structural)]
pub enum Shape {
    /// An integer that fits `i64`.
    Integer,
    /// An integer that fits `u64`.
    Unsigned,
    /// A text.
    Text,
    /// An integer that fits `i64`, or a text that writes one.
    IntegerOrText,
    /// An array.
    Array,
    /// An object.
    Object,
}

/// A text that does not follow the grammar it was held to.
#[derive(Debug, PartialEq, Eq)]
pub struct Malformed {
    /// The offending text.
    pub raw: String,
    /// The grammar that it breaks.
    pub grammar: Grammar,
}

/// The mathematical model of [`Malformed`].
pub struct MalformedView {
    pub raw: Seq<char>,
    pub grammar: Grammar,
}

impl DeepView for Malformed {
    type V = MalformedView;

    open spec fn deep_view(&self) -> MalformedView {
        self@
    }
}

impl View for Malformed {
    type V = MalformedView;

    open spec fn view(&self) -> MalformedView {
        MalformedView { raw: self.raw@, grammar: self.grammar }
    }
}

/// Why one member of an object was refused.
#[derive(Debug, PartialEq, Eq)]
pub enum Fault {
    /// A required member is absent.
    Missing,
    /// The member's value is of another kind than expected, or a number out
    /// of the expected range.
    WrongType { expected: Shape, found: JsonType },
    /// The member's text breaks its grammar.
    Malformed(Malformed),
    /// The member is given twice, under its name and under its alias.
    Duplicate,
    /// The member is not one that the record declares.
    Unknown,
}

/// The mathematical model of [`Fault`].
pub enum FaultView {
    Missing,
    WrongType { expected: Shape, found: JsonType },
    Malformed(MalformedView),
    Duplicate,
    Unknown,
}

impl DeepView for Fault {
    type V = FaultView;

    open spec fn deep_view(&self) -> FaultView {
        self@
    }
}

impl View for Fault {
    type V = FaultView;

    open spec fn view(&self) -> FaultView {
        match self {
            Fault::Missing => FaultView::Missing,
            Fault::WrongType { expected, found } => FaultView::WrongType {
                expected: *expected,
                found: *found,
            },
            Fault::Malformed(m) => FaultView::Malformed(m@),
            Fault::Duplicate => FaultView::Duplicate,
            Fault::Unknown => FaultView::Unknown,
        }
    }
}

/// A member of an object that was refused, and why.
#[derive(Debug, PartialEq, Eq)]
pub struct MemberError {
    /// The member's name.
    pub name: String,
    /// Why it was refused.
    pub fault: Fault,
}

/// The mathematical model of [`MemberError`].
pub struct MemberErrorView {
    pub name: Seq<char>,
    pub fault: FaultView,
}

impl DeepView for MemberError {
    type V = MemberErrorView;

    open spec fn deep_view(&self) -> MemberErrorView {
        self@
    }
}

impl View for MemberError {
    type V = MemberErrorView;

    open spec fn view(&self) -> MemberErrorView {
        MemberErrorView { name: self.name@, fault: self.fault@ }
    }
}

/// Why a document was not decoded.
#[derive(Debug, PartialEq, Eq)]
pub enum DecodeError {
    /// The bytes are no JSON document; the text says where and why.
    Syntax(String),
    /// The document is a JSON value, but no object.
    NotAnObject(JsonType),
    /// A member of the document, or of a record in it, was refused.
    Member(MemberError),
    /// A stream names no kind, or none that is known. `raw` holds the stream's
    /// members apart from the envelope's own.
    NoVariant { raw: JsonValue },
    /// A stream names a kind, and its members do not make a record of that
    /// kind. `raw` holds the stream's members apart from the envelope's own.
    Variant { codec_type: String, cause: MemberError, raw: JsonValue },
}

/// The mathematical model of [`DecodeError`].
pub enum DecodeErrorView {
    Syntax(Seq<char>),
    NotAnObject(JsonType),
    Member(MemberErrorView),
    NoVariant { raw: JsonView },
    Variant { codec_type: Seq<char>, cause: MemberErrorView, raw: JsonView },
}

impl DeepView for DecodeError {
    type V = DecodeErrorView;

    open spec fn deep_view(&self) -> DecodeErrorView {
        self@
    }
}

impl View for DecodeError {
    type V = DecodeErrorView;

    open spec fn view(&self) -> DecodeErrorView {
        match self {
            DecodeError::Syntax(message) => DecodeErrorView::Syntax(message@),
            DecodeError::NotAnObject(found) => DecodeErrorView::NotAnObject(*found),
            DecodeError::Member(e) => DecodeErrorView::Member(e@),
            DecodeError::NoVariant { raw } => DecodeErrorView::NoVariant { raw: raw@ },
            DecodeError::Variant { codec_type, cause, raw } => DecodeErrorView::Variant {
                codec_type: codec_type@,
                cause: cause@,
                raw: raw@,
            },
        }
    }
}

// Messages

/// How a message names a grammar.
pub open spec fn grammar_label(g: Grammar) -> Seq<char> {
    match g {
        Grammar::Integer => "a signed integer"@,
        Grammar::Unsigned => "an unsigned integer"@,
        Grammar::Boolean => "`true` or `false`"@,
        Grammar::Hex => "pairs of hexadecimal digits"@,
        Grammar::Ratio => "a ratio, `N:D` or `N/D`"@,
        Grammar::Seconds => "a decimal number of seconds"@,
        Grammar::Clock => "a time of day, `HH:MM:SS`"@,
        Grammar::DateTime => "a date and time with an offset"@,
        Grammar::NaiveDateTime => "a date and time, `YYYY-MM-DD HH:MM:SS`"@,
    }
}

/// How a message names the shape that was expected of a value.
pub open spec fn shape_label(s: Shape) -> Seq<char> {
    match s {
        Shape::Integer => "an integer"@,
        Shape::Unsigned => "an unsigned integer"@,
        Shape::Text => "a text"@,
        Shape::IntegerOrText => "an integer or the text of one"@,
        Shape::Array => "an array"@,
        Shape::Object => "an object"@,
    }
}

/// How a message names the kind of a value.
pub open spec fn type_label(t: JsonType) -> Seq<char> {
    match t {
        JsonType::Null => "null"@,
        JsonType::Boolean => "a boolean"@,
        JsonType::Number => "a number"@,
        JsonType::Text => "a text"@,
        JsonType::Array => "an array"@,
        JsonType::Object => "an object"@,
    }
}

/// What is said of a member that was refused.
pub open spec fn member_message(e: MemberErrorView) -> Seq<char> {
    match e.fault {
        FaultView::Missing => "missing member `"@ + e.name + "`"@,
        FaultView::WrongType { expected, found } => "member `"@ + e.name + "`: expected "@
            + shape_label(expected) + ", found "@ + type_label(found),
        FaultView::Malformed(m) => "member `"@ + e.name + "`: `"@ + m.raw + "` is not "@
            + grammar_label(m.grammar),
        FaultView::Duplicate => "member `"@ + e.name + "` is given under two names"@,
        FaultView::Unknown => "unknown member `"@ + e.name + "`"@,
    }
}

/// What is said of a document that was not decoded. Of a stream that did not
/// resolve, the message names the kind and the cause; the members that were
/// looked at are in the error itself.
pub open spec fn message_of(e: DecodeErrorView) -> Seq<char> {
    match e {
        DecodeErrorView::Syntax(text) => text,
        DecodeErrorView::NotAnObject(found) => "the document is "@ + type_label(found)
            + ", not an object"@,
        DecodeErrorView::Member(e) => member_message(e),
        DecodeErrorView::NoVariant { raw } => "data did not match any variant of StreamKinds"@,
        DecodeErrorView::Variant { codec_type, cause, raw } => "StreamKinds: "@ + member_message(
            cause,
        ) + ", in a stream of kind `"@ + codec_type + "`"@,
    }
}

/// Every error but that of syntax, whose text is not made here, has a
/// message that says something.
pub proof fn lemma_message_says_something(e: DecodeErrorView)
    requires
        !(e is Syntax),
    ensures
        message_of(e).len() > 0,
{
    reveal_strlit("the document is ");
    reveal_strlit("missing member `");
    reveal_strlit("member `");
    reveal_strlit("unknown member `");
    reveal_strlit("data did not match any variant of StreamKinds");
}

impl Grammar {
    /// How a message names the grammar.
    pub fn describe(self) -> (r: &'static str)
        ensures
            r@ == grammar_label(self),
    {
        match self {
            Grammar::Integer => "a signed integer",
            Grammar::Unsigned => "an unsigned integer",
            Grammar::Boolean => "`true` or `false`",
            Grammar::Hex => "pairs of hexadecimal digits",
            Grammar::Ratio => "a ratio, `N:D` or `N/D`",
            Grammar::Seconds => "a decimal number of seconds",
            Grammar::Clock => "a time of day, `HH:MM:SS`",
            Grammar::DateTime => "a date and time with an offset",
            Grammar::NaiveDateTime => "a date and time, `YYYY-MM-DD HH:MM:SS`",
        }
    }
}

impl Shape {
    /// How a message names the shape.
    pub fn describe(self) -> (r: &'static str)
        ensures
            r@ == shape_label(self),
    {
        match self {
            Shape::Integer => "an integer",
            Shape::Unsigned => "an unsigned integer",
            Shape::Text => "a text",
            Shape::IntegerOrText => "an integer or the text of one",
            Shape::Array => "an array",
            Shape::Object => "an object",
        }
    }
}

/// How a message names the kind of a value.
pub fn describe_type(t: JsonType) -> (r: &'static str)
    ensures
        r@ == type_label(t),
{
    match t {
        JsonType::Null => "null",
        JsonType::Boolean => "a boolean",
        JsonType::Number => "a number",
        JsonType::Text => "a text",
        JsonType::Array => "an array",
        JsonType::Object => "an object",
    }
}

impl MemberError {
    /// What is to be said of the member.
    pub fn message(&self) -> (text: String)
        ensures
            text@ == member_message(self@),
    {
        let mut out = String::new();
        match &self.fault {
            Fault::Missing => {
                out.append("missing member `");
                out.append(self.name.as_str());
                out.append("`");
            },
            Fault::WrongType { expected, found } => {
                out.append("member `");
                out.append(self.name.as_str());
                out.append("`: expected ");
                out.append(expected.describe());
                out.append(", found ");
                out.append(describe_type(*found));
            },
            Fault::Malformed(m) => {
                out.append("member `");
                out.append(self.name.as_str());
                out.append("`: `");
                out.append(m.raw.as_str());
                out.append("` is not ");
                out.append(m.grammar.describe());
            },
            Fault::Duplicate => {
                out.append("member `");
                out.append(self.name.as_str());
                out.append("` is given under two names");
            },
            Fault::Unknown => {
                out.append("unknown member `");
                out.append(self.name.as_str());
                out.append("`");
            },
        }
        out
    }
}

impl DecodeError {
    /// What is to be said of the failure.
    pub fn message(&self) -> (text: String)
        ensures
            text@ == message_of(self@),
    {
        let mut out = String::new();
        match self {
            DecodeError::Syntax(text) => {
                out.append(text.as_str());
            },
            DecodeError::NotAnObject(found) => {
                out.append("the document is ");
                out.append(describe_type(*found));
                out.append(", not an object");
            },
            DecodeError::Member(e) => {
                let text = e.message();
                out.append(text.as_str());
            },
            DecodeError::NoVariant { raw: _ } => {
                out.append("data did not match any variant of StreamKinds");
            },
            DecodeError::Variant { codec_type, cause, raw: _ } => {
                let text = cause.message();
                out.append("StreamKinds: ");
                out.append(text.as_str());
                out.append(", in a stream of kind `");
                out.append(codec_type.as_str());
                out.append("`");
            },
        }
        out
    }
}

/// Whether a result and its model agree: both succeed with values of one
/// model, or both fail with errors of one model.
pub open spec fn result_is<T: DeepView, E: DeepView>(
    r: Result<T, E>,
    model: Result<T::V, E::V>,
) -> bool {
    match (r, model) {
        (Ok(a), Ok(b)) => a.deep_view() == b,
        (Err(a), Err(b)) => a.deep_view() == b,
        _ => false,
    }
}

} // verus!
