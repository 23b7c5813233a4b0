//! Reading the members of an object: finding a member by name, holding its
//! value to the shape that a record expects, and naming the member in the
//! error when it is refused.

use crate::duration::Duration;
use crate::error::{
    result_is, Fault, FaultView, Malformed, MalformedView, MemberError, MemberErrorView, Shape,
};
use crate::json::{find, lemma_view_unfolds, lookup, JsonObject, JsonValue, JsonView, Members};
use crate::ratio::{ratio_text, Ratio};
use crate::scalar::{
    bytes_of_text, chronostring_to_duration, clock_duration_of_text, datetime_of_text,
    duration_of_text, int_of_text, naive_datetime_of_text, string_to_bytes, string_to_datetime,
    string_to_duration, string_to_int, string_to_naivedatetime,
};
use crate::text::{names_of, text_eq};
use crate::timestamp::{DateTime, NaiveDateTime};
use vstd::prelude::*;

verus! {

// What a value is read as

/// The fault of a value that is not of the expected shape.
pub open spec fn wrong(expected: Shape, v: JsonView) -> FaultView {
    FaultView::WrongType { expected, found: v.kind() }
}

/// The fault of a text that breaks its grammar.
pub open spec fn held<T>(r: Result<T, MalformedView>) -> Result<T, FaultView> {
    match r {
        Ok(x) => Ok(x),
        Err(e) => Err(FaultView::Malformed(e)),
    }
}

/// A value read as an integer that fits `i64`.
pub open spec fn as_integer(v: JsonView) -> Result<i64, FaultView> {
    match v {
        JsonView::Number(n) => match n.spec_as_i64() {
            Some(i) => Ok(i),
            None => Err(wrong(Shape::Integer, v)),
        },
        _ => Err(wrong(Shape::Integer, v)),
    }
}

/// A value read as an integer that fits `u64`.
pub open spec fn as_unsigned(v: JsonView) -> Result<u64, FaultView> {
    match v {
        JsonView::Number(n) => match n.spec_as_u64() {
            Some(i) => Ok(i),
            None => Err(wrong(Shape::Unsigned, v)),
        },
        _ => Err(wrong(Shape::Unsigned, v)),
    }
}

/// A value read as a text.
pub open spec fn as_text(v: JsonView) -> Result<Seq<char>, FaultView> {
    match v {
        JsonView::String(s) => Ok(s),
        _ => Err(wrong(Shape::Text, v)),
    }
}

/// A value read as a text that is held to a grammar.
pub open spec fn as_text_held<T>(
    v: JsonView,
    coerce: spec_fn(Seq<char>) -> Result<T, MalformedView>,
) -> Result<T, FaultView> {
    match v {
        JsonView::String(s) => held(coerce(s)),
        _ => Err(wrong(Shape::Text, v)),
    }
}

/// A value read as an integer that is given either as a number or as the text
/// of one.
pub open spec fn as_integer_or_text(v: JsonView) -> Result<i64, FaultView> {
    match v {
        JsonView::Number(n) => match n.spec_as_i64() {
            Some(i) => Ok(i),
            None => Err(wrong(Shape::IntegerOrText, v)),
        },
        JsonView::String(s) => held(int_of_text(s)),
        _ => Err(wrong(Shape::IntegerOrText, v)),
    }
}

/// A value read as a ratio.
pub open spec fn as_ratio(v: JsonView) -> Result<(u64, u64), FaultView> {
    as_text_held(v, |s: Seq<char>| ratio_text(s))
}

/// A value read as bytes in hexadecimal.
pub open spec fn as_hex(v: JsonView) -> Result<Seq<u8>, FaultView> {
    as_text_held(v, |s: Seq<char>| bytes_of_text(s))
}

/// A value read as a span of time in decimal seconds.
pub open spec fn as_seconds(v: JsonView) -> Result<nat, FaultView> {
    as_text_held(v, |s: Seq<char>| duration_of_text(s))
}

/// A value read as a span of time in clock form.
pub open spec fn as_clock(v: JsonView) -> Result<nat, FaultView> {
    as_text_held(v, |s: Seq<char>| clock_duration_of_text(s))
}

/// A value read as a date and time without an offset.
pub open spec fn as_naive_datetime(v: JsonView) -> Result<NaiveDateTime, FaultView> {
    as_text_held(v, |s: Seq<char>| naive_datetime_of_text(s))
}

/// A value read as a point in time.
pub open spec fn as_datetime(v: JsonView) -> Result<DateTime, FaultView> {
    as_text_held(v, |s: Seq<char>| datetime_of_text(s))
}

/// A value read as an object.
pub open spec fn as_object(v: JsonView) -> Result<Members, FaultView> {
    match v {
        JsonView::Object(m) => Ok(m),
        _ => Err(wrong(Shape::Object, v)),
    }
}

/// A value read as an array.
pub open spec fn as_array(v: JsonView) -> Result<Seq<JsonView>, FaultView> {
    match v {
        JsonView::Array(items) => Ok(items),
        _ => Err(wrong(Shape::Array, v)),
    }
}

// What a member is read as

/// The error that names a member and its fault.
pub open spec fn refused(name: Seq<char>, fault: FaultView) -> MemberErrorView {
    MemberErrorView { name, fault }
}

/// The reading of a value, with the member's name on the fault.
pub open spec fn named_as<T>(name: Seq<char>, reading: Result<T, FaultView>) -> Result<
    T,
    MemberErrorView,
> {
    match reading {
        Ok(x) => Ok(x),
        Err(f) => Err(refused(name, f)),
    }
}

/// A member that must be there: its absence is a fault, and so is `null`
/// unless `read` takes it.
pub open spec fn required<T>(
    m: Members,
    name: Seq<char>,
    read: spec_fn(JsonView) -> Result<T, FaultView>,
) -> Result<T, MemberErrorView> {
    match lookup(m, name) {
        None => Err(refused(name, FaultView::Missing)),
        Some(v) => named_as(name, read(v)),
    }
}

/// A member that may be left out: absent or `null` it reads as nothing.
pub open spec fn optional<T>(
    m: Members,
    name: Seq<char>,
    read: spec_fn(JsonView) -> Result<T, FaultView>,
) -> Result<Option<T>, MemberErrorView> {
    match lookup(m, name) {
        None => Ok(None),
        Some(JsonView::Null) => Ok(None),
        Some(v) => match read(v) {
            Ok(x) => Ok(Some(x)),
            Err(f) => Err(refused(name, f)),
        },
    }
}

/// A member with a default: absent it reads as the default, and `null` is a
/// fault unless `read` takes it.
pub open spec fn or_default<T>(
    m: Members,
    name: Seq<char>,
    read: spec_fn(JsonView) -> Result<T, FaultView>,
    default: T,
) -> Result<T, MemberErrorView> {
    match lookup(m, name) {
        None => Ok(default),
        Some(v) => named_as(name, read(v)),
    }
}

/// An optional text that goes by two names. Given under both it is refused,
/// whatever the two values are.
pub open spec fn optional_text_alias_of(m: Members, name: Seq<char>, alias: Seq<char>) -> Result<
    Option<Seq<char>>,
    MemberErrorView,
> {
    if lookup(m, name) is Some && lookup(m, alias) is Some {
        Err(refused(name, FaultView::Duplicate))
    } else if lookup(m, name) is Some {
        optional(m, name, |v: JsonView| as_text(v))
    } else {
        optional(m, alias, |v: JsonView| as_text(v))
    }
}

/// What a record that sits in a required member makes of that member: the
/// member's own fault, or else what the record's decoding says of the object.
pub open spec fn then_required<T>(
    found: Result<Members, MemberErrorView>,
    decode: spec_fn(Members) -> Result<T, MemberErrorView>,
) -> Result<T, MemberErrorView> {
    match found {
        Err(e) => Err(e),
        Ok(t) => decode(t),
    }
}

/// What a record that sits in an optional member makes of that member:
/// nothing where the member is left out, the member's own fault, or else
/// what the record's decoding says of the object.
pub open spec fn then_optional<T>(
    found: Result<Option<Members>, MemberErrorView>,
    decode: spec_fn(Members) -> Result<T, MemberErrorView>,
) -> Result<Option<T>, MemberErrorView> {
    match found {
        Err(e) => Err(e),
        Ok(None) => Ok(None),
        Ok(Some(t)) => match decode(t) {
            Ok(x) => Ok(Some(x)),
            Err(e) => Err(e),
        },
    }
}

/// What a list of records makes of the items of an array. Every item must be
/// an object that decodes; the first item that is no object, or does not
/// decode, decides the error. `name` is the member that holds the array, and
/// `lift` makes the error of an item that is no object.
pub open spec fn each<T, E>(
    items: Seq<JsonView>,
    name: Seq<char>,
    decode: spec_fn(Members) -> Result<T, E>,
    lift: spec_fn(MemberErrorView) -> E,
) -> Result<Seq<T>, E>
    decreases items.len(),
{
    if items.len() == 0 {
        Ok(Seq::empty())
    } else {
        match each(items.drop_last(), name, decode, lift) {
            Err(e) => Err(e),
            Ok(front) => match items.last() {
                JsonView::Object(t) => match decode(t) {
                    Ok(x) => Ok(front.push(x)),
                    Err(e) => Err(e),
                },
                other => Err(lift(refused(name, wrong(Shape::Object, other)))),
            },
        }
    }
}

/// The record that one item of an array makes: none where the item is no
/// object, and none where the object does not decode.
pub open spec fn item_record<T, E>(
    item: JsonView,
    decode: spec_fn(Members) -> Result<T, E>,
) -> Option<T> {
    match item {
        JsonView::Object(t) => match decode(t) {
            Ok(x) => Some(x),
            Err(_) => None,
        },
        _ => None,
    }
}

/// A list of records keeps the order of the array and leaves nothing out:
/// where the list is made, it has one record for each item, and the record
/// at each place is the one that the item at that place makes. And the list
/// is made exactly when every item makes a record.
pub proof fn lemma_each_in_order<T, E>(
    items: Seq<JsonView>,
    name: Seq<char>,
    decode: spec_fn(Members) -> Result<T, E>,
    lift: spec_fn(MemberErrorView) -> E,
)
    ensures
        each(items, name, decode, lift) matches Ok(out) ==> out.len() == items.len() && forall|
            i: int,
        |
            0 <= i < items.len() ==> #[trigger] item_record(items[i], decode) == Some(out[i]),
        each(items, name, decode, lift) is Ok <==> forall|i: int|
            0 <= i < items.len() ==> #[trigger] item_record(items[i], decode) is Some,
    decreases items.len(),
{
    if items.len() > 0 {
        let front = items.drop_last();
        lemma_each_in_order(front, name, decode, lift);
        if each(items, name, decode, lift) is Ok {
            let out = each(items, name, decode, lift)->Ok_0;
            assert forall|i: int| 0 <= i < items.len() implies #[trigger] item_record(
                items[i],
                decode,
            ) == Some(out[i]) by {
                if i < front.len() {
                    assert(front[i] == items[i]);
                }
            }
        }
        if forall|i: int|
            0 <= i < items.len() ==> #[trigger] item_record(items[i], decode) is Some {
            assert(item_record(items[items.len() - 1], decode) is Some);
        }
    }
}

/// Once the items before `i` have made their records, item `i` decides: if it
/// makes a record, the items up to it make the records so far and that one;
/// if it fails, so does the whole list, with the same error.
pub proof fn lemma_each_step<T, E>(
    items: Seq<JsonView>,
    name: Seq<char>,
    decode: spec_fn(Members) -> Result<T, E>,
    lift: spec_fn(MemberErrorView) -> E,
    i: int,
)
    requires
        0 <= i < items.len(),
        each(items.take(i), name, decode, lift) is Ok,
    ensures
        each(items.take(i + 1), name, decode, lift) == (match items[i] {
            JsonView::Object(t) => match decode(t) {
                Ok(x) => Ok(each(items.take(i), name, decode, lift)->Ok_0.push(x)),
                Err(e) => Err(e),
            },
            other => Err(lift(refused(name, wrong(Shape::Object, other)))),
        }),
        each(items.take(i + 1), name, decode, lift) matches Err(e) ==> each(
            items,
            name,
            decode,
            lift,
        ) == Err::<Seq<T>, E>(e),
{
    assert(items.take(i + 1).drop_last() =~= items.take(i));
    lemma_each_fails_on(items, name, decode, lift, i + 1);
}

/// A list fails as its shortest failing prefix does.
pub proof fn lemma_each_fails_on<T, E>(
    items: Seq<JsonView>,
    name: Seq<char>,
    decode: spec_fn(Members) -> Result<T, E>,
    lift: spec_fn(MemberErrorView) -> E,
    k: int,
)
    requires
        0 <= k <= items.len(),
    ensures
        each(items.take(k), name, decode, lift) matches Err(e) ==> each(
            items,
            name,
            decode,
            lift,
        ) == Err::<Seq<T>, E>(e),
    decreases items.len() - k,
{
    if k == items.len() {
        assert(items.take(k) =~= items);
    } else {
        assert(items.take(k + 1).drop_last() =~= items.take(k));
        lemma_each_fails_on(items, name, decode, lift, k + 1);
    }
}

// Readers of values

/// The fault of a value that is not of the expected shape.
pub(crate) fn wrong_type(expected: Shape, v: &JsonValue) -> (f: Fault)
    ensures
        f@ == wrong(expected, v@),
{
    Fault::WrongType { expected, found: v.kind() }
}

/// Hands on a text that breaks its grammar as the fault of a member.
fn hold<T: DeepView>(r: Result<T, Malformed>) -> (out: Result<T, Fault>)
    ensures
        match (r, out) {
            (Ok(a), Ok(b)) => a == b,
            (Err(e), Err(f)) => f@ == FaultView::Malformed(e@),
            _ => false,
        },
{
    match r {
        Ok(x) => Ok(x),
        Err(e) => Err(Fault::Malformed(e)),
    }
}

/// Reads a value as an integer that fits `i64`.
pub fn read_integer(v: &JsonValue) -> (r: Result<i64, Fault>)
    ensures
        result_is(r, as_integer(v@)),
{
    match v {
        JsonValue::Number(n) => match n.as_i64() {
            Some(i) => Ok(i),
            None => Err(wrong_type(Shape::Integer, v)),
        },
        _ => Err(wrong_type(Shape::Integer, v)),
    }
}

/// Reads a value as an integer that fits `u64`.
pub fn read_unsigned(v: &JsonValue) -> (r: Result<u64, Fault>)
    ensures
        result_is(r, as_unsigned(v@)),
{
    match v {
        JsonValue::Number(n) => match n.as_u64() {
            Some(i) => Ok(i),
            None => Err(wrong_type(Shape::Unsigned, v)),
        },
        _ => Err(wrong_type(Shape::Unsigned, v)),
    }
}

/// Reads a value as a text.
pub fn read_text(v: &JsonValue) -> (r: Result<String, Fault>)
    ensures
        result_is(r, as_text(v@)),
{
    match v {
        JsonValue::String(s) => Ok(s.clone()),
        _ => Err(wrong_type(Shape::Text, v)),
    }
}

/// Reads a value as an integer that is given either as a number or as the
/// text of one.
pub fn read_integer_or_text(v: &JsonValue) -> (r: Result<i64, Fault>)
    ensures
        result_is(r, as_integer_or_text(v@)),
{
    match v {
        JsonValue::Number(n) => match n.as_i64() {
            Some(i) => Ok(i),
            None => Err(wrong_type(Shape::IntegerOrText, v)),
        },
        JsonValue::String(s) => hold(string_to_int(s.as_str())),
        _ => Err(wrong_type(Shape::IntegerOrText, v)),
    }
}

/// Reads a value as a ratio.
pub fn read_ratio(v: &JsonValue) -> (r: Result<Ratio, Fault>)
    ensures
        result_is(r, as_ratio(v@)),
{
    match v {
        JsonValue::String(s) => hold(Ratio::parse(s.as_str())),
        _ => Err(wrong_type(Shape::Text, v)),
    }
}

/// Reads a value as bytes written in hexadecimal.
pub fn read_hex(v: &JsonValue) -> (r: Result<Vec<u8>, Fault>)
    ensures
        result_is(r, as_hex(v@)),
{
    match v {
        JsonValue::String(s) => hold(string_to_bytes(s.as_str())),
        _ => Err(wrong_type(Shape::Text, v)),
    }
}

/// Reads a value as a span of time written in decimal seconds.
pub fn read_seconds(v: &JsonValue) -> (r: Result<Duration, Fault>)
    ensures
        result_is(r, as_seconds(v@)),
{
    match v {
        JsonValue::String(s) => hold(string_to_duration(s.as_str())),
        _ => Err(wrong_type(Shape::Text, v)),
    }
}

/// Reads a value as a span of time written as a time of day.
pub fn read_clock(v: &JsonValue) -> (r: Result<Duration, Fault>)
    ensures
        result_is(r, as_clock(v@)),
{
    match v {
        JsonValue::String(s) => hold(chronostring_to_duration(s.as_str())),
        _ => Err(wrong_type(Shape::Text, v)),
    }
}

/// Reads a value as a date and time without an offset.
pub fn read_naive_datetime(v: &JsonValue) -> (r: Result<NaiveDateTime, Fault>)
    ensures
        result_is(r, as_naive_datetime(v@)),
{
    match v {
        JsonValue::String(s) => hold(string_to_naivedatetime(s.as_str())),
        _ => Err(wrong_type(Shape::Text, v)),
    }
}

/// Reads a value as a point in time.
pub fn read_datetime(v: &JsonValue) -> (r: Result<DateTime, Fault>)
    ensures
        result_is(r, as_datetime(v@)),
{
    match v {
        JsonValue::String(s) => hold(string_to_datetime(s.as_str())),
        _ => Err(wrong_type(Shape::Text, v)),
    }
}

/// Reads a value as an object: its members.
pub fn read_object<'a>(v: &'a JsonValue) -> (r: Result<&'a JsonObject, Fault>)
    ensures
        result_is(r, as_object(v@)),
{
    proof {
        lemma_view_unfolds(*v);
    }
    match v {
        JsonValue::Object(members) => Ok(members),
        _ => Err(wrong_type(Shape::Object, v)),
    }
}

/// Reads a value as an array: its items.
pub fn read_array<'a>(v: &'a JsonValue) -> (r: Result<&'a Vec<JsonValue>, Fault>)
    ensures
        result_is(r, as_array(v@)),
{
    proof {
        lemma_view_unfolds(*v);
    }
    match v {
        JsonValue::Array(items) => Ok(items),
        _ => Err(wrong_type(Shape::Array, v)),
    }
}

// Finding a member

/// The error that names a member and its fault.
pub(crate) fn refuse(name: &str, fault: Fault) -> (e: MemberError)
    ensures
        e@ == refused(name@, fault@),
{
    MemberError { name: name.to_owned(), fault }
}

/// Puts the member's name on the fault of a reading.
pub(crate) fn named<T>(name: &str, reading: Result<T, Fault>) -> (r: Result<T, MemberError>)
    ensures
        match (reading, r) {
            (Ok(a), Ok(b)) => a == b,
            (Err(f), Err(e)) => e@ == refused(name@, f@),
            _ => false,
        },
{
    match reading {
        Ok(x) => Ok(x),
        Err(f) => Err(refuse(name, f)),
    }
}

/// The member called `name`, whose absence is a fault.
pub(crate) fn needed<'a>(m: &'a JsonObject, name: &str) -> (r: Result<
    &'a JsonValue,
    MemberError,
>)
    ensures
        match r {
            Ok(v) => lookup(m.deep_view(), name@) == Some(v@),
            Err(e) => lookup(m.deep_view(), name@) is None && e@ == refused(
                name@,
                FaultView::Missing,
            ),
        },
{
    match find(m, name) {
        Some(v) => Ok(v),
        None => Err(refuse(name, Fault::Missing)),
    }
}

/// The member called `name`, unless it is absent or `null`.
pub(crate) fn given<'a>(m: &'a JsonObject, name: &str) -> (r: Option<&'a JsonValue>)
    ensures
        match r {
            Some(v) => lookup(m.deep_view(), name@) == Some(v@) && !(v@ is Null),
            None => lookup(m.deep_view(), name@) is None || lookup(m.deep_view(), name@) == Some(
                JsonView::Null,
            ),
        },
{
    match find(m, name) {
        Some(JsonValue::Null) => None,
        Some(v) => Some(v),
        None => None,
    }
}

/// Puts a reading that may be left out into an `Option`.
fn some<T>(r: Result<T, MemberError>) -> (out: Result<Option<T>, MemberError>)
    ensures
        match (r, out) {
            (Ok(a), Ok(b)) => b == Some(a),
            (Err(e), Err(f)) => e == f,
            _ => false,
        },
{
    match r {
        Ok(x) => Ok(Some(x)),
        Err(e) => Err(e),
    }
}

// Names that a record declares

/// The name of the first member that is not in `names`.
pub open spec fn first_unlisted(m: Members, names: Seq<Seq<char>>) -> Option<Seq<char>>
    decreases m.len(),
{
    if m.len() == 0 {
        None
    } else if !names.contains(m[0].0) {
        Some(m[0].0)
    } else {
        first_unlisted(m.drop_first(), names)
    }
}

/// What a record says to members that it does not declare: in strict mode
/// the first of them is refused, otherwise they pass.
pub open spec fn undeclared(m: Members, names: Seq<Seq<char>>, strict: bool) -> Option<
    MemberErrorView,
> {
    if strict && first_unlisted(m, names) is Some {
        Some(refused(first_unlisted(m, names).unwrap(), FaultView::Unknown))
    } else {
        None
    }
}

/// The members whose names are not in `names`, in their order.
pub open spec fn unlisted(m: Members, names: Seq<Seq<char>>) -> Members {
    m.filter(|e: (Seq<char>, JsonView)| !names.contains(e.0))
}

/// Whether `name` is one of `list`.
pub(crate) fn is_listed(name: &str, list: &[&'static str]) -> (r: bool)
    ensures
        r == names_of(list@).contains(name@),
{
    let mut i: usize = 0;
    while i < list.len()
        invariant
            i <= list.len(),
            forall|j: int| 0 <= j < i ==> names_of(list@)[j] != name@,
        decreases list.len() - i,
    {
        if text_eq(list[i], name) {
            assert(names_of(list@)[i as int] == name@);
            return true;
        }
        i += 1;
    }
    false
}

/// Refuses, in strict mode, the first member that `list` does not name.
pub(crate) fn deny_undeclared(m: &JsonObject, list: &[&'static str], strict: bool) -> (r:
    Result<(), MemberError>)
    ensures
        match r {
            Ok(_) => undeclared(m.deep_view(), names_of(list@), strict) is None,
            Err(e) => undeclared(m.deep_view(), names_of(list@), strict) == Some(e@),
        },
{
    if !strict {
        return Ok(());
    }
    let ghost all = m.deep_view();
    let ghost names = names_of(list@);
    let mut i: usize = 0;
    assert(all.skip(0) =~= all);
    while i < m.len()
        invariant
            i <= m.len(),
            all == m.deep_view(),
            names == names_of(list@),
            first_unlisted(all, names) == first_unlisted(all.skip(i as int), names),
            strict,
        decreases m.len() - i,
    {
        proof {
            assert(all.skip(i as int).drop_first() =~= all.skip(i + 1));
        }
        if !is_listed(m[i].0.as_str(), list) {
            return Err(refuse(m[i].0.as_str(), Fault::Unknown));
        }
        i += 1;
    }
    Ok(())
}

/// The members that `list` does not name, in their order.
pub(crate) fn collect_unlisted(m: &JsonObject, list: &[&'static str]) -> (r: JsonObject)
    ensures
        r.deep_view() == unlisted(m.deep_view(), names_of(list@)),
{
    let ghost all = m.deep_view();
    let ghost names = names_of(list@);
    let mut out: JsonObject = Vec::new();
    let mut i: usize = 0;
    while i < m.len()
        invariant
            i <= m.len(),
            all == m.deep_view(),
            names == names_of(list@),
            out.deep_view() == unlisted(all.take(i as int), names),
        decreases m.len() - i,
    {
        proof {
            reveal(Seq::filter);
            assert(all.take(i + 1).drop_last() =~= all.take(i as int));
        }
        if !is_listed(m[i].0.as_str(), list) {
            let value = m[i].1.deep_clone();
            out.push((m[i].0.clone(), value));
        }
        i += 1;
    }
    assert(all.take(m.len() as int) =~= all);
    out
}

/// Of the members of an object, those that a record does not declare are
/// exactly those that it keeps aside: none is dropped, none is kept that the
/// record declares, and their number is the number of members less those
/// that the record declares.
pub proof fn lemma_unlisted_complete(m: Members, names: Seq<Seq<char>>)
    ensures
        forall|i: int|
            0 <= i < m.len() ==> (names.contains((#[trigger] m[i]).0) || unlisted(
                m,
                names,
            ).contains(m[i])),
        forall|j: int|
            0 <= j < unlisted(m, names).len() ==> !names.contains(
                (#[trigger] unlisted(m, names)[j]).0,
            ) && m.contains(unlisted(m, names)[j]),
        unlisted(m, names).len() + m.filter(
            |e: (Seq<char>, JsonView)| names.contains(e.0),
        ).len() == m.len(),
    decreases m.len(),
{
    if m.len() > 0 {
        reveal(Seq::filter);
        lemma_unlisted_complete(m.drop_last(), names);
    }
}

// Members of each shape

/// A required integer.
pub open spec fn required_integer_of(m: Members, name: Seq<char>) -> Result<i64, MemberErrorView> {
    required(m, name, |v: JsonView| as_integer(v))
}

/// A required integer.
pub(crate) fn required_integer(m: &JsonObject, name: &str) -> (r: Result<i64, MemberError>)
    ensures
        result_is(r, required_integer_of(m.deep_view(), name@)),
{
    let v = needed(m, name)?;
    named(name, read_integer(v))
}

/// An integer that may be left out.
pub open spec fn optional_integer_of(m: Members, name: Seq<char>) -> Result<
    Option<i64>,
    MemberErrorView,
> {
    optional(m, name, |v: JsonView| as_integer(v))
}

/// An integer that may be left out.
pub(crate) fn optional_integer(m: &JsonObject, name: &str) -> (r: Result<Option<i64>, MemberError>)
    ensures
        result_is(r, optional_integer_of(m.deep_view(), name@)),
{
    match given(m, name) {
        None => Ok(None),
        Some(v) => some(named(name, read_integer(v))),
    }
}

/// A required unsigned integer.
pub open spec fn required_unsigned_of(m: Members, name: Seq<char>) -> Result<u64, MemberErrorView> {
    required(m, name, |v: JsonView| as_unsigned(v))
}

/// A required unsigned integer.
pub(crate) fn required_unsigned(m: &JsonObject, name: &str) -> (r: Result<u64, MemberError>)
    ensures
        result_is(r, required_unsigned_of(m.deep_view(), name@)),
{
    let v = needed(m, name)?;
    named(name, read_unsigned(v))
}

/// An unsigned integer that may be left out.
pub open spec fn optional_unsigned_of(m: Members, name: Seq<char>) -> Result<
    Option<u64>,
    MemberErrorView,
> {
    optional(m, name, |v: JsonView| as_unsigned(v))
}

/// An unsigned integer that may be left out.
pub(crate) fn optional_unsigned(m: &JsonObject, name: &str) -> (r: Result<Option<u64>, MemberError>)
    ensures
        result_is(r, optional_unsigned_of(m.deep_view(), name@)),
{
    match given(m, name) {
        None => Ok(None),
        Some(v) => some(named(name, read_unsigned(v))),
    }
}

/// A required text.
pub open spec fn required_text_of(
    m: Members,
    name: Seq<char>,
) -> Result<Seq<char>, MemberErrorView> {
    required(m, name, |v: JsonView| as_text(v))
}

/// A required text.
pub(crate) fn required_text(m: &JsonObject, name: &str) -> (r: Result<String, MemberError>)
    ensures
        result_is(r, required_text_of(m.deep_view(), name@)),
{
    let v = needed(m, name)?;
    named(name, read_text(v))
}

/// A text that may be left out.
pub open spec fn optional_text_of(m: Members, name: Seq<char>) -> Result<
    Option<Seq<char>>,
    MemberErrorView,
> {
    optional(m, name, |v: JsonView| as_text(v))
}

/// A text that may be left out.
pub(crate) fn optional_text(m: &JsonObject, name: &str) -> (r: Result<Option<String>, MemberError>)
    ensures
        result_is(r, optional_text_of(m.deep_view(), name@)),
{
    match given(m, name) {
        None => Ok(None),
        Some(v) => some(named(name, read_text(v))),
    }
}

/// A required integer, given as a number or as the text of one.
pub open spec fn required_integer_or_text_of(
    m: Members,
    name: Seq<char>,
) -> Result<i64, MemberErrorView> {
    required(m, name, |v: JsonView| as_integer_or_text(v))
}

/// A required integer, given as a number or as the text of one.
pub(crate) fn required_integer_or_text(m: &JsonObject, name: &str) -> (r: Result<i64, MemberError>)
    ensures
        result_is(r, required_integer_or_text_of(m.deep_view(), name@)),
{
    let v = needed(m, name)?;
    named(name, read_integer_or_text(v))
}

/// An integer, given as a number or as the text of one, that may be left out.
pub open spec fn optional_integer_or_text_of(m: Members, name: Seq<char>) -> Result<
    Option<i64>,
    MemberErrorView,
> {
    optional(m, name, |v: JsonView| as_integer_or_text(v))
}

/// An integer, given as a number or as the text of one, that may be left out.
pub(crate) fn optional_integer_or_text(
    m: &JsonObject,
    name: &str,
) -> (r: Result<Option<i64>, MemberError>)
    ensures
        result_is(r, optional_integer_or_text_of(m.deep_view(), name@)),
{
    match given(m, name) {
        None => Ok(None),
        Some(v) => some(named(name, read_integer_or_text(v))),
    }
}

/// A required ratio.
pub open spec fn required_ratio_of(
    m: Members,
    name: Seq<char>,
) -> Result<(u64, u64), MemberErrorView> {
    required(m, name, |v: JsonView| as_ratio(v))
}

/// A required ratio.
pub(crate) fn required_ratio(m: &JsonObject, name: &str) -> (r: Result<Ratio, MemberError>)
    ensures
        result_is(r, required_ratio_of(m.deep_view(), name@)),
{
    let v = needed(m, name)?;
    named(name, read_ratio(v))
}

/// A ratio that may be left out.
pub open spec fn optional_ratio_of(m: Members, name: Seq<char>) -> Result<
    Option<(u64, u64)>,
    MemberErrorView,
> {
    optional(m, name, |v: JsonView| as_ratio(v))
}

/// A ratio that may be left out.
pub(crate) fn optional_ratio(m: &JsonObject, name: &str) -> (r: Result<Option<Ratio>, MemberError>)
    ensures
        result_is(r, optional_ratio_of(m.deep_view(), name@)),
{
    match given(m, name) {
        None => Ok(None),
        Some(v) => some(named(name, read_ratio(v))),
    }
}

/// Required bytes, written in hexadecimal.
pub open spec fn required_hex_of(
    m: Members,
    name: Seq<char>,
) -> Result<Seq<u8>, MemberErrorView> {
    required(m, name, |v: JsonView| as_hex(v))
}

/// Required bytes, written in hexadecimal.
pub(crate) fn required_hex(m: &JsonObject, name: &str) -> (r: Result<Vec<u8>, MemberError>)
    ensures
        result_is(r, required_hex_of(m.deep_view(), name@)),
{
    let v = needed(m, name)?;
    named(name, read_hex(v))
}

/// A span of time in decimal seconds that may be left out.
pub open spec fn optional_seconds_of(m: Members, name: Seq<char>) -> Result<
    Option<nat>,
    MemberErrorView,
> {
    optional(m, name, |v: JsonView| as_seconds(v))
}

/// A span of time in decimal seconds that may be left out.
pub(crate) fn optional_seconds(
    m: &JsonObject,
    name: &str,
) -> (r: Result<Option<Duration>, MemberError>)
    ensures
        result_is(r, optional_seconds_of(m.deep_view(), name@)),
{
    match given(m, name) {
        None => Ok(None),
        Some(v) => some(named(name, read_seconds(v))),
    }
}

/// A span of time in clock form that may be left out.
pub open spec fn optional_clock_of(m: Members, name: Seq<char>) -> Result<
    Option<nat>,
    MemberErrorView,
> {
    optional(m, name, |v: JsonView| as_clock(v))
}

/// A span of time in clock form that may be left out.
pub(crate) fn optional_clock(
    m: &JsonObject,
    name: &str,
) -> (r: Result<Option<Duration>, MemberError>)
    ensures
        result_is(r, optional_clock_of(m.deep_view(), name@)),
{
    match given(m, name) {
        None => Ok(None),
        Some(v) => some(named(name, read_clock(v))),
    }
}

/// A date and time without an offset that may be left out.
pub open spec fn optional_naive_datetime_of(m: Members, name: Seq<char>) -> Result<
    Option<NaiveDateTime>,
    MemberErrorView,
> {
    optional(m, name, |v: JsonView| as_naive_datetime(v))
}

/// A date and time without an offset that may be left out.
pub(crate) fn optional_naive_datetime(
    m: &JsonObject,
    name: &str,
) -> (r: Result<Option<NaiveDateTime>, MemberError>)
    ensures
        result_is(r, optional_naive_datetime_of(m.deep_view(), name@)),
{
    match given(m, name) {
        None => Ok(None),
        Some(v) => some(named(name, read_naive_datetime(v))),
    }
}

/// A point in time that may be left out.
pub open spec fn optional_datetime_of(m: Members, name: Seq<char>) -> Result<
    Option<DateTime>,
    MemberErrorView,
> {
    optional(m, name, |v: JsonView| as_datetime(v))
}

/// A point in time that may be left out.
pub(crate) fn optional_datetime(
    m: &JsonObject,
    name: &str,
) -> (r: Result<Option<DateTime>, MemberError>)
    ensures
        result_is(r, optional_datetime_of(m.deep_view(), name@)),
{
    match given(m, name) {
        None => Ok(None),
        Some(v) => some(named(name, read_datetime(v))),
    }
}

/// A required object.
pub open spec fn required_object_of(
    m: Members,
    name: Seq<char>,
) -> Result<Members, MemberErrorView> {
    required(m, name, |v: JsonView| as_object(v))
}

/// A required object.
pub(crate) fn required_object<'a>(m: &'a JsonObject, name: &str) -> (r: Result<
    &'a JsonObject,
    MemberError,
>)
    ensures
        result_is(r, required_object_of(m.deep_view(), name@)),
{
    let v = needed(m, name)?;
    named(name, read_object(v))
}

/// An object that may be left out.
pub open spec fn optional_object_of(m: Members, name: Seq<char>) -> Result<
    Option<Members>,
    MemberErrorView,
> {
    optional(m, name, |v: JsonView| as_object(v))
}

/// An object that may be left out.
pub(crate) fn optional_object<'a>(m: &'a JsonObject, name: &str) -> (r: Result<
    Option<&'a JsonObject>,
    MemberError,
>)
    ensures
        result_is(r, optional_object_of(m.deep_view(), name@)),
{
    match given(m, name) {
        None => Ok(None),
        Some(v) => some(named(name, read_object(v))),
    }
}

/// A required array.
pub open spec fn required_array_of(m: Members, name: Seq<char>) -> Result<
    Seq<JsonView>,
    MemberErrorView,
> {
    required(m, name, |v: JsonView| as_array(v))
}

/// A required array.
pub(crate) fn required_array<'a>(m: &'a JsonObject, name: &str) -> (r: Result<
    &'a Vec<JsonValue>,
    MemberError,
>)
    ensures
        result_is(r, required_array_of(m.deep_view(), name@)),
{
    let v = needed(m, name)?;
    named(name, read_array(v))
}

/// An array that is empty when it is left out.
pub open spec fn array_or_empty_of(m: Members, name: Seq<char>) -> Result<
    Seq<JsonView>,
    MemberErrorView,
> {
    or_default(m, name, |v: JsonView| as_array(v), Seq::empty())
}

/// An array that is empty when it is left out: the items that are there.
pub(crate) fn array_or_empty<'a>(m: &'a JsonObject, name: &str) -> (r: Result<
    Option<&'a Vec<JsonValue>>,
    MemberError,
>)
    ensures
        match r {
            Ok(Some(items)) => array_or_empty_of(m.deep_view(), name@) == Ok::<
                Seq<JsonView>,
                MemberErrorView,
            >(items.deep_view()),
            Ok(None) => array_or_empty_of(m.deep_view(), name@) == Ok::<
                Seq<JsonView>,
                MemberErrorView,
            >(Seq::empty()),
            Err(e) => array_or_empty_of(m.deep_view(), name@) == Err::<
                Seq<JsonView>,
                MemberErrorView,
            >(e@),
        },
{
    match find(m, name) {
        None => Ok(None),
        Some(v) => some(named(name, read_array(v))),
    }
}

/// An integer, given as a number or as the text of one, that is zero when it
/// is left out.
pub open spec fn integer_or_text_or_zero_of(m: Members, name: Seq<char>) -> Result<
    i64,
    MemberErrorView,
> {
    or_default(m, name, |v: JsonView| as_integer_or_text(v), 0i64)
}

/// An integer, given as a number or as the text of one, that is zero when it
/// is left out.
pub(crate) fn integer_or_text_or_zero(m: &JsonObject, name: &str) -> (r: Result<
    i64,
    MemberError,
>)
    ensures
        result_is(r, integer_or_text_or_zero_of(m.deep_view(), name@)),
{
    match find(m, name) {
        None => Ok(0),
        Some(v) => named(name, read_integer_or_text(v)),
    }
}

/// An optional text that goes by two names.
pub(crate) fn optional_text_alias(m: &JsonObject, name: &str, alias: &str) -> (r: Result<
    Option<String>,
    MemberError,
>)
    ensures
        result_is(r, optional_text_alias_of(m.deep_view(), name@, alias@)),
{
    match find(m, name) {
        Some(_) => match find(m, alias) {
            Some(_) => Err(refuse(name, Fault::Duplicate)),
            None => optional_text(m, name),
        },
        None => optional_text(m, alias),
    }
}

} // verus!
