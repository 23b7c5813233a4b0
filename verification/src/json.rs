//! The tree of values that a JSON document denotes.

use crate::text::text_eq;
use vstd::prelude::*;

verus! {

/// A JSON number. An integer is held exactly; any other number is held as the
/// bits of its IEEE-754 double.
#[derive(Debug, Clone, Copy, PartialEq, Eq, Structural)]
pub enum JsonNumber {
    /// An integer that is zero or more.
    PosInt(u64),
    /// An integer below zero.
    NegInt(i64),
    /// A number with a fraction or an exponent, as `f64::to_bits` gives it.
    Float(u64),
}

/// The six kinds of JSON value.
#[derive(Debug, Clone, Copy, PartialEq, Eq, Structural)]
pub enum JsonType {
    Null,
    Boolean,
    Number,
    Text,
    Array,
    Object,
}

/// A JSON value. An object keeps its members in the order it was given them.
#[derive(Debug, PartialEq, Eq)]
pub enum JsonValue {
    Null,
    Bool(bool),
    Number(JsonNumber),
    String(String),
    Array(Vec<JsonValue>),
    Object(JsonObject),
}

/// The members of an object, in the order in which they were given: each a
/// name and a value.
pub type JsonObject = Vec<(String, JsonValue)>;

/// The mathematical model of a [`JsonValue`].
pub enum JsonView {
    Null,
    Bool(bool),
    Number(JsonNumber),
    String(Seq<char>),
    Array(Seq<JsonView>),
    Object(Seq<(Seq<char>, JsonView)>),
}

/// The members of an object, in order: each a name and a value.
pub type Members = Seq<(Seq<char>, JsonView)>;

impl JsonNumber {
    /// The integer that the number is, if it is one.
    pub open spec fn integer(self) -> Option<int> {
        match self {
            JsonNumber::PosInt(u) => Some(u as int),
            JsonNumber::NegInt(i) => Some(i as int),
            JsonNumber::Float(_) => None,
        }
    }

    /// The number as an `i64`, where it is an integer in that range.
    pub open spec fn spec_as_i64(self) -> Option<i64> {
        match self.integer() {
            Some(v) if i64::MIN <= v <= i64::MAX => Some(v as i64),
            _ => None,
        }
    }

    /// The number as a `u64`, where it is an integer in that range.
    pub open spec fn spec_as_u64(self) -> Option<u64> {
        match self.integer() {
            Some(v) if 0 <= v <= u64::MAX => Some(v as u64),
            _ => None,
        }
    }

    /// The number as an `i64`, where it is an integer in that range.
    #[verifier::when_used_as_spec(spec_as_i64)]
    pub fn as_i64(self) -> (r: Option<i64>)
        ensures
            r == self.spec_as_i64(),
    {
        match self {
            JsonNumber::PosInt(u) => if u <= 0x7fff_ffff_ffff_ffff {
                Some(u as i64)
            } else {
                None
            },
            JsonNumber::NegInt(i) => Some(i),
            JsonNumber::Float(_) => None,
        }
    }

    /// The number as a `u64`, where it is an integer in that range.
    #[verifier::when_used_as_spec(spec_as_u64)]
    pub fn as_u64(self) -> (r: Option<u64>)
        ensures
            r == self.spec_as_u64(),
    {
        match self {
            JsonNumber::PosInt(u) => Some(u),
            JsonNumber::NegInt(i) => if i >= 0 {
                Some(i as u64)
            } else {
                None
            },
            JsonNumber::Float(_) => None,
        }
    }
}

impl JsonView {
    /// The kind of the value.
    pub open spec fn kind(self) -> JsonType {
        match self {
            JsonView::Null => JsonType::Null,
            JsonView::Bool(_) => JsonType::Boolean,
            JsonView::Number(_) => JsonType::Number,
            JsonView::String(_) => JsonType::Text,
            JsonView::Array(_) => JsonType::Array,
            JsonView::Object(_) => JsonType::Object,
        }
    }
}

/// The model of a value: the same tree, with texts and lists as sequences.
pub open spec fn json_view(v: JsonValue) -> JsonView
    decreases v,
{
    match v {
        JsonValue::Null => JsonView::Null,
        JsonValue::Bool(b) => JsonView::Bool(b),
        JsonValue::Number(n) => JsonView::Number(n),
        JsonValue::String(s) => JsonView::String(s@),
        JsonValue::Array(items) => JsonView::Array(
            Seq::new(
                items.len() as nat,
                |i: int|
                    if 0 <= i < items.len() {
                        json_view(items[i])
                    } else {
                        JsonView::Null
                    },
            ),
        ),
        JsonValue::Object(members) => JsonView::Object(
            Seq::new(
                members.len() as nat,
                |i: int|
                    if 0 <= i < members.len() {
                        (members[i].0@, json_view(members[i].1))
                    } else {
                        (Seq::empty(), JsonView::Null)
                    },
            ),
        ),
    }
}

impl View for JsonValue {
    type V = JsonView;

    open spec fn view(&self) -> JsonView {
        json_view(*self)
    }
}

impl DeepView for JsonValue {
    type V = JsonView;

    open spec fn deep_view(&self) -> JsonView {
        json_view(*self)
    }
}

/// The model of an array is the list of its items' models, and the model of
/// an object the list of its members' models.
pub proof fn lemma_view_unfolds(v: JsonValue)
    ensures
        v matches JsonValue::Array(items) ==> v@ == JsonView::Array(items.deep_view()),
        v matches JsonValue::Object(members) ==> v@ == JsonView::Object(members.deep_view()),
{
    match v {
        JsonValue::Array(items) => {
            assert(v@->Array_0 =~= items.deep_view());
        },
        JsonValue::Object(members) => {
            assert(v@->Object_0 =~= members.deep_view());
        },
        _ => {},
    }
}

/// The value of the first member called `name`, if there is one.
pub open spec fn lookup(members: Members, name: Seq<char>) -> Option<JsonView>
    decreases members.len(),
{
    if members.len() == 0 {
        None
    } else if members[0].0 == name {
        Some(members[0].1)
    } else {
        lookup(members.drop_first(), name)
    }
}

/// A member called `name` is found exactly when some member bears that name.
pub proof fn lemma_lookup_finds(members: Members, name: Seq<char>)
    ensures
        lookup(members, name) is Some <==> exists|i: int|
            0 <= i < members.len() && (#[trigger] members[i]).0 == name,
    decreases members.len(),
{
    if members.len() > 0 && members[0].0 != name {
        let rest = members.drop_first();
        lemma_lookup_finds(rest, name);
        if exists|i: int| 0 <= i < members.len() && (#[trigger] members[i]).0 == name {
            let i = choose|i: int| 0 <= i < members.len() && (#[trigger] members[i]).0 == name;
            assert(rest[i - 1] == members[i]);
        }
    }
}

/// The first member called `name`.
pub fn find<'a>(members: &'a JsonObject, name: &str) -> (r: Option<&'a JsonValue>)
    ensures
        match r {
            Some(v) => lookup(members.deep_view(), name@) == Some(v@),
            None => lookup(members.deep_view(), name@) is None,
        },
{
    let ghost all = members.deep_view();
    let mut i: usize = 0;
    assert(all.skip(0) =~= all);
    while i < members.len()
        invariant
            i <= members.len(),
            all == members.deep_view(),
            lookup(all, name@) == lookup(all.skip(i as int), name@),
        decreases members.len() - i,
    {
        proof {
            assert(all.skip(i as int).drop_first() =~= all.skip(i + 1));
        }
        if text_eq(members[i].0.as_str(), name) {
            return Some(&members[i].1);
        }
        i += 1;
    }
    None
}

impl JsonValue {
    /// The kind of the value.
    pub fn kind(&self) -> (k: JsonType)
        ensures
            k == self@.kind(),
    {
        match self {
            JsonValue::Null => JsonType::Null,
            JsonValue::Bool(_) => JsonType::Boolean,
            JsonValue::Number(_) => JsonType::Number,
            JsonValue::String(_) => JsonType::Text,
            JsonValue::Array(_) => JsonType::Array,
            JsonValue::Object(_) => JsonType::Object,
        }
    }

    /// A copy of the whole tree.
    #[verifier::loop_isolation(false)]
    pub fn deep_clone(&self) -> (r: JsonValue)
        ensures
            r@ == self@,
        decreases self,
    {
        match self {
            JsonValue::Null => JsonValue::Null,
            JsonValue::Bool(b) => JsonValue::Bool(*b),
            JsonValue::Number(n) => JsonValue::Number(*n),
            JsonValue::String(s) => JsonValue::String(s.clone()),
            JsonValue::Array(items) => {
                let mut out: Vec<JsonValue> = Vec::new();
                let mut i: usize = 0;
                while i < items.len()
                    invariant
                        i <= items.len(),
                        out@.len() == i,
                        forall|j: int| 0 <= j < i ==> out@[j]@ == items@[j]@,
                    decreases items.len() - i,
                {
                    let item = items[i].deep_clone();
                    out.push(item);
                    i += 1;
                }
                let r = JsonValue::Array(out);
                assert(r@->Array_0 =~= self@->Array_0);
                r
            },
            JsonValue::Object(members) => {
                let mut out: JsonObject = Vec::new();
                let mut i: usize = 0;
                while i < members.len()
                    invariant
                        i <= members.len(),
                        out@.len() == i,
                        forall|j: int|
                            0 <= j < i ==> out@[j].0@ == members@[j].0@ && out@[j].1@
                                == members@[j].1@,
                    decreases members.len() - i,
                {
                    let value = members[i].1.deep_clone();
                    out.push((members[i].0.clone(), value));
                    i += 1;
                }
                let r = JsonValue::Object(out);
                assert(r@->Object_0 =~= self@->Object_0);
                r
            },
        }
    }
}

/// A copy of a list of members.
pub fn clone_members(members: &JsonObject) -> (r: JsonObject)
    ensures
        r.deep_view() == members.deep_view(),
{
    let mut out: JsonObject = Vec::new();
    let mut i: usize = 0;
    while i < members.len()
        invariant
            i <= members.len(),
            out@.len() == i,
            forall|j: int| 0 <= j < i ==> out@[j].deep_view() == members@[j].deep_view(),
        decreases members.len() - i,
    {
        let value = members[i].1.deep_clone();
        out.push((members[i].0.clone(), value));
        i += 1;
    }
    out
}

impl Clone for JsonValue {
    fn clone(&self) -> (r: Self)
        ensures
            r@ == self@,
    {
        self.deep_clone()
    }
}

} // verus!
