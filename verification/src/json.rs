//! JSON documents as the session sees them.
//!
//! [`Json`] is the executable tree and [`JsonValue`] its mathematical view.
//! Text is turned into a tree by `serde_json`; everything the session decides
//! about a document is computed on the tree.

use vstd::prelude::*;
use crate::errors::{Error, ErrorKind};

verus! {

/// The value of a JSON number.
pub enum NumberValue {
    /// A whole number between `i64::MIN` and `u64::MAX`, held exactly.
    Integer(int),
    /// Any other number, by its decimal text.
    Real(Seq<char>),
}

/// The value of a JSON document.
pub enum JsonValue {
    Null,
    Bool(bool),
    Number(NumberValue),
    Text(Seq<char>),
    Array(Seq<JsonValue>),
    Object(Seq<MemberValue>),
}

/// The value of one member of an object.
pub struct MemberValue {
    pub key: Seq<char>,
    pub value: JsonValue,
}

/// True when `members[i]` is the first member named `key`.
pub open spec fn holds_key_at(members: Seq<MemberValue>, key: Seq<char>, i: int) -> bool {
    &&& 0 <= i < members.len()
    &&& members[i].key == key
    &&& forall|j: int| 0 <= j < i ==> (#[trigger] members[j]).key != key
}

/// True when some member is named `key`.
pub open spec fn has_key(members: Seq<MemberValue>, key: Seq<char>) -> bool {
    exists|i: int| holds_key_at(members, key, i)
}

/// The position of the first member named `key`.
pub open spec fn key_position(members: Seq<MemberValue>, key: Seq<char>) -> int
    recommends
        has_key(members, key),
{
    choose|i: int| holds_key_at(members, key, i)
}

impl JsonValue {
    /// The value of the first member named `key`, when this is an object that has one.
    pub open spec fn member(self, key: Seq<char>) -> Option<JsonValue> {
        match self {
            JsonValue::Object(members) => if has_key(members, key) {
                Some(members[key_position(members, key)].value)
            } else {
                None
            },
            _ => None,
        }
    }
}

/// A JSON number as it was read.
#[derive(Debug)]
pub enum Number {
    /// A whole number that is not negative.
    Unsigned(u64),
    /// A whole number that fits the signed range.
    Signed(i64),
    /// Any other number, by its decimal text.
    Real(String),
}

/// A JSON document.
#[derive(Debug)]
pub enum Json {
    Null,
    Bool(bool),
    Number(Number),
    Text(String),
    Array(Vec<Json>),
    /// The members, in the order in which they are held.
    Object(Vec<Member>),
}

/// One member of an object: a key and the value under it.
#[derive(Debug)]
pub struct Member {
    pub key: String,
    pub value: Json,
}

impl View for Number {
    type V = NumberValue;

    open spec fn view(&self) -> NumberValue {
        match self {
            Number::Unsigned(n) => NumberValue::Integer(*n as int),
            Number::Signed(n) => NumberValue::Integer(*n as int),
            Number::Real(text) => NumberValue::Real(text@),
        }
    }
}

impl View for Json {
    type V = JsonValue;

    open spec fn view(&self) -> JsonValue
        decreases self,
    {
        match self {
            Json::Null => JsonValue::Null,
            Json::Bool(b) => JsonValue::Bool(*b),
            Json::Number(n) => JsonValue::Number(n@),
            Json::Text(text) => JsonValue::Text(text@),
            Json::Array(items) => JsonValue::Array(
                Seq::new(
                    items@.len(),
                    |i: int|
                        if 0 <= i < items@.len() {
                            items@[i]@
                        } else {
                            JsonValue::Null
                        },
                ),
            ),
            Json::Object(members) => JsonValue::Object(
                Seq::new(
                    members@.len(),
                    |i: int|
                        if 0 <= i < members@.len() {
                            MemberValue { key: members@[i].key@, value: members@[i].value@ }
                        } else {
                            MemberValue { key: Seq::empty(), value: JsonValue::Null }
                        },
                ),
            ),
        }
    }
}

/// The view of an object holds one member for each member held, in the same order.
pub proof fn lemma_object_view(members: Vec<Member>)
    ensures
        Json::Object(members)@ is Object,
        Json::Object(members)@->Object_0.len() == members@.len(),
        forall|i: int|
            0 <= i < members@.len() ==> (#[trigger] Json::Object(members)@->Object_0[i])
                == (MemberValue { key: members@[i].key@, value: members@[i].value@ }),
{
}

/// The view of an array holds the view of each item, in the same order.
pub proof fn lemma_array_view(items: Vec<Json>)
    ensures
        Json::Array(items)@ is Array,
        Json::Array(items)@->Array_0.len() == items@.len(),
        forall|i: int|
            0 <= i < items@.len() ==> (#[trigger] Json::Array(items)@->Array_0[i]) == items@[i]@,
{
}

/// `str::eq` of std: two string slices are equal exactly when they hold the
/// same characters in the same order.
#[verifier::external_body]
pub(crate) fn same_text(a: &str, b: &str) -> (same: bool)
    ensures
        same == (a@ == b@),
{
    a == b
}

/// What `serde_json` makes of a text: the document it reads, or the message
/// of the error it reports.
pub uninterp spec fn parsed_text(text: Seq<char>) -> Result<JsonValue, Seq<char>>;

/// `serde_json::Value`, the parser's own tree. Nothing is read from it here
/// but by [`lift`].
#[verifier::external_type_specification]
#[verifier::external_body]
pub struct ExValue(serde_json::Value);

/// Carries a `serde_json::Value` over into a [`Json`], variant by variant. A
/// number becomes `Unsigned` where `Number::as_u64` gives a value, else
/// `Signed` where `Number::as_i64` does, else `Real` with the number's own
/// text; the members of an object come in the order in which its map yields them.
#[verifier::external_body]
fn lift(value: serde_json::Value) -> Json {
    match value {
        serde_json::Value::Null => Json::Null,
        serde_json::Value::Bool(b) => Json::Bool(b),
        serde_json::Value::Number(n) => Json::Number(match (n.as_u64(), n.as_i64()) {
            (Some(u), _) => Number::Unsigned(u),
            (_, Some(i)) => Number::Signed(i),
            _ => Number::Real(n.to_string()),
        }),
        serde_json::Value::String(text) => Json::Text(text),
        serde_json::Value::Array(items) => Json::Array(items.into_iter().map(lift).collect()),
        serde_json::Value::Object(map) => Json::Object(map.into_iter().map(|(key, value)| Member { key, value: lift(value) }).collect()),
    }
}

/// `serde_json::from_str::<serde_json::Value>`: reads one JSON document from
/// `text`. What comes back depends on the text alone, so it is named
/// [`parsed_text`]: the document read, or the text of the error.
#[verifier::external_body]
pub(crate) fn read_document(text: &str) -> (out: Result<Json, String>)
    ensures
        match out {
            Ok(document) => parsed_text(text@) == Ok::<JsonValue, Seq<char>>(document@),
            Err(message) => parsed_text(text@) == Err::<JsonValue, Seq<char>>(message@),
        },
{
    match serde_json::from_str::<serde_json::Value>(text) {
        Ok(value) => Ok(lift(value)),
        Err(e) => Err(e.to_string()),
    }
}

/// The place of the first member named `key`, if there is one.
pub fn find_member(members: &Vec<Member>, key: &str) -> (at: Option<usize>)
    ensures
        match at {
            Some(i) => holds_key_at(Json::Object(*members)@->Object_0, key@, i as int),
            None => !has_key(Json::Object(*members)@->Object_0, key@),
        },
{
    let ghost viewed = Json::Object(*members)@->Object_0;
    proof {
        lemma_object_view(*members);
    }
    let mut i: usize = 0;
    while i < members.len()
        invariant
            i <= members.len(),
            viewed == Json::Object(*members)@->Object_0,
            viewed.len() == members@.len(),
            forall|j: int|
                0 <= j < members@.len() ==> (#[trigger] viewed[j]).key == members@[j].key@,
            forall|j: int| 0 <= j < i ==> (#[trigger] viewed[j]).key != key@,
        decreases members.len() - i,
    {
        if same_text(members[i].key.as_str(), key) {
            return Some(i);
        }
        i += 1;
    }
    None
}

impl Clone for Json {
    fn clone(&self) -> (out: Json)
        ensures
            out@ == self@,
        decreases self,
    {
        match self {
            Json::Null => Json::Null,
            Json::Bool(b) => Json::Bool(*b),
            Json::Number(n) => Json::Number(n.clone()),
            Json::Text(text) => Json::Text(text.clone()),
            Json::Array(items) => {
                let mut copy: Vec<Json> = Vec::new();
                let mut i: usize = 0;
                while i < items.len()
                    invariant
                        i <= items.len(),
                        self is Array,
                        self->Array_0 == *items,
                        copy@.len() == i,
                        forall|j: int| 0 <= j < i ==> (#[trigger] copy@[j])@ == items@[j]@,
                    decreases items.len() - i,
                {
                    copy.push(items[i].clone());
                    i += 1;
                }
                proof {
                    lemma_array_view(*items);
                    lemma_array_view(copy);
                    assert(Json::Array(copy)@->Array_0 =~= self@->Array_0);
                }
                Json::Array(copy)
            },
            Json::Object(members) => {
                let mut copy: Vec<Member> = Vec::new();
                let mut i: usize = 0;
                while i < members.len()
                    invariant
                        i <= members.len(),
                        self is Object,
                        self->Object_0 == *members,
                        copy@.len() == i,
                        forall|j: int|
                            0 <= j < i ==> (#[trigger] copy@[j]).key@ == members@[j].key@
                                && copy@[j].value@ == members@[j].value@,
                    decreases members.len() - i,
                {
                    copy.push(
                        Member { key: members[i].key.clone(), value: members[i].value.clone() },
                    );
                    i += 1;
                }
                proof {
                    lemma_object_view(*members);
                    lemma_object_view(copy);
                    assert(Json::Object(copy)@->Object_0 =~= self@->Object_0);
                }
                Json::Object(copy)
            },
        }
    }
}

impl Clone for Number {
    fn clone(&self) -> (out: Number)
        ensures
            out@ == self@,
    {
        match self {
            Number::Unsigned(n) => Number::Unsigned(*n),
            Number::Signed(n) => Number::Signed(*n),
            Number::Real(text) => Number::Real(text.clone()),
        }
    }
}

impl Json {
    /// Reads a JSON document from `text`. Text that is no valid JSON gives a
    /// `DecodeError` with the parser's message.
    pub fn parse(text: &str) -> (out: Result<Json, Error>)
        ensures
            match out {
                Ok(document) => parsed_text(text@) == Ok::<JsonValue, Seq<char>>(document@),
                Err(e) => parsed_text(text@) matches Err(message) && e.is(
                    ErrorKind::DecodeError,
                    message,
                ),
            },
    {
        match read_document(text) {
            Ok(document) => Ok(document),
            Err(message) => Err(Error::new(ErrorKind::DecodeError, message.as_str())),
        }
    }

    /// The text, when this is a string.
    pub fn as_text(&self) -> (text: Option<&str>)
        ensures
            match text {
                Some(t) => self@ == JsonValue::Text(t@),
                None => !(self@ is Text),
            },
    {
        match self {
            Json::Text(t) => Some(t.as_str()),
            _ => None,
        }
    }

    /// The number, when this is a whole number from 0 to `u64::MAX`.
    pub fn as_u64(&self) -> (number: Option<u64>)
        ensures
            match number {
                Some(n) => self@ == JsonValue::Number(NumberValue::Integer(n as int)),
                None => !(self@ matches JsonValue::Number(NumberValue::Integer(n)) && 0 <= n
                    <= u64::MAX),
            },
    {
        match self {
            Json::Number(Number::Unsigned(n)) => Some(*n),
            Json::Number(Number::Signed(n)) => if *n >= 0 {
                Some(*n as u64)
            } else {
                None
            },
            _ => None,
        }
    }

    /// The number, when this is a whole number from `i64::MIN` to `i64::MAX`.
    pub fn as_i64(&self) -> (number: Option<i64>)
        ensures
            match number {
                Some(n) => self@ == JsonValue::Number(NumberValue::Integer(n as int)),
                None => !(self@ matches JsonValue::Number(NumberValue::Integer(n)) && i64::MIN
                    <= n <= i64::MAX),
            },
    {
        match self {
            Json::Number(Number::Unsigned(n)) => if *n <= 0x7fff_ffff_ffff_ffff {
                Some(*n as i64)
            } else {
                None
            },
            Json::Number(Number::Signed(n)) => Some(*n),
            _ => None,
        }
    }

    /// The items, when this is an array.
    pub fn as_array(&self) -> (items: Option<&Vec<Json>>)
        ensures
            match items {
                Some(held) => self@ == Json::Array(*held)@,
                None => !(self@ is Array),
            },
    {
        match self {
            Json::Array(held) => Some(held),
            _ => None,
        }
    }

    /// The flag, when this is `true` or `false`.
    pub fn as_bool(&self) -> (flag: Option<bool>)
        ensures
            match flag {
                Some(b) => self@ == JsonValue::Bool(b),
                None => !(self@ is Bool),
            },
    {
        match self {
            Json::Bool(b) => Some(*b),
            _ => None,
        }
    }

    /// The value of the first member named `key`; `None` when this is no
    /// object or has no such member.
    pub fn get(&self, key: &str) -> (found: Option<&Json>)
        ensures
            match found {
                Some(value) => self@.member(key@) == Some(value@),
                None => self@.member(key@) is None,
            },
    {
        match self {
            Json::Object(members) => {
                proof {
                    lemma_object_view(*members);
                }
                match find_member(members, key) {
                    Some(i) => Some(&members[i].value),
                    None => None,
                }
            },
            _ => None,
        }
    }

    /// True when this is `null`.
    pub fn is_null(&self) -> (b: bool)
        ensures
            b == (self@ is Null),
    {
        match self {
            Json::Null => true,
            _ => false,
        }
    }
}

} // verus!
