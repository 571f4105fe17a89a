//! JSON values, as the gateway reads and writes them.
//!
//! The values themselves are those of `serde_json`. What a value holds is described by [`Json`],
//! and [`json_of`] names the description of a given value.
use serde_json::Value;
use vstd::prelude::*;

verus! {

/// What a JSON value holds.
pub enum Json {
    Null,
    Bool(bool),
    /// A number written without sign, fraction or exponent that fits in 64 bits.
    Natural(u64),
    /// A whole number below zero.
    Negative(i64),
    /// Any other number, by the text that it is printed as.
    Fraction(Seq<char>),
    Text(Seq<char>),
    List(Seq<Json>),
    Object(Map<Seq<char>, Json>),
}

impl Json {
    /// The member under `key`; `Null` where there is none.
    pub open spec fn member(self, key: Seq<char>) -> Json {
        match self {
            Json::Object(members) => if members.contains_key(key) {
                members[key]
            } else {
                Json::Null
            },
            _ => Json::Null,
        }
    }

    /// The text that the value is, or `None` for a value of another kind.
    pub open spec fn text(self) -> Option<Seq<char>> {
        match self {
            Json::Text(s) => Some(s),
            _ => None,
        }
    }

    /// The object with `member` under `key`, in place of what stood there.
    pub open spec fn with(self, key: Seq<char>, member: Json) -> Json {
        match self {
            Json::Object(members) => Json::Object(members.insert(key, member)),
            _ => self,
        }
    }

    /// The object with a text under `key`.
    pub open spec fn with_text(self, key: Seq<char>, text: Seq<char>) -> Json {
        self.with(key, Json::Text(text))
    }

    /// A number, or `Null` where there is none.
    pub open spec fn count(count: Option<u64>) -> Json {
        match count {
            Some(n) => Json::Natural(n),
            None => Json::Null,
        }
    }

    /// Whether this is a text, a truth value, a natural number or null.
    pub open spec fn is_scalar(self) -> bool {
        self is Text || self is Bool || self is Natural || self is Null
    }

    /// Whether this is an object whose members are scalars under ordinary keys.
    pub open spec fn is_flat(self) -> bool {
        match self {
            Json::Object(members) => forall|key: Seq<char>| #[trigger]
                members.contains_key(key) ==> is_ordinary_key(key) && members[key].is_scalar(),
            _ => false,
        }
    }

    /// An object without members.
    pub open spec fn empty_object() -> Json {
        Json::Object(Map::empty())
    }

    /// An object that has nothing but a `type`.
    pub open spec fn typed(kind: Seq<char>) -> Json {
        Json::empty_object().with_text("type"@, kind)
    }
}

/// Whether a key does not begin with a dollar sign. `serde_json` has keys of its own that begin with
/// one: depending on its features, an object with such a key may be read as another value.
pub open spec fn is_ordinary_key(key: Seq<char>) -> bool {
    key.len() == 0 || key[0] != '$'
}

/// A flat object stays flat with a further scalar under an ordinary key.
pub proof fn lemma_with_keeps_flat(json: Json, key: Seq<char>, member: Json)
    requires
        json.is_flat(),
        is_ordinary_key(key),
        member.is_scalar(),
    ensures
        json.with(key, member).is_flat(),
{
}

/// An object that has nothing but a `type` is flat.
pub proof fn lemma_typed_is_flat(kind: Seq<char>)
    ensures
        Json::typed(kind).is_flat(),
{
    reveal_strlit("type");
    assert("type"@[0] == 't');
    lemma_with_keeps_flat(Json::empty_object(), "type"@, Json::Text(kind));
}

/// `serde_json::Value`; what it holds is [`json_of`] it.
#[verifier::external_type_specification]
#[verifier::external_body]
pub struct ExValue(serde_json::Value);

/// `serde_json::Error`, which is not looked into.
#[verifier::external_type_specification]
#[verifier::external_body]
pub struct ExJsonError(serde_json::Error);

/// What a value of `serde_json` holds.
pub uninterp spec fn json_of(value: Value) -> Json;

/// What `serde_json` reads out of a text; `None` where the text is not JSON.
pub uninterp spec fn json_read(text: Seq<char>) -> Option<Json>;

/// The compact text that `serde_json` writes for a value.
pub uninterp spec fn json_written(json: Json) -> Seq<char>;

/// `serde_json::from_str`, for a `Value`. Claims that success and the value that is read depend on
/// the text alone.
#[verifier::external_body]
pub(crate) fn parse(text: &str) -> (value: Result<Value, serde_json::Error>)
    ensures
        value matches Ok(v) ==> json_read(text@) == Some(json_of(v)),
        value is Err ==> json_read(text@) is None,
{
    serde_json::from_str(text)
}

/// Whether the text that is written for this is read as this again.
pub open spec fn reads_back(json: Json) -> bool {
    json_read(json_written(json)) == Some(json)
}

/// `to_string` through `Display` of `Value`. Claims that the text depends on what the value holds
/// alone, members being written in the order of their keys, and that a flat object is read back out
/// of it. (That is not claimed of fractions, which may be read with another last digit, nor of
/// nested values, which are read to a limited depth, nor of objects with a key that begins with a
/// dollar sign: see [`is_ordinary_key`].)
#[verifier::external_body]
pub(crate) fn to_text(value: &Value) -> (text: String)
    ensures
        text@ == json_written(json_of(*value)),
        json_of(*value).is_flat() ==> json_read(text@) == Some(json_of(*value)),
{
    value.to_string()
}

/// Indexing of a `Value` by a string. Claims that it gives the member under the key, and null for
/// a missing member and for a value that is not an object.
#[verifier::external_body]
pub(crate) fn member<'a>(value: &'a Value, key: &str) -> (found: &'a Value)
    ensures
        json_of(*found) == json_of(*value).member(key@),
{
    &value[key]
}

/// `Value::as_str`. Claims that it gives the text of a string, and `None` for any other value.
pub assume_specification[ serde_json::Value::as_str ](value: &serde_json::Value) -> (text: Option<&str>)
    ensures
        match text {
            Some(s) => json_of(*value).text() == Some(s@),
            None => json_of(*value).text() is None,
        },
;

/// `Value::Object` of `serde_json::Map::new`. Claims that the object has no members.
#[verifier::external_body]
pub(crate) fn new_object() -> (object: Value)
    ensures
        json_of(object) == Json::empty_object(),
{
    Value::Object(serde_json::Map::new())
}

/// Assignment to a `Value` indexed by a string. Claims that on an object it puts the member under
/// the key and leaves the other members.
#[verifier::external_body]
pub(crate) fn put(object: &mut Value, key: &str, value: Value)
    requires
        json_of(*old(object)) is Object,
    ensures
        json_of(*final(object)) == json_of(*old(object)).with(key@, json_of(value)),
{
    object[key] = value;
}

/// `Value::from` of a string slice. Claims that it is that text.
#[verifier::external_body]
pub(crate) fn text_value(text: &str) -> (value: Value)
    ensures
        json_of(value) == Json::Text(text@),
{
    Value::from(text)
}

/// `Value::from` of a `bool`. Claims that it is that truth value.
#[verifier::external_body]
pub(crate) fn bool_value(flag: bool) -> (value: Value)
    ensures
        json_of(value) == Json::Bool(flag),
{
    Value::from(flag)
}

/// `Value::from` of an optional `u64`. Claims that it is that number, and null for `None`.
#[verifier::external_body]
pub(crate) fn count_value(count: Option<u64>) -> (value: Value)
    ensures
        json_of(value) == Json::count(count),
{
    Value::from(count)
}

/// `Value::clone`. Claims that the copy holds the same.
#[verifier::external_body]
pub(crate) fn copy(value: &Value) -> (r: Value)
    ensures
        json_of(r) == json_of(*value),
{
    value.clone()
}

/// An object that has nothing but a `type`.
pub(crate) fn typed_object(kind: &str) -> (object: Value)
    ensures
        json_of(object) == Json::typed(kind@),
{
    let mut object = new_object();
    put_text(&mut object, "type", kind);
    object
}

/// Puts a text under a key of an object.
pub(crate) fn put_text(object: &mut Value, key: &str, text: &str)
    requires
        json_of(*old(object)) is Object,
    ensures
        json_of(*final(object)) == json_of(*old(object)).with_text(key@, text@),
{
    put(object, key, text_value(text));
}

} // verus!
