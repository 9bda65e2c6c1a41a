//! JSON values.
//!
//! Values are held as `serde_json::Value`, which Verus does not look into. `Json` is the
//! mathematical model of such a value, and `json_of` takes a value to its model. Each crate-private
//! function here makes one `serde_json` call, and its contract says what the call does to the
//! model. Those contracts hold for `serde_json` with its default features, where an object keeps
//! its members sorted by key and a number is a 64-bit one.
use serde_json::Value;
use vstd::prelude::*;

use crate::text::texts_of;

verus! {

/// A JSON document.
///
/// A number is one of three kinds, as `serde_json` keeps it: an integer from zero up, an integer
/// below zero, or a floating-point number, which is given here by its 64 bits.
pub enum Json {
    Null,
    Bool(bool),
    Unsigned(u64),
    Negative(i64),
    Float(u64),
    Text(Seq<char>),
    List(Seq<Json>),
    Object(Map<Seq<char>, Json>),
}

/// `serde_json::Value`: a JSON value.
#[verifier::external_type_specification]
#[verifier::external_body]
pub struct ExternalValue(serde_json::Value);

/// `serde_json::Map`: the members of an object.
#[verifier::external_type_specification]
#[verifier::external_body]
#[verifier::reject_recursive_types(K)]
#[verifier::reject_recursive_types(V)]
pub struct ExternalMap<K, V>(serde_json::Map<K, V>);

/// The document that a value holds.
pub uninterp spec fn json_of(value: serde_json::Value) -> Json;

/// The members that a map holds.
pub uninterp spec fn members_of(map: serde_json::Map<String, serde_json::Value>) -> Map<
    Seq<char>,
    Json,
>;

/// The bytes that `serde_json::to_vec` writes a document with.
pub uninterp spec fn json_bytes(document: Json) -> Seq<u8>;

/// What `serde_json::from_slice` reads from the bytes: a document, or the text of the error.
pub uninterp spec fn json_parsed(bytes: Seq<u8>) -> Result<Json, Seq<char>>;

/// What `serde_json::from_slice` reads from the bytes where an unsigned 64-bit integer is asked
/// for: that integer, or the text of the error.
pub uninterp spec fn u64_parsed(bytes: Seq<u8>) -> Result<u64, Seq<char>>;

/// The documents that a sequence of values holds.
pub open spec fn jsons_of(values: Seq<serde_json::Value>) -> Seq<Json> {
    values.map_values(|value: serde_json::Value| json_of(value))
}

/// How many characters of the text stand before its first slash.
pub open spec fn token_length(text: Seq<char>) -> nat
    decreases text.len(),
{
    if text.len() == 0 || text[0] == '/' {
        0
    } else {
        1 + token_length(text.skip(1))
    }
}

/// Whether a JSON pointer names members only: it holds no escape and no digit, so none of its
/// tokens is the index of an array element.
pub open spec fn names_members_only(pointer: Seq<char>) -> bool {
    forall|i: int|
        0 <= i < pointer.len() ==> #[trigger] pointer[i] != '~' && !('0' <= pointer[i] <= '9')
}

impl Json {
    /// The member of this document under `key`, where the document is an object that has one.
    pub open spec fn member(self, key: Seq<char>) -> Option<Json> {
        match self {
            Json::Object(members) if members.contains_key(key) => Some(members[key]),
            _ => None,
        }
    }

    /// The document that a JSON pointer that names members only leads to from this one.
    pub open spec fn pointed(self, pointer: Seq<char>) -> Option<Json>
        decreases pointer.len(),
    {
        if pointer.len() == 0 {
            Some(self)
        } else if pointer[0] != '/' {
            None
        } else {
            let tokens = pointer.skip(1);
            let length = token_length(tokens);
            proof {
                lemma_token_length(tokens);
            }
            match self.member(tokens.take(length as int)) {
                Some(member) => member.pointed(tokens.skip(length as int)),
                None => None,
            }
        }
    }
}

/// No more characters stand before the first slash of a text than the text has.
pub proof fn lemma_token_length(text: Seq<char>)
    ensures
        token_length(text) <= text.len(),
    decreases text.len(),
{
    if text.len() > 0 && text[0] != '/' {
        lemma_token_length(text.skip(1));
    }
}

/// The characters before the first slash are those of a slashless text that stands before a slash
/// or the end.
proof fn lemma_token(token: Seq<char>, rest: Seq<char>)
    requires
        forall|i: int| 0 <= i < token.len() ==> token[i] != '/',
        rest.len() > 0 ==> rest[0] == '/',
    ensures
        token_length(token + rest) == token.len(),
    decreases token.len(),
{
    if token.len() > 0 {
        lemma_token(token.skip(1), rest);
        assert((token + rest).skip(1) =~= token.skip(1) + rest);
    }
}

/// A pointer of two tokens leads to the member under the second token of the member under the
/// first.
pub proof fn lemma_pointer_of_two_tokens(document: Json, first: Seq<char>, second: Seq<char>)
    requires
        forall|i: int| 0 <= i < first.len() ==> first[i] != '/',
        forall|i: int| 0 <= i < second.len() ==> second[i] != '/',
    ensures
        document.pointed(seq!['/'] + first + seq!['/'] + second) == match document.member(first) {
            Some(member) => member.member(second),
            None => None,
        },
{
    let slash = seq!['/'];
    let tail = slash + second;
    let whole = slash + first + slash + second;
    assert(whole.skip(1) =~= first + tail);
    lemma_token(first, tail);
    assert((first + tail).take(first.len() as int) =~= first);
    assert((first + tail).skip(first.len() as int) =~= tail);
    assert(tail.skip(1) =~= second);
    lemma_token(second, Seq::<char>::empty());
    assert(second + Seq::<char>::empty() =~= second);
    assert(second.take(second.len() as int) =~= second);
    assert(second.skip(second.len() as int).len() == 0);
    reveal_with_fuel(Json::pointed, 3);
}

/// `serde_json::to_vec`: the bytes of the value. Which bytes a document gives is not stated, only
/// that the document alone decides. The writer gives back errors of the target, which a vector does
/// not have, and of keys that are not strings, which a value does not have: there is no error.
#[verifier::external_body]
pub(crate) fn to_vec(value: &Value) -> (result: Result<Vec<u8>, String>)
    ensures
        match result {
            Ok(bytes) => bytes@ == json_bytes(json_of(*value)),
            Err(_) => false,
        },
{
    serde_json::to_vec(value).map_err(|error| error.to_string())
}

/// `serde_json::from_slice` into a value: the value that the bytes spell, or the text of the
/// error. Which value that is is not stated, only that the bytes alone decide.
#[verifier::external_body]
pub(crate) fn from_slice(bytes: &[u8]) -> (result: Result<Value, String>)
    ensures
        match result {
            Ok(value) => json_parsed(bytes@) == Ok::<Json, Seq<char>>(json_of(value)),
            Err(error) => json_parsed(bytes@) == Err::<Json, Seq<char>>(error@),
        },
{
    serde_json::from_slice::<Value>(bytes).map_err(|error| error.to_string())
}

/// `serde_json::from_slice` into a `u64`: the integer that the bytes spell, or the text of the
/// error. Which integer that is is not stated, only that the bytes alone decide.
#[verifier::external_body]
pub(crate) fn u64_from_slice(bytes: &[u8]) -> (result: Result<u64, String>)
    ensures
        match result {
            Ok(number) => u64_parsed(bytes@) == Ok::<u64, Seq<char>>(number),
            Err(error) => u64_parsed(bytes@) == Err::<u64, Seq<char>>(error@),
        },
{
    serde_json::from_slice::<u64>(bytes).map_err(|error| error.to_string())
}

/// `serde_json::Value::get` with a string: the member under `key`, where the value is an object
/// that has one.
#[verifier::external_body]
pub(crate) fn get<'a>(value: &'a Value, key: &str) -> (member: Option<&'a Value>)
    ensures
        match member {
            Some(found) => json_of(*value).member(key@) == Some(json_of(*found)),
            None => json_of(*value).member(key@) is None,
        },
{
    value.get(key)
}

/// `serde_json::Value::pointer`, for a pointer that names members only: the value that the pointer
/// leads to, member by member.
#[verifier::external_body]
pub(crate) fn pointer<'a>(value: &'a Value, path: &str) -> (target: Option<&'a Value>)
    requires
        names_members_only(path@),
    ensures
        match target {
            Some(found) => json_of(*value).pointed(path@) == Some(json_of(*found)),
            None => json_of(*value).pointed(path@) is None,
        },
{
    value.pointer(path)
}

/// `serde_json::Value::is_object`: whether the value is an object.
#[verifier::external_body]
pub(crate) fn is_object(value: &Value) -> (answer: bool)
    ensures
        answer == (json_of(*value) is Object),
{
    value.is_object()
}

/// `serde_json::Value::is_null`: whether the value is null.
#[verifier::external_body]
pub(crate) fn is_null(value: &Value) -> (answer: bool)
    ensures
        answer == (json_of(*value) is Null),
{
    value.is_null()
}

/// `serde_json::Value::as_array`: the elements of the value, where it is an array.
#[verifier::external_body]
pub(crate) fn as_array(value: &Value) -> (elements: Option<&Vec<Value>>)
    ensures
        match elements {
            Some(elements) => json_of(*value) == Json::List(jsons_of(elements@)),
            None => !(json_of(*value) is List),
        },
{
    value.as_array()
}

/// `serde_json::Value::as_str`: the text of the value, where it is a string.
#[verifier::external_body]
pub(crate) fn as_str(value: &Value) -> (text: Option<&str>)
    ensures
        match text {
            Some(text) => json_of(*value) == Json::Text(text@),
            None => !(json_of(*value) is Text),
        },
{
    value.as_str()
}

/// `serde_json::Value::as_bool`: the truth value, where the value is one.
#[verifier::external_body]
pub(crate) fn as_bool(value: &Value) -> (truth: Option<bool>)
    ensures
        match truth {
            Some(truth) => json_of(*value) == Json::Bool(truth),
            None => !(json_of(*value) is Bool),
        },
{
    value.as_bool()
}

/// `serde_json::Value::as_u64`: the number, where the value is an integer from zero up. A
/// floating-point number is not one, whatever its value.
#[verifier::external_body]
pub(crate) fn as_u64(value: &Value) -> (number: Option<u64>)
    ensures
        match number {
            Some(number) => json_of(*value) == Json::Unsigned(number),
            None => !(json_of(*value) is Unsigned),
        },
{
    value.as_u64()
}

/// `serde_json::Value::clone`: a value that holds the same document.
#[verifier::external_body]
pub(crate) fn duplicate(value: &Value) -> (copy: Value)
    ensures
        json_of(copy) == json_of(*value),
{
    value.clone()
}

/// `serde_json::Value::Null`: the value null.
#[verifier::external_body]
pub(crate) fn null() -> (value: Value)
    ensures
        json_of(value) == Json::Null,
{
    Value::Null
}

/// `serde_json::Value::from` for a `u64`: the value of that number.
#[verifier::external_body]
pub(crate) fn number(integer: u64) -> (value: Value)
    ensures
        json_of(value) == Json::Unsigned(integer),
{
    Value::from(integer)
}

/// `serde_json::Value::from` for a string slice: the value of that text.
#[verifier::external_body]
pub(crate) fn text(string: &str) -> (value: Value)
    ensures
        json_of(value) == Json::Text(string@),
{
    Value::from(string)
}

/// `serde_json::Value::Array`: the array of the elements.
#[verifier::external_body]
pub(crate) fn list(elements: Vec<Value>) -> (value: Value)
    ensures
        json_of(value) == Json::List(jsons_of(elements@)),
{
    Value::Array(elements)
}

/// `serde_json::Value::Object`: the object of the members.
#[verifier::external_body]
pub(crate) fn object(members: serde_json::Map<String, Value>) -> (value: Value)
    ensures
        json_of(value) == Json::Object(members_of(members)),
{
    Value::Object(members)
}

/// `serde_json::Map::new`: a map without members.
#[verifier::external_body]
pub(crate) fn no_members() -> (members: serde_json::Map<String, Value>)
    ensures
        (members_of(members) == Map::<Seq<char>, Json>::empty()),
{
    serde_json::Map::new()
}

/// `serde_json::Map::insert`: puts the value under the key, in place of what stood there.
#[verifier::external_body]
pub(crate) fn insert(members: &mut serde_json::Map<String, Value>, key: &str, value: Value)
    ensures
        members_of(*final(members)) == members_of(*old(members)).insert(key@, json_of(value)),
{
    members.insert(key.to_owned(), value);
}

/// The array of the texts.
pub fn text_list(texts: &Vec<String>) -> (value: Value)
    ensures
        json_of(value) == Json::List(
            texts_of(texts@).map_values(|text: Seq<char>| Json::Text(text)),
        ),
{
    let mut elements: Vec<Value> = Vec::new();
    for i in 0..texts.len()
        invariant
            elements@.len() == i,
            forall|j: int| 0 <= j < i ==> json_of(#[trigger] elements@[j]) == Json::Text(texts@[j]@),
    {
        elements.push(text(texts[i].as_str()));
    }
    assert(jsons_of(elements@) =~= texts_of(texts@).map_values(
        |text: Seq<char>| Json::Text(text),
    ));
    list(elements)
}

/// Copies of the values, in their order.
pub fn duplicates(values: &[Value]) -> (copies: Vec<Value>)
    ensures
        jsons_of(copies@) == jsons_of(values@),
{
    let mut copies: Vec<Value> = Vec::new();
    for i in 0..values.len()
        invariant
            copies@.len() == i,
            forall|j: int| 0 <= j < i ==> json_of(#[trigger] copies@[j]) == json_of(values@[j]),
    {
        copies.push(duplicate(&values[i]));
    }
    assert(jsons_of(copies@) =~= jsons_of(values@));
    copies
}

} // verus!
