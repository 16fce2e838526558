//! JSON documents, and the calls into `serde_json` that build, read, parse
//! and write them.
//!
//! A `serde_json::Value` is opaque to the verifier. Its content is named by
//! [`json_of`], a mathematical tree, and every function below that calls
//! `serde_json` states what the call does to that tree. None of these
//! statements is proved: each is taken from the source of `serde_json` built
//! with its default features, where an object keeps its members sorted by key
//! and a number is an integer of 64 bits or a binary fraction.

use vstd::prelude::*;

verus! {

/// What a JSON value holds.
pub enum JsonDoc {
    Null,
    Bool(bool),
    /// A number written without fraction or exponent.
    Integer(int),
    /// Any other number, by the bits of its binary form.
    Real(int),
    Text(Seq<char>),
    List(Seq<JsonDoc>),
    /// An object: at most one member under each key.
    Record(Map<Seq<char>, JsonDoc>),
}

/// `serde_json::Value`, taken as it is: nothing inside it is visible.
#[verifier::external_type_specification]
#[verifier::external_body]
pub struct ExValue(serde_json::Value);

/// `serde_json::Map`, taken as it is: nothing inside it is visible.
#[verifier::external_type_specification]
#[verifier::external_body]
#[verifier::reject_recursive_types(K)]
#[verifier::reject_recursive_types(V)]
pub struct ExMembers<K, V>(serde_json::Map<K, V>);

/// The members of a JSON object while it is put together.
pub type Members = serde_json::Map<String, serde_json::Value>;

/// The document that a `serde_json::Value` holds.
pub uninterp spec fn json_of(value: serde_json::Value) -> JsonDoc;

/// The members that a `serde_json::Map` holds, by key.
pub uninterp spec fn members_of(members: Members) -> Map<Seq<char>, JsonDoc>;

/// The compact text that `serde_json` writes for a document: no white space,
/// the members of an object in the order of their keys.
pub uninterp spec fn json_text(doc: JsonDoc) -> Seq<char>;

/// What `serde_json::from_slice` makes of a text: the document it holds, or
/// the parser's complaint.
pub uninterp spec fn parsed(text: Seq<u8>) -> Result<JsonDoc, Seq<char>>;

/// An object without members.
pub open spec fn no_members() -> Map<Seq<char>, JsonDoc> {
    Map::empty()
}

/// The documents that a sequence of values holds, one by one.
pub open spec fn docs_of(values: Seq<serde_json::Value>) -> Seq<JsonDoc> {
    values.map_values(|value: serde_json::Value| json_of(value))
}

/// The member of an object under a key; nothing for a missing key, and
/// nothing for a document that is no object.
pub open spec fn member_of(doc: JsonDoc, key: Seq<char>) -> Option<JsonDoc> {
    match doc {
        JsonDoc::Record(members) => if members.contains_key(key) {
            Some(members[key])
        } else {
            None
        },
        _ => None,
    }
}

/// Whether a document is an integer that 64 signed bits hold.
pub open spec fn is_small_integer(doc: JsonDoc) -> bool {
    doc matches JsonDoc::Integer(n) && i64::MIN <= n <= i64::MAX
}

/// The variant `serde_json::Value::Null`.
#[verifier::external_body]
pub(crate) fn null() -> (value: serde_json::Value)
    ensures
        json_of(value) == JsonDoc::Null,
{
    serde_json::Value::Null
}

/// The variant `serde_json::Value::Bool`.
#[verifier::external_body]
pub(crate) fn boolean(flag: bool) -> (value: serde_json::Value)
    ensures
        json_of(value) == JsonDoc::Bool(flag),
{
    serde_json::Value::Bool(flag)
}

/// `serde_json::Value::from` for `i32`: the number with the same value, held
/// as an integer.
#[verifier::external_body]
pub(crate) fn integer(number: i32) -> (value: serde_json::Value)
    ensures
        json_of(value) == JsonDoc::Integer(number as int),
{
    serde_json::Value::from(number)
}

/// The variant `serde_json::Value::String`.
#[verifier::external_body]
pub(crate) fn text(content: String) -> (value: serde_json::Value)
    ensures
        json_of(value) == JsonDoc::Text(content@),
{
    serde_json::Value::String(content)
}

/// The variant `serde_json::Value::Array`: the items in their order.
#[verifier::external_body]
pub(crate) fn list(items: Vec<serde_json::Value>) -> (value: serde_json::Value)
    ensures
        json_of(value) == JsonDoc::List(docs_of(items@)),
{
    serde_json::Value::Array(items)
}

/// `serde_json::Map::new`: a map without members.
#[verifier::external_body]
pub(crate) fn new_members() -> (members: Members)
    ensures
        members_of(members) == no_members(),
{
    serde_json::Map::new()
}

/// `serde_json::Map::insert`: afterwards the key holds the value, whether or
/// not the key was present before, and every other member is as it was.
#[verifier::external_body]
pub(crate) fn put(members: &mut Members, key: &str, value: serde_json::Value)
    ensures
        members_of(*final(members)) == members_of(*old(members)).insert(key@, json_of(value)),
{
    members.insert(key.to_owned(), value);
}

/// The variant `serde_json::Value::Object`.
#[verifier::external_body]
pub(crate) fn object(members: Members) -> (value: serde_json::Value)
    ensures
        json_of(value) == JsonDoc::Record(members_of(members)),
{
    serde_json::Value::Object(members)
}

/// `to_string` of a `serde_json::Value`, which goes through its `Display`:
/// the compact text of the document. That text depends on the document alone.
#[verifier::external_body]
pub(crate) fn render(value: &serde_json::Value) -> (written: String)
    ensures
        written@ == json_text(json_of(*value)),
{
    value.to_string()
}

/// `serde_json::from_slice` at the type `serde_json::Value`, with the error
/// turned into its text by `to_string`. The outcome depends on the bytes
/// alone: a value holding the document of the text, or the complaint.
#[verifier::external_body]
pub(crate) fn parse(bytes: &[u8]) -> (outcome: Result<serde_json::Value, String>)
    ensures
        match outcome {
            Ok(value) => parsed(bytes@) == Ok::<JsonDoc, Seq<char>>(json_of(value)),
            Err(complaint) => parsed(bytes@) == Err::<JsonDoc, Seq<char>>(complaint@),
        },
{
    match serde_json::from_slice::<serde_json::Value>(bytes) {
        Ok(value) => Ok(value),
        Err(error) => Err(error.to_string()),
    }
}

/// `serde_json::Value::get` with a string key: the member of an object under
/// that key; `None` where the key is missing or the value is no object.
#[verifier::external_body]
pub(crate) fn member<'a>(value: &'a serde_json::Value, key: &str) -> (found: Option<
    &'a serde_json::Value,
>)
    ensures
        match found {
            Some(inner) => member_of(json_of(*value), key@) == Some(json_of(*inner)),
            None => member_of(json_of(*value), key@) is None,
        },
{
    value.get(key)
}

/// `serde_json::Value::as_str`: the content of a string, `None` for any other
/// value.
#[verifier::external_body]
pub(crate) fn as_text<'a>(value: &'a serde_json::Value) -> (found: Option<&'a str>)
    ensures
        match found {
            Some(content) => json_of(*value) == JsonDoc::Text(content@),
            None => !(json_of(*value) is Text),
        },
{
    value.as_str()
}

/// `serde_json::Value::as_i64`: the value of an integer that 64 signed bits
/// hold, `None` for a larger integer, for a fraction and for any other value.
#[verifier::external_body]
pub(crate) fn as_integer(value: &serde_json::Value) -> (found: Option<i64>)
    ensures
        match found {
            Some(number) => json_of(*value) == JsonDoc::Integer(number as int),
            None => !is_small_integer(json_of(*value)),
        },
{
    value.as_i64()
}

/// `serde_json::Value::is_null`.
#[verifier::external_body]
pub(crate) fn is_null(value: &serde_json::Value) -> (flag: bool)
    ensures
        flag == (json_of(*value) is Null),
{
    value.is_null()
}

} // verus!
