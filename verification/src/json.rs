//! JSON values, as the `serde_json` crate reads, builds and writes them.

use vstd::prelude::*;

use serde_json::Value;

verus! {

/// What a JSON value holds, as far as this library looks at it.
pub enum Json {
    /// A string.
    Text(Seq<char>),
    /// A number that is an integer of at most 64 bits, without a sign.
    Natural(u64),
    /// An object: its members by their names.
    Object(Map<Seq<char>, Json>),
    /// Any other value.
    Other,
}

/// An outside type: a JSON value of the `serde_json` crate.
#[verifier::external_type_specification]
#[verifier::external_body]
pub struct ExValue(serde_json::Value);

/// An outside type: the error of the `serde_json` crate.
#[verifier::external_type_specification]
#[verifier::external_body]
pub struct ExError(serde_json::Error);

/// What a value of the `serde_json` crate holds.
pub uninterp spec fn json_of(value: Value) -> Json;

/// What `serde_json::from_str` reads in `text`: nothing where it reports an error.
pub uninterp spec fn parsed_json(text: Seq<char>) -> Option<Json>;

/// What `serde_json::to_string_pretty` writes of a value that holds `json`.
pub uninterp spec fn pretty_json(json: Json) -> Seq<char>;

/// A string, or a natural number.
pub open spec fn is_scalar(json: Json) -> bool {
    json is Text || json is Natural
}

/// An object whose members are all strings or natural numbers and whose names do
/// not begin with a dollar sign.
pub open spec fn is_record(json: Json) -> bool {
    &&& json is Object
    &&& forall|name: Seq<char>| #[trigger]
        json->Object_0.dom().contains(name) ==> {
            &&& is_scalar(json->Object_0[name])
            &&& !(name.len() > 0 && name[0] == '$')
        }
}

/// No two pairs share a name.
pub open spec fn distinct_names(pairs: Seq<(String, Value)>) -> bool {
    forall|i: int, j: int|
        0 <= i < j < pairs.len() ==> (#[trigger] pairs[i]).0@ != (#[trigger] pairs[j]).0@
}

/// The members that a list of pairs stands for.
pub open spec fn members_of(pairs: Seq<(String, Value)>) -> Map<Seq<char>, Json>
    decreases pairs.len(),
{
    if pairs.len() == 0 {
        Map::empty()
    } else {
        members_of(pairs.drop_last()).insert(pairs.last().0@, json_of(pairs.last().1))
    }
}

/// Reads a JSON text with `serde_json::from_str`. What it reads, or that it reads
/// nothing, is a function of the text; which error it reports is left unsaid.
#[verifier::external_body]
pub(crate) fn parse_value(text: &str) -> (value: Result<Value, serde_json::Error>)
    ensures
        (match value {
            Ok(v) => Some(json_of(v)),
            Err(_) => None,
        }) == parsed_json(text@),
{
    serde_json::from_str::<Value>(text)
}

/// Writes a JSON value with `serde_json::to_string_pretty`. A record is always
/// written; its text is a function of what it holds, and reads back as the same.
/// Of other values nothing is claimed: a float may lose digits, and a deeply
/// nested value is refused by the reader.
#[verifier::external_body]
pub(crate) fn pretty_value(value: &Value) -> (text: Result<String, serde_json::Error>)
    ensures
        is_record(json_of(*value)) ==> {
            &&& text is Ok
            &&& text->Ok_0@ == pretty_json(json_of(*value))
            &&& parsed_json(text->Ok_0@) == Some(json_of(*value))
        },
{
    serde_json::to_string_pretty(value)
}

/// Looks up a member of an object with `Value::get`. There is one exactly where
/// the value is an object that has a member of that name.
#[verifier::external_body]
pub(crate) fn member<'a>(value: &'a Value, name: &str) -> (found: Option<&'a Value>)
    ensures
        (match found {
            Some(v) => Some(json_of(*v)),
            None => None,
        }) == (match json_of(*value) {
            Json::Object(members) => if members.dom().contains(name@) {
                Some(members[name@])
            } else {
                None
            },
            _ => None,
        }),
{
    value.get(name)
}

/// The string that a value holds, by `Value::as_str`.
#[verifier::external_body]
pub(crate) fn as_text(value: &Value) -> (text: Option<&str>)
    ensures
        (match text {
            Some(s) => Some(s@),
            None => None,
        }) == (match json_of(*value) {
            Json::Text(s) => Some(s),
            _ => None,
        }),
{
    value.as_str()
}

/// The natural number that a value holds, by `Value::as_u64`.
#[verifier::external_body]
pub(crate) fn as_natural(value: &Value) -> (n: Option<u64>)
    ensures
        n == (match json_of(*value) {
            Json::Natural(n) => Some(n),
            _ => None,
        }),
{
    value.as_u64()
}

/// A string as a JSON value, by `Value::from`.
#[verifier::external_body]
pub(crate) fn text_value(text: &str) -> (value: Value)
    ensures
        json_of(value) == Json::Text(text@),
{
    Value::from(text)
}

/// A number as a JSON value, by `Value::from`.
#[verifier::external_body]
pub(crate) fn natural_value(n: u16) -> (value: Value)
    ensures
        json_of(value) == Json::Natural(n as u64),
{
    Value::from(n)
}

/// An object made of name and value pairs, by `Value::from_iter`. Each pair becomes
/// a member of the object.
#[verifier::external_body]
pub(crate) fn object_value(pairs: Vec<(String, Value)>) -> (value: Value)
    requires
        distinct_names(pairs@),
    ensures
        json_of(value) == Json::Object(members_of(pairs@)),
{
    Value::from_iter(pairs)
}

} // verus!
