//! JSON, as far as the library touches it: every call into `serde_json`.
//!
//! A JSON value is carried as `serde_json::Value` and is opaque to the
//! proofs. What a value holds is spoken of as `json_text`, the compact text
//! that `serde_json` writes for it. What the protocol reads of a value comes
//! out of these calls as plain data, and nothing is claimed of it beyond what
//! each item says.

use vstd::prelude::*;

verus! {

/// A JSON value of `serde_json`. The library carries such values and never
/// reasons about what is inside.
#[verifier::external_type_specification]
#[verifier::external_body]
pub struct ExJsonValue(serde_json::Value);

/// The failure of `serde_json` to read or to write a text.
#[verifier::external_type_specification]
#[verifier::external_body]
pub struct ExJsonError(serde_json::Error);

/// `Clone::clone` of `serde_json::Value`, which is derived there: the copy is
/// the same JSON value as the original.
pub assume_specification[ <serde_json::Value as Clone>::clone ](value: &serde_json::Value) -> (copy:
    serde_json::Value)
    ensures
        copy == *value,
;

/// What the protocol reads of a JSON value: whether it is null, a boolean or
/// a string, and which.
#[derive(Debug)]
pub enum Reading {
    Null,
    Flag(bool),
    Text(String),
    Other,
}

/// A member of a JSON object: its value, and what the protocol reads of it.
#[derive(Debug)]
pub struct Member {
    pub value: serde_json::Value,
    pub reading: Reading,
}

/// What a JSON value holds: the compact text that `serde_json::to_string`
/// writes for it.
pub uninterp spec fn json_text(value: serde_json::Value) -> Seq<char>;

/// The compact text of the JSON string with this text: the text between
/// quotation marks, with the escapes that `serde_json` writes.
pub uninterp spec fn json_string_text(text: Seq<char>) -> Seq<char>;

/// The compact text of the JSON object that collects these members, each
/// given by its name and by the compact text of its value.
pub uninterp spec fn json_object_text(members: Seq<(Seq<char>, Seq<char>)>) -> Seq<char>;

/// The members of an object to be, each by its name and by the compact
/// text of its value.
pub open spec fn member_texts(members: Seq<(String, serde_json::Value)>) -> Seq<
    (Seq<char>, Seq<char>),
> {
    Seq::new(members.len(), |i: int| (members[i].0@, json_text(members[i].1)))
}

/// Whether `serde_json` reads a text as one JSON value.
pub uninterp spec fn json_parses(text: Seq<char>) -> bool;

/// The JSON value that `serde_json` reads a text as.
pub uninterp spec fn parsed_json(text: Seq<char>) -> serde_json::Value;

/// The member of a name that `Value::get` finds in a JSON value, with its
/// reading; `None` where the value is no object or has no such member.
pub uninterp spec fn member_of(object: serde_json::Value, name: Seq<char>) -> Option<Member>;

/// `serde_json::from_str` for a `Value`: reads a text as one JSON value.
/// Whether it succeeds, and the value, depend on the text alone; both are
/// named, not stated.
#[verifier::external_body]
pub(crate) fn read_json(text: &str) -> (read: Result<serde_json::Value, serde_json::Error>)
    ensures
        read is Ok <==> json_parses(text@),
        read matches Ok(value) ==> value == parsed_json(text@),
{
    serde_json::from_str::<serde_json::Value>(text)
}

/// `serde_json::to_string` of a `Value`: writes the value as compact JSON
/// text. A `Value` is always written: its members' names are strings, and
/// the text goes into memory. What is written is what the value holds, and
/// it holds no line feed: the compact form has no white space, and a string
/// is written with its control characters escaped.
#[verifier::external_body]
pub(crate) fn write_json(value: &serde_json::Value) -> (written: Result<String, serde_json::Error>)
    ensures
        written is Ok,
        written matches Ok(text) ==> text@ == json_text(*value),
        written matches Ok(text) ==> !text@.contains('\n'),
{
    serde_json::to_string(value)
}

/// The message of a failure of `serde_json`, as its `Display` writes it.
/// Nothing is claimed of the text.
#[verifier::external_body]
pub(crate) fn error_text(error: &serde_json::Error) -> (text: String) {
    error.to_string()
}

/// `Value::get` with a member's name: the member of that name, if the value
/// is an object that has one, together with its reading. The member depends
/// on the value and the name alone; it is named, not stated.
#[verifier::external_body]
pub(crate) fn read_member(object: &serde_json::Value, name: &str) -> (member: Option<Member>)
    ensures
        member == member_of(*object, name@),
{
    match object.get(name) {
        None => None,
        Some(value) => Some(
            Member {
                value: value.clone(),
                reading: match value {
                    serde_json::Value::Null => Reading::Null,
                    serde_json::Value::Bool(flag) => Reading::Flag(*flag),
                    serde_json::Value::String(text) => Reading::Text(text.clone()),
                    _ => Reading::Other,
                },
            },
        ),
    }
}

/// The JSON string with this text: `Value::String`. It is written as the
/// text between quotation marks, escaped; that text is named, not stated.
#[verifier::external_body]
pub(crate) fn text_value(text: &str) -> (value: serde_json::Value)
    ensures
        json_text(value) == json_string_text(text@),
{
    serde_json::Value::String(text.to_string())
}

/// The JSON boolean: `Value::Bool`. It is written as `true` or `false`.
#[verifier::external_body]
pub(crate) fn flag_value(flag: bool) -> (value: serde_json::Value)
    ensures
        json_text(value) == if flag {
            "true"@
        } else {
            "false"@
        },
{
    serde_json::Value::Bool(flag)
}

/// The JSON null: `Value::Null`. It is written as `null`.
#[verifier::external_body]
pub(crate) fn null_value() -> (value: serde_json::Value)
    ensures
        json_text(value) == "null"@,
{
    serde_json::Value::Null
}

/// The JSON object with these members: `Value::Object` of the map that
/// collects them. Of two members with one name the later stays. The object
/// is written from the names of its members and from what is written for
/// their values, in the order in which the map keeps them; that text is
/// named, not stated.
#[verifier::external_body]
pub(crate) fn object_value(members: Vec<(String, serde_json::Value)>) -> (value: serde_json::Value)
    ensures
        json_text(value) == json_object_text(member_texts(members@)),
{
    serde_json::Value::Object(members.into_iter().collect())
}

} // verus!
