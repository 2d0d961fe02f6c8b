//! JSON documents: their mathematical model, and what is believed of
//! `serde_json`, which parses and holds them.

use serde_json::Value;
use vstd::prelude::*;

verus! {

/// A JSON number, as far as a decoder can tell numbers apart.
pub enum JsonNumber {
    /// An integer from `i64::MIN` to `u64::MAX`.
    Integer(int),
    /// Any other number.
    Real,
}

/// A JSON document.
pub enum JsonValue {
    Null,
    Boolean(bool),
    Number(JsonNumber),
    Text(Seq<char>),
    List(Seq<JsonValue>),
    Object(Map<Seq<char>, JsonValue>),
}

impl JsonValue {
    /// The member `key` of an object. A document that is no object has no
    /// members.
    pub open spec fn member(self, key: Seq<char>) -> Option<JsonValue> {
        match self {
            JsonValue::Object(members) if members.contains_key(key) => Some(members[key]),
            _ => None,
        }
    }

    /// The text that a string document holds.
    pub open spec fn as_text(self) -> Option<Seq<char>> {
        match self {
            JsonValue::Text(text) => Some(text),
            _ => None,
        }
    }

    /// The texts that an array of strings holds, in their order.
    pub open spec fn as_text_list(self) -> Option<Seq<Seq<char>>> {
        match self {
            JsonValue::List(items) if forall|i: int| 0 <= i < items.len() ==> items[i] is Text => Some(
                Seq::new(items.len(), |i: int| items[i]->Text_0),
            ),
            _ => None,
        }
    }

    /// The number that the document holds, where it is an integer that fits
    /// in a `u32`.
    pub open spec fn as_u32(self) -> Option<u32> {
        match self {
            JsonValue::Number(JsonNumber::Integer(n)) if 0 <= n <= u32::MAX => Some(n as u32),
            _ => None,
        }
    }

    /// The flag that a boolean document holds.
    pub open spec fn as_flag(self) -> Option<bool> {
        match self {
            JsonValue::Boolean(flag) => Some(flag),
            _ => None,
        }
    }

    /// The number that the document holds, where it is an integer that fits
    /// in a `u64`.
    pub open spec fn as_unsigned(self) -> Option<u64> {
        match self {
            JsonValue::Number(JsonNumber::Integer(n)) if 0 <= n <= u64::MAX => Some(n as u64),
            _ => None,
        }
    }

    /// The number that the document holds, where it is an integer that fits
    /// in an `i64`.
    pub open spec fn as_signed(self) -> Option<i64> {
        match self {
            JsonValue::Number(JsonNumber::Integer(n)) if i64::MIN <= n <= i64::MAX => Some(
                n as i64,
            ),
            _ => None,
        }
    }
}

#[verifier::external_type_specification]
#[verifier::external_body]
pub struct ExValue(serde_json::Value);

#[verifier::external_type_specification]
#[verifier::external_body]
pub struct ExSyntaxError(serde_json::Error);

/// The document that a `serde_json::Value` holds.
pub uninterp spec fn json_of(value: Value) -> JsonValue;

/// The document that a text is the JSON notation of; `None` where
/// `serde_json` does not accept the text.
pub uninterp spec fn parsed_json(text: Seq<char>) -> Option<JsonValue>;

/// `serde_json::from_str`, asked for a `Value`. It is believed to be a
/// function of the text alone: it accepts the text exactly where
/// [`parsed_json`] has a document for it, and the value then holds that
/// document.
#[verifier::external_body]
pub(crate) fn parse(text: &str) -> (parsed: Result<Value, serde_json::Error>)
    ensures
        parsed is Ok <==> parsed_json(text@) is Some,
        parsed matches Ok(value) ==> parsed_json(text@) == Some(json_of(value)),
{
    serde_json::from_str::<Value>(text)
}

/// `Value::get` with a string index: the member of that name where the value
/// is an object that has one, and `None` otherwise.
#[verifier::external_body]
pub(crate) fn member<'a>(value: &'a Value, key: &str) -> (found: Option<&'a Value>)
    ensures
        match found {
            Some(inner) => json_of(*value).member(key@) == Some(json_of(*inner)),
            None => json_of(*value).member(key@) is None,
        },
{
    value.get(key)
}

/// `Value::clone`: the copy holds the same document.
pub assume_specification[ <serde_json::Value as Clone>::clone ](
    value: &serde_json::Value,
) -> (copy: serde_json::Value)
    ensures
        json_of(copy) == json_of(*value),
;

/// `Value::is_null` tells whether the document is `null`.
pub assume_specification[ serde_json::Value::is_null ](value: &serde_json::Value) -> (null: bool)
    ensures
        null == (json_of(*value) is Null),
;

/// `Value::is_object` tells whether the document is an object.
pub assume_specification[ serde_json::Value::is_object ](
    value: &serde_json::Value,
) -> (object: bool)
    ensures
        object == (json_of(*value) is Object),
;

/// `Value::as_bool` gives the flag of a boolean, and `None` for any other
/// document.
pub assume_specification[ serde_json::Value::as_bool ](
    value: &serde_json::Value,
) -> (flag: Option<bool>)
    ensures
        flag == json_of(*value).as_flag(),
;

/// `Value::as_u64` gives an integer that is not negative, and `None` for a
/// negative integer, for any other number and for any other document.
pub assume_specification[ serde_json::Value::as_u64 ](
    value: &serde_json::Value,
) -> (number: Option<u64>)
    ensures
        number == json_of(*value).as_unsigned(),
;

/// `Value::as_i64` gives an integer that fits in an `i64`, and `None` for a
/// larger integer, for any other number and for any other document.
pub assume_specification[ serde_json::Value::as_i64 ](
    value: &serde_json::Value,
) -> (number: Option<i64>)
    ensures
        number == json_of(*value).as_signed(),
;

/// `Value::as_str` gives the text of a string, and `None` for any other
/// document.
pub assume_specification<'a>[ serde_json::Value::as_str ](
    value: &'a serde_json::Value,
) -> (text: Option<&'a str>)
    ensures
        match text {
            Some(text) => json_of(*value) == JsonValue::Text(text@),
            None => !(json_of(*value) is Text),
        },
;

/// `Value::as_array` gives the items of an array, in their order, and `None`
/// for any other document.
pub assume_specification<'a>[ serde_json::Value::as_array ](
    value: &'a serde_json::Value,
) -> (items: Option<&'a Vec<serde_json::Value>>)
    ensures
        match items {
            Some(items) => json_of(*value) == JsonValue::List(
                items@.map_values(|item: Value| json_of(item)),
            ),
            None => !(json_of(*value) is List),
        },
;

} // verus!
