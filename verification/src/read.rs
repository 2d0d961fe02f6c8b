//! Reading one member of a JSON object.
//!
//! What a reader returns is a spec function on [`JsonValue`]; the reader
//! itself works on a `serde_json::Value` and returns exactly that.
//!
//! A member is required or optional. A required member that is absent is
//! [`Fault::Missing`]. An optional member may be absent, and where it is a
//! plain value it may also be `null`. A member that is there and holds a
//! document of another type than the reader asks for is [`Fault::Mistyped`].
//!
//! Some members carry a record in an encoding of its own: JSON text inside a
//! string, or base64 text. Such a member must hold a string, and the string
//! must decode, or else it is [`Fault::Unparsable`]; `null` is not accepted
//! in place of the string.

use crate::codec::{base64_decoded, decode_base64};
use crate::error::{failed, Fault, FieldError};
use crate::field::Field;
use crate::json::{json_of, member, parse, parsed_json, JsonValue};
use crate::payload::ProvidedTrack;
use serde_json::Value;
use vstd::prelude::*;

verus! {

/// What a result is in the contracts: the deep view of the value, or the
/// error as it is.
pub open spec fn outcome<T: DeepView, E>(result: Result<T, E>) -> Result<T::V, E> {
    match result {
        Ok(value) => Ok(value.deep_view()),
        Err(error) => Err(error),
    }
}

/// The document that a text carries: the JSON object that the text is the
/// notation of. A text that is not JSON, or is the notation of anything but
/// an object, carries none.
pub open spec fn embedded(text: Seq<char>) -> Option<JsonValue> {
    match parsed_json(text) {
        Some(document) if document is Object => Some(document),
        _ => None,
    }
}

/// What [`accept_document`] makes of the outcome of a parse.
pub open spec fn accepted(parsed: Result<Value, serde_json::Error>) -> Option<JsonValue> {
    match parsed {
        Ok(value) if json_of(value) is Object => Some(json_of(value)),
        _ => None,
    }
}

impl JsonValue {
    /// The required member `field`.
    pub open spec fn required(self, field: Field) -> Result<JsonValue, FieldError> {
        match self.member(field.key()) {
            Some(document) => Ok(document),
            None => Err(failed(field, Fault::Missing)),
        }
    }

    /// The optional member `field`: `None` where it is absent or `null`.
    pub open spec fn optional(self, field: Field) -> Option<JsonValue> {
        match self.member(field.key()) {
            Some(document) if !(document is Null) => Some(document),
            _ => None,
        }
    }

    /// The required text `field`.
    pub open spec fn required_text(self, field: Field) -> Result<Seq<char>, FieldError> {
        match self.required(field) {
            Ok(document) => typed(field, document.as_text()),
            Err(error) => Err(error),
        }
    }

    /// The optional text `field`.
    pub open spec fn optional_text(self, field: Field) -> Result<Option<Seq<char>>, FieldError> {
        match self.optional(field) {
            Some(document) => some(typed(field, document.as_text())),
            None => Ok(None),
        }
    }

    /// The optional list of texts `field`.
    pub open spec fn optional_text_list(self, field: Field) -> Result<
        Option<Seq<Seq<char>>>,
        FieldError,
    > {
        match self.optional(field) {
            Some(document) => some(typed(field, document.as_text_list())),
            None => Ok(None),
        }
    }

    /// The required flag `field`.
    pub open spec fn required_flag(self, field: Field) -> Result<bool, FieldError> {
        match self.required(field) {
            Ok(document) => typed(field, document.as_flag()),
            Err(error) => Err(error),
        }
    }

    /// The optional flag `field`.
    pub open spec fn optional_flag(self, field: Field) -> Result<Option<bool>, FieldError> {
        match self.optional(field) {
            Some(document) => some(typed(field, document.as_flag())),
            None => Ok(None),
        }
    }

    /// The required number `field`, which fits in a `u32`.
    pub open spec fn required_u32(self, field: Field) -> Result<u32, FieldError> {
        match self.required(field) {
            Ok(document) => typed(field, document.as_u32()),
            Err(error) => Err(error),
        }
    }

    /// The optional number `field`, which fits in a `u32`.
    pub open spec fn optional_u32(self, field: Field) -> Result<Option<u32>, FieldError> {
        match self.optional(field) {
            Some(document) => some(typed(field, document.as_u32())),
            None => Ok(None),
        }
    }

    /// The optional number `field`, which fits in an `i64`.
    pub open spec fn optional_i64(self, field: Field) -> Result<Option<i64>, FieldError> {
        match self.optional(field) {
            Some(document) => some(typed(field, document.as_signed())),
            None => Ok(None),
        }
    }

    /// The required record `field`: a member that is an object.
    pub open spec fn required_record(self, field: Field) -> Result<JsonValue, FieldError> {
        match self.required(field) {
            Ok(document) => if document is Object {
                Ok(document)
            } else {
                Err(failed(field, Fault::Mistyped))
            },
            Err(error) => Err(error),
        }
    }

    /// The optional record `field`: a member that is an object.
    pub open spec fn optional_record(self, field: Field) -> Result<Option<JsonValue>, FieldError> {
        match self.optional(field) {
            Some(document) => if document is Object {
                Ok(Some(document))
            } else {
                Err(failed(field, Fault::Mistyped))
            },
            None => Ok(None),
        }
    }

    /// The document that the member `field` carries as JSON text, where the
    /// member is there.
    pub open spec fn carried(self, field: Field) -> Result<JsonValue, FieldError> {
        match self.member(field.key()) {
            Some(JsonValue::Text(text)) => match embedded(text) {
                Some(document) => Ok(document),
                None => Err(failed(field, Fault::Unparsable)),
            },
            Some(_) => Err(failed(field, Fault::Mistyped)),
            None => Err(failed(field, Fault::Missing)),
        }
    }

    /// The document that the required member `field` carries as JSON text.
    pub open spec fn required_embedded(self, field: Field) -> Result<JsonValue, FieldError> {
        self.carried(field)
    }

    /// The document that the optional member `field` carries as JSON text.
    /// Only an absent member carries none.
    pub open spec fn optional_embedded(
        self,
        field: Field,
    ) -> Result<Option<JsonValue>, FieldError> {
        if self.member(field.key()) is None {
            Ok(None)
        } else {
            some(self.carried(field))
        }
    }

    /// The documents that the items of the required list `field` carry as
    /// JSON text. The list is first held to be a list of texts, then each
    /// text to carry a document.
    pub open spec fn required_embedded_list(self, field: Field) -> Result<
        Seq<JsonValue>,
        FieldError,
    > {
        match self.required(field) {
            Ok(document) => match document.as_text_list() {
                Some(texts) => if forall|i: int| 0 <= i < texts.len() ==> embedded(texts[i]) is Some {
                    Ok(Seq::new(texts.len(), |i: int| embedded(texts[i])->Some_0))
                } else {
                    Err(failed(field, Fault::Unparsable))
                },
                None => Err(failed(field, Fault::Mistyped)),
            },
            Err(error) => Err(error),
        }
    }

    /// The bytes that the optional member `field` carries as base64 text.
    /// Only an absent member carries none.
    pub open spec fn optional_bytes(self, field: Field) -> Result<Option<Seq<u8>>, FieldError> {
        match self.member(field.key()) {
            Some(JsonValue::Text(text)) => match base64_decoded(text) {
                Some(bytes) => Ok(Some(bytes)),
                None => Err(failed(field, Fault::Unparsable)),
            },
            Some(_) => Err(failed(field, Fault::Mistyped)),
            None => Ok(None),
        }
    }
}

/// A member's value of the type asked for, or the error that the member is
/// mistyped.
pub open spec fn typed<T>(field: Field, value: Option<T>) -> Result<T, FieldError> {
    match value {
        Some(value) => Ok(value),
        None => Err(failed(field, Fault::Mistyped)),
    }
}

/// The result of reading an optional member that is there.
pub open spec fn some<T>(read: Result<T, FieldError>) -> Result<Option<T>, FieldError> {
    match read {
        Ok(value) => Ok(Some(value)),
        Err(error) => Err(error),
    }
}

/// Reads the required member `field`.
pub fn required<'a>(object: &'a Value, field: Field) -> (read: Result<&'a Value, FieldError>)
    ensures
        match read {
            Ok(document) => json_of(*object).required(field) == Ok::<JsonValue, FieldError>(
                json_of(*document),
            ),
            Err(error) => json_of(*object).required(field) == Err::<JsonValue, FieldError>(error),
        },
{
    match member(object, field.name()) {
        Some(document) => Ok(document),
        None => Err(FieldError { field, fault: Fault::Missing }),
    }
}

/// Reads the optional member `field`.
pub fn optional<'a>(object: &'a Value, field: Field) -> (read: Option<&'a Value>)
    ensures
        match read {
            Some(document) => json_of(*object).optional(field) == Some(json_of(*document)),
            None => json_of(*object).optional(field) is None,
        },
{
    match member(object, field.name()) {
        Some(document) => if document.is_null() {
            None
        } else {
            Some(document)
        },
        None => None,
    }
}

/// The text that a document holds.
pub fn text_of(document: &Value) -> (text: Option<String>)
    ensures
        text.deep_view() == json_of(*document).as_text(),
{
    match document.as_str() {
        Some(text) => Some(text.to_owned()),
        None => None,
    }
}

/// The texts that a document holds.
pub fn text_list_of(document: &Value) -> (texts: Option<Vec<String>>)
    ensures
        texts.deep_view() == json_of(*document).as_text_list(),
{
    match document.as_array() {
        None => None,
        Some(items) => {
            let ghost listed = items@.map_values(|item: Value| json_of(item));
            let mut texts: Vec<String> = Vec::new();
            let mut at: usize = 0;
            while at < items.len()
                invariant
                    at <= items.len(),
                    texts.len() == at,
                    listed == items@.map_values(|item: Value| json_of(item)),
                    json_of(*document) == JsonValue::List(listed),
                    forall|i: int| 0 <= i < at ==> listed[i] == JsonValue::Text(#[trigger] texts@[i]@),
                decreases items.len() - at,
            {
                match items[at].as_str() {
                    Some(text) => {
                        texts.push(text.to_owned());
                    },
                    None => {
                        assert(!(listed[at as int] is Text));
                        return None;
                    },
                }
                at += 1;
            }
            proof {
                assert forall|i: int| 0 <= i < listed.len() implies listed[i] is Text by {
                    assert(listed[i] == JsonValue::Text(texts@[i]@));
                }
                assert(texts.deep_view() =~= json_of(*document).as_text_list()->Some_0);
            }
            Some(texts)
        },
    }
}

/// The number that a document holds, where it fits in a `u32`.
pub fn u32_of(document: &Value) -> (number: Option<u32>)
    ensures
        number == json_of(*document).as_u32(),
{
    match document.as_u64() {
        Some(number) => if number <= 0xffff_ffff {
            Some(number as u32)
        } else {
            None
        },
        None => None,
    }
}

/// Reads the required text `field`.
pub fn required_text(object: &Value, field: Field) -> (read: Result<String, FieldError>)
    ensures
        outcome(read) == json_of(*object).required_text(field),
{
    let document = required(object, field)?;
    match text_of(document) {
        Some(text) => Ok(text),
        None => Err(FieldError { field, fault: Fault::Mistyped }),
    }
}

/// Reads the optional text `field`.
pub fn optional_text(object: &Value, field: Field) -> (read: Result<Option<String>, FieldError>)
    ensures
        outcome(read) == json_of(*object).optional_text(field),
{
    match optional(object, field) {
        Some(document) => match text_of(document) {
            Some(text) => Ok(Some(text)),
            None => Err(FieldError { field, fault: Fault::Mistyped }),
        },
        None => Ok(None),
    }
}

/// Reads the optional list of texts `field`.
pub fn optional_text_list(object: &Value, field: Field) -> (read: Result<
    Option<Vec<String>>,
    FieldError,
>)
    ensures
        outcome(read) == json_of(*object).optional_text_list(field),
{
    match optional(object, field) {
        Some(document) => match text_list_of(document) {
            Some(texts) => Ok(Some(texts)),
            None => Err(FieldError { field, fault: Fault::Mistyped }),
        },
        None => Ok(None),
    }
}

/// Reads the required flag `field`.
pub fn required_flag(object: &Value, field: Field) -> (read: Result<bool, FieldError>)
    ensures
        read == json_of(*object).required_flag(field),
{
    let document = required(object, field)?;
    match document.as_bool() {
        Some(flag) => Ok(flag),
        None => Err(FieldError { field, fault: Fault::Mistyped }),
    }
}

/// Reads the optional flag `field`.
pub fn optional_flag(object: &Value, field: Field) -> (read: Result<Option<bool>, FieldError>)
    ensures
        read == json_of(*object).optional_flag(field),
{
    match optional(object, field) {
        Some(document) => match document.as_bool() {
            Some(flag) => Ok(Some(flag)),
            None => Err(FieldError { field, fault: Fault::Mistyped }),
        },
        None => Ok(None),
    }
}

/// Reads the required number `field`.
pub fn required_u32(object: &Value, field: Field) -> (read: Result<u32, FieldError>)
    ensures
        read == json_of(*object).required_u32(field),
{
    let document = required(object, field)?;
    match u32_of(document) {
        Some(number) => Ok(number),
        None => Err(FieldError { field, fault: Fault::Mistyped }),
    }
}

/// Reads the optional number `field`.
pub fn optional_u32(object: &Value, field: Field) -> (read: Result<Option<u32>, FieldError>)
    ensures
        read == json_of(*object).optional_u32(field),
{
    match optional(object, field) {
        Some(document) => match u32_of(document) {
            Some(number) => Ok(Some(number)),
            None => Err(FieldError { field, fault: Fault::Mistyped }),
        },
        None => Ok(None),
    }
}

/// Reads the optional number `field`.
pub fn optional_i64(object: &Value, field: Field) -> (read: Result<Option<i64>, FieldError>)
    ensures
        read == json_of(*object).optional_i64(field),
{
    match optional(object, field) {
        Some(document) => match document.as_i64() {
            Some(number) => Ok(Some(number)),
            None => Err(FieldError { field, fault: Fault::Mistyped }),
        },
        None => Ok(None),
    }
}

/// Reads the required record `field`.
pub fn required_record<'a>(object: &'a Value, field: Field) -> (read: Result<&'a Value, FieldError>)
    ensures
        match read {
            Ok(document) => json_of(*object).required_record(field) == Ok::<JsonValue, FieldError>(
                json_of(*document),
            ),
            Err(error) => json_of(*object).required_record(field) == Err::<JsonValue, FieldError>(
                error,
            ),
        },
{
    let document = required(object, field)?;
    if document.is_object() {
        Ok(document)
    } else {
        Err(FieldError { field, fault: Fault::Mistyped })
    }
}

/// Reads the optional record `field`.
pub fn optional_record<'a>(object: &'a Value, field: Field) -> (read: Result<
    Option<&'a Value>,
    FieldError,
>)
    ensures
        match read {
            Ok(Some(document)) => json_of(*object).optional_record(field) == Ok::<
                Option<JsonValue>,
                FieldError,
            >(Some(json_of(*document))),
            Ok(None) => json_of(*object).optional_record(field) == Ok::<
                Option<JsonValue>,
                FieldError,
            >(None),
            Err(error) => json_of(*object).optional_record(field) == Err::<
                Option<JsonValue>,
                FieldError,
            >(error),
        },
{
    match optional(object, field) {
        Some(document) => if document.is_object() {
            Ok(Some(document))
        } else {
            Err(FieldError { field, fault: Fault::Mistyped })
        },
        None => Ok(None),
    }
}

/// Keeps the outcome of a parse where it is a JSON object.
pub fn accept_document(parsed: Result<Value, serde_json::Error>) -> (document: Option<Value>)
    ensures
        match document {
            Some(document) => accepted(parsed) == Some(json_of(document)),
            None => accepted(parsed) is None,
        },
{
    match parsed {
        Ok(value) => if value.is_object() {
            Some(value)
        } else {
            None
        },
        Err(_) => None,
    }
}

/// Parses the document that a text carries.
pub fn embedded_document(text: &str) -> (document: Option<Value>)
    ensures
        match document {
            Some(document) => embedded(text@) == Some(json_of(document)),
            None => embedded(text@) is None,
        },
{
    accept_document(parse(text))
}

/// Reads the document that the member `field` carries as JSON text, where
/// the member is `found`.
fn carried(found: Option<&Value>, field: Field) -> (read: Result<Value, FieldError>)
    ensures
        forall|object: JsonValue|
            object.member(field.key()) == (match found {
                Some(document) => Some(json_of(*document)),
                None => None,
            }) ==> (match read {
                Ok(document) => #[trigger] object.carried(field) == Ok::<JsonValue, FieldError>(
                    json_of(document),
                ),
                Err(error) => object.carried(field) == Err::<JsonValue, FieldError>(error),
            }),
{
    match found {
        Some(holder) => match holder.as_str() {
            Some(text) => match embedded_document(text) {
                Some(document) => Ok(document),
                None => Err(FieldError { field, fault: Fault::Unparsable }),
            },
            None => Err(FieldError { field, fault: Fault::Mistyped }),
        },
        None => Err(FieldError { field, fault: Fault::Missing }),
    }
}

/// Reads the document that the required member `field` carries as JSON
/// text.
pub fn required_embedded(object: &Value, field: Field) -> (read: Result<Value, FieldError>)
    ensures
        match read {
            Ok(document) => json_of(*object).required_embedded(field) == Ok::<
                JsonValue,
                FieldError,
            >(json_of(document)),
            Err(error) => json_of(*object).required_embedded(field) == Err::<JsonValue, FieldError>(
                error,
            ),
        },
{
    carried(member(object, field.name()), field)
}

/// Reads the document that the optional member `field` carries as JSON
/// text.
pub fn optional_embedded(object: &Value, field: Field) -> (read: Result<Option<Value>, FieldError>)
    ensures
        match read {
            Ok(Some(document)) => json_of(*object).optional_embedded(field) == Ok::<
                Option<JsonValue>,
                FieldError,
            >(Some(json_of(document))),
            Ok(None) => json_of(*object).optional_embedded(field) == Ok::<
                Option<JsonValue>,
                FieldError,
            >(None),
            Err(error) => json_of(*object).optional_embedded(field) == Err::<
                Option<JsonValue>,
                FieldError,
            >(error),
        },
{
    let found = member(object, field.name());
    if found.is_none() {
        Ok(None)
    } else {
        match carried(found, field) {
            Ok(document) => Ok(Some(document)),
            Err(error) => Err(error),
        }
    }
}

/// Reads the tracks that the items of the required list `field` carry as
/// JSON text.
pub fn required_tracks(
    object: &Value,
    field: Field,
) -> (read: Result<Vec<ProvidedTrack>, FieldError>)
    ensures
        outcome(read) == json_of(*object).required_embedded_list(field),
{
    let list = required(object, field)?;
    let texts = match text_list_of(list) {
        Some(texts) => texts,
        None => {
            return Err(FieldError { field, fault: Fault::Mistyped });
        },
    };
    let ghost carried = texts.deep_view();
    let mut tracks: Vec<ProvidedTrack> = Vec::new();
    let mut at: usize = 0;
    while at < texts.len()
        invariant
            at <= texts.len(),
            tracks.len() == at,
            carried == texts.deep_view(),
            json_of(*list).as_text_list() == Some(carried),
            json_of(*object).required(field) == Ok::<JsonValue, FieldError>(json_of(*list)),
            forall|i: int|
                0 <= i < at ==> embedded(carried[i]) == Some((#[trigger] tracks@[i]).deep_view()),
        decreases texts.len() - at,
    {
        match embedded_document(texts[at].as_str()) {
            Some(document) => {
                tracks.push(ProvidedTrack { document });
            },
            None => {
                assert(embedded(carried[at as int]) is None);
                return Err(FieldError { field, fault: Fault::Unparsable });
            },
        }
        at += 1;
    }
    proof {
        assert forall|i: int| 0 <= i < carried.len() implies embedded(carried[i]) is Some by {
            assert(embedded(carried[i]) == Some(tracks@[i].deep_view()));
        }
        assert(tracks.deep_view() =~= Seq::new(
            carried.len(),
            |i: int| embedded(carried[i])->Some_0,
        ));
    }
    Ok(tracks)
}

/// What [`accept_bytes`] makes of the outcome of decoding base64 text.
pub open spec fn accepted_bytes(decoded: Result<Vec<u8>, base64::DecodeError>) -> Option<Seq<u8>> {
    match decoded {
        Ok(bytes) => Some(bytes@),
        Err(_) => None,
    }
}

/// Keeps the bytes that decoding base64 text gave.
pub fn accept_bytes(decoded: Result<Vec<u8>, base64::DecodeError>) -> (bytes: Option<Vec<u8>>)
    ensures
        match bytes {
            Some(bytes) => accepted_bytes(decoded) == Some(bytes@),
            None => accepted_bytes(decoded) is None,
        },
{
    match decoded {
        Ok(bytes) => Some(bytes),
        Err(_) => None,
    }
}

/// Reads the bytes that the optional member `field` carries as base64
/// text.
pub fn optional_bytes(object: &Value, field: Field) -> (read: Result<Option<Vec<u8>>, FieldError>)
    ensures
        match read {
            Ok(Some(bytes)) => json_of(*object).optional_bytes(field) == Ok::<
                Option<Seq<u8>>,
                FieldError,
            >(Some(bytes@)),
            Ok(None) => json_of(*object).optional_bytes(field) == Ok::<Option<Seq<u8>>, FieldError>(
                None,
            ),
            Err(error) => json_of(*object).optional_bytes(field) == Err::<
                Option<Seq<u8>>,
                FieldError,
            >(error),
        },
{
    match member(object, field.name()) {
        Some(holder) => match holder.as_str() {
            Some(text) => match accept_bytes(decode_base64(text)) {
                Some(bytes) => Ok(Some(bytes)),
                None => Err(FieldError { field, fault: Fault::Unparsable }),
            },
            None => Err(FieldError { field, fault: Fault::Mistyped }),
        },
        None => Ok(None),
    }
}

} // verus!
