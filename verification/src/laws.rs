//! What holds of the decoders whatever they are given.
//!
//! Each law is proved from the spec functions that the decoders' contracts
//! speak of, so it holds of every value that a decoder returns.

use crate::codec::base64_decoded;
use crate::command::{endpoint_of, placeholder};
use crate::error::{failed, DecodeFailure, Fault, FieldError};
use crate::field::Field;
use crate::json::{parsed_json, JsonValue};
use crate::kind::{endpoint_selects_its_kind, kind_of, selected_kind_has_that_endpoint, CommandKind};
use crate::read::{embedded, outcome};
use crate::request::{
    CommandView, GenericCommandView, LoggingParamsView, OptionsOptionsView, PauseCommandView,
    PlayCommandView, Request, RequestView, SetOptionsCommandView, SetValueCommandView,
    TransferCommandView,
};
use vstd::prelude::*;

verus! {

/// A document whose `endpoint` names a known kind is decoded as a command of
/// that kind, or not at all. It is decoded exactly where its members make a
/// payload of that kind, and the error names the kind otherwise.
pub proof fn known_endpoint_decodes_as_its_kind(document: JsonValue, kind: CommandKind)
    requires
        endpoint_of(document) == Some(kind.endpoint()),
    ensures
        CommandView::from_json(document) is Ok <==> CommandView::payload(kind, document) is Ok,
        match CommandView::from_json(document) {
            Ok(command) => command.kind() == Some(kind),
            Err(failure) => failure matches DecodeFailure::Payload(named, _) && named == kind,
        },
{
    endpoint_selects_its_kind(kind);
}

/// A document whose `endpoint` names no known kind is kept whole, and the
/// label of the command is that `endpoint` text.
pub proof fn unknown_endpoint_is_kept(document: JsonValue, name: Seq<char>)
    requires
        endpoint_of(document) == Some(name),
        kind_of(name) is None,
    ensures
        CommandView::from_json(document) == Ok::<CommandView, DecodeFailure>(
            CommandView::Unknown(document),
        ),
        CommandView::Unknown(document).label() == name,
{
}

/// A document without an `endpoint` text is kept whole too, and the label of
/// the command is the placeholder.
pub proof fn missing_endpoint_is_kept(document: JsonValue)
    requires
        endpoint_of(document) is None,
    ensures
        CommandView::from_json(document) == Ok::<CommandView, DecodeFailure>(
            CommandView::Unknown(document),
        ),
        CommandView::Unknown(document).label() == placeholder(),
{
}

/// Decoding a command fails only for a document whose `endpoint` names a
/// known kind, and every command that is kept as a document is the document
/// that was decoded.
pub proof fn only_known_kinds_fail(document: JsonValue)
    ensures
        CommandView::from_json(document) is Err ==> endpoint_of(document) is Some && kind_of(
            endpoint_of(document)->Some_0,
        ) is Some,
        CommandView::from_json(document) matches Ok(CommandView::Unknown(kept)) ==> kept
            == document,
{
    match endpoint_of(document) {
        Some(name) => match kind_of(name) {
            Some(kind) => {
                selected_kind_has_that_endpoint(name);
                known_endpoint_decodes_as_its_kind(document, kind);
            },
            None => {},
        },
        None => {},
    }
}

/// The label of a decoded command is the `endpoint` text of the document
/// that it was decoded from.
pub proof fn label_is_the_endpoint(document: JsonValue, name: Seq<char>)
    requires
        endpoint_of(document) == Some(name),
        CommandView::from_json(document) is Ok,
    ensures
        CommandView::from_json(document)->Ok_0.label() == name,
{
    match kind_of(name) {
        Some(kind) => {
            selected_kind_has_that_endpoint(name);
            known_endpoint_decodes_as_its_kind(document, kind);
        },
        None => {},
    }
}

/// Logging parameters without members are read, and every one of them is
/// absent. So a command that carries nothing else is decoded from an object
/// whose `logging_params` member is `{}`, whatever else the object holds.
pub proof fn empty_logging_params_are_read(object: JsonValue)
    requires
        object.member(Field::LoggingParams.key()) == Some(
            JsonValue::Object(Map::<Seq<char>, JsonValue>::empty()),
        ),
    ensures
        LoggingParamsView::read(object, Field::LoggingParams) == Ok::<
            LoggingParamsView,
            FieldError,
        >(
            LoggingParamsView {
                interaction_ids: None,
                device_identifier: None,
                command_initiated_time: None,
                page_instance_ids: None,
                command_id: None,
            },
        ),
        GenericCommandView::from_json(object) is Ok,
        PauseCommandView::from_json(object) is Ok,
{
}

/// A switch command holds the flag of its `value` member.
pub proof fn switch_holds_its_value(object: JsonValue, flag: bool)
    requires
        object.member(Field::Value.key()) == Some(JsonValue::Boolean(flag)),
        LoggingParamsView::read(object, Field::LoggingParams) is Ok,
    ensures
        SetValueCommandView::from_json(object) == Ok::<SetValueCommandView, FieldError>(
            SetValueCommandView {
                value: flag,
                logging_params: LoggingParamsView::read(object, Field::LoggingParams)->Ok_0,
            },
        ),
{
}

/// A switch command without a `value` member is refused.
pub proof fn switch_requires_its_value(object: JsonValue)
    requires
        object.member(Field::Value.key()) is None,
    ensures
        SetValueCommandView::from_json(object) == Err::<SetValueCommandView, FieldError>(
            failed(Field::Value, Fault::Missing),
        ),
{
}

/// The document that a text carries is what parsing the text gives, and is a
/// JSON object.
pub proof fn carried_document_is_parsed(text: Seq<char>)
    ensures
        embedded(text) matches Some(document) ==> parsed_json(text) == Some(document)
            && document is Object,
{
}

/// The context of a play command is what parsing the text of its `context`
/// member gives.
pub proof fn play_context_is_parsed_again(object: JsonValue)
    requires
        PlayCommandView::from_json(object) is Ok,
    ensures
        object.member(Field::Context.key()) is Some,
        object.member(Field::Context.key())->Some_0 is Text,
        parsed_json(object.member(Field::Context.key())->Some_0->Text_0) == Some(
            PlayCommandView::from_json(object)->Ok_0.context,
        ),
{
}

/// A play command whose `context` member is anything but a text is refused,
/// a nested object too.
pub proof fn play_context_must_be_text(object: JsonValue)
    requires
        object.member(Field::Context.key()) is Some,
        !(object.member(Field::Context.key())->Some_0 is Text),
    ensures
        PlayCommandView::from_json(object) == Err::<PlayCommandView, FieldError>(
            failed(Field::Context, Fault::Mistyped),
        ),
{
}

/// A transfer command without a `data` member, where it is decoded, holds no
/// state.
pub proof fn transfer_without_data_holds_none(object: JsonValue)
    requires
        object.member(Field::Data.key()) is None,
    ensures
        TransferCommandView::from_json(object) matches Ok(transfer) ==> transfer.data is None,
{
}

/// A transfer command whose `data` member is a text that is not base64 is
/// refused.
pub proof fn transfer_data_must_be_base64(object: JsonValue, text: Seq<char>)
    requires
        object.member(Field::Data.key()) == Some(JsonValue::Text(text)),
        base64_decoded(text) is None,
    ensures
        TransferCommandView::from_json(object) == Err::<TransferCommandView, FieldError>(
            failed(Field::Data, Fault::Unparsable),
        ),
{
}

/// A set-options command that supplies the nested options and none of the
/// three switches is decoded, and the switches are absent in it: none is
/// taken to be `false`.
pub proof fn absent_switches_stay_absent(object: JsonValue)
    requires
        object.member(Field::ShufflingContext.key()) is None,
        object.member(Field::RepeatingContext.key()) is None,
        object.member(Field::RepeatingTrack.key()) is None,
        OptionsOptionsView::read_optional(object, Field::Options) is Ok,
        LoggingParamsView::read(object, Field::LoggingParams) is Ok,
    ensures
        SetOptionsCommandView::from_json(object) == Ok::<SetOptionsCommandView, FieldError>(
            SetOptionsCommandView {
                shuffling_context: None,
                repeating_context: None,
                repeating_track: None,
                options: OptionsOptionsView::read_optional(object, Field::Options)->Ok_0,
                logging_params: LoggingParamsView::read(object, Field::LoggingParams)->Ok_0,
            },
        ),
{
}

/// The switches of a set-options command and its nested options do not
/// depend on each other: what is read for the one is what the member holds,
/// whatever the other is.
pub proof fn switches_and_nested_options_are_independent(object: JsonValue)
    requires
        SetOptionsCommandView::from_json(object) is Ok,
    ensures
        Ok::<Option<bool>, FieldError>(
            SetOptionsCommandView::from_json(object)->Ok_0.shuffling_context,
        )
            == object.optional_flag(Field::ShufflingContext),
        Ok::<Option<bool>, FieldError>(
            SetOptionsCommandView::from_json(object)->Ok_0.repeating_context,
        )
            == object.optional_flag(Field::RepeatingContext),
        Ok::<Option<bool>, FieldError>(
            SetOptionsCommandView::from_json(object)->Ok_0.repeating_track,
        )
            == object.optional_flag(Field::RepeatingTrack),
        Ok::<Option<OptionsOptionsView>, FieldError>(
            SetOptionsCommandView::from_json(object)->Ok_0.options,
        ) == OptionsOptionsView::read_optional(object, Field::Options),
{
}

/// Decoding is a function of the buffer: two results of decoding one buffer
/// are the same request, or the same error.
pub proof fn same_buffer_same_request(
    buffer: Seq<char>,
    first: Result<Request, DecodeFailure>,
    second: Result<Request, DecodeFailure>,
)
    requires
        outcome(first) == RequestView::decoded(buffer),
        outcome(second) == RequestView::decoded(buffer),
    ensures
        outcome(first) == outcome(second),
{
}

/// A buffer is decoded exactly where it holds a JSON object whose envelope
/// members can be read and whose command can be decoded; a buffer that is
/// not JSON is a syntax error.
pub proof fn request_is_whole_or_refused(buffer: Seq<char>)
    ensures
        parsed_json(buffer) is None ==> RequestView::decoded(buffer) == Err::<
            RequestView,
            DecodeFailure,
        >(DecodeFailure::Syntax),
        RequestView::decoded(buffer) matches Ok(request) ==> {
            let document = parsed_json(buffer)->Some_0;
            &&& parsed_json(buffer) is Some
            &&& document is Object
            &&& document.required_u32(Field::MessageId) == Ok::<u32, FieldError>(request.message_id)
            &&& document.required_text(Field::SentByDeviceId) == Ok::<Seq<char>, FieldError>(
                request.sent_by_device_id,
            )
            &&& document.member(Field::Command.key()) is Some
            &&& CommandView::from_json(document.member(Field::Command.key())->Some_0) == Ok::<
                CommandView,
                DecodeFailure,
            >(request.command)
        },
{
}

} // verus!
