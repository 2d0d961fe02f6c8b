use dealer_protocol::error::{DecodeFailure, Fault, FieldError};
use dealer_protocol::field::Field;
use dealer_protocol::kind::CommandKind;
use dealer_protocol::request::{Command, Request};
use serde_json::Value;

fn envelope_error(field: Field, fault: Fault) -> Result<Request, DecodeFailure> {
    Err(DecodeFailure::Envelope(FieldError { field, fault }))
}

#[test]
fn request_is_decoded() {
    let request = Request::decode(
        r#"{"message_id":7,"sent_by_device_id":"phone","command":{"endpoint":"seek_to","value":10,"position":20,"logging_params":{"command_id":"c"}}}"#,
    )
    .unwrap();
    assert_eq!(request.message_id, 7);
    assert_eq!(request.sent_by_device_id, "phone");
    match request.command {
        Command::SeekTo(seek) => {
            assert_eq!(seek.value, 10);
            assert_eq!(seek.position, 20);
            assert_eq!(seek.logging_params.command_id, Some("c".to_string()));
        }
        other => panic!("{:?}", other),
    }
}

#[test]
fn request_with_unknown_command_is_decoded() {
    let request = Request::decode(
        r#"{"message_id":0,"sent_by_device_id":"","command":{"endpoint":"future","x":[1]},"target_alias_id":null}"#,
    )
    .unwrap();
    assert_eq!(request.message_id, 0);
    assert_eq!(request.sent_by_device_id, "");
    let kept: Value = serde_json::from_str(r#"{"endpoint":"future","x":[1]}"#).unwrap();
    assert_eq!(request.command, Command::Unknown(kept));
    assert_eq!(request.command.label(), "future");
}

#[test]
fn decoding_twice_gives_equal_requests() {
    let buffer = r#"{"message_id":3,"sent_by_device_id":"web","command":{"endpoint":"play","context":"{\"uri\":\"x\"}","play_origin":"{\"feature\":\"f\"}","options":{"seek_to":5},"logging_params":{"interaction_ids":["i"]}}}"#;
    let first = Request::decode(buffer);
    let second = Request::decode(buffer);
    assert!(first.is_ok());
    assert_eq!(first, second);
    let third = Request::decode(buffer);
    assert_eq!(second, third);
}

#[test]
fn decoding_twice_gives_equal_errors() {
    let buffer = r#"{"message_id":3,"sent_by_device_id":"web","command":{"endpoint":"play"}}"#;
    let first = Request::decode(buffer);
    let second = Request::decode(buffer);
    assert_eq!(
        first,
        Err(DecodeFailure::Payload(
            CommandKind::Play,
            FieldError { field: Field::Context, fault: Fault::Missing }
        ))
    );
    assert_eq!(first, second);
}

#[test]
fn buffer_that_is_not_json_is_a_syntax_error() {
    assert_eq!(Request::decode(""), Err(DecodeFailure::Syntax));
    assert_eq!(Request::decode("{\"message_id\":1"), Err(DecodeFailure::Syntax));
    assert_eq!(Request::decode("{} trailing"), Err(DecodeFailure::Syntax));
    assert_eq!(Request::decode("message"), Err(DecodeFailure::Syntax));
}

#[test]
fn buffer_that_is_no_object_is_refused() {
    assert_eq!(Request::decode("[]"), Err(DecodeFailure::NotAnObject));
    assert_eq!(Request::decode("null"), Err(DecodeFailure::NotAnObject));
    assert_eq!(Request::decode("17"), Err(DecodeFailure::NotAnObject));
    assert_eq!(Request::decode("\"{}\""), Err(DecodeFailure::NotAnObject));
}

#[test]
fn envelope_members_are_required() {
    assert_eq!(Request::decode("{}"), envelope_error(Field::MessageId, Fault::Missing));
    assert_eq!(
        Request::decode(r#"{"sent_by_device_id":"a","command":{}}"#),
        envelope_error(Field::MessageId, Fault::Missing)
    );
    assert_eq!(
        Request::decode(r#"{"message_id":1,"command":{}}"#),
        envelope_error(Field::SentByDeviceId, Fault::Missing)
    );
    assert_eq!(
        Request::decode(r#"{"message_id":1,"sent_by_device_id":"a"}"#),
        envelope_error(Field::Command, Fault::Missing)
    );
}

#[test]
fn envelope_members_have_their_types() {
    assert_eq!(
        Request::decode(r#"{"message_id":"1","sent_by_device_id":"a","command":{}}"#),
        envelope_error(Field::MessageId, Fault::Mistyped)
    );
    assert_eq!(
        Request::decode(r#"{"message_id":4294967296,"sent_by_device_id":"a","command":{}}"#),
        envelope_error(Field::MessageId, Fault::Mistyped)
    );
    assert_eq!(
        Request::decode(r#"{"message_id":-1,"sent_by_device_id":"a","command":{}}"#),
        envelope_error(Field::MessageId, Fault::Mistyped)
    );
    assert_eq!(
        Request::decode(r#"{"message_id":null,"sent_by_device_id":"a","command":{}}"#),
        envelope_error(Field::MessageId, Fault::Mistyped)
    );
    assert_eq!(
        Request::decode(r#"{"message_id":1,"sent_by_device_id":5,"command":{}}"#),
        envelope_error(Field::SentByDeviceId, Fault::Mistyped)
    );
}

#[test]
fn largest_message_id_is_accepted() {
    let request =
        Request::decode(r#"{"message_id":4294967295,"sent_by_device_id":"a","command":{}}"#)
            .unwrap();
    assert_eq!(request.message_id, u32::MAX);
    assert_eq!(request.command.label(), "???");
}

#[test]
fn command_error_comes_after_the_envelope() {
    assert_eq!(
        Request::decode(r#"{"message_id":1,"sent_by_device_id":"a","command":{"endpoint":"pause"}}"#),
        Err(DecodeFailure::Payload(
            CommandKind::Pause,
            FieldError { field: Field::LoggingParams, fault: Fault::Missing }
        ))
    );
    assert_eq!(
        Request::decode(r#"{"sent_by_device_id":"a","command":{"endpoint":"pause"}}"#),
        envelope_error(Field::MessageId, Fault::Missing)
    );
}

#[test]
fn request_from_a_document_and_from_a_parse() {
    let text = r#"{"message_id":9,"sent_by_device_id":"tv","command":{"endpoint":"resume","logging_params":{}}}"#;
    let document: Value = serde_json::from_str(text).unwrap();
    let from_document = Request::from_json(&document);
    let from_parse = Request::from_parsed(serde_json::from_str::<Value>(text));
    assert_eq!(from_document, Request::decode(text));
    assert_eq!(from_parse, Request::decode(text));
    assert_eq!(
        Request::from_parsed(serde_json::from_str::<Value>("{")),
        Err(DecodeFailure::Syntax)
    );
}

#[test]
fn decoded_request_does_not_depend_on_the_buffer() {
    let request = {
        let buffer = String::from(
            r#"{"message_id":1,"sent_by_device_id":"a","command":{"endpoint":"x","k":"v"}}"#,
        );
        Request::decode(&buffer).unwrap()
    };
    assert_eq!(request.clone(), request);
    assert_eq!(request.command.describe(), "endpoint: unknown x");
}
