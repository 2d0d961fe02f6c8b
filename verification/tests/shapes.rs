use dealer_protocol::error::{Fault, FieldError};
use dealer_protocol::field::Field;
use dealer_protocol::request::{
    OptionsOptions, PlayCommand, SetOptionsCommand, SetValueCommand, TransferCommand,
};
use serde_json::Value;

fn json(text: &str) -> Value {
    serde_json::from_str(text).unwrap()
}

fn error<T>(field: Field, fault: Fault) -> Result<T, FieldError> {
    Err(FieldError { field, fault })
}

#[test]
fn switch_value_true() {
    let set = SetValueCommand::from_json(&json(r#"{"value": true, "logging_params": {}}"#)).unwrap();
    assert!(set.value);
}

#[test]
fn switch_value_false() {
    let set =
        SetValueCommand::from_json(&json(r#"{"value": false, "logging_params": {}}"#)).unwrap();
    assert!(!set.value);
}

#[test]
fn switch_value_missing() {
    assert_eq!(
        SetValueCommand::from_json(&json(r#"{"logging_params": {}}"#)),
        error(Field::Value, Fault::Missing)
    );
}

#[test]
fn switch_value_is_not_coerced() {
    assert_eq!(
        SetValueCommand::from_json(&json(r#"{"value": "true", "logging_params": {}}"#)),
        error(Field::Value, Fault::Mistyped)
    );
    assert_eq!(
        SetValueCommand::from_json(&json(r#"{"value": 1, "logging_params": {}}"#)),
        error(Field::Value, Fault::Mistyped)
    );
    assert_eq!(
        SetValueCommand::from_json(&json(r#"{"value": null, "logging_params": {}}"#)),
        error(Field::Value, Fault::Mistyped)
    );
}

#[test]
fn a_payload_that_is_no_object_misses_its_first_member() {
    assert_eq!(SetValueCommand::from_json(&json("[true]")), error(Field::Value, Fault::Missing));
}

#[test]
fn play_context_is_parsed_a_second_time() {
    let play = PlayCommand::from_json(&json(
        r#"{"context":"{\"uri\":\"x\"}","play_origin":"{}","options":{},"logging_params":{}}"#,
    ))
    .unwrap();
    let direct: Value = serde_json::from_str(r#"{"uri":"x"}"#).unwrap();
    assert_eq!(play.context.document, direct);
    assert_eq!(play.context.document.get("uri").and_then(Value::as_str), Some("x"));
}

#[test]
fn play_context_as_nested_object_fails() {
    assert_eq!(
        PlayCommand::from_json(&json(
            r#"{"context":{"uri":"x"},"play_origin":"{}","options":{},"logging_params":{}}"#
        )),
        error(Field::Context, Fault::Mistyped)
    );
}

#[test]
fn play_context_must_carry_an_object() {
    assert_eq!(
        PlayCommand::from_json(&json(
            r#"{"context":"{\"uri\":","play_origin":"{}","options":{},"logging_params":{}}"#
        )),
        error(Field::Context, Fault::Unparsable)
    );
    assert_eq!(
        PlayCommand::from_json(&json(
            r#"{"context":"5","play_origin":"{}","options":{},"logging_params":{}}"#
        )),
        error(Field::Context, Fault::Unparsable)
    );
    assert_eq!(
        PlayCommand::from_json(&json(
            r#"{"context":"","play_origin":"{}","options":{},"logging_params":{}}"#
        )),
        error(Field::Context, Fault::Unparsable)
    );
}

#[test]
fn play_requires_context_origin_and_options() {
    assert_eq!(
        PlayCommand::from_json(&json(r#"{"play_origin":"{}","options":{},"logging_params":{}}"#)),
        error(Field::Context, Fault::Missing)
    );
    assert_eq!(
        PlayCommand::from_json(&json(r#"{"context":"{}","options":{},"logging_params":{}}"#)),
        error(Field::PlayOrigin, Fault::Missing)
    );
    assert_eq!(
        PlayCommand::from_json(&json(r#"{"context":"{}","play_origin":"{}","logging_params":{}}"#)),
        error(Field::Options, Fault::Missing)
    );
    assert_eq!(
        PlayCommand::from_json(&json(
            r#"{"context":"{}","play_origin":"{}","options":{"player_options_override":{}},"logging_params":{}}"#
        )),
        error(Field::PlayerOptionsOverride, Fault::Mistyped)
    );
    assert_eq!(
        PlayCommand::from_json(&json(
            r#"{"context":"{}","play_origin":"{}","options":{"skip_to":{"track_index":"3"}},"logging_params":{}}"#
        )),
        error(Field::TrackIndex, Fault::Mistyped)
    );
}

const TRANSFER_REST: &str = r#""options":{"restore_paused":"restore","restore_position":"true","restore_track":"true","retain_session":"false"},"from_device_identifier":"abc","logging_params":{}"#;

#[test]
fn transfer_without_data() {
    let transfer =
        TransferCommand::from_json(&json(&format!("{{{}}}", TRANSFER_REST))).unwrap();
    assert_eq!(transfer.data, None);
}

#[test]
fn transfer_with_data_is_decoded_from_base64() {
    let transfer = TransferCommand::from_json(&json(&format!(
        "{{\"data\":\"aGVsbG8=\",{}}}",
        TRANSFER_REST
    )))
    .unwrap();
    assert_eq!(transfer.data.unwrap().bytes, b"hello".to_vec());
    let transfer =
        TransferCommand::from_json(&json(&format!("{{\"data\":\"\",{}}}", TRANSFER_REST)))
            .unwrap();
    assert_eq!(transfer.data.unwrap().bytes, Vec::<u8>::new());
    let transfer =
        TransferCommand::from_json(&json(&format!("{{\"data\":\"AAEC/w==\",{}}}", TRANSFER_REST)))
            .unwrap();
    assert_eq!(transfer.data.unwrap().bytes, vec![0u8, 1, 2, 255]);
}

#[test]
fn transfer_with_invalid_base64_fails() {
    assert_eq!(
        TransferCommand::from_json(&json(&format!(
            "{{\"data\":\"not base64!\",{}}}",
            TRANSFER_REST
        ))),
        error(Field::Data, Fault::Unparsable)
    );
    assert_eq!(
        TransferCommand::from_json(&json(&format!("{{\"data\":\"aGVsbG8\",{}}}", TRANSFER_REST))),
        error(Field::Data, Fault::Unparsable)
    );
}

#[test]
fn transfer_data_must_be_a_text() {
    assert_eq!(
        TransferCommand::from_json(&json(&format!("{{\"data\":[104],{}}}", TRANSFER_REST))),
        error(Field::Data, Fault::Mistyped)
    );
    assert_eq!(
        TransferCommand::from_json(&json(&format!("{{\"data\":null,{}}}", TRANSFER_REST))),
        error(Field::Data, Fault::Mistyped)
    );
}

#[test]
fn transfer_requires_its_members() {
    assert_eq!(
        TransferCommand::from_json(&json(r#"{"from_device_identifier":"abc","logging_params":{}}"#)),
        error(Field::Options, Fault::Missing)
    );
    assert_eq!(
        TransferCommand::from_json(&json(
            r#"{"options":{"restore_paused":"a","restore_position":"b","restore_track":"c"},"from_device_identifier":"abc","logging_params":{}}"#
        )),
        error(Field::RetainSession, Fault::Missing)
    );
    assert_eq!(
        TransferCommand::from_json(&json(
            r#"{"options":{"restore_paused":"a","restore_position":"b","restore_track":"c","retain_session":"d"},"logging_params":{}}"#
        )),
        error(Field::FromDeviceIdentifier, Fault::Missing)
    );
}

#[test]
fn set_options_with_only_nested_options() {
    let set = SetOptionsCommand::from_json(&json(
        r#"{"options":{"only_for_local_device":false,"override_restrictions":true,"system_initiated":false},"logging_params":{}}"#,
    ))
    .unwrap();
    assert_eq!(set.shuffling_context, None);
    assert_eq!(set.repeating_context, None);
    assert_eq!(set.repeating_track, None);
    assert_eq!(
        set.options,
        Some(OptionsOptions {
            only_for_local_device: false,
            override_restrictions: true,
            system_initiated: false,
        })
    );
}

#[test]
fn set_options_with_switches_and_nested_options() {
    let set = SetOptionsCommand::from_json(&json(
        r#"{"shuffling_context":true,"repeating_track":false,"options":{"only_for_local_device":true,"override_restrictions":false,"system_initiated":true},"logging_params":{}}"#,
    ))
    .unwrap();
    assert_eq!(set.shuffling_context, Some(true));
    assert_eq!(set.repeating_context, None);
    assert_eq!(set.repeating_track, Some(false));
    assert_eq!(
        set.options,
        Some(OptionsOptions {
            only_for_local_device: true,
            override_restrictions: false,
            system_initiated: true,
        })
    );
}

#[test]
fn set_options_with_only_switches() {
    let set = SetOptionsCommand::from_json(&json(
        r#"{"repeating_context":true,"options":null,"logging_params":{}}"#,
    ))
    .unwrap();
    assert_eq!(set.shuffling_context, None);
    assert_eq!(set.repeating_context, Some(true));
    assert_eq!(set.repeating_track, None);
    assert_eq!(set.options, None);
}

#[test]
fn set_options_nested_options_need_all_three() {
    assert_eq!(
        SetOptionsCommand::from_json(&json(
            r#"{"options":{"only_for_local_device":false,"system_initiated":false},"logging_params":{}}"#
        )),
        error(Field::OverrideRestrictions, Fault::Missing)
    );
    assert_eq!(
        SetOptionsCommand::from_json(&json(r#"{"options":true,"logging_params":{}}"#)),
        error(Field::Options, Fault::Mistyped)
    );
    assert_eq!(
        SetOptionsCommand::from_json(&json(r#"{"shuffling_context":"yes","logging_params":{}}"#)),
        error(Field::ShufflingContext, Fault::Mistyped)
    );
}
