use dealer_protocol::error::{DecodeFailure, Fault, FieldError};
use dealer_protocol::field::Field;
use dealer_protocol::kind::CommandKind;
use dealer_protocol::request::{Command, LoggingParams};
use serde_json::Value;

fn json(text: &str) -> Value {
    serde_json::from_str(text).unwrap()
}

fn no_logging_params() -> LoggingParams {
    LoggingParams {
        interaction_ids: None,
        device_identifier: None,
        command_initiated_time: None,
        page_instance_ids: None,
        command_id: None,
    }
}

fn payload_error(kind: CommandKind, field: Field, fault: Fault) -> DecodeFailure {
    DecodeFailure::Payload(kind, FieldError { field, fault })
}

#[test]
fn minimal_transfer_decodes() {
    let document = json(
        r#"{"endpoint":"transfer","options":{"restore_paused":"restore","restore_position":"true","restore_track":"true","retain_session":"false"},"from_device_identifier":"abc","logging_params":{}}"#,
    );
    match Command::from_json(&document) {
        Ok(Command::Transfer(transfer)) => {
            assert_eq!(transfer.data, None);
            assert_eq!(transfer.options.restore_paused, "restore");
            assert_eq!(transfer.options.restore_position, "true");
            assert_eq!(transfer.options.restore_track, "true");
            assert_eq!(transfer.options.retain_session, "false");
            assert_eq!(transfer.from_device_identifier, "abc");
            assert_eq!(transfer.logging_params, no_logging_params());
        }
        other => panic!("{:?}", other),
    }
}

#[test]
fn minimal_play_decodes() {
    let document = json(
        r#"{"endpoint":"play","context":"{\"uri\":\"x\"}","play_origin":"{}","options":{},"logging_params":{}}"#,
    );
    match Command::from_json(&document) {
        Ok(Command::Play(play)) => {
            assert_eq!(play.context.document, json(r#"{"uri":"x"}"#));
            assert_eq!(play.play_origin.document, json("{}"));
            assert_eq!(play.options.skip_to, None);
            assert_eq!(play.options.player_options_override, None);
            assert_eq!(play.options.license, None);
            assert_eq!(play.options.seek_to, None);
            assert_eq!(play.options.always_play_something, None);
            assert_eq!(play.options.audio_stream, None);
            assert_eq!(play.options.initially_paused, None);
            assert_eq!(play.options.prefetch_level, None);
            assert_eq!(play.options.system_initiated, None);
            assert_eq!(play.logging_params, no_logging_params());
        }
        other => panic!("{:?}", other),
    }
}

#[test]
fn minimal_pause_decodes() {
    let document = json(r#"{"endpoint":"pause","logging_params":{}}"#);
    match Command::from_json(&document) {
        Ok(Command::Pause(pause)) => assert_eq!(pause.logging_params, no_logging_params()),
        other => panic!("{:?}", other),
    }
}

#[test]
fn minimal_seek_to_decodes() {
    let document = json(r#"{"endpoint":"seek_to","value":1500,"position":42,"logging_params":{}}"#);
    match Command::from_json(&document) {
        Ok(Command::SeekTo(seek)) => {
            assert_eq!(seek.value, 1500);
            assert_eq!(seek.position, 42);
            assert_eq!(seek.logging_params, no_logging_params());
        }
        other => panic!("{:?}", other),
    }
}

#[test]
fn minimal_set_shuffling_context_decodes() {
    let document = json(r#"{"endpoint":"set_shuffling_context","value":true,"logging_params":{}}"#);
    match Command::from_json(&document) {
        Ok(Command::SetShufflingContext(set)) => assert!(set.value),
        other => panic!("{:?}", other),
    }
}

#[test]
fn minimal_set_repeating_track_decodes() {
    let document = json(r#"{"endpoint":"set_repeating_track","value":false,"logging_params":{}}"#);
    match Command::from_json(&document) {
        Ok(Command::SetRepeatingTrack(set)) => assert!(!set.value),
        other => panic!("{:?}", other),
    }
}

#[test]
fn minimal_set_repeating_context_decodes() {
    let document = json(r#"{"endpoint":"set_repeating_context","value":true,"logging_params":{}}"#);
    match Command::from_json(&document) {
        Ok(Command::SetRepeatingContext(set)) => assert!(set.value),
        other => panic!("{:?}", other),
    }
}

#[test]
fn minimal_add_to_queue_decodes() {
    let document = json(
        r#"{"endpoint":"add_to_queue","track":"{\"uri\":\"track:1\"}","logging_params":{}}"#,
    );
    match Command::from_json(&document) {
        Ok(Command::AddToQueue(add)) => {
            assert_eq!(add.track.document, json(r#"{"uri":"track:1"}"#));
        }
        other => panic!("{:?}", other),
    }
}

#[test]
fn minimal_set_queue_decodes() {
    let document = json(
        r#"{"endpoint":"set_queue","next_tracks":[],"prev_tracks":[],"queue_revision":"7","logging_params":{}}"#,
    );
    match Command::from_json(&document) {
        Ok(Command::SetQueue(set)) => {
            assert!(set.next_tracks.is_empty());
            assert!(set.prev_tracks.is_empty());
            assert_eq!(set.queue_revision, "7");
        }
        other => panic!("{:?}", other),
    }
}

#[test]
fn minimal_set_options_decodes() {
    let document = json(r#"{"endpoint":"set_options","logging_params":{}}"#);
    match Command::from_json(&document) {
        Ok(Command::SetOptions(set)) => {
            assert_eq!(set.shuffling_context, None);
            assert_eq!(set.repeating_context, None);
            assert_eq!(set.repeating_track, None);
            assert_eq!(set.options, None);
        }
        other => panic!("{:?}", other),
    }
}

#[test]
fn minimal_update_context_decodes() {
    let document = json(r#"{"endpoint":"update_context","context":"{\"uri\":\"y\"}"}"#);
    match Command::from_json(&document) {
        Ok(Command::UpdateContext(update)) => {
            assert_eq!(update.context.document, json(r#"{"uri":"y"}"#));
            assert_eq!(update.session_id, None);
        }
        other => panic!("{:?}", other),
    }
}

#[test]
fn minimal_skip_next_decodes() {
    let document = json(r#"{"endpoint":"skip_next","logging_params":{}}"#);
    match Command::from_json(&document) {
        Ok(Command::SkipNext(skip)) => assert_eq!(skip.track, None),
        other => panic!("{:?}", other),
    }
}

#[test]
fn minimal_skip_prev_decodes() {
    let document = json(r#"{"endpoint":"skip_prev","logging_params":{}}"#);
    match Command::from_json(&document) {
        Ok(Command::SkipPrev(generic)) => assert_eq!(generic.logging_params, no_logging_params()),
        other => panic!("{:?}", other),
    }
}

#[test]
fn minimal_resume_decodes() {
    let document = json(r#"{"endpoint":"resume","logging_params":{}}"#);
    match Command::from_json(&document) {
        Ok(Command::Resume(generic)) => assert_eq!(generic.logging_params, no_logging_params()),
        other => panic!("{:?}", other),
    }
}

#[test]
fn every_kind_is_reported_by_its_command() {
    let pause = Command::from_json(&json(r#"{"endpoint":"pause","logging_params":{}}"#)).unwrap();
    assert_eq!(pause.kind(), Some(CommandKind::Pause));
    let resume = Command::from_json(&json(r#"{"endpoint":"resume","logging_params":{}}"#)).unwrap();
    assert_eq!(resume.kind(), Some(CommandKind::Resume));
    let unknown = Command::from_json(&json(r#"{"endpoint":"rewind"}"#)).unwrap();
    assert_eq!(unknown.kind(), None);
}

#[test]
fn additional_members_are_ignored() {
    let document = json(
        r#"{"endpoint":"pause","options":{"anything":[1,2,3]},"logging_params":{"extra":1},"more":null}"#,
    );
    match Command::from_json(&document) {
        Ok(Command::Pause(pause)) => assert_eq!(pause.logging_params, no_logging_params()),
        other => panic!("{:?}", other),
    }
}

#[test]
fn logging_params_are_handed_on() {
    let document = json(
        r#"{"endpoint":"resume","logging_params":{"interaction_ids":["a","b"],"device_identifier":"dev","command_initiated_time":1700000000000,"page_instance_ids":[],"command_id":"c1"}}"#,
    );
    match Command::from_json(&document) {
        Ok(Command::Resume(generic)) => {
            let params = generic.logging_params;
            assert_eq!(params.interaction_ids, Some(vec!["a".to_string(), "b".to_string()]));
            assert_eq!(params.device_identifier, Some("dev".to_string()));
            assert_eq!(params.command_initiated_time, Some(1700000000000));
            assert_eq!(params.page_instance_ids, Some(vec![]));
            assert_eq!(params.command_id, Some("c1".to_string()));
        }
        other => panic!("{:?}", other),
    }
}

#[test]
fn null_is_an_absent_plain_member() {
    let document = json(
        r#"{"endpoint":"resume","logging_params":{"interaction_ids":null,"device_identifier":null,"command_initiated_time":null,"command_id":null}}"#,
    );
    match Command::from_json(&document) {
        Ok(Command::Resume(generic)) => assert_eq!(generic.logging_params, no_logging_params()),
        other => panic!("{:?}", other),
    }
}

#[test]
fn negative_time_is_kept() {
    let document = json(r#"{"endpoint":"resume","logging_params":{"command_initiated_time":-5}}"#);
    match Command::from_json(&document) {
        Ok(Command::Resume(generic)) => {
            assert_eq!(generic.logging_params.command_initiated_time, Some(-5));
        }
        other => panic!("{:?}", other),
    }
}

#[test]
fn time_beyond_i64_is_mistyped() {
    let document =
        json(r#"{"endpoint":"resume","logging_params":{"command_initiated_time":9223372036854775808}}"#);
    assert_eq!(
        Command::from_json(&document),
        Err(payload_error(CommandKind::Resume, Field::CommandInitiatedTime, Fault::Mistyped))
    );
}

#[test]
fn missing_logging_params_is_an_error() {
    let document = json(r#"{"endpoint":"pause"}"#);
    assert_eq!(
        Command::from_json(&document),
        Err(payload_error(CommandKind::Pause, Field::LoggingParams, Fault::Missing))
    );
}

#[test]
fn logging_params_must_be_an_object() {
    let document = json(r#"{"endpoint":"pause","logging_params":[]}"#);
    assert_eq!(
        Command::from_json(&document),
        Err(payload_error(CommandKind::Pause, Field::LoggingParams, Fault::Mistyped))
    );
    let document = json(r#"{"endpoint":"pause","logging_params":null}"#);
    assert_eq!(
        Command::from_json(&document),
        Err(payload_error(CommandKind::Pause, Field::LoggingParams, Fault::Mistyped))
    );
}

#[test]
fn interaction_ids_must_all_be_texts() {
    let document = json(r#"{"endpoint":"pause","logging_params":{"interaction_ids":["a",1]}}"#);
    assert_eq!(
        Command::from_json(&document),
        Err(payload_error(CommandKind::Pause, Field::InteractionIds, Fault::Mistyped))
    );
}

#[test]
fn seek_to_requires_both_numbers() {
    let document = json(r#"{"endpoint":"seek_to","position":42,"logging_params":{}}"#);
    assert_eq!(
        Command::from_json(&document),
        Err(payload_error(CommandKind::SeekTo, Field::Value, Fault::Missing))
    );
    let document = json(r#"{"endpoint":"seek_to","value":42,"logging_params":{}}"#);
    assert_eq!(
        Command::from_json(&document),
        Err(payload_error(CommandKind::SeekTo, Field::Position, Fault::Missing))
    );
    let document = json(r#"{"endpoint":"seek_to","value":null,"position":1,"logging_params":{}}"#);
    assert_eq!(
        Command::from_json(&document),
        Err(payload_error(CommandKind::SeekTo, Field::Value, Fault::Mistyped))
    );
}

#[test]
fn seek_to_numbers_fit_in_32_bits() {
    let document =
        json(r#"{"endpoint":"seek_to","value":4294967295,"position":0,"logging_params":{}}"#);
    match Command::from_json(&document) {
        Ok(Command::SeekTo(seek)) => {
            assert_eq!(seek.value, 4294967295);
            assert_eq!(seek.position, 0);
        }
        other => panic!("{:?}", other),
    }
    let document =
        json(r#"{"endpoint":"seek_to","value":4294967296,"position":0,"logging_params":{}}"#);
    assert_eq!(
        Command::from_json(&document),
        Err(payload_error(CommandKind::SeekTo, Field::Value, Fault::Mistyped))
    );
    let document = json(r#"{"endpoint":"seek_to","value":-1,"position":0,"logging_params":{}}"#);
    assert_eq!(
        Command::from_json(&document),
        Err(payload_error(CommandKind::SeekTo, Field::Value, Fault::Mistyped))
    );
    let document = json(r#"{"endpoint":"seek_to","value":1.5,"position":0,"logging_params":{}}"#);
    assert_eq!(
        Command::from_json(&document),
        Err(payload_error(CommandKind::SeekTo, Field::Value, Fault::Mistyped))
    );
    let document = json(r#"{"endpoint":"seek_to","value":"1","position":0,"logging_params":{}}"#);
    assert_eq!(
        Command::from_json(&document),
        Err(payload_error(CommandKind::SeekTo, Field::Value, Fault::Mistyped))
    );
}

#[test]
fn the_first_member_that_fails_is_reported() {
    let document = json(r#"{"endpoint":"seek_to","value":"x","position":"y"}"#);
    assert_eq!(
        Command::from_json(&document),
        Err(payload_error(CommandKind::SeekTo, Field::Value, Fault::Mistyped))
    );
}

#[test]
fn transfer_options_are_kept_as_texts() {
    let document = json(
        r#"{"endpoint":"transfer","options":{"restore_paused":"pause","restore_position":"yes","restore_track":"","retain_session":"TRUE"},"from_device_identifier":"abc","logging_params":{}}"#,
    );
    match Command::from_json(&document) {
        Ok(Command::Transfer(transfer)) => {
            assert_eq!(transfer.options.restore_paused, "pause");
            assert_eq!(transfer.options.restore_position, "yes");
            assert_eq!(transfer.options.restore_track, "");
            assert_eq!(transfer.options.retain_session, "TRUE");
        }
        other => panic!("{:?}", other),
    }
}

#[test]
fn transfer_options_are_not_booleans() {
    let document = json(
        r#"{"endpoint":"transfer","options":{"restore_paused":true,"restore_position":"true","restore_track":"true","retain_session":"false"},"from_device_identifier":"abc","logging_params":{}}"#,
    );
    assert_eq!(
        Command::from_json(&document),
        Err(payload_error(CommandKind::Transfer, Field::RestorePaused, Fault::Mistyped))
    );
}

#[test]
fn play_options_are_read_whichever_are_sent() {
    let document = json(
        r#"{"endpoint":"play","context":"{}","play_origin":"{}","options":{"skip_to":{"track_uid":"u","track_index":3},"player_options_override":"{\"shuffling_context\":true}","license":"premium","seek_to":1000,"always_play_something":false,"audio_stream":"default","initially_paused":true,"prefetch_level":"none","system_initiated":false},"logging_params":{}}"#,
    );
    match Command::from_json(&document) {
        Ok(Command::Play(play)) => {
            let skip_to = play.options.skip_to.unwrap();
            assert_eq!(skip_to.track_uid, Some("u".to_string()));
            assert_eq!(skip_to.track_uri, None);
            assert_eq!(skip_to.track_index, Some(3));
            assert_eq!(
                play.options.player_options_override.unwrap().document,
                json(r#"{"shuffling_context":true}"#)
            );
            assert_eq!(play.options.license, Some("premium".to_string()));
            assert_eq!(play.options.seek_to, Some(1000));
            assert_eq!(play.options.always_play_something, Some(false));
            assert_eq!(play.options.audio_stream, Some("default".to_string()));
            assert_eq!(play.options.initially_paused, Some(true));
            assert_eq!(play.options.prefetch_level, Some("none".to_string()));
            assert_eq!(play.options.system_initiated, Some(false));
        }
        other => panic!("{:?}", other),
    }
}

#[test]
fn set_queue_tracks_are_parsed_in_order() {
    let document = json(
        r#"{"endpoint":"set_queue","next_tracks":["{\"uri\":\"a\"}","{\"uri\":\"b\"}"],"prev_tracks":["{\"uri\":\"c\"}"],"queue_revision":"12","logging_params":{}}"#,
    );
    match Command::from_json(&document) {
        Ok(Command::SetQueue(set)) => {
            assert_eq!(set.next_tracks.len(), 2);
            assert_eq!(set.next_tracks[0].document, json(r#"{"uri":"a"}"#));
            assert_eq!(set.next_tracks[1].document, json(r#"{"uri":"b"}"#));
            assert_eq!(set.prev_tracks.len(), 1);
            assert_eq!(set.prev_tracks[0].document, json(r#"{"uri":"c"}"#));
            assert_eq!(set.queue_revision, "12");
        }
        other => panic!("{:?}", other),
    }
}

#[test]
fn set_queue_tracks_must_be_texts_that_parse() {
    let document = json(
        r#"{"endpoint":"set_queue","next_tracks":[{"uri":"a"}],"prev_tracks":[],"queue_revision":"1","logging_params":{}}"#,
    );
    assert_eq!(
        Command::from_json(&document),
        Err(payload_error(CommandKind::SetQueue, Field::NextTracks, Fault::Mistyped))
    );
    let document = json(
        r#"{"endpoint":"set_queue","next_tracks":[],"prev_tracks":["{oops"],"queue_revision":"1","logging_params":{}}"#,
    );
    assert_eq!(
        Command::from_json(&document),
        Err(payload_error(CommandKind::SetQueue, Field::PrevTracks, Fault::Unparsable))
    );
    let document = json(
        r#"{"endpoint":"set_queue","next_tracks":["{oops", 5],"prev_tracks":[],"queue_revision":"1","logging_params":{}}"#,
    );
    assert_eq!(
        Command::from_json(&document),
        Err(payload_error(CommandKind::SetQueue, Field::NextTracks, Fault::Mistyped))
    );
    let document = json(
        r#"{"endpoint":"set_queue","next_tracks":"[]","prev_tracks":[],"queue_revision":"1","logging_params":{}}"#,
    );
    assert_eq!(
        Command::from_json(&document),
        Err(payload_error(CommandKind::SetQueue, Field::NextTracks, Fault::Mistyped))
    );
}

#[test]
fn skip_next_track_is_optional_but_never_null() {
    let document =
        json(r#"{"endpoint":"skip_next","track":"{\"uid\":\"t\"}","logging_params":{}}"#);
    match Command::from_json(&document) {
        Ok(Command::SkipNext(skip)) => {
            assert_eq!(skip.track.unwrap().document, json(r#"{"uid":"t"}"#));
        }
        other => panic!("{:?}", other),
    }
    let document = json(r#"{"endpoint":"skip_next","track":null,"logging_params":{}}"#);
    assert_eq!(
        Command::from_json(&document),
        Err(payload_error(CommandKind::SkipNext, Field::Track, Fault::Mistyped))
    );
    let document = json(r#"{"endpoint":"skip_next","track":"nonsense","logging_params":{}}"#);
    assert_eq!(
        Command::from_json(&document),
        Err(payload_error(CommandKind::SkipNext, Field::Track, Fault::Unparsable))
    );
}

#[test]
fn update_context_session_id_is_read() {
    let document =
        json(r#"{"endpoint":"update_context","context":"{}","session_id":"s-1","logging_params":5}"#);
    match Command::from_json(&document) {
        Ok(Command::UpdateContext(update)) => {
            assert_eq!(update.session_id, Some("s-1".to_string()));
        }
        other => panic!("{:?}", other),
    }
}

#[test]
fn a_failed_message_does_not_affect_the_next() {
    let bad = json(r#"{"endpoint":"pause"}"#);
    let good = json(r#"{"endpoint":"pause","logging_params":{}}"#);
    assert!(Command::from_json(&bad).is_err());
    assert!(Command::from_json(&good).is_ok());
    assert!(Command::from_json(&bad).is_err());
}
